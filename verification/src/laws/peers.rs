//! Relationships: whom a label means, what an introduction pins, what a removal takes away, and
//! what a standing approval is for.
use crate::address;
use crate::control::Problem;
use crate::coord_egress;
use crate::endpoint::EndpointView;
use crate::coord_peers::FeatureReportView;
use crate::operator::{Answer, Effect, PerformerView, Reply};
use crate::operator;
use crate::receive_coord;
use crate::request::{ControlRequest, TokenReading};
use crate::store::imports;
use crate::store::peers;
use crate::store::StoreView;
use crate::text;
use vstd::prelude::*;
use vstd::utf8::*;

verus! {

/// Another relationship than the one with a root has a label.
pub open spec fn held_by_another(v: StoreView, root: Seq<char>, label: Seq<char>) -> bool {
    exists|other: Seq<char>| #[trigger]
        v.imports.contains_key(other) && other != root && v.imports[other].label == Some(label)
}

proof fn lemma_held(v: StoreView, root: Seq<char>, label: Seq<char>)
    ensures
        imports::label_taken(v, root, label) == held_by_another(v, root, label),
{
    if imports::label_taken(v, root, label) {
        let other = choose|other: Seq<char>| other != root && #[trigger] imports::holds_label(v, other, label);
        assert(v.imports.contains_key(other));
    }
    if held_by_another(v, root, label) {
        let other = choose|other: Seq<char>| #[trigger]
            v.imports.contains_key(other) && other != root && v.imports[other].label == Some(label);
        assert(imports::holds_label(v, other, label));
    }
}

/// A peer is imported exactly where its token can be read and is not one's own, the label is one
/// and is free, the hint is one or there is none, and the relationship is new, or live where it
/// is to be changed. Otherwise nothing changes.
pub proof fn a_peer_is_imported_where_it_can_be(
    v: StoreView,
    w: StoreView,
    own_root: Seq<char>,
    token: TokenReading,
    suffix: Option<Seq<char>>,
    label: Seq<char>,
    endpoint: Option<Seq<char>>,
    update: bool,
    wall: i64,
    r: Result<Reply, Problem>,
)
    requires
        operator::imports_peer(v, w, own_root, token, suffix, label, endpoint, update, wall, r),
    ensures
        ({
            let root = token->Root_0@;
            let hint = if endpoint is Some {
                endpoint
            } else {
                suffix
            };
            let live = v.imports.contains_key(root) && v.imports[root].tombstoned_at is None;
            &&& (r is Ok) <==> (token is Root && root != own_root && address::is_label(label) && (
            hint is Some ==> address::is_hint(hint->0)) && live == update && !held_by_another(
                v,
                root,
                label,
            ))
            &&& r is Err ==> w == v
            &&& r is Err && token is Unreadable ==> r->Err_0@.status == 400
            &&& r is Err && token is Root && (root == own_root || !address::is_label(label)) ==> r->Err_0@.status
                == 400
        }),
{
    lemma_held(v, token->Root_0@, label);
}

/// An imported peer is found by its label: with the root of the token, and the hint that was
/// given, or that of the token. It begins in the first epoch, or in the one that its removal left
/// it. Nothing is pinned by it. The reply says the same.
pub proof fn an_imported_peer_is_found_by_its_label(
    v: StoreView,
    w: StoreView,
    own_root: Seq<char>,
    token: TokenReading,
    suffix: Option<Seq<char>>,
    label: Seq<char>,
    endpoint: Option<Seq<char>>,
    update: bool,
    wall: i64,
    r: Result<Reply, Problem>,
)
    requires
        w.consistent(),
        operator::imports_peer(v, w, own_root, token, suffix, label, endpoint, update, wall, r),
        r is Ok,
    ensures
        ({
            let root = token->Root_0@;
            let row = w.imports[root];
            let hint = if endpoint is Some {
                endpoint
            } else {
                suffix
            };
            let found = imports::labelled(w, label);
            &&& found is Some
            &&& found->0.root_thumbprint == root
            &&& found->0.label == label
            &&& found->0.endpoint_hint == row.endpoint_hint
            &&& found->0.epoch == row.epoch
            &&& row.tombstoned_at is None
            &&& hint is Some ==> row.endpoint_hint == hint->0
            &&& hint is None && !update ==> row.endpoint_hint.len() == 0
            &&& hint is None && update ==> row.endpoint_hint == v.imports[root].endpoint_hint
            &&& v.imports.contains_key(root) ==> row.epoch == v.imports[root].epoch
            &&& !v.imports.contains_key(root) ==> row.epoch == 1
            &&& !update ==> row.added_at == wall
            &&& update ==> row.added_at == v.imports[root].added_at
            &&& r->Ok_0 matches Reply::Imported(reply)
            &&& reply@.label == label
            &&& reply@.root_thumbprint == root
            &&& reply@.endpoint_hint == hint
            &&& w.peers == v.peers
            &&& w.peer_keys == v.peer_keys
            &&& w.auto_approve == v.auto_approve
            &&& forall|other: Seq<char>| other != root ==> (#[trigger] w.imports.contains_key(other)
                == v.imports.contains_key(other)) && w.imports[other] == v.imports[other]
        }),
{
    let root = token->Root_0@;
    assert(imports::holds_label(w, root, label));
    imports::lemma_labelled(w, root, label);
}

/// A new label means the same relationship: its root, its hint and its epoch stay, nothing that
/// is pinned changes, and the old label means nobody.
pub proof fn a_new_label_means_the_same_relationship(
    v: StoreView,
    w: StoreView,
    label: Seq<char>,
    new_label: Seq<char>,
    r: Result<Reply, Problem>,
)
    requires
        v.consistent(),
        w.consistent(),
        operator::relabels(v, w, label, new_label, r),
    ensures
        r is Err ==> w == v,
        (r is Ok) <==> (address::is_label(new_label) && imports::labelled(v, label) is Some
            && !held_by_another(v, imports::labelled(v, label)->0.root_thumbprint, new_label)),
        r is Ok ==> {
            let before = imports::labelled(v, label)->0;
            let after = imports::labelled(w, new_label);
            &&& after is Some
            &&& after->0.root_thumbprint == before.root_thumbprint
            &&& after->0.endpoint_hint == before.endpoint_hint
            &&& after->0.epoch == before.epoch
            &&& after->0.label == new_label
            &&& label != new_label ==> imports::labelled(w, label) is None
            &&& w.peers == v.peers
            &&& w.peer_keys == v.peer_keys
        },
{
    if imports::labelled(v, label) is Some {
        let root = choose|root: Seq<char>| #[trigger] imports::holds_label(v, root, label);
        imports::lemma_labelled(v, root, label);
        lemma_held(v, root, new_label);
        if r is Ok {
            assert(imports::holds_label(w, root, new_label));
            imports::lemma_labelled(w, root, new_label);
            if label != new_label {
                assert forall|other: Seq<char>| !#[trigger] imports::holds_label(w, other, label) by {
                    if imports::holds_label(w, other, label) {
                        assert(v.imports[other].label == v.imports[root].label);
                    }
                }
            }
        }
    }
}

/// A removal takes everything away that was behind the label: the relationship, the pinned peer,
/// its keys and its standing approval. The label means nobody, nothing is sent or dispatched to
/// it, and nobody is found by its certificate. What is behind other roots stays.
pub proof fn a_removal_takes_everything_away(
    v: StoreView,
    w: StoreView,
    label: Seq<char>,
    wall: i64,
    r: Result<Reply, Problem>,
    certificate: Seq<char>,
)
    requires
        v.consistent(),
        operator::removes_peer(v, w, label, wall, r),
        r is Ok,
        imports::labelled(v, label)->0.root_thumbprint.len() > 0,
    ensures
        ({
            let root = imports::labelled(v, label)->0.root_thumbprint;
            &&& imports::labelled(v, label) is Some
            &&& imports::labelled(w, label) is None
            &&& !imports::is_live(w, root)
            &&& w.imports[root].tombstoned_at == Some(wall)
            &&& w.imports[root].epoch == v.imports[root].epoch + 1
            &&& !w.peers.contains_key(root)
            &&& !w.auto_approve.contains_key(root)
            &&& forall|k: (Seq<char>, Seq<char>)| #[trigger]
                w.peer_keys.contains_key(k) ==> w.peer_keys[k].root_thumbprint != root
                    && v.peer_keys.contains_key(k) && w.peer_keys[k] == v.peer_keys[k]
            &&& forall|k: (Seq<char>, Seq<char>)| #[trigger]
                v.peer_keys.contains_key(k) && v.peer_keys[k].root_thumbprint != root
                    ==> w.peer_keys.contains_key(k)
            &&& coord_egress::route_of(w, label) is Err
            &&& operator::performer_of(w, label) is Err
            &&& receive_coord::sender_of(w, certificate) != Some(root)
            &&& forall|other: Seq<char>| other != root ==> (#[trigger] w.peers.contains_key(other)
                == v.peers.contains_key(other)) && w.peers[other] == v.peers[other]
                && w.imports.contains_key(other) == v.imports.contains_key(other)
                && w.imports[other] == v.imports[other] && w.auto_approve.contains_key(other)
                == v.auto_approve.contains_key(other)
            &&& w.audit.records.len() == v.audit.records.len() + 1
            &&& w.audit.records.last().detail == root
            &&& w.audit.records.last().event == "peer.removed"@
        }),
{
    let root = choose|root: Seq<char>| #[trigger] imports::holds_label(v, root, label);
    imports::lemma_labelled(v, root, label);
    assert forall|other: Seq<char>| !#[trigger] imports::holds_label(w, other, label) by {
        if imports::holds_label(w, other, label) {
            assert(v.imports[other].label == v.imports[root].label);
        }
    }
}

/// A peer is removed wherever a label means it, but where its epoch cannot advance.
pub proof fn whoever_is_labelled_can_be_removed(
    v: StoreView,
    w: StoreView,
    label: Seq<char>,
    wall: i64,
    r: Result<Reply, Problem>,
)
    requires
        operator::removes_peer(v, w, label, wall, r),
    ensures
        (r is Ok) <==> (imports::labelled(v, label) is Some && imports::labelled(v, label)->0.epoch
            < u64::MAX),
        r is Err ==> w == v,
        r is Ok ==> (r->Ok_0 matches Reply::Removed { removed, label: l } && removed && l@ == label),
        imports::labelled(v, label) is None ==> r->Err_0@.status == 404,
{
}

/// A standing approval is bound to the root behind the label, and reads back as it was set: the
/// task types, where each fits a line, and the limit, where it fits a signed number. Without task
/// types it is taken back.
pub proof fn a_standing_approval_reads_back(
    v: StoreView,
    w: StoreView,
    label: Seq<char>,
    task_types: Seq<Seq<char>>,
    max_response_bytes: u64,
    wall: i64,
    r: Result<Reply, Problem>,
)
    requires
        v.consistent(),
        operator::approves_standing(v, w, label, task_types, max_response_bytes, wall, r),
    ensures
        ({
            let found = imports::labelled(v, label);
            let root = found->0.root_thumbprint;
            let policy = peers::policy_of(w.auto_approve[root]);
            &&& (r is Ok) <==> (found is Some && v.peers.contains_key(root))
            &&& r is Err ==> w == v
            &&& r is Err && found is None ==> r->Err_0@.status == 404
            &&& r is Err && found is Some ==> r->Err_0@.status == 409
            &&& r is Ok && task_types.len() == 0 ==> !w.auto_approve.contains_key(root)
            &&& r is Ok && task_types.len() > 0 ==> {
                &&& w.auto_approve.contains_key(root)
                &&& w.auto_approve[root].agent_id == v.peers[root].peer.identity.agent_id
                &&& (forall|i: int| 0 <= i < task_types.len() ==> text::fits_a_line(#[trigger] task_types[i]))
                    ==> policy.task_types == task_types
                &&& max_response_bytes <= i64::MAX ==> policy.max_response_bytes
                    == max_response_bytes
                &&& max_response_bytes > i64::MAX ==> policy.max_response_bytes == 0
                &&& r->Ok_0 matches Reply::ApprovalSet { label: l, root_thumbprint, task_types: t, max_response_bytes: m }
                &&& l@ == label && root_thumbprint@ == root && m == max_response_bytes
                &&& text::views(t@) == task_types
            }
            &&& forall|other: Seq<char>| other != root ==> (#[trigger] w.auto_approve.contains_key(
                other,
            ) == v.auto_approve.contains_key(other)) && w.auto_approve[other]
                == v.auto_approve[other]
            &&& w.peers == v.peers
            &&& w.imports == v.imports
        }),
{
    if forall|i: int| 0 <= i < task_types.len() ==> text::fits_a_line(#[trigger] task_types[i]) {
        text::lines_read_back(task_types);
    }
}

/// A task is sent to the relationship that the label means, and to no name: to its active peer,
/// by its root; or, where it was never introduced, it is introduced first. A label that is also
/// another peer's name is refused.
pub proof fn a_task_goes_to_whom_the_label_means(v: StoreView, label: Seq<char>)
    requires
        v.consistent(),
    ensures
        ({
            let found = imports::labelled(v, label);
            let root = found->0.root_thumbprint;
            let ambiguous = exists|other: Seq<char>| #[trigger]
                v.peers.contains_key(other) && other != root
                    && v.peers[other].peer.identity.agent_id == label;
            match operator::performer_of(v, label) {
                Ok(PerformerView::Known { root: to, agent }) => found is Some && to == root
                    && v.imports[to].label == Some(label) && v.peers.contains_key(to)
                    && v.peers[to].status is Active && agent == v.peers[to].peer.identity.agent_id
                    && !ambiguous,
                Ok(PerformerView::FirstContact(import)) => found == Some(import) && !v.peers.contains_key(
                    root,
                ) && !ambiguous,
                Err(p) => {
                    &&& found is None || ambiguous || v.peers.contains_key(root) && !(
                    v.peers[root].status is Active)
                    &&& (p.status == 404) == (found is None)
                    &&& found is Some ==> p.status == 409
                },
            }
        }),
{
    let found = imports::labelled(v, label);
    let root = found->0.root_thumbprint;
    if found is Some {
        let r = choose|root: Seq<char>| #[trigger] imports::holds_label(v, root, label);
        imports::lemma_labelled(v, r, label);
    }
    let ambiguous = exists|other: Seq<char>| #[trigger]
        v.peers.contains_key(other) && other != root && v.peers[other].peer.identity.agent_id == label;
    if exists|other: Seq<char>| other != root && #[trigger] peers::is_named(v.peers, label, other) {
        let other = choose|other: Seq<char>| other != root && #[trigger] peers::is_named(v.peers, label, other);
        assert(v.peers.contains_key(other));
    }
    if ambiguous {
        let other = choose|other: Seq<char>| #[trigger]
            v.peers.contains_key(other) && other != root && v.peers[other].peer.identity.agent_id
                == label;
        assert(peers::is_named(v.peers, label, other));
    }
}

/// What an operator asks to be sent is handed on as it was asked: to the root of the peer that
/// the label means, under the name that the peer was pinned with; or to be introduced first.
pub proof fn a_task_is_handed_on_as_asked(
    v: StoreView,
    w: StoreView,
    me: EndpointView,
    request: ControlRequest,
    report: Seq<FeatureReportView>,
    wall: i64,
    r: Result<Answer, Problem>,
)
    requires
        v.consistent(),
        request is TaskSend,
        operator::answers_operator(v, w, me, request, report, wall, r),
    ensures
        w == v,
        ({
            let spec = request->TaskSend_spec;
            match r {
                Ok(Answer::Perform(Effect::Send { spec: s, root })) => v.imports[root@].label == Some(
                    spec.performer@,
                ) && v.peers[root@].status is Active && s.performer@
                    == v.peers[root@].peer.identity.agent_id && s.rest@ == spec.rest@,
                Ok(Answer::Perform(Effect::Introduce { import, send })) => import@.label
                    == spec.performer@ && !v.peers.contains_key(import@.root_thumbprint)
                    && send is Some && send->0.rest@ == spec.rest@ && send->0.performer@
                    == spec.performer@,
                Err(_) => operator::performer_of(v, spec.performer@) is Err,
                _ => false,
            }
        }),
{
    let spec = request->TaskSend_spec;
    a_task_goes_to_whom_the_label_means(v, spec.performer@);
    if imports::labelled(v, spec.performer@) is Some {
        let root = choose|root: Seq<char>| #[trigger] imports::holds_label(v, root, spec.performer@);
        imports::lemma_labelled(v, root, spec.performer@);
    }
}

/// A ping goes to the relationship that the label means.
pub proof fn a_ping_goes_to_whom_the_label_means(
    v: StoreView,
    w: StoreView,
    me: EndpointView,
    request: ControlRequest,
    report: Seq<FeatureReportView>,
    wall: i64,
    r: Result<Answer, Problem>,
)
    requires
        v.consistent(),
        request is PeerPing,
        operator::answers_operator(v, w, me, request, report, wall, r),
    ensures
        w == v,
        ({
            let label = request->PeerPing_label@;
            match r {
                Ok(Answer::Perform(Effect::Introduce { import, send })) => send is None
                    && v.imports.contains_key(import@.root_thumbprint)
                    && v.imports[import@.root_thumbprint].label == Some(label) && import@.label
                    == label && import@.epoch == v.imports[import@.root_thumbprint].epoch
                    && import@.endpoint_hint == v.imports[import@.root_thumbprint].endpoint_hint,
                Err(p) => p@.status == 404 && imports::labelled(v, label) is None,
                _ => false,
            }
        }),
{
    let label = request->PeerPing_label@;
    if imports::labelled(v, label) is Some {
        let root = choose|root: Seq<char>| #[trigger] imports::holds_label(v, root, label);
        imports::lemma_labelled(v, root, label);
    }
}

/// The requests that are carried out elsewhere are handed on as they were asked.
pub proof fn requests_are_handed_on_as_asked(
    v: StoreView,
    w: StoreView,
    me: EndpointView,
    request: ControlRequest,
    report: Seq<FeatureReportView>,
    wall: i64,
    r: Result<Answer, Problem>,
)
    requires
        operator::answers_operator(v, w, me, request, report, wall, r),
    ensures
        match (request, r) {
            (ControlRequest::TaskApprove { task_id, processor, artifacts }, Ok(a)) => a matches Answer::Perform(
                Effect::Approve { task_id: t, processor: p, artifacts: x, now },
            ) && t@ == task_id@ && text::view_option(p) == text::view_option(processor) && x
                == artifacts && now >= v.trusted_time,
            (ControlRequest::TaskDeny { task_id, reason }, Ok(a)) => a matches Answer::Perform(
                Effect::Deny { task_id: t, reason: why, now },
            ) && t@ == task_id@ && why@ == reason@ && now >= v.trusted_time,
            (ControlRequest::SubmitResult { submission }, Ok(a)) => a matches Answer::Perform(
                Effect::SubmitResult { submission: s, now },
            ) && s@ == submission@ && now >= v.trusted_time,
            (ControlRequest::TaskRun { task_id }, Ok(a)) => a matches Answer::Perform(
                Effect::RunWorker { task_id: t },
            ) && t@ == task_id@ && w == v,
            (ControlRequest::TaskRun { task_id }, Err(_)) => false,
            (ControlRequest::TaskFulfill { task_id, outputs }, Ok(a)) => a matches Answer::Perform(
                Effect::Fulfill { task_id: t, outputs: o },
            ) && t@ == task_id@ && o@ == outputs@ && w == v,
            (ControlRequest::TaskFulfill { task_id, outputs }, Err(_)) => false,
            (ControlRequest::TaskDeliver { task_id }, Ok(a)) => a matches Answer::Perform(
                Effect::Deliver { task_id: t },
            ) && t@ == task_id@ && w == v,
            (ControlRequest::TaskDeliver { task_id }, Err(_)) => false,
            (ControlRequest::RequestProcessorCall { processor_id, work_order_id, request: body }, Ok(a)) =>
                a matches Answer::Perform(
                Effect::CallProcessor { processor_id: p, work_order_id: o, request: b },
            ) && p@ == processor_id@ && o@ == work_order_id@ && b@ == body@ && w == v,
            (ControlRequest::ProcessorCredential { processor_id, credential }, Ok(a)) =>
                w.credentials.contains_key(processor_id@) && w.credentials[processor_id@].credential
                == encode_utf8(credential@) && w.credentials[processor_id@].updated_at == wall && (a
                matches Answer::Reply(Reply::CredentialSet { processor_id: id }) && id@
                == processor_id@),
            (ControlRequest::ProcessorCredential { processor_id, credential }, Err(_)) => false,
            (ControlRequest::WhoAmI, Ok(a)) => a matches Answer::Reply(Reply::WhoAmI(who))
                && who@.issuer == me.issuer && who@.agent == me.agent && who@.interface_url
                == me.interface_url && who@.receive_addr == me.receive_addr
                && who@.endpoint_fingerprint == me.fingerprint && who@.data_dir == me.data_dir,
            (ControlRequest::WhoAmI, Err(_)) => false,
            (ControlRequest::Diagnose, Ok(a)) => a matches Answer::Reply(Reply::Health(h))
                && h@.capabilities == report && h@.daemon == "aksond"@ && (!h@.sandbox_ready
                <==> exists|i: int|
                0 <= i < report.len() && (#[trigger] report[i]).required && !report[i].available),
            (ControlRequest::Diagnose, Err(_)) => false,
            (ControlRequest::Token, Ok(a)) => a matches Answer::Reply(Reply::Token(t))
                && t@.token == me.token && t@.root_thumbprint == me.root
                && me.token.is_prefix_of(t@.presentation),
            (ControlRequest::Token, Err(_)) => false,
            _ => true,
        },
{
    if crate::clock::time_now(v, wall) is Ok {
        crate::clock::decisions_do_not_go_back(v, wall);
    }
    assert(me.token.is_prefix_of(operator::token_of(me).presentation));
}

} // verus!
