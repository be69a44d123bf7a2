//! What the operator is told: who this endpoint is, its token, its relationships, its tasks and
//! their outputs; and what looking things up leaves as it was.
use crate::address;
use crate::control::Problem;
use crate::control_dispatch::TaskAnswer;
use crate::control_dispatch;
use crate::coord_peers::FeatureReportView;
use crate::endpoint::EndpointView;
use crate::identity::PeerIdentityView;
use crate::laws::bundles;
use crate::laws::introductions;
use crate::laws::tasks;
use crate::operator::{Answer, Effect, ImportListedView, Reply};
use crate::operator;
use crate::outside;
use crate::request::ControlRequest;
use crate::store::imports::{IntroCommitOutcomeView, PeerImportView};
use crate::store::imports;
use crate::store::peers;
use crate::store::requests::TaskOutputView;
use crate::store::requests;
use crate::store::StoreView;
use crate::table;
use crate::text;
use vstd::prelude::*;
use vstd::utf8::*;

verus! {

/// The operator is told who this endpoint is, each thing under its own name.
pub proof fn the_operator_is_told_who_this_is(
    v: StoreView,
    w: StoreView,
    me: EndpointView,
    report: Seq<FeatureReportView>,
    wall: i64,
    r: Result<Answer, Problem>,
)
    requires
        operator::answers_operator(v, w, me, ControlRequest::WhoAmI, report, wall, r),
    ensures
        w == v,
        r matches Ok(Answer::Reply(Reply::WhoAmI(who))) && who@.issuer == me.issuer && who@.agent
            == me.agent && who@.interface_url == me.interface_url && who@.receive_addr
            == me.receive_addr && who@.endpoint_fingerprint == me.fingerprint && who@.data_dir
            == me.data_dir,
{
}

/// The daemon says that work can be confined exactly where every required means of it is
/// available.
pub proof fn the_sandbox_is_ready_where_nothing_is_missing(
    v: StoreView,
    w: StoreView,
    me: EndpointView,
    report: Seq<FeatureReportView>,
    wall: i64,
    r: Result<Answer, Problem>,
)
    requires
        operator::answers_operator(v, w, me, ControlRequest::Diagnose, report, wall, r),
    ensures
        w == v,
        r matches Ok(Answer::Reply(Reply::Health(health))) && health@.daemon == "aksond"@
            && health@.capabilities == report && (health@.sandbox_ready <==> !exists|i: int|
            0 <= i < report.len() && (#[trigger] report[i]).required && !report[i].available),
{
}

/// The token is handed out with the address that the interface is reached at, where it names a
/// host and a port.
pub proof fn a_token_is_handed_out_with_its_address(me: EndpointView)
    ensures
        ({
            let t = operator::token_of(me);
            &&& t.token == me.token
            &&& t.root_thumbprint == me.root
            &&& t.hint is None ==> t.presentation == me.token
            &&& (t.hint matches Some(hint) ==> t.presentation == me.token + "@"@ + hint)
        }),
{
}

/// The hint of an https URL is what stands between its scheme and its path, where that is a host
/// and a port.
pub proof fn a_hint_is_taken_from_the_interface(host: Seq<char>, port: Seq<char>, path: Seq<char>)
    requires
        host.len() > 0,
        port.len() > 0,
        !host.contains('/') && !host.contains(':') && !host.contains(']'),
        !port.contains('/') && !port.contains(':') && !port.contains(']'),
    ensures
        address::hint_of("https://"@ + (host + seq![':'] + port) + (seq!['/'] + path)) == Some(
            host + seq![':'] + port,
        ),
{
    reveal_strlit("https://");
    let at = host + seq![':'] + port;
    let rest = at + (seq!['/'] + path);
    let url = "https://"@ + at + (seq!['/'] + path);
    assert(url.subrange(0, 8) =~= "https://"@);
    assert(url.skip(8) =~= rest);
    assert forall|j: int| 0 <= j < at.len() implies rest[j] != '/' by {
        if j < host.len() {
            assert(rest[j] == host[j]);
            assert(host.contains(host[j]));
        } else if j > host.len() {
            assert(rest[j] == port[j - host.len() - 1]);
            assert(port.contains(port[j - host.len() - 1]));
        }
    }
    crate::laws::texts::the_first_place_is_the_first(rest, '/', at.len() as int);
    assert(rest.take(at.len() as int) =~= at);
    assert forall|j: int| host.len() < j < at.len() implies at[j] != ':' by {
        assert(at[j] == port[j - host.len() - 1]);
        assert(port.contains(port[j - host.len() - 1]));
    }
    crate::laws::texts::the_last_place_is_the_last(at, ':', host.len() as int);
    assert(!at.skip(host.len() as int).contains(']')) by {
        let tail = at.skip(host.len() as int);
        if tail.contains(']') {
            let j = choose|j: int| 0 <= j < tail.len() && tail[j] == ']';
            assert(j > 0);
            assert(tail[j] == port[j - 1]);
            assert(port.contains(port[j - 1]));
        }
    }
}

/// A URL that is not https, or without a port, gives no hint.
pub proof fn other_interfaces_give_no_hint(url: Seq<char>, host: Seq<char>)
    requires
        !host.contains('/') && !host.contains(':'),
    ensures
        !text::stands_at(url, "https://"@, 0) ==> address::hint_of(url) is None,
        address::hint_of("https://"@ + host) is None,
{
    reveal_strlit("https://");
    let whole = "https://"@ + host;
    assert(whole.skip(8) =~= host);
    assert(whole.subrange(0, 8) =~= "https://"@);
    text::lemma_first_of(host, '/');
    assert(host.take(host.len() as int) =~= host);
    assert forall|j: int| 0 <= j < host.len() implies host[j] != ':' by {
        assert(host.contains(host[j]));
    }
    crate::laws::texts::the_last_place_is_the_last(host, ':', 0);
}

/// Every live relationship is told of to the operator, under its label, with how it stands and
/// the name that its peer claims; and nothing else is.
pub proof fn the_operator_sees_every_relationship(
    v: StoreView,
    list: Seq<ImportListedView>,
    root: Seq<char>,
    i: int,
)
    requires
        operator::relationships_listed(v, list),
    ensures
        v.imports.contains_key(root) && v.imports[root].tombstoned_at is None ==> exists|j: int|
            0 <= j < list.len() && {
                let shown = #[trigger] list[j];
                &&& shown.root_thumbprint == root
                &&& shown.endpoint_hint == v.imports[root].endpoint_hint
                &&& (v.imports[root].label matches Some(label) ==> shown.label == label)
                &&& v.peers.contains_key(root) ==> shown.claims == Some(
                    v.peers[root].peer.identity.agent_id,
                ) && shown.status == v.peers[root].status.column()
                &&& !v.peers.contains_key(root) ==> shown.claims is None && shown.status == "imported"@
            },
        0 <= i < list.len() ==> v.imports.contains_key(list[i].root_thumbprint)
            && v.imports[list[i].root_thumbprint].tombstoned_at is None,
{
    let base = choose|base: Seq<PeerImportView>| #[trigger]
        imports::imports_listed(v, base) && list == base.map_values(
            |i: PeerImportView| operator::import_listed(v, i),
        );
    introductions::relationships_are_listed(v, base, root, i);
    if v.imports.contains_key(root) && v.imports[root].tombstoned_at is None {
        let j = choose|j: int|
            0 <= j < base.len() && (#[trigger] base[j]).root_thumbprint == root && base[j].endpoint_hint
                == v.imports[root].endpoint_hint && base[j].epoch == v.imports[root].epoch
                && base[j].added_at == v.imports[root].added_at && (v.imports[root].label matches Some(
                label,
            ) ==> base[j].label == label);
        assert(list[j] == operator::import_listed(v, base[j]));
    }
    if 0 <= i < list.len() {
        assert(list[i] == operator::import_listed(v, base[i]));
    }
}

/// The outputs of a task are given as they are stored, in base64, all of the role that is asked
/// for, or all.
pub proof fn outputs_are_given_as_they_are_stored(
    v: StoreView,
    task_id: Seq<char>,
    role: Option<Seq<char>>,
    r: Result<Reply, Problem>,
    artifact_id: Seq<char>,
    i: int,
)
    requires
        operator::gives_outputs(v, task_id, role, r),
        r is Ok,
    ensures
        r->Ok_0 matches Reply::Outputs { task_id: t, outputs } && t@ == task_id && ({
            let row = v.task_outputs[(task_id, artifact_id)];
            v.task_outputs.contains_key((task_id, artifact_id)) && (role is None || row.role == role->0)
                ==> exists|j: int|
                0 <= j < outputs@.len() && {
                    let o = (#[trigger] outputs@[j])@;
                    &&& o.artifact_id == artifact_id
                    &&& o.role == row.role
                    &&& o.media_type == row.media_type
                    &&& o.byte_length == row.byte_length
                    &&& o.sha256 == row.sha256
                    &&& o.content == outside::base64_of(row.payload)
                }
        }) && (0 <= i < outputs@.len() ==> v.task_outputs.contains_key(
            (task_id, outputs@[i]@.artifact_id),
        ) && (role is None || outputs@[i]@.role == role->0)),
{
    let list = choose|list: Seq<TaskOutputView>| #[trigger]
        operator::outputs_asked_for(v, task_id, role, list) && match r {
            Ok(Reply::Outputs { task_id: t, outputs }) => operator::can_be_encoded(list) && t@ == task_id
                && table::seen(outputs@) == list.map_values(
                |o: TaskOutputView| operator::output_listed(o),
            ),
            Err(p) => !operator::can_be_encoded(list) && p@ == crate::control::internal_problem(),
            _ => false,
        };
    let base = choose|base: Seq<TaskOutputView>| #[trigger]
        requests::outputs_listed(v, task_id, base) && list == base.filter(
            |o: TaskOutputView| operator::is_asked_for(o, role),
        );
    let pred = |o: TaskOutputView| operator::is_asked_for(o, role);
    assert(list == base.filter(pred));
    let ks = bundles::rows_of_outputs(v, task_id, base);
    broadcast use vstd::seq_lib::group_filter_ensures;

    if let Ok(Reply::Outputs { task_id: t, outputs }) = r {
        let seen = table::seen(outputs@);
        let shown = list.map_values(|o: TaskOutputView| operator::output_listed(o));
        assert(seen == shown && seen.len() == outputs@.len() && shown.len() == list.len());
        let at = (task_id, artifact_id);
        let row = v.task_outputs[at];
        if v.task_outputs.contains_key(at) && (role is None || row.role == role->0) {
            assert(ks.contains(at));
            let k = choose|k: int| 0 <= k < ks.len() && ks[k] == at;
            assert(base[k] == requests::output_shown(at, row));
            assert(pred(base[k]));
            assert(list.contains(base[k]));
            let j = choose|j: int| 0 <= j < list.len() && list[j] == base[k];
            assert(shown[j] == operator::output_listed(list[j]));
            assert(outputs@[j]@ == seen[j]);
        }
        if 0 <= i < outputs@.len() {
            assert(outputs@[i]@ == seen[i]);
            assert(shown[i] == operator::output_listed(list[i]));
            assert(pred(list[i]));
            assert(list.contains(list[i]));
            base.lemma_filter_contains_rev(pred, list[i]);
            let k = choose|k: int| 0 <= k < base.len() && base[k] == list[i];
            assert(base[k] == requests::output_shown(ks[k], v.task_outputs[ks[k]]));
            assert(ks.contains(ks[k]));
            assert(ks[k] == (task_id, list[i].artifact_id));
        }
    }
}

/// The outputs of a task are given wherever none of them is too large to be encoded, and where
/// they are not the fault is this endpoint's: one that was asked for is too large.
pub proof fn outputs_are_given_where_they_can_be_encoded(
    v: StoreView,
    task_id: Seq<char>,
    role: Option<Seq<char>>,
    r: Result<Reply, Problem>,
)
    requires
        operator::gives_outputs(v, task_id, role, r),
    ensures
        (forall|id: Seq<char>| #[trigger]
            v.task_outputs.contains_key((task_id, id)) ==> v.task_outputs[(task_id, id)].payload.len()
                <= usize::MAX / 4) ==> r is Ok,
        (r matches Err(p) ==> p@.status == 500 && p@.type_ == "urn:akson:error:internal"@ && exists|
            id: Seq<char>,
        | #[trigger]
            v.task_outputs.contains_key((task_id, id)) && v.task_outputs[(task_id, id)].payload.len()
                > usize::MAX / 4 && (role is None || v.task_outputs[(task_id, id)].role == role->0)),
{
    let list = choose|list: Seq<TaskOutputView>| #[trigger]
        operator::outputs_asked_for(v, task_id, role, list) && match r {
            Ok(Reply::Outputs { task_id: t, outputs }) => operator::can_be_encoded(list) && t@ == task_id
                && table::seen(outputs@) == list.map_values(
                |o: TaskOutputView| operator::output_listed(o),
            ),
            Err(p) => !operator::can_be_encoded(list) && p@ == crate::control::internal_problem(),
            _ => false,
        };
    let base = choose|base: Seq<TaskOutputView>| #[trigger]
        requests::outputs_listed(v, task_id, base) && list == base.filter(
            |o: TaskOutputView| operator::is_asked_for(o, role),
        );
    let pred = |o: TaskOutputView| operator::is_asked_for(o, role);
    assert(list == base.filter(pred));
    let ks = bundles::rows_of_outputs(v, task_id, base);
    broadcast use vstd::seq_lib::group_filter_ensures;

    if r is Err {
        let i = choose|i: int|
            0 <= i < list.len() && (#[trigger] list[i]).payload.len() > usize::MAX / 4;
        assert(list.contains(list[i]));
        assert(pred(list[i]));
        base.lemma_filter_contains_rev(pred, list[i]);
        let k = choose|k: int| 0 <= k < base.len() && base[k] == list[i];
        assert(base[k] == requests::output_shown(ks[k], v.task_outputs[ks[k]]));
        assert(ks.contains(ks[k]));
        assert(ks[k] == (task_id, list[i].artifact_id));
        assert(v.task_outputs.contains_key((task_id, list[i].artifact_id)));
        reveal_strlit("urn:akson:error:");
        reveal_strlit("internal");
        reveal_strlit("urn:akson:error:internal");
        assert("urn:akson:error:"@ + "internal"@ =~= "urn:akson:error:internal"@);
    }
}

/// The inbox of the operator holds every task that awaits a decision, and no other.
pub proof fn the_inbox_holds_what_awaits_a_decision(
    v: StoreView,
    r: Result<TaskAnswer, Problem>,
    task_id: Seq<char>,
)
    requires
        control_dispatch::answers_on_tasks(v, ControlRequest::TaskInbox, r),
    ensures
        r matches Ok(TaskAnswer::Inbox(list)) && ((exists|i: int|
            0 <= i < list@.len() && (#[trigger] list@[i])@.task_id == task_id) <==> v.heads.contains_key(
            task_id,
        ) && !v.heads[task_id].locked),
{
    if let Ok(TaskAnswer::Inbox(list)) = r {
        let seen = table::seen(list@);
        let ks = tasks::rows_of_tasks(v, false, seen);
        assert forall|i: int| 0 <= i < list@.len() implies (#[trigger] list@[i])@.task_id == ks[i] by {
            assert(seen[i] == list@[i]@);
            assert(seen[i].task_id == ks[i]);
        }
        if v.heads.contains_key(task_id) && !v.heads[task_id].locked {
            assert(ks.contains(task_id));
            let i = choose|i: int| 0 <= i < ks.len() && ks[i] == task_id;
            assert(list@[i]@.task_id == task_id);
        }
        if exists|i: int| 0 <= i < list@.len() && (#[trigger] list@[i])@.task_id == task_id {
            let i = choose|i: int| 0 <= i < list@.len() && (#[trigger] list@[i])@.task_id == task_id;
            assert(ks.contains(ks[i]));
        }
    }
}

/// A task is shown under its own id with its own terms.
pub proof fn a_task_is_shown_under_its_id(
    v: StoreView,
    task_id: String,
    r: Result<TaskAnswer, Problem>,
)
    requires
        control_dispatch::answers_on_tasks(v, ControlRequest::TaskShow { task_id }, r),
    ensures
        (r matches Ok(answer) ==> (answer matches TaskAnswer::Card(card) && card@.task_id == task_id@
            && v.heads.contains_key(task_id@) && card@.revision == v.heads[task_id@].revision
            && v.contracts[v.heads[task_id@].digest].contract == Some(card@.terms))),
        r is Err <==> !(v.heads.contains_key(task_id@) && v.contracts.contains_key(
            v.heads[task_id@].digest,
        ) && v.contracts[v.heads[task_id@].digest].contract is Some),
{
}

/// Looking things up changes nothing.
pub proof fn looking_up_changes_nothing(
    v: StoreView,
    w: StoreView,
    me: EndpointView,
    request: ControlRequest,
    report: Seq<FeatureReportView>,
    wall: i64,
    r: Result<Answer, Problem>,
)
    requires
        operator::answers_operator(v, w, me, request, report, wall, r),
        request is Diagnose || request is WhoAmI || request is TaskInbox || request is TaskShow
            || request is PeerList || request is Token || request is PeerKnocks || request is PeerPing
            || request is TaskSent || request is TaskOutcomes || request is TaskOutput
            || request is ProcessorList || request is IssueWorkOrder,
    ensures
        w == v,
{
}

/// A credential is kept as its bytes, under its processor, in place of the one before; no other
/// is touched, and nothing is shown of it.
pub proof fn a_credential_is_kept_for_its_processor(
    v: StoreView,
    w: StoreView,
    me: EndpointView,
    processor_id: String,
    credential: String,
    report: Seq<FeatureReportView>,
    wall: i64,
    r: Result<Answer, Problem>,
    other: Seq<char>,
)
    requires
        operator::answers_operator(
            v,
            w,
            me,
            ControlRequest::ProcessorCredential { processor_id, credential },
            report,
            wall,
            r,
        ),
        other != processor_id@,
    ensures
        w.credentials.contains_key(processor_id@),
        w.credentials[processor_id@].credential == encode_utf8(credential@),
        w.credentials[processor_id@].updated_at == wall,
        w.credentials.contains_key(other) <==> v.credentials.contains_key(other),
        w.credentials[other] == v.credentials[other],
        w == (StoreView { credentials: w.credentials, audit: w.audit, ..v }),
        r matches Ok(Answer::Reply(Reply::CredentialSet { processor_id: id })) && id@ == processor_id@,
{
}

/// After an introduction the operator is told who was met, under the label that was asked for.
pub proof fn the_operator_is_told_who_was_met(
    label: Seq<char>,
    peer: PeerIdentityView,
    outcome: IntroCommitOutcomeView,
)
    ensures
        ({
            let r = operator::introduced_of(label, peer, outcome);
            &&& r.label == label
            &&& r.issuer == peer.issuer
            &&& r.agent == peer.agent_id
            &&& r.root_thumbprint == peer.agent_card_key.value
            &&& outcome is Committed ==> r.introduced == "Committed"@
            &&& outcome is AlreadyActive ==> r.introduced == "AlreadyActive"@
            &&& outcome is NotImported ==> r.introduced == "NotImported"@
            &&& outcome is EpochChanged ==> r.introduced == "EpochChanged"@
            &&& (outcome matches IntroCommitOutcomeView::Suspended(why) ==> r.introduced
                == "Suspended("@ + outside::quoted(why) + ")"@)
        }),
{
}

/// A task that waited for an introduction goes to the agent that was met, at the root that it
/// proved, with what was to be sent.
pub proof fn a_task_goes_to_whom_was_met(
    spec: crate::request::SendSpec,
    peer: crate::identity::PeerIdentity,
    r: Effect,
)
    requires
        call_ensures(operator::send_introduced, (&spec, &peer), r),
    ensures
        r matches Effect::Send { spec: s, root } && s.performer@ == peer@.agent_id && s.rest@
            == spec.rest@ && root@ == peer@.agent_card_key.value,
{
}

/// What keeps a peer from being imported is told apart: a token that cannot be read, one's own, a
/// label that is none, an address that is none, a root or a label that is there already, and a
/// relationship that is not there.
pub proof fn a_refused_import_says_why(
    v: StoreView,
    w: StoreView,
    own_root: Seq<char>,
    token: crate::request::TokenReading,
    suffix: Option<Seq<char>>,
    label: Seq<char>,
    endpoint: Option<Seq<char>>,
    update: bool,
    wall: i64,
    r: Result<Reply, Problem>,
)
    requires
        operator::imports_peer(v, w, own_root, token, suffix, label, endpoint, update, wall, r),
        r is Err,
    ensures
        ({
            let p = r->Err_0@;
            let kind = "urn:akson:error:"@;
            let root = token->Root_0@;
            let hint = if endpoint is Some {
                endpoint
            } else {
                suffix
            };
            let own = token is Root && root == own_root;
            let labelled = address::is_label(label);
            let reachable = hint is None || address::is_hint(hint->0);
            let live = v.imports.contains_key(root) && v.imports[root].tombstoned_at is None;
            &&& (token matches crate::request::TokenReading::Unreadable(why) ==> p.status == 400 && p.type_
                == kind + "bad-token"@ && p.title == why@)
            &&& own ==> p.status == 400 && p.type_ == kind + "own-token"@
            &&& token is Root && !own && !labelled ==> p.status == 400 && p.type_ == kind + "bad-label"@
            &&& token is Root && !own && labelled && !reachable ==> p.status == 400 && p.type_ == kind
                + "bad-endpoint"@
            &&& token is Root && !own && labelled && reachable && !update && live ==> p.status == 409
                && p.type_ == kind + "already-imported"@
            &&& token is Root && !own && labelled && reachable && update && !live ==> p.status == 404
                && p.type_ == kind + "unknown-peer"@
            &&& token is Root && !own && labelled && reachable && update == live ==> p.status == 409
                && p.type_ == kind + "label-taken"@
        }),
{
}

} // verus!
