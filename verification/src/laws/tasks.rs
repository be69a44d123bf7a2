//! Tasks: what is decided and by whom, what is approved without being asked for, and what is
//! found again of tasks that were sent and of what came of them.
use crate::approve::Approval;
use crate::approve;
use crate::contract::{Capability, ContractView, HeadStateView, IdentityView, LockError, Validity};
use crate::contract;
use crate::control::{Problem, ProblemView};
use crate::decision::{DecisionKind, DecisionRecord, DecisionView};
use crate::decision;
use crate::issue::IssueConfig;
use crate::laws::lists;
use crate::outside;
use crate::reactor::PendingTaskView;
use crate::reactor;
use crate::store::contracts::TaskHeadView;
use crate::store::contracts;
use crate::store::peers;
use crate::store::requests::{OutcomeSummaryView, SentRequestView, TaskInputView, TaskOutputView};
use crate::store::requests;
use crate::store::rows::{HeadRowView, InputRowView, OutcomeRowView, OutputRowView, SentRowView};
use crate::store::StoreView;
use crate::table;
use crate::text;
use vstd::prelude::*;

verus! {

/// There is something to decide exactly where the task has an open head whose terms are stored
/// and can be read; and what is decided on is that head, with these terms, by this decider.
pub proof fn a_decision_is_on_the_open_head(
    v: StoreView,
    task_id: Seq<char>,
    kind: DecisionKind,
    reason_code: Option<Seq<char>>,
    note: Option<Seq<char>>,
    decider: IdentityView,
    decided_at: Seq<char>,
)
    ensures
        ({
            let due = decision::decision_due(
                v,
                task_id,
                kind,
                reason_code,
                note,
                decider,
                decided_at,
            );
            let head = v.heads[task_id];
            let submitted = v.heads.contains_key(task_id);
            let stored = v.contracts.contains_key(head.digest);
            let open = submitted && !head.locked && stored && v.contracts[head.digest].contract is Some;
            &&& due is Ok <==> open
            &&& (due matches Ok(d) ==> d.schema_version == 1 && d.decision == kind && d.contract_id
                == v.contracts[head.digest].contract->0.contract_id && d.contract_revision
                == head.revision && d.contract_digest == head.digest && d.task_id == task_id
                && d.context_id == head.context_id && d.decider == decider && d.reason_code
                == reason_code && d.note == note && d.decided_at == decided_at)
            &&& submitted && head.locked ==> (due matches Err(p) && p.status == 409 && p.type_
                == "urn:akson:error:"@ + "already-decided"@)
            &&& !submitted || (!head.locked && !stored) ==> (due matches Err(p) && p.status == 404
                && p.type_ == "urn:akson:error:"@ + "no-such-task"@)
        }),
{
}

/// An acceptance that was signed locks the head of its task and nothing else; any other decision
/// leaves everything as it was, and so does one that could not be signed.
pub proof fn only_an_acceptance_locks(
    v: StoreView,
    w: StoreView,
    d: DecisionView,
    signed: Option<Vec<u8>>,
    now: i64,
    r: Result<DecisionRecord, Problem>,
)
    requires
        decision::recorded(v, w, d, signed, now, r),
        v.heads.contains_key(d.task_id),
    ensures
        r is Ok <==> signed is Some,
        (r matches Ok(record) ==> record@.task_id == d.task_id && record@.kind == d.decision
            && record@.decision == signed->0@ && (record@.accepted <==> d.decision is Accept)),
        (r matches Err(p) ==> p@.status == 500 && p@.type_ == "urn:akson:error:"@ + "sign-failed"@),
        signed is Some && d.decision is Accept ==> w.heads[d.task_id].locked && w == (StoreView {
            heads: v.heads.insert(d.task_id, HeadRowView { locked: true, ..v.heads[d.task_id] }),
            audit: w.audit,
            ..v
        }),
        signed is None || !(d.decision is Accept) ==> w == v,
{
}

/// An open head is accepted at its own digest alone, and once.
pub proof fn a_head_is_locked_at_its_digest(head: HeadStateView, digest: Seq<char>)
    ensures
        contract::lock_verdict(head, digest) is Ok <==> (head matches HeadStateView::Open(h) && h.digest
            == digest),
        (contract::lock_verdict(head, digest) == Err::<(), LockError>(LockError::AlreadyLocked))
            <==> head is Locked,
        (contract::lock_verdict(head, digest) == Err::<(), LockError>(LockError::NoHead)) <==> head is Empty,
{
}

/// A contract holds from the instant at which it was made up to, and not at, its expiry.
pub proof fn a_contract_holds_until_its_expiry(c: ContractView, created: i64, expires: i64, now: int)
    requires
        outside::rfc3339_value(c.created_at) == Some(created),
        outside::rfc3339_value(c.expires_at) == Some(expires),
    ensures
        (contract::validity_at(c, now) == Some(Validity::Valid)) <==> created <= now < expires,
        (contract::validity_at(c, now) == Some(Validity::NotYetValid)) <==> now < created,
        (contract::validity_at(c, now) == Some(Validity::Expired)) <==> now >= expires && now >= created,
{
}

/// An order is issued by whom the approval is by, to the certificate pinned for who asked, with
/// what the operator grants, and for 16 operations.
pub proof fn an_order_is_issued_as_approved(config: IssueConfig<'_>, a: Approval<'_>, certificate: Seq<char>)
    requires
        approve::is_config(config, a, certificate),
    ensures
        config.issuer@ == a.performer@,
        config.issuer_assurance@ == "local-human"@,
        config.daemon@ == "aksond"@,
        config.executor@ == "worker"@,
        config.requester_tls_sha256@ == certificate,
        config.nonce@ == a.nonce@,
        config.decision_id@ == a.decision_id@,
        config.policy_version == 1,
        config.max_operations == 16,
        config.grant_artifacts == a.artifacts,
        config.processor_grant is Some <==> a.processor is Some,
        config.processor_grant is Some ==> config.processor_grant->0@ == a.processor->0@,
{
}

/// The certificate that an order goes to is the one pinned for the root that the task came from.
pub proof fn an_order_goes_to_who_asked(v: StoreView, task_id: Seq<char>, certificate: Seq<char>)
    ensures
        approve::requester_certificate(v, task_id) == Some(certificate) <==> (v.heads.contains_key(task_id)
            && v.peers.contains_key(v.heads[task_id].origin_root)
            && v.peers[v.heads[task_id].origin_root].peer.identity.tls_cert.value == certificate),
{
}

/// A task is approved without being asked for exactly where it awaits a decision, came from an
/// active peer with a standing approval, is of a type that is approved, asks for no more bytes
/// than that allows, and discloses nothing.
pub proof fn a_standing_approval_is_for_this(v: StoreView, task_id: Seq<char>)
    ensures
        reactor::may_auto_approve(v, task_id) <==> {
            let head = v.heads[task_id];
            let c = v.contracts[head.digest].contract->0;
            let row = v.auto_approve[head.origin_root];
            &&& v.heads.contains_key(task_id)
            &&& !head.locked
            &&& v.contracts.contains_key(head.digest)
            &&& v.contracts[head.digest].contract is Some
            &&& v.peers.contains_key(head.origin_root)
            &&& v.peers[head.origin_root].status is Active
            &&& v.auto_approve.contains_key(head.origin_root)
            &&& text::kept_lines(row.task_types).contains(c.task_type)
            &&& c.max_response_bytes <= (if row.max_response_bytes < 0 {
                0int
            } else {
                row.max_response_bytes as int
            })
            &&& !c.requested_capabilities.contains(Capability::ProcessorUse)
            &&& !c.requested_capabilities.contains(Capability::ArtifactExport)
        },
{
}

/// The rows that a list of submitted tasks shows: those that await a decision and, if so asked,
/// a reaction; all of them, each once, in their order.
pub proof fn rows_of_tasks(v: StoreView, unreacted: bool, list: Seq<TaskHeadView>) -> (ks: Seq<Seq<char>>)
    requires
        contracts::tasks_listed(v, unreacted, list),
    ensures
        ks.len() == list.len(),
        ks.no_duplicates(),
        forall|k: Seq<char>| #[trigger]
            ks.contains(k) <==> v.heads.contains_key(k) && !v.heads[k].locked && (unreacted
                ==> !v.reactions.contains_key(k)),
        forall|i: int|
            0 <= i < ks.len() ==> (#[trigger] list[i]).task_id == ks[i] && list[i].contract_id
                == v.heads[ks[i]].contract_id && list[i].revision == v.heads[ks[i]].revision
                && list[i].contract_digest == v.heads[ks[i]].digest,
        forall|i: int, j: int|
            0 <= i < j < ks.len() ==> text::text_le(#[trigger] ks[i], #[trigger] ks[j]),
{
    let m = v.heads;
    let (keep, show, le) = choose|
        keep: spec_fn(Seq<char>, HeadRowView) -> bool,
        show: spec_fn(Seq<char>, HeadRowView) -> TaskHeadView,
        le: spec_fn((Seq<char>, HeadRowView), (Seq<char>, HeadRowView)) -> bool,
    |
        #[trigger] table::lists(list, m, keep, show, le) && (forall|k: Seq<char>, row: HeadRowView|
            #[trigger] keep(k, row) == contracts::awaits(v, unreacted, k, row)) && (forall|
            k: Seq<char>,
            row: HeadRowView,
        | #[trigger]
            show(k, row) == contracts::head_shown(k, row)) && (forall|
            a: (Seq<char>, HeadRowView),
            b: (Seq<char>, HeadRowView),
        | #[trigger]
            le(a, b) == contracts::by_task(a, b));
    let ks = choose|ks: Seq<Seq<char>>| #[trigger]
        table::listing_keys(ks, m, keep, le) && list =~= Seq::new(
            ks.len(),
            |i: int| show(ks[i], m[ks[i]]),
        );
    assert forall|k: Seq<char>| #[trigger] ks.contains(k) implies v.heads.contains_key(k)
        && !v.heads[k].locked && (unreacted ==> !v.reactions.contains_key(k)) by {
        assert(keep(k, m[k]) == contracts::awaits(v, unreacted, k, m[k]));
    }
    assert forall|k: Seq<char>|
        v.heads.contains_key(k) && !v.heads[k].locked && (unreacted ==> !v.reactions.contains_key(k))
        implies #[trigger] ks.contains(k) by {
        assert(keep(k, m[k]) == contracts::awaits(v, unreacted, k, m[k]));
    }
    assert forall|i: int| 0 <= i < ks.len() implies (#[trigger] list[i]).task_id == ks[i]
        && list[i].contract_id == v.heads[ks[i]].contract_id && list[i].revision
        == v.heads[ks[i]].revision && list[i].contract_digest == v.heads[ks[i]].digest by {
        assert(show(ks[i], m[ks[i]]) == contracts::head_shown(ks[i], m[ks[i]]));
    }
    assert forall|i: int, j: int| 0 <= i < j < ks.len() implies text::text_le(
        #[trigger] ks[i],
        #[trigger] ks[j],
    ) by {
        assert(le((ks[i], m[ks[i]]), (ks[j], m[ks[j]])));
    }
    ks
}

/// A sweep finds every task that awaits a reaction, and no other, and approves those that a
/// standing approval is for, at the trusted time.
pub proof fn a_sweep_finds_what_awaits(
    v: StoreView,
    now: Option<i64>,
    list: Seq<PendingTaskView>,
    task_id: Seq<char>,
)
    requires
        reactor::swept(v, now, list),
    ensures
        (exists|i: int| 0 <= i < list.len() && (#[trigger] list[i]).task_id == task_id) <==> (
        v.heads.contains_key(task_id) && !v.heads[task_id].locked && !v.reactions.contains_key(task_id)),
        forall|i: int|
            0 <= i < list.len() ==> (#[trigger] list[i]).approve_at == (if reactor::may_auto_approve(
                v,
                list[i].task_id,
            ) {
                now
            } else {
                None
            }),
{
    let heads = choose|heads: Seq<TaskHeadView>| #[trigger]
        contracts::tasks_listed(v, true, heads) && list == heads.map_values(
            |h: TaskHeadView| reactor::pending_of(v, now, h),
        );
    let ks = rows_of_tasks(v, true, heads);
    assert forall|i: int| 0 <= i < list.len() implies (#[trigger] list[i]).task_id == ks[i] by {
        assert(list[i] == reactor::pending_of(v, now, heads[i]));
        assert(heads[i].task_id == ks[i]);
    }
    if v.heads.contains_key(task_id) && !v.heads[task_id].locked && !v.reactions.contains_key(task_id) {
        assert(ks.contains(task_id));
        let i = choose|i: int| 0 <= i < ks.len() && ks[i] == task_id;
        assert(list[i].task_id == task_id);
    }
    if exists|i: int| 0 <= i < list.len() && (#[trigger] list[i]).task_id == task_id {
        let i = choose|i: int| 0 <= i < list.len() && (#[trigger] list[i]).task_id == task_id;
        assert(ks.contains(ks[i]));
    }
    assert forall|i: int| 0 <= i < list.len() implies (#[trigger] list[i]).approve_at == (
    if reactor::may_auto_approve(v, list[i].task_id) {
        now
    } else {
        None
    }) by {
        assert(list[i] == reactor::pending_of(v, now, heads[i]));
    }
}

/// A task that was reacted to is marked with the time of the first time, and nothing else
/// changes.
pub proof fn a_reaction_is_marked_once(v: StoreView, task_id: Seq<char>, now: i64)
    ensures
        ({
            let w = reactor::with_reaction(v, task_id, now);
            &&& w == (StoreView { reactions: w.reactions, ..v })
            &&& w.reactions.contains_key(task_id)
            &&& w.reactions[task_id].reacted_at == (if v.reactions.contains_key(task_id) {
                v.reactions[task_id].reacted_at
            } else {
                now
            })
            &&& forall|other: Seq<char>| other != task_id ==> (#[trigger] w.reactions.contains_key(other)
                <==> v.reactions.contains_key(other)) && w.reactions[other] == v.reactions[other]
        }),
{
}

/// A task that was sent is found again as it was sent, under the digest of its contract; the
/// first record of a contract stands.
pub proof fn a_sent_task_is_found_again(v: StoreView, req: SentRequestView, now: i64, list: Seq<SentRequestView>)
    requires
        requests::sent_listed(requests::with_sent(v, req, now), list),
    ensures
        ({
            let w = requests::with_sent(v, req, now);
            let d = req.contract_digest;
            &&& w.sent_requests.contains_key(d)
            &&& !v.sent_requests.contains_key(d) ==> requests::sent_shown(d, w.sent_requests[d]) == req
                && w.sent_requests[d].requested_at == now && (exists|i: int|
                0 <= i < list.len() && #[trigger] list[i] == req)
            &&& v.sent_requests.contains_key(d) ==> w == v
            &&& forall|other: Seq<char>| other != d ==> (#[trigger] w.sent_requests.contains_key(other)
                <==> v.sent_requests.contains_key(other)) && w.sent_requests[other]
                == v.sent_requests[other]
            &&& w == (StoreView { sent_requests: w.sent_requests, audit: w.audit, ..v })
        }),
{
    let w = requests::with_sent(v, req, now);
    let d = req.contract_digest;
    if !v.sent_requests.contains_key(d) {
        let i = lists::every_row_is_listed(
            list,
            w.sent_requests,
            |k: Seq<char>, row: SentRowView| true,
            |k: Seq<char>, row: SentRowView| requests::sent_shown(k, row),
            |a: (Seq<char>, SentRowView), b: (Seq<char>, SentRowView)| requests::by_sent(a, b),
            d,
        );
        assert(list[i] == req);
    }
}

/// A sent task is shown with what is on record of it, in the order of sending.
pub proof fn sent_tasks_are_shown_as_they_are_kept(
    v: StoreView,
    list: Seq<SentRequestView>,
    digest: Seq<char>,
    i: int,
)
    requires
        requests::sent_listed(v, list),
    ensures
        v.sent_requests.contains_key(digest) ==> exists|j: int|
            0 <= j < list.len() && {
                let row = v.sent_requests[digest];
                let shown = #[trigger] list[j];
                &&& shown.contract_digest == digest
                &&& shown.task_id == row.task_id
                &&& shown.context_id == row.context_id
                &&& shown.performer_root == row.performer_root
                &&& shown.performer_agent == row.performer_agent
                &&& shown.performer_issuer == row.performer_issuer
                &&& shown.contract_id == row.contract_id
                &&& shown.message_id == row.message_id
            },
        0 <= i < list.len() ==> v.sent_requests.contains_key(list[i].contract_digest),
        forall|a: int, b: int|
            0 <= a < b < list.len() ==> v.sent_requests[(#[trigger] list[a]).contract_digest].requested_at
                <= v.sent_requests[(#[trigger] list[b]).contract_digest].requested_at,
{
    if v.sent_requests.contains_key(digest) {
        let j = lists::every_row_is_listed(
            list,
            v.sent_requests,
            |k: Seq<char>, row: SentRowView| true,
            |k: Seq<char>, row: SentRowView| requests::sent_shown(k, row),
            |a: (Seq<char>, SentRowView), b: (Seq<char>, SentRowView)| requests::by_sent(a, b),
            digest,
        );
        assert(list[j].contract_digest == digest);
    }
    if 0 <= i < list.len() {
        let k = lists::what_is_listed_is_a_row(
            list,
            v.sent_requests,
            |k: Seq<char>, row: SentRowView| true,
            |k: Seq<char>, row: SentRowView| requests::sent_shown(k, row),
            |a: (Seq<char>, SentRowView), b: (Seq<char>, SentRowView)| requests::by_sent(a, b),
            i,
        );
        assert(list[i].contract_digest == k);
    }
    assert forall|a: int, b: int| 0 <= a < b < list.len() implies v.sent_requests[(
    #[trigger] list[a]).contract_digest].requested_at <= v.sent_requests[(
    #[trigger] list[b]).contract_digest].requested_at by {
        let ks = lists::a_list_is_in_order(
            list,
            v.sent_requests,
            |k: Seq<char>, row: SentRowView| true,
            |k: Seq<char>, row: SentRowView| requests::sent_shown(k, row),
            |a: (Seq<char>, SentRowView), b: (Seq<char>, SentRowView)| requests::by_sent(a, b),
            a,
            b,
        );
    }
}

/// What came of a task is shown with what is on record of it, in the order of recording.
pub proof fn outcomes_are_shown_as_they_are_kept(
    v: StoreView,
    list: Seq<OutcomeSummaryView>,
    digest: Seq<char>,
    i: int,
)
    requires
        requests::outcomes_listed(v, list),
    ensures
        v.outcomes.contains_key(digest) ==> exists|j: int|
            0 <= j < list.len() && {
                let row = v.outcomes[digest];
                let shown = #[trigger] list[j];
                &&& shown.contract_digest == digest
                &&& shown.task_id == row.task_id
                &&& shown.bundle_digest == row.bundle_digest
                &&& shown.outcome_digest == row.outcome_digest
                &&& shown.state == row.state
            },
        0 <= i < list.len() ==> v.outcomes.contains_key(list[i].contract_digest),
        forall|a: int, b: int|
            0 <= a < b < list.len() ==> v.outcomes[(#[trigger] list[a]).contract_digest].recorded_at
                <= v.outcomes[(#[trigger] list[b]).contract_digest].recorded_at,
{
    if v.outcomes.contains_key(digest) {
        let j = lists::every_row_is_listed(
            list,
            v.outcomes,
            |k: Seq<char>, row: OutcomeRowView| true,
            |k: Seq<char>, row: OutcomeRowView| requests::outcome_shown(k, row),
            |a: (Seq<char>, OutcomeRowView), b: (Seq<char>, OutcomeRowView)| requests::by_recorded(a, b),
            digest,
        );
        assert(list[j].contract_digest == digest);
    }
    if 0 <= i < list.len() {
        let k = lists::what_is_listed_is_a_row(
            list,
            v.outcomes,
            |k: Seq<char>, row: OutcomeRowView| true,
            |k: Seq<char>, row: OutcomeRowView| requests::outcome_shown(k, row),
            |a: (Seq<char>, OutcomeRowView), b: (Seq<char>, OutcomeRowView)| requests::by_recorded(a, b),
            i,
        );
        assert(list[i].contract_digest == k);
    }
    assert forall|a: int, b: int| 0 <= a < b < list.len() implies v.outcomes[(
    #[trigger] list[a]).contract_digest].recorded_at <= v.outcomes[(
    #[trigger] list[b]).contract_digest].recorded_at by {
        let ks = lists::a_list_is_in_order(
            list,
            v.outcomes,
            |k: Seq<char>, row: OutcomeRowView| true,
            |k: Seq<char>, row: OutcomeRowView| requests::outcome_shown(k, row),
            |a: (Seq<char>, OutcomeRowView), b: (Seq<char>, OutcomeRowView)| requests::by_recorded(a, b),
            a,
            b,
        );
    }
}

proof fn lemma_outputs_kept(
    m: Map<(Seq<char>, Seq<char>), OutputRowView>,
    task_id: Seq<char>,
    outputs: Seq<TaskOutputView>,
    at: (Seq<char>, Seq<char>),
)
    requires
        at.0 != task_id || forall|j: int|
            0 <= j < outputs.len() ==> (#[trigger] outputs[j]).artifact_id != at.1,
    ensures
        requests::with_outputs(m, task_id, outputs).contains_key(at) <==> m.contains_key(at),
        m.contains_key(at) ==> requests::with_outputs(m, task_id, outputs)[at] == m[at],
    decreases outputs.len(),
{
    if outputs.len() > 0 {
        let before = outputs.drop_last();
        assert(outputs[outputs.len() - 1] == outputs.last());
        if at.0 == task_id {
            assert forall|j: int| 0 <= j < before.len() implies (#[trigger] before[j]).artifact_id != at.1 by {
                assert(before[j] == outputs[j]);
            }
        }
        lemma_outputs_kept(m, task_id, before, at);
    }
}

/// Outputs that are stored with what came of a task are found again as they came, each under its
/// id; what was stored before stays.
pub proof fn stored_outputs_are_found_again(
    m: Map<(Seq<char>, Seq<char>), OutputRowView>,
    task_id: Seq<char>,
    outputs: Seq<TaskOutputView>,
    i: int,
    other: (Seq<char>, Seq<char>),
)
    requires
        0 <= i < outputs.len(),
        forall|j: int| i < j < outputs.len() ==> (#[trigger] outputs[j]).artifact_id
            != outputs[i].artifact_id,
        other.0 != task_id,
    ensures
        ({
            let w = requests::with_outputs(m, task_id, outputs);
            let at = (task_id, outputs[i].artifact_id);
            &&& w.contains_key(at)
            &&& w[at].ordinal == outputs[i].ordinal
            &&& w[at].role == outputs[i].role
            &&& w[at].media_type == outputs[i].media_type
            &&& w[at].byte_length == outputs[i].byte_length
            &&& w[at].sha256 == outputs[i].sha256
            &&& w[at].payload == outputs[i].payload
            &&& requests::output_shown(at, w[at]) == outputs[i]
            &&& w.contains_key(other) <==> m.contains_key(other)
            &&& m.contains_key(other) ==> w[other] == m[other]
        }),
    decreases outputs.len(),
{
    let before = outputs.drop_last();
    lemma_outputs_kept(m, task_id, outputs, other);
    if i < before.len() {
        assert(outputs[outputs.len() - 1].artifact_id != outputs[i].artifact_id);
        assert(before[i] == outputs[i]);
        assert forall|j: int| i < j < before.len() implies (#[trigger] before[j]).artifact_id
            != before[i].artifact_id by {
            assert(before[j] == outputs[j]);
        }
        stored_outputs_are_found_again(m, task_id, before, i, other);
    }
}

/// What came of a task is on record under the digest of its contract, with the outputs that it
/// covers, in one step.
pub proof fn an_outcome_is_on_record(
    v: StoreView,
    digest: Seq<char>,
    row: OutcomeRowView,
    outputs: Seq<TaskOutputView>,
    now: i64,
)
    ensures
        ({
            let w = requests::with_covered_outcome(v, digest, row, outputs, now);
            &&& w.outcomes == v.outcomes.insert(digest, row)
            &&& w.task_outputs == requests::with_outputs(v.task_outputs, row.task_id, outputs)
            &&& w == (StoreView {
                outcomes: w.outcomes,
                task_outputs: w.task_outputs,
                audit: w.audit,
                ..v
            })
        }),
{
}

/// The inputs of a task are listed as they are stored: all of the task, each once, by their place.
pub proof fn inputs_are_shown_as_they_are_kept(
    v: StoreView,
    task_id: Seq<char>,
    list: Seq<TaskInputView>,
) -> (ks: Seq<(Seq<char>, Seq<char>)>)
    requires
        requests::inputs_listed(v, task_id, list),
    ensures
        ks.len() == list.len(),
        ks.no_duplicates(),
        forall|k: (Seq<char>, Seq<char>)| #[trigger]
            ks.contains(k) <==> v.task_inputs.contains_key(k) && k.0 == task_id,
        forall|i: int|
            0 <= i < ks.len() ==> {
                let row = v.task_inputs[ks[i]];
                &&& (#[trigger] list[i]).input_id == ks[i].1
                &&& list[i].ordinal == row.ordinal
                &&& list[i].media_type == row.media_type
                &&& list[i].byte_length == row.byte_length
                &&& list[i].sha256 == row.sha256
                &&& list[i].payload == row.payload
            },
        forall|i: int, j: int|
            0 <= i < j < ks.len() ==> v.task_inputs[#[trigger] ks[i]].ordinal
                <= v.task_inputs[#[trigger] ks[j]].ordinal,
{
    let m = v.task_inputs;
    let (keep, show, le) = choose|
        keep: spec_fn((Seq<char>, Seq<char>), InputRowView) -> bool,
        show: spec_fn((Seq<char>, Seq<char>), InputRowView) -> TaskInputView,
        le: spec_fn(
            ((Seq<char>, Seq<char>), InputRowView),
            ((Seq<char>, Seq<char>), InputRowView),
        ) -> bool,
    |
        #[trigger] table::lists(list, m, keep, show, le) && (forall|
            k: (Seq<char>, Seq<char>),
            row: InputRowView,
        | #[trigger]
            keep(k, row) == (k.0 == task_id)) && (forall|k: (Seq<char>, Seq<char>), row: InputRowView|
            #[trigger] show(k, row) == requests::input_shown(k, row)) && (forall|
            a: ((Seq<char>, Seq<char>), InputRowView),
            b: ((Seq<char>, Seq<char>), InputRowView),
        | #[trigger]
            le(a, b) == (a.1.ordinal <= b.1.ordinal));
    let ks = choose|ks: Seq<(Seq<char>, Seq<char>)>| #[trigger]
        table::listing_keys(ks, m, keep, le) && list =~= Seq::new(
            ks.len(),
            |i: int| show(ks[i], m[ks[i]]),
        );
    assert forall|k: (Seq<char>, Seq<char>)| #[trigger] ks.contains(k) implies v.task_inputs.contains_key(k)
        && k.0 == task_id by {
        assert(keep(k, m[k]) == (k.0 == task_id));
    }
    assert forall|k: (Seq<char>, Seq<char>)| v.task_inputs.contains_key(k) && k.0 == task_id implies #[trigger] ks.contains(
        k,
    ) by {
        assert(keep(k, m[k]) == (k.0 == task_id));
    }
    assert forall|i: int| 0 <= i < ks.len() implies {
        let row = v.task_inputs[ks[i]];
        &&& (#[trigger] list[i]).input_id == ks[i].1
        &&& list[i].ordinal == row.ordinal
        &&& list[i].media_type == row.media_type
        &&& list[i].byte_length == row.byte_length
        &&& list[i].sha256 == row.sha256
        &&& list[i].payload == row.payload
    } by {
        assert(show(ks[i], m[ks[i]]) == requests::input_shown(ks[i], m[ks[i]]));
    }
    assert forall|i: int, j: int| 0 <= i < j < ks.len() implies v.task_inputs[#[trigger] ks[i]].ordinal
        <= v.task_inputs[#[trigger] ks[j]].ordinal by {
        assert(le((ks[i], m[ks[i]]), (ks[j], m[ks[j]])));
    }
    ks
}

/// What is decided is what is signed: the decision that is due, and what comes back is recorded
/// as it is.
pub proof fn what_is_decided_is_signed<F: Fn(&decision::Decision) -> Option<Vec<u8>>>(
    v: StoreView,
    w: StoreView,
    due: Result<DecisionView, ProblemView>,
    sign: F,
    now: i64,
    r: Result<DecisionRecord, Problem>,
)
    requires
        decision::decides(v, w, due, sign, now, r),
    ensures
        (due matches Err(q) ==> w == v && (r matches Err(p) && p@ == q)),
        (due matches Ok(d) ==> (r matches Ok(record) ==> record@.task_id == d.task_id && record@.kind
            == d.decision && (record@.accepted <==> d.decision is Accept))),
        r is Err ==> w == v,
        (due matches Ok(d) ==> !(d.decision is Accept) ==> w == v),
{
}

/// An approval accepts a task that is not accepted yet, and leaves one that is as it was.
pub proof fn an_approval_accepts_first<S: Fn(&decision::Decision) -> Option<Vec<u8>>>(
    v: StoreView,
    w: StoreView,
    task_id: Seq<char>,
    a: Approval<'_>,
    sign: S,
    now: i64,
    r: Result<(), Problem>,
)
    requires
        approve::accepts(v, w, task_id, a, sign, now, r),
    ensures
        v.heads.contains_key(task_id) && v.heads[task_id].locked ==> w == v && r is Ok,
        r is Ok ==> w.heads.contains_key(task_id) && w.heads[task_id].locked && w.heads[task_id].digest
            == v.heads[task_id].digest,
        r is Err ==> w == v,
        !v.heads.contains_key(task_id) ==> (r matches Err(p) && p@.status == 404),
{
}

/// A sweep that ended has marked each of its tasks, and no other.
pub proof fn a_sweep_marks_its_own(v: StoreView, list: Seq<PendingTaskView>, now: i64, other: Seq<char>)
    requires
        forall|i: int| 0 <= i < list.len() ==> (#[trigger] list[i]).task_id != other,
    ensures
        ({
            let w = reactor::with_reactions(v, list, now);
            &&& w.reactions.contains_key(other) <==> v.reactions.contains_key(other)
            &&& w == (StoreView { reactions: w.reactions, ..v })
        }),
    decreases list.len(),
{
    if list.len() > 0 {
        let before = list.drop_last();
        assert forall|i: int| 0 <= i < before.len() implies (#[trigger] before[i]).task_id != other by {
            assert(before[i] == list[i]);
        }
        a_sweep_marks_its_own(v, before, now, other);
        assert(list[list.len() - 1].task_id != other);
    }
}

} // verus!
