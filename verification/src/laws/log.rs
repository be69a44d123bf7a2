//! What is logged: every change of authority leaves a record of its own, under its name, about
//! what it was done to, at its time.
use crate::authority::{AttemptState, IssuedWorkOrderView, WorkOrderView};
use crate::broker::{ProcessorCallView, ProcessorConfigView, SubAttemptState};
use crate::control::Problem;
use crate::decision::{DecisionRecord, DecisionView};
use crate::decision;
use crate::delivery::CoveredValuesView;
use crate::identity::StoredPeerView;
use crate::operator::Reply;
use crate::operator;
use crate::propose::{ProposalView, ProposedInputView};
use crate::propose;
use crate::store::attempts;
use crate::store::imports;
use crate::store::processors;
use crate::store::requests::{SentRequestView, TaskOutputView};
use crate::store::requests;
use crate::store::rows::OutcomeRowView;
use crate::store::{Store, StoreError, StoreView};
use vstd::prelude::*;

verus! {

/// The newest record of a state is this one, and the records before it are those of another.
pub open spec fn newly_logged(
    v: StoreView,
    w: StoreView,
    now: i64,
    event: Seq<char>,
    detail: Seq<char>,
) -> bool {
    let log = w.audit.records;
    &&& log.len() == v.audit.records.len() + 1
    &&& log.drop_last() =~= v.audit.records
    &&& log.last().ts == now
    &&& log.last().event == event
    &&& log.last().detail == detail
}

/// Configuring a processor is logged under its id.
pub proof fn configuring_is_logged(v: StoreView, config: ProcessorConfigView, now: i64)
    ensures
        newly_logged(
            v,
            operator::with_processor(v, config, now),
            now,
            "processor.configured"@,
            config.processor_id,
        ),
{
}

/// A call that is prepared, and each move of it, is logged under its key.
pub proof fn calls_are_logged(
    v: StoreView,
    call: ProcessorCallView,
    key: Seq<char>,
    state: SubAttemptState,
    now: i64,
)
    ensures
        newly_logged(
            v,
            processors::with_call(v, call, now),
            now,
            "processor.prepared"@,
            call.idempotency_key,
        ),
        newly_logged(
            v,
            processors::with_call_state(v, key, state, now),
            now,
            "processor.transition"@,
            key + ":"@ + (match state {
                SubAttemptState::Prepared => "prepared"@,
                SubAttemptState::Dispatching => "dispatching"@,
                SubAttemptState::Completed => "completed"@,
                SubAttemptState::Failed => "failed"@,
                SubAttemptState::Ambiguous => "ambiguous"@,
            }),
        ),
{
}

/// A claim, an order, and each move of an attempt is logged under its order.
pub proof fn attempts_are_logged(
    v: StoreView,
    order: WorkOrderView,
    digest: Seq<char>,
    issued: IssuedWorkOrderView,
    id: Seq<char>,
    state: AttemptState,
    now: i64,
)
    ensures
        newly_logged(
            v,
            attempts::with_claim(v, order, digest, now),
            now,
            "attempt.claimed"@,
            order.work_order_id,
        ),
        !v.work_orders.contains_key(issued.order.work_order_id) ==> newly_logged(
            v,
            attempts::with_work_order(v, issued, now),
            now,
            "work_order.issued"@,
            issued.order.work_order_id,
        ),
        newly_logged(
            v,
            attempts::with_attempt_state(v, id, state, now),
            now,
            "attempt.transition"@,
            id + ":"@ + (match state {
                AttemptState::Pending => "pending"@,
                AttemptState::Claimed => "claimed"@,
                AttemptState::Running => "running"@,
                AttemptState::Succeeded => "succeeded"@,
                AttemptState::Failed => "failed"@,
                AttemptState::Ambiguous => "ambiguous"@,
                AttemptState::Cancelled => "cancelled"@,
            }),
        ),
{
}

/// A result is logged after the end of its attempt, under its digest.
pub proof fn results_are_logged(
    v: StoreView,
    id: Seq<char>,
    task_id: Seq<char>,
    digest: Seq<char>,
    manifest: Seq<u8>,
    now: i64,
)
    ensures
        ({
            let log = attempts::with_result(v, id, task_id, digest, manifest, now).audit.records;
            let n = v.audit.records.len() as int;
            &&& log.len() == n + 2
            &&& log.take(n) =~= v.audit.records
            &&& log[n].event == "attempt.transition"@
            &&& log[n].detail == id + ":"@ + "succeeded"@
            &&& log[n].ts == now
            &&& log[n + 1].event == "result.completed"@
            &&& log[n + 1].detail == digest
            &&& log[n + 1].ts == now
        }),
{
}

/// A task that is sent is logged under the digest of its contract, and what came of it under its
/// own digest, after its outputs.
pub proof fn sent_tasks_are_logged(
    v: StoreView,
    req: SentRequestView,
    digest: Seq<char>,
    row: OutcomeRowView,
    outputs: Seq<TaskOutputView>,
    now: i64,
)
    ensures
        !v.sent_requests.contains_key(req.contract_digest) ==> newly_logged(
            v,
            requests::with_sent(v, req, now),
            now,
            "request.sent"@,
            req.contract_digest,
        ),
        ({
            let log = requests::with_covered_outcome(v, digest, row, outputs, now).audit.records;
            let n = v.audit.records.len() as int;
            &&& log.last().event == "outcome.signed"@
            &&& log.last().detail == row.outcome_digest
            &&& log.last().ts == now
            &&& outputs.len() == 0 ==> log.len() == n + 1
            &&& outputs.len() > 0 ==> log.len() == n + 2 && log[n].event == "task.output_stored"@
                && log[n].detail == row.task_id
        }),
{
}

/// An introduction that pins a peer, and one that suspends it, is logged under the root.
pub proof fn introductions_are_logged(
    v: StoreView,
    root: Seq<char>,
    epoch: u64,
    peer: StoredPeerView,
    keys: Seq<(Seq<char>, Seq<u8>)>,
    now: i64,
)
    ensures
        ({
            let outcome = imports::intro_verdict(v, root, epoch, peer);
            let w = imports::after_introduction(v, root, epoch, peer, keys, now);
            &&& outcome is Committed || outcome is AlreadyActive ==> newly_logged(
                v,
                w,
                now,
                "peer.introduced"@,
                root,
            )
            &&& outcome is Suspended && imports::suspension(v.peers[root].peer.identity, peer.identity) is Some
                ==> newly_logged(v, w, now, "peer.suspended"@, root)
        }),
{
}

/// A relationship that is removed is logged under its root.
pub proof fn removals_are_logged(
    v: StoreView,
    w: StoreView,
    label: Seq<char>,
    wall: i64,
    r: Result<Reply, Problem>,
)
    requires
        operator::removes_peer(v, w, label, wall, r),
        r is Ok,
    ensures
        newly_logged(
            v,
            w,
            wall,
            "peer.removed"@,
            imports::labelled(v, label)->0.root_thumbprint,
        ),
{
}

/// An acceptance is logged under the digest that was accepted; any other decision is not logged.
pub proof fn acceptances_are_logged(
    v: StoreView,
    w: StoreView,
    d: DecisionView,
    signed: Option<Vec<u8>>,
    now: i64,
    r: Result<DecisionRecord, Problem>,
)
    requires
        decision::recorded(v, w, d, signed, now, r),
    ensures
        signed is Some && d.decision is Accept ==> newly_logged(
            v,
            w,
            now,
            "contract.accepted"@,
            d.contract_digest,
        ),
        signed is None || !(d.decision is Accept) ==> w.audit == v.audit,
{
}

/// A proposal is logged under its digest, and each of its inputs under the task.
pub proof fn proposals_are_logged(
    v: StoreView,
    covered: CoveredValuesView,
    body: Seq<u8>,
    origin_root: Seq<char>,
    p: ProposalView,
    input: ProposedInputView,
    ordinal: i64,
    now: i64,
)
    ensures
        newly_logged(
            v,
            propose::with_terms(v, covered, body, origin_root, p, now),
            now,
            "contract.submitted"@,
            p.parsed.digest,
        ),
        newly_logged(
            v,
            propose::with_input(v, p.task_id, input, ordinal, now),
            now,
            "task.input_stored"@,
            p.task_id,
        ),
{
}

/// A key, a credential, an input, an output and an outcome that are stored one by one are logged
/// too.
pub proof fn single_records_are_logged(
    store: &mut Store,
    a: &str,
    b: &str,
    c: &str,
    d: &str,
    e: &str,
    key: &[u8; 32],
    bytes: &[u8],
    n: i64,
    m: i64,
    now: i64,
    r: Result<(), StoreError>,
)
    ensures
        call_ensures(Store::put_peer_key, (store, a, b, c, d, key, e, now), r) ==> newly_logged(
            old(store)@,
            final(store)@,
            now,
            "peer.key_persisted"@,
            c@ + ":"@ + b@,
        ),
        call_ensures(Store::put_credential, (store, a, bytes, now), r) ==> newly_logged(
            old(store)@,
            final(store)@,
            now,
            "processor.credential_set"@,
            a@,
        ),
        call_ensures(Store::put_task_input, (store, a, b, n, c, m, d, bytes, now), r) ==> newly_logged(
            old(store)@,
            final(store)@,
            now,
            "task.input_stored"@,
            a@,
        ),
        call_ensures(Store::put_task_output, (store, a, b, n, c, d, m, e, bytes, now), r)
            ==> newly_logged(old(store)@, final(store)@, now, "task.output_stored"@, a@),
{
}

} // verus!
