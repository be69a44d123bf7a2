//! The record: what calls on the store leave on it, each in terms of what it was asked.
use crate::authority::{IssuedWorkOrder, WorkOrder};
use crate::contract::{LockError, ParsedContract, RevisionVerdict};
use crate::delivery::CoveredValues;
use crate::identity::StoredPeer;
use crate::store::attempts::{ClaimOutcome, CompletionOutcome};
use crate::store::imports::{ImportOutcome, PeerImport};
use crate::store::inbox::Receipt;
use crate::store::requests::{NewTaskOutput, OutcomeWrite};
use crate::store::rows::EgressState;
use crate::store::staging::{DispatchOutcome, DispatchRecord, NewStagedContract, StageOutcome};
use crate::store::{CoordEventKind, Store, StoreError, StoreView};
use crate::table;
use vstd::prelude::*;

verus! {

/// A peer is pinned under its own root: as it is given, active where it is new, and where it is
/// known with the standing it had.
pub proof fn a_peer_is_pinned_under_its_root(
    store: &mut Store,
    peer: &StoredPeer,
    r: Result<(), StoreError>,
    other: Seq<char>,
)
    requires
        call_ensures(Store::put_peer, (store, peer), r),
    ensures
        ({
            let root = peer@.identity.agent_card_key.value;
            let v = old(store)@;
            let w = final(store)@;
            &&& r is Ok <==> root.len() > 0
            &&& r is Err ==> w == v
            &&& r is Ok ==> w.peers.contains_key(root) && w.peers[root].peer == peer@
            &&& r is Ok && !v.peers.contains_key(root) ==> w.peers[root].status is Active
            &&& r is Ok && v.peers.contains_key(root) ==> w.peers[root].status == v.peers[root].status
            &&& other != root ==> (w.peers.contains_key(other) <==> v.peers.contains_key(other))
                && w.peers[other] == v.peers[other]
            &&& w == (StoreView { peers: w.peers, ..v })
        }),
{
}

/// A relationship is added once: under a free label, at an address, in its first epoch or in the
/// one that its removal left it.
pub proof fn a_relationship_is_added_once(
    store: &mut Store,
    root: &str,
    label: &str,
    hint: &str,
    now: i64,
    r: Result<ImportOutcome, StoreError>,
    other: Seq<char>,
)
    requires
        call_ensures(Store::add_peer_import, (store, root, label, hint, now), r),
    ensures
        ({
            let v = old(store)@;
            let w = final(store)@;
            let row = w.imports[root@];
            let live = v.imports.contains_key(root@) && v.imports[root@].tombstoned_at is None;
            &&& live ==> r == Ok::<ImportOutcome, StoreError>(ImportOutcome::DuplicateRoot) && w == v
            &&& !live && v.imports.contains_key(other) && other != root@ && v.imports[other].label
                == Some(label@) ==> r == Ok::<ImportOutcome, StoreError>(ImportOutcome::LabelTaken) && w
                == v
            &&& r == Ok::<ImportOutcome, StoreError>(ImportOutcome::Added) ==> w.imports.contains_key(
                root@,
            ) && row.label == Some(label@) && row.endpoint_hint == hint@ && row.tombstoned_at is None
                && row.added_at == now
        }),
{
    let v = old(store)@;
    if v.imports.contains_key(other) && other != root@ && v.imports[other].label == Some(label@) {
        assert(crate::store::imports::holds_label(v, other, label@));
    }
}

/// A relationship that is removed is not found any more, and its epoch has advanced: nothing that
/// began before counts.
pub proof fn a_removed_relationship_is_not_found(
    store: &mut Store,
    root: &str,
    now: i64,
    r: Result<bool, StoreError>,
    found: Result<Option<PeerImport>, StoreError>,
)
    requires
        call_ensures(Store::remove_relationship, (store, root, now), r),
        call_ensures(Store::peer_import, (&*final(store), root), found),
        r == Ok::<bool, StoreError>(true),
        root@.len() > 0,
    ensures
        found matches Ok(None),
        final(store)@.imports[root@].epoch == old(store)@.imports[root@].epoch + 1,
        final(store)@.imports[root@].label is None,
        !final(store)@.peers.contains_key(root@),
        !final(store)@.auto_approve.contains_key(root@),
{
}

/// A relationship is found by its root as it is kept, while it lives.
pub proof fn a_relationship_is_found_while_it_lives(
    store: &Store,
    root: &str,
    found: Result<Option<PeerImport>, StoreError>,
)
    requires
        call_ensures(Store::peer_import, (store, root), found),
    ensures
        ({
            let v = store@;
            let live = v.imports.contains_key(root@) && v.imports[root@].tombstoned_at is None;
            &&& found is Ok
            &&& live ==> (found matches Ok(Some(i)) && i@.root_thumbprint == root@ && i@.endpoint_hint
                == v.imports[root@].endpoint_hint && i@.epoch == v.imports[root@].epoch && i@.added_at
                == v.imports[root@].added_at && (v.imports[root@].label matches Some(label) ==> i@.label
                == label))
            &&& !live ==> (found matches Ok(None))
        }),
{
}

/// A request that was received is a repetition when it is asked about again, with the response
/// and the task of the first time.
pub proof fn a_received_request_is_a_repetition(
    store: &mut Store,
    covered: &CoveredValues,
    body: &[u8],
    response: &[u8],
    task_id: Option<&str>,
    class: &str,
    now: i64,
    r: Result<Receipt, StoreError>,
    again: Result<Receipt, StoreError>,
)
    requires
        call_ensures(
            Store::receive_request,
            (store, covered, body, response, task_id, class, now),
            r,
        ),
        call_ensures(Store::peek, (&*final(store), covered), again),
        r matches Ok(first) && first is Fresh,
    ensures
        again matches Ok(Receipt::Duplicate { task_id: t, response: saved }) && saved@ == response@
            && crate::text::view_option(t) == crate::text::view_str(task_id),
        final(store)@.inbox[(covered@.peer, covered@.message_id)].body == body@,
{
}

/// A revision is taken only where it advances the head, and is then the head.
pub proof fn a_revision_is_taken_where_it_advances(
    store: &mut Store,
    task_id: &str,
    p: &ParsedContract,
    origin_root: &str,
    expires_at: i64,
    now: i64,
    r: Result<RevisionVerdict, StoreError>,
)
    requires
        call_ensures(Store::submit_revision, (store, task_id, p, origin_root, expires_at, now), r),
    ensures
        ({
            let v = old(store)@;
            let w = final(store)@;
            let advances = if v.heads.contains_key(task_id@) {
                !v.heads[task_id@].locked && p@.contract.revision == v.heads[task_id@].revision + 1
                    && p@.contract.predecessor_digest == Some(v.heads[task_id@].digest)
            } else {
                p@.contract.revision == 0
            };
            &&& r is Ok
            &&& r->Ok_0 is Advance <==> advances
            &&& !advances ==> w == v
            &&& advances ==> w.heads[task_id@].digest == p@.digest && w.heads[task_id@].revision
                == p@.contract.revision && !w.heads[task_id@].locked
        }),
{
}

/// A contract is accepted at its own digest, once, and is then locked.
pub proof fn a_contract_is_accepted_once(
    store: &mut Store,
    task_id: &str,
    digest: &str,
    now: i64,
    r: Result<Result<(), LockError>, StoreError>,
)
    requires
        call_ensures(Store::accept_contract, (store, task_id, digest, now), r),
    ensures
        ({
            let v = old(store)@;
            let w = final(store)@;
            let open = v.heads.contains_key(task_id@) && !v.heads[task_id@].locked
                && v.heads[task_id@].digest == digest@;
            &&& r is Ok
            &&& r->Ok_0 is Ok <==> open
            &&& open ==> w.heads[task_id@].locked && w.heads[task_id@].digest == digest@
            &&& !open ==> w == v
        }),
{
}

/// A purge takes away the contracts whose time is over, and no others.
pub proof fn a_purge_takes_what_is_over(
    store: &mut Store,
    now: i64,
    r: Result<(), StoreError>,
    digest: Seq<char>,
)
    requires
        call_ensures(Store::purge_expired_contracts, (store, now), r),
    ensures
        final(store)@.contracts.contains_key(digest) <==> old(store)@.contracts.contains_key(digest)
            && old(store)@.contracts[digest].expires_at > now,
        final(store)@.contracts.contains_key(digest) ==> final(store)@.contracts[digest]
            == old(store)@.contracts[digest],
        final(store)@.heads == old(store)@.heads,
{
}

/// An order is claimed once, under a nonce of its own, and stands as it was issued.
pub proof fn an_order_is_claimed_once(
    store: &mut Store,
    order: &WorkOrder,
    digest: &str,
    now: i64,
    r: Result<ClaimOutcome, StoreError>,
    other: Seq<char>,
)
    requires
        call_ensures(Store::claim_attempt, (store, order, digest, now), r),
    ensures
        ({
            let v = old(store)@;
            let w = final(store)@;
            let id = order@.work_order_id;
            let row = w.attempts[id];
            &&& v.attempts.contains_key(id) ==> r == Ok::<ClaimOutcome, StoreError>(
                ClaimOutcome::AlreadyClaimed(v.attempts[id].state),
            ) && w == v
            &&& !v.attempts.contains_key(id) && v.attempts.contains_key(other)
                && v.attempts[other].nonce == order@.nonce ==> r == Ok::<ClaimOutcome, StoreError>(
                ClaimOutcome::NonceReused,
            ) && w == v
            &&& r == Ok::<ClaimOutcome, StoreError>(ClaimOutcome::Claimed) ==> w.attempts.contains_key(id)
                && row.nonce == order@.nonce && row.task_id == order@.task_id && row.work_order_digest
                == digest@ && row.state is Claimed && row.budgets == order@.budgets && row.deadline
                == order@.deadline && row.claimed_at == now
            &&& other != id ==> (w.attempts.contains_key(other) <==> v.attempts.contains_key(other))
                && w.attempts[other] == v.attempts[other]
        }),
{
}

/// An order that is kept is found as it was issued; the first of an id stands.
pub proof fn an_order_is_found_as_it_was_issued(
    store: &mut Store,
    issued: &IssuedWorkOrder,
    now: i64,
    r: Result<(), StoreError>,
    id: &str,
    found: Result<Option<IssuedWorkOrder>, StoreError>,
)
    requires
        call_ensures(Store::put_work_order, (store, issued, now), r),
        call_ensures(Store::get_work_order, (&*final(store), id), found),
        id@ == issued@.order.work_order_id,
    ensures
        !old(store)@.work_orders.contains_key(id@) ==> (found matches Ok(Some(o)) && o@ == issued@),
        old(store)@.work_orders.contains_key(id@) ==> final(store)@ == old(store)@,
{
}

/// A result is recorded with the end of its attempt, once, and is found under its order.
pub proof fn a_result_is_found_under_its_order(
    store: &mut Store,
    id: &str,
    task_id: &str,
    digest: &str,
    manifest: &[u8],
    now: i64,
    r: Result<CompletionOutcome, StoreError>,
    found: Result<Option<(String, Vec<u8>)>, StoreError>,
)
    requires
        call_ensures(
            Store::complete_attempt_with_result,
            (store, id, task_id, digest, manifest, now),
            r,
        ),
        call_ensures(Store::result_manifest, (&*final(store), id), found),
    ensures
        r == Ok::<CompletionOutcome, StoreError>(CompletionOutcome::Completed) ==> (found matches Ok(
            Some((d, m)),
        ) && d@ == digest@ && m@ == manifest@) && final(store)@.attempts[id@].state is Succeeded
            && final(store)@.results[id@].task_id == task_id@ && final(store)@.results[id@].completed_at
            == now,
        old(store)@.attempts.contains_key(id@) && old(store)@.attempts[id@].state is Succeeded ==> r
            == Ok::<CompletionOutcome, StoreError>(CompletionOutcome::AlreadyCompleted) && final(store)@
            == old(store)@,
        !old(store)@.attempts.contains_key(id@) ==> r is Err && final(store)@ == old(store)@,
{
}

/// What came of a task and the outputs it covers are recorded in one step, as they came; a second
/// time gives what was recorded first.
pub proof fn an_outcome_is_recorded_with_its_outputs(
    store: &mut Store,
    contract_digest: &str,
    task_id: &str,
    bundle_digest: &str,
    outcome_digest: &str,
    state: &str,
    envelope: &[u8],
    outputs: &Vec<NewTaskOutput<'_>>,
    signed_at: &str,
    now: i64,
    r: Result<OutcomeWrite, StoreError>,
    i: int,
)
    requires
        call_ensures(
            Store::record_outcome_with_outputs,
            (
                store,
                contract_digest,
                task_id,
                bundle_digest,
                outcome_digest,
                state,
                envelope,
                outputs,
                signed_at,
                now,
            ),
            r,
        ),
    ensures
        ({
            let v = old(store)@;
            let w = final(store)@;
            let row = w.outcomes[contract_digest@];
            &&& v.outcomes.contains_key(contract_digest@) ==> w == v && (r matches Ok(
                OutcomeWrite::AlreadyRecorded { outcome_digest: d },
            ) && d@ == v.outcomes[contract_digest@].outcome_digest)
            &&& r is Err ==> w == v
            &&& (r matches Ok(OutcomeWrite::Recorded) ==> w.outcomes.contains_key(contract_digest@)
                && row.task_id == task_id@ && row.bundle_digest == bundle_digest@ && row.outcome_digest
                == outcome_digest@ && row.state == state@ && row.outcome == envelope@ && row.signed_at
                == signed_at@ && row.recorded_at == now)
            &&& (r matches Ok(OutcomeWrite::Recorded) ==> (0 <= i < outputs@.len() ==> {
                let o = outputs@[i]@;
                let at = (task_id@, o.artifact_id);
                &&& !v.task_outputs.contains_key(at)
                &&& w.task_outputs.contains_key(at)
                &&& w.task_outputs[at].ordinal == o.ordinal
                &&& w.task_outputs[at].role == o.role
                &&& w.task_outputs[at].media_type == o.media_type
                &&& w.task_outputs[at].byte_length == o.byte_length
                &&& w.task_outputs[at].sha256 == o.sha256
                &&& w.task_outputs[at].payload == o.payload
            }))
        }),
{
    if r matches Ok(OutcomeWrite::Recorded) {
        if 0 <= i < outputs@.len() {
            let seen = table::seen(outputs@);
            assert(seen[i] == outputs@[i]@);
            assert forall|j: int| i < j < seen.len() implies (#[trigger] seen[j]).artifact_id
                != seen[i].artifact_id by {}
            assert(task_id@.push('x').len() != task_id@.len());
            crate::laws::tasks::stored_outputs_are_found_again(
                old(store)@.task_outputs,
                task_id@,
                seen,
                i,
                (task_id@.push('x'), task_id@),
            );
        }
    }
}

/// A staging is on record as it was asked for, unless its reference is taken; then it is given as
/// it was staged before.
pub proof fn a_staging_is_kept_as_it_was_asked(
    store: &mut Store,
    new: &NewStagedContract<'_>,
    now: i64,
    r: Result<StageOutcome, StoreError>,
)
    requires
        call_ensures(Store::stage_contract, (store, new, now), r),
    ensures
        ({
            let v = old(store)@;
            let w = final(store)@;
            let at = new.stage_ref@;
            let row = w.stages[at];
            &&& (r matches Ok(StageOutcome::Staged(s)) ==> !v.stages.contains_key(at) && row.staged_digest
                == new.staged_digest@ && row.payload_sha256 == new.payload_sha256@ && row.task_type
                == new.task_type@ && row.performer == new.performer@ && row.payload == new.payload@
                && row.staged_at == now && s@.stage_ref == at && s@.staged_digest == new.staged_digest@
                && s@.task_type == new.task_type@ && s@.performer == new.performer@
                && s@.payload_sha256 == new.payload_sha256@ && s@.staged_at == now)
            &&& (r matches Ok(StageOutcome::AlreadyStaged(s)) ==> w == v && s@.stage_ref == at
                && s@.staged_digest == v.stages[at].staged_digest && s@.staged_at
                == v.stages[at].staged_at)
            &&& r is Err ==> w == v
        }),
{
}

/// A dispatch spends the receipt for what is staged, once: it is on record under its key with
/// what it was begun with, and nothing is known yet of its carriage.
pub proof fn a_dispatch_spends_its_receipt(
    store: &mut Store,
    stage_ref: &str,
    receipt_id: &str,
    key: &str,
    dispatch_receipt: &str,
    recipient_root: &str,
    now: i64,
    r: Result<DispatchOutcome, StoreError>,
)
    requires
        call_ensures(
            Store::dispatch_staged,
            (store, stage_ref, receipt_id, key, dispatch_receipt, recipient_root, now),
            r,
        ),
    ensures
        ({
            let v = old(store)@;
            let w = final(store)@;
            let row = w.dispatches[key@];
            let e = w.events.last();
            let receipt = v.receipts[receipt_id@];
            let good = v.receipts.contains_key(receipt_id@) && receipt.stage_ref == stage_ref@
                && receipt.uses < receipt.max_uses;
            &&& (r matches Ok(DispatchOutcome::Dispatched(_)) ==> good && !v.dispatches.contains_key(key@)
                && w.dispatches.contains_key(key@) && row.stage_ref == stage_ref@ && row.receipt_id
                == receipt_id@ && row.staged_digest == receipt.staged_digest && row.dispatch_receipt
                == dispatch_receipt@ && row.dispatched_at == now && row.egress_state is Pending
                && row.egress_at is None && w.receipts[receipt_id@].uses == receipt.uses + 1
                && w.receipts[receipt_id@].max_uses == receipt.max_uses && w.events == v.events.push(e)
                && e.kind == CoordEventKind::Dispatched && e.stage_ref == stage_ref@ && e.execution_key
                == Some(key@) && e.consent_receipt == Some(receipt_id@) && e.dispatch_receipt == Some(
                dispatch_receipt@,
            ) && e.recipient_root == Some(recipient_root@) && e.staged_digest == receipt.staged_digest
                && e.at == now)
            &&& !v.dispatches.contains_key(key@) && !good ==> w == v && !(r matches Ok(
                DispatchOutcome::Dispatched(_),
            ))
            &&& v.dispatches.contains_key(key@) ==> w == v
            &&& v.dispatches.contains_key(key@) && v.dispatches[key@].stage_ref == stage_ref@
                && v.dispatches[key@].receipt_id == receipt_id@ ==> (r matches Ok(
                DispatchOutcome::AlreadyDispatched(d),
            ) && d@.execution_key == key@ && d@.dispatch_receipt == v.dispatches[key@].dispatch_receipt
                && d@.dispatched_at == v.dispatches[key@].dispatched_at)
        }),
{
}

/// Where a carriage got to is on record with its dispatch, and told; what the recipient has
/// acknowledged stands.
pub proof fn a_carriage_is_recorded_with_its_dispatch(
    store: &mut Store,
    key: &str,
    recipient_root: &str,
    state: EgressState,
    detail: &str,
    now: i64,
    r: Result<Option<DispatchRecord>, StoreError>,
)
    requires
        call_ensures(Store::record_egress, (store, key, recipient_root, state, detail, now), r),
        r matches Ok(Some(_)),
    ensures
        ({
            let v = old(store)@;
            let w = final(store)@;
            let row = w.dispatches[key@];
            let e = w.events.last();
            &&& v.dispatches.contains_key(key@)
            &&& v.dispatches[key@].egress_state is Sent ==> w == v
            &&& !(v.dispatches[key@].egress_state is Sent) ==> row.egress_state == state && row.egress_at
                == Some(now) && row.egress_detail == detail@ && w.events == v.events.push(e) && e.kind
                == CoordEventKind::EgressRecorded && e.execution_key == Some(key@) && e.recipient_root
                == Some(recipient_root@) && e.egress_state == Some(state) && e.remark == Some(detail@)
                && e.at == now
            &&& row.stage_ref == v.dispatches[key@].stage_ref
            &&& row.receipt_id == v.dispatches[key@].receipt_id
            &&& row.dispatch_receipt == v.dispatches[key@].dispatch_receipt
            &&& row.dispatched_at == v.dispatches[key@].dispatched_at
            &&& (r matches Ok(Some(d)) && d@.execution_key == key@ && d@.egress_state == row.egress_state
                && d@.egress_at == row.egress_at && d@.egress_detail == row.egress_detail
                && d@.staged_digest == row.staged_digest && d@.stage_ref == row.stage_ref
                && d@.receipt_id == row.receipt_id && d@.dispatch_receipt == row.dispatch_receipt)
        }),
{
}

/// The time that is trusted is the later of the clock and what was trusted before; a clock too
/// far behind is refused and changes nothing.
pub proof fn the_time_is_the_later_one(store: &mut Store, wall: i64, r: Result<i64, StoreError>)
    requires
        call_ensures(Store::trusted_now, (store, wall), r),
    ensures
        r is Ok <==> wall >= old(store)@.trusted_time - 300,
        (r matches Ok(now) ==> now >= wall && now >= old(store)@.trusted_time && (now == wall || now
            == old(store)@.trusted_time) && final(store)@.trusted_time == now),
        r is Err ==> final(store)@ == old(store)@,
{
}

/// What is written to the log of the state is its newest record.
pub proof fn what_is_logged_is_the_newest_record(
    store: &mut Store,
    ts: i64,
    event: &str,
    detail: &str,
    r: Result<i64, StoreError>,
)
    requires
        call_ensures(Store::audit, (store, ts, event, detail), r),
    ensures
        ({
            let log = final(store)@.audit.records;
            &&& log.len() == old(store)@.audit.records.len() + 1
            &&& log.last().ts == ts
            &&& log.last().event == event@
            &&& log.last().detail == detail@
            &&& r == Ok::<i64, StoreError>(log.last().seq)
            &&& log.drop_last() == old(store)@.audit.records
            &&& final(store)@ == (StoreView { audit: final(store)@.audit, ..old(store)@ })
        }),
{
}

} // verus!
