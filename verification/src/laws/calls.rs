//! How two calls relate: what one of them records, another gives back.
use crate::contract::Capability;
use crate::contract;
use crate::coord_egress;
use crate::introduce::{Dial, Disclosure, IntroduceError, IntroduceErrorView, VerifiedPeer};
use crate::introduce;
use crate::reactor;
use crate::store::peers::{AutoApprovePolicy, PeerKey};
use crate::store::{Recovery, Store, StoreError};
use vstd::prelude::*;

verus! {

/// A generation that is set is the one that is found.
pub proof fn a_generation_is_found_as_it_was_set(
    store: &mut Store,
    generation: u64,
    r: Result<(), StoreError>,
    found: Result<u64, StoreError>,
)
    requires
        call_ensures(Store::set_state_generation, (store, generation), r),
        call_ensures(Store::state_generation, (&*final(store),), found),
    ensures
        r is Ok,
        found == Ok::<u64, StoreError>(generation),
        final(store)@.trusted_time == old(store)@.trusted_time,
{
}

/// The key of a peer is found under the certificate and the purpose that it was kept for, as it
/// was kept.
pub proof fn a_key_is_found_as_it_was_kept(
    store: &mut Store,
    certificate: &str,
    purpose: &str,
    agent_id: &str,
    issuer: &str,
    public_key: &[u8; 32],
    root: &str,
    now: i64,
    r: Result<(), StoreError>,
    found: Result<Option<PeerKey>, StoreError>,
)
    requires
        call_ensures(
            Store::put_peer_key,
            (store, certificate, purpose, agent_id, issuer, public_key, root, now),
            r,
        ),
        call_ensures(Store::peer_key, (&*final(store), certificate, purpose), found),
    ensures
        r is Ok,
        found matches Ok(Some(key)) && key@.agent_id == agent_id@ && key@.issuer == issuer@
            && key@.public_key == public_key@ && key@.root_thumbprint == root@,
{
}

/// What came of a contract is found under its digest, as it was recorded; a second record of it
/// changes nothing.
pub proof fn an_outcome_is_found_as_it_was_recorded(
    store: &mut Store,
    contract_digest: &str,
    task_id: &str,
    bundle_digest: &str,
    outcome_digest: &str,
    state: &str,
    envelope: &[u8],
    signed_at: &str,
    now: i64,
    r: Result<(), StoreError>,
    found: Result<Option<(String, Vec<u8>)>, StoreError>,
)
    requires
        call_ensures(
            Store::put_outcome,
            (
                store,
                contract_digest,
                task_id,
                bundle_digest,
                outcome_digest,
                state,
                envelope,
                signed_at,
                now,
            ),
            r,
        ),
        call_ensures(Store::get_outcome, (&*final(store), contract_digest), found),
    ensures
        r is Ok,
        old(store)@.outcomes.contains_key(contract_digest@) ==> final(store)@ == old(store)@,
        !old(store)@.outcomes.contains_key(contract_digest@) ==> {
            let row = final(store)@.outcomes[contract_digest@];
            &&& (found matches Ok(Some((digest, bytes))) && digest@ == outcome_digest@ && bytes@
                == envelope@)
            &&& row.task_id == task_id@
            &&& row.bundle_digest == bundle_digest@
            &&& row.state == state@
            &&& row.signed_at == signed_at@
            &&& row.recorded_at == now
        },
{
}

/// An input of a task is on record as it was stored; the first one of an id stands.
pub proof fn an_input_is_kept_as_it_was_stored(
    store: &mut Store,
    task_id: &str,
    input_id: &str,
    ordinal: i64,
    media_type: &str,
    byte_length: i64,
    sha256: &str,
    payload: &[u8],
    now: i64,
    r: Result<(), StoreError>,
)
    requires
        call_ensures(
            Store::put_task_input,
            (store, task_id, input_id, ordinal, media_type, byte_length, sha256, payload, now),
            r,
        ),
    ensures
        ({
            let at = (task_id@, input_id@);
            let row = final(store)@.task_inputs[at];
            &&& final(store)@.task_inputs.contains_key(at)
            &&& old(store)@.task_inputs.contains_key(at) ==> row == old(store)@.task_inputs[at]
            &&& !old(store)@.task_inputs.contains_key(at) ==> row.ordinal == ordinal && row.media_type
                == media_type@ && row.byte_length == byte_length && row.sha256 == sha256@ && row.payload
                == payload@
        }),
{
}

/// An output of a task is on record as it was stored; the first one of an id stands.
pub proof fn an_output_is_kept_as_it_was_stored(
    store: &mut Store,
    task_id: &str,
    artifact_id: &str,
    ordinal: i64,
    role: &str,
    media_type: &str,
    byte_length: i64,
    sha256: &str,
    payload: &[u8],
    now: i64,
    r: Result<(), StoreError>,
)
    requires
        call_ensures(
            Store::put_task_output,
            (
                store,
                task_id,
                artifact_id,
                ordinal,
                role,
                media_type,
                byte_length,
                sha256,
                payload,
                now,
            ),
            r,
        ),
    ensures
        ({
            let at = (task_id@, artifact_id@);
            let row = final(store)@.task_outputs[at];
            &&& final(store)@.task_outputs.contains_key(at)
            &&& old(store)@.task_outputs.contains_key(at) ==> row == old(store)@.task_outputs[at]
            &&& !old(store)@.task_outputs.contains_key(at) ==> row.ordinal == ordinal && row.role
                == role@ && row.media_type == media_type@ && row.byte_length == byte_length
                && row.sha256 == sha256@ && row.payload == payload@
        }),
{
}

/// The context of a task is found as it was set.
pub proof fn a_context_is_found_as_it_was_set(
    store: &mut Store,
    task_id: &str,
    context_id: &str,
    r: Result<(), StoreError>,
    found: Result<Option<String>, StoreError>,
)
    requires
        call_ensures(Store::set_task_context, (store, task_id, context_id), r),
        call_ensures(Store::task_context, (&*final(store), task_id), found),
        old(store)@.heads.contains_key(task_id@),
        context_id@.len() > 0,
    ensures
        found matches Ok(Some(c)) && c@ == context_id@,
        final(store)@.heads[task_id@].digest == old(store)@.heads[task_id@].digest,
        final(store)@.heads[task_id@].locked == old(store)@.heads[task_id@].locked,
        final(store)@.heads[task_id@].origin_root == old(store)@.heads[task_id@].origin_root,
{
}

/// A standing approval is found as it was set, within the largest limit that is kept; and one
/// that was deleted is not found.
pub proof fn an_approval_is_found_until_it_is_deleted(
    store: &mut Store,
    agent_id: &str,
    root: &str,
    policy: &AutoApprovePolicy,
    now: i64,
    r: Result<(), StoreError>,
    found: Result<Option<AutoApprovePolicy>, StoreError>,
)
    requires
        call_ensures(Store::put_auto_approve, (store, agent_id, root, policy, now), r),
        call_ensures(Store::auto_approve_for_root, (&*final(store), root), found),
        policy@.max_response_bytes <= i64::MAX,
        forall|i: int|
            0 <= i < policy@.task_types.len() ==> crate::text::fits_a_line(#[trigger] policy@.task_types[i]),
    ensures
        found matches Ok(Some(p)) && p@.task_types == policy@.task_types && p@.max_response_bytes
            == policy@.max_response_bytes,
        final(store)@.auto_approve[root@].agent_id == agent_id@,
{
    crate::text::lines_read_back(policy@.task_types);
}

/// A standing approval that was deleted is not found.
pub proof fn a_deleted_approval_is_not_found(
    store: &mut Store,
    root: &str,
    r: Result<bool, StoreError>,
    found: Result<Option<AutoApprovePolicy>, StoreError>,
    other: Seq<char>,
)
    requires
        call_ensures(Store::delete_auto_approve, (store, root), r),
        call_ensures(Store::auto_approve_for_root, (&*final(store), root), found),
        other != root@,
    ensures
        r == Ok::<bool, StoreError>(old(store)@.auto_approve.contains_key(root@)),
        found matches Ok(None),
        final(store)@.auto_approve.contains_key(other) <==> old(store)@.auto_approve.contains_key(other),
{
}

/// A processor and its credential are found under its id as they were put.
pub proof fn a_processor_is_found_as_it_was_put(
    store: &mut Store,
    config: &crate::broker::ProcessorConfig,
    now: i64,
    r: Result<(), StoreError>,
    id: &str,
    found: Result<Option<crate::broker::ProcessorConfig>, StoreError>,
)
    requires
        call_ensures(Store::put_processor, (store, config, now), r),
        call_ensures(Store::get_processor, (&*final(store), id), found),
        id@ == config@.processor_id,
    ensures
        found matches Ok(Some(c)) && c@ == config@,
        final(store)@.credentials == old(store)@.credentials,
{
}

/// A credential is found under its processor as it was put.
pub proof fn a_credential_is_found_as_it_was_put(
    store: &mut Store,
    id: &str,
    credential: &[u8],
    now: i64,
    r: Result<(), StoreError>,
    found: Result<Option<Vec<u8>>, StoreError>,
)
    requires
        call_ensures(Store::put_credential, (store, id, credential, now), r),
        call_ensures(Store::get_credential, (&*final(store), id), found),
    ensures
        found matches Ok(Some(bytes)) && bytes@ == credential@,
        final(store)@.processors == old(store)@.processors,
{
}

/// What stands under a key is what is given: the bytes of a contract, its terms, the root that a
/// task came from, an order, a result, and the bytes of what is staged.
pub proof fn what_stands_under_a_key_is_given(
    store: &Store,
    id: &str,
    contract: Result<Option<Vec<u8>>, StoreError>,
    terms: Option<Option<contract::Contract>>,
    origin: Result<Option<String>, StoreError>,
    order: Result<Option<crate::authority::IssuedWorkOrder>, StoreError>,
    result: Result<Option<(String, Vec<u8>)>, StoreError>,
    payload: Result<Option<Vec<u8>>, StoreError>,
)
    requires
        call_ensures(Store::get_contract, (store, id), contract),
        call_ensures(Store::contract_terms, (store, id), terms),
        call_ensures(Store::origin_root, (store, id), origin),
        call_ensures(Store::get_work_order, (store, id), order),
        call_ensures(Store::result_manifest, (store, id), result),
        call_ensures(Store::staged_payload, (store, id), payload),
    ensures
        ({
            let v = store@;
            let k = id@;
            &&& v.contracts.contains_key(k) ==> (contract matches Ok(Some(p)) && p@
                == v.contracts[k].payload)
            &&& !v.contracts.contains_key(k) ==> (contract matches Ok(None)) && terms is None
            &&& v.contracts.contains_key(k) && v.contracts[k].contract is Some ==> (terms matches Some(
                Some(c),
            ) && c@ == v.contracts[k].contract->0)
            &&& v.heads.contains_key(k) ==> (origin matches Ok(Some(root)) && root@
                == v.heads[k].origin_root)
            &&& v.work_orders.contains_key(k) ==> (order matches Ok(Some(o)) && o@
                == v.work_orders[k].issued)
            &&& v.results.contains_key(k) ==> (result matches Ok(Some((digest, manifest))) && digest@
                == v.results[k].bundle_digest && manifest@ == v.results[k].manifest)
            &&& v.stages.contains_key(k) ==> (payload matches Ok(Some(p)) && p@ == v.stages[k].payload)
            &&& !v.stages.contains_key(k) ==> (payload matches Ok(None))
        }),
{
}

/// Where a peer, an attempt and a call stand is what is on record of them.
pub proof fn where_things_stand_is_on_record(
    store: &Store,
    id: &str,
    status: Result<Option<crate::identity::PeerStatus>, StoreError>,
    peer: Result<Option<crate::identity::StoredPeer>, StoreError>,
    attempt: Result<Option<crate::authority::AttemptState>, StoreError>,
    call: Result<Option<crate::broker::SubAttemptState>, StoreError>,
)
    requires
        call_ensures(Store::peer_status_by_root, (store, id), status),
        call_ensures(Store::get_peer_by_root, (store, id), peer),
        call_ensures(Store::attempt_state, (store, id), attempt),
        call_ensures(Store::call_state, (store, id), call),
    ensures
        ({
            let v = store@;
            let k = id@;
            &&& v.peers.contains_key(k) ==> status == Ok::<_, StoreError>(Some(v.peers[k].status)) && (
            peer matches Ok(Some(p)) && p@ == v.peers[k].peer)
            &&& !v.peers.contains_key(k) ==> (status matches Ok(None)) && (peer matches Ok(None))
            &&& v.attempts.contains_key(k) ==> attempt == Ok::<_, StoreError>(
                Some(v.attempts[k].state),
            )
            &&& !v.attempts.contains_key(k) ==> (attempt matches Ok(None))
            &&& v.calls.contains_key(k) ==> call == Ok::<_, StoreError>(Some(v.calls[k].state))
            &&& !v.calls.contains_key(k) ==> (call matches Ok(None))
        }),
{
}

/// Automatic effects are safe unless the state is in recovery.
pub proof fn recovery_takes_the_authority_away(recovery: Recovery, enabled: bool, recovering: bool)
    requires
        call_ensures(Recovery::automatic_authority_enabled, (&recovery,), enabled),
        call_ensures(Recovery::is_recovery, (&recovery,), recovering),
    ensures
        enabled <==> !recovering,
        recovering <==> !(recovery is Normal) && !(recovery is RollbackDetectionUnavailable),
{
}

/// A command is told the task, and whether it was approved, and nothing else of it.
pub proof fn a_command_is_told_the_task(
    task_id: &str,
    auto: bool,
    r: ((String, String), (String, String)),
)
    requires
        call_ensures(reactor::hook_environment, (task_id, auto), r),
    ensures
        ({
            let ((name, value), (flag, on)) = r;
            &&& name@ == "AKSON_TASK"@
            &&& value@ == task_id@
            &&& flag@ == "AKSON_TASK_AUTO"@
            &&& auto ==> on@ == "1"@
            &&& !auto ==> on@ == "0"@
        }),
{
}

/// A contract asks for what it lists.
pub proof fn a_contract_asks_for_what_it_lists(c: contract::Contract, wanted: Capability, r: bool)
    requires
        call_ensures(contract::asks_for, (&c, wanted), r),
    ensures
        r <==> exists|i: int|
            0 <= i < c@.requested_capabilities.len() && #[trigger] c@.requested_capabilities[i] == wanted,
{
}

/// Only where the proof of the other side held is anything disclosed: the proof of this side over
/// its own transcript.
pub proof fn disclosure_follows_the_verdict(
    dial: Dial,
    verdict: Result<VerifiedPeer, String>,
    r: Result<Disclosure, IntroduceError>,
)
    requires
        call_ensures(introduce::hear_verdict, (&dial, verdict), r),
    ensures
        r is Ok <==> verdict is Ok,
        (r matches Ok(d) ==> d.transcript@ == dial@.my_transcript && d.peer == verdict->Ok_0),
        (r matches Err(e) ==> e@ == IntroduceErrorView::Verify(verdict->Err_0@)),
{
}

/// A response is read on for its first 65536 bytes.
pub proof fn a_response_is_read_so_far(so_far: usize, r: bool)
    requires
        call_ensures(crate::a2a_client::reads_on, (so_far,), r),
    ensures
        r <==> so_far < 65536,
{
}

/// What is acknowledged is what was received, by this endpoint, at that time.
pub proof fn an_acknowledgement_is_of_what_was_received(
    received: coord_egress::ReceivedDispatch,
    local_root: &str,
    at: i64,
    a: coord_egress::Acknowledgement,
)
    requires
        call_ensures(coord_egress::acknowledgement, (&received, local_root, at), a),
    ensures
        a@.coordination == "acknowledged"@,
        a@.protocol == "akson_byom_exchange_v1"@,
        a@.staged_digest == received@.staged_digest,
        a@.payload_sha256 == received@.payload_sha256,
        a@.recipient_root == local_root@,
        a@.received_at == at,
{
}

} // verus!
