//! The state: which clock is believed, what opening makes of a state that was written out, what
//! the log of what happened shows, and whose certificate is taken.
use crate::audit::{AuditLogView, AuditRecordView};
use crate::audit;
use crate::clock;
use crate::identity::{FingerprintKind, FingerprintView};
use crate::limits;
use crate::meta;
use crate::numerals;
use crate::outside;
use crate::pairing;
use crate::store::opening::Snapshot;
use crate::store::opening;
use crate::store::{ExternalCheckpoint, Recovery, RecoveryReason, StoreView};
use crate::tls;
use vstd::prelude::*;

verus! {

/// A clock is believed exactly where it is not more than 300 seconds behind the latest time that
/// was trusted; and the time of a decision is the later of the two. What is trusted never falls.
pub proof fn a_clock_is_believed_within_its_tolerance(v: StoreView, wall: i64)
    ensures
        clock::time_now(v, wall) is Ok <==> wall >= v.trusted_time - 300,
        (clock::time_now(v, wall) matches Ok(now) ==> now >= wall && now >= v.trusted_time && (now
            == wall || now == v.trusted_time) && clock::timed(v, wall).trusted_time == now),
        (clock::time_now(v, wall) matches Err(p) ==> p.status == 503 && p.type_
            == "urn:akson:error:"@ + "time-uncertain"@ && clock::timed(v, wall) == v),
        clock::timed(v, wall) == (StoreView {
            trusted_time: clock::timed(v, wall).trusted_time,
            ..v
        }),
{
}

/// A state that was written out is in recovery exactly where a protected checkpoint says another
/// generation, and then both are named; where the checkpoint is not protected, that is said.
pub proof fn a_checkpoint_decides_on_recovery(generation: u64, checkpoint: ExternalCheckpoint)
    ensures
        ({
            let r = opening::recovery_verdict(generation, checkpoint);
            &&& r is RollbackDetectionUnavailable <==> !checkpoint.rollback_detectable
            &&& r is Normal <==> checkpoint.rollback_detectable && generation
                == checkpoint.state_generation
            &&& r is Recovery <==> checkpoint.rollback_detectable && generation
                != checkpoint.state_generation
            &&& r is Recovery ==> r == Recovery::Recovery(
                RecoveryReason::StateGenerationMismatch {
                    external: checkpoint.state_generation,
                    database: generation,
                },
            )
        }),
{
}

/// A state begins empty, with its key, and at the generation and the time of the checkpoint.
pub proof fn a_state_begins_empty(key: Seq<u8>, checkpoint: ExternalCheckpoint)
    ensures
        ({
            let v = opening::first_state(key, checkpoint);
            &&& v.commitment_key == key
            &&& v.state_generation == checkpoint.state_generation
            &&& v.trusted_time == checkpoint.trusted_time
            &&& v.audit.records.len() == 0
            &&& v.audit.tip.count == 0
            &&& v.peers.dom().is_empty() && v.peer_keys.dom().is_empty() && v.auto_approve.dom().is_empty()
            &&& v.imports.dom().is_empty() && v.knocks.dom().is_empty()
            &&& v.inbox.dom().is_empty() && v.tombstones.dom().is_empty()
            &&& v.heads.dom().is_empty() && v.contracts.dom().is_empty() && v.reactions.dom().is_empty()
            &&& v.attempts.dom().is_empty() && v.work_orders.dom().is_empty() && v.results.dom().is_empty()
            &&& v.sent_requests.dom().is_empty() && v.outcomes.dom().is_empty()
            &&& v.processors.dom().is_empty() && v.credentials.dom().is_empty()
            &&& v.task_inputs.dom().is_empty() && v.task_outputs.dom().is_empty()
            &&& v.calls.dom().is_empty() && v.stages.dom().is_empty() && v.receipts.dom().is_empty()
            &&& v.dispatches.dom().is_empty() && v.events.len() == 0
            &&& !(v.recovery is Recovery)
        }),
{
}

/// The floor of time of an opened state is the one that was written out, or that of a protected
/// checkpoint where it is later; its generation and its key are those that were written out.
pub proof fn opening_takes_the_later_time(snapshot: Snapshot, checkpoint: ExternalCheckpoint)
    ensures
        ({
            let v = snapshot.state(checkpoint);
            &&& v.trusted_time == snapshot.trusted_time || (checkpoint.rollback_detectable
                && v.trusted_time == checkpoint.trusted_time)
            &&& v.trusted_time >= snapshot.trusted_time
            &&& checkpoint.rollback_detectable ==> v.trusted_time >= checkpoint.trusted_time
            &&& v.state_generation == snapshot.state_generation
            &&& v.commitment_key == snapshot.commitment_key@
        }),
{
}

/// A record of the log is linked to the one before it, numbered after it, and says when what
/// happened; nothing that was recorded before changes.
pub proof fn a_record_is_linked_to_the_one_before(
    log: AuditLogView,
    ts: i64,
    event: Seq<char>,
    detail: Seq<char>,
)
    requires
        log.records.len() > 0,
        log.records.last().hash.len() == 32,
        log.records.last().seq < i64::MAX,
        log.tip.count < u64::MAX,
    ensures
        ({
            let after = audit::appended(log, ts, event, detail);
            let r = after.records.last();
            &&& after.records == log.records.push(r)
            &&& r.prev_hash == log.records.last().hash
            &&& r.seq == log.records.last().seq + 1
            &&& r.ts == ts
            &&& r.event == event
            &&& r.detail == detail
            &&& r.hash == audit::record_hash_of(r.prev_hash, r.seq as int, ts as int, event, detail)
            &&& after.tip.hash == r.hash
            &&& after.tip.count == log.tip.count + 1
        }),
{
}

/// The first record is linked to thirty-two zero bytes and has the number one.
pub proof fn the_first_record_is_linked_to_nothing(ts: i64, event: Seq<char>, detail: Seq<char>)
    ensures
        ({
            let after = audit::appended(audit::empty_log(), ts, event, detail);
            &&& after.records.len() == 1
            &&& after.records[0].seq == 1
            &&& after.records[0].prev_hash == seq![0u8; 32]
            &&& after.records[0].event == event
            &&& after.records[0].detail == detail
            &&& after.records[0].ts == ts
            &&& after.tip.count == 1
        }),
{
    assert(audit::GENESIS@ =~= seq![0u8; 32]);
}

proof fn lemma_links(log: Seq<AuditRecordView>, prev: Seq<u8>, i: int)
    requires
        audit::first_break(log, prev) is None,
        0 <= i < log.len(),
    ensures
        log[i].prev_hash == (if i == 0 {
            prev
        } else {
            log[i - 1].hash
        }),
        log[i].hash == audit::record_hash_of(
            log[i].prev_hash,
            log[i].seq as int,
            log[i].ts as int,
            log[i].event,
            log[i].detail,
        ),
    decreases log.len(),
{
    let rest = log.drop_first();
    let expected = audit::record_hash_of(
        prev,
        log[0].seq as int,
        log[0].ts as int,
        log[0].event,
        log[0].detail,
    );
    if i > 0 {
        lemma_links(rest, expected, i - 1);
        assert(rest[i - 1] == log[i]);
        if i > 1 {
            assert(rest[i - 2] == log[i - 1]);
        }
    }
}

/// In a log that verifies, every record is linked to the one before it and carries the hash of
/// what it says; and the records are as many as were ever appended.
pub proof fn a_log_that_verifies_is_linked(log: AuditLogView, i: int)
    requires
        audit::broken_at(log) is None,
        0 <= i < log.records.len(),
    ensures
        log.records[i].hash == audit::record_hash_of(
            log.records[i].prev_hash,
            log.records[i].seq as int,
            log.records[i].ts as int,
            log.records[i].event,
            log.records[i].detail,
        ),
        i > 0 ==> log.records[i].prev_hash == log.records[i - 1].hash,
        i == 0 ==> log.records[i].prev_hash == seq![0u8; 32],
        log.records.len() == log.tip.count,
        log.records.last().hash == log.tip.hash,
{
    lemma_links(log.records, audit::genesis(), i);
    assert(audit::GENESIS@ =~= seq![0u8; 32]);
}

/// A number in what a record's hash is taken of is eight bytes, the highest first.
pub proof fn numbers_in_a_record_are_eight_bytes(n: int)
    requires
        0 <= n < 0x1_0000_0000_0000_0000,
    ensures
        audit::be_bytes(n).len() == 8,
        audit::be_bytes(n)[7] as int == n % 256,
        audit::be_bytes(n)[6] as int == n / 0x100 % 256,
        audit::be_bytes(n)[0] as int == n / 0x100_0000_0000_0000,
{
}

/// A certificate of a pinned peer is taken exactly where its fingerprint is the pinned one and
/// the time lies between its two instants, both included.
pub proof fn a_certificate_is_pinned_and_current(
    expected: FingerprintView,
    der: Seq<u8>,
    not_before: i64,
    not_after: i64,
    now: i64,
)
    ensures
        ({
            let verdict = tls::pinned_verdict(expected, der, Some((not_before, not_after)), now);
            let pinned = expected.kind == FingerprintKind::CertSha256 && expected.value
                == numerals::hex_of(outside::sha256_of(der));
            &&& verdict is Accepted <==> pinned && not_before <= now <= not_after
            &&& verdict is NotPinned <==> !pinned
            &&& verdict is NotValidYet <==> pinned && now < not_before
            &&& verdict is Expired <==> pinned && now > not_after && now >= not_before
            &&& tls::time_verdict(Some((not_before, not_after)), now) is Accepted <==> not_before
                <= now <= not_after
            &&& tls::time_verdict(None, now) is BadEncoding
        }),
{
}

/// Eight bytes are read as the number that they keep, the highest first; bytes of another length
/// are none.
pub proof fn kept_numbers_are_eight_bytes(bytes: Seq<u8>, b: u8)
    ensures
        meta::meta_number(Some(bytes)) is Some <==> bytes.len() == 8,
        bytes.len() == 8 ==> meta::meta_number(Some(bytes)) == Some(meta::be_value(bytes)),
        meta::be_value(bytes.push(b)) == 256 * meta::be_value(bytes) + b,
        meta::be_value(Seq::<u8>::empty()) == 0,
        meta::meta_number(None) is None,
{
    assert(bytes.push(b).drop_last() =~= bytes);
}

/// The steps that a schema still lacks are those that lead beyond its version, and no others.
pub proof fn a_schema_lacks_what_leads_beyond(version: i64, steps: Seq<i64>, step: i64)
    ensures
        meta::lacking(version, steps).contains(step) <==> steps.contains(step) && step > version,
{
    let pred = |s: i64| version < s;
    let kept = meta::lacking(version, steps);
    assert(kept == steps.filter(pred));
    broadcast use vstd::seq_lib::group_filter_ensures;

    if steps.contains(step) && step > version {
        let i = choose|i: int| 0 <= i < steps.len() && steps[i] == step;
        assert(pred(steps[i]));
    }
    if kept.contains(step) {
        let i = choose|i: int| 0 <= i < kept.len() && kept[i] == step;
        assert(pred(kept[i]));
        steps.lemma_filter_contains_rev(pred, step);
    }
}

/// A state is kept where its journal is written ahead, or in memory, and nowhere else.
pub proof fn these_journals_last(mode: Seq<char>)
    ensures
        meta::is_lasting_journal(mode) <==> mode == "wal"@ || mode == "memory"@,
{
}

/// An invitation leads to the address at which pairing is served; without one there is none.
pub proof fn an_invitation_leads_to_pairing(addr: Seq<char>)
    ensures
        pairing::invitation_target(Some(addr)) == Ok::<Seq<char>, crate::control::ProblemView>(
            "https://"@ + addr + "/bootstrap"@,
        ),
        (pairing::invitation_target(None) matches Err(p) && p.status == 409 && p.type_
            == "urn:akson:error:"@ + "pairing-not-enabled"@),
        pairing::INVITATION_SECS == 900,
        pairing::INVITATION_ATTEMPTS == 5,
{
}

/// What is bounded of a connection before its peer is known: how many there are, and how long a
/// handshake, a head and a body may take.
pub proof fn connections_are_bounded()
    ensures
        limits::MAX_CONCURRENT_CONNECTIONS == 64,
        limits::HANDSHAKE_TIMEOUT_SECS == 10,
        limits::HEADER_READ_TIMEOUT_SECS == 15,
        limits::BODY_READ_TIMEOUT_SECS == 30,
        crate::introduce::INTRODUCTION_SECS == 20,
        crate::introduce::NOT_BEFORE@ == "2020-01-01T00:00:00Z"@,
        crate::introduce::NOT_AFTER@ == "2035-01-01T00:00:00Z"@,
{
}

} // verus!
