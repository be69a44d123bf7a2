//! The state of one endpoint, and every change that can be made to it.
//!
//! Each change is one step from a consistent state to a consistent state. What a
//! step records of itself stands in the audit log.
pub mod attempts;
pub mod contracts;
pub mod imports;
pub mod inbox;
pub mod opening;
pub mod peers;
pub mod processors;
pub mod requests;
pub mod rows;
pub mod staging;

use crate::audit::{AuditError, AuditLog, AuditLogView};
use crate::audit;
use crate::store::rows::{
    AttemptRow, AttemptRowView, CallRow, CallRowView, ContractRow, ContractRowView, CredentialRow,
    CredentialRowView, DispatchRow, DispatchRowView, EgressState, HeadRow, HeadRowView, ImportRow,
    ImportRowView, InboxRow, InboxRowView, InputRow, InputRowView, KnockRow, KnockRowView,
    OutcomeRow, OutcomeRowView, OutputRow, OutputRowView, PeerKeyRow, PeerKeyRowView, PeerRow,
    PeerRowView, PolicyRow, PolicyRowView, ProcessorRow, ProcessorRowView, ReactionRow,
    ReactionRowView, ReceiptRow, ReceiptRowView, ResultRow, ResultRowView, SentRow, SentRowView,
    StageRow, StageRowView, TombstoneRow, TombstoneRowView, WorkOrderRow, WorkOrderRowView,
};
use crate::table::{dup_option, Pair, Record, Table, Triple};
use crate::table;
use crate::text::copy_option;
use crate::text;
use vstd::prelude::*;

verus! {

/// How far the wall clock may step back before time is uncertain, in seconds.
pub const CLOCK_TOLERANCE_SECS: i64 = 300;

/// How many rows the log of refused introductions can hold.
pub const KNOCK_LOG_CAP: u64 = 1024;

/// Why the store refuses.
#[derive(Debug, Clone, PartialEq, Eq)]
pub enum StoreError {
    /// The audit log does not verify.
    Audit(AuditError),
    /// The state, or what was to become part of it, is not sound.
    Corrupt(String),
    /// No attempt has this work order.
    UnknownAttempt(String),
    /// No processor call has this key.
    UnknownProcessorCall(String),
    /// The wall clock stepped back too far.
    TimeUncertain,
}

/// State that is kept outside the database and its backups.
#[derive(Debug, Clone, Copy, PartialEq, Eq, Structural)]
pub struct ExternalCheckpoint {
    /// The state generation last reserved before a write of authority.
    pub state_generation: u64,
    /// The last trusted wall clock, in seconds since 1970.
    pub trusted_time: i64,
    /// Whether the platform protects the checkpoint independently.
    pub rollback_detectable: bool,
}

/// Why a state is in recovery.
#[derive(Debug, Clone, Copy, PartialEq, Eq, Structural)]
pub enum RecoveryReason {
    StateGenerationMismatch { external: u64, database: u64 },
}

/// Whether automatic effects are safe.
#[derive(Debug, Clone, Copy, PartialEq, Eq, Structural)]
pub enum Recovery {
    /// The checkpoint agrees with the state.
    Normal,
    /// There is no independent checkpoint.
    RollbackDetectionUnavailable,
    /// The state disagrees with the checkpoint.
    Recovery(RecoveryReason),
}

impl Recovery {
    /// Whether automatic effects may go on: not in recovery.
    pub fn automatic_authority_enabled(&self) -> (r: bool)
        ensures
            r == !(self is Recovery),
    {
        match self {
            Recovery::Recovery(_) => false,
            _ => true,
        }
    }

    /// Whether the state is in recovery.
    pub fn is_recovery(&self) -> (r: bool)
        ensures
            r == (self is Recovery),
    {
        match self {
            Recovery::Recovery(_) => true,
            _ => false,
        }
    }
}

/// What the wall clock is worth against the trusted floor.
#[derive(Debug, Clone, Copy, PartialEq, Eq, Structural)]
pub enum TimeStatus {
    /// The clock is believed, and no time before the floor is.
    Trusted { floor: i64 },
    /// Time stepped back past the tolerance.
    Uncertain { floor: i64, observed: i64 },
}

/// What an event of the coordination feed tells.
#[derive(Debug, Clone, Copy, PartialEq, Eq, Structural)]
pub enum CoordEventKind {
    Staged,
    ConsentRecorded,
    Dispatched,
    EgressRecorded,
}

/// What an event tells of the content that was staged.
#[derive(Debug, Clone, PartialEq, Eq)]
pub struct StagedContent {
    pub payload_sha256: String,
    pub task_type: String,
    pub performer: String,
    pub byte_length: usize,
}

/// The view of [`StagedContent`].
#[verifier::ext_equal]
pub struct StagedContentView {
    pub payload_sha256: Seq<char>,
    pub task_type: Seq<char>,
    pub performer: Seq<char>,
    pub byte_length: usize,
}

impl View for StagedContent {
    type V = StagedContentView;

    open spec fn view(&self) -> StagedContentView {
        StagedContentView {
            payload_sha256: self.payload_sha256@,
            task_type: self.task_type@,
            performer: self.performer@,
            byte_length: self.byte_length,
        }
    }
}

impl Record for StagedContent {
    fn dup(&self) -> (r: Self) {
        StagedContent {
            payload_sha256: self.payload_sha256.clone(),
            task_type: self.task_type.clone(),
            performer: self.performer.clone(),
            byte_length: self.byte_length,
        }
    }
}

/// One event of the coordination feed: what happened to which staged digest and,
/// where there is one, the content, the root of the recipient, the consent receipt
/// and how often it can be used, the execution key, the dispatch receipt, the state of
/// carriage and a remark.
#[derive(Debug, Clone, PartialEq, Eq)]
pub struct CoordEvent {
    pub seq: i64,
    pub kind: CoordEventKind,
    pub stage_ref: String,
    pub at: i64,
    pub staged_digest: String,
    pub content: Option<StagedContent>,
    pub recipient_root: Option<String>,
    pub consent_receipt: Option<String>,
    pub max_uses: Option<u32>,
    pub execution_key: Option<String>,
    pub dispatch_receipt: Option<String>,
    pub egress_state: Option<EgressState>,
    pub remark: Option<String>,
}

/// The view of [`CoordEvent`].
#[verifier::ext_equal]
pub struct CoordEventView {
    pub seq: i64,
    pub kind: CoordEventKind,
    pub stage_ref: Seq<char>,
    pub at: i64,
    pub staged_digest: Seq<char>,
    pub content: Option<StagedContentView>,
    pub recipient_root: Option<Seq<char>>,
    pub consent_receipt: Option<Seq<char>>,
    pub max_uses: Option<u32>,
    pub execution_key: Option<Seq<char>>,
    pub dispatch_receipt: Option<Seq<char>>,
    pub egress_state: Option<EgressState>,
    pub remark: Option<Seq<char>>,
}

impl View for CoordEvent {
    type V = CoordEventView;

    open spec fn view(&self) -> CoordEventView {
        CoordEventView {
            seq: self.seq,
            kind: self.kind,
            stage_ref: self.stage_ref@,
            at: self.at,
            staged_digest: self.staged_digest@,
            content: match self.content {
                Some(c) => Some(c@),
                None => None,
            },
            recipient_root: text::view_option(self.recipient_root),
            consent_receipt: text::view_option(self.consent_receipt),
            max_uses: self.max_uses,
            execution_key: text::view_option(self.execution_key),
            dispatch_receipt: text::view_option(self.dispatch_receipt),
            egress_state: self.egress_state,
            remark: text::view_option(self.remark),
        }
    }
}

impl Record for CoordEvent {
    fn dup(&self) -> (r: Self) {
        let r = CoordEvent {
            seq: self.seq,
            kind: self.kind,
            stage_ref: self.stage_ref.clone(),
            at: self.at,
            staged_digest: self.staged_digest.clone(),
            content: dup_option(&self.content),
            recipient_root: copy_option(&self.recipient_root),
            consent_receipt: copy_option(&self.consent_receipt),
            max_uses: self.max_uses,
            execution_key: copy_option(&self.execution_key),
            dispatch_receipt: copy_option(&self.dispatch_receipt),
            egress_state: self.egress_state,
            remark: copy_option(&self.remark),
        };
        r
    }
}

/// The state of one endpoint.
pub struct Store {
    pub(crate) commitment_key: [u8; 32],
    pub(crate) recovery: Recovery,
    pub(crate) state_generation: u64,
    pub(crate) trusted_time: i64,
    pub(crate) audit: AuditLog,
    pub(crate) peers: Table<String, PeerRow>,
    pub(crate) peer_keys: Table<Pair, PeerKeyRow>,
    pub(crate) auto_approve: Table<String, PolicyRow>,
    pub(crate) imports: Table<String, ImportRow>,
    pub(crate) knocks: Table<Triple, KnockRow>,
    pub(crate) inbox: Table<Pair, InboxRow>,
    pub(crate) tombstones: Table<Pair, TombstoneRow>,
    pub(crate) heads: Table<String, HeadRow>,
    pub(crate) contracts: Table<String, ContractRow>,
    pub(crate) reactions: Table<String, ReactionRow>,
    pub(crate) attempts: Table<String, AttemptRow>,
    pub(crate) work_orders: Table<String, WorkOrderRow>,
    pub(crate) results: Table<String, ResultRow>,
    pub(crate) sent_requests: Table<String, SentRow>,
    pub(crate) outcomes: Table<String, OutcomeRow>,
    pub(crate) processors: Table<String, ProcessorRow>,
    pub(crate) credentials: Table<String, CredentialRow>,
    pub(crate) task_inputs: Table<Pair, InputRow>,
    pub(crate) task_outputs: Table<Pair, OutputRow>,
    pub(crate) calls: Table<String, CallRow>,
    pub(crate) stages: Table<String, StageRow>,
    pub(crate) receipts: Table<String, ReceiptRow>,
    pub(crate) dispatches: Table<String, DispatchRow>,
    pub(crate) events: Vec<CoordEvent>,
}

/// The view of [`Store`].
#[verifier::ext_equal]
pub struct StoreView {
    pub commitment_key: Seq<u8>,
    pub recovery: Recovery,
    pub state_generation: u64,
    pub trusted_time: i64,
    pub audit: AuditLogView,
    pub peers: Map<Seq<char>, PeerRowView>,
    pub peer_keys: Map<(Seq<char>, Seq<char>), PeerKeyRowView>,
    pub auto_approve: Map<Seq<char>, PolicyRowView>,
    pub imports: Map<Seq<char>, ImportRowView>,
    pub knocks: Map<(Seq<char>, Seq<char>, Seq<char>), KnockRowView>,
    pub inbox: Map<(Seq<char>, Seq<char>), InboxRowView>,
    pub tombstones: Map<(Seq<char>, Seq<char>), TombstoneRowView>,
    pub heads: Map<Seq<char>, HeadRowView>,
    pub contracts: Map<Seq<char>, ContractRowView>,
    pub reactions: Map<Seq<char>, ReactionRowView>,
    pub attempts: Map<Seq<char>, AttemptRowView>,
    pub work_orders: Map<Seq<char>, WorkOrderRowView>,
    pub results: Map<Seq<char>, ResultRowView>,
    pub sent_requests: Map<Seq<char>, SentRowView>,
    pub outcomes: Map<Seq<char>, OutcomeRowView>,
    pub processors: Map<Seq<char>, ProcessorRowView>,
    pub credentials: Map<Seq<char>, CredentialRowView>,
    pub task_inputs: Map<(Seq<char>, Seq<char>), InputRowView>,
    pub task_outputs: Map<(Seq<char>, Seq<char>), OutputRowView>,
    pub calls: Map<Seq<char>, CallRowView>,
    pub stages: Map<Seq<char>, StageRowView>,
    pub receipts: Map<Seq<char>, ReceiptRowView>,
    pub dispatches: Map<Seq<char>, DispatchRowView>,
    pub events: Seq<CoordEventView>,
}

impl StoreView {
    /// The state with one audit record more.
    pub open spec fn audited(self, ts: i64, event: Seq<char>, detail: Seq<char>) -> StoreView {
        StoreView { audit: audit::appended(self.audit, ts, event, detail), ..self }
    }

    /// What holds of every state that the endpoint can come to:
    /// a live relationship has a label, a removed one has none, and no two share
    /// one; a nonce is used once; a request is recorded or a tombstone, not both; a
    /// result stands only under a succeeded attempt; a consent receipt is for one
    /// use, of something staged; a dispatch has spent the receipt for the digest that
    /// it dispatches, and no two dispatches the same one; the events are numbered
    /// upwards, and tell of each dispatch once, under its receipt, and of no other.
    pub open spec fn consistent(self) -> bool {
        &&& audit::in_order(self.audit.records)
        &&& labels_follow_life(self.imports)
        &&& labels_are_unique(self.imports)
        &&& nonces_are_unique(self.attempts)
        &&& seen_once(self.inbox, self.tombstones)
        &&& results_have_succeeded(self.results, self.attempts)
        &&& receipts_are_sound(self.receipts, self.stages)
        &&& dispatches_are_sound(self.dispatches, self.receipts)
        &&& receipts_are_spent_once(self.dispatches)
        &&& numbered_upwards(self.events)
        &&& dispatches_are_told(self.dispatches, self.events)
        &&& events_tell_truly(self.dispatches, self.events)
        &&& receipts_are_told_once(self.events)
    }
}

/// A relationship has a label exactly while it lives.
pub open spec fn labels_follow_life(imports: Map<Seq<char>, ImportRowView>) -> bool {
    forall|root: Seq<char>| #[trigger]
        imports.contains_key(root) ==> (imports[root].tombstoned_at is None
            <==> imports[root].label is Some)
}

/// No two relationships share a label.
pub open spec fn labels_are_unique(imports: Map<Seq<char>, ImportRowView>) -> bool {
    forall|a: Seq<char>, b: Seq<char>|
        imports.contains_key(a) && imports.contains_key(b) && (#[trigger] imports[a]).label is Some
            && imports[a].label == (#[trigger] imports[b]).label ==> a == b
}

/// No two attempts share a nonce.
pub open spec fn nonces_are_unique(attempts: Map<Seq<char>, AttemptRowView>) -> bool {
    forall|a: Seq<char>, b: Seq<char>|
        attempts.contains_key(a) && attempts.contains_key(b) && (#[trigger] attempts[a]).nonce == (
        #[trigger] attempts[b]).nonce ==> a == b
}

/// A request is recorded or a tombstone, not both.
pub open spec fn seen_once(
    inbox: Map<(Seq<char>, Seq<char>), InboxRowView>,
    tombstones: Map<(Seq<char>, Seq<char>), TombstoneRowView>,
) -> bool {
    forall|k: (Seq<char>, Seq<char>)|
        !(#[trigger] inbox.contains_key(k) && tombstones.contains_key(k))
}

/// A result stands only under an attempt that succeeded.
pub open spec fn results_have_succeeded(
    results: Map<Seq<char>, ResultRowView>,
    attempts: Map<Seq<char>, AttemptRowView>,
) -> bool {
    forall|w: Seq<char>| #[trigger]
        results.contains_key(w) ==> attempts.contains_key(w) && attempts[w].state is Succeeded
}

/// A consent receipt is for one use, of something staged.
pub open spec fn receipts_are_sound(
    receipts: Map<Seq<char>, ReceiptRowView>,
    stages: Map<Seq<char>, StageRowView>,
) -> bool {
    forall|r: Seq<char>| #[trigger]
        receipts.contains_key(r) ==> receipts[r].max_uses == 1 && receipts[r].uses <= 1
            && stages.contains_key(receipts[r].stage_ref)
            && stages[receipts[r].stage_ref].staged_digest == receipts[r].staged_digest
}

/// A dispatch has spent the receipt for the digest that it dispatches.
pub open spec fn dispatches_are_sound(
    dispatches: Map<Seq<char>, DispatchRowView>,
    receipts: Map<Seq<char>, ReceiptRowView>,
) -> bool {
    forall|k: Seq<char>| #[trigger]
        dispatches.contains_key(k) ==> receipts.contains_key(dispatches[k].receipt_id)
            && receipts[dispatches[k].receipt_id].uses == 1
            && receipts[dispatches[k].receipt_id].stage_ref == dispatches[k].stage_ref
            && receipts[dispatches[k].receipt_id].staged_digest == dispatches[k].staged_digest
}

/// No two dispatches have spent the same receipt.
pub open spec fn receipts_are_spent_once(dispatches: Map<Seq<char>, DispatchRowView>) -> bool {
    forall|a: Seq<char>, b: Seq<char>|
        dispatches.contains_key(a) && dispatches.contains_key(b) && (
        #[trigger] dispatches[a]).receipt_id == (#[trigger] dispatches[b]).receipt_id ==> a == b
}

/// The events are numbered upwards, from one on.
pub open spec fn numbered_upwards(events: Seq<CoordEventView>) -> bool {
    &&& forall|i: int, j: int|
        0 <= i < j < events.len() ==> (#[trigger] events[i]).seq < (#[trigger] events[j]).seq
    &&& forall|i: int| 0 <= i < events.len() ==> (#[trigger] events[i]).seq > 0
}

/// The event tells that the dispatch under a key was committed: of what, under which
/// receipt, and when.
pub open spec fn tells_of_dispatch(e: CoordEventView, key: Seq<char>, row: DispatchRowView) -> bool {
    &&& e.kind is Dispatched
    &&& e.execution_key == Some(key)
    &&& e.consent_receipt == Some(row.receipt_id)
    &&& e.dispatch_receipt == Some(row.dispatch_receipt)
    &&& e.stage_ref == row.stage_ref
    &&& e.staged_digest == row.staged_digest
    &&& e.at == row.dispatched_at
}

/// Some event tells of a dispatch.
pub open spec fn is_told(events: Seq<CoordEventView>, key: Seq<char>, row: DispatchRowView) -> bool {
    exists|i: int| 0 <= i < events.len() && tells_of_dispatch(#[trigger] events[i], key, row)
}

/// Every dispatch is told of.
pub open spec fn dispatches_are_told(
    dispatches: Map<Seq<char>, DispatchRowView>,
    events: Seq<CoordEventView>,
) -> bool {
    forall|k: Seq<char>| #[trigger]
        dispatches.contains_key(k) ==> is_told(events, k, dispatches[k])
}

/// Where an event says that something was dispatched, it was.
pub open spec fn tells_truly(e: CoordEventView, dispatches: Map<Seq<char>, DispatchRowView>) -> bool {
    e.kind is Dispatched ==> match e.execution_key {
        Some(k) => dispatches.contains_key(k) && tells_of_dispatch(e, k, dispatches[k]),
        None => false,
    }
}

/// No event tells of a dispatch that is not there.
pub open spec fn events_tell_truly(
    dispatches: Map<Seq<char>, DispatchRowView>,
    events: Seq<CoordEventView>,
) -> bool {
    forall|i: int| 0 <= i < events.len() ==> tells_truly(#[trigger] events[i], dispatches)
}

/// No two events tell of a dispatch under the same receipt.
pub open spec fn receipts_are_told_once(events: Seq<CoordEventView>) -> bool {
    forall|i: int, j: int|
        0 <= i < j < events.len() && (#[trigger] events[i]).kind is Dispatched && (
        #[trigger] events[j]).kind is Dispatched ==> events[i].consent_receipt
            != events[j].consent_receipt
}

impl Store {
    pub open(crate) spec fn view(&self) -> StoreView {
        StoreView {
            commitment_key: self.commitment_key@,
            recovery: self.recovery,
            state_generation: self.state_generation,
            trusted_time: self.trusted_time,
            audit: self.audit@,
            peers: self.peers@,
            peer_keys: self.peer_keys@,
            auto_approve: self.auto_approve@,
            imports: self.imports@,
            knocks: self.knocks@,
            inbox: self.inbox@,
            tombstones: self.tombstones@,
            heads: self.heads@,
            contracts: self.contracts@,
            reactions: self.reactions@,
            attempts: self.attempts@,
            work_orders: self.work_orders@,
            results: self.results@,
            sent_requests: self.sent_requests@,
            outcomes: self.outcomes@,
            processors: self.processors@,
            credentials: self.credentials@,
            task_inputs: self.task_inputs@,
            task_outputs: self.task_outputs@,
            calls: self.calls@,
            stages: self.stages@,
            receipts: self.receipts@,
            dispatches: self.dispatches@,
            events: table::seen(self.events@),
        }
    }

    /// The tables have distinct keys.
    pub open(crate) spec fn tables_wf(&self) -> bool {
        &&& self.peers.wf()
        &&& self.peer_keys.wf()
        &&& self.auto_approve.wf()
        &&& self.imports.wf()
        &&& self.knocks.wf()
        &&& self.inbox.wf()
        &&& self.tombstones.wf()
        &&& self.heads.wf()
        &&& self.contracts.wf()
        &&& self.reactions.wf()
        &&& self.attempts.wf()
        &&& self.work_orders.wf()
        &&& self.results.wf()
        &&& self.sent_requests.wf()
        &&& self.outcomes.wf()
        &&& self.processors.wf()
        &&& self.credentials.wf()
        &&& self.task_inputs.wf()
        &&& self.task_outputs.wf()
        &&& self.calls.wf()
        &&& self.stages.wf()
        &&& self.receipts.wf()
        &&& self.dispatches.wf()
    }

    /// The tables have distinct keys, and the state is consistent.
    pub open(crate) spec fn wf(&self) -> bool {
        &&& self.tables_wf()
        &&& self@.consistent()
    }

    /// The recovery verdict that was found when the state was opened.
    pub fn recovery(&self) -> (r: &Recovery)
        ensures
            *r == self@.recovery,
    {
        &self.recovery
    }

    /// The state generation.
    pub fn state_generation(&self) -> (r: Result<u64, StoreError>)
        ensures
            r == Ok::<u64, StoreError>(self@.state_generation),
    {
        Ok(self.state_generation)
    }

    /// Commits a new state generation. The caller has reserved it in the external
    /// checkpoint before.
    pub fn set_state_generation(&mut self, generation: u64) -> (r: Result<(), StoreError>)
        requires
            old(self).wf(),
        ensures
            r is Ok,
            final(self).wf(),
            final(self)@ == (StoreView { state_generation: generation, ..old(self)@ }),
    {
        self.state_generation = generation;
        Ok(())
    }

    /// The trusted time below which no clock is believed.
    pub fn trusted_time_floor(&self) -> (r: Result<i64, StoreError>)
        ensures
            r == Ok::<i64, StoreError>(self@.trusted_time),
    {
        Ok(self.trusted_time)
    }

    /// Observes the wall clock. Where it stepped back by more than
    /// `tolerance_secs`, time is uncertain and nothing changes; otherwise the
    /// floor rises to it.
    pub fn observe_time(&mut self, now: i64, tolerance_secs: i64) -> (r: Result<
        TimeStatus,
        StoreError,
    >)
        requires
            old(self).wf(),
        ensures
            final(self).wf(),
            r == Ok::<TimeStatus, StoreError>(
                observed(old(self)@.trusted_time, now, tolerance_secs),
            ),
            final(self)@ == (StoreView {
                trusted_time: floor_after(old(self)@.trusted_time, now, tolerance_secs),
                ..old(self)@
            }),
    {
        let floor: i64 = self.trusted_time;
        if (now as i128) < floor as i128 - tolerance_secs as i128 {
            return Ok(TimeStatus::Uncertain { floor, observed: now });
        }
        if now > floor {
            self.trusted_time = now;
            Ok(TimeStatus::Trusted { floor: now })
        } else {
            Ok(TimeStatus::Trusted { floor })
        }
    }

    /// The time for a decision about authority: never below the last trusted time.
    /// Where the clock stepped back past the tolerance, it refuses.
    pub fn trusted_now(&mut self, wall_clock: i64) -> (r: Result<i64, StoreError>)
        requires
            old(self).wf(),
        ensures
            final(self).wf(),
            r == now_or_refusal(old(self)@.trusted_time, wall_clock),
            final(self)@ == (StoreView {
                trusted_time: floor_after(
                    old(self)@.trusted_time,
                    wall_clock,
                    CLOCK_TOLERANCE_SECS,
                ),
                ..old(self)@
            }),
    {
        match self.observe_time(wall_clock, CLOCK_TOLERANCE_SECS) {
            Ok(TimeStatus::Trusted { floor }) => Ok(floor),
            Ok(TimeStatus::Uncertain { .. }) => Err(StoreError::TimeUncertain),
            Err(e) => Err(e),
        }
    }

    /// Appends a record to the audit log and gives its number.
    pub fn audit(&mut self, ts: i64, event: &str, detail: &str) -> (r: Result<i64, StoreError>)
        requires
            old(self).wf(),
        ensures
            final(self).wf(),
            final(self)@ == old(self)@.audited(ts, event@, detail@),
            r == Ok::<i64, StoreError>(audit::next_seq(old(self)@.audit.records)),
            audit::intact(old(self)@.audit) ==> audit::intact(final(self)@.audit),
    {
        let seq = self.audit.append(ts, event, detail);
        Ok(seq)
    }

    /// Verifies the audit log and gives the number of its records.
    pub fn verify_audit(&self) -> (r: Result<u64, StoreError>)
        ensures
            match audit::broken_at(self@.audit) {
                None => r == Ok::<u64, StoreError>(self@.audit.records.len() as u64)
                    && self@.audit.records.len() <= u64::MAX && audit::intact(self@.audit),
                Some(seq) => r == Err::<u64, StoreError>(
                    StoreError::Audit(AuditError::Broken { seq }),
                ),
            },
    {
        match self.audit.verify_chain() {
            Ok(n) => Ok(n),
            Err(e) => Err(StoreError::Audit(e)),
        }
    }
}

/// What an observation of the wall clock gives.
pub open spec fn observed(floor: i64, now: i64, tolerance: i64) -> TimeStatus {
    if now < floor - tolerance {
        TimeStatus::Uncertain { floor, observed: now }
    } else if now > floor {
        TimeStatus::Trusted { floor: now }
    } else {
        TimeStatus::Trusted { floor }
    }
}

/// The floor after an observation of the wall clock.
pub open spec fn floor_after(floor: i64, now: i64, tolerance: i64) -> i64 {
    if now >= floor - tolerance && now > floor {
        now
    } else {
        floor
    }
}

/// The time for a decision about authority, or the refusal to give one.
pub open spec fn now_or_refusal(floor: i64, wall_clock: i64) -> Result<i64, StoreError> {
    match observed(floor, wall_clock, CLOCK_TOLERANCE_SECS) {
        TimeStatus::Trusted { floor } => Ok(floor),
        TimeStatus::Uncertain { .. } => Err(StoreError::TimeUncertain),
    }
}

/// The trusted time never goes back, whatever the clock says: a decision is never
/// taken at a time before one that was trusted already, so what has expired stays
/// expired.
pub proof fn trusted_time_is_monotonic(floor: i64, wall_clock: i64, tolerance: i64)
    ensures
        floor_after(floor, wall_clock, tolerance) >= floor,
        match now_or_refusal(floor, wall_clock) {
            Ok(now) => now >= floor && now >= wall_clock && now == floor_after(
                floor,
                wall_clock,
                CLOCK_TOLERANCE_SECS,
            ),
            Err(_) => wall_clock < floor - CLOCK_TOLERANCE_SECS,
        },
{
}

} // verus!
