//! Staged disclosures: what is staged, who consented to it, what was dispatched and
//! where its carriage got to, and the feed of events that tells of it.
use crate::store::rows::{
    DispatchRow, DispatchRowView, EgressState, ReceiptRow, ReceiptRowView, StageRow, StageRowView,
    StageStatus,
};
use crate::store::{
    CoordEvent, CoordEventKind, CoordEventView, StagedContent, StagedContentView, Store, StoreError,
    StoreView,
};
use crate::store;
use crate::table::Record;
use crate::table;
use crate::text::{bytes_of, copy_bytes, same_text};
use vstd::prelude::*;

verus! {

/// What a consent receipt can be spent on: one dispatch of what is staged.
pub const DISPATCH_PURPOSE: &'static str = "coord.dispatch";


/// Bytes staged for a disclosure.
#[derive(Debug, Clone, PartialEq, Eq)]
pub struct StagedContract {
    pub stage_ref: String,
    pub staged_digest: String,
    pub payload_sha256: String,
    pub byte_length: usize,
    pub task_type: String,
    pub performer: String,
    pub status: StageStatus,
    pub staged_at: i64,
}

/// The view of [`StagedContract`].
#[verifier::ext_equal]
pub struct StagedContractView {
    pub stage_ref: Seq<char>,
    pub staged_digest: Seq<char>,
    pub payload_sha256: Seq<char>,
    pub byte_length: usize,
    pub task_type: Seq<char>,
    pub performer: Seq<char>,
    pub status: StageStatus,
    pub staged_at: i64,
}

impl View for StagedContract {
    type V = StagedContractView;

    open spec fn view(&self) -> StagedContractView {
        StagedContractView {
            stage_ref: self.stage_ref@,
            staged_digest: self.staged_digest@,
            payload_sha256: self.payload_sha256@,
            byte_length: self.byte_length,
            task_type: self.task_type@,
            performer: self.performer@,
            status: self.status,
            staged_at: self.staged_at,
        }
    }
}

impl Record for StagedContract {
    fn dup(&self) -> (r: Self) {
        let r = StagedContract {
            stage_ref: self.stage_ref.clone(),
            staged_digest: self.staged_digest.clone(),
            payload_sha256: self.payload_sha256.clone(),
            byte_length: self.byte_length,
            task_type: self.task_type.clone(),
            performer: self.performer.clone(),
            status: self.status,
            staged_at: self.staged_at,
        };
        r
    }
}

/// The consent of the operator to one disclosure.
#[derive(Debug, Clone, PartialEq, Eq)]
pub struct ConsentReceipt {
    pub receipt_id: String,
    pub stage_ref: String,
    pub staged_digest: String,
    pub payload_sha256: String,
    /// What it can be spent on.
    pub purpose: String,
    pub max_uses: u32,
    pub uses: u32,
    pub minted_at: i64,
}

/// The view of [`ConsentReceipt`].
#[verifier::ext_equal]
pub struct ConsentReceiptView {
    pub receipt_id: Seq<char>,
    pub stage_ref: Seq<char>,
    pub staged_digest: Seq<char>,
    pub payload_sha256: Seq<char>,
    pub purpose: Seq<char>,
    pub max_uses: u32,
    pub uses: u32,
    pub minted_at: i64,
}

impl View for ConsentReceipt {
    type V = ConsentReceiptView;

    open spec fn view(&self) -> ConsentReceiptView {
        ConsentReceiptView {
            receipt_id: self.receipt_id@,
            stage_ref: self.stage_ref@,
            staged_digest: self.staged_digest@,
            payload_sha256: self.payload_sha256@,
            purpose: self.purpose@,
            max_uses: self.max_uses,
            uses: self.uses,
            minted_at: self.minted_at,
        }
    }
}

impl Record for ConsentReceipt {
    fn dup(&self) -> (r: Self) {
        let r = ConsentReceipt {
            receipt_id: self.receipt_id.clone(),
            stage_ref: self.stage_ref.clone(),
            staged_digest: self.staged_digest.clone(),
            payload_sha256: self.payload_sha256.clone(),
            purpose: self.purpose.clone(),
            max_uses: self.max_uses,
            uses: self.uses,
            minted_at: self.minted_at,
        };
        r
    }
}

/// A committed dispatch.
#[derive(Debug, Clone, PartialEq, Eq)]
pub struct DispatchRecord {
    pub execution_key: String,
    pub stage_ref: String,
    pub staged_digest: String,
    pub receipt_id: String,
    pub dispatch_receipt: String,
    pub dispatched_at: i64,
    pub egress_state: EgressState,
    pub egress_at: Option<i64>,
    pub egress_detail: String,
}

/// The view of [`DispatchRecord`].
#[verifier::ext_equal]
pub struct DispatchRecordView {
    pub execution_key: Seq<char>,
    pub stage_ref: Seq<char>,
    pub staged_digest: Seq<char>,
    pub receipt_id: Seq<char>,
    pub dispatch_receipt: Seq<char>,
    pub dispatched_at: i64,
    pub egress_state: EgressState,
    pub egress_at: Option<i64>,
    pub egress_detail: Seq<char>,
}

impl View for DispatchRecord {
    type V = DispatchRecordView;

    open spec fn view(&self) -> DispatchRecordView {
        DispatchRecordView {
            execution_key: self.execution_key@,
            stage_ref: self.stage_ref@,
            staged_digest: self.staged_digest@,
            receipt_id: self.receipt_id@,
            dispatch_receipt: self.dispatch_receipt@,
            dispatched_at: self.dispatched_at,
            egress_state: self.egress_state,
            egress_at: self.egress_at,
            egress_detail: self.egress_detail@,
        }
    }
}

impl Record for DispatchRecord {
    fn dup(&self) -> (r: Self) {
        let r = DispatchRecord {
            execution_key: self.execution_key.clone(),
            stage_ref: self.stage_ref.clone(),
            staged_digest: self.staged_digest.clone(),
            receipt_id: self.receipt_id.clone(),
            dispatch_receipt: self.dispatch_receipt.clone(),
            dispatched_at: self.dispatched_at,
            egress_state: self.egress_state,
            egress_at: self.egress_at,
            egress_detail: self.egress_detail.clone(),
        };
        r
    }
}

impl DispatchRecord {
    /// Whether the bytes may be carried: they are not known to have arrived.
    pub fn egress_may_be_attempted(&self) -> (r: bool)
        ensures
            r == !(self@.egress_state is Sent),
    {
        match self.egress_state {
            EgressState::Sent => false,
            _ => true,
        }
    }
}

/// What is to be staged.
pub struct NewStagedContract<'a> {
    pub stage_ref: &'a str,
    pub staged_digest: &'a str,
    pub task_type: &'a str,
    pub performer: &'a str,
    pub payload_sha256: &'a str,
    pub payload: &'a [u8],
}

/// The row of what is to be staged.
pub open spec fn new_stage_row(new: NewStagedContract<'_>, now: i64) -> StageRowView {
    StageRowView {
        staged_digest: new.staged_digest@,
        task_type: new.task_type@,
        performer: new.performer@,
        payload_sha256: new.payload_sha256@,
        payload: new.payload@,
        status: StageStatus::Staged,
        staged_at: now,
    }
}

/// What came of staging.
#[derive(Debug, Clone, PartialEq, Eq)]
pub enum StageOutcome {
    Staged(StagedContract),
    AlreadyStaged(StagedContract),
}

impl StageOutcome {
    /// What is staged.
    pub open spec fn shown(self) -> StagedContractView {
        match self {
            StageOutcome::Staged(s) => s@,
            StageOutcome::AlreadyStaged(s) => s@,
        }
    }

    /// What is staged.
    pub fn record(&self) -> (r: &StagedContract)
        ensures
            r@ == self.shown(),
    {
        match self {
            StageOutcome::Staged(s) => s,
            StageOutcome::AlreadyStaged(s) => s,
        }
    }

    /// Whether it was staged before.
    pub fn already_staged(&self) -> (r: bool)
        ensures
            r == (self is AlreadyStaged),
    {
        match self {
            StageOutcome::Staged(_) => false,
            StageOutcome::AlreadyStaged(_) => true,
        }
    }
}

/// The proof that one consent was spent. There is no way to make one but to spend a
/// receipt, and no way to use it twice.
#[derive(Debug, PartialEq, Eq)]
pub struct ConsentBurn {
    record: DispatchRecord,
}

impl ConsentBurn {
    /// The dispatch that the consent was spent on.
    pub closed spec fn spent_on(self) -> DispatchRecordView {
        self.record@
    }

    /// Gives up the proof for the dispatch that it stands for.
    pub fn into_record(self) -> (r: DispatchRecord)
        ensures
            r@ == self.spent_on(),
    {
        self.record
    }
}

/// What came of a dispatch.
#[derive(Debug, PartialEq, Eq)]
pub enum DispatchOutcome {
    /// The consent is spent, and the dispatch committed.
    Dispatched(ConsentBurn),
    /// A repetition under the same execution key; nothing was spent.
    AlreadyDispatched(DispatchRecord),
    /// The consent was spent under another execution key.
    ConsentSpent,
    /// No consent of this id binds what is staged.
    ConsentUnknown,
    /// The execution key is that of another dispatch.
    ExecutionKeyConflict(DispatchRecord),
}

/// What comes of a dispatch.
pub enum DispatchVerdict {
    Dispatched,
    AlreadyDispatched,
    ConsentSpent,
    ConsentUnknown,
    ExecutionKeyConflict,
}

/// Something staged, as callers see it.
pub open spec fn stage_shown(stage_ref: Seq<char>, row: StageRowView) -> StagedContractView {
    StagedContractView {
        stage_ref,
        staged_digest: row.staged_digest,
        payload_sha256: row.payload_sha256,
        byte_length: row.payload.len() as usize,
        task_type: row.task_type,
        performer: row.performer,
        status: row.status,
        staged_at: row.staged_at,
    }
}

/// A consent receipt, as callers see it.
pub open spec fn receipt_shown(receipt_id: Seq<char>, row: ReceiptRowView) -> ConsentReceiptView {
    ConsentReceiptView {
        receipt_id,
        stage_ref: row.stage_ref,
        staged_digest: row.staged_digest,
        payload_sha256: row.payload_sha256,
        purpose: row.purpose,
        max_uses: row.max_uses,
        uses: row.uses,
        minted_at: row.minted_at,
    }
}

/// A dispatch, as callers see it.
pub open spec fn dispatch_shown(key: Seq<char>, row: DispatchRowView) -> DispatchRecordView {
    DispatchRecordView {
        execution_key: key,
        stage_ref: row.stage_ref,
        staged_digest: row.staged_digest,
        receipt_id: row.receipt_id,
        dispatch_receipt: row.dispatch_receipt,
        dispatched_at: row.dispatched_at,
        egress_state: row.egress_state,
        egress_at: row.egress_at,
        egress_detail: row.egress_detail,
    }
}

/// The feed can take no further event.
pub open spec fn feed_full(v: StoreView) -> bool {
    v.events.len() > 0 && v.events.last().seq == i64::MAX
}

/// The number of the newest event; zero if there is none.
pub open spec fn feed_head(v: StoreView) -> i64 {
    if v.events.len() == 0 {
        0
    } else {
        v.events.last().seq
    }
}

/// The state with one event more, under the next number.
pub open spec fn with_event(v: StoreView, e: CoordEventView) -> StoreView {
    StoreView {
        events: v.events.push(CoordEventView { seq: (feed_head(v) + 1) as i64, ..e }),
        ..v
    }
}

/// An event of one kind about a staged digest.
pub open spec fn event_of(
    kind: CoordEventKind,
    stage_ref: Seq<char>,
    staged_digest: Seq<char>,
    at: i64,
) -> CoordEventView {
    CoordEventView {
        seq: 0,
        kind,
        stage_ref,
        at,
        staged_digest,
        content: None,
        recipient_root: None,
        consent_receipt: None,
        max_uses: None,
        execution_key: None,
        dispatch_receipt: None,
        egress_state: None,
        remark: None,
    }
}

/// What an event tells of what is staged.
pub open spec fn content_of(row: StageRowView) -> StagedContentView {
    StagedContentView {
        payload_sha256: row.payload_sha256,
        task_type: row.task_type,
        performer: row.performer,
        byte_length: row.payload.len() as usize,
    }
}

/// The digest is staged under another reference.
pub open spec fn digest_elsewhere(v: StoreView, stage_ref: Seq<char>, digest: Seq<char>) -> bool {
    exists|other: Seq<char>| #[trigger]
        v.stages.contains_key(other) && other != stage_ref && v.stages[other].staged_digest
            == digest
}

/// The state with something staged.
pub open spec fn with_stage(v: StoreView, stage_ref: Seq<char>, row: StageRowView) -> StoreView {
    with_event(
        StoreView { stages: v.stages.insert(stage_ref, row), ..v },
        CoordEventView {
            content: Some(content_of(row)),
            ..event_of(CoordEventKind::Staged, stage_ref, row.staged_digest, row.staged_at)
        },
    )
}

/// A receipt for what is staged that was not spent.
pub open spec fn is_live_receipt(v: StoreView, receipt_id: Seq<char>, stage_ref: Seq<char>) -> bool {
    v.receipts.contains_key(receipt_id) && v.receipts[receipt_id].stage_ref == stage_ref
        && v.receipts[receipt_id].uses < v.receipts[receipt_id].max_uses
}

/// Some receipt for what is staged was not spent.
pub open spec fn has_live_receipt(v: StoreView, stage_ref: Seq<char>) -> bool {
    exists|receipt_id: Seq<char>| #[trigger] is_live_receipt(v, receipt_id, stage_ref)
}

/// The state with a consent receipt for what is staged, good for one use.
pub open spec fn with_receipt(
    v: StoreView,
    receipt_id: Seq<char>,
    stage_ref: Seq<char>,
    now: i64,
) -> StoreView {
    let stage = v.stages[stage_ref];
    with_event(
        StoreView {
            receipts: v.receipts.insert(
                receipt_id,
                ReceiptRowView {
                    stage_ref,
                    staged_digest: stage.staged_digest,
                    payload_sha256: stage.payload_sha256,
                    purpose: DISPATCH_PURPOSE@,
                    max_uses: 1,
                    uses: 0,
                    minted_at: now,
                },
            ),
            stages: v.stages.insert(
                stage_ref,
                StageRowView { status: StageStatus::Consented, ..stage },
            ),
            ..v
        },
        CoordEventView {
            consent_receipt: Some(receipt_id),
            max_uses: Some(1),
            ..event_of(CoordEventKind::ConsentRecorded, stage_ref, stage.staged_digest, now)
        },
    )
}

/// What comes of a dispatch.
pub open spec fn dispatch_verdict(
    v: StoreView,
    stage_ref: Seq<char>,
    receipt_id: Seq<char>,
    execution_key: Seq<char>,
) -> DispatchVerdict {
    if v.dispatches.contains_key(execution_key) {
        let d = v.dispatches[execution_key];
        if d.stage_ref == stage_ref && d.receipt_id == receipt_id {
            DispatchVerdict::AlreadyDispatched
        } else {
            DispatchVerdict::ExecutionKeyConflict
        }
    } else if !v.receipts.contains_key(receipt_id) || v.receipts[receipt_id].stage_ref
        != stage_ref {
        DispatchVerdict::ConsentUnknown
    } else if v.receipts[receipt_id].uses >= v.receipts[receipt_id].max_uses {
        DispatchVerdict::ConsentSpent
    } else {
        DispatchVerdict::Dispatched
    }
}

/// The row of a new dispatch. Nothing is known of its carriage.
pub open spec fn new_dispatch_row(
    v: StoreView,
    stage_ref: Seq<char>,
    receipt_id: Seq<char>,
    dispatch_receipt: Seq<char>,
    now: i64,
) -> DispatchRowView {
    DispatchRowView {
        stage_ref,
        staged_digest: v.receipts[receipt_id].staged_digest,
        receipt_id,
        dispatch_receipt,
        dispatched_at: now,
        egress_state: EgressState::Pending,
        egress_at: None,
        egress_detail: Seq::empty(),
    }
}

/// The state with a consent spent and its dispatch committed, in one step.
pub open spec fn with_dispatch(
    v: StoreView,
    stage_ref: Seq<char>,
    receipt_id: Seq<char>,
    execution_key: Seq<char>,
    dispatch_receipt: Seq<char>,
    recipient_root: Seq<char>,
    now: i64,
) -> StoreView {
    let receipt = v.receipts[receipt_id];
    let row = new_dispatch_row(v, stage_ref, receipt_id, dispatch_receipt, now);
    with_event(
        StoreView {
            receipts: v.receipts.insert(
                receipt_id,
                ReceiptRowView { uses: (receipt.uses + 1) as u32, ..receipt },
            ),
            dispatches: v.dispatches.insert(execution_key, row),
            stages: v.stages.insert(
                stage_ref,
                StageRowView { status: StageStatus::Dispatched, ..v.stages[stage_ref] },
            ),
            ..v
        },
        CoordEventView {
            content: Some(content_of(v.stages[stage_ref])),
            recipient_root: Some(recipient_root),
            consent_receipt: Some(receipt_id),
            execution_key: Some(execution_key),
            dispatch_receipt: Some(dispatch_receipt),
            ..event_of(CoordEventKind::Dispatched, stage_ref, row.staged_digest, now)
        },
    )
}

/// The state with the carriage of a dispatch recorded.
pub open spec fn with_egress(
    v: StoreView,
    execution_key: Seq<char>,
    recipient_root: Seq<char>,
    state: EgressState,
    detail: Seq<char>,
    now: i64,
) -> StoreView {
    let row = v.dispatches[execution_key];
    with_event(
        StoreView {
            dispatches: v.dispatches.insert(
                execution_key,
                DispatchRowView {
                    egress_state: state,
                    egress_at: Some(now),
                    egress_detail: detail,
                    ..row
                },
            ),
            ..v
        },
        CoordEventView {
            recipient_root: Some(recipient_root),
            execution_key: Some(execution_key),
            dispatch_receipt: Some(row.dispatch_receipt),
            egress_state: Some(state),
            remark: Some(detail),
            ..event_of(CoordEventKind::EgressRecorded, row.stage_ref, row.staged_digest, now)
        },
    )
}

/// The state once it was told where the carriage of a dispatch got to. What the
/// recipient has acknowledged stands.
pub open spec fn egress_told(
    v: StoreView,
    execution_key: Seq<char>,
    recipient_root: Seq<char>,
    state: EgressState,
    detail: Seq<char>,
    now: i64,
) -> StoreView {
    if v.dispatches[execution_key].egress_state is Sent {
        v
    } else {
        with_egress(v, execution_key, recipient_root, state, detail, now)
    }
}

/// The dispatch under `key` answers to `id`: it is the one with this dispatch
/// receipt, or of this staged reference.
pub open spec fn answers_to(v: StoreView, key: Seq<char>, id: Seq<char>) -> bool {
    v.dispatches.contains_key(key) && (v.dispatches[key].dispatch_receipt == id
        || v.dispatches[key].stage_ref == id)
}

/// The events after a position.
pub open spec fn feed_after(events: Seq<CoordEventView>, after: i64) -> Seq<CoordEventView> {
    events.filter(|e: CoordEventView| e.seq > after)
}

/// The first of a sequence, up to a limit.
pub open spec fn at_most<T>(s: Seq<T>, limit: nat) -> Seq<T> {
    if s.len() <= limit {
        s
    } else {
        s.take(limit as int)
    }
}

impl Store {
    /// Adds an event to the feed, under the next number.
    fn push_event(&mut self, event: CoordEvent)
        requires
            old(self).tables_wf(),
            store::numbered_upwards(old(self)@.events),
            !feed_full(old(self)@),
        ensures
            final(self).tables_wf(),
            store::numbered_upwards(final(self)@.events),
            final(self)@ == with_event(old(self)@, event@),
    {
        let ghost v = self@;
        let n = self.events.len();
        assert(v.events.len() == n);
        let seq: i64 = if n == 0 {
            1
        } else {
            assert(v.events[n - 1] == self.events@[n - 1]@);
            self.events[n - 1].seq + 1
        };
        let mut event = event;
        event.seq = seq;
        let ghost ev = event@;
        self.events.push(event);
        proof {
            assert(self@.events =~= v.events.push(ev));
            assert(self@ =~= with_event(v, ev));
            assert forall|i: int, j: int| 0 <= i < j < self@.events.len() implies (
            #[trigger] self@.events[i]).seq < (#[trigger] self@.events[j]).seq by {
                if j == n {
                    if i < n - 1 {
                        assert(v.events[i].seq < v.events[n - 1].seq);
                    }
                } else {
                    assert(v.events[i].seq < v.events[j].seq);
                }
            }
        }
    }

    /// Adds an event that tells of no dispatch.
    fn tell(&mut self, event: CoordEvent)
        requires
            old(self).wf(),
            !feed_full(old(self)@),
            !(event@.kind is Dispatched),
        ensures
            final(self).wf(),
            final(self)@ == with_event(old(self)@, event@),
    {
        let ghost v = self@;
        self.push_event(event);
        proof {
            lemma_other_events_tell_nothing(v.dispatches, v.events, self@.events.last());
            assert(self@.events =~= v.events.push(self@.events.last()));
        }
    }

    fn is_feed_full(&self) -> (r: bool)
        ensures
            r == feed_full(self@),
    {
        let n = self.events.len();
        assert(self@.events.len() == n);
        if n == 0 {
            false
        } else {
            assert(self@.events[n - 1] == self.events@[n - 1]@);
            self.events[n - 1].seq == i64::MAX
        }
    }

    fn show_stage(stage_ref: &str, row: &StageRow) -> (r: StagedContract)
        ensures
            r@ == stage_shown(stage_ref@, row@),
    {
        StagedContract {
            stage_ref: stage_ref.to_owned(),
            staged_digest: row.staged_digest.clone(),
            payload_sha256: row.payload_sha256.clone(),
            byte_length: row.payload.len(),
            task_type: row.task_type.clone(),
            performer: row.performer.clone(),
            status: row.status,
            staged_at: row.staged_at,
        }
    }

    fn show_dispatch(execution_key: &str, row: &DispatchRow) -> (r: DispatchRecord)
        ensures
            r@ == dispatch_shown(execution_key@, row@),
    {
        DispatchRecord {
            execution_key: execution_key.to_owned(),
            stage_ref: row.stage_ref.clone(),
            staged_digest: row.staged_digest.clone(),
            receipt_id: row.receipt_id.clone(),
            dispatch_receipt: row.dispatch_receipt.clone(),
            dispatched_at: row.dispatched_at,
            egress_state: row.egress_state,
            egress_at: row.egress_at,
            egress_detail: row.egress_detail.clone(),
        }
    }

    /// Stages bytes under the reference derived from them. What is staged already
    /// is given back as it is. A reference that stands for another digest, or a
    /// digest that stands under another reference, is refused, as is any new entry
    /// where the feed is full.
    pub fn stage_contract(&mut self, new: &NewStagedContract<'_>, now: i64) -> (r: Result<
        StageOutcome,
        StoreError,
    >)
        requires
            old(self).wf(),
        ensures
            final(self).wf(),
            match r {
                Ok(StageOutcome::AlreadyStaged(s)) => old(self)@.stages.contains_key(
                    new.stage_ref@,
                ) && old(self)@.stages[new.stage_ref@].staged_digest == new.staged_digest@
                    && s@ == stage_shown(new.stage_ref@, old(self)@.stages[new.stage_ref@])
                    && final(self)@ == old(self)@,
                Ok(StageOutcome::Staged(s)) => !old(self)@.stages.contains_key(new.stage_ref@)
                    && !digest_elsewhere(old(self)@, new.stage_ref@, new.staged_digest@)
                    && !feed_full(old(self)@) && final(self)@ == with_stage(
                    old(self)@,
                    new.stage_ref@,
                    new_stage_row(*new, now),
                ) && s@ == stage_shown(new.stage_ref@, new_stage_row(*new, now)),
                Err(e) => e is Corrupt && final(self)@ == old(self)@ && (if old(
                    self,
                )@.stages.contains_key(new.stage_ref@) {
                    old(self)@.stages[new.stage_ref@].staged_digest != new.staged_digest@
                } else {
                    digest_elsewhere(old(self)@, new.stage_ref@, new.staged_digest@) || feed_full(
                        old(self)@,
                    )
                }),
            },
    {
        let k = new.stage_ref.to_owned();
        match self.stages.get(&k) {
            Some(row) => {
                if same_text(&row.staged_digest, new.staged_digest) {
                    return Ok(StageOutcome::AlreadyStaged(Self::show_stage(new.stage_ref, row)));
                } else {
                    return Err(
                        StoreError::Corrupt("the reference stands for another digest".to_owned()),
                    );
                }
            },
            None => {},
        }
        let ghost this = new.stage_ref@;
        let ghost digest = new.staged_digest@;
        let ghost hit = |q: Seq<char>, row: StageRowView| row.staged_digest == digest;
        let found = |q: &String, row: &StageRow| -> (r: bool)
            ensures (r == (row@.staged_digest == new.staged_digest@))
        {
            same_text(&row.staged_digest, new.staged_digest)
        };
        match self.stages.find(found, Ghost(hit)) {
            Some(i) => {
                let ghost other = self.stages.entries()[i as int].0;
                assert(self@.stages.contains_key(other) && other != this
                    && self@.stages[other].staged_digest == digest);
                return Err(
                    StoreError::Corrupt("the digest is staged under another reference".to_owned()),
                );
            },
            None => {},
        }
        if self.is_feed_full() {
            return Err(StoreError::Corrupt("the event feed is full".to_owned()));
        }
        let row = StageRow {
            staged_digest: new.staged_digest.to_owned(),
            task_type: new.task_type.to_owned(),
            performer: new.performer.to_owned(),
            payload_sha256: new.payload_sha256.to_owned(),
            payload: bytes_of(new.payload),
            status: StageStatus::Staged,
            staged_at: now,
        };
        let shown = Self::show_stage(new.stage_ref, &row);
        let content = Self::tell_content(&row);
        self.stages.put(k, row);
        self.tell(
            CoordEvent {
                seq: 0,
                kind: CoordEventKind::Staged,
                stage_ref: new.stage_ref.to_owned(),
                at: now,
                staged_digest: new.staged_digest.to_owned(),
                content: Some(content),
                recipient_root: None,
                consent_receipt: None,
                max_uses: None,
                execution_key: None,
                dispatch_receipt: None,
                egress_state: None,
                remark: None,
            },
        );
        Ok(StageOutcome::Staged(shown))
    }

    fn tell_content(row: &StageRow) -> (r: StagedContent)
        ensures
            r@ == content_of(row@),
    {
        StagedContent {
            payload_sha256: row.payload_sha256.clone(),
            task_type: row.task_type.clone(),
            performer: row.performer.clone(),
            byte_length: row.payload.len(),
        }
    }

    /// What is staged under a reference.
    pub fn staged_contract(&self, stage_ref: &str) -> (r: Result<
        Option<StagedContract>,
        StoreError,
    >)
        requires
            self.wf(),
        ensures
            match r {
                Ok(Some(s)) => self@.stages.contains_key(stage_ref@) && s@ == stage_shown(
                    stage_ref@,
                    self@.stages[stage_ref@],
                ),
                Ok(None) => !self@.stages.contains_key(stage_ref@),
                Err(_) => false,
            },
    {
        match self.stages.get(&stage_ref.to_owned()) {
            Some(row) => Ok(Some(Self::show_stage(stage_ref, row))),
            None => Ok(None),
        }
    }

    /// The staged bytes.
    pub fn staged_payload(&self, stage_ref: &str) -> (r: Result<Option<Vec<u8>>, StoreError>)
        requires
            self.wf(),
        ensures
            match r {
                Ok(Some(p)) => self@.stages.contains_key(stage_ref@) && p@
                    == self@.stages[stage_ref@].payload,
                Ok(None) => !self@.stages.contains_key(stage_ref@),
                Err(_) => false,
            },
    {
        match self.stages.get(&stage_ref.to_owned()) {
            Some(row) => Ok(Some(copy_bytes(&row.payload))),
            None => Ok(None),
        }
    }

    /// A consent receipt for what is staged that was not spent.
    pub fn unconsumed_consent(&self, stage_ref: &str) -> (r: Result<
        Option<ConsentReceipt>,
        StoreError,
    >)
        requires
            self.wf(),
        ensures
            match r {
                Ok(Some(c)) => is_live_receipt(self@, c@.receipt_id, stage_ref@) && c@
                    == receipt_shown(c@.receipt_id, self@.receipts[c@.receipt_id]),
                Ok(None) => !has_live_receipt(self@, stage_ref@),
                Err(_) => false,
            },
    {
        let ghost stage = stage_ref@;
        let ghost hit = |k: Seq<char>, row: ReceiptRowView|
            row.stage_ref == stage && row.uses < row.max_uses;
        let found = |k: &String, v: &ReceiptRow| -> (r: bool)
            ensures (r == (v@.stage_ref == stage_ref@ && v@.uses < v@.max_uses))
        {
            same_text(&v.stage_ref, stage_ref) && v.uses < v.max_uses
        };
        match self.receipts.find(found, Ghost(hit)) {
            Some(i) => {
                let row = self.receipts.value_at(i);
                Ok(
                    Some(
                        ConsentReceipt {
                            receipt_id: self.receipts.key_at(i).clone(),
                            stage_ref: row.stage_ref.clone(),
                            staged_digest: row.staged_digest.clone(),
                            payload_sha256: row.payload_sha256.clone(),
                            purpose: row.purpose.clone(),
                            max_uses: row.max_uses,
                            uses: row.uses,
                            minted_at: row.minted_at,
                        },
                    ),
                )
            },
            None => Ok(None),
        }
    }

    fn set_stage_status(&mut self, stage_ref: &str, status: StageStatus)
        requires
            old(self).wf(),
            old(self)@.stages.contains_key(stage_ref@),
        ensures
            final(self).wf(),
            final(self)@ == (StoreView {
                stages: old(self)@.stages.insert(
                    stage_ref@,
                    StageRowView { status, ..old(self)@.stages[stage_ref@] },
                ),
                ..old(self)@
            }),
    {
        let k = stage_ref.to_owned();
        let row = match self.stages.get(&k) {
            Some(row) => Some(
                StageRow {
                    staged_digest: row.staged_digest.clone(),
                    task_type: row.task_type.clone(),
                    performer: row.performer.clone(),
                    payload_sha256: row.payload_sha256.clone(),
                    payload: copy_bytes(&row.payload),
                    status,
                    staged_at: row.staged_at,
                },
            ),
            None => None,
        };
        match row {
            Some(row) => {
                self.stages.put(k, row);
            },
            None => {},
        }
    }

    /// Mints the consent receipt for what is staged, good for one dispatch. None is
    /// minted while one is not spent. A reference that is not staged, a receipt id
    /// that is taken, or a full feed is refused.
    pub fn mint_consent_receipt(&mut self, stage_ref: &str, receipt_id: &str, now: i64) -> (r:
        Result<Option<ConsentReceipt>, StoreError>)
        requires
            old(self).wf(),
        ensures
            final(self).wf(),
            match r {
                Ok(Some(c)) => !has_live_receipt(old(self)@, stage_ref@)
                    && old(self)@.stages.contains_key(stage_ref@)
                    && !old(self)@.receipts.contains_key(receipt_id@) && !feed_full(old(self)@)
                    && final(self)@ == with_receipt(old(self)@, receipt_id@, stage_ref@, now)
                    && c@ == receipt_shown(receipt_id@, final(self)@.receipts[receipt_id@]),
                Ok(None) => has_live_receipt(old(self)@, stage_ref@) && final(self)@ == old(self)@,
                Err(e) => e is Corrupt && final(self)@ == old(self)@ && !has_live_receipt(
                    old(self)@,
                    stage_ref@,
                ) && (!old(self)@.stages.contains_key(stage_ref@)
                    || old(self)@.receipts.contains_key(receipt_id@) || feed_full(old(self)@)),
            },
    {
        match self.unconsumed_consent(stage_ref) {
            Ok(Some(c)) => {
                assert(is_live_receipt(self@, c@.receipt_id, stage_ref@));
                return Ok(None);
            },
            Ok(None) => {},
            Err(e) => {
                return Err(e);
            },
        }
        let (staged_digest, payload_sha256) = match self.stages.get(&stage_ref.to_owned()) {
            Some(row) => (row.staged_digest.clone(), row.payload_sha256.clone()),
            None => {
                return Err(StoreError::Corrupt("nothing is staged there".to_owned()));
            },
        };
        let id = receipt_id.to_owned();
        if self.receipts.has(&id) {
            return Err(StoreError::Corrupt("the receipt id is taken".to_owned()));
        }
        if self.is_feed_full() {
            return Err(StoreError::Corrupt("the event feed is full".to_owned()));
        }
        self.receipts.put(
            id,
            ReceiptRow {
                stage_ref: stage_ref.to_owned(),
                staged_digest: staged_digest.clone(),
                payload_sha256: payload_sha256.clone(),
                purpose: DISPATCH_PURPOSE.to_owned(),
                max_uses: 1,
                uses: 0,
                minted_at: now,
            },
        );
        self.set_stage_status(stage_ref, StageStatus::Consented);
        self.tell(
            CoordEvent {
                seq: 0,
                kind: CoordEventKind::ConsentRecorded,
                stage_ref: stage_ref.to_owned(),
                at: now,
                staged_digest: staged_digest.clone(),
                content: None,
                recipient_root: None,
                consent_receipt: Some(receipt_id.to_owned()),
                max_uses: Some(1),
                execution_key: None,
                dispatch_receipt: None,
                egress_state: None,
                remark: None,
            },
        );
        Ok(
            Some(
                ConsentReceipt {
                    receipt_id: receipt_id.to_owned(),
                    stage_ref: stage_ref.to_owned(),
                    staged_digest,
                    payload_sha256,
                    purpose: DISPATCH_PURPOSE.to_owned(),
                    max_uses: 1,
                    uses: 0,
                    minted_at: now,
                },
            ),
        )
    }

    /// Spends a consent receipt and commits the dispatch of what it binds, in one
    /// step. The same execution key with the same receipt is a repetition and
    /// spends nothing. Where the feed is full, nothing is spent.
    pub fn dispatch_staged(
        &mut self,
        stage_ref: &str,
        receipt_id: &str,
        execution_key: &str,
        dispatch_receipt: &str,
        recipient_root: &str,
        now: i64,
    ) -> (r: Result<DispatchOutcome, StoreError>)
        requires
            old(self).wf(),
        ensures
            final(self).wf(),
            match dispatch_verdict(old(self)@, stage_ref@, receipt_id@, execution_key@) {
                DispatchVerdict::AlreadyDispatched => final(self)@ == old(self)@ && match r {
                    Ok(DispatchOutcome::AlreadyDispatched(d)) => d@ == dispatch_shown(
                        execution_key@,
                        old(self)@.dispatches[execution_key@],
                    ),
                    _ => false,
                },
                DispatchVerdict::ExecutionKeyConflict => final(self)@ == old(self)@ && match r {
                    Ok(DispatchOutcome::ExecutionKeyConflict(d)) => d@ == dispatch_shown(
                        execution_key@,
                        old(self)@.dispatches[execution_key@],
                    ),
                    _ => false,
                },
                DispatchVerdict::ConsentUnknown => final(self)@ == old(self)@ && match r {
                    Ok(DispatchOutcome::ConsentUnknown) => true,
                    _ => false,
                },
                DispatchVerdict::ConsentSpent => final(self)@ == old(self)@ && match r {
                    Ok(DispatchOutcome::ConsentSpent) => true,
                    _ => false,
                },
                DispatchVerdict::Dispatched => match r {
                    Ok(DispatchOutcome::Dispatched(burn)) => !feed_full(old(self)@) && final(self)@
                        == with_dispatch(
                        old(self)@,
                        stage_ref@,
                        receipt_id@,
                        execution_key@,
                        dispatch_receipt@,
                        recipient_root@,
                        now,
                    ) && burn.spent_on() == dispatch_shown(
                        execution_key@,
                        new_dispatch_row(
                            old(self)@,
                            stage_ref@,
                            receipt_id@,
                            dispatch_receipt@,
                            now,
                        ),
                    ),
                    Err(e) => e is Corrupt && feed_full(old(self)@) && final(self)@ == old(self)@,
                    _ => false,
                },
            },
    {
        let key = execution_key.to_owned();
        match self.dispatches.get(&key) {
            Some(row) => {
                let record = Self::show_dispatch(execution_key, row);
                if same_text(&row.stage_ref, stage_ref) && same_text(&row.receipt_id, receipt_id) {
                    return Ok(DispatchOutcome::AlreadyDispatched(record));
                } else {
                    return Ok(DispatchOutcome::ExecutionKeyConflict(record));
                }
            },
            None => {},
        }
        let id = receipt_id.to_owned();
        let spent = match self.receipts.get(&id) {
            Some(row) => {
                if !same_text(&row.stage_ref, stage_ref) {
                    return Ok(DispatchOutcome::ConsentUnknown);
                }
                if row.uses >= row.max_uses {
                    return Ok(DispatchOutcome::ConsentSpent);
                }
                ReceiptRow {
                    stage_ref: row.stage_ref.clone(),
                    staged_digest: row.staged_digest.clone(),
                    payload_sha256: row.payload_sha256.clone(),
                    purpose: row.purpose.clone(),
                    max_uses: row.max_uses,
                    uses: row.uses + 1,
                    minted_at: row.minted_at,
                }
            },
            None => {
                return Ok(DispatchOutcome::ConsentUnknown);
            },
        };
        if self.is_feed_full() {
            return Err(StoreError::Corrupt("the event feed is full".to_owned()));
        }
        let ghost v = self@;
        let content = match self.stages.get(&stage_ref.to_owned()) {
            Some(stage) => Self::tell_content(stage),
            None => {
                assert(self@.stages.contains_key(self@.receipts[receipt_id@].stage_ref));
                return Err(StoreError::Corrupt("nothing is staged there".to_owned()));
            },
        };
        let none = String::new();
        assert(none@ =~= Seq::<char>::empty());
        let row = DispatchRow {
            stage_ref: stage_ref.to_owned(),
            staged_digest: spent.staged_digest.clone(),
            receipt_id: receipt_id.to_owned(),
            dispatch_receipt: dispatch_receipt.to_owned(),
            dispatched_at: now,
            egress_state: EgressState::Pending,
            egress_at: None,
            egress_detail: none,
        };
        let record = Self::show_dispatch(execution_key, &row);
        let staged_digest = spent.staged_digest.clone();
        self.set_stage_status(stage_ref, StageStatus::Dispatched);
        self.receipts.put(id, spent);
        self.dispatches.put(key, row);
        self.push_event(
            CoordEvent {
                seq: 0,
                kind: CoordEventKind::Dispatched,
                stage_ref: stage_ref.to_owned(),
                at: now,
                staged_digest,
                content: Some(content),
                recipient_root: Some(recipient_root.to_owned()),
                consent_receipt: Some(receipt_id.to_owned()),
                max_uses: None,
                execution_key: Some(execution_key.to_owned()),
                dispatch_receipt: Some(dispatch_receipt.to_owned()),
                egress_state: None,
                remark: None,
            },
        );
        proof {
            lemma_dispatch_consistent(
                v,
                stage_ref@,
                receipt_id@,
                execution_key@,
                dispatch_receipt@,
                recipient_root@,
                now,
            );
        }
        Ok(DispatchOutcome::Dispatched(ConsentBurn { record }))
    }

    /// Records where the carriage of a dispatch got to. Once the recipient has
    /// acknowledged it, that stands. `None` where there is no such dispatch.
    pub fn record_egress(
        &mut self,
        execution_key: &str,
        recipient_root: &str,
        state: EgressState,
        detail: &str,
        now: i64,
    ) -> (r: Result<Option<DispatchRecord>, StoreError>)
        requires
            old(self).wf(),
        ensures
            final(self).wf(),
            match r {
                Ok(Some(d)) => old(self)@.dispatches.contains_key(execution_key@) && (old(
                    self,
                )@.dispatches[execution_key@].egress_state is Sent || !feed_full(old(self)@))
                    && final(self)@ == egress_told(
                    old(self)@,
                    execution_key@,
                    recipient_root@,
                    state,
                    detail@,
                    now,
                ) && d@ == dispatch_shown(execution_key@, final(self)@.dispatches[execution_key@]),
                Ok(None) => !old(self)@.dispatches.contains_key(execution_key@) && final(self)@
                    == old(self)@,
                Err(e) => e is Corrupt && feed_full(old(self)@)
                    && old(self)@.dispatches.contains_key(execution_key@) && !(old(
                    self,
                )@.dispatches[execution_key@].egress_state is Sent) && final(self)@ == old(self)@,
            },
    {
        let key = execution_key.to_owned();
        let mut row = match self.dispatches.get(&key) {
            Some(row) => row.dup(),
            None => {
                return Ok(None);
            },
        };
        match row.egress_state {
            EgressState::Sent => {
                return Ok(Some(Self::show_dispatch(execution_key, &row)));
            },
            _ => {},
        }
        if self.is_feed_full() {
            return Err(StoreError::Corrupt("the event feed is full".to_owned()));
        }
        row.egress_state = state;
        row.egress_at = Some(now);
        row.egress_detail = detail.to_owned();
        let record = Self::show_dispatch(execution_key, &row);
        self.dispatches.put(key, row);
        self.tell(
            CoordEvent {
                seq: 0,
                kind: CoordEventKind::EgressRecorded,
                stage_ref: record.stage_ref.clone(),
                at: now,
                staged_digest: record.staged_digest.clone(),
                content: None,
                recipient_root: Some(recipient_root.to_owned()),
                consent_receipt: None,
                max_uses: None,
                execution_key: Some(execution_key.to_owned()),
                dispatch_receipt: Some(record.dispatch_receipt.clone()),
                egress_state: Some(state),
                remark: Some(detail.to_owned()),
            },
        );
        Ok(Some(record))
    }

    /// The dispatch with this dispatch receipt, or of this staged reference.
    pub fn coord_dispatch(&self, id: &str) -> (r: Result<Option<DispatchRecord>, StoreError>)
        requires
            self.wf(),
        ensures
            match r {
                Ok(Some(d)) => answers_to(self@, d@.execution_key, id@) && d@ == dispatch_shown(
                    d@.execution_key,
                    self@.dispatches[d@.execution_key],
                ),
                Ok(None) => forall|key: Seq<char>| !#[trigger] answers_to(self@, key, id@),
                Err(_) => false,
            },
    {
        let ghost name = id@;
        let ghost hit = |k: Seq<char>, row: DispatchRowView|
            row.dispatch_receipt == name || row.stage_ref == name;
        let found = |k: &String, v: &DispatchRow| -> (r: bool)
            ensures (r == (v@.dispatch_receipt == id@ || v@.stage_ref == id@))
        {
            same_text(&v.dispatch_receipt, id) || same_text(&v.stage_ref, id)
        };
        match self.dispatches.find(found, Ghost(hit)) {
            Some(i) => Ok(
                Some(
                    Self::show_dispatch(self.dispatches.key_at(i), self.dispatches.value_at(i)),
                ),
            ),
            None => Ok(None),
        }
    }

    /// The events after a position, up to a limit.
    pub fn read_coord_events(&self, after: i64, limit: usize) -> (r: Result<
        Vec<CoordEvent>,
        StoreError,
    >)
        requires
            self.wf(),
        ensures
            match r {
                Ok(list) => table::seen(list@) == at_most(feed_after(self@.events, after), limit as nat),
                Err(_) => false,
            },
    {
        let ghost all = self@.events;
        let ghost later = |e: CoordEventView| e.seq > after;
        let mut list: Vec<CoordEvent> = Vec::new();
        let mut i: usize = 0;
        proof {
            reveal(Seq::filter);
            assert(all.take(0).filter(later) =~= Seq::<CoordEventView>::empty());
            assert(table::seen(list@) =~= Seq::<CoordEventView>::empty());
        }
        while i < self.events.len()
            invariant
                all == table::seen(self.events@),
                later == (|e: CoordEventView| e.seq > after),
                i <= all.len(),
                table::seen(list@) == at_most(all.take(i as int).filter(later), limit as nat),
            decreases all.len() - i,
        {
            let ghost had = all.take(i as int).filter(later);
            let ghost had_list = table::seen(list@);
            proof {
                reveal(Seq::filter);
                assert(all.take(i + 1).drop_last() =~= all.take(i as int));
                assert(all.take(i + 1).last() == self.events@[i as int]@);
                assert(table::seen(list@).len() == list@.len());
            }
            if self.events[i].seq > after && list.len() < limit {
                let e = self.events[i].dup();
                let ghost ev = e@;
                list.push(e);
                assert(table::seen(list@) =~= had_list.push(ev));
            }
            proof {
                let now_has = all.take(i + 1).filter(later);
                if all[i as int].seq > after {
                    assert(now_has =~= had.push(all[i as int]));
                    if had.len() >= limit {
                        assert(now_has.take(limit as int) =~= had.take(limit as int));
                        if had.len() == limit {
                            assert(had.take(limit as int) =~= had);
                        }
                    }
                } else {
                    assert(now_has =~= had);
                }
            }
            i = i + 1;
        }
        assert(all.take(i as int) =~= all);
        Ok(list)
    }

    /// The number of the newest event; zero if there is none.
    pub fn coord_events_head(&self) -> (r: Result<i64, StoreError>)
        requires
            self.wf(),
        ensures
            r == Ok::<i64, StoreError>(feed_head(self@)),
    {
        let n = self.events.len();
        assert(self@.events.len() == n);
        if n == 0 {
            Ok(0)
        } else {
            assert(self@.events[n - 1] == self.events@[n - 1]@);
            Ok(self.events[n - 1].seq)
        }
    }
}

proof fn lemma_other_events_tell_nothing(
    dispatches: Map<Seq<char>, DispatchRowView>,
    events: Seq<CoordEventView>,
    e: CoordEventView,
)
    requires
        store::dispatches_are_told(dispatches, events),
        store::events_tell_truly(dispatches, events),
        store::receipts_are_told_once(events),
        !(e.kind is Dispatched),
    ensures
        store::dispatches_are_told(dispatches, events.push(e)),
        store::events_tell_truly(dispatches, events.push(e)),
        store::receipts_are_told_once(events.push(e)),
{
    let more = events.push(e);
    assert forall|k: Seq<char>| #[trigger] dispatches.contains_key(k) implies store::is_told(
        more,
        k,
        dispatches[k],
    ) by {
        let i = choose|i: int|
            0 <= i < events.len() && store::tells_of_dispatch(#[trigger] events[i], k, dispatches[k]);
        assert(store::tells_of_dispatch(more[i], k, dispatches[k]));
    }
    assert forall|i: int| 0 <= i < more.len() implies store::tells_truly(
        #[trigger] more[i],
        dispatches,
    ) by {
        if i < events.len() {
            assert(more[i] == events[i]);
        }
    }
    assert forall|i: int, j: int|
        0 <= i < j < more.len() && (#[trigger] more[i]).kind is Dispatched && (
        #[trigger] more[j]).kind is Dispatched implies more[i].consent_receipt
        != more[j].consent_receipt by {
        assert(more[i] == events[i] && more[j] == events[j]);
    }
}

proof fn lemma_dispatch_consistent(
    v: StoreView,
    stage_ref: Seq<char>,
    receipt_id: Seq<char>,
    execution_key: Seq<char>,
    dispatch_receipt: Seq<char>,
    recipient_root: Seq<char>,
    now: i64,
)
    requires
        v.consistent(),
        dispatch_verdict(v, stage_ref, receipt_id, execution_key) is Dispatched,
        !feed_full(v),
    ensures
        with_dispatch(
            v,
            stage_ref,
            receipt_id,
            execution_key,
            dispatch_receipt,
            recipient_root,
            now,
        ).consistent(),
{
    let w = with_dispatch(
        v,
        stage_ref,
        receipt_id,
        execution_key,
        dispatch_receipt,
        recipient_root,
        now,
    );
    let e = w.events.last();
    let n = v.events.len() as int;
    assert(w.events =~= v.events.push(e));
    assert forall|a: Seq<char>, b: Seq<char>|
        w.dispatches.contains_key(a) && w.dispatches.contains_key(b) && (
        #[trigger] w.dispatches[a]).receipt_id == (#[trigger] w.dispatches[b]).receipt_id implies a
        == b by {
        if a != execution_key && b != execution_key {
            assert(v.dispatches[a].receipt_id == v.dispatches[b].receipt_id);
        } else if a != execution_key {
            assert(v.dispatches.contains_key(a));
        } else if b != execution_key {
            assert(v.dispatches.contains_key(b));
        }
    }
    assert forall|k: Seq<char>| #[trigger] w.dispatches.contains_key(k) implies store::is_told(
        w.events,
        k,
        w.dispatches[k],
    ) by {
        if k == execution_key {
            assert(store::tells_of_dispatch(w.events[n], k, w.dispatches[k]));
        } else {
            assert(v.dispatches.contains_key(k));
            let i = choose|i: int|
                0 <= i < n && store::tells_of_dispatch(
                    #[trigger] v.events[i],
                    k,
                    v.dispatches[k],
                );
            assert(store::tells_of_dispatch(w.events[i], k, w.dispatches[k]));
        }
    }
    assert forall|i: int| 0 <= i < w.events.len() implies store::tells_truly(
        #[trigger] w.events[i],
        w.dispatches,
    ) by {
        if i < n {
            assert(w.events[i] == v.events[i]);
            assert(store::tells_truly(v.events[i], v.dispatches));
        }
    }
    assert forall|i: int, j: int|
        0 <= i < j < w.events.len() && (#[trigger] w.events[i]).kind is Dispatched && (
        #[trigger] w.events[j]).kind is Dispatched implies w.events[i].consent_receipt
        != w.events[j].consent_receipt by {
        assert(w.events[i] == v.events[i]);
        if j < n {
            assert(w.events[j] == v.events[j]);
        } else {
            assert(store::tells_truly(v.events[i], v.dispatches));
            assert(v.dispatches.contains_key(v.events[i].execution_key->Some_0));
        }
    }
    assert(store::numbered_upwards(w.events)) by {
        assert forall|i: int, j: int| 0 <= i < j < w.events.len() implies (
        #[trigger] w.events[i]).seq < (#[trigger] w.events[j]).seq by {
            assert(w.events[i] == v.events[i]);
            if j < n {
                assert(w.events[j] == v.events[j]);
            } else if i < n - 1 {
                assert(v.events[i].seq < v.events[n - 1].seq);
            }
        }
    }
}

/// A consent is spent once: after a dispatch, the receipt under another execution
/// key is refused, and under the same one it is the same dispatch.
pub proof fn one_receipt_dispatches_once(
    v: StoreView,
    stage_ref: Seq<char>,
    receipt_id: Seq<char>,
    execution_key: Seq<char>,
    dispatch_receipt: Seq<char>,
    recipient_root: Seq<char>,
    now: i64,
    other_key: Seq<char>,
)
    requires
        v.consistent(),
        dispatch_verdict(v, stage_ref, receipt_id, execution_key) is Dispatched,
        !v.dispatches.contains_key(other_key),
        other_key != execution_key,
    ensures
        ({
            let w = with_dispatch(
                v,
                stage_ref,
                receipt_id,
                execution_key,
                dispatch_receipt,
                recipient_root,
                now,
            );
            &&& dispatch_verdict(w, stage_ref, receipt_id, other_key) is ConsentSpent
            &&& dispatch_verdict(w, stage_ref, receipt_id, execution_key) is AlreadyDispatched
            &&& w.dispatches[execution_key].dispatch_receipt == dispatch_receipt
            &&& !is_live_receipt(w, receipt_id, stage_ref)
        }),
{
}

/// In every state that the endpoint can come to, two dispatches never share a
/// receipt, and each dispatch is of the very digest that its receipt was minted for.
pub proof fn dispatches_are_consented_to(v: StoreView, a: Seq<char>, b: Seq<char>)
    requires
        v.consistent(),
        v.dispatches.contains_key(a),
        v.dispatches.contains_key(b),
    ensures
        a != b ==> v.dispatches[a].receipt_id != v.dispatches[b].receipt_id,
        v.receipts.contains_key(v.dispatches[a].receipt_id),
        v.receipts[v.dispatches[a].receipt_id].stage_ref == v.dispatches[a].stage_ref,
        v.receipts[v.dispatches[a].receipt_id].staged_digest == v.dispatches[a].staged_digest,
        v.stages.contains_key(v.dispatches[a].stage_ref),
        v.stages[v.dispatches[a].stage_ref].staged_digest == v.dispatches[a].staged_digest,
{
    assert(v.dispatches[a].receipt_id == v.dispatches[a].receipt_id);
    assert(v.dispatches[b].receipt_id == v.dispatches[b].receipt_id);
}

/// A receipt for one staged digest dispatches no other.
pub proof fn receipts_do_not_travel(
    v: StoreView,
    stage_ref: Seq<char>,
    receipt_id: Seq<char>,
    execution_key: Seq<char>,
)
    requires
        v.receipts.contains_key(receipt_id),
        v.receipts[receipt_id].stage_ref != stage_ref,
        !v.dispatches.contains_key(execution_key),
    ensures
        dispatch_verdict(v, stage_ref, receipt_id, execution_key) is ConsentUnknown,
{
}

/// Staging is inert: it leaves no task, no attempt, no consent and no dispatch
/// behind, only what is staged and one event.
pub proof fn staging_is_inert(v: StoreView, stage_ref: Seq<char>, row: StageRowView)
    ensures
        ({
            let w = with_stage(v, stage_ref, row);
            &&& w == StoreView { stages: w.stages, events: w.events, ..v }
            &&& w.events.len() == v.events.len() + 1
        }),
{
}

/// An acknowledged carriage stays acknowledged: whatever is told of it after changes
/// nothing.
pub proof fn acknowledged_carriage_stands(
    v: StoreView,
    execution_key: Seq<char>,
    recipient_root: Seq<char>,
    detail: Seq<char>,
    now: i64,
    state: EgressState,
    later_detail: Seq<char>,
    later: i64,
)
    requires
        v.dispatches.contains_key(execution_key),
    ensures
        ({
            let w = egress_told(v, execution_key, recipient_root, EgressState::Sent, detail, now);
            &&& w.dispatches[execution_key].egress_state is Sent
            &&& egress_told(w, execution_key, recipient_root, state, later_detail, later) == w
        }),
{
}

/// Reading on from the last event of a page gives the events that follow it: none
/// is given twice, and none is left out.
pub proof fn pages_follow_on(events: Seq<CoordEventView>, after: i64, limit: nat)
    requires
        store::numbered_upwards(events),
        0 < limit < feed_after(events, after).len(),
    ensures
        ({
            let rest = feed_after(events, after);
            let page = at_most(rest, limit);
            feed_after(events, page.last().seq) == rest.skip(limit as int)
        }),
{
    let rest = feed_after(events, after);
    lemma_feed_is_suffix(events, after);
    let n = choose|n: int|
        0 <= n <= events.len() && #[trigger] events.skip(n) == rest && (forall|i: int|
            0 <= i < n ==> (#[trigger] events[i]).seq <= after);
    let last = rest[limit - 1];
    assert(at_most(rest, limit).last() == last);
    assert(last == events[n + limit - 1]);
    lemma_feed_is_suffix(events, last.seq);
    let m = choose|m: int|
        0 <= m <= events.len() && #[trigger] events.skip(m) == feed_after(events, last.seq) && (
        forall|i: int| 0 <= i < m ==> (#[trigger] events[i]).seq <= last.seq);
    let cut = n + limit;
    if m > cut {
        assert(events[cut].seq <= last.seq);
        assert(events[n + limit - 1].seq < events[cut].seq);
    }
    if m < cut {
        lemma_feed_members(events, last.seq);
        assert(events.skip(m)[0] == events[m]);
        assert(feed_after(events, last.seq)[0].seq > last.seq);
        if m < n + limit - 1 {
            assert(events[m].seq < events[n + limit - 1].seq);
        }
    }
    assert(events.skip(cut) =~= rest.skip(limit as int));
}

/// Nothing follows the last event of the feed.
pub proof fn lemma_nothing_follows_the_end(events: Seq<CoordEventView>, after: i64)
    requires
        store::numbered_upwards(events),
        feed_after(events, after).len() > 0,
    ensures
        feed_after(events, feed_after(events, after).last().seq) == Seq::<CoordEventView>::empty(),
{
    let rest = feed_after(events, after);
    lemma_feed_is_suffix(events, after);
    let n = choose|n: int|
        0 <= n <= events.len() && #[trigger] events.skip(n) == rest && (forall|i: int|
            0 <= i < n ==> (#[trigger] events[i]).seq <= after);
    let end = events.len() - 1;
    assert(rest.last() == events[end]);
    let tail = feed_after(events, events[end].seq);
    lemma_feed_members(events, events[end].seq);
    if tail.len() > 0 {
        let keep = |e: CoordEventView| e.seq > events[end].seq;
        assert(tail.contains(tail[0]));
        events.lemma_filter_contains_rev(keep, tail[0]);
        let j = choose|j: int| 0 <= j < events.len() && events[j] == tail[0];
        if j < end {
            assert(events[j].seq < events[end].seq);
        }
    }
    assert(tail =~= Seq::<CoordEventView>::empty());
}

proof fn lemma_feed_members(events: Seq<CoordEventView>, after: i64)
    ensures
        forall|i: int|
            0 <= i < feed_after(events, after).len() ==> (#[trigger] feed_after(
                events,
                after,
            )[i]).seq > after,
    decreases events.len(),
{
    reveal(Seq::filter);
    if events.len() > 0 {
        lemma_feed_members(events.drop_last(), after);
        let less = feed_after(events.drop_last(), after);
        let all = feed_after(events, after);
        assert forall|i: int| 0 <= i < all.len() implies (#[trigger] all[i]).seq > after by {
            if i < less.len() {
                assert(all[i] == less[i]);
            }
        }
    }
}

proof fn lemma_feed_is_suffix(events: Seq<CoordEventView>, after: i64)
    requires
        forall|i: int, j: int|
            0 <= i < j < events.len() ==> (#[trigger] events[i]).seq < (#[trigger] events[j]).seq,
    ensures
        exists|n: int|
            0 <= n <= events.len() && #[trigger] events.skip(n) == feed_after(events, after) && (
            forall|i: int| 0 <= i < n ==> (#[trigger] events[i]).seq <= after),
    decreases events.len(),
{
    reveal(Seq::filter);
    if events.len() == 0 {
        assert(events.skip(0) =~= feed_after(events, after));
    } else {
        let less = events.drop_last();
        lemma_feed_is_suffix(less, after);
        let n = choose|n: int|
            0 <= n <= less.len() && #[trigger] less.skip(n) == feed_after(less, after) && (forall|
                i: int,
            |
                0 <= i < n ==> (#[trigger] less[i]).seq <= after);
        if events.last().seq > after {
            assert(events.skip(n) =~= less.skip(n).push(events.last()));
            assert(events.skip(n) =~= feed_after(events, after));
            assert forall|i: int| 0 <= i < n implies (#[trigger] events[i]).seq <= after by {
                assert(events[i] == less[i]);
            }
        } else {
            if n < less.len() {
                lemma_feed_members(less, after);
                assert(less.skip(n)[0] == less[n]);
                assert(feed_after(less, after)[0].seq > after);
                assert(events[n].seq < events[events.len() - 1].seq);
            }
            assert(events.skip(events.len() as int) =~= feed_after(events, after));
            assert forall|i: int| 0 <= i < events.len() implies (#[trigger] events[i]).seq
                <= after by {
                if i < less.len() {
                    assert(events[i].seq < events[events.len() - 1].seq);
                }
            }
        }
    }
}

} // verus!
