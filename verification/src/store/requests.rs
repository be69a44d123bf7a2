//! The requester's side: what was sent, what came back, and how it was disposed of;
//! and the payloads of tasks on both sides.
use crate::store::rows::{
    InputRow, InputRowView, OutcomeRow, OutcomeRowView, OutputRow, OutputRowView, SentRow,
    SentRowView,
};
use crate::store::{Store, StoreError, StoreView};
use crate::table::{Pair, Record, pair};
use crate::table;
use crate::text::{bytes_of, copy_bytes, same_text};
use vstd::prelude::*;
use vstd::string::*;

verus! {

/// A task that was sent to a performer.
#[derive(Debug, Clone, PartialEq, Eq)]
pub struct SentRequest {
    pub contract_digest: String,
    pub task_id: String,
    pub context_id: String,
    /// The root that the task was sent to; a result from another is refused.
    pub performer_root: String,
    pub contract_id: String,
    pub performer_agent: String,
    pub performer_issuer: String,
    pub message_id: String,
}

/// The view of [`SentRequest`].
#[verifier::ext_equal]
pub struct SentRequestView {
    pub contract_digest: Seq<char>,
    pub task_id: Seq<char>,
    pub context_id: Seq<char>,
    pub performer_root: Seq<char>,
    pub contract_id: Seq<char>,
    pub performer_agent: Seq<char>,
    pub performer_issuer: Seq<char>,
    pub message_id: Seq<char>,
}

impl View for SentRequest {
    type V = SentRequestView;

    open spec fn view(&self) -> SentRequestView {
        SentRequestView {
            contract_digest: self.contract_digest@,
            task_id: self.task_id@,
            context_id: self.context_id@,
            performer_root: self.performer_root@,
            contract_id: self.contract_id@,
            performer_agent: self.performer_agent@,
            performer_issuer: self.performer_issuer@,
            message_id: self.message_id@,
        }
    }
}

impl Record for SentRequest {
    fn dup(&self) -> (r: Self) {
        let r = SentRequest {
            contract_digest: self.contract_digest.clone(),
            task_id: self.task_id.clone(),
            context_id: self.context_id.clone(),
            performer_root: self.performer_root.clone(),
            contract_id: self.contract_id.clone(),
            performer_agent: self.performer_agent.clone(),
            performer_issuer: self.performer_issuer.clone(),
            message_id: self.message_id.clone(),
        };
        r
    }
}

/// A recorded disposition in a list.
#[derive(Debug, Clone, PartialEq, Eq)]
pub struct OutcomeSummary {
    pub task_id: String,
    pub contract_digest: String,
    pub bundle_digest: String,
    pub state: String,
    pub outcome_digest: String,
}

/// The view of [`OutcomeSummary`].
#[verifier::ext_equal]
pub struct OutcomeSummaryView {
    pub task_id: Seq<char>,
    pub contract_digest: Seq<char>,
    pub bundle_digest: Seq<char>,
    pub state: Seq<char>,
    pub outcome_digest: Seq<char>,
}

impl View for OutcomeSummary {
    type V = OutcomeSummaryView;

    open spec fn view(&self) -> OutcomeSummaryView {
        OutcomeSummaryView {
            task_id: self.task_id@,
            contract_digest: self.contract_digest@,
            bundle_digest: self.bundle_digest@,
            state: self.state@,
            outcome_digest: self.outcome_digest@,
        }
    }
}

impl Record for OutcomeSummary {
    fn dup(&self) -> (r: Self) {
        let r = OutcomeSummary {
            task_id: self.task_id.clone(),
            contract_digest: self.contract_digest.clone(),
            bundle_digest: self.bundle_digest.clone(),
            state: self.state.clone(),
            outcome_digest: self.outcome_digest.clone(),
        };
        r
    }
}

/// An input of a task, with its bytes.
#[derive(Debug, Clone, PartialEq, Eq)]
pub struct TaskInput {
    pub input_id: String,
    pub ordinal: i64,
    pub media_type: String,
    pub byte_length: i64,
    pub sha256: String,
    pub payload: Vec<u8>,
}

/// The view of [`TaskInput`].
#[verifier::ext_equal]
pub struct TaskInputView {
    pub input_id: Seq<char>,
    pub ordinal: i64,
    pub media_type: Seq<char>,
    pub byte_length: i64,
    pub sha256: Seq<char>,
    pub payload: Seq<u8>,
}

impl View for TaskInput {
    type V = TaskInputView;

    open spec fn view(&self) -> TaskInputView {
        TaskInputView {
            input_id: self.input_id@,
            ordinal: self.ordinal,
            media_type: self.media_type@,
            byte_length: self.byte_length,
            sha256: self.sha256@,
            payload: self.payload@,
        }
    }
}

impl Record for TaskInput {
    fn dup(&self) -> (r: Self) {
        let r = TaskInput {
            input_id: self.input_id.clone(),
            ordinal: self.ordinal,
            media_type: self.media_type.clone(),
            byte_length: self.byte_length,
            sha256: self.sha256.clone(),
            payload: copy_bytes(&self.payload),
        };
        r
    }
}

/// An output of a task, with its bytes.
#[derive(Debug, Clone, PartialEq, Eq)]
pub struct TaskOutput {
    pub artifact_id: String,
    pub ordinal: i64,
    pub role: String,
    pub media_type: String,
    pub byte_length: i64,
    pub sha256: String,
    pub payload: Vec<u8>,
}

/// The view of [`TaskOutput`].
#[verifier::ext_equal]
pub struct TaskOutputView {
    pub artifact_id: Seq<char>,
    pub ordinal: i64,
    pub role: Seq<char>,
    pub media_type: Seq<char>,
    pub byte_length: i64,
    pub sha256: Seq<char>,
    pub payload: Seq<u8>,
}

impl View for TaskOutput {
    type V = TaskOutputView;

    open spec fn view(&self) -> TaskOutputView {
        TaskOutputView {
            artifact_id: self.artifact_id@,
            ordinal: self.ordinal,
            role: self.role@,
            media_type: self.media_type@,
            byte_length: self.byte_length,
            sha256: self.sha256@,
            payload: self.payload@,
        }
    }
}

impl Record for TaskOutput {
    fn dup(&self) -> (r: Self) {
        let r = TaskOutput {
            artifact_id: self.artifact_id.clone(),
            ordinal: self.ordinal,
            role: self.role.clone(),
            media_type: self.media_type.clone(),
            byte_length: self.byte_length,
            sha256: self.sha256.clone(),
            payload: copy_bytes(&self.payload),
        };
        r
    }
}

/// One output that is to be stored with the disposition that covers it.
#[derive(Debug, Clone, Copy)]
pub struct NewTaskOutput<'a> {
    pub artifact_id: &'a str,
    pub ordinal: i64,
    pub role: &'a str,
    pub media_type: &'a str,
    pub byte_length: i64,
    pub sha256: &'a str,
    pub payload: &'a [u8],
}

impl<'a> View for NewTaskOutput<'a> {
    type V = TaskOutputView;

    open spec fn view(&self) -> TaskOutputView {
        TaskOutputView {
            artifact_id: self.artifact_id@,
            ordinal: self.ordinal,
            role: self.role@,
            media_type: self.media_type@,
            byte_length: self.byte_length,
            sha256: self.sha256@,
            payload: self.payload@,
        }
    }
}

/// What came of recording a disposition.
#[derive(Debug, Clone, PartialEq, Eq)]
pub enum OutcomeWrite {
    /// It is stored, with the outputs.
    Recorded,
    /// There was one for this contract; nothing was written, and this is its digest.
    AlreadyRecorded { outcome_digest: String },
}

/// A sent task as callers see it.
pub open spec fn sent_shown(digest: Seq<char>, row: SentRowView) -> SentRequestView {
    SentRequestView {
        contract_digest: digest,
        task_id: row.task_id,
        context_id: row.context_id,
        performer_root: row.performer_root,
        contract_id: row.contract_id,
        performer_agent: row.performer_agent,
        performer_issuer: row.performer_issuer,
        message_id: row.message_id,
    }
}

/// Sent tasks in the order in which they were sent.
pub open spec fn by_sent(a: (Seq<char>, SentRowView), b: (Seq<char>, SentRowView)) -> bool {
    a.1.requested_at <= b.1.requested_at
}

/// The state with a sent task recorded, unless its contract was sent before.
pub open spec fn with_sent(v: StoreView, req: SentRequestView, now: i64) -> StoreView {
    if v.sent_requests.contains_key(req.contract_digest) {
        v
    } else {
        StoreView {
            sent_requests: v.sent_requests.insert(
                req.contract_digest,
                SentRowView {
                    task_id: req.task_id,
                    context_id: req.context_id,
                    performer_root: req.performer_root,
                    contract_id: req.contract_id,
                    performer_agent: req.performer_agent,
                    performer_issuer: req.performer_issuer,
                    message_id: req.message_id,
                    requested_at: now,
                },
            ),
            ..v
        }.audited(now, "request.sent"@, req.contract_digest)
    }
}

/// A disposition as a list shows it.
pub open spec fn outcome_shown(digest: Seq<char>, row: OutcomeRowView) -> OutcomeSummaryView {
    OutcomeSummaryView {
        task_id: row.task_id,
        contract_digest: digest,
        bundle_digest: row.bundle_digest,
        state: row.state,
        outcome_digest: row.outcome_digest,
    }
}

/// Dispositions in the order in which they were recorded.
pub open spec fn by_recorded(
    a: (Seq<char>, OutcomeRowView),
    b: (Seq<char>, OutcomeRowView),
) -> bool {
    a.1.recorded_at <= b.1.recorded_at
}

/// The state with a disposition stored under its contract.
pub open spec fn with_outcome(v: StoreView, digest: Seq<char>, row: OutcomeRowView) -> StoreView {
    StoreView { outcomes: v.outcomes.insert(digest, row), ..v }
}

/// An input of a task as callers see it.
pub open spec fn input_shown(k: (Seq<char>, Seq<char>), row: InputRowView) -> TaskInputView {
    TaskInputView {
        input_id: k.1,
        ordinal: row.ordinal,
        media_type: row.media_type,
        byte_length: row.byte_length,
        sha256: row.sha256,
        payload: row.payload,
    }
}

/// Inputs in the order of the manifest.
pub open spec fn by_input_ordinal(
    a: ((Seq<char>, Seq<char>), InputRowView),
    b: ((Seq<char>, Seq<char>), InputRowView),
) -> bool {
    a.1.ordinal <= b.1.ordinal
}

/// An output of a task as callers see it.
pub open spec fn output_shown(k: (Seq<char>, Seq<char>), row: OutputRowView) -> TaskOutputView {
    TaskOutputView {
        artifact_id: k.1,
        ordinal: row.ordinal,
        role: row.role,
        media_type: row.media_type,
        byte_length: row.byte_length,
        sha256: row.sha256,
        payload: row.payload,
    }
}

/// Outputs in the order of the manifest.
pub open spec fn by_output_ordinal(
    a: ((Seq<char>, Seq<char>), OutputRowView),
    b: ((Seq<char>, Seq<char>), OutputRowView),
) -> bool {
    a.1.ordinal <= b.1.ordinal
}

/// The row of an output.
pub open spec fn output_row(o: TaskOutputView) -> OutputRowView {
    OutputRowView {
        ordinal: o.ordinal,
        role: o.role,
        media_type: o.media_type,
        byte_length: o.byte_length,
        sha256: o.sha256,
        payload: o.payload,
    }
}

/// The outputs with new ones among them.
pub open spec fn with_outputs(
    m: Map<(Seq<char>, Seq<char>), OutputRowView>,
    task_id: Seq<char>,
    outputs: Seq<TaskOutputView>,
) -> Map<(Seq<char>, Seq<char>), OutputRowView>
    decreases outputs.len(),
{
    if outputs.len() == 0 {
        m
    } else {
        with_outputs(m, task_id, outputs.drop_last()).insert(
            (task_id, outputs.last().artifact_id),
            output_row(outputs.last()),
        )
    }
}

/// No output of the task is stored under the id of a new one, and no two new ones
/// share an id.
pub open spec fn are_new_outputs(
    m: Map<(Seq<char>, Seq<char>), OutputRowView>,
    task_id: Seq<char>,
    outputs: Seq<TaskOutputView>,
) -> bool {
    &&& forall|i: int|
        0 <= i < outputs.len() ==> !m.contains_key(
            (task_id, (#[trigger] outputs[i]).artifact_id),
        )
    &&& forall|i: int, j: int|
        0 <= i < j < outputs.len() ==> (#[trigger] outputs[i]).artifact_id != (
        #[trigger] outputs[j]).artifact_id
}

/// The state with a disposition and the outputs that it covers, stored in one step.
pub open spec fn with_covered_outcome(
    v: StoreView,
    digest: Seq<char>,
    row: OutcomeRowView,
    outputs: Seq<TaskOutputView>,
    now: i64,
) -> StoreView {
    let w = StoreView {
        task_outputs: with_outputs(v.task_outputs, row.task_id, outputs),
        ..with_outcome(v, digest, row)
    };
    let noted = if outputs.len() > 0 {
        w.audited(now, "task.output_stored"@, row.task_id)
    } else {
        w
    };
    noted.audited(now, "outcome.signed"@, row.outcome_digest)
}

/// The sent requests, in the order in which they were sent.
pub open spec fn sent_listed(v: StoreView, list: Seq<SentRequestView>) -> bool {
    table::lists(
        list,
        v.sent_requests,
        |k: Seq<char>, row: SentRowView| true,
        |k: Seq<char>, row: SentRowView| sent_shown(k, row),
        |a: (Seq<char>, SentRowView), b: (Seq<char>, SentRowView)| by_sent(a, b),
    )
}

/// The outcomes, in the order in which they were recorded.
pub open spec fn outcomes_listed(v: StoreView, list: Seq<OutcomeSummaryView>) -> bool {
    table::lists(
        list,
        v.outcomes,
        |k: Seq<char>, row: OutcomeRowView| true,
        |k: Seq<char>, row: OutcomeRowView| outcome_shown(k, row),
        |a: (Seq<char>, OutcomeRowView), b: (Seq<char>, OutcomeRowView)| by_recorded(a, b),
    )
}

/// The outputs of a task, in their order.
pub open spec fn outputs_listed(v: StoreView, task_id: Seq<char>, list: Seq<TaskOutputView>) -> bool {
    table::lists(
        list,
        v.task_outputs,
        |k: (Seq<char>, Seq<char>), row: OutputRowView| k.0 == task_id,
        |k: (Seq<char>, Seq<char>), row: OutputRowView| output_shown(k, row),
        |a: ((Seq<char>, Seq<char>), OutputRowView), b: ((Seq<char>, Seq<char>), OutputRowView)| by_output_ordinal(a, b),
    )
}

/// The inputs of a task, in their order.
pub open spec fn inputs_listed(v: StoreView, task_id: Seq<char>, list: Seq<TaskInputView>) -> bool {
    table::lists(
        list,
        v.task_inputs,
        |k: (Seq<char>, Seq<char>), row: InputRowView| k.0 == task_id,
        |k: (Seq<char>, Seq<char>), row: InputRowView| input_shown(k, row),
        |a: ((Seq<char>, Seq<char>), InputRowView), b: ((Seq<char>, Seq<char>), InputRowView)| by_input_ordinal(a, b),
    )
}

impl Store {
    /// Records a sent task; the first record of a contract stands.
    pub fn put_sent_request(&mut self, req: &SentRequest, now: i64) -> (r: Result<(), StoreError>)
        requires
            old(self).wf(),
        ensures
            r is Ok,
            final(self).wf(),
            final(self)@ == with_sent(old(self)@, req@, now),
    {
        if !self.sent_requests.has(&req.contract_digest) {
            self.sent_requests.put(
                req.contract_digest.clone(),
                SentRow {
                    task_id: req.task_id.clone(),
                    context_id: req.context_id.clone(),
                    performer_root: req.performer_root.clone(),
                    contract_id: req.contract_id.clone(),
                    performer_agent: req.performer_agent.clone(),
                    performer_issuer: req.performer_issuer.clone(),
                    message_id: req.message_id.clone(),
                    requested_at: now,
                },
            );
            let _ = self.audit.append(now, "request.sent", &req.contract_digest);
        }
        Ok(())
    }

    fn sent_request(digest: &str, row: &SentRow) -> (r: SentRequest)
        ensures
            r@ == sent_shown(digest@, row@),
    {
        SentRequest {
            contract_digest: digest.to_owned(),
            task_id: row.task_id.clone(),
            context_id: row.context_id.clone(),
            performer_root: row.performer_root.clone(),
            contract_id: row.contract_id.clone(),
            performer_agent: row.performer_agent.clone(),
            performer_issuer: row.performer_issuer.clone(),
            message_id: row.message_id.clone(),
        }
    }

    /// The task that was sent under a contract.
    pub fn get_sent_request(&self, contract_digest: &str) -> (r: Result<
        Option<SentRequest>,
        StoreError,
    >)
        requires
            self.wf(),
        ensures
            match r {
                Ok(Some(req)) => self@.sent_requests.contains_key(contract_digest@) && req@
                    == sent_shown(contract_digest@, self@.sent_requests[contract_digest@]),
                Ok(None) => !self@.sent_requests.contains_key(contract_digest@),
                Err(_) => false,
            },
    {
        match self.sent_requests.get(&contract_digest.to_owned()) {
            Some(row) => Ok(Some(Self::sent_request(contract_digest, row))),
            None => Ok(None),
        }
    }

    /// The sent tasks, in the order in which they were sent.
    pub fn list_sent_requests(&self) -> (r: Result<Vec<SentRequest>, StoreError>)
        requires
            self.wf(),
        ensures
            match r {
                Ok(list) => sent_listed(self@, table::seen(list@)),
                Err(_) => false,
            },
    {
        let ghost keep = |k: Seq<char>, v: SentRowView| true;
        let ghost show = |k: Seq<char>, v: SentRowView| sent_shown(k, v);
        let ghost le = |a: (Seq<char>, SentRowView), b: (Seq<char>, SentRowView)| by_sent(a, b);
        proof {
            self.sent_requests.lemma_entries();
        }
        let kept = |k: &String, v: &SentRow| -> (r: bool)
            ensures (r == (true))
        {
            true
        };
        let no_later = |k: &String, v: &SentRow, l: &String, w: &SentRow| -> (r: bool)
            ensures (r == by_sent((k@, v@), (l@, w@)))
        {
            v.requested_at <= w.requested_at
        };
        let p = self.sent_requests.ordered(kept, no_later, Ghost(keep), Ghost(le));
        let ghost rows = self.sent_requests.entries();
        let mut list: Vec<SentRequest> = Vec::new();
        let mut i: usize = 0;
        while i < p.len()
            invariant
                rows == self.sent_requests.entries(),
                table::picks(p@, rows, keep, le),
                i <= p@.len(),
                list@.len() == i,
                forall|j: int|
                    0 <= j < i ==> (#[trigger] list@[j])@ == sent_shown(
                        rows[p@[j] as int].0,
                        rows[p@[j] as int].1,
                    ),
            decreases p@.len() - i,
        {
            assert(p@[i as int] < rows.len());
            let k = self.sent_requests.key_at(p[i]);
            let row = self.sent_requests.value_at(p[i]);
            list.push(Self::sent_request(k, row));
            i = i + 1;
        }
        proof {
            table::lemma_picks_list(p@, rows, keep, le, show, table::seen(list@));
        }
        Ok(list)
    }

    /// Records the signed disposition of a result; the first one of a contract
    /// stands.
    pub fn put_outcome(
        &mut self,
        contract_digest: &str,
        task_id: &str,
        bundle_digest: &str,
        outcome_digest: &str,
        state: &str,
        outcome_envelope: &[u8],
        signed_at: &str,
        now: i64,
    ) -> (r: Result<(), StoreError>)
        requires
            old(self).wf(),
        ensures
            r is Ok,
            final(self).wf(),
            final(self)@ == (if old(self)@.outcomes.contains_key(contract_digest@) {
                old(self)@
            } else {
                with_outcome(
                    old(self)@,
                    contract_digest@,
                    OutcomeRowView {
                        task_id: task_id@,
                        bundle_digest: bundle_digest@,
                        outcome_digest: outcome_digest@,
                        state: state@,
                        outcome: outcome_envelope@,
                        signed_at: signed_at@,
                        recorded_at: now,
                    },
                ).audited(now, "outcome.signed"@, outcome_digest@)
            }),
    {
        let k = contract_digest.to_owned();
        if !self.outcomes.has(&k) {
            self.outcomes.put(
                k,
                OutcomeRow {
                    task_id: task_id.to_owned(),
                    bundle_digest: bundle_digest.to_owned(),
                    outcome_digest: outcome_digest.to_owned(),
                    state: state.to_owned(),
                    outcome: bytes_of(outcome_envelope),
                    signed_at: signed_at.to_owned(),
                    recorded_at: now,
                },
            );
            let _ = self.audit.append(now, "outcome.signed", outcome_digest);
        }
        Ok(())
    }

    /// The digest and the signed disposition of a contract.
    pub fn get_outcome(&self, contract_digest: &str) -> (r: Result<
        Option<(String, Vec<u8>)>,
        StoreError,
    >)
        requires
            self.wf(),
        ensures
            match r {
                Ok(Some((digest, envelope))) => self@.outcomes.contains_key(contract_digest@)
                    && digest@ == self@.outcomes[contract_digest@].outcome_digest && envelope@
                    == self@.outcomes[contract_digest@].outcome,
                Ok(None) => !self@.outcomes.contains_key(contract_digest@),
                Err(_) => false,
            },
    {
        match self.outcomes.get(&contract_digest.to_owned()) {
            Some(row) => Ok(Some((row.outcome_digest.clone(), copy_bytes(&row.outcome)))),
            None => Ok(None),
        }
    }

    /// The dispositions, in the order in which they were recorded.
    pub fn list_outcomes(&self) -> (r: Result<Vec<OutcomeSummary>, StoreError>)
        requires
            self.wf(),
        ensures
            match r {
                Ok(list) => outcomes_listed(self@, table::seen(list@)),
                Err(_) => false,
            },
    {
        let ghost keep = |k: Seq<char>, v: OutcomeRowView| true;
        let ghost show = |k: Seq<char>, v: OutcomeRowView| outcome_shown(k, v);
        let ghost le = |a: (Seq<char>, OutcomeRowView), b: (Seq<char>, OutcomeRowView)| by_recorded(a, b);
        proof {
            self.outcomes.lemma_entries();
        }
        let kept = |k: &String, v: &OutcomeRow| -> (r: bool)
            ensures (r == (true))
        {
            true
        };
        let no_later = |k: &String, v: &OutcomeRow, l: &String, w: &OutcomeRow| -> (r: bool)
            ensures (r == by_recorded((k@, v@), (l@, w@)))
        {
            v.recorded_at <= w.recorded_at
        };
        let p = self.outcomes.ordered(kept, no_later, Ghost(keep), Ghost(le));
        let ghost rows = self.outcomes.entries();
        let mut list: Vec<OutcomeSummary> = Vec::new();
        let mut i: usize = 0;
        while i < p.len()
            invariant
                rows == self.outcomes.entries(),
                table::picks(p@, rows, keep, le),
                i <= p@.len(),
                list@.len() == i,
                forall|j: int|
                    0 <= j < i ==> (#[trigger] list@[j])@ == outcome_shown(
                        rows[p@[j] as int].0,
                        rows[p@[j] as int].1,
                    ),
            decreases p@.len() - i,
        {
            assert(p@[i as int] < rows.len());
            let k = self.outcomes.key_at(p[i]);
            let row = self.outcomes.value_at(p[i]);
            list.push(
                OutcomeSummary {
                    task_id: row.task_id.clone(),
                    contract_digest: k.clone(),
                    bundle_digest: row.bundle_digest.clone(),
                    state: row.state.clone(),
                    outcome_digest: row.outcome_digest.clone(),
                },
            );
            i = i + 1;
        }
        proof {
            table::lemma_picks_list(p@, rows, keep, le, show, table::seen(list@));
        }
        Ok(list)
    }

    /// Stores an input of a task; the first one of an id stands.
    pub fn put_task_input(
        &mut self,
        task_id: &str,
        input_id: &str,
        ordinal: i64,
        media_type: &str,
        byte_length: i64,
        sha256: &str,
        payload: &[u8],
        now: i64,
    ) -> (r: Result<(), StoreError>)
        requires
            old(self).wf(),
        ensures
            r is Ok,
            final(self).wf(),
            final(self)@ == (StoreView {
                task_inputs: if old(self)@.task_inputs.contains_key((task_id@, input_id@)) {
                    old(self)@.task_inputs
                } else {
                    old(self)@.task_inputs.insert(
                        (task_id@, input_id@),
                        InputRowView {
                            ordinal,
                            media_type: media_type@,
                            byte_length,
                            sha256: sha256@,
                            payload: payload@,
                        },
                    )
                },
                ..old(self)@
            }).audited(now, "task.input_stored"@, task_id@),
    {
        let k = pair(task_id, input_id);
        if !self.task_inputs.has(&k) {
            self.task_inputs.put(
                k,
                InputRow {
                    ordinal,
                    media_type: media_type.to_owned(),
                    byte_length,
                    sha256: sha256.to_owned(),
                    payload: bytes_of(payload),
                },
            );
        }
        let _ = self.audit.append(now, "task.input_stored", task_id);
        Ok(())
    }

    /// The inputs of a task, in the order of the manifest.
    pub fn list_task_inputs(&self, task_id: &str) -> (r: Result<Vec<TaskInput>, StoreError>)
        requires
            self.wf(),
        ensures
            match r {
                Ok(list) => inputs_listed(self@, task_id@, table::seen(list@)),
                Err(_) => false,
            },
    {
        let ghost keep = |k: (Seq<char>, Seq<char>), v: InputRowView| k.0 == task_id@;
        let ghost show = |k: (Seq<char>, Seq<char>), v: InputRowView| input_shown(k, v);
        let ghost le = |a: ((Seq<char>, Seq<char>), InputRowView), b: ((Seq<char>, Seq<char>), InputRowView)| by_input_ordinal(a, b);
        proof {
            self.task_inputs.lemma_entries();
        }
        let kept = |k: &Pair, v: &InputRow| -> (r: bool)
            ensures (r == (k@.0 == task_id@))
        {
            same_text(&k.first, task_id)
        };
        let no_later = |k: &Pair, v: &InputRow, l: &Pair, w: &InputRow| -> (r: bool)
            ensures (r == by_input_ordinal((k@, v@), (l@, w@)))
        {
            v.ordinal <= w.ordinal
        };
        let p = self.task_inputs.ordered(kept, no_later, Ghost(keep), Ghost(le));
        let ghost rows = self.task_inputs.entries();
        let mut list: Vec<TaskInput> = Vec::new();
        let mut i: usize = 0;
        while i < p.len()
            invariant
                rows == self.task_inputs.entries(),
                table::picks(p@, rows, keep, le),
                i <= p@.len(),
                list@.len() == i,
                forall|j: int|
                    0 <= j < i ==> (#[trigger] list@[j])@ == input_shown(
                        rows[p@[j] as int].0,
                        rows[p@[j] as int].1,
                    ),
            decreases p@.len() - i,
        {
            assert(p@[i as int] < rows.len());
            let k = self.task_inputs.key_at(p[i]);
            let row = self.task_inputs.value_at(p[i]);
            list.push(
                TaskInput {
                    input_id: k.second.clone(),
                    ordinal: row.ordinal,
                    media_type: row.media_type.clone(),
                    byte_length: row.byte_length,
                    sha256: row.sha256.clone(),
                    payload: copy_bytes(&row.payload),
                },
            );
            i = i + 1;
        }
        proof {
            table::lemma_picks_list(p@, rows, keep, le, show, table::seen(list@));
        }
        Ok(list)
    }

    /// Stores an output of a task; the first one of an id stands.
    pub fn put_task_output(
        &mut self,
        task_id: &str,
        artifact_id: &str,
        ordinal: i64,
        role: &str,
        media_type: &str,
        byte_length: i64,
        sha256: &str,
        payload: &[u8],
        now: i64,
    ) -> (r: Result<(), StoreError>)
        requires
            old(self).wf(),
        ensures
            r is Ok,
            final(self).wf(),
            final(self)@ == (StoreView {
                task_outputs: if old(self)@.task_outputs.contains_key((task_id@, artifact_id@)) {
                    old(self)@.task_outputs
                } else {
                    old(self)@.task_outputs.insert(
                        (task_id@, artifact_id@),
                        OutputRowView {
                            ordinal,
                            role: role@,
                            media_type: media_type@,
                            byte_length,
                            sha256: sha256@,
                            payload: payload@,
                        },
                    )
                },
                ..old(self)@
            }).audited(now, "task.output_stored"@, task_id@),
    {
        let k = pair(task_id, artifact_id);
        if !self.task_outputs.has(&k) {
            self.task_outputs.put(
                k,
                OutputRow {
                    ordinal,
                    role: role.to_owned(),
                    media_type: media_type.to_owned(),
                    byte_length,
                    sha256: sha256.to_owned(),
                    payload: bytes_of(payload),
                },
            );
        }
        let _ = self.audit.append(now, "task.output_stored", task_id);
        Ok(())
    }

    fn check_new_outputs(&self, task_id: &str, outputs: &Vec<NewTaskOutput<'_>>) -> (r: bool)
        requires
            self.wf(),
        ensures
            r == are_new_outputs(self@.task_outputs, task_id@, table::seen(outputs@)),
    {
        let ghost o = table::seen(outputs@);
        let mut i: usize = 0;
        while i < outputs.len()
            invariant
                self.wf(),
                o == table::seen(outputs@),
                i <= outputs@.len(),
                forall|a: int|
                    0 <= a < i ==> !self@.task_outputs.contains_key(
                        (task_id@, (#[trigger] o[a]).artifact_id),
                    ),
                forall|a: int, b: int|
                    0 <= a < b < i ==> (#[trigger] o[a]).artifact_id != (
                    #[trigger] o[b]).artifact_id,
            decreases outputs@.len() - i,
        {
            assert(o[i as int] == outputs@[i as int]@);
            if self.task_outputs.has(&pair(task_id, outputs[i].artifact_id)) {
                return false;
            }
            let mut j: usize = 0;
            while j < i
                invariant
                    o == table::seen(outputs@),
                    i < outputs@.len(),
                    j <= i,
                    forall|a: int|
                        0 <= a < j ==> (#[trigger] o[a]).artifact_id != o[i as int].artifact_id,
                decreases i - j,
            {
                assert(o[j as int] == outputs@[j as int]@ && o[i as int] == outputs@[i as int]@);
                if same_text(outputs[j].artifact_id, outputs[i].artifact_id) {
                    assert(!are_new_outputs(self@.task_outputs, task_id@, o));
                    return false;
                }
                j = j + 1;
            }
            i = i + 1;
        }
        true
    }

    /// Records a disposition together with every output that it covers, or nothing
    /// at all. A disposition of this contract that is there already stands. An
    /// output whose id is taken, or two of one id, are refused.
    pub fn record_outcome_with_outputs(
        &mut self,
        contract_digest: &str,
        task_id: &str,
        bundle_digest: &str,
        outcome_digest: &str,
        state: &str,
        outcome_envelope: &[u8],
        outputs: &Vec<NewTaskOutput<'_>>,
        signed_at: &str,
        now: i64,
    ) -> (r: Result<OutcomeWrite, StoreError>)
        requires
            old(self).wf(),
        ensures
            final(self).wf(),
            match r {
                Ok(OutcomeWrite::AlreadyRecorded { outcome_digest: stored }) => old(
                    self,
                )@.outcomes.contains_key(contract_digest@) && stored@
                    == old(self)@.outcomes[contract_digest@].outcome_digest && final(self)@
                    == old(self)@,
                Ok(OutcomeWrite::Recorded) => !old(self)@.outcomes.contains_key(contract_digest@)
                    && are_new_outputs(old(self)@.task_outputs, task_id@, table::seen(outputs@))
                    && final(self)@ == with_covered_outcome(
                    old(self)@,
                    contract_digest@,
                    OutcomeRowView {
                        task_id: task_id@,
                        bundle_digest: bundle_digest@,
                        outcome_digest: outcome_digest@,
                        state: state@,
                        outcome: outcome_envelope@,
                        signed_at: signed_at@,
                        recorded_at: now,
                    },
                    table::seen(outputs@),
                    now,
                ),
                Err(e) => e is Corrupt && !old(self)@.outcomes.contains_key(contract_digest@)
                    && !are_new_outputs(old(self)@.task_outputs, task_id@, table::seen(outputs@))
                    && final(self)@ == old(self)@,
            },
    {
        let k = contract_digest.to_owned();
        match self.outcomes.get(&k) {
            Some(row) => {
                return Ok(
                    OutcomeWrite::AlreadyRecorded { outcome_digest: row.outcome_digest.clone() },
                );
            },
            None => {},
        }
        if !self.check_new_outputs(task_id, outputs) {
            return Err(StoreError::Corrupt("an output id is not unique".to_owned()));
        }
        let mut i: usize = 0;
        let ghost all = table::seen(outputs@);
        assert(with_outputs(self@.task_outputs, task_id@, all.take(0)) == self@.task_outputs);
        while i < outputs.len()
            invariant
                all == table::seen(outputs@),
                i <= outputs@.len(),
                old(self).wf(),
                self.wf(),
                self@ == (StoreView {
                    task_outputs: with_outputs(
                        old(self)@.task_outputs,
                        task_id@,
                        all.take(i as int),
                    ),
                    ..old(self)@
                }),
            decreases outputs@.len() - i,
        {
            let o = &outputs[i];
            assert(all[i as int] == o@);
            self.task_outputs.put(
                pair(task_id, o.artifact_id),
                OutputRow {
                    ordinal: o.ordinal,
                    role: o.role.to_owned(),
                    media_type: o.media_type.to_owned(),
                    byte_length: o.byte_length,
                    sha256: o.sha256.to_owned(),
                    payload: bytes_of(o.payload),
                },
            );
            assert(all.take(i + 1).drop_last() =~= all.take(i as int));
            i = i + 1;
        }
        assert(all.take(i as int) =~= all);
        self.outcomes.put(
            k,
            OutcomeRow {
                task_id: task_id.to_owned(),
                bundle_digest: bundle_digest.to_owned(),
                outcome_digest: outcome_digest.to_owned(),
                state: state.to_owned(),
                outcome: bytes_of(outcome_envelope),
                signed_at: signed_at.to_owned(),
                recorded_at: now,
            },
        );
        if outputs.len() > 0 {
            let _ = self.audit.append(now, "task.output_stored", task_id);
        }
        let _ = self.audit.append(now, "outcome.signed", outcome_digest);
        Ok(OutcomeWrite::Recorded)
    }

    /// The outputs of a task, in the order of the manifest.
    pub fn list_task_outputs(&self, task_id: &str) -> (r: Result<Vec<TaskOutput>, StoreError>)
        requires
            self.wf(),
        ensures
            match r {
                Ok(list) => outputs_listed(self@, task_id@, table::seen(list@)),
                Err(_) => false,
            },
    {
        let ghost keep = |k: (Seq<char>, Seq<char>), v: OutputRowView| k.0 == task_id@;
        let ghost show = |k: (Seq<char>, Seq<char>), v: OutputRowView| output_shown(k, v);
        let ghost le = |a: ((Seq<char>, Seq<char>), OutputRowView), b: ((Seq<char>, Seq<char>), OutputRowView)| by_output_ordinal(a, b);
        proof {
            self.task_outputs.lemma_entries();
        }
        let kept = |k: &Pair, v: &OutputRow| -> (r: bool)
            ensures (r == (k@.0 == task_id@))
        {
            same_text(&k.first, task_id)
        };
        let no_later = |k: &Pair, v: &OutputRow, l: &Pair, w: &OutputRow| -> (r: bool)
            ensures (r == by_output_ordinal((k@, v@), (l@, w@)))
        {
            v.ordinal <= w.ordinal
        };
        let p = self.task_outputs.ordered(kept, no_later, Ghost(keep), Ghost(le));
        let ghost rows = self.task_outputs.entries();
        let mut list: Vec<TaskOutput> = Vec::new();
        let mut i: usize = 0;
        while i < p.len()
            invariant
                rows == self.task_outputs.entries(),
                table::picks(p@, rows, keep, le),
                i <= p@.len(),
                list@.len() == i,
                forall|j: int|
                    0 <= j < i ==> (#[trigger] list@[j])@ == output_shown(
                        rows[p@[j] as int].0,
                        rows[p@[j] as int].1,
                    ),
            decreases p@.len() - i,
        {
            assert(p@[i as int] < rows.len());
            let k = self.task_outputs.key_at(p[i]);
            let row = self.task_outputs.value_at(p[i]);
            list.push(
                TaskOutput {
                    artifact_id: k.second.clone(),
                    ordinal: row.ordinal,
                    role: row.role.clone(),
                    media_type: row.media_type.clone(),
                    byte_length: row.byte_length,
                    sha256: row.sha256.clone(),
                    payload: copy_bytes(&row.payload),
                },
            );
            i = i + 1;
        }
        proof {
            table::lemma_picks_list(p@, rows, keep, le, show, table::seen(list@));
        }
        Ok(list)
    }
}

proof fn lemma_with_outputs(
    m: Map<(Seq<char>, Seq<char>), OutputRowView>,
    task_id: Seq<char>,
    outputs: Seq<TaskOutputView>,
)
    requires
        forall|i: int, j: int|
            0 <= i < j < outputs.len() ==> (#[trigger] outputs[i]).artifact_id != (
            #[trigger] outputs[j]).artifact_id,
    ensures
        forall|i: int|
            0 <= i < outputs.len() ==> with_outputs(m, task_id, outputs).contains_key(
                (task_id, (#[trigger] outputs[i]).artifact_id),
            ) && with_outputs(m, task_id, outputs)[(task_id, outputs[i].artifact_id)]
                == output_row(outputs[i]),
        forall|k: (Seq<char>, Seq<char>)|
            m.contains_key(k) && (forall|i: int|
                0 <= i < outputs.len() ==> (#[trigger] outputs[i]).artifact_id != k.1) ==> (
            #[trigger] with_outputs(m, task_id, outputs).contains_key(k)) && with_outputs(
                m,
                task_id,
                outputs,
            )[k] == m[k],
    decreases outputs.len(),
{
    if outputs.len() > 0 {
        let less = outputs.drop_last();
        lemma_with_outputs(m, task_id, less);
        assert forall|i: int| 0 <= i < outputs.len() implies with_outputs(
            m,
            task_id,
            outputs,
        ).contains_key((task_id, (#[trigger] outputs[i]).artifact_id)) && with_outputs(
            m,
            task_id,
            outputs,
        )[(task_id, outputs[i].artifact_id)] == output_row(outputs[i]) by {
            if i < less.len() {
                assert(less[i] == outputs[i]);
                assert(outputs[i].artifact_id != outputs[outputs.len() - 1].artifact_id);
            }
        }
        assert forall|k: (Seq<char>, Seq<char>)|
            m.contains_key(k) && (forall|i: int|
                0 <= i < outputs.len() ==> (#[trigger] outputs[i]).artifact_id != k.1) implies (
        #[trigger] with_outputs(m, task_id, outputs).contains_key(k)) && with_outputs(
            m,
            task_id,
            outputs,
        )[k] == m[k] by {
            assert forall|i: int| 0 <= i < less.len() implies (#[trigger] less[i]).artifact_id
                != k.1 by {
                assert(less[i] == outputs[i]);
            }
            assert(outputs[outputs.len() - 1].artifact_id != k.1);
            assert(with_outputs(m, task_id, less).contains_key(k));
        }
    }
}

/// An accepted disposition means that exactly the bytes it covers are held: each of
/// its outputs is stored as it was delivered.
pub proof fn accepted_outputs_are_held(
    v: StoreView,
    digest: Seq<char>,
    row: OutcomeRowView,
    outputs: Seq<TaskOutputView>,
    now: i64,
    i: int,
)
    requires
        are_new_outputs(v.task_outputs, row.task_id, outputs),
        0 <= i < outputs.len(),
    ensures
        ({
            let w = with_covered_outcome(v, digest, row, outputs, now);
            &&& w.outcomes.contains_key(digest)
            &&& w.outcomes[digest] == row
            &&& w.task_outputs.contains_key((row.task_id, outputs[i].artifact_id))
            &&& w.task_outputs[(row.task_id, outputs[i].artifact_id)] == output_row(outputs[i])
        }),
{
    lemma_with_outputs(v.task_outputs, row.task_id, outputs);
}

/// The first disposition of a contract stands: a delivery that comes again finds it
/// and changes nothing.
pub proof fn the_first_disposition_stands(
    v: StoreView,
    digest: Seq<char>,
    row: OutcomeRowView,
    outputs: Seq<TaskOutputView>,
    now: i64,
)
    ensures
        with_covered_outcome(v, digest, row, outputs, now).outcomes.contains_key(digest),
        with_covered_outcome(v, digest, row, outputs, now).outcomes[digest].outcome_digest
            == row.outcome_digest,
{
}

} // verus!
