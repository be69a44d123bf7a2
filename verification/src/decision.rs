//! The operator's decision on a submitted task.
//!
//! A decision is bound to the exact revision that it was made on, and is signed
//! before anything changes. To accept locks the head; to reject or to ask for a
//! revision leaves it open.
use crate::contract::{ContractView, HeadState, HeadStateView, HeadView, Identity, IdentityView};
use crate::control::{Problem, ProblemView};
use crate::control;
use crate::issue;
use crate::store::contracts;
use crate::store::{Store, StoreView};
use crate::table::Record;
use crate::text::{copy_bytes, copy_option};
use crate::text;
use vstd::prelude::*;

verus! {

/// What the operator decides.
#[derive(Debug, Clone, Copy, PartialEq, Eq, Structural)]
pub enum DecisionKind {
    Accept,
    Reject,
    RequestRevision,
}

/// A decision, as it is signed. The time is RFC 3339.
#[derive(Debug, Clone, PartialEq, Eq)]
pub struct Decision {
    pub schema_version: u32,
    pub decision: DecisionKind,
    pub contract_id: String,
    pub contract_revision: u64,
    pub contract_digest: String,
    pub task_id: String,
    pub context_id: String,
    pub decider: Identity,
    pub reason_code: Option<String>,
    pub note: Option<String>,
    pub decided_at: String,
}

/// The view of [`Decision`].
#[verifier::ext_equal]
pub struct DecisionView {
    pub schema_version: u32,
    pub decision: DecisionKind,
    pub contract_id: Seq<char>,
    pub contract_revision: u64,
    pub contract_digest: Seq<char>,
    pub task_id: Seq<char>,
    pub context_id: Seq<char>,
    pub decider: IdentityView,
    pub reason_code: Option<Seq<char>>,
    pub note: Option<Seq<char>>,
    pub decided_at: Seq<char>,
}

impl View for Decision {
    type V = DecisionView;

    open spec fn view(&self) -> DecisionView {
        DecisionView {
            schema_version: self.schema_version,
            decision: self.decision,
            contract_id: self.contract_id@,
            contract_revision: self.contract_revision,
            contract_digest: self.contract_digest@,
            task_id: self.task_id@,
            context_id: self.context_id@,
            decider: self.decider@,
            reason_code: text::view_option(self.reason_code),
            note: text::view_option(self.note),
            decided_at: self.decided_at@,
        }
    }
}

impl Record for Decision {
    fn dup(&self) -> (r: Self) {
        let r = Decision {
            schema_version: self.schema_version,
            decision: self.decision,
            contract_id: self.contract_id.clone(),
            contract_revision: self.contract_revision,
            contract_digest: self.contract_digest.clone(),
            task_id: self.task_id.clone(),
            context_id: self.context_id.clone(),
            decider: self.decider.dup(),
            reason_code: copy_option(&self.reason_code),
            note: copy_option(&self.note),
            decided_at: self.decided_at.clone(),
        };
        r
    }
}

/// A recorded decision.
#[derive(Debug, Clone, PartialEq, Eq)]
pub struct DecisionRecord {
    pub task_id: String,
    pub kind: DecisionKind,
    /// The signed decision, ready to be delivered.
    pub decision: Vec<u8>,
    /// Whether the head was locked.
    pub accepted: bool,
}

/// The view of [`DecisionRecord`].
#[verifier::ext_equal]
pub struct DecisionRecordView {
    pub task_id: Seq<char>,
    pub kind: DecisionKind,
    pub decision: Seq<u8>,
    pub accepted: bool,
}

impl View for DecisionRecord {
    type V = DecisionRecordView;

    open spec fn view(&self) -> DecisionRecordView {
        DecisionRecordView {
            task_id: self.task_id@,
            kind: self.kind,
            decision: self.decision@,
            accepted: self.accepted,
        }
    }
}

impl Record for DecisionRecord {
    fn dup(&self) -> (r: Self) {
        let r = DecisionRecord {
            task_id: self.task_id.clone(),
            kind: self.kind,
            decision: copy_bytes(&self.decision),
            accepted: self.accepted,
        };
        r
    }
}


/// The head and the terms of a task that awaits a decision.
pub open spec fn open_terms(v: StoreView, task_id: Seq<char>) -> Result<
    (HeadView, ContractView),
    ProblemView,
> {
    match contracts::head_state(v, task_id) {
        HeadStateView::Locked(_) => Err(
            control::problem_of(409, "already-decided"@, "the task is already accepted"@),
        ),
        HeadStateView::Empty => Err(control::problem_of(404, "no-such-task"@, "no such task"@)),
        HeadStateView::Open(head) => if !v.contracts.contains_key(head.digest) {
            Err(control::problem_of(404, "no-such-task"@, "no such task"@))
        } else {
            match v.contracts[head.digest].contract {
                Some(c) => Ok((head, c)),
                None => Err(issue::unreadable_contract()),
            }
        },
    }
}

/// The decision that is to be signed, or why there is nothing to decide.
pub open spec fn decision_due(
    v: StoreView,
    task_id: Seq<char>,
    kind: DecisionKind,
    reason_code: Option<Seq<char>>,
    note: Option<Seq<char>>,
    decider: IdentityView,
    decided_at: Seq<char>,
) -> Result<DecisionView, ProblemView> {
    match open_terms(v, task_id) {
        Err(p) => Err(p),
        Ok((head, c)) => Ok(
            DecisionView {
                schema_version: 1,
                decision: kind,
                contract_id: c.contract_id,
                contract_revision: head.revision,
                contract_digest: head.digest,
                task_id,
                context_id: v.heads[task_id].context_id,
                decider,
                reason_code,
                note,
                decided_at,
            },
        ),
    }
}

/// What comes of a decision once it went to be signed. Unsigned, nothing happens.
pub open spec fn recorded(
    v: StoreView,
    w: StoreView,
    decision: DecisionView,
    signed: Option<Vec<u8>>,
    now: i64,
    r: Result<DecisionRecord, Problem>,
) -> bool {
    match signed {
        None => w == v && match r {
            Err(p) => p@ == control::problem_of(
                500,
                "sign-failed"@,
                "the decision could not be signed"@,
            ),
            Ok(_) => false,
        },
        Some(envelope) => {
            let accepts = decision.decision is Accept;
            &&& w == if accepts {
                contracts::with_lock(v, decision.task_id).audited(
                    now,
                    "contract.accepted"@,
                    decision.contract_digest,
                )
            } else {
                v
            }
            &&& match r {
                Ok(record) => record@ == (DecisionRecordView {
                    task_id: decision.task_id,
                    kind: decision.decision,
                    decision: envelope@,
                    accepted: accepts,
                }),
                Err(_) => false,
            }
        },
    }
}

/// What comes of deciding: where a decision is due, that decision goes to `sign`,
/// and what comes back is recorded.
pub open spec fn decides<F: Fn(&Decision) -> Option<Vec<u8>>>(
    v: StoreView,
    w: StoreView,
    due: Result<DecisionView, ProblemView>,
    sign: F,
    now: i64,
    r: Result<DecisionRecord, Problem>,
) -> bool {
    match due {
        Err(q) => w == v && match r {
            Err(p) => p@ == q,
            Ok(_) => false,
        },
        Ok(decision) => exists|d: Decision, s: Option<Vec<u8>>|
            d@ == decision && #[trigger] call_ensures(sign, (&d,), s) && recorded(
                v,
                w,
                decision,
                s,
                now,
                r,
            ),
    }
}

fn text_option(value: Option<&str>) -> (r: Option<String>)
    ensures
        text::view_option(r) == text::view_str(value),
{
    match value {
        Some(s) => Some(s.to_owned()),
        None => None,
    }
}

/// The decision that is to be signed.
pub fn draft_decision(
    store: &Store,
    task_id: &str,
    kind: DecisionKind,
    reason_code: Option<&str>,
    note: Option<&str>,
    decider: &Identity,
    decided_at: &str,
) -> (r: Result<Decision, Problem>)
    requires
        store.wf(),
    ensures
        issue::agrees(
            r,
            decision_due(
                store@,
                task_id@,
                kind,
                text::view_str(reason_code),
                text::view_str(note),
                decider@,
                decided_at@,
            ),
        ),
{
    let head = match store.contract_head(task_id) {
        Ok(HeadState::Open(head)) => head,
        Ok(HeadState::Locked(_)) => {
            return Err(Problem::new(409, "already-decided", "the task is already accepted"));
        },
        Ok(HeadState::Empty) => {
            return Err(Problem::new(404, "no-such-task", "no such task"));
        },
        Err(_) => {
            return Err(Problem::internal());
        },
    };
    let contract = match store.contract_terms(&head.digest) {
        None => {
            return Err(Problem::new(404, "no-such-task", "no such task"));
        },
        Some(None) => {
            return Err(
                Problem::new(500, "corrupt-contract", "the stored contract could not be parsed"),
            );
        },
        Some(Some(c)) => c,
    };
    let context_id = match store.task_context(task_id) {
        Ok(Some(id)) => id,
        _ => {
            let none = String::new();
            assert(none@ =~= store@.heads[task_id@].context_id);
            none
        },
    };
    Ok(
        Decision {
            schema_version: 1,
            decision: kind,
            contract_id: contract.contract_id.clone(),
            contract_revision: head.revision,
            contract_digest: head.digest,
            task_id: task_id.to_owned(),
            context_id,
            decider: decider.dup(),
            reason_code: text_option(reason_code),
            note: text_option(note),
            decided_at: decided_at.to_owned(),
        },
    )
}

/// Records a decision on a submitted task. Only an open head can be decided. `sign`
/// signs the decision under the key of the endpoint; where it cannot, nothing
/// happens. An acceptance locks the exact head.
pub fn decide<F: Fn(&Decision) -> Option<Vec<u8>>>(
    store: &mut Store,
    task_id: &str,
    kind: DecisionKind,
    reason_code: Option<&str>,
    note: Option<&str>,
    decider: &Identity,
    sign: F,
    decided_at: &str,
    now: i64,
) -> (r: Result<DecisionRecord, Problem>)
    requires
        old(store).wf(),
        forall|d: &Decision| call_requires(sign, (d,)),
    ensures
        final(store).wf(),
        decides(
            old(store)@,
            final(store)@,
            decision_due(
                old(store)@,
                task_id@,
                kind,
                text::view_str(reason_code),
                text::view_str(note),
                decider@,
                decided_at@,
            ),
            sign,
            now,
            r,
        ),
{
    let decision = match draft_decision(
        store,
        task_id,
        kind,
        reason_code,
        note,
        decider,
        decided_at,
    ) {
        Ok(decision) => decision,
        Err(p) => {
            return Err(p);
        },
    };
    let signed = match sign(&decision) {
        Some(signed) => signed,
        None => {
            return Err(Problem::new(500, "sign-failed", "the decision could not be signed"));
        },
    };
    let accepted = match kind {
        DecisionKind::Accept => {
            match store.accept_contract(task_id, &decision.contract_digest, now) {
                Ok(Ok(())) => true,
                _ => {
                    return Err(
                        Problem::new(409, "accept-conflict", "the task could not be accepted"),
                    );
                },
            }
        },
        _ => false,
    };
    Ok(DecisionRecord { task_id: task_id.to_owned(), kind, decision: signed, accepted })
}

/// A second acceptance is a conflict: once the head is locked, nothing is due.
pub proof fn a_second_acceptance_is_a_conflict(
    v: StoreView,
    task_id: Seq<char>,
    kind: DecisionKind,
    reason_code: Option<Seq<char>>,
    note: Option<Seq<char>>,
    decider: IdentityView,
    decided_at: Seq<char>,
)
    requires
        open_terms(v, task_id) is Ok,
    ensures
        ({
            let again = decision_due(
                contracts::with_lock(v, task_id),
                task_id,
                kind,
                reason_code,
                note,
                decider,
                decided_at,
            );
            again is Err && again->Err_0.status == 409
        }),
{
}

/// An accepted task can be issued a work order; a task that is not accepted cannot.
pub proof fn acceptance_opens_the_way_to_an_order(v: StoreView, task_id: Seq<char>)
    requires
        open_terms(v, task_id) is Ok,
    ensures
        issue::accepted_terms(v, task_id) is Err,
        issue::accepted_terms(contracts::with_lock(v, task_id), task_id) == open_terms(v, task_id),
{
}

} // verus!
