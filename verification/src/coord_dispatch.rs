//! Dispatching what was consented to, and reporting where it got to.
//!
//! A dispatch runs in four steps. The recipient is routed and the envelope built,
//! while the receipt is still live. The receipt is spent and the dispatch committed,
//! in one step. The message is carried. What became of it is recorded. A crash after
//! the commit leaves a dispatch whose carriage is not known, and the same execution
//! key carries it again and spends nothing.
use crate::clock::trusted_now;
use crate::clock;
use crate::control::{Problem, ProblemView};
use crate::control;
use crate::coord::valid_id;
use crate::coord;
use crate::coord_egress::{
    Carriage, CarriageView, CoordEnvelope, CoordEnvelopeView, CoordRoute, CoordRouteView, Message, MessageView,
    acknowledgement, envelope, judge_carriage, message_body, resolve_route,
};
use crate::coord_egress;
use crate::coord_stage::unknown_stage;
use crate::coord_stage;
use crate::store::rows::{EgressState, StageStatus};
use crate::store::staging::{
    DispatchOutcome, DispatchRecord, DispatchRecordView, DispatchVerdict, StagedContract,
    StagedContractView,
};
use crate::store::staging;
use crate::store::{Store, StoreView};
use crate::table::Record;
use crate::text::copy_option;
use crate::text;
use vstd::prelude::*;
use vstd::string::*;

verus! {

/// What is said of a committed dispatch whose carriage is not known.
pub const EGRESS_PENDING_DETAIL: &'static str = "the consent receipt is spent and the dispatch is committed, but this endpoint has no acknowledgement that the bytes left; retry under the same execution_key to resume carriage";

/// Where the bytes of a dispatch are, by its record.
#[derive(Debug, Clone, PartialEq, Eq)]
pub struct EgressReport {
    pub state: EgressState,
    pub at: Option<i64>,
    pub detail: String,
    pub retryable: bool,
}

/// The view of [`EgressReport`].
#[verifier::ext_equal]
pub struct EgressReportView {
    pub state: EgressState,
    pub at: Option<i64>,
    pub detail: Seq<char>,
    pub retryable: bool,
}

impl View for EgressReport {
    type V = EgressReportView;

    open spec fn view(&self) -> EgressReportView {
        EgressReportView {
            state: self.state,
            at: self.at,
            detail: self.detail@,
            retryable: self.retryable,
        }
    }
}

impl Record for EgressReport {
    fn dup(&self) -> (r: Self) {
        let r = EgressReport {
            state: self.state,
            at: self.at,
            detail: self.detail.clone(),
            retryable: self.retryable,
        };
        r
    }
}

/// A dispatch, just committed or found again.
#[derive(Debug, Clone, PartialEq, Eq)]
pub struct DispatchReply {
    pub dispatch_receipt: String,
    pub stage_ref: String,
    pub staged_digest: String,
    pub payload_sha256: String,
    pub byte_length: usize,
    pub task_type: String,
    pub performer: String,
    pub consent_receipt: String,
    pub execution_key: String,
    pub consent_spent: bool,
    pub status: StageStatus,
    pub dispatched_at: i64,
    /// Whether the dispatch was committed before.
    pub replayed: bool,
    pub egress: EgressReport,
}

/// The view of [`DispatchReply`].
#[verifier::ext_equal]
pub struct DispatchReplyView {
    pub dispatch_receipt: Seq<char>,
    pub stage_ref: Seq<char>,
    pub staged_digest: Seq<char>,
    pub payload_sha256: Seq<char>,
    pub byte_length: usize,
    pub task_type: Seq<char>,
    pub performer: Seq<char>,
    pub consent_receipt: Seq<char>,
    pub execution_key: Seq<char>,
    pub consent_spent: bool,
    pub status: StageStatus,
    pub dispatched_at: i64,
    pub replayed: bool,
    pub egress: EgressReportView,
}

impl View for DispatchReply {
    type V = DispatchReplyView;

    open spec fn view(&self) -> DispatchReplyView {
        DispatchReplyView {
            dispatch_receipt: self.dispatch_receipt@,
            stage_ref: self.stage_ref@,
            staged_digest: self.staged_digest@,
            payload_sha256: self.payload_sha256@,
            byte_length: self.byte_length,
            task_type: self.task_type@,
            performer: self.performer@,
            consent_receipt: self.consent_receipt@,
            execution_key: self.execution_key@,
            consent_spent: self.consent_spent,
            status: self.status,
            dispatched_at: self.dispatched_at,
            replayed: self.replayed,
            egress: self.egress@,
        }
    }
}

impl Record for DispatchReply {
    fn dup(&self) -> (r: Self) {
        let r = DispatchReply {
            dispatch_receipt: self.dispatch_receipt.clone(),
            stage_ref: self.stage_ref.clone(),
            staged_digest: self.staged_digest.clone(),
            payload_sha256: self.payload_sha256.clone(),
            byte_length: self.byte_length,
            task_type: self.task_type.clone(),
            performer: self.performer.clone(),
            consent_receipt: self.consent_receipt.clone(),
            execution_key: self.execution_key.clone(),
            consent_spent: self.consent_spent,
            status: self.status,
            dispatched_at: self.dispatched_at,
            replayed: self.replayed,
            egress: self.egress.dup(),
        };
        r
    }
}

/// What can be verified of a dispatch. It carries no contract, so it has no result
/// and no outcome.
#[derive(Debug, Clone, PartialEq, Eq)]
pub struct VerificationReport {
    pub acknowledged: bool,
    pub result_manifest_digest: Option<String>,
    pub outcome_state: Option<String>,
    pub detail: String,
}

/// The view of [`VerificationReport`].
#[verifier::ext_equal]
pub struct VerificationReportView {
    pub acknowledged: bool,
    pub result_manifest_digest: Option<Seq<char>>,
    pub outcome_state: Option<Seq<char>>,
    pub detail: Seq<char>,
}

impl View for VerificationReport {
    type V = VerificationReportView;

    open spec fn view(&self) -> VerificationReportView {
        VerificationReportView {
            acknowledged: self.acknowledged,
            result_manifest_digest: text::view_option(self.result_manifest_digest),
            outcome_state: text::view_option(self.outcome_state),
            detail: self.detail@,
        }
    }
}

impl Record for VerificationReport {
    fn dup(&self) -> (r: Self) {
        let r = VerificationReport {
            acknowledged: self.acknowledged,
            result_manifest_digest: copy_option(&self.result_manifest_digest),
            outcome_state: copy_option(&self.outcome_state),
            detail: self.detail.clone(),
        };
        r
    }
}

/// The status of a dispatched task.
#[derive(Debug, Clone, PartialEq, Eq)]
pub struct TaskStatusReply {
    pub task_id: String,
    pub stage_ref: String,
    pub staged_digest: String,
    pub payload_sha256: String,
    pub byte_length: usize,
    pub task_type: String,
    pub performer: String,
    pub status: StageStatus,
    pub dispatch_receipt: String,
    pub consent_receipt: String,
    pub execution_key: String,
    pub dispatched_at: i64,
    pub egress: EgressReport,
    pub verification: VerificationReport,
}

/// The view of [`TaskStatusReply`].
#[verifier::ext_equal]
pub struct TaskStatusReplyView {
    pub task_id: Seq<char>,
    pub stage_ref: Seq<char>,
    pub staged_digest: Seq<char>,
    pub payload_sha256: Seq<char>,
    pub byte_length: usize,
    pub task_type: Seq<char>,
    pub performer: Seq<char>,
    pub status: StageStatus,
    pub dispatch_receipt: Seq<char>,
    pub consent_receipt: Seq<char>,
    pub execution_key: Seq<char>,
    pub dispatched_at: i64,
    pub egress: EgressReportView,
    pub verification: VerificationReportView,
}

impl View for TaskStatusReply {
    type V = TaskStatusReplyView;

    open spec fn view(&self) -> TaskStatusReplyView {
        TaskStatusReplyView {
            task_id: self.task_id@,
            stage_ref: self.stage_ref@,
            staged_digest: self.staged_digest@,
            payload_sha256: self.payload_sha256@,
            byte_length: self.byte_length,
            task_type: self.task_type@,
            performer: self.performer@,
            status: self.status,
            dispatch_receipt: self.dispatch_receipt@,
            consent_receipt: self.consent_receipt@,
            execution_key: self.execution_key@,
            dispatched_at: self.dispatched_at,
            egress: self.egress@,
            verification: self.verification@,
        }
    }
}

impl Record for TaskStatusReply {
    fn dup(&self) -> (r: Self) {
        let r = TaskStatusReply {
            task_id: self.task_id.clone(),
            stage_ref: self.stage_ref.clone(),
            staged_digest: self.staged_digest.clone(),
            payload_sha256: self.payload_sha256.clone(),
            byte_length: self.byte_length,
            task_type: self.task_type.clone(),
            performer: self.performer.clone(),
            status: self.status,
            dispatch_receipt: self.dispatch_receipt.clone(),
            consent_receipt: self.consent_receipt.clone(),
            execution_key: self.execution_key.clone(),
            dispatched_at: self.dispatched_at,
            egress: self.egress.dup(),
            verification: self.verification.dup(),
        };
        r
    }
}

/// A dispatch that is to be carried.
#[derive(Debug, Clone, PartialEq, Eq)]
pub struct CarryOrder {
    pub route: CoordRoute,
    pub message: Message,
    pub staged: StagedContract,
    pub record: DispatchRecord,
    pub replayed: bool,
}

/// The view of [`CarryOrder`].
pub struct CarryOrderView {
    pub route: CoordRouteView,
    pub message: MessageView,
    pub staged: StagedContractView,
    pub record: DispatchRecordView,
    pub replayed: bool,
}

impl View for CarryOrder {
    type V = CarryOrderView;

    open spec fn view(&self) -> CarryOrderView {
        CarryOrderView {
            route: self.route@,
            message: self.message@,
            staged: self.staged@,
            record: self.record@,
            replayed: self.replayed,
        }
    }
}

/// What is next in a dispatch.
#[derive(Debug, Clone, PartialEq, Eq)]
pub enum DispatchStep {
    /// Nothing: the recipient has acknowledged it.
    Done(DispatchReply),
    /// The message is to be carried.
    Carry(CarryOrder),
}

/// No live receipt binds the staged digest. A receipt that was never minted, one of
/// another staging and a malformed one are not told apart.
pub open spec fn consent_required_problem() -> ProblemView {
    control::problem_of(409, "consent-required"@, "no live consent receipt binds that staged digest"@)
}

fn consent_required() -> (p: Problem)
    ensures
        p@ == consent_required_problem(),
{
    Problem::new(409, "consent-required", "no live consent receipt binds that staged digest")
}

/// What is staged under a reference, as callers see it.
pub open spec fn staged_at(v: StoreView, stage_ref: Seq<char>) -> StagedContractView {
    staging::stage_shown(stage_ref, v.stages[stage_ref])
}

/// The envelope that a dispatch would carry.
pub open spec fn envelope_for(
    v: StoreView,
    local_root: Seq<char>,
    stage_ref: Seq<char>,
    consent_receipt: Seq<char>,
) -> CoordEnvelopeView {
    coord_egress::envelope_of(
        staged_at(v, stage_ref),
        coord_egress::route_of(v, v.stages[stage_ref].performer)->Ok_0,
        local_root,
        consent_receipt,
    )
}

/// Why a dispatch is refused before anything is spent, if it is: an id is not one,
/// nothing is staged there, the recipient cannot be routed to, or the schema refuses the
/// envelope. `valid` is what the schema says of it.
pub open spec fn refused_before_spending(
    v: StoreView,
    local_root: Seq<char>,
    stage_ref: Seq<char>,
    consent_receipt: Seq<char>,
    execution_key: Seq<char>,
    valid: bool,
) -> Option<ProblemView> {
    if !coord::is_id(execution_key) {
        Some(
            control::problem_of(
                400,
                "bad-execution-key"@,
                "execution_key must be a non-empty bounded printable id"@,
            ),
        )
    } else if !coord::is_id(stage_ref) {
        Some(coord_stage::unknown_stage_problem())
    } else if !coord::is_id(consent_receipt) {
        Some(consent_required_problem())
    } else if !v.stages.contains_key(stage_ref) {
        Some(coord_stage::unknown_stage_problem())
    } else {
        match coord_egress::route_of(v, v.stages[stage_ref].performer) {
            Err(p) => Some(p),
            Ok(_) => if valid {
                None
            } else {
                Some(coord_egress::bad_envelope())
            },
        }
    }
}

/// The order to carry a dispatch.
pub open spec fn order_for(
    v: StoreView,
    local_root: Seq<char>,
    stage_ref: Seq<char>,
    consent_receipt: Seq<char>,
    record: DispatchRecordView,
    replayed: bool,
) -> CarryOrderView {
    CarryOrderView {
        route: coord_egress::route_of(v, v.stages[stage_ref].performer)->Ok_0,
        message: coord_egress::message_of(
            envelope_for(v, local_root, stage_ref, consent_receipt),
            v.stages[stage_ref].payload,
            record.dispatch_receipt,
            record.stage_ref,
        ),
        staged: staged_at(v, stage_ref),
        record,
        replayed,
    }
}

/// What is told of where the bytes of a dispatch are.
pub open spec fn egress_of(d: DispatchRecordView) -> EgressReportView {
    EgressReportView {
        state: d.egress_state,
        at: d.egress_at,
        detail: if d.egress_detail.len() == 0 {
            EGRESS_PENDING_DETAIL@
        } else {
            d.egress_detail
        },
        retryable: !(d.egress_state is Sent),
    }
}

/// What is told of a dispatch.
pub open spec fn reply_of(
    staged: StagedContractView,
    d: DispatchRecordView,
    replayed: bool,
) -> DispatchReplyView {
    DispatchReplyView {
        dispatch_receipt: d.dispatch_receipt,
        stage_ref: d.stage_ref,
        staged_digest: d.staged_digest,
        payload_sha256: staged.payload_sha256,
        byte_length: staged.byte_length,
        task_type: staged.task_type,
        performer: staged.performer,
        consent_receipt: d.receipt_id,
        execution_key: d.execution_key,
        consent_spent: true,
        status: StageStatus::Dispatched,
        dispatched_at: d.dispatched_at,
        replayed,
        egress: egress_of(d),
    }
}

/// What comes of beginning a dispatch. Whatever is refused before the spending
/// leaves the receipt live. The receipt is spent and the dispatch committed in one
/// step. The same execution key and receipt find the dispatch again, and it is
/// carried again unless the recipient has acknowledged it. `valid` is what the schema
/// says of the envelope.
pub open spec fn begins(
    v: StoreView,
    w: StoreView,
    local_root: Seq<char>,
    stage_ref: Seq<char>,
    consent_receipt: Seq<char>,
    execution_key: Seq<char>,
    dispatch_receipt: Seq<char>,
    wall: i64,
    valid: bool,
    r: Result<DispatchStep, Problem>,
) -> bool {
    let t = clock::timed(v, wall);
    match refused_before_spending(v, local_root, stage_ref, consent_receipt, execution_key, valid) {
        Some(q) => w == v && match r {
            Err(p) => p@ == q,
            Ok(_) => false,
        },
        None => match clock::time_now(v, wall) {
            Err(q) => w == t && match r {
                Err(p) => p@ == q,
                Ok(_) => false,
            },
            Ok(now) => match staging::dispatch_verdict(v, stage_ref, consent_receipt, execution_key) {
                DispatchVerdict::Dispatched => if staging::feed_full(v) {
                    w == t && match r {
                        Err(p) => p@ == control::internal_problem(),
                        Ok(_) => false,
                    }
                } else {
                    let d = staging::dispatch_shown(
                        execution_key,
                        staging::new_dispatch_row(v, stage_ref, consent_receipt, dispatch_receipt, now),
                    );
                    w == staging::with_dispatch(
                        t,
                        stage_ref,
                        consent_receipt,
                        execution_key,
                        dispatch_receipt,
                        (coord_egress::route_of(v, v.stages[stage_ref].performer)->Ok_0).root,
                        now,
                    ) && match r {
                        Ok(DispatchStep::Carry(order)) => order@ == order_for(
                            v,
                            local_root,
                            stage_ref,
                            consent_receipt,
                            d,
                            false,
                        ),
                        _ => false,
                    }
                },
                DispatchVerdict::AlreadyDispatched => {
                    let d = staging::dispatch_shown(execution_key, v.dispatches[execution_key]);
                    w == t && match r {
                        Ok(DispatchStep::Done(reply)) => d.egress_state is Sent && reply@
                            == reply_of(staged_at(v, stage_ref), d, true),
                        Ok(DispatchStep::Carry(order)) => !(d.egress_state is Sent) && order@
                            == order_for(v, local_root, stage_ref, consent_receipt, d, true),
                        Err(_) => false,
                    }
                },
                DispatchVerdict::ConsentSpent => w == t && match r {
                    Err(p) => p@ == control::problem_of(
                        409,
                        "consent-spent"@,
                        "that consent receipt has already been dispatched; consent is one-shot"@,
                    ),
                    Ok(_) => false,
                },
                DispatchVerdict::ConsentUnknown => w == t && match r {
                    Err(p) => p@ == consent_required_problem(),
                    Ok(_) => false,
                },
                DispatchVerdict::ExecutionKeyConflict => w == t && match r {
                    Err(p) => p@ == control::problem_of(
                        409,
                        "execution-key-conflict"@,
                        "that execution_key already names a different dispatch"@,
                    ),
                    Ok(_) => false,
                },
            },
        },
    }
}

fn report_egress(d: &DispatchRecord) -> (r: EgressReport)
    ensures
        r@ == egress_of(d@),
{
    EgressReport {
        state: d.egress_state,
        at: d.egress_at,
        detail: if d.egress_detail.as_str().is_empty() {
            EGRESS_PENDING_DETAIL.to_owned()
        } else {
            d.egress_detail.clone()
        },
        retryable: d.egress_may_be_attempted(),
    }
}

fn report_dispatch(staged: &StagedContract, d: &DispatchRecord, replayed: bool) -> (r: DispatchReply)
    ensures
        r@ == reply_of(staged@, d@, replayed),
{
    DispatchReply {
        dispatch_receipt: d.dispatch_receipt.clone(),
        stage_ref: d.stage_ref.clone(),
        staged_digest: d.staged_digest.clone(),
        payload_sha256: staged.payload_sha256.clone(),
        byte_length: staged.byte_length,
        task_type: staged.task_type.clone(),
        performer: staged.performer.clone(),
        consent_receipt: d.receipt_id.clone(),
        execution_key: d.execution_key.clone(),
        consent_spent: true,
        status: StageStatus::Dispatched,
        dispatched_at: d.dispatched_at,
        replayed,
        egress: report_egress(d),
    }
}

/// The envelope of a dispatch is built and held against the schema.
pub open spec fn reaches_the_schema(
    v: StoreView,
    stage_ref: Seq<char>,
    consent_receipt: Seq<char>,
    execution_key: Seq<char>,
) -> bool {
    &&& coord::is_id(execution_key)
    &&& coord::is_id(stage_ref)
    &&& coord::is_id(consent_receipt)
    &&& v.stages.contains_key(stage_ref)
    &&& coord_egress::route_of(v, v.stages[stage_ref].performer) is Ok
}

/// The schema says this of the envelope of a dispatch, where one is built.
pub open spec fn schema_answers<V: Fn(&CoordEnvelope) -> bool>(
    v: StoreView,
    local_root: Seq<char>,
    stage_ref: Seq<char>,
    consent_receipt: Seq<char>,
    execution_key: Seq<char>,
    validate: V,
    valid: bool,
) -> bool {
    reaches_the_schema(v, stage_ref, consent_receipt, execution_key) ==> coord_egress::schema_says(
        validate,
        envelope_for(v, local_root, stage_ref, consent_receipt),
        valid,
    )
}

/// What comes of beginning a dispatch, by one of the two answers that the schema gives.
pub open spec fn begins_asking<V: Fn(&CoordEnvelope) -> bool>(
    v: StoreView,
    w: StoreView,
    local_root: Seq<char>,
    stage_ref: Seq<char>,
    consent_receipt: Seq<char>,
    execution_key: Seq<char>,
    dispatch_receipt: Seq<char>,
    wall: i64,
    validate: V,
    r: Result<DispatchStep, Problem>,
) -> bool {
    let answered = |valid: bool|
        schema_answers(v, local_root, stage_ref, consent_receipt, execution_key, validate, valid)
            && begins(
            v,
            w,
            local_root,
            stage_ref,
            consent_receipt,
            execution_key,
            dispatch_receipt,
            wall,
            valid,
            r,
        );
    answered(true) || answered(false)
}

/// Begins a dispatch: routes it, builds its envelope, and then spends the receipt
/// and commits it. `local_root` is the root of this endpoint, `nonce` is fresh and
/// random, and `validate` holds an envelope against its schema.
pub fn begin_dispatch<V: Fn(&CoordEnvelope) -> bool>(
    store: &mut Store,
    local_root: &str,
    stage_ref: &str,
    consent_receipt: &str,
    execution_key: &str,
    nonce: &str,
    wall: i64,
    validate: V,
) -> (r: Result<DispatchStep, Problem>)
    requires
        old(store).wf(),
        forall|e: &CoordEnvelope| #[trigger] call_requires(validate, (e,)),
    ensures
        final(store).wf(),
        begins_asking(
            old(store)@,
            final(store)@,
            local_root@,
            stage_ref@,
            consent_receipt@,
            execution_key@,
            "dispatch-"@ + nonce@,
            wall,
            validate,
            r,
        ),
{
    if !valid_id(execution_key) {
        return Err(
            Problem::new(
                400,
                "bad-execution-key",
                "execution_key must be a non-empty bounded printable id",
            ),
        );
    }
    if !valid_id(stage_ref) {
        return Err(unknown_stage());
    }
    if !valid_id(consent_receipt) {
        return Err(consent_required());
    }
    let staged = match store.staged_contract(stage_ref) {
        Ok(Some(staged)) => staged,
        _ => {
            return Err(unknown_stage());
        },
    };
    let route = match resolve_route(store, &staged) {
        Ok(route) => route,
        Err(p) => {
            return Err(p);
        },
    };
    let e = match envelope(&staged, &route, local_root, consent_receipt, validate) {
        Ok(e) => e,
        Err(p) => {
            return Err(p);
        },
    };
    let payload = match store.staged_payload(stage_ref) {
        Ok(Some(payload)) => payload,
        _ => {
            return Err(Problem::internal());
        },
    };
    let now = match trusted_now(store, wall) {
        Ok(now) => now,
        Err(p) => {
            return Err(p);
        },
    };
    let dispatch_receipt = "dispatch-".to_owned().concat(nonce);
    match store.dispatch_staged(
        stage_ref,
        consent_receipt,
        execution_key,
        &dispatch_receipt,
        &route.root,
        now,
    ) {
        Ok(DispatchOutcome::Dispatched(burn)) => {
            let record = burn.into_record();
            let message = message_body(&e, &payload, &record.dispatch_receipt, &record.stage_ref);
            Ok(DispatchStep::Carry(CarryOrder { route, message, staged, record, replayed: false }))
        },
        Ok(DispatchOutcome::AlreadyDispatched(record)) => {
            if record.egress_may_be_attempted() {
                let message = message_body(
                    &e,
                    &payload,
                    &record.dispatch_receipt,
                    &record.stage_ref,
                );
                Ok(
                    DispatchStep::Carry(
                        CarryOrder { route, message, staged, record, replayed: true },
                    ),
                )
            } else {
                Ok(DispatchStep::Done(report_dispatch(&staged, &record, true)))
            }
        },
        Ok(DispatchOutcome::ConsentSpent) => Err(
            Problem::new(
                409,
                "consent-spent",
                "that consent receipt has already been dispatched; consent is one-shot",
            ),
        ),
        Ok(DispatchOutcome::ConsentUnknown) => Err(consent_required()),
        Ok(DispatchOutcome::ExecutionKeyConflict(_)) => Err(
            Problem::new(
                409,
                "execution-key-conflict",
                "that execution_key already names a different dispatch",
            ),
        ),
        Err(_) => Err(Problem::internal()),
    }
}

/// The state of carriage, and what is noted of it.
pub open spec fn carriage_noted(c: CarriageView) -> (EgressState, Seq<char>) {
    match c {
        CarriageView::Acknowledged { detail } => (EgressState::Sent, detail),
        CarriageView::Failed { detail } => (EgressState::Failed, detail),
    }
}

/// What comes of a carriage that ended. It is recorded, and once acknowledged it
/// stands.
pub open spec fn finishes(
    v: StoreView,
    w: StoreView,
    order: CarryOrderView,
    carriage: CarriageView,
    wall: i64,
    r: Result<DispatchReply, Problem>,
) -> bool {
    let t = clock::timed(v, wall);
    let key = order.record.execution_key;
    let (state, detail) = carriage_noted(carriage);
    match clock::time_now(v, wall) {
        Err(q) => w == t && match r {
            Err(p) => p@ == q,
            Ok(_) => false,
        },
        Ok(now) => {
            let settled = v.dispatches[key].egress_state is Sent;
            if !v.dispatches.contains_key(key) || (!settled && staging::feed_full(v)) {
                w == t && match r {
                    Err(p) => p@ == control::internal_problem(),
                    Ok(_) => false,
                }
            } else {
                w == staging::egress_told(t, key, order.route.root, state, detail, now) && match r {
                    Ok(reply) => reply@ == reply_of(
                        order.staged,
                        staging::dispatch_shown(key, w.dispatches[key]),
                        order.replayed,
                    ),
                    Err(_) => false,
                }
            }
        },
    }
}

/// Records how a carriage ended.
pub fn record_carriage(store: &mut Store, order: &CarryOrder, carriage: Carriage, wall: i64) -> (r:
    Result<DispatchReply, Problem>)
    requires
        old(store).wf(),
    ensures
        final(store).wf(),
        finishes(old(store)@, final(store)@, order@, carriage@, wall, r),
{
    let ghost ended = carriage@;
    let (state, detail) = match carriage {
        Carriage::Acknowledged { detail } => (EgressState::Sent, detail),
        Carriage::Failed { detail } => (EgressState::Failed, detail),
    };
    assert(carriage_noted(ended) == (state, detail@));
    let now = match trusted_now(store, wall) {
        Ok(now) => now,
        Err(p) => {
            return Err(p);
        },
    };
    match store.record_egress(
        &order.record.execution_key,
        &order.route.root,
        state,
        &detail,
        now,
    ) {
        Ok(Some(record)) => Ok(report_dispatch(&order.staged, &record, order.replayed)),
        _ => Err(Problem::internal()),
    }
}

/// Ends a dispatch: judges what the carriage came back with, and records it.
pub fn finish_dispatch(
    store: &mut Store,
    order: &CarryOrder,
    answer: &Result<(u16, Vec<u8>), Problem>,
    wall: i64,
) -> (r: Result<DispatchReply, Problem>)
    requires
        old(store).wf(),
    ensures
        final(store).wf(),
        finishes(
            old(store)@,
            final(store)@,
            order@,
            coord_egress::carriage_of(*answer, order@.route.root, order@.staged.staged_digest),
            wall,
            r,
        ),
{
    let carriage = judge_carriage(answer, &order.route.root, &order.staged.staged_digest);
    record_carriage(store, order, carriage, wall)
}

/// No task that this surface dispatched has a reference. An unknown id, a malformed
/// one and an inbound task are not told apart.
pub open spec fn unknown_task_problem() -> ProblemView {
    control::problem_of(
        404,
        "unknown-task"@,
        "no task dispatched from this surface has that reference"@,
    )
}

fn unknown_task() -> (p: Problem)
    ensures
        p@ == unknown_task_problem(),
{
    Problem::new(404, "unknown-task", "no task dispatched from this surface has that reference")
}

/// What can be verified of a dispatch.
pub open spec fn verification_of(d: DispatchRecordView) -> VerificationReportView {
    VerificationReportView {
        acknowledged: d.egress_state is Sent,
        result_manifest_digest: None,
        outcome_state: None,
        detail: match d.egress_state {
            EgressState::Sent => "the pinned recipient acknowledged this staged digest; a coordination dispatch carries no contract, so no result manifest or outcome is verifiable against it"@,
            EgressState::Failed => "carriage failed and no recipient acknowledged this staged digest: "@
                + d.egress_detail,
            EgressState::Pending => EGRESS_PENDING_DETAIL@,
        },
    }
}

/// The status of the dispatch under a key.
pub open spec fn status_of(v: StoreView, task_id: Seq<char>, key: Seq<char>) -> TaskStatusReplyView {
    let d = staging::dispatch_shown(key, v.dispatches[key]);
    let staged = staged_at(v, d.stage_ref);
    TaskStatusReplyView {
        task_id,
        stage_ref: d.stage_ref,
        staged_digest: d.staged_digest,
        payload_sha256: staged.payload_sha256,
        byte_length: staged.byte_length,
        task_type: staged.task_type,
        performer: staged.performer,
        status: staged.status,
        dispatch_receipt: d.dispatch_receipt,
        consent_receipt: d.receipt_id,
        execution_key: d.execution_key,
        dispatched_at: d.dispatched_at,
        egress: egress_of(d),
        verification: verification_of(d),
    }
}

fn report_verification(d: &DispatchRecord) -> (r: VerificationReport)
    ensures
        r@ == verification_of(d@),
{
    let detail = match d.egress_state {
        EgressState::Sent => "the pinned recipient acknowledged this staged digest; a coordination dispatch carries no contract, so no result manifest or outcome is verifiable against it".to_owned(),
        EgressState::Failed => "carriage failed and no recipient acknowledged this staged digest: ".to_owned().concat(
            &d.egress_detail,
        ),
        EgressState::Pending => EGRESS_PENDING_DETAIL.to_owned(),
    };
    VerificationReport {
        acknowledged: !d.egress_may_be_attempted(),
        result_manifest_digest: None,
        outcome_state: None,
        detail,
    }
}

/// The status of a task that this surface dispatched, by its dispatch receipt or its
/// staged reference. Nothing else is looked at.
pub fn task_status(store: &Store, task_id: &str) -> (r: Result<TaskStatusReply, Problem>)
    requires
        store.wf(),
    ensures
        match r {
            Ok(reply) => coord::is_id(task_id@) && staging::answers_to(store@, reply@.execution_key, task_id@)
                && reply@ == status_of(store@, task_id@, reply@.execution_key),
            Err(p) => p@ == unknown_task_problem() && (!coord::is_id(task_id@) || !coord_stage::was_dispatched(
                store@,
                task_id@,
            )),
        },
{
    if !valid_id(task_id) {
        return Err(unknown_task());
    }
    let d = match store.coord_dispatch(task_id) {
        Ok(Some(d)) => d,
        _ => {
            return Err(unknown_task());
        },
    };
    proof {
        staging::dispatches_are_consented_to(store@, d@.execution_key, d@.execution_key);
    }
    let staged = match store.staged_contract(&d.stage_ref) {
        Ok(Some(staged)) => staged,
        _ => {
            assert(false);
            return Err(Problem::internal());
        },
    };
    Ok(
        TaskStatusReply {
            task_id: task_id.to_owned(),
            stage_ref: d.stage_ref.clone(),
            staged_digest: d.staged_digest.clone(),
            payload_sha256: staged.payload_sha256,
            byte_length: staged.byte_length,
            task_type: staged.task_type,
            performer: staged.performer,
            status: staged.status,
            dispatch_receipt: d.dispatch_receipt.clone(),
            consent_receipt: d.receipt_id.clone(),
            execution_key: d.execution_key.clone(),
            dispatched_at: d.dispatched_at,
            egress: report_egress(&d),
            verification: report_verification(&d),
        },
    )
}

/// A dispatch that cannot leave spends nothing: where there is no route, or the
/// schema refuses the envelope, the state stays as it is and a live receipt stays live.
pub proof fn what_cannot_leave_spends_nothing(
    v: StoreView,
    w: StoreView,
    local_root: Seq<char>,
    stage_ref: Seq<char>,
    consent_receipt: Seq<char>,
    execution_key: Seq<char>,
    dispatch_receipt: Seq<char>,
    wall: i64,
    valid: bool,
    r: Result<DispatchStep, Problem>,
)
    requires
        begins(
            v,
            w,
            local_root,
            stage_ref,
            consent_receipt,
            execution_key,
            dispatch_receipt,
            wall,
            valid,
            r,
        ),
        v.stages.contains_key(stage_ref),
        coord_egress::route_of(v, v.stages[stage_ref].performer) is Err || !valid,
    ensures
        r is Err,
        w == v,
        staging::is_live_receipt(v, consent_receipt, stage_ref) ==> staging::is_live_receipt(
            w,
            consent_receipt,
            stage_ref,
        ),
{
}

/// Nothing leaves without consent: a message is carried only where a receipt for the
/// very staged digest was minted, and after the step it is spent.
pub proof fn nothing_leaves_without_consent(
    v: StoreView,
    w: StoreView,
    local_root: Seq<char>,
    stage_ref: Seq<char>,
    consent_receipt: Seq<char>,
    execution_key: Seq<char>,
    dispatch_receipt: Seq<char>,
    wall: i64,
    valid: bool,
    r: Result<DispatchStep, Problem>,
)
    requires
        v.consistent(),
        begins(
            v,
            w,
            local_root,
            stage_ref,
            consent_receipt,
            execution_key,
            dispatch_receipt,
            wall,
            valid,
            r,
        ),
        r matches Ok(DispatchStep::Carry(_)),
    ensures
        v.receipts.contains_key(consent_receipt),
        v.receipts[consent_receipt].stage_ref == stage_ref,
        v.receipts[consent_receipt].staged_digest == v.stages[stage_ref].staged_digest,
        w.receipts[consent_receipt].uses == 1,
        !staging::is_live_receipt(w, consent_receipt, stage_ref),
        w.dispatches.contains_key(execution_key),
        w.dispatches[execution_key].receipt_id == consent_receipt,
{
}

/// A retry under the same execution key spends nothing and names the same dispatch
/// receipt, and so the same message.
pub proof fn a_retry_is_the_same_dispatch(
    v: StoreView,
    w: StoreView,
    local_root: Seq<char>,
    stage_ref: Seq<char>,
    consent_receipt: Seq<char>,
    execution_key: Seq<char>,
    dispatch_receipt: Seq<char>,
    wall: i64,
    valid: bool,
    r: Result<DispatchStep, Problem>,
)
    requires
        begins(
            v,
            w,
            local_root,
            stage_ref,
            consent_receipt,
            execution_key,
            dispatch_receipt,
            wall,
            valid,
            r,
        ),
        v.dispatches.contains_key(execution_key),
        r is Ok,
    ensures
        w == clock::timed(v, wall),
        match r->Ok_0 {
            DispatchStep::Done(reply) => reply@.replayed && reply@.dispatch_receipt
                == v.dispatches[execution_key].dispatch_receipt,
            DispatchStep::Carry(order) => order@.replayed && order@.record.dispatch_receipt
                == v.dispatches[execution_key].dispatch_receipt && order@.message.message_id
                == v.dispatches[execution_key].dispatch_receipt,
        },
{
}

} // verus!
