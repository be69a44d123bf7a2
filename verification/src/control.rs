//! The local control surfaces, and which operation needs which of them.
//!
//! Three local surfaces reach the endpoint: that of the operator, that of a worker
//! and that of a coordination driver. The operator reaches everything; each of the
//! narrow surfaces reaches its own operations and nothing else. A refusal tells the
//! caller which surface it is on, and nothing more.
use crate::table::{Pair, Record};
use crate::text::copy_option;
use crate::text;
use vstd::prelude::*;
use vstd::string::*;

verus! {

/// The local surface that a connection arrived on.
#[derive(Debug, Clone, Copy, PartialEq, Eq, Structural)]
pub enum Surface {
    /// The socket of the operator.
    Admin,
    /// The narrow socket of a worker: task input and output.
    Worker,
    /// The socket of a coordination driver, which is another local principal.
    Coord,
}

/// Whether a surface is at least as privileged as another. The two narrow ones
/// dominate nothing but themselves.
pub open spec fn dominates(surface: Surface, required: Surface) -> bool {
    surface is Admin || surface == required
}

impl Surface {
    /// Whether this surface is at least as privileged as `required`.
    fn satisfies(self, required: Surface) -> (r: bool)
        ensures
            r == dominates(self, required),
    {
        match (self, required) {
            (Surface::Admin, _) => true,
            (Surface::Worker, Surface::Worker) => true,
            (Surface::Coord, Surface::Coord) => true,
            _ => false,
        }
    }
}

/// An operation, as the unit of authorization.
#[derive(Debug, Clone, Copy, PartialEq, Eq, Structural)]
pub enum ControlOp {
    /// Deliver an approved task input to the worker.
    SubmitTaskInput,
    /// Report progress of the worker.
    ReportProgress,
    /// Submit a result of the worker.
    SubmitResult,
    /// Refer to evidence that the worker produced.
    ReferenceEvidence,
    /// Ask for a processor call on behalf of the worker.
    RequestProcessorCall,
    /// Pair, accept, list or remove a peer.
    Pair,
    /// Create or change standing policy.
    Policy,
    /// Approve or deny a proposal.
    ApproveContract,
    /// Issue a work order.
    IssueWorkOrder,
    /// Sign the outcome of a request.
    SignOutcome,
    /// Deliver a signed result to the requester.
    DeliverResult,
    /// Send a task to a performer.
    SendTask,
    /// Export content.
    Export,
    /// Recovery and audit.
    Recovery,
    /// Configure a processor.
    Processor,
    /// Inspect the inbox or a task.
    TaskInspect,
    /// Cancel a task.
    TaskCancel,
    /// Run the worker of an approved task.
    RunWorker,
    /// Fulfil an approved task with a result of the operator.
    FulfillTask,
    /// Show a peer or the policy.
    Inspect,
    /// Report the health of the daemon and the sandbox.
    Diagnose,
    /// Mint the consent receipt for a staged digest.
    StageConsent,
    /// Who this endpoint is, and which protocol it speaks.
    CoordWhoAmI,
    /// The identity of a verified peer.
    CoordPeerShow,
    /// Stage bytes for a disclosure.
    CoordStage,
    /// The status and digests of what is staged.
    CoordStageShow,
    /// Spend a consent receipt and dispatch the staged bytes.
    CoordDispatch,
    /// The status of a dispatched task.
    CoordTaskStatus,
    /// The coordination events after a cursor.
    CoordEventsRead,
    /// What is known of a peer's capability.
    CoordCapabilityEvidence,
}

impl ControlOp {
    /// An operation of the worker.
    pub open spec fn is_workers(self) -> bool {
        self is SubmitTaskInput || self is ReportProgress || self is SubmitResult
            || self is ReferenceEvidence || self is RequestProcessorCall
    }

    /// An operation of a coordination driver.
    pub open spec fn is_coords(self) -> bool {
        self is CoordWhoAmI || self is CoordPeerShow || self is CoordStage
            || self is CoordStageShow || self is CoordDispatch || self is CoordTaskStatus
            || self is CoordEventsRead || self is CoordCapabilityEvidence
    }

    /// The least surface that the operation needs.
    pub open spec fn needs(self) -> Surface {
        if self.is_workers() {
            Surface::Worker
        } else if self.is_coords() {
            Surface::Coord
        } else {
            Surface::Admin
        }
    }

    /// The least surface that this operation needs: its own for an operation of the
    /// worker or of a coordination driver, and that of the operator for all others.
    pub fn required_surface(self) -> (r: Surface)
        ensures
            r == self.needs(),
    {
        match self {
            ControlOp::SubmitTaskInput
            | ControlOp::ReportProgress
            | ControlOp::SubmitResult
            | ControlOp::ReferenceEvidence
            | ControlOp::RequestProcessorCall => Surface::Worker,
            ControlOp::CoordWhoAmI
            | ControlOp::CoordPeerShow
            | ControlOp::CoordStage
            | ControlOp::CoordStageShow
            | ControlOp::CoordDispatch
            | ControlOp::CoordTaskStatus
            | ControlOp::CoordEventsRead
            | ControlOp::CoordCapabilityEvidence => Surface::Coord,
            _ => Surface::Admin,
        }
    }
}

/// A refusal, in the shape of RFC 9457. It tells nothing of hidden paths, of policy
/// or of peers.
#[derive(Debug, Clone, PartialEq, Eq)]
pub struct Problem {
    /// A stable tag of the kind of problem.
    pub type_: String,
    pub title: String,
    pub status: u16,
    pub detail: Option<String>,
}

/// The view of [`Problem`].
#[verifier::ext_equal]
pub struct ProblemView {
    pub type_: Seq<char>,
    pub title: Seq<char>,
    pub status: u16,
    pub detail: Option<Seq<char>>,
}

impl View for Problem {
    type V = ProblemView;

    open spec fn view(&self) -> ProblemView {
        ProblemView {
            type_: self.type_@,
            title: self.title@,
            status: self.status,
            detail: text::view_option(self.detail),
        }
    }
}

impl Record for Problem {
    fn dup(&self) -> (r: Self) {
        let r = Problem {
            type_: self.type_.clone(),
            title: self.title.clone(),
            status: self.status,
            detail: copy_option(&self.detail),
        };
        r
    }
}


/// A problem of a kind, without a detail.
pub open spec fn problem_of(status: u16, kind: Seq<char>, title: Seq<char>) -> ProblemView {
    ProblemView { type_: "urn:akson:error:"@ + kind, title, status, detail: None }
}

/// What a surface is told of a refusal.
pub open spec fn refusal_detail(surface: Surface) -> Seq<char> {
    match surface {
        Surface::Worker => "the worker surface cannot perform this operation"@,
        Surface::Coord => "the coordination surface cannot perform this operation"@,
        Surface::Admin => "operation not permitted"@,
    }
}

/// The refusal of an operation on a surface.
pub open spec fn surface_refusal(surface: Surface) -> ProblemView {
    ProblemView {
        type_: "urn:akson:error:forbidden-surface"@,
        title: "operation not permitted on this local surface"@,
        status: 403,
        detail: Some(refusal_detail(surface)),
    }
}

/// What the caller is told where the endpoint itself failed.
pub open spec fn internal_problem() -> ProblemView {
    problem_of(500, "internal"@, "the request could not be processed"@)
}

impl Problem {
    /// A problem of a kind, without a detail.
    pub fn new(status: u16, kind: &str, title: &str) -> (p: Problem)
        ensures
            p@ == problem_of(status, kind@, title@),
    {
        Problem {
            type_: "urn:akson:error:".to_owned().concat(kind),
            title: title.to_owned(),
            status,
            detail: None,
        }
    }

    /// The refusal of an operation that the caller's surface may not perform. The
    /// detail names the surface and nothing else.
    pub fn forbidden_surface(surface: Surface) -> (p: Problem)
        ensures
            p@ == surface_refusal(surface),
    {
        let detail = match surface {
            Surface::Worker => "the worker surface cannot perform this operation",
            Surface::Coord => "the coordination surface cannot perform this operation",
            Surface::Admin => "operation not permitted",
        };
        Problem {
            type_: "urn:akson:error:forbidden-surface".to_owned(),
            title: "operation not permitted on this local surface".to_owned(),
            status: 403,
            detail: Some(detail.to_owned()),
        }
    }

    /// What the caller is told where the endpoint itself failed.
    pub fn internal() -> (p: Problem)
        ensures
            p@ == internal_problem(),
    {
        Problem::new(500, "internal", "the request could not be processed")
    }
}

/// Authorizes an operation on a surface, or refuses it.
pub fn authorize(surface: Surface, op: ControlOp) -> (r: Result<(), Problem>)
    ensures
        match r {
            Ok(()) => dominates(surface, op.needs()),
            Err(p) => !dominates(surface, op.needs()) && p@ == surface_refusal(surface),
        },
{
    if surface.satisfies(op.required_surface()) {
        Ok(())
    } else {
        Err(Problem::forbidden_surface(surface))
    }
}

/// The operator may do everything.
pub proof fn the_operator_reaches_everything(op: ControlOp)
    ensures
        dominates(Surface::Admin, op.needs()),
{
}

/// A narrow surface reaches its own operations and nothing else, of the operator or
/// of the other narrow surface.
pub proof fn narrow_surfaces_reach_only_their_own(op: ControlOp)
    ensures
        dominates(Surface::Worker, op.needs()) <==> op.is_workers(),
        dominates(Surface::Coord, op.needs()) <==> op.is_coords(),
        !(op.is_workers() && op.is_coords()),
{
}

/// Consent is the operator's alone: no other surface can mint it.
pub proof fn consent_is_the_operators(surface: Surface)
    ensures
        dominates(surface, ControlOp::StageConsent.needs()) <==> surface is Admin,
{
}

} // verus!
