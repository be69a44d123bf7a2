//! What is asked of the endpoint over its local surfaces.
use crate::control::{ControlOp, Surface};
use crate::control;
use vstd::prelude::*;

verus! {

/// What a presented identity token came to.
#[derive(Debug, Clone, PartialEq, Eq)]
pub enum TokenReading {
    /// The thumbprint of the root key in the token.
    Root(String),
    /// Why the token could not be read.
    Unreadable(String),
}

/// A task to be sent. The rest of it is opaque here.
#[derive(Debug, Clone, PartialEq, Eq)]
pub struct SendSpec {
    /// The label of the performer.
    pub performer: String,
    pub rest: String,
}

/// A request.
#[derive(Debug, Clone, PartialEq, Eq)]
pub enum ControlRequest {
    /// The health of the daemon and the sandbox.
    Diagnose,
    /// Who this endpoint is.
    WhoAmI,
    /// The submitted tasks that await a decision.
    TaskInbox,
    /// The terms of one of them.
    TaskShow { task_id: String },
    /// The relationships and the pinned peers.
    PeerList,
    /// The identity token of this endpoint.
    Token,
    /// Import a peer by its token. What stood behind the token's `@` is its suffix.
    PeerAdd {
        token: TokenReading,
        suffix: Option<String>,
        label: String,
        endpoint: Option<String>,
        update: bool,
    },
    /// Change the label of a peer.
    PeerLabel { label: String, new_label: String },
    /// Remove a relationship.
    PeerImportRemove { label: String },
    /// The refused introductions.
    PeerKnocks,
    /// Introduce this endpoint to a peer.
    PeerPing { label: String },
    /// Set the standing approval of a peer, or clear it where no task type is given.
    PeerAutoApprove { label: String, task_types: Vec<String>, max_response_bytes: u64 },
    /// The requests that were sent.
    TaskSent,
    /// The outcomes of them.
    TaskOutcomes,
    /// The outputs of a task, or those of one role.
    TaskOutput { task_id: String, role: Option<String> },
    /// Accept a task and issue its work order.
    TaskApprove { task_id: String, processor: Option<String>, artifacts: bool },
    /// Reject a task.
    TaskDeny { task_id: String, reason: String },
    /// Submit the result of a worker.
    SubmitResult { submission: String },
    /// Run the worker of an approved task.
    TaskRun { task_id: String },
    /// Fulfil an approved task with given outputs.
    TaskFulfill { task_id: String, outputs: String },
    /// Deliver the result of a task.
    TaskDeliver { task_id: String },
    /// Send a task.
    TaskSend { spec: SendSpec },
    /// Call a processor for a worker.
    RequestProcessorCall { processor_id: String, work_order_id: String, request: String },
    /// Configure a processor.
    ProcessorAdd {
        processor_id: String,
        provider: String,
        origin_host: String,
        origin_port: u16,
        local: bool,
        tls_certificate_sha256: Option<String>,
        path: Option<String>,
        auth: Option<String>,
        headers: Vec<String>,
    },
    /// The configured processors.
    ProcessorList,
    /// Set the credential of a processor.
    ProcessorCredential { processor_id: String, credential: String },
    /// Acknowledge a work order.
    IssueWorkOrder,
    /// Who this endpoint is, for a coordination driver.
    CoordWhoAmI,
    /// One named peer.
    PeerShow { label: String },
    /// Stage bytes for a disclosure.
    Stage { task_type: String, performer: String, payload_base64: String },
    /// What is staged under a reference.
    StageShow { stage_ref: String },
    /// The events after a cursor.
    EventsRead { cursor: Option<String>, limit: Option<u32> },
    /// Consent to a disclosure.
    StageConsent { stage_ref: String },
    /// Dispatch what was consented to.
    Dispatch { stage_ref: String, consent_receipt: String, execution_key: String },
    /// The status of a dispatched task.
    TaskStatus { task_id: String },
    /// The evidence on a named peer.
    CapabilityEvidence { label: String },
}

/// The operation that a request stands for.
pub open spec fn op_of(request: ControlRequest) -> ControlOp {
    match request {
        ControlRequest::Diagnose => ControlOp::Diagnose,
        ControlRequest::WhoAmI => ControlOp::Inspect,
        ControlRequest::TaskInbox
        | ControlRequest::TaskShow { .. }
        | ControlRequest::TaskSent
        | ControlRequest::TaskOutcomes
        | ControlRequest::TaskOutput { .. } => ControlOp::TaskInspect,
        ControlRequest::PeerList
        | ControlRequest::Token
        | ControlRequest::PeerAdd { .. }
        | ControlRequest::PeerLabel { .. }
        | ControlRequest::PeerImportRemove { .. }
        | ControlRequest::PeerKnocks
        | ControlRequest::PeerPing { .. } => ControlOp::Pair,
        ControlRequest::PeerAutoApprove { .. } => ControlOp::Policy,
        ControlRequest::TaskApprove { .. } | ControlRequest::TaskDeny { .. } => ControlOp::ApproveContract,
        ControlRequest::SubmitResult { .. } => ControlOp::SubmitResult,
        ControlRequest::TaskRun { .. } => ControlOp::RunWorker,
        ControlRequest::TaskFulfill { .. } => ControlOp::FulfillTask,
        ControlRequest::TaskDeliver { .. } => ControlOp::DeliverResult,
        ControlRequest::TaskSend { .. } => ControlOp::SendTask,
        ControlRequest::RequestProcessorCall { .. } => ControlOp::RequestProcessorCall,
        ControlRequest::ProcessorAdd { .. }
        | ControlRequest::ProcessorList
        | ControlRequest::ProcessorCredential { .. } => ControlOp::Processor,
        ControlRequest::IssueWorkOrder => ControlOp::IssueWorkOrder,
        ControlRequest::CoordWhoAmI => ControlOp::CoordWhoAmI,
        ControlRequest::PeerShow { .. } => ControlOp::CoordPeerShow,
        ControlRequest::Stage { .. } => ControlOp::CoordStage,
        ControlRequest::StageShow { .. } => ControlOp::CoordStageShow,
        ControlRequest::EventsRead { .. } => ControlOp::CoordEventsRead,
        ControlRequest::StageConsent { .. } => ControlOp::StageConsent,
        ControlRequest::Dispatch { .. } => ControlOp::CoordDispatch,
        ControlRequest::TaskStatus { .. } => ControlOp::CoordTaskStatus,
        ControlRequest::CapabilityEvidence { .. } => ControlOp::CoordCapabilityEvidence,
    }
}

/// The request is one of the coordination surface, or the operator's consent to one.
pub open spec fn is_coordination(request: ControlRequest) -> bool {
    request is CoordWhoAmI || request is PeerShow || request is Stage || request is StageShow
        || request is EventsRead || request is StageConsent || request is Dispatch
        || request is TaskStatus || request is CapabilityEvidence
}

impl ControlRequest {
    /// Whether the request is one of the coordination surface, or the operator's consent
    /// to one.
    pub fn concerns_coordination(&self) -> (r: bool)
        ensures
            r == is_coordination(*self),
    {
        matches!(
            self,
            ControlRequest::CoordWhoAmI | ControlRequest::PeerShow { .. } | ControlRequest::Stage {
                ..
            } | ControlRequest::StageShow { .. } | ControlRequest::EventsRead { .. }
                | ControlRequest::StageConsent { .. } | ControlRequest::Dispatch { .. }
                | ControlRequest::TaskStatus { .. } | ControlRequest::CapabilityEvidence { .. }
        )
    }

    /// The operation that this request stands for, and is authorized as.
    pub fn op(&self) -> (r: ControlOp)
        ensures
            r == op_of(*self),
    {
        match self {
            ControlRequest::Diagnose => ControlOp::Diagnose,
            ControlRequest::WhoAmI => ControlOp::Inspect,
            ControlRequest::TaskInbox
            | ControlRequest::TaskShow { .. }
            | ControlRequest::TaskSent
            | ControlRequest::TaskOutcomes
            | ControlRequest::TaskOutput { .. } => ControlOp::TaskInspect,
            ControlRequest::PeerList
            | ControlRequest::Token
            | ControlRequest::PeerAdd { .. }
            | ControlRequest::PeerLabel { .. }
            | ControlRequest::PeerImportRemove { .. }
            | ControlRequest::PeerKnocks
            | ControlRequest::PeerPing { .. } => ControlOp::Pair,
            ControlRequest::PeerAutoApprove { .. } => ControlOp::Policy,
            ControlRequest::TaskApprove { .. } | ControlRequest::TaskDeny { .. } => ControlOp::ApproveContract,
            ControlRequest::SubmitResult { .. } => ControlOp::SubmitResult,
            ControlRequest::TaskRun { .. } => ControlOp::RunWorker,
            ControlRequest::TaskFulfill { .. } => ControlOp::FulfillTask,
            ControlRequest::TaskDeliver { .. } => ControlOp::DeliverResult,
            ControlRequest::TaskSend { .. } => ControlOp::SendTask,
            ControlRequest::RequestProcessorCall { .. } => ControlOp::RequestProcessorCall,
            ControlRequest::ProcessorAdd { .. }
            | ControlRequest::ProcessorList
            | ControlRequest::ProcessorCredential { .. } => ControlOp::Processor,
            ControlRequest::IssueWorkOrder => ControlOp::IssueWorkOrder,
            ControlRequest::CoordWhoAmI => ControlOp::CoordWhoAmI,
            ControlRequest::PeerShow { .. } => ControlOp::CoordPeerShow,
            ControlRequest::Stage { .. } => ControlOp::CoordStage,
            ControlRequest::StageShow { .. } => ControlOp::CoordStageShow,
            ControlRequest::EventsRead { .. } => ControlOp::CoordEventsRead,
            ControlRequest::StageConsent { .. } => ControlOp::StageConsent,
            ControlRequest::Dispatch { .. } => ControlOp::CoordDispatch,
            ControlRequest::TaskStatus { .. } => ControlOp::CoordTaskStatus,
            ControlRequest::CapabilityEvidence { .. } => ControlOp::CoordCapabilityEvidence,
        }
    }
}

/// A worker can hand in a result and ask for a processor call, and nothing else.
pub proof fn workers_only_hand_in_and_call(request: ControlRequest)
    ensures
        control::dominates(Surface::Worker, op_of(request).needs()) <==> (
        request is SubmitResult || request is RequestProcessorCall),
{
}

/// A coordination driver can never consent to a disclosure, decide on a task, pair or
/// set a policy: it has the eight requests of its own, and no other.
pub proof fn drivers_never_consent(request: ControlRequest)
    ensures
        control::dominates(Surface::Coord, op_of(request).needs()) <==> (request is CoordWhoAmI
            || request is PeerShow || request is Stage || request is StageShow
            || request is EventsRead || request is Dispatch || request is TaskStatus
            || request is CapabilityEvidence),
{
}

} // verus!
