//! What a work order allows: granted capabilities with their bounds, and the
//! states through which the one attempt at it passes.
use crate::contract::{Identity, IdentityView};
use crate::table::{Record, dup_all};
use crate::table;
use crate::text::{copy_option, copy_texts};
use crate::text;
use vstd::prelude::*;

verus! {

/// The kinds of capability.
#[derive(Debug, Clone, Copy, PartialEq, Eq, Structural)]
pub enum CapabilityComponent {
    Respond,
    ReadSuppliedInputs,
    ProcessorUse,
    ArtifactExport,
}

/// The bounds of a grant to respond.
#[derive(Debug, Clone, PartialEq, Eq)]
pub struct RespondScope {
    pub task_id: String,
    pub message_id: String,
    pub recipient: String,
    pub max_responses: u32,
    pub max_bytes: u64,
    pub deadline: String,
}

/// The view of [`RespondScope`].
#[verifier::ext_equal]
pub struct RespondScopeView {
    pub task_id: Seq<char>,
    pub message_id: Seq<char>,
    pub recipient: Seq<char>,
    pub max_responses: u32,
    pub max_bytes: u64,
    pub deadline: Seq<char>,
}

impl View for RespondScope {
    type V = RespondScopeView;

    open spec fn view(&self) -> RespondScopeView {
        RespondScopeView {
            task_id: self.task_id@,
            message_id: self.message_id@,
            recipient: self.recipient@,
            max_responses: self.max_responses,
            max_bytes: self.max_bytes,
            deadline: self.deadline@,
        }
    }
}

impl Record for RespondScope {
    fn dup(&self) -> (r: Self) {
        let r = RespondScope {
            task_id: self.task_id.clone(),
            message_id: self.message_id.clone(),
            recipient: self.recipient.clone(),
            max_responses: self.max_responses,
            max_bytes: self.max_bytes,
            deadline: self.deadline.clone(),
        };
        r
    }
}

/// The bounds of a grant to read the supplied inputs.
#[derive(Debug, Clone, PartialEq, Eq)]
pub struct ReadInputsScope {
    pub input_ids: Vec<String>,
    pub contract_digest: String,
}

/// The view of [`ReadInputsScope`].
#[verifier::ext_equal]
pub struct ReadInputsScopeView {
    pub input_ids: Seq<Seq<char>>,
    pub contract_digest: Seq<char>,
}

impl View for ReadInputsScope {
    type V = ReadInputsScopeView;

    open spec fn view(&self) -> ReadInputsScopeView {
        ReadInputsScopeView {
            input_ids: text::views(self.input_ids@),
            contract_digest: self.contract_digest@,
        }
    }
}

impl Record for ReadInputsScope {
    fn dup(&self) -> (r: Self) {
        let r = ReadInputsScope {
            input_ids: copy_texts(&self.input_ids),
            contract_digest: self.contract_digest.clone(),
        };
        r
    }
}

/// The bounds of a grant to call one processor.
#[derive(Debug, Clone, PartialEq, Eq)]
pub struct ProcessorUseScope {
    pub processor_id: String,
    pub input_ids: Vec<String>,
    pub max_cost_microusd: u64,
    pub max_bytes: u64,
}

/// The view of [`ProcessorUseScope`].
#[verifier::ext_equal]
pub struct ProcessorUseScopeView {
    pub processor_id: Seq<char>,
    pub input_ids: Seq<Seq<char>>,
    pub max_cost_microusd: u64,
    pub max_bytes: u64,
}

impl View for ProcessorUseScope {
    type V = ProcessorUseScopeView;

    open spec fn view(&self) -> ProcessorUseScopeView {
        ProcessorUseScopeView {
            processor_id: self.processor_id@,
            input_ids: text::views(self.input_ids@),
            max_cost_microusd: self.max_cost_microusd,
            max_bytes: self.max_bytes,
        }
    }
}

impl Record for ProcessorUseScope {
    fn dup(&self) -> (r: Self) {
        let r = ProcessorUseScope {
            processor_id: self.processor_id.clone(),
            input_ids: copy_texts(&self.input_ids),
            max_cost_microusd: self.max_cost_microusd,
            max_bytes: self.max_bytes,
        };
        r
    }
}

/// The bounds of a grant to export artifacts.
#[derive(Debug, Clone, PartialEq, Eq)]
pub struct ArtifactExportScope {
    pub recipient: String,
    pub task_id: String,
    pub media_types: Vec<String>,
    pub max_count: u32,
    pub max_bytes: u64,
}

/// The view of [`ArtifactExportScope`].
#[verifier::ext_equal]
pub struct ArtifactExportScopeView {
    pub recipient: Seq<char>,
    pub task_id: Seq<char>,
    pub media_types: Seq<Seq<char>>,
    pub max_count: u32,
    pub max_bytes: u64,
}

impl View for ArtifactExportScope {
    type V = ArtifactExportScopeView;

    open spec fn view(&self) -> ArtifactExportScopeView {
        ArtifactExportScopeView {
            recipient: self.recipient@,
            task_id: self.task_id@,
            media_types: text::views(self.media_types@),
            max_count: self.max_count,
            max_bytes: self.max_bytes,
        }
    }
}

impl Record for ArtifactExportScope {
    fn dup(&self) -> (r: Self) {
        let r = ArtifactExportScope {
            recipient: self.recipient.clone(),
            task_id: self.task_id.clone(),
            media_types: copy_texts(&self.media_types),
            max_count: self.max_count,
            max_bytes: self.max_bytes,
        };
        r
    }
}

/// One granted capability.
#[derive(Debug, Clone, PartialEq, Eq)]
pub enum Grant {
    Respond(RespondScope),
    ReadSuppliedInputs(ReadInputsScope),
    ProcessorUse(ProcessorUseScope),
    ArtifactExport(ArtifactExportScope),
}

/// The view of [`Grant`].
pub enum GrantView {
    Respond(RespondScopeView),
    ReadSuppliedInputs(ReadInputsScopeView),
    ProcessorUse(ProcessorUseScopeView),
    ArtifactExport(ArtifactExportScopeView),
}

impl View for Grant {
    type V = GrantView;

    open spec fn view(&self) -> GrantView {
        match self {
            Grant::Respond(s) => GrantView::Respond(s@),
            Grant::ReadSuppliedInputs(s) => GrantView::ReadSuppliedInputs(s@),
            Grant::ProcessorUse(s) => GrantView::ProcessorUse(s@),
            Grant::ArtifactExport(s) => GrantView::ArtifactExport(s@),
        }
    }
}

impl Record for Grant {
    fn dup(&self) -> (r: Self) {
        match self {
            Grant::Respond(s) => Grant::Respond(s.dup()),
            Grant::ReadSuppliedInputs(s) => Grant::ReadSuppliedInputs(s.dup()),
            Grant::ProcessorUse(s) => Grant::ProcessorUse(s.dup()),
            Grant::ArtifactExport(s) => Grant::ArtifactExport(s.dup()),
        }
    }
}

/// The kind of a grant.
pub open spec fn kind(g: GrantView) -> CapabilityComponent {
    match g {
        GrantView::Respond(_) => CapabilityComponent::Respond,
        GrantView::ReadSuppliedInputs(_) => CapabilityComponent::ReadSuppliedInputs,
        GrantView::ProcessorUse(_) => CapabilityComponent::ProcessorUse,
        GrantView::ArtifactExport(_) => CapabilityComponent::ArtifactExport,
    }
}

impl Grant {
    /// The kind of this grant.
    pub fn component(&self) -> (c: CapabilityComponent)
        ensures
            c == kind(self@),
    {
        match self {
            Grant::Respond(_) => CapabilityComponent::Respond,
            Grant::ReadSuppliedInputs(_) => CapabilityComponent::ReadSuppliedInputs,
            Grant::ProcessorUse(_) => CapabilityComponent::ProcessorUse,
            Grant::ArtifactExport(_) => CapabilityComponent::ArtifactExport,
        }
    }
}

/// Why grants do not make up a capability vector.
#[derive(Debug, Clone, Copy, PartialEq, Eq, Structural)]
pub enum CapabilityError {
    /// Nothing is granted.
    Empty,
    /// One kind is granted twice.
    Duplicate,
}

/// No two grants are of one kind.
pub open spec fn one_of_each_kind(grants: Seq<GrantView>) -> bool {
    forall|i: int, j: int|
        0 <= i < j < grants.len() ==> kind(#[trigger] grants[i]) != kind(#[trigger] grants[j])
}

/// The grant of a kind, if there is one.
pub open spec fn grant_of(grants: Seq<GrantView>, c: CapabilityComponent) -> Option<GrantView>
    decreases grants.len(),
{
    if grants.len() == 0 {
        None
    } else if kind(grants[0]) == c {
        Some(grants[0])
    } else {
        grant_of(grants.drop_first(), c)
    }
}

/// The granted capabilities: at least one, and at most one of each kind.
#[derive(Debug, Clone, PartialEq, Eq)]
pub struct CapabilityVector {
    grants: Vec<Grant>,
}

/// The view of [`CapabilityVector`].
pub struct CapabilityVectorView {
    pub grants: Seq<GrantView>,
}

impl View for CapabilityVector {
    type V = CapabilityVectorView;

    closed spec fn view(&self) -> CapabilityVectorView {
        CapabilityVectorView { grants: table::seen(self.grants@) }
    }
}

impl Record for CapabilityVector {
    fn dup(&self) -> (r: Self) {
        CapabilityVector { grants: dup_all(&self.grants) }
    }
}

impl CapabilityVector {
    /// Makes a vector of grants, or says why they do not make up one. What makes up a
    /// vector (one grant at least, and one of each kind at most) is a rule of this module,
    /// called from no outside crate.
    pub fn new(grants: Vec<Grant>) -> (r: Result<CapabilityVector, CapabilityError>)
        ensures
            match r {
                Ok(v) => v@.grants == table::seen(grants@) && grants@.len() > 0 && one_of_each_kind(
                    table::seen(grants@),
                ),
                Err(CapabilityError::Empty) => grants@.len() == 0,
                Err(CapabilityError::Duplicate) => grants@.len() > 0 && !one_of_each_kind(
                    table::seen(grants@),
                ),
            },
    {
        if grants.len() == 0 {
            return Err(CapabilityError::Empty);
        }
        let ghost g = table::seen(grants@);
        let mut i: usize = 0;
        while i < grants.len()
            invariant
                g == table::seen(grants@),
                i <= grants@.len(),
                grants@.len() > 0,
                forall|a: int, b: int|
                    0 <= a < b < i ==> kind(#[trigger] g[a]) != kind(#[trigger] g[b]),
            decreases grants@.len() - i,
        {
            let mut j: usize = 0;
            while j < i
                invariant
                    g == table::seen(grants@),
                    i < grants@.len(),
                    j <= i,
                    forall|a: int| 0 <= a < j ==> kind(#[trigger] g[a]) != kind(g[i as int]),
                decreases i - j,
            {
                assert(g[j as int] == grants@[j as int]@ && g[i as int] == grants@[i as int]@);
                if grants[j].component() == grants[i].component() {
                    assert(!one_of_each_kind(g));
                    return Err(CapabilityError::Duplicate);
                }
                j = j + 1;
            }
            i = i + 1;
        }
        Ok(CapabilityVector { grants })
    }

    /// The grants, in the order in which they were given.
    pub fn grants(&self) -> (r: &Vec<Grant>)
        ensures
            table::seen(r@) == self@.grants,
    {
        &self.grants
    }

    /// The grant of a kind, if there is one.
    pub fn grant(&self, c: CapabilityComponent) -> (r: Option<&Grant>)
        ensures
            match r {
                Some(g) => grant_of(self@.grants, c) == Some(g@) && kind(g@) == c,
                None => grant_of(self@.grants, c) is None,
            },
    {
        let mut i: usize = 0;
        let ghost g = self@.grants;
        assert(g.skip(0) =~= g);
        while i < self.grants.len()
            invariant
                g == self@.grants,
                g == table::seen(self.grants@),
                i <= g.len(),
                grant_of(g, c) == grant_of(g.skip(i as int), c),
            decreases self.grants@.len() - i,
        {
            assert(g[i as int] == self.grants@[i as int]@);
            if self.grants[i].component() == c {
                return Some(&self.grants[i]);
            }
            assert(g.skip(i as int).drop_first() =~= g.skip(i + 1));
            i = i + 1;
        }
        None
    }
}

/// Whom a work order is addressed to.
#[derive(Debug, Clone, PartialEq, Eq)]
pub struct Audience {
    pub daemon: String,
    pub executor: String,
}

/// The view of [`Audience`].
#[verifier::ext_equal]
pub struct AudienceView {
    pub daemon: Seq<char>,
    pub executor: Seq<char>,
}

impl View for Audience {
    type V = AudienceView;

    open spec fn view(&self) -> AudienceView {
        AudienceView {
            daemon: self.daemon@,
            executor: self.executor@,
        }
    }
}

impl Record for Audience {
    fn dup(&self) -> (r: Self) {
        let r = Audience {
            daemon: self.daemon.clone(),
            executor: self.executor.clone(),
        };
        r
    }
}

/// Whom the task came from, and over which certificate.
#[derive(Debug, Clone, PartialEq, Eq)]
pub struct RequestOrigin {
    pub peer: Identity,
    pub tls_certificate_sha256: String,
}

/// The view of [`RequestOrigin`].
#[verifier::ext_equal]
pub struct RequestOriginView {
    pub peer: IdentityView,
    pub tls_certificate_sha256: Seq<char>,
}

impl View for RequestOrigin {
    type V = RequestOriginView;

    open spec fn view(&self) -> RequestOriginView {
        RequestOriginView {
            peer: self.peer@,
            tls_certificate_sha256: self.tls_certificate_sha256@,
        }
    }
}

impl Record for RequestOrigin {
    fn dup(&self) -> (r: Self) {
        let r = RequestOrigin {
            peer: self.peer.dup(),
            tls_certificate_sha256: self.tls_certificate_sha256.clone(),
        };
        r
    }
}

/// The aggregate bounds of an attempt.
#[derive(Debug, Clone, PartialEq, Eq)]
pub struct Budgets {
    pub max_cost_microusd: u64,
    pub max_bytes: u64,
    pub max_operations: u32,
}

/// The view of [`Budgets`].
#[verifier::ext_equal]
pub struct BudgetsView {
    pub max_cost_microusd: u64,
    pub max_bytes: u64,
    pub max_operations: u32,
}

impl View for Budgets {
    type V = BudgetsView;

    open spec fn view(&self) -> BudgetsView {
        BudgetsView {
            max_cost_microusd: self.max_cost_microusd,
            max_bytes: self.max_bytes,
            max_operations: self.max_operations,
        }
    }
}

impl Record for Budgets {
    fn dup(&self) -> (r: Self) {
        let r = Budgets {
            max_cost_microusd: self.max_cost_microusd,
            max_bytes: self.max_bytes,
            max_operations: self.max_operations,
        };
        r
    }
}

/// The authority to run one accepted task, once.
#[derive(Debug, Clone, PartialEq, Eq)]
pub struct WorkOrder {
    pub version: u32,
    pub work_order_id: String,
    pub issuer: Identity,
    pub issuer_assurance: String,
    pub audience: Audience,
    pub request_origin: RequestOrigin,
    pub task_id: String,
    pub context_id: String,
    pub message_id: String,
    pub contract_revision: u64,
    pub contract_digest: String,
    pub capabilities: CapabilityVector,
    pub input_manifest: Vec<String>,
    pub processor_digest: Option<String>,
    pub runner_digest: Option<String>,
    pub sandbox_digest: Option<String>,
    pub profile_digest: Option<String>,
    pub budgets: Budgets,
    pub evidence_slots: Vec<String>,
    pub policy_version: u32,
    pub decision_id: String,
    pub not_before: String,
    pub deadline: String,
    pub nonce: String,
    pub remote_cancel: Option<String>,
}

/// The view of [`WorkOrder`].
#[verifier::ext_equal]
pub struct WorkOrderView {
    pub version: u32,
    pub work_order_id: Seq<char>,
    pub issuer: IdentityView,
    pub issuer_assurance: Seq<char>,
    pub audience: AudienceView,
    pub request_origin: RequestOriginView,
    pub task_id: Seq<char>,
    pub context_id: Seq<char>,
    pub message_id: Seq<char>,
    pub contract_revision: u64,
    pub contract_digest: Seq<char>,
    pub capabilities: CapabilityVectorView,
    pub input_manifest: Seq<Seq<char>>,
    pub processor_digest: Option<Seq<char>>,
    pub runner_digest: Option<Seq<char>>,
    pub sandbox_digest: Option<Seq<char>>,
    pub profile_digest: Option<Seq<char>>,
    pub budgets: BudgetsView,
    pub evidence_slots: Seq<Seq<char>>,
    pub policy_version: u32,
    pub decision_id: Seq<char>,
    pub not_before: Seq<char>,
    pub deadline: Seq<char>,
    pub nonce: Seq<char>,
    pub remote_cancel: Option<Seq<char>>,
}

impl View for WorkOrder {
    type V = WorkOrderView;

    open spec fn view(&self) -> WorkOrderView {
        WorkOrderView {
            version: self.version,
            work_order_id: self.work_order_id@,
            issuer: self.issuer@,
            issuer_assurance: self.issuer_assurance@,
            audience: self.audience@,
            request_origin: self.request_origin@,
            task_id: self.task_id@,
            context_id: self.context_id@,
            message_id: self.message_id@,
            contract_revision: self.contract_revision,
            contract_digest: self.contract_digest@,
            capabilities: self.capabilities@,
            input_manifest: text::views(self.input_manifest@),
            processor_digest: text::view_option(self.processor_digest),
            runner_digest: text::view_option(self.runner_digest),
            sandbox_digest: text::view_option(self.sandbox_digest),
            profile_digest: text::view_option(self.profile_digest),
            budgets: self.budgets@,
            evidence_slots: text::views(self.evidence_slots@),
            policy_version: self.policy_version,
            decision_id: self.decision_id@,
            not_before: self.not_before@,
            deadline: self.deadline@,
            nonce: self.nonce@,
            remote_cancel: text::view_option(self.remote_cancel),
        }
    }
}

impl Record for WorkOrder {
    fn dup(&self) -> (r: Self) {
        let r = WorkOrder {
            version: self.version,
            work_order_id: self.work_order_id.clone(),
            issuer: self.issuer.dup(),
            issuer_assurance: self.issuer_assurance.clone(),
            audience: self.audience.dup(),
            request_origin: self.request_origin.dup(),
            task_id: self.task_id.clone(),
            context_id: self.context_id.clone(),
            message_id: self.message_id.clone(),
            contract_revision: self.contract_revision,
            contract_digest: self.contract_digest.clone(),
            capabilities: self.capabilities.dup(),
            input_manifest: copy_texts(&self.input_manifest),
            processor_digest: copy_option(&self.processor_digest),
            runner_digest: copy_option(&self.runner_digest),
            sandbox_digest: copy_option(&self.sandbox_digest),
            profile_digest: copy_option(&self.profile_digest),
            budgets: self.budgets.dup(),
            evidence_slots: copy_texts(&self.evidence_slots),
            policy_version: self.policy_version,
            decision_id: self.decision_id.clone(),
            not_before: self.not_before.clone(),
            deadline: self.deadline.clone(),
            nonce: self.nonce.clone(),
            remote_cancel: copy_option(&self.remote_cancel),
        };
        r
    }
}

/// A work order with its digest and the tag that authenticates it.
#[derive(Debug, Clone, PartialEq, Eq)]
pub struct IssuedWorkOrder {
    pub order: WorkOrder,
    pub digest: String,
    pub mac: String,
}

/// The view of [`IssuedWorkOrder`].
#[verifier::ext_equal]
pub struct IssuedWorkOrderView {
    pub order: WorkOrderView,
    pub digest: Seq<char>,
    pub mac: Seq<char>,
}

impl View for IssuedWorkOrder {
    type V = IssuedWorkOrderView;

    open spec fn view(&self) -> IssuedWorkOrderView {
        IssuedWorkOrderView {
            order: self.order@,
            digest: self.digest@,
            mac: self.mac@,
        }
    }
}

impl Record for IssuedWorkOrder {
    fn dup(&self) -> (r: Self) {
        let r = IssuedWorkOrder {
            order: self.order.dup(),
            digest: self.digest.clone(),
            mac: self.mac.clone(),
        };
        r
    }
}

/// The states of an attempt.
#[derive(Debug, Clone, Copy, PartialEq, Eq, Structural)]
pub enum AttemptState {
    Pending,
    Claimed,
    Running,
    Succeeded,
    Failed,
    /// A crash left it open whether an effect took place.
    Ambiguous,
    Cancelled,
}

/// What can happen to an attempt.
#[derive(Debug, Clone, Copy, PartialEq, Eq, Structural)]
pub enum AttemptEvent {
    Claim,
    Start,
    Succeed,
    Fail,
    Crash,
    Cancel,
}

/// Why an attempt does not move.
#[derive(Debug, Clone, Copy, PartialEq, Eq, Structural)]
pub enum TransitionError {
    /// The attempt is over.
    AlreadyTerminal { state: AttemptState },
    /// The event does not follow in this state.
    OutOfOrder { state: AttemptState, event: AttemptEvent },
}

/// An attempt in this state is over.
pub open spec fn is_terminal(s: AttemptState) -> bool {
    s is Succeeded || s is Failed || s is Ambiguous || s is Cancelled
}

/// The state after an event.
pub open spec fn next_state(s: AttemptState, e: AttemptEvent) -> Result<
    AttemptState,
    TransitionError,
> {
    if is_terminal(s) {
        Err(TransitionError::AlreadyTerminal { state: s })
    } else {
        match (s, e) {
            (AttemptState::Pending, AttemptEvent::Claim) => Ok(AttemptState::Claimed),
            (AttemptState::Claimed, AttemptEvent::Start) => Ok(AttemptState::Running),
            (AttemptState::Running, AttemptEvent::Succeed) => Ok(AttemptState::Succeeded),
            (AttemptState::Running, AttemptEvent::Fail) => Ok(AttemptState::Failed),
            (AttemptState::Claimed, AttemptEvent::Crash) => Ok(AttemptState::Ambiguous),
            (AttemptState::Running, AttemptEvent::Crash) => Ok(AttemptState::Ambiguous),
            (_, AttemptEvent::Cancel) => Ok(AttemptState::Cancelled),
            _ => Err(TransitionError::OutOfOrder { state: s, event: e }),
        }
    }
}

/// Moves an attempt by one event. The table of moves is a rule of this module, called from
/// no outside crate.
pub fn next(s: AttemptState, e: AttemptEvent) -> (r: Result<AttemptState, TransitionError>)
    ensures
        r == next_state(s, e),
{
    match (s, e) {
        (AttemptState::Succeeded, _) | (AttemptState::Failed, _) | (AttemptState::Ambiguous, _) | (
            AttemptState::Cancelled,
            _,
        ) => Err(TransitionError::AlreadyTerminal { state: s }),
        (AttemptState::Pending, AttemptEvent::Claim) => Ok(AttemptState::Claimed),
        (AttemptState::Claimed, AttemptEvent::Start) => Ok(AttemptState::Running),
        (AttemptState::Running, AttemptEvent::Succeed) => Ok(AttemptState::Succeeded),
        (AttemptState::Running, AttemptEvent::Fail) => Ok(AttemptState::Failed),
        (AttemptState::Claimed, AttemptEvent::Crash) => Ok(AttemptState::Ambiguous),
        (AttemptState::Running, AttemptEvent::Crash) => Ok(AttemptState::Ambiguous),
        (_, AttemptEvent::Cancel) => Ok(AttemptState::Cancelled),
        _ => Err(TransitionError::OutOfOrder { state: s, event: e }),
    }
}

impl AttemptState {
    /// The name of the state.
    pub open spec fn name(self) -> Seq<char> {
        match self {
            AttemptState::Pending => "pending"@,
            AttemptState::Claimed => "claimed"@,
            AttemptState::Running => "running"@,
            AttemptState::Succeeded => "succeeded"@,
            AttemptState::Failed => "failed"@,
            AttemptState::Ambiguous => "ambiguous"@,
            AttemptState::Cancelled => "cancelled"@,
        }
    }

    /// The name of the state.
    pub fn as_str(&self) -> (s: &'static str)
        ensures
            s@ == self.name(),
    {
        match self {
            AttemptState::Pending => "pending",
            AttemptState::Claimed => "claimed",
            AttemptState::Running => "running",
            AttemptState::Succeeded => "succeeded",
            AttemptState::Failed => "failed",
            AttemptState::Ambiguous => "ambiguous",
            AttemptState::Cancelled => "cancelled",
        }
    }
}

/// A terminal state is final: no event moves an attempt out of it.
pub proof fn terminal_attempts_stay(s: AttemptState, e: AttemptEvent)
    requires
        is_terminal(s),
    ensures
        next_state(s, e) == Err::<AttemptState, TransitionError>(
            TransitionError::AlreadyTerminal { state: s },
        ),
{
}

} // verus!
