//! Task contracts: what a requester proposes, and the head of a task's chain of
//! revisions, which one revision at a time can advance until one is accepted.
//!
//! How a revision moves a head, when one is accepted, and when a contract is effective are
//! rules of this module. They are called from no outside crate.
use crate::outside::rfc3339_instant;
use crate::outside;
use crate::table::{Record, dup_all};
use crate::table;
use crate::text::{copy_bytes, copy_option, copy_texts, same_text};
use crate::text;
use vstd::prelude::*;

verus! {

/// A party: who vouches for it, its name, and the thumbprint of its root key.
#[derive(Debug, Clone, PartialEq, Eq)]
pub struct Identity {
    pub issuer: String,
    pub agent: String,
    pub root: String,
}

/// The view of [`Identity`].
#[verifier::ext_equal]
pub struct IdentityView {
    pub issuer: Seq<char>,
    pub agent: Seq<char>,
    pub root: Seq<char>,
}

impl View for Identity {
    type V = IdentityView;

    open spec fn view(&self) -> IdentityView {
        IdentityView {
            issuer: self.issuer@,
            agent: self.agent@,
            root: self.root@,
        }
    }
}

impl Record for Identity {
    fn dup(&self) -> (r: Self) {
        let r = Identity {
            issuer: self.issuer.clone(),
            agent: self.agent.clone(),
            root: self.root.clone(),
        };
        r
    }
}

/// What a contract can ask to be allowed.
#[derive(Debug, Clone, Copy, PartialEq, Eq, Structural)]
pub enum Capability {
    Respond,
    ReadSuppliedInputs,
    /// Outward-disclosing: a model is called.
    ProcessorUse,
    /// Outward-disclosing: files are returned.
    ArtifactExport,
}

/// Who receives the result.
#[derive(Debug, Clone, Copy, PartialEq, Eq, Structural)]
pub enum ResultRecipient {
    RequestOrigin,
}

/// One thing that a contract asks to be delivered.
#[derive(Debug, Clone, PartialEq, Eq)]
pub struct Deliverable {
    pub role: String,
    pub media_type: String,
}

/// The view of [`Deliverable`].
#[verifier::ext_equal]
pub struct DeliverableView {
    pub role: Seq<char>,
    pub media_type: Seq<char>,
}

impl View for Deliverable {
    type V = DeliverableView;

    open spec fn view(&self) -> DeliverableView {
        DeliverableView {
            role: self.role@,
            media_type: self.media_type@,
        }
    }
}

impl Record for Deliverable {
    fn dup(&self) -> (r: Self) {
        let r = Deliverable {
            role: self.role.clone(),
            media_type: self.media_type.clone(),
        };
        r
    }
}

/// The terms of a task contract that this endpoint reads. Timestamps are RFC 3339.
#[derive(Debug, Clone, PartialEq, Eq)]
pub struct Contract {
    pub contract_id: String,
    pub revision: u64,
    /// The digest of the revision that this one follows; absent at revision zero.
    pub predecessor_digest: Option<String>,
    pub task_id: Option<String>,
    pub context_id: Option<String>,
    pub task_type: String,
    pub message_id: String,
    pub requester: Identity,
    pub performer: Identity,
    pub objective: String,
    pub input_ids: Vec<String>,
    pub deliverables: Vec<Deliverable>,
    pub evidence_slots: Vec<String>,
    pub requested_capabilities: Vec<Capability>,
    pub max_response_bytes: u64,
    pub max_cost_microusd: Option<u64>,
    pub deadline: String,
    pub result_recipient: ResultRecipient,
    pub created_at: String,
    pub expires_at: String,
}

/// The view of [`Contract`].
#[verifier::ext_equal]
pub struct ContractView {
    pub contract_id: Seq<char>,
    pub revision: u64,
    pub predecessor_digest: Option<Seq<char>>,
    pub task_id: Option<Seq<char>>,
    pub context_id: Option<Seq<char>>,
    pub task_type: Seq<char>,
    pub message_id: Seq<char>,
    pub requester: IdentityView,
    pub performer: IdentityView,
    pub objective: Seq<char>,
    pub input_ids: Seq<Seq<char>>,
    pub deliverables: Seq<DeliverableView>,
    pub evidence_slots: Seq<Seq<char>>,
    pub requested_capabilities: Seq<Capability>,
    pub max_response_bytes: u64,
    pub max_cost_microusd: Option<u64>,
    pub deadline: Seq<char>,
    pub result_recipient: ResultRecipient,
    pub created_at: Seq<char>,
    pub expires_at: Seq<char>,
}

impl View for Contract {
    type V = ContractView;

    open spec fn view(&self) -> ContractView {
        ContractView {
            contract_id: self.contract_id@,
            revision: self.revision,
            predecessor_digest: text::view_option(self.predecessor_digest),
            task_id: text::view_option(self.task_id),
            context_id: text::view_option(self.context_id),
            task_type: self.task_type@,
            message_id: self.message_id@,
            requester: self.requester@,
            performer: self.performer@,
            objective: self.objective@,
            input_ids: text::views(self.input_ids@),
            deliverables: table::seen(self.deliverables@),
            evidence_slots: text::views(self.evidence_slots@),
            requested_capabilities: self.requested_capabilities@,
            max_response_bytes: self.max_response_bytes,
            max_cost_microusd: self.max_cost_microusd,
            deadline: self.deadline@,
            result_recipient: self.result_recipient,
            created_at: self.created_at@,
            expires_at: self.expires_at@,
        }
    }
}

impl Record for Contract {
    fn dup(&self) -> (r: Self) {
        let r = Contract {
            contract_id: self.contract_id.clone(),
            revision: self.revision,
            predecessor_digest: copy_option(&self.predecessor_digest),
            task_id: copy_option(&self.task_id),
            context_id: copy_option(&self.context_id),
            task_type: self.task_type.clone(),
            message_id: self.message_id.clone(),
            requester: self.requester.dup(),
            performer: self.performer.dup(),
            objective: self.objective.clone(),
            input_ids: copy_texts(&self.input_ids),
            deliverables: dup_all(&self.deliverables),
            evidence_slots: copy_texts(&self.evidence_slots),
            requested_capabilities: copy_capabilities(&self.requested_capabilities),
            max_response_bytes: self.max_response_bytes,
            max_cost_microusd: self.max_cost_microusd,
            deadline: self.deadline.clone(),
            result_recipient: self.result_recipient,
            created_at: self.created_at.clone(),
            expires_at: self.expires_at.clone(),
        };
        r
    }
}

/// A contract with the exact bytes that were signed and their digest.
#[derive(Debug, Clone, PartialEq, Eq)]
pub struct ParsedContract {
    pub contract: Contract,
    pub digest: String,
    pub payload: Vec<u8>,
}

/// The view of [`ParsedContract`].
#[verifier::ext_equal]
pub struct ParsedContractView {
    pub contract: ContractView,
    pub digest: Seq<char>,
    pub payload: Seq<u8>,
}

impl View for ParsedContract {
    type V = ParsedContractView;

    open spec fn view(&self) -> ParsedContractView {
        ParsedContractView {
            contract: self.contract@,
            digest: self.digest@,
            payload: self.payload@,
        }
    }
}

impl Record for ParsedContract {
    fn dup(&self) -> (r: Self) {
        let r = ParsedContract {
            contract: self.contract.dup(),
            digest: self.digest.clone(),
            payload: copy_bytes(&self.payload),
        };
        r
    }
}

/// A copy of a list of capabilities.
pub fn copy_capabilities(list: &Vec<Capability>) -> (r: Vec<Capability>)
    ensures
        r@ == list@,
{
    let mut r: Vec<Capability> = Vec::new();
    let mut i: usize = 0;
    while i < list.len()
        invariant
            i <= list@.len(),
            r@ == list@.take(i as int),
        decreases list@.len() - i,
    {
        r.push(list[i]);
        i = i + 1;
    }
    assert(list@.take(i as int) =~= list@);
    r
}

/// Whether a contract asks for a capability.
pub fn asks_for(contract: &Contract, capability: Capability) -> (r: bool)
    ensures
        r == contract@.requested_capabilities.contains(capability),
{
    let list = &contract.requested_capabilities;
    let mut i: usize = 0;
    while i < list.len()
        invariant
            i <= list@.len(),
            list@ == contract@.requested_capabilities,
            forall|j: int| 0 <= j < i ==> list@[j] != capability,
        decreases list@.len() - i,
    {
        if list[i] == capability {
            return true;
        }
        i = i + 1;
    }
    false
}

/// The newest revision of a task.
#[derive(Debug, Clone, PartialEq, Eq)]
pub struct Head {
    pub revision: u64,
    pub digest: String,
}

/// The view of [`Head`].
#[verifier::ext_equal]
pub struct HeadView {
    pub revision: u64,
    pub digest: Seq<char>,
}

impl View for Head {
    type V = HeadView;

    open spec fn view(&self) -> HeadView {
        HeadView {
            revision: self.revision,
            digest: self.digest@,
        }
    }
}

impl Record for Head {
    fn dup(&self) -> (r: Self) {
        let r = Head {
            revision: self.revision,
            digest: self.digest.clone(),
        };
        r
    }
}

/// The head of a task's chain of revisions.
#[derive(Debug, Clone, PartialEq, Eq)]
pub enum HeadState {
    /// No revision was submitted.
    Empty,
    /// Submitted, and awaiting a decision.
    Open(Head),
    /// Accepted: no revision can follow.
    Locked(Head),
}

/// The view of [`HeadState`].
pub enum HeadStateView {
    Empty,
    Open(HeadView),
    Locked(HeadView),
}

impl View for HeadState {
    type V = HeadStateView;

    open spec fn view(&self) -> HeadStateView {
        match self {
            HeadState::Empty => HeadStateView::Empty,
            HeadState::Open(h) => HeadStateView::Open(h@),
            HeadState::Locked(h) => HeadStateView::Locked(h@),
        }
    }
}

/// Why a revision does not advance the head.
#[derive(Debug, Clone, Copy, PartialEq, Eq, Structural)]
pub enum StaleReason {
    /// A revision zero, where there is a head already.
    HeadAlreadyExists,
    /// The head is accepted.
    HeadLocked,
    /// A later revision, where there is no head.
    NoHead,
    /// Not the revision that follows the head.
    NotSuccessor,
}

/// What a revision does to the head.
#[derive(Debug, Clone, PartialEq, Eq)]
pub enum RevisionVerdict {
    Advance(Head),
    Stale(StaleReason),
}

/// The view of [`RevisionVerdict`].
pub enum RevisionVerdictView {
    Advance(HeadView),
    Stale(StaleReason),
}

impl View for RevisionVerdict {
    type V = RevisionVerdictView;

    open spec fn view(&self) -> RevisionVerdictView {
        match self {
            RevisionVerdict::Advance(h) => RevisionVerdictView::Advance(h@),
            RevisionVerdict::Stale(r) => RevisionVerdictView::Stale(*r),
        }
    }
}

/// What a revision does to a head: revision zero opens an empty head, the next
/// revision that names the open head as its predecessor advances it, and
/// everything else is stale.
pub open spec fn revision_verdict(
    head: HeadStateView,
    proposal: ParsedContractView,
) -> RevisionVerdictView {
    let c = proposal.contract;
    match head {
        HeadStateView::Locked(_) => RevisionVerdictView::Stale(StaleReason::HeadLocked),
        HeadStateView::Empty => if c.revision == 0 {
            RevisionVerdictView::Advance(HeadView { revision: 0, digest: proposal.digest })
        } else {
            RevisionVerdictView::Stale(StaleReason::NoHead)
        },
        HeadStateView::Open(h) => if c.revision == 0 {
            RevisionVerdictView::Stale(StaleReason::HeadAlreadyExists)
        } else if c.revision == h.revision + 1 && c.predecessor_digest == Some(h.digest) {
            RevisionVerdictView::Advance(
                HeadView { revision: c.revision, digest: proposal.digest },
            )
        } else {
            RevisionVerdictView::Stale(StaleReason::NotSuccessor)
        },
    }
}

/// Decides what a revision does to a head.
pub fn apply_revision(head: &HeadState, proposal: &ParsedContract) -> (r: RevisionVerdict)
    ensures
        r@ == revision_verdict(head@, proposal@),
{
    let c = &proposal.contract;
    match head {
        HeadState::Locked(_) => RevisionVerdict::Stale(StaleReason::HeadLocked),
        HeadState::Empty => if c.revision == 0 {
            RevisionVerdict::Advance(Head { revision: 0, digest: proposal.digest.clone() })
        } else {
            RevisionVerdict::Stale(StaleReason::NoHead)
        },
        HeadState::Open(h) => {
            if c.revision == 0 {
                return RevisionVerdict::Stale(StaleReason::HeadAlreadyExists);
            }
            let follows = match &c.predecessor_digest {
                Some(p) => same_text(p, &h.digest),
                None => false,
            };
            if follows && c.revision - 1 == h.revision {
                RevisionVerdict::Advance(
                    Head { revision: c.revision, digest: proposal.digest.clone() },
                )
            } else {
                RevisionVerdict::Stale(StaleReason::NotSuccessor)
            }
        },
    }
}

/// Why a head cannot be locked.
#[derive(Debug, Clone, Copy, PartialEq, Eq, Structural)]
pub enum LockError {
    /// There is no revision to accept.
    NoHead,
    /// A revision was accepted already.
    AlreadyLocked,
    /// The head is another revision.
    DigestMismatch,
}

/// Whether a head can be locked at a digest: only an open head, at its own digest.
pub open spec fn lock_verdict(head: HeadStateView, digest: Seq<char>) -> Result<(), LockError> {
    match head {
        HeadStateView::Empty => Err(LockError::NoHead),
        HeadStateView::Locked(_) => Err(LockError::AlreadyLocked),
        HeadStateView::Open(h) => if h.digest == digest {
            Ok(())
        } else {
            Err(LockError::DigestMismatch)
        },
    }
}

/// Decides whether a head can be locked at a digest.
pub fn accept_head(head: &HeadState, digest: &str) -> (r: Result<(), LockError>)
    ensures
        r == lock_verdict(head@, digest@),
{
    match head {
        HeadState::Empty => Err(LockError::NoHead),
        HeadState::Locked(_) => Err(LockError::AlreadyLocked),
        HeadState::Open(h) => if same_text(&h.digest, digest) {
            Ok(())
        } else {
            Err(LockError::DigestMismatch)
        },
    }
}

/// Where an instant lies in a contract's window.
#[derive(Debug, Clone, Copy, PartialEq, Eq, Structural)]
pub enum Validity {
    Valid,
    NotYetValid,
    Expired,
}

/// A contract is effective from its creation until before its expiry. `None`
/// where one of the two timestamps denotes no instant.
pub open spec fn validity_at(c: ContractView, now: int) -> Option<Validity> {
    match (outside::rfc3339_value(c.created_at), outside::rfc3339_value(c.expires_at)) {
        (Some(created), Some(expires)) => Some(
            if now < created {
                Validity::NotYetValid
            } else if now >= expires {
                Validity::Expired
            } else {
                Validity::Valid
            },
        ),
        _ => None,
    }
}

/// Where `now` lies in a contract's window.
pub fn validity(contract: &Contract, now: i64) -> (r: Option<Validity>)
    ensures
        r == validity_at(contract@, now as int),
{
    match (rfc3339_instant(&contract.created_at), rfc3339_instant(&contract.expires_at)) {
        (Some(created), Some(expires)) => Some(
            if now < created {
                Validity::NotYetValid
            } else if now >= expires {
                Validity::Expired
            } else {
                Validity::Valid
            },
        ),
        _ => None,
    }
}

/// Once a head is locked, no revision advances it: an accepted contract stands.
pub proof fn locked_head_bars_successors(head: HeadView, proposal: ParsedContractView)
    ensures
        revision_verdict(HeadStateView::Locked(head), proposal) == RevisionVerdictView::Stale(
            StaleReason::HeadLocked,
        ),
{
}

/// A revision that advances an open head is one past it and names it as its
/// predecessor, so a chain of revisions neither skips nor forks.
pub proof fn revisions_form_a_chain(head: HeadView, proposal: ParsedContractView, next: HeadView)
    requires
        revision_verdict(HeadStateView::Open(head), proposal) == RevisionVerdictView::Advance(next),
    ensures
        next.revision == head.revision + 1,
        next.digest == proposal.digest,
        proposal.contract.predecessor_digest == Some(head.digest),
{
}

} // verus!
