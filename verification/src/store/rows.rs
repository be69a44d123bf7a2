//! The rows that the store keeps.
use crate::authority::{AttemptState, Budgets, BudgetsView, IssuedWorkOrder, IssuedWorkOrderView};
use crate::broker::{
    ProcessorCall, ProcessorCallView, ProcessorConfig, ProcessorConfigView, SubAttemptState,
};
use crate::contract::{Contract, ContractView};
use crate::identity::{PeerStatus, StoredPeer, StoredPeerView};
use crate::table::{Record, dup_option};
use crate::text::{copy_bytes, copy_option, copy_option_bytes};
use crate::text;
use vstd::prelude::*;

verus! {

/// A pinned peer, under its root.
#[derive(Debug, Clone, PartialEq, Eq)]
pub struct PeerRow {
    pub peer: StoredPeer,
    pub status: PeerStatus,
    pub created_generation: u64,
}

/// The view of [`PeerRow`].
#[verifier::ext_equal]
pub struct PeerRowView {
    pub peer: StoredPeerView,
    pub status: PeerStatus,
    pub created_generation: u64,
}

impl View for PeerRow {
    type V = PeerRowView;

    open spec fn view(&self) -> PeerRowView {
        PeerRowView {
            peer: self.peer@,
            status: self.status,
            created_generation: self.created_generation,
        }
    }
}

impl Record for PeerRow {
    fn dup(&self) -> (r: Self) {
        let r = PeerRow {
            peer: self.peer.dup(),
            status: self.status,
            created_generation: self.created_generation,
        };
        r
    }
}

/// A verification key of a peer, under the fingerprint of its certificate and the
/// purpose of the key.
#[derive(Debug, Clone, PartialEq, Eq)]
pub struct PeerKeyRow {
    pub agent_id: String,
    pub issuer: String,
    pub public_key: [u8; 32],
    pub root_thumbprint: String,
    pub updated_at: i64,
}

/// The view of [`PeerKeyRow`].
#[verifier::ext_equal]
pub struct PeerKeyRowView {
    pub agent_id: Seq<char>,
    pub issuer: Seq<char>,
    pub public_key: Seq<u8>,
    pub root_thumbprint: Seq<char>,
    pub updated_at: i64,
}

impl View for PeerKeyRow {
    type V = PeerKeyRowView;

    open spec fn view(&self) -> PeerKeyRowView {
        PeerKeyRowView {
            agent_id: self.agent_id@,
            issuer: self.issuer@,
            public_key: self.public_key@,
            root_thumbprint: self.root_thumbprint@,
            updated_at: self.updated_at,
        }
    }
}

impl Record for PeerKeyRow {
    fn dup(&self) -> (r: Self) {
        let r = PeerKeyRow {
            agent_id: self.agent_id.clone(),
            issuer: self.issuer.clone(),
            public_key: self.public_key,
            root_thumbprint: self.root_thumbprint.clone(),
            updated_at: self.updated_at,
        };
        r
    }
}

/// A standing approval, under the root of the peer.
#[derive(Debug, Clone, PartialEq, Eq)]
pub struct PolicyRow {
    pub agent_id: String,
    /// The approved task types, one a line.
    pub task_types: String,
    pub max_response_bytes: i64,
    pub updated_at: i64,
}

/// The view of [`PolicyRow`].
#[verifier::ext_equal]
pub struct PolicyRowView {
    pub agent_id: Seq<char>,
    pub task_types: Seq<char>,
    pub max_response_bytes: i64,
    pub updated_at: i64,
}

impl View for PolicyRow {
    type V = PolicyRowView;

    open spec fn view(&self) -> PolicyRowView {
        PolicyRowView {
            agent_id: self.agent_id@,
            task_types: self.task_types@,
            max_response_bytes: self.max_response_bytes,
            updated_at: self.updated_at,
        }
    }
}

impl Record for PolicyRow {
    fn dup(&self) -> (r: Self) {
        let r = PolicyRow {
            agent_id: self.agent_id.clone(),
            task_types: self.task_types.clone(),
            max_response_bytes: self.max_response_bytes,
            updated_at: self.updated_at,
        };
        r
    }
}

/// A relationship with a peer, under its root. A removed one keeps its epoch, but
/// no label.
#[derive(Debug, Clone, PartialEq, Eq)]
pub struct ImportRow {
    pub label: Option<String>,
    pub endpoint_hint: String,
    pub epoch: u64,
    pub added_at: i64,
    pub tombstoned_at: Option<i64>,
}

/// The view of [`ImportRow`].
#[verifier::ext_equal]
pub struct ImportRowView {
    pub label: Option<Seq<char>>,
    pub endpoint_hint: Seq<char>,
    pub epoch: u64,
    pub added_at: i64,
    pub tombstoned_at: Option<i64>,
}

impl View for ImportRow {
    type V = ImportRowView;

    open spec fn view(&self) -> ImportRowView {
        ImportRowView {
            label: text::view_option(self.label),
            endpoint_hint: self.endpoint_hint@,
            epoch: self.epoch,
            added_at: self.added_at,
            tombstoned_at: self.tombstoned_at,
        }
    }
}

impl Record for ImportRow {
    fn dup(&self) -> (r: Self) {
        let r = ImportRow {
            label: copy_option(&self.label),
            endpoint_hint: self.endpoint_hint.clone(),
            epoch: self.epoch,
            added_at: self.added_at,
            tombstoned_at: self.tombstoned_at,
        };
        r
    }
}

/// Refused introductions, under who claimed to call, from where, and why it was
/// refused.
#[derive(Debug, Clone, PartialEq, Eq)]
pub struct KnockRow {
    pub first_at: i64,
    pub last_at: i64,
    pub count: u64,
}

/// The view of [`KnockRow`].
#[verifier::ext_equal]
pub struct KnockRowView {
    pub first_at: i64,
    pub last_at: i64,
    pub count: u64,
}

impl View for KnockRow {
    type V = KnockRowView;

    open spec fn view(&self) -> KnockRowView {
        KnockRowView {
            first_at: self.first_at,
            last_at: self.last_at,
            count: self.count,
        }
    }
}

impl Record for KnockRow {
    fn dup(&self) -> (r: Self) {
        let r = KnockRow {
            first_at: self.first_at,
            last_at: self.last_at,
            count: self.count,
        };
        r
    }
}

/// A received request, under its peer and message id.
#[derive(Debug, Clone, PartialEq, Eq)]
pub struct InboxRow {
    pub commitment: Vec<u8>,
    pub body_digest: String,
    pub task_id: Option<String>,
    pub response_class: String,
    pub body: Vec<u8>,
    /// The saved response; absent where it could not be read back.
    pub response: Option<Vec<u8>>,
    pub received_at: i64,
}

/// The view of [`InboxRow`].
#[verifier::ext_equal]
pub struct InboxRowView {
    pub commitment: Seq<u8>,
    pub body_digest: Seq<char>,
    pub task_id: Option<Seq<char>>,
    pub response_class: Seq<char>,
    pub body: Seq<u8>,
    pub response: Option<Seq<u8>>,
    pub received_at: i64,
}

impl View for InboxRow {
    type V = InboxRowView;

    open spec fn view(&self) -> InboxRowView {
        InboxRowView {
            commitment: self.commitment@,
            body_digest: self.body_digest@,
            task_id: text::view_option(self.task_id),
            response_class: self.response_class@,
            body: self.body@,
            response: text::view_bytes(self.response),
            received_at: self.received_at,
        }
    }
}

impl Record for InboxRow {
    fn dup(&self) -> (r: Self) {
        let r = InboxRow {
            commitment: copy_bytes(&self.commitment),
            body_digest: self.body_digest.clone(),
            task_id: copy_option(&self.task_id),
            response_class: self.response_class.clone(),
            body: copy_bytes(&self.body),
            response: copy_option_bytes(&self.response),
            received_at: self.received_at,
        };
        r
    }
}

/// A received request whose body was dropped.
#[derive(Debug, Clone, PartialEq, Eq)]
pub struct TombstoneRow {
    pub commitment: Vec<u8>,
    pub task_id: Option<String>,
    pub response_class: String,
    pub response: Option<Vec<u8>>,
    pub expires_at: i64,
}

/// The view of [`TombstoneRow`].
#[verifier::ext_equal]
pub struct TombstoneRowView {
    pub commitment: Seq<u8>,
    pub task_id: Option<Seq<char>>,
    pub response_class: Seq<char>,
    pub response: Option<Seq<u8>>,
    pub expires_at: i64,
}

impl View for TombstoneRow {
    type V = TombstoneRowView;

    open spec fn view(&self) -> TombstoneRowView {
        TombstoneRowView {
            commitment: self.commitment@,
            task_id: text::view_option(self.task_id),
            response_class: self.response_class@,
            response: text::view_bytes(self.response),
            expires_at: self.expires_at,
        }
    }
}

impl Record for TombstoneRow {
    fn dup(&self) -> (r: Self) {
        let r = TombstoneRow {
            commitment: copy_bytes(&self.commitment),
            task_id: copy_option(&self.task_id),
            response_class: self.response_class.clone(),
            response: copy_option_bytes(&self.response),
            expires_at: self.expires_at,
        };
        r
    }
}

/// The head of a task.
#[derive(Debug, Clone, PartialEq, Eq)]
pub struct HeadRow {
    pub contract_id: String,
    pub revision: u64,
    pub digest: String,
    pub locked: bool,
    /// The root that the proposal came from.
    pub origin_root: String,
    pub context_id: String,
}

/// The view of [`HeadRow`].
#[verifier::ext_equal]
pub struct HeadRowView {
    pub contract_id: Seq<char>,
    pub revision: u64,
    pub digest: Seq<char>,
    pub locked: bool,
    pub origin_root: Seq<char>,
    pub context_id: Seq<char>,
}

impl View for HeadRow {
    type V = HeadRowView;

    open spec fn view(&self) -> HeadRowView {
        HeadRowView {
            contract_id: self.contract_id@,
            revision: self.revision,
            digest: self.digest@,
            locked: self.locked,
            origin_root: self.origin_root@,
            context_id: self.context_id@,
        }
    }
}

impl Record for HeadRow {
    fn dup(&self) -> (r: Self) {
        let r = HeadRow {
            contract_id: self.contract_id.clone(),
            revision: self.revision,
            digest: self.digest.clone(),
            locked: self.locked,
            origin_root: self.origin_root.clone(),
            context_id: self.context_id.clone(),
        };
        r
    }
}

/// A stored revision, under its digest.
#[derive(Debug, Clone, PartialEq, Eq)]
pub struct ContractRow {
    pub task_id: String,
    pub contract_id: String,
    pub revision: u64,
    pub payload: Vec<u8>,
    /// What the payload says; absent where it could not be read back.
    pub contract: Option<Contract>,
    pub expires_at: i64,
}

/// The view of [`ContractRow`].
#[verifier::ext_equal]
pub struct ContractRowView {
    pub task_id: Seq<char>,
    pub contract_id: Seq<char>,
    pub revision: u64,
    pub payload: Seq<u8>,
    pub contract: Option<ContractView>,
    pub expires_at: i64,
}

impl View for ContractRow {
    type V = ContractRowView;

    open spec fn view(&self) -> ContractRowView {
        ContractRowView {
            task_id: self.task_id@,
            contract_id: self.contract_id@,
            revision: self.revision,
            payload: self.payload@,
            contract: match self.contract {
                Some(x) => Some(x@),
                None => None,
            },
            expires_at: self.expires_at,
        }
    }
}

impl Record for ContractRow {
    fn dup(&self) -> (r: Self) {
        let r = ContractRow {
            task_id: self.task_id.clone(),
            contract_id: self.contract_id.clone(),
            revision: self.revision,
            payload: copy_bytes(&self.payload),
            contract: dup_option(&self.contract),
            expires_at: self.expires_at,
        };
        r
    }
}

/// That a task was reacted to.
#[derive(Debug, Clone, PartialEq, Eq)]
pub struct ReactionRow {
    pub reacted_at: i64,
}

/// The view of [`ReactionRow`].
#[verifier::ext_equal]
pub struct ReactionRowView {
    pub reacted_at: i64,
}

impl View for ReactionRow {
    type V = ReactionRowView;

    open spec fn view(&self) -> ReactionRowView {
        ReactionRowView {
            reacted_at: self.reacted_at,
        }
    }
}

impl Record for ReactionRow {
    fn dup(&self) -> (r: Self) {
        let r = ReactionRow {
            reacted_at: self.reacted_at,
        };
        r
    }
}

/// The attempt at a work order.
#[derive(Debug, Clone, PartialEq, Eq)]
pub struct AttemptRow {
    pub nonce: String,
    pub task_id: String,
    pub work_order_digest: String,
    pub state: AttemptState,
    pub budgets: Budgets,
    pub claimed_at: i64,
    pub deadline: String,
}

/// The view of [`AttemptRow`].
#[verifier::ext_equal]
pub struct AttemptRowView {
    pub nonce: Seq<char>,
    pub task_id: Seq<char>,
    pub work_order_digest: Seq<char>,
    pub state: AttemptState,
    pub budgets: BudgetsView,
    pub claimed_at: i64,
    pub deadline: Seq<char>,
}

impl View for AttemptRow {
    type V = AttemptRowView;

    open spec fn view(&self) -> AttemptRowView {
        AttemptRowView {
            nonce: self.nonce@,
            task_id: self.task_id@,
            work_order_digest: self.work_order_digest@,
            state: self.state,
            budgets: self.budgets@,
            claimed_at: self.claimed_at,
            deadline: self.deadline@,
        }
    }
}

impl Record for AttemptRow {
    fn dup(&self) -> (r: Self) {
        let r = AttemptRow {
            nonce: self.nonce.clone(),
            task_id: self.task_id.clone(),
            work_order_digest: self.work_order_digest.clone(),
            state: self.state,
            budgets: self.budgets.dup(),
            claimed_at: self.claimed_at,
            deadline: self.deadline.clone(),
        };
        r
    }
}

/// An issued work order.
#[derive(Debug, Clone, PartialEq, Eq)]
pub struct WorkOrderRow {
    pub issued: IssuedWorkOrder,
    pub issued_at: i64,
}

/// The view of [`WorkOrderRow`].
#[verifier::ext_equal]
pub struct WorkOrderRowView {
    pub issued: IssuedWorkOrderView,
    pub issued_at: i64,
}

impl View for WorkOrderRow {
    type V = WorkOrderRowView;

    open spec fn view(&self) -> WorkOrderRowView {
        WorkOrderRowView {
            issued: self.issued@,
            issued_at: self.issued_at,
        }
    }
}

impl Record for WorkOrderRow {
    fn dup(&self) -> (r: Self) {
        let r = WorkOrderRow {
            issued: self.issued.dup(),
            issued_at: self.issued_at,
        };
        r
    }
}

/// The signed result of a completed attempt, under its work order.
#[derive(Debug, Clone, PartialEq, Eq)]
pub struct ResultRow {
    pub task_id: String,
    pub bundle_digest: String,
    pub manifest: Vec<u8>,
    pub completed_at: i64,
}

/// The view of [`ResultRow`].
#[verifier::ext_equal]
pub struct ResultRowView {
    pub task_id: Seq<char>,
    pub bundle_digest: Seq<char>,
    pub manifest: Seq<u8>,
    pub completed_at: i64,
}

impl View for ResultRow {
    type V = ResultRowView;

    open spec fn view(&self) -> ResultRowView {
        ResultRowView {
            task_id: self.task_id@,
            bundle_digest: self.bundle_digest@,
            manifest: self.manifest@,
            completed_at: self.completed_at,
        }
    }
}

impl Record for ResultRow {
    fn dup(&self) -> (r: Self) {
        let r = ResultRow {
            task_id: self.task_id.clone(),
            bundle_digest: self.bundle_digest.clone(),
            manifest: copy_bytes(&self.manifest),
            completed_at: self.completed_at,
        };
        r
    }
}

/// A task sent to a performer, under the digest of its contract.
#[derive(Debug, Clone, PartialEq, Eq)]
pub struct SentRow {
    pub task_id: String,
    pub context_id: String,
    pub performer_root: String,
    pub contract_id: String,
    pub performer_agent: String,
    pub performer_issuer: String,
    pub message_id: String,
    pub requested_at: i64,
}

/// The view of [`SentRow`].
#[verifier::ext_equal]
pub struct SentRowView {
    pub task_id: Seq<char>,
    pub context_id: Seq<char>,
    pub performer_root: Seq<char>,
    pub contract_id: Seq<char>,
    pub performer_agent: Seq<char>,
    pub performer_issuer: Seq<char>,
    pub message_id: Seq<char>,
    pub requested_at: i64,
}

impl View for SentRow {
    type V = SentRowView;

    open spec fn view(&self) -> SentRowView {
        SentRowView {
            task_id: self.task_id@,
            context_id: self.context_id@,
            performer_root: self.performer_root@,
            contract_id: self.contract_id@,
            performer_agent: self.performer_agent@,
            performer_issuer: self.performer_issuer@,
            message_id: self.message_id@,
            requested_at: self.requested_at,
        }
    }
}

impl Record for SentRow {
    fn dup(&self) -> (r: Self) {
        let r = SentRow {
            task_id: self.task_id.clone(),
            context_id: self.context_id.clone(),
            performer_root: self.performer_root.clone(),
            contract_id: self.contract_id.clone(),
            performer_agent: self.performer_agent.clone(),
            performer_issuer: self.performer_issuer.clone(),
            message_id: self.message_id.clone(),
            requested_at: self.requested_at,
        };
        r
    }
}

/// The signed disposition of a result, under the digest of the contract.
#[derive(Debug, Clone, PartialEq, Eq)]
pub struct OutcomeRow {
    pub task_id: String,
    pub bundle_digest: String,
    pub outcome_digest: String,
    pub state: String,
    pub outcome: Vec<u8>,
    pub signed_at: String,
    pub recorded_at: i64,
}

/// The view of [`OutcomeRow`].
#[verifier::ext_equal]
pub struct OutcomeRowView {
    pub task_id: Seq<char>,
    pub bundle_digest: Seq<char>,
    pub outcome_digest: Seq<char>,
    pub state: Seq<char>,
    pub outcome: Seq<u8>,
    pub signed_at: Seq<char>,
    pub recorded_at: i64,
}

impl View for OutcomeRow {
    type V = OutcomeRowView;

    open spec fn view(&self) -> OutcomeRowView {
        OutcomeRowView {
            task_id: self.task_id@,
            bundle_digest: self.bundle_digest@,
            outcome_digest: self.outcome_digest@,
            state: self.state@,
            outcome: self.outcome@,
            signed_at: self.signed_at@,
            recorded_at: self.recorded_at,
        }
    }
}

impl Record for OutcomeRow {
    fn dup(&self) -> (r: Self) {
        let r = OutcomeRow {
            task_id: self.task_id.clone(),
            bundle_digest: self.bundle_digest.clone(),
            outcome_digest: self.outcome_digest.clone(),
            state: self.state.clone(),
            outcome: copy_bytes(&self.outcome),
            signed_at: self.signed_at.clone(),
            recorded_at: self.recorded_at,
        };
        r
    }
}

/// A configured processor.
#[derive(Debug, Clone, PartialEq, Eq)]
pub struct ProcessorRow {
    pub config: ProcessorConfig,
    pub added_at: i64,
}

/// The view of [`ProcessorRow`].
#[verifier::ext_equal]
pub struct ProcessorRowView {
    pub config: ProcessorConfigView,
    pub added_at: i64,
}

impl View for ProcessorRow {
    type V = ProcessorRowView;

    open spec fn view(&self) -> ProcessorRowView {
        ProcessorRowView {
            config: self.config@,
            added_at: self.added_at,
        }
    }
}

impl Record for ProcessorRow {
    fn dup(&self) -> (r: Self) {
        let r = ProcessorRow {
            config: self.config.dup(),
            added_at: self.added_at,
        };
        r
    }
}

/// The credential of a processor.
#[derive(Debug, Clone, PartialEq, Eq)]
pub struct CredentialRow {
    pub credential: Vec<u8>,
    pub updated_at: i64,
}

/// The view of [`CredentialRow`].
#[verifier::ext_equal]
pub struct CredentialRowView {
    pub credential: Seq<u8>,
    pub updated_at: i64,
}

impl View for CredentialRow {
    type V = CredentialRowView;

    open spec fn view(&self) -> CredentialRowView {
        CredentialRowView {
            credential: self.credential@,
            updated_at: self.updated_at,
        }
    }
}

impl Record for CredentialRow {
    fn dup(&self) -> (r: Self) {
        let r = CredentialRow {
            credential: copy_bytes(&self.credential),
            updated_at: self.updated_at,
        };
        r
    }
}

/// An input of a task, under the task and the input.
#[derive(Debug, Clone, PartialEq, Eq)]
pub struct InputRow {
    pub ordinal: i64,
    pub media_type: String,
    pub byte_length: i64,
    pub sha256: String,
    pub payload: Vec<u8>,
}

/// The view of [`InputRow`].
#[verifier::ext_equal]
pub struct InputRowView {
    pub ordinal: i64,
    pub media_type: Seq<char>,
    pub byte_length: i64,
    pub sha256: Seq<char>,
    pub payload: Seq<u8>,
}

impl View for InputRow {
    type V = InputRowView;

    open spec fn view(&self) -> InputRowView {
        InputRowView {
            ordinal: self.ordinal,
            media_type: self.media_type@,
            byte_length: self.byte_length,
            sha256: self.sha256@,
            payload: self.payload@,
        }
    }
}

impl Record for InputRow {
    fn dup(&self) -> (r: Self) {
        let r = InputRow {
            ordinal: self.ordinal,
            media_type: self.media_type.clone(),
            byte_length: self.byte_length,
            sha256: self.sha256.clone(),
            payload: copy_bytes(&self.payload),
        };
        r
    }
}

/// An output of a task, under the task and the artifact.
#[derive(Debug, Clone, PartialEq, Eq)]
pub struct OutputRow {
    pub ordinal: i64,
    pub role: String,
    pub media_type: String,
    pub byte_length: i64,
    pub sha256: String,
    pub payload: Vec<u8>,
}

/// The view of [`OutputRow`].
#[verifier::ext_equal]
pub struct OutputRowView {
    pub ordinal: i64,
    pub role: Seq<char>,
    pub media_type: Seq<char>,
    pub byte_length: i64,
    pub sha256: Seq<char>,
    pub payload: Seq<u8>,
}

impl View for OutputRow {
    type V = OutputRowView;

    open spec fn view(&self) -> OutputRowView {
        OutputRowView {
            ordinal: self.ordinal,
            role: self.role@,
            media_type: self.media_type@,
            byte_length: self.byte_length,
            sha256: self.sha256@,
            payload: self.payload@,
        }
    }
}

impl Record for OutputRow {
    fn dup(&self) -> (r: Self) {
        let r = OutputRow {
            ordinal: self.ordinal,
            role: self.role.clone(),
            media_type: self.media_type.clone(),
            byte_length: self.byte_length,
            sha256: self.sha256.clone(),
            payload: copy_bytes(&self.payload),
        };
        r
    }
}

/// A processor call, under its idempotency key.
#[derive(Debug, Clone, PartialEq, Eq)]
pub struct CallRow {
    pub call: ProcessorCall,
    pub state: SubAttemptState,
    pub prepared_at: i64,
}

/// The view of [`CallRow`].
#[verifier::ext_equal]
pub struct CallRowView {
    pub call: ProcessorCallView,
    pub state: SubAttemptState,
    pub prepared_at: i64,
}

impl View for CallRow {
    type V = CallRowView;

    open spec fn view(&self) -> CallRowView {
        CallRowView {
            call: self.call@,
            state: self.state,
            prepared_at: self.prepared_at,
        }
    }
}

impl Record for CallRow {
    fn dup(&self) -> (r: Self) {
        let r = CallRow {
            call: self.call.dup(),
            state: self.state,
            prepared_at: self.prepared_at,
        };
        r
    }
}

/// How far a staged contract has come.
#[derive(Debug, Clone, Copy, PartialEq, Eq, Structural)]
pub enum StageStatus {
    Staged,
    Consented,
    Dispatched,
}

/// How far the carriage of a dispatch has come.
#[derive(Debug, Clone, Copy, PartialEq, Eq, Structural)]
pub enum EgressState {
    /// No acknowledgement is known.
    Pending,
    /// The recipient acknowledged the bytes.
    Sent,
    /// The last carriage failed.
    Failed,
}

/// Bytes staged for a disclosure, under the reference derived from them.
#[derive(Debug, Clone, PartialEq, Eq)]
pub struct StageRow {
    pub staged_digest: String,
    pub task_type: String,
    pub performer: String,
    pub payload_sha256: String,
    pub payload: Vec<u8>,
    pub status: StageStatus,
    pub staged_at: i64,
}

/// The view of [`StageRow`].
#[verifier::ext_equal]
pub struct StageRowView {
    pub staged_digest: Seq<char>,
    pub task_type: Seq<char>,
    pub performer: Seq<char>,
    pub payload_sha256: Seq<char>,
    pub payload: Seq<u8>,
    pub status: StageStatus,
    pub staged_at: i64,
}

impl View for StageRow {
    type V = StageRowView;

    open spec fn view(&self) -> StageRowView {
        StageRowView {
            staged_digest: self.staged_digest@,
            task_type: self.task_type@,
            performer: self.performer@,
            payload_sha256: self.payload_sha256@,
            payload: self.payload@,
            status: self.status,
            staged_at: self.staged_at,
        }
    }
}

impl Record for StageRow {
    fn dup(&self) -> (r: Self) {
        let r = StageRow {
            staged_digest: self.staged_digest.clone(),
            task_type: self.task_type.clone(),
            performer: self.performer.clone(),
            payload_sha256: self.payload_sha256.clone(),
            payload: copy_bytes(&self.payload),
            status: self.status,
            staged_at: self.staged_at,
        };
        r
    }
}

/// A consent receipt.
#[derive(Debug, Clone, PartialEq, Eq)]
pub struct ReceiptRow {
    pub stage_ref: String,
    pub staged_digest: String,
    pub payload_sha256: String,
    /// What it can be spent on.
    pub purpose: String,
    pub max_uses: u32,
    pub uses: u32,
    pub minted_at: i64,
}

/// The view of [`ReceiptRow`].
#[verifier::ext_equal]
pub struct ReceiptRowView {
    pub stage_ref: Seq<char>,
    pub staged_digest: Seq<char>,
    pub payload_sha256: Seq<char>,
    pub purpose: Seq<char>,
    pub max_uses: u32,
    pub uses: u32,
    pub minted_at: i64,
}

impl View for ReceiptRow {
    type V = ReceiptRowView;

    open spec fn view(&self) -> ReceiptRowView {
        ReceiptRowView {
            stage_ref: self.stage_ref@,
            staged_digest: self.staged_digest@,
            payload_sha256: self.payload_sha256@,
            purpose: self.purpose@,
            max_uses: self.max_uses,
            uses: self.uses,
            minted_at: self.minted_at,
        }
    }
}

impl Record for ReceiptRow {
    fn dup(&self) -> (r: Self) {
        let r = ReceiptRow {
            stage_ref: self.stage_ref.clone(),
            staged_digest: self.staged_digest.clone(),
            payload_sha256: self.payload_sha256.clone(),
            purpose: self.purpose.clone(),
            max_uses: self.max_uses,
            uses: self.uses,
            minted_at: self.minted_at,
        };
        r
    }
}

/// A dispatch, under the execution key of the attempt that made it.
#[derive(Debug, Clone, PartialEq, Eq)]
pub struct DispatchRow {
    pub stage_ref: String,
    pub staged_digest: String,
    pub receipt_id: String,
    pub dispatch_receipt: String,
    pub dispatched_at: i64,
    pub egress_state: EgressState,
    pub egress_at: Option<i64>,
    pub egress_detail: String,
}

/// The view of [`DispatchRow`].
#[verifier::ext_equal]
pub struct DispatchRowView {
    pub stage_ref: Seq<char>,
    pub staged_digest: Seq<char>,
    pub receipt_id: Seq<char>,
    pub dispatch_receipt: Seq<char>,
    pub dispatched_at: i64,
    pub egress_state: EgressState,
    pub egress_at: Option<i64>,
    pub egress_detail: Seq<char>,
}

impl View for DispatchRow {
    type V = DispatchRowView;

    open spec fn view(&self) -> DispatchRowView {
        DispatchRowView {
            stage_ref: self.stage_ref@,
            staged_digest: self.staged_digest@,
            receipt_id: self.receipt_id@,
            dispatch_receipt: self.dispatch_receipt@,
            dispatched_at: self.dispatched_at,
            egress_state: self.egress_state,
            egress_at: self.egress_at,
            egress_detail: self.egress_detail@,
        }
    }
}

impl Record for DispatchRow {
    fn dup(&self) -> (r: Self) {
        let r = DispatchRow {
            stage_ref: self.stage_ref.clone(),
            staged_digest: self.staged_digest.clone(),
            receipt_id: self.receipt_id.clone(),
            dispatch_receipt: self.dispatch_receipt.clone(),
            dispatched_at: self.dispatched_at,
            egress_state: self.egress_state,
            egress_at: self.egress_at,
            egress_detail: self.egress_detail.clone(),
        };
        r
    }
}

impl StageStatus {
    /// The name of a status.
    pub open spec fn name(self) -> Seq<char> {
        match self {
            StageStatus::Staged => "staged"@,
            StageStatus::Consented => "consented"@,
            StageStatus::Dispatched => "dispatched"@,
        }
    }

    /// The name of this status.
    pub fn as_str(&self) -> (s: &'static str)
        ensures
            s@ == self.name(),
    {
        match self {
            StageStatus::Staged => "staged",
            StageStatus::Consented => "consented",
            StageStatus::Dispatched => "dispatched",
        }
    }
}

impl EgressState {
    /// The name of a state of carriage.
    pub open spec fn name(self) -> Seq<char> {
        match self {
            EgressState::Pending => "pending"@,
            EgressState::Sent => "sent"@,
            EgressState::Failed => "failed"@,
        }
    }

    /// The name of this state of carriage.
    pub fn as_str(&self) -> (s: &'static str)
        ensures
            s@ == self.name(),
    {
        match self {
            EgressState::Pending => "pending",
            EgressState::Sent => "sent",
            EgressState::Failed => "failed",
        }
    }
}

} // verus!
