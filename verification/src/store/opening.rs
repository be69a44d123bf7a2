//! Opening a state: from nothing, or from what was written out before.
use crate::audit::{AuditLog, AuditLogView, AuditRecord, AuditTip};
use crate::audit;
use crate::authority::AttemptState;
use crate::store::rows::{
    AttemptRow, AttemptRowView, CallRow, ContractRow, CredentialRow, DispatchRow, DispatchRowView,
    HeadRow, ImportRow, ImportRowView, InboxRow, InputRow, KnockRow, OutcomeRow, OutputRow,
    PeerKeyRow, PeerRow, PolicyRow, ProcessorRow, ReactionRow, ReceiptRow, ReceiptRowView,
    ResultRow, SentRow, StageRow, StageRowView, TombstoneRow, WorkOrderRow,
};
use crate::store::{
    CoordEvent, CoordEventKind, CoordEventView, ExternalCheckpoint, Recovery, RecoveryReason,
    Store, StoreError, StoreView,
};
use crate::store;
use crate::table::{Pair, Table, Triple, Record, dup_all};
use crate::table;
use crate::text::{same_option, same_text};
use crate::text;
use vstd::prelude::*;

verus! {

/// What the checkpoint says of a state with this generation.
pub open spec fn recovery_verdict(generation: u64, checkpoint: ExternalCheckpoint) -> Recovery {
    if !checkpoint.rollback_detectable {
        Recovery::RollbackDetectionUnavailable
    } else if generation != checkpoint.state_generation {
        Recovery::Recovery(
            RecoveryReason::StateGenerationMismatch {
                external: checkpoint.state_generation,
                database: generation,
            },
        )
    } else {
        Recovery::Normal
    }
}

/// The floor of time of an opened state: that of the checkpoint where it is higher
/// and the platform protects it.
pub open spec fn opened_floor(stored: i64, checkpoint: ExternalCheckpoint) -> i64 {
    if checkpoint.rollback_detectable && checkpoint.trusted_time > stored {
        checkpoint.trusted_time
    } else {
        stored
    }
}

/// A state as plain rows, to be written out and read back.
#[derive(Debug, Clone, PartialEq, Eq)]
pub struct Snapshot {
    pub commitment_key: [u8; 32],
    pub state_generation: u64,
    pub trusted_time: i64,
    pub audit: Vec<AuditRecord>,
    pub audit_tip: AuditTip,
    pub peers: Vec<(String, PeerRow)>,
    pub peer_keys: Vec<(Pair, PeerKeyRow)>,
    pub auto_approve: Vec<(String, PolicyRow)>,
    pub imports: Vec<(String, ImportRow)>,
    pub knocks: Vec<(Triple, KnockRow)>,
    pub inbox: Vec<(Pair, InboxRow)>,
    pub tombstones: Vec<(Pair, TombstoneRow)>,
    pub heads: Vec<(String, HeadRow)>,
    pub contracts: Vec<(String, ContractRow)>,
    pub reactions: Vec<(String, ReactionRow)>,
    pub attempts: Vec<(String, AttemptRow)>,
    pub work_orders: Vec<(String, WorkOrderRow)>,
    pub results: Vec<(String, ResultRow)>,
    pub sent_requests: Vec<(String, SentRow)>,
    pub outcomes: Vec<(String, OutcomeRow)>,
    pub processors: Vec<(String, ProcessorRow)>,
    pub credentials: Vec<(String, CredentialRow)>,
    pub task_inputs: Vec<(Pair, InputRow)>,
    pub task_outputs: Vec<(Pair, OutputRow)>,
    pub calls: Vec<(String, CallRow)>,
    pub stages: Vec<(String, StageRow)>,
    pub receipts: Vec<(String, ReceiptRow)>,
    pub dispatches: Vec<(String, DispatchRow)>,
    pub events: Vec<CoordEvent>,
}

impl Snapshot {
    /// No key stands in two rows of a table.
    pub open spec fn has_distinct_keys(self) -> bool {
        &&& table::distinct_keys(table::entries_of(self.peers@))
        &&& table::distinct_keys(table::entries_of(self.peer_keys@))
        &&& table::distinct_keys(table::entries_of(self.auto_approve@))
        &&& table::distinct_keys(table::entries_of(self.imports@))
        &&& table::distinct_keys(table::entries_of(self.knocks@))
        &&& table::distinct_keys(table::entries_of(self.inbox@))
        &&& table::distinct_keys(table::entries_of(self.tombstones@))
        &&& table::distinct_keys(table::entries_of(self.heads@))
        &&& table::distinct_keys(table::entries_of(self.contracts@))
        &&& table::distinct_keys(table::entries_of(self.reactions@))
        &&& table::distinct_keys(table::entries_of(self.attempts@))
        &&& table::distinct_keys(table::entries_of(self.work_orders@))
        &&& table::distinct_keys(table::entries_of(self.results@))
        &&& table::distinct_keys(table::entries_of(self.sent_requests@))
        &&& table::distinct_keys(table::entries_of(self.outcomes@))
        &&& table::distinct_keys(table::entries_of(self.processors@))
        &&& table::distinct_keys(table::entries_of(self.credentials@))
        &&& table::distinct_keys(table::entries_of(self.task_inputs@))
        &&& table::distinct_keys(table::entries_of(self.task_outputs@))
        &&& table::distinct_keys(table::entries_of(self.calls@))
        &&& table::distinct_keys(table::entries_of(self.stages@))
        &&& table::distinct_keys(table::entries_of(self.receipts@))
        &&& table::distinct_keys(table::entries_of(self.dispatches@))
    }

    /// The state that the rows stand for, opened under a checkpoint.
    pub open spec fn state(self, checkpoint: ExternalCheckpoint) -> StoreView {
        StoreView {
            commitment_key: self.commitment_key@,
            recovery: recovery_verdict(self.state_generation, checkpoint),
            state_generation: self.state_generation,
            trusted_time: opened_floor(self.trusted_time, checkpoint),
            audit: AuditLogView { records: table::seen(self.audit@), tip: self.audit_tip@ },
            peers: table::rows_map(table::entries_of(self.peers@)),
            peer_keys: table::rows_map(table::entries_of(self.peer_keys@)),
            auto_approve: table::rows_map(table::entries_of(self.auto_approve@)),
            imports: table::rows_map(table::entries_of(self.imports@)),
            knocks: table::rows_map(table::entries_of(self.knocks@)),
            inbox: table::rows_map(table::entries_of(self.inbox@)),
            tombstones: table::rows_map(table::entries_of(self.tombstones@)),
            heads: table::rows_map(table::entries_of(self.heads@)),
            contracts: table::rows_map(table::entries_of(self.contracts@)),
            reactions: table::rows_map(table::entries_of(self.reactions@)),
            attempts: table::rows_map(table::entries_of(self.attempts@)),
            work_orders: table::rows_map(table::entries_of(self.work_orders@)),
            results: table::rows_map(table::entries_of(self.results@)),
            sent_requests: table::rows_map(table::entries_of(self.sent_requests@)),
            outcomes: table::rows_map(table::entries_of(self.outcomes@)),
            processors: table::rows_map(table::entries_of(self.processors@)),
            credentials: table::rows_map(table::entries_of(self.credentials@)),
            task_inputs: table::rows_map(table::entries_of(self.task_inputs@)),
            task_outputs: table::rows_map(table::entries_of(self.task_outputs@)),
            calls: table::rows_map(table::entries_of(self.calls@)),
            stages: table::rows_map(table::entries_of(self.stages@)),
            receipts: table::rows_map(table::entries_of(self.receipts@)),
            dispatches: table::rows_map(table::entries_of(self.dispatches@)),
            events: table::seen(self.events@),
        }
    }
}

/// The state of an endpoint at its first start: nothing but its key, and the
/// generation and the time of the checkpoint.
pub open spec fn first_state(commitment_key: Seq<u8>, checkpoint: ExternalCheckpoint) -> StoreView {
    StoreView {
        commitment_key,
        recovery: recovery_verdict(checkpoint.state_generation, checkpoint),
        state_generation: checkpoint.state_generation,
        trusted_time: checkpoint.trusted_time,
        audit: audit::empty_log(),
        peers: Map::empty(),
        peer_keys: Map::empty(),
        auto_approve: Map::empty(),
        imports: Map::empty(),
        knocks: Map::empty(),
        inbox: Map::empty(),
        tombstones: Map::empty(),
        heads: Map::empty(),
        contracts: Map::empty(),
        reactions: Map::empty(),
        attempts: Map::empty(),
        work_orders: Map::empty(),
        results: Map::empty(),
        sent_requests: Map::empty(),
        outcomes: Map::empty(),
        processors: Map::empty(),
        credentials: Map::empty(),
        task_inputs: Map::empty(),
        task_outputs: Map::empty(),
        calls: Map::empty(),
        stages: Map::empty(),
        receipts: Map::empty(),
        dispatches: Map::empty(),
        events: Seq::empty(),
    }
}

fn verdict(generation: u64, checkpoint: ExternalCheckpoint) -> (r: Recovery)
    ensures
        r == recovery_verdict(generation, checkpoint),
{
    if !checkpoint.rollback_detectable {
        Recovery::RollbackDetectionUnavailable
    } else if generation != checkpoint.state_generation {
        Recovery::Recovery(
            RecoveryReason::StateGenerationMismatch {
                external: checkpoint.state_generation,
                database: generation,
            },
        )
    } else {
        Recovery::Normal
    }
}

fn not_distinct() -> (e: StoreError)
    ensures
        e is Corrupt,
{
    StoreError::Corrupt("two rows of a table have the same key".to_owned())
}

impl Store {
    /// The state of an endpoint at its first start. Its commitment key is drawn by
    /// the caller.
    pub fn open_in_memory(commitment_key: [u8; 32], checkpoint: ExternalCheckpoint) -> (r: Result<
        Store,
        StoreError,
    >)
        ensures
            match r {
                Ok(s) => s.wf() && s@ == first_state(commitment_key@, checkpoint),
                Err(_) => false,
            },
    {
        let s = Store {
            commitment_key,
            recovery: verdict(checkpoint.state_generation, checkpoint),
            state_generation: checkpoint.state_generation,
            trusted_time: checkpoint.trusted_time,
            audit: AuditLog::new(),
            peers: Table::new(),
            peer_keys: Table::new(),
            auto_approve: Table::new(),
            imports: Table::new(),
            knocks: Table::new(),
            inbox: Table::new(),
            tombstones: Table::new(),
            heads: Table::new(),
            contracts: Table::new(),
            reactions: Table::new(),
            attempts: Table::new(),
            work_orders: Table::new(),
            results: Table::new(),
            sent_requests: Table::new(),
            outcomes: Table::new(),
            processors: Table::new(),
            credentials: Table::new(),
            task_inputs: Table::new(),
            task_outputs: Table::new(),
            calls: Table::new(),
            stages: Table::new(),
            receipts: Table::new(),
            dispatches: Table::new(),
            events: Vec::new(),
        };
        assert(table::seen(s.events@) =~= Seq::<CoordEventView>::empty());
        assert(s@ =~= first_state(commitment_key@, checkpoint));
        Ok(s)
    }

    /// The state as plain rows.
    pub fn snapshot(&self) -> (r: Snapshot)
        requires
            self.wf(),
        ensures
            r.has_distinct_keys(),
            forall|checkpoint: ExternalCheckpoint| #[trigger]
                r.state(checkpoint) == (StoreView {
                    recovery: recovery_verdict(self@.state_generation, checkpoint),
                    trusted_time: opened_floor(self@.trusted_time, checkpoint),
                    ..self@
                }),
    {
        let r = Snapshot {
            commitment_key: self.commitment_key,
            state_generation: self.state_generation,
            trusted_time: self.trusted_time,
            audit: dup_all(self.audit.records()),
            audit_tip: self.audit.tip().dup(),
            peers: self.peers.to_rows(),
            peer_keys: self.peer_keys.to_rows(),
            auto_approve: self.auto_approve.to_rows(),
            imports: self.imports.to_rows(),
            knocks: self.knocks.to_rows(),
            inbox: self.inbox.to_rows(),
            tombstones: self.tombstones.to_rows(),
            heads: self.heads.to_rows(),
            contracts: self.contracts.to_rows(),
            reactions: self.reactions.to_rows(),
            attempts: self.attempts.to_rows(),
            work_orders: self.work_orders.to_rows(),
            results: self.results.to_rows(),
            sent_requests: self.sent_requests.to_rows(),
            outcomes: self.outcomes.to_rows(),
            processors: self.processors.to_rows(),
            credentials: self.credentials.to_rows(),
            task_inputs: self.task_inputs.to_rows(),
            task_outputs: self.task_outputs.to_rows(),
            calls: self.calls.to_rows(),
            stages: self.stages.to_rows(),
            receipts: self.receipts.to_rows(),
            dispatches: self.dispatches.to_rows(),
            events: dup_all(&self.events),
        };
        assert forall|checkpoint: ExternalCheckpoint| #[trigger] r.state(checkpoint) == (StoreView {
            recovery: recovery_verdict(self@.state_generation, checkpoint),
            trusted_time: opened_floor(self@.trusted_time, checkpoint),
            ..self@
        }) by {
            assert(r.state(checkpoint) =~= (StoreView {
                recovery: recovery_verdict(self@.state_generation, checkpoint),
                trusted_time: opened_floor(self@.trusted_time, checkpoint),
                ..self@
            }));
        }
        r
    }

    /// Opens a state that was written out. The checkpoint decides whether it is in
    /// recovery, and its time is a floor where the platform protects it. Rows that
    /// no endpoint can have come to are refused.
    pub fn open(snapshot: Snapshot, checkpoint: ExternalCheckpoint) -> (r: Result<
        Store,
        StoreError,
    >)
        ensures
            match r {
                Ok(s) => snapshot.has_distinct_keys() && s.wf() && s@ == snapshot.state(checkpoint),
                Err(e) => e is Corrupt && !(snapshot.has_distinct_keys() && snapshot.state(
                    checkpoint,
                ).consistent()),
            },
    {
        let trusted_time = if checkpoint.rollback_detectable && checkpoint.trusted_time
            > snapshot.trusted_time {
            checkpoint.trusted_time
        } else {
            snapshot.trusted_time
        };
        let audit = match AuditLog::from_records(snapshot.audit, snapshot.audit_tip) {
            Some(log) => log,
            None => {
                return Err(StoreError::Corrupt("the audit log is not in order".to_owned()));
            },
        };
        let peers = match Table::from_rows(snapshot.peers) {
            Some(t) => t,
            None => {
                return Err(not_distinct());
            },
        };
        let peer_keys = match Table::from_rows(snapshot.peer_keys) {
            Some(t) => t,
            None => {
                return Err(not_distinct());
            },
        };
        let auto_approve = match Table::from_rows(snapshot.auto_approve) {
            Some(t) => t,
            None => {
                return Err(not_distinct());
            },
        };
        let imports = match Table::from_rows(snapshot.imports) {
            Some(t) => t,
            None => {
                return Err(not_distinct());
            },
        };
        let knocks = match Table::from_rows(snapshot.knocks) {
            Some(t) => t,
            None => {
                return Err(not_distinct());
            },
        };
        let inbox = match Table::from_rows(snapshot.inbox) {
            Some(t) => t,
            None => {
                return Err(not_distinct());
            },
        };
        let tombstones = match Table::from_rows(snapshot.tombstones) {
            Some(t) => t,
            None => {
                return Err(not_distinct());
            },
        };
        let heads = match Table::from_rows(snapshot.heads) {
            Some(t) => t,
            None => {
                return Err(not_distinct());
            },
        };
        let contracts = match Table::from_rows(snapshot.contracts) {
            Some(t) => t,
            None => {
                return Err(not_distinct());
            },
        };
        let reactions = match Table::from_rows(snapshot.reactions) {
            Some(t) => t,
            None => {
                return Err(not_distinct());
            },
        };
        let attempts = match Table::from_rows(snapshot.attempts) {
            Some(t) => t,
            None => {
                return Err(not_distinct());
            },
        };
        let work_orders = match Table::from_rows(snapshot.work_orders) {
            Some(t) => t,
            None => {
                return Err(not_distinct());
            },
        };
        let results = match Table::from_rows(snapshot.results) {
            Some(t) => t,
            None => {
                return Err(not_distinct());
            },
        };
        let sent_requests = match Table::from_rows(snapshot.sent_requests) {
            Some(t) => t,
            None => {
                return Err(not_distinct());
            },
        };
        let outcomes = match Table::from_rows(snapshot.outcomes) {
            Some(t) => t,
            None => {
                return Err(not_distinct());
            },
        };
        let processors = match Table::from_rows(snapshot.processors) {
            Some(t) => t,
            None => {
                return Err(not_distinct());
            },
        };
        let credentials = match Table::from_rows(snapshot.credentials) {
            Some(t) => t,
            None => {
                return Err(not_distinct());
            },
        };
        let task_inputs = match Table::from_rows(snapshot.task_inputs) {
            Some(t) => t,
            None => {
                return Err(not_distinct());
            },
        };
        let task_outputs = match Table::from_rows(snapshot.task_outputs) {
            Some(t) => t,
            None => {
                return Err(not_distinct());
            },
        };
        let calls = match Table::from_rows(snapshot.calls) {
            Some(t) => t,
            None => {
                return Err(not_distinct());
            },
        };
        let stages = match Table::from_rows(snapshot.stages) {
            Some(t) => t,
            None => {
                return Err(not_distinct());
            },
        };
        let receipts = match Table::from_rows(snapshot.receipts) {
            Some(t) => t,
            None => {
                return Err(not_distinct());
            },
        };
        let dispatches = match Table::from_rows(snapshot.dispatches) {
            Some(t) => t,
            None => {
                return Err(not_distinct());
            },
        };
        let s = Store {
            commitment_key: snapshot.commitment_key,
            recovery: verdict(snapshot.state_generation, checkpoint),
            state_generation: snapshot.state_generation,
            trusted_time,
            audit,
            peers,
            peer_keys,
            auto_approve,
            imports,
            knocks,
            inbox,
            tombstones,
            heads,
            contracts,
            reactions,
            attempts,
            work_orders,
            results,
            sent_requests,
            outcomes,
            processors,
            credentials,
            task_inputs,
            task_outputs,
            calls,
            stages,
            receipts,
            dispatches,
            events: snapshot.events,
        };
        assert(s@ =~= snapshot.state(checkpoint));
        if !s.is_consistent() {
            return Err(StoreError::Corrupt("the rows contradict each other".to_owned()));
        }
        Ok(s)
    }

    fn is_consistent(&self) -> (r: bool)
        requires
            self.tables_wf(),
            audit::in_order(self@.audit.records),
        ensures
            r == self@.consistent(),
    {
        self.check_imports() && self.check_nonces() && self.check_seen_once() && self.check_results()
            && self.check_receipts() && self.check_dispatches() && self.check_spent_once()
            && self.check_events() && self.check_told() && self.check_tellings()
            && self.check_told_once()
    }

    fn check_imports(&self) -> (r: bool)
        requires
            self.tables_wf(),
        ensures
            r == (store::labels_follow_life(self@.imports) && store::labels_are_unique(self@.imports)),
    {
        let t = &self.imports;
        let ghost m = t@;
        let ghost rows = t.entries();
        proof {
            t.lemma_entries();
        }
        let mut i: usize = 0;
        while i < t.size()
            invariant
                t.wf(),
                m == self@.imports,
                m == t@,
                rows == t.entries(),
                i <= rows.len(),
                table::distinct_keys(rows),
                forall|j: int|
                    0 <= j < rows.len() ==> m.contains_key((#[trigger] rows[j]).0) && m[rows[j].0]
                        == rows[j].1,
                forall|j: int|
                    0 <= j < i ==> ((#[trigger] rows[j]).1.tombstoned_at is None
                        <==> rows[j].1.label is Some),
                forall|j: int, k: Seq<char>|
                    0 <= j < i && m.contains_key(k) && (#[trigger] rows[j]).1.label is Some
                        && rows[j].1.label == (#[trigger] m[k]).label ==> k == rows[j].0,
            decreases rows.len() - i,
        {
            let key = t.key_at(i);
            let row = t.value_at(i);
            assert(key@ == rows[i as int].0 && row@ == rows[i as int].1);
            if row.tombstoned_at.is_none() != row.label.is_some() {
                assert(m.contains_key(key@));
                return false;
            }
            match &row.label {
                Some(label) => {
                    let ghost hit = |q: Seq<char>, other: ImportRowView|
                        q != key@ && other.label == Some(label@);
                    let found = |q: &String, other: &ImportRow| -> (r: bool)
                        ensures (r == (q@ != key@ && other@.label == Some(label@)))
                    {
                        !same_text(q, key) && match &other.label {
                            Some(l) => same_text(l, label),
                            None => false,
                        }
                    };
                    match t.find(found, Ghost(hit)) {
                        Some(k) => {
                            let ghost other = rows[k as int].0;
                            assert(m[other].label == m[key@].label && other != key@);
                            return false;
                        },
                        None => {},
                    }
                    assert forall|k: Seq<char>|
                        m.contains_key(k) && rows[i as int].1.label == (
                        #[trigger] m[k]).label implies k == rows[i as int].0 by {
                        assert(!hit(k, m[k]));
                    }
                },
                None => {},
            }
            i = i + 1;
        }
        proof {
            assert forall|root: Seq<char>| #[trigger] m.contains_key(root) implies (
            m[root].tombstoned_at is None <==> m[root].label is Some) by {
                let j = choose|j: int| 0 <= j < rows.len() && (#[trigger] rows[j]).0 == root;
                assert(rows[j].1 == m[root]);
            }
            assert forall|a: Seq<char>, b: Seq<char>|
                m.contains_key(a) && m.contains_key(b) && (#[trigger] m[a]).label is Some
                    && m[a].label == (#[trigger] m[b]).label implies a == b by {
                let j = choose|j: int| 0 <= j < rows.len() && (#[trigger] rows[j]).0 == a;
                assert(rows[j].1 == m[a]);
            }
        }
        true
    }

    fn check_nonces(&self) -> (r: bool)
        requires
            self.tables_wf(),
        ensures
            r == store::nonces_are_unique(self@.attempts),
    {
        let t = &self.attempts;
        let ghost m = t@;
        let ghost rows = t.entries();
        proof {
            t.lemma_entries();
        }
        let mut i: usize = 0;
        while i < t.size()
            invariant
                t.wf(),
                m == self@.attempts,
                m == t@,
                rows == t.entries(),
                i <= rows.len(),
                forall|j: int|
                    0 <= j < rows.len() ==> m.contains_key((#[trigger] rows[j]).0) && m[rows[j].0]
                        == rows[j].1,
                forall|j: int, k: Seq<char>|
                    0 <= j < i && m.contains_key(k) && (#[trigger] rows[j]).1.nonce == (
                    #[trigger] m[k]).nonce ==> k == rows[j].0,
            decreases rows.len() - i,
        {
            let key = t.key_at(i);
            let row = t.value_at(i);
            let ghost hit = |q: Seq<char>, other: AttemptRowView|
                q != key@ && other.nonce == row@.nonce;
            let found = |q: &String, other: &AttemptRow| -> (r: bool)
                ensures (r == (q@ != key@ && other@.nonce == row@.nonce))
            {
                !same_text(q, key) && same_text(&other.nonce, &row.nonce)
            };
            match t.find(found, Ghost(hit)) {
                Some(k) => {
                    let ghost other = rows[k as int].0;
                    assert(m[other].nonce == m[key@].nonce && other != key@);
                    return false;
                },
                None => {},
            }
            assert forall|k: Seq<char>|
                m.contains_key(k) && rows[i as int].1.nonce == (#[trigger] m[k]).nonce implies k
                == rows[i as int].0 by {
                assert(!hit(k, m[k]));
            }
            i = i + 1;
        }
        proof {
            assert forall|a: Seq<char>, b: Seq<char>|
                m.contains_key(a) && m.contains_key(b) && (#[trigger] m[a]).nonce == (
                #[trigger] m[b]).nonce implies a == b by {
                let j = choose|j: int| 0 <= j < rows.len() && (#[trigger] rows[j]).0 == a;
                assert(rows[j].1 == m[a]);
            }
        }
        true
    }

    fn check_spent_once(&self) -> (r: bool)
        requires
            self.tables_wf(),
        ensures
            r == store::receipts_are_spent_once(self@.dispatches),
    {
        let t = &self.dispatches;
        let ghost m = t@;
        let ghost rows = t.entries();
        proof {
            t.lemma_entries();
        }
        let mut i: usize = 0;
        while i < t.size()
            invariant
                t.wf(),
                m == self@.dispatches,
                m == t@,
                rows == t.entries(),
                i <= rows.len(),
                forall|j: int|
                    0 <= j < rows.len() ==> m.contains_key((#[trigger] rows[j]).0) && m[rows[j].0]
                        == rows[j].1,
                forall|j: int, k: Seq<char>|
                    0 <= j < i && m.contains_key(k) && (#[trigger] rows[j]).1.receipt_id == (
                    #[trigger] m[k]).receipt_id ==> k == rows[j].0,
            decreases rows.len() - i,
        {
            let key = t.key_at(i);
            let row = t.value_at(i);
            let ghost hit = |q: Seq<char>, other: DispatchRowView|
                q != key@ && other.receipt_id == row@.receipt_id;
            let found = |q: &String, other: &DispatchRow| -> (r: bool)
                ensures (r == (q@ != key@ && other@.receipt_id == row@.receipt_id))
            {
                !same_text(q, key) && same_text(&other.receipt_id, &row.receipt_id)
            };
            match t.find(found, Ghost(hit)) {
                Some(k) => {
                    let ghost other = rows[k as int].0;
                    assert(m[other].receipt_id == m[key@].receipt_id && other != key@);
                    return false;
                },
                None => {},
            }
            assert forall|k: Seq<char>|
                m.contains_key(k) && rows[i as int].1.receipt_id == (
                #[trigger] m[k]).receipt_id implies k == rows[i as int].0 by {
                assert(!hit(k, m[k]));
            }
            i = i + 1;
        }
        proof {
            assert forall|a: Seq<char>, b: Seq<char>|
                m.contains_key(a) && m.contains_key(b) && (#[trigger] m[a]).receipt_id == (
                #[trigger] m[b]).receipt_id implies a == b by {
                let j = choose|j: int| 0 <= j < rows.len() && (#[trigger] rows[j]).0 == a;
                assert(rows[j].1 == m[a]);
            }
        }
        true
    }

    fn check_seen_once(&self) -> (r: bool)
        requires
            self.tables_wf(),
        ensures
            r == store::seen_once(self@.inbox, self@.tombstones),
    {
        let t = &self.inbox;
        let ghost m = t@;
        let ghost rows = t.entries();
        let ghost v = self@;
        proof {
            t.lemma_entries();
        }
        let mut i: usize = 0;
        while i < t.size()
            invariant
                self.tables_wf(),
                v == self@,
                t == &self.inbox,
                m == t@,
                rows == t.entries(),
                i <= rows.len(),
                forall|j: int|
                    0 <= j < rows.len() ==> m.contains_key((#[trigger] rows[j]).0) && m[rows[j].0]
                        == rows[j].1,
                forall|j: int| 0 <= j < i ==> !v.tombstones.contains_key((#[trigger] rows[j]).0),
            decreases rows.len() - i,
        {
            let key = t.key_at(i);
            let row = t.value_at(i);
            assert(key@ == rows[i as int].0 && row@ == rows[i as int].1);
            assert(m.contains_key(key@) && m[key@] == row@);
            let good = !self.tombstones.has(key);
            if !good {
                return false;
            }
            i = i + 1;
        }
        proof {
            assert forall|k: (Seq<char>, Seq<char>)| #[trigger] m.contains_key(k) implies !v.tombstones.contains_key(k) by {
                let j = choose|j: int| 0 <= j < rows.len() && (#[trigger] rows[j]).0 == k;
                assert(rows[j].1 == m[k]);
            }
        }
        true
    }

    fn check_results(&self) -> (r: bool)
        requires
            self.tables_wf(),
        ensures
            r == store::results_have_succeeded(self@.results, self@.attempts),
    {
        let t = &self.results;
        let ghost m = t@;
        let ghost rows = t.entries();
        let ghost v = self@;
        proof {
            t.lemma_entries();
        }
        let mut i: usize = 0;
        while i < t.size()
            invariant
                self.tables_wf(),
                v == self@,
                t == &self.results,
                m == t@,
                rows == t.entries(),
                i <= rows.len(),
                forall|j: int|
                    0 <= j < rows.len() ==> m.contains_key((#[trigger] rows[j]).0) && m[rows[j].0]
                        == rows[j].1,
                forall|j: int| 0 <= j < i ==> (v.attempts.contains_key((#[trigger] rows[j]).0) && v.attempts[(#[trigger] rows[j]).0].state is Succeeded),
            decreases rows.len() - i,
        {
            let key = t.key_at(i);
            let row = t.value_at(i);
            assert(key@ == rows[i as int].0 && row@ == rows[i as int].1);
            assert(m.contains_key(key@) && m[key@] == row@);
            let good = match self.attempts.get(key) {
                Some(a) => match a.state {
                    AttemptState::Succeeded => true,
                    _ => false,
                },
                None => false,
            };
            if !good {
                return false;
            }
            i = i + 1;
        }
        proof {
            assert forall|k: Seq<char>| #[trigger] m.contains_key(k) implies (v.attempts.contains_key(k) && v.attempts[k].state is Succeeded) by {
                let j = choose|j: int| 0 <= j < rows.len() && (#[trigger] rows[j]).0 == k;
                assert(rows[j].1 == m[k]);
            }
        }
        true
    }

    fn check_receipts(&self) -> (r: bool)
        requires
            self.tables_wf(),
        ensures
            r == store::receipts_are_sound(self@.receipts, self@.stages),
    {
        let t = &self.receipts;
        let ghost m = t@;
        let ghost rows = t.entries();
        let ghost v = self@;
        proof {
            t.lemma_entries();
        }
        let mut i: usize = 0;
        while i < t.size()
            invariant
                self.tables_wf(),
                v == self@,
                t == &self.receipts,
                m == t@,
                rows == t.entries(),
                i <= rows.len(),
                forall|j: int|
                    0 <= j < rows.len() ==> m.contains_key((#[trigger] rows[j]).0) && m[rows[j].0]
                        == rows[j].1,
                forall|j: int| 0 <= j < i ==> (sound_receipt(rows[j].1, v.stages)),
            decreases rows.len() - i,
        {
            let key = t.key_at(i);
            let row = t.value_at(i);
            assert(key@ == rows[i as int].0 && row@ == rows[i as int].1);
            assert(m.contains_key(key@) && m[key@] == row@);
            let good = row.max_uses == 1 && row.uses <= 1 && match self.stages.get(&row.stage_ref) {
                Some(s) => same_text(&s.staged_digest, &row.staged_digest),
                None => false,
            };
            if !good {
                return false;
            }
            i = i + 1;
        }
        proof {
            assert forall|k: Seq<char>| #[trigger] m.contains_key(k) implies (sound_receipt(m[k], v.stages)) by {
                let j = choose|j: int| 0 <= j < rows.len() && (#[trigger] rows[j]).0 == k;
                assert(rows[j].1 == m[k]);
            }
        }
        true
    }

    fn check_dispatches(&self) -> (r: bool)
        requires
            self.tables_wf(),
        ensures
            r == store::dispatches_are_sound(self@.dispatches, self@.receipts),
    {
        let t = &self.dispatches;
        let ghost m = t@;
        let ghost rows = t.entries();
        let ghost v = self@;
        proof {
            t.lemma_entries();
        }
        let mut i: usize = 0;
        while i < t.size()
            invariant
                self.tables_wf(),
                v == self@,
                t == &self.dispatches,
                m == t@,
                rows == t.entries(),
                i <= rows.len(),
                forall|j: int|
                    0 <= j < rows.len() ==> m.contains_key((#[trigger] rows[j]).0) && m[rows[j].0]
                        == rows[j].1,
                forall|j: int| 0 <= j < i ==> (sound_dispatch(rows[j].1, v.receipts)),
            decreases rows.len() - i,
        {
            let key = t.key_at(i);
            let row = t.value_at(i);
            assert(key@ == rows[i as int].0 && row@ == rows[i as int].1);
            assert(m.contains_key(key@) && m[key@] == row@);
            let good = match self.receipts.get(&row.receipt_id) {
                Some(r) => r.uses == 1 && same_text(&r.stage_ref, &row.stage_ref) && same_text(
                    &r.staged_digest,
                    &row.staged_digest,
                ),
                None => false,
            };
            if !good {
                return false;
            }
            i = i + 1;
        }
        proof {
            assert forall|k: Seq<char>| #[trigger] m.contains_key(k) implies (sound_dispatch(m[k], v.receipts)) by {
                let j = choose|j: int| 0 <= j < rows.len() && (#[trigger] rows[j]).0 == k;
                assert(rows[j].1 == m[k]);
            }
        }
        true
    }

    fn check_told(&self) -> (r: bool)
        requires
            self.tables_wf(),
        ensures
            r == store::dispatches_are_told(self@.dispatches, self@.events),
    {
        let t = &self.dispatches;
        let ghost m = t@;
        let ghost rows = t.entries();
        let ghost v = self@;
        proof {
            t.lemma_entries();
        }
        let mut i: usize = 0;
        while i < t.size()
            invariant
                self.tables_wf(),
                v == self@,
                t == &self.dispatches,
                m == t@,
                rows == t.entries(),
                i <= rows.len(),
                forall|j: int|
                    0 <= j < rows.len() ==> m.contains_key((#[trigger] rows[j]).0) && m[rows[j].0]
                        == rows[j].1,
                forall|j: int|
                    0 <= j < i ==> store::is_told(
                        v.events,
                        (#[trigger] rows[j]).0,
                        rows[j].1,
                    ),
            decreases rows.len() - i,
        {
            let key = t.key_at(i);
            let row = t.value_at(i);
            assert(key@ == rows[i as int].0 && row@ == rows[i as int].1);
            assert(m.contains_key(key@) && m[key@] == row@);
            if !self.has_telling(key, row) {
                return false;
            }
            i = i + 1;
        }
        proof {
            assert forall|k: Seq<char>| #[trigger] m.contains_key(k) implies store::is_told(
                v.events,
                k,
                m[k],
            ) by {
                let j = choose|j: int| 0 <= j < rows.len() && (#[trigger] rows[j]).0 == k;
                assert(rows[j].1 == m[k]);
            }
        }
        true
    }

    fn has_telling(&self, key: &str, row: &DispatchRow) -> (r: bool)
        ensures
            r == store::is_told(self@.events, key@, row@),
    {
        let ghost v = self@.events;
        let mut i: usize = 0;
        while i < self.events.len()
            invariant
                v == table::seen(self.events@),
                i <= v.len(),
                forall|j: int|
                    0 <= j < i ==> !store::tells_of_dispatch(#[trigger] v[j], key@, row@),
            decreases self.events@.len() - i,
        {
            assert(v[i as int] == self.events@[i as int]@);
            if does_tell(&self.events[i], key, row) {
                return true;
            }
            i = i + 1;
        }
        false
    }

    fn check_tellings(&self) -> (r: bool)
        requires
            self.tables_wf(),
        ensures
            r == store::events_tell_truly(self@.dispatches, self@.events),
    {
        let ghost v = self@.events;
        let ghost m = self@.dispatches;
        let mut i: usize = 0;
        while i < self.events.len()
            invariant
                self.tables_wf(),
                v == table::seen(self.events@),
                m == self@.dispatches,
                i <= v.len(),
                forall|j: int| 0 <= j < i ==> store::tells_truly(#[trigger] v[j], m),
            decreases self.events@.len() - i,
        {
            let e = &self.events[i];
            assert(v[i as int] == e@);
            let good = match e.kind {
                CoordEventKind::Dispatched => match &e.execution_key {
                    Some(key) => match self.dispatches.get(key) {
                        Some(row) => does_tell(e, key, row),
                        None => false,
                    },
                    None => false,
                },
                _ => true,
            };
            if !good {
                return false;
            }
            i = i + 1;
        }
        true
    }

    fn check_told_once(&self) -> (r: bool)
        ensures
            r == store::receipts_are_told_once(self@.events),
    {
        let ghost v = self@.events;
        let mut j: usize = 0;
        while j < self.events.len()
            invariant
                v == table::seen(self.events@),
                j <= v.len(),
                store::receipts_are_told_once(v.take(j as int)),
            decreases self.events@.len() - j,
        {
            let mut i: usize = 0;
            assert(v[j as int] == self.events@[j as int]@);
            while i < j
                invariant
                    v == table::seen(self.events@),
                    i <= j < v.len(),
                    v[j as int] == self.events@[j as int]@,
                    forall|a: int|
                        0 <= a < i && (#[trigger] v[a]).kind is Dispatched
                            && v[j as int].kind is Dispatched ==> v[a].consent_receipt
                            != v[j as int].consent_receipt,
                decreases j - i,
            {
                assert(v[i as int] == self.events@[i as int]@);
                let clash = match (&self.events[i].kind, &self.events[j].kind) {
                    (CoordEventKind::Dispatched, CoordEventKind::Dispatched) => same_option(
                        &self.events[i].consent_receipt,
                        &self.events[j].consent_receipt,
                    ),
                    _ => false,
                };
                if clash {
                    return false;
                }
                i = i + 1;
            }
            proof {
                let some = v.take(j + 1);
                assert forall|a: int, b: int|
                    0 <= a < b < some.len() && (#[trigger] some[a]).kind is Dispatched && (
                    #[trigger] some[b]).kind is Dispatched implies some[a].consent_receipt
                    != some[b].consent_receipt by {
                    assert(some[a] == v[a] && some[b] == v[b]);
                    if b < j {
                        assert(v.take(j as int)[a] == v[a] && v.take(j as int)[b] == v[b]);
                    }
                }
            }
            j = j + 1;
        }
        assert(v.take(j as int) =~= v);
        true
    }

    fn check_events(&self) -> (r: bool)
        ensures
            r == store::numbered_upwards(self@.events),
    {
        let ghost v = self@.events;
        let mut i: usize = 0;
        while i < self.events.len()
            invariant
                v == table::seen(self.events@),
                i <= v.len(),
                forall|a: int, b: int|
                    0 <= a < b < i ==> (#[trigger] v[a]).seq < (#[trigger] v[b]).seq,
                forall|a: int| 0 <= a < i ==> (#[trigger] v[a]).seq > 0,
            decreases self.events@.len() - i,
        {
            assert(v[i as int] == self.events@[i as int]@);
            if self.events[i].seq <= 0 {
                return false;
            }
            if i > 0 {
                assert(v[i - 1] == self.events@[i - 1]@);
                if self.events[i].seq <= self.events[i - 1].seq {
                    return false;
                }
            }
            i = i + 1;
        }
        true
    }
}

/// Whether an event tells that the dispatch under a key was committed.
fn does_tell(e: &CoordEvent, key: &str, row: &DispatchRow) -> (r: bool)
    ensures
        r == store::tells_of_dispatch(e@, key@, row@),
{
    let dispatched = match e.kind {
        CoordEventKind::Dispatched => true,
        _ => false,
    };
    dispatched && holds_text(&e.execution_key, key) && holds_text(
        &e.consent_receipt,
        &row.receipt_id,
    ) && holds_text(&e.dispatch_receipt, &row.dispatch_receipt) && same_text(
        &e.stage_ref,
        &row.stage_ref,
    ) && same_text(&e.staged_digest, &row.staged_digest) && e.at == row.dispatched_at
}

fn holds_text(o: &Option<String>, s: &str) -> (r: bool)
    ensures
        r == (text::view_option(*o) == Some(s@)),
{
    match o {
        Some(t) => same_text(t, s),
        None => false,
    }
}

spec fn sound_receipt(row: ReceiptRowView, stages: Map<Seq<char>, StageRowView>) -> bool {
    row.max_uses == 1 && row.uses <= 1 && stages.contains_key(row.stage_ref)
        && stages[row.stage_ref].staged_digest == row.staged_digest
}

spec fn sound_dispatch(row: DispatchRowView, receipts: Map<Seq<char>, ReceiptRowView>) -> bool {
    receipts.contains_key(row.receipt_id) && receipts[row.receipt_id].uses == 1
        && receipts[row.receipt_id].stage_ref == row.stage_ref
        && receipts[row.receipt_id].staged_digest == row.staged_digest
}

/// What is written out and opened again in lockstep with the checkpoint is the same
/// state, not in recovery.
pub proof fn a_state_opens_as_it_was_written(
    v: StoreView,
    snapshot: Snapshot,
    checkpoint: ExternalCheckpoint,
)
    requires
        v.consistent(),
        snapshot.state(checkpoint) == (StoreView {
            recovery: recovery_verdict(v.state_generation, checkpoint),
            trusted_time: opened_floor(v.trusted_time, checkpoint),
            ..v
        }),
        checkpoint.rollback_detectable,
        checkpoint.state_generation == v.state_generation,
        checkpoint.trusted_time <= v.trusted_time,
    ensures
        snapshot.state(checkpoint).consistent(),
        snapshot.state(checkpoint) == (StoreView { recovery: Recovery::Normal, ..v }),
{
}

/// An older copy of a state is found out: opened under a checkpoint of another
/// generation it is in recovery.
pub proof fn an_older_copy_is_in_recovery(snapshot: Snapshot, checkpoint: ExternalCheckpoint)
    requires
        checkpoint.rollback_detectable,
        checkpoint.state_generation != snapshot.state_generation,
    ensures
        snapshot.state(checkpoint).recovery is Recovery,
{
}

/// The floor of time never falls when a state is opened, and never stands below a
/// protected checkpoint.
pub proof fn opening_keeps_the_floor(snapshot: Snapshot, checkpoint: ExternalCheckpoint)
    ensures
        snapshot.state(checkpoint).trusted_time >= snapshot.trusted_time,
        checkpoint.rollback_detectable ==> snapshot.state(checkpoint).trusted_time
            >= checkpoint.trusted_time,
        !checkpoint.rollback_detectable ==> snapshot.state(checkpoint).trusted_time
            == snapshot.trusted_time,
{
}

} // verus!
