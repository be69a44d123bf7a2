//! The durable state, one function after the other.
use akson::authority::{
    AttemptEvent, AttemptState, Audience, Budgets, CapabilityVector, Grant, IssuedWorkOrder,
    RequestOrigin, RespondScope, TransitionError, WorkOrder,
};
use akson::broker::{
    AuthScheme, Disclosure, Origin, ProcessorCall, ProcessorConfig, SubAttemptEvent,
    SubAttemptState,
};
use akson::contract::{
    Contract, Deliverable, Head, HeadState, Identity, LockError, ParsedContract, ResultRecipient,
    RevisionVerdict, StaleReason,
};
use akson::delivery::{body_digest, CoveredValues};
use akson::identity::{Fingerprint, FingerprintKind, PeerIdentity, PeerStatus, StoredPeer};
use akson::store::attempts::{ClaimOutcome, CompletionOutcome};
use akson::store::inbox::Receipt;
use akson::store::peers::AutoApprovePolicy;
use akson::store::processors::PrepareOutcome;
use akson::store::requests::{NewTaskOutput, OutcomeWrite, SentRequest};
use akson::store::{ExternalCheckpoint, Recovery, Store, StoreError, TimeStatus};
use akson::tls::cert_sha256;

const DIGEST: &str = "order-digest";
const EXPIRES: i64 = 1_893_456_000;
const ROOT_FOR_TEST: &str = "test-root-thumbprint-aaaaaaaaaaaaaaaaaaaaaa";

fn checkpoint(gen: u64) -> ExternalCheckpoint {
    ExternalCheckpoint {
        state_generation: gen,
        trusted_time: 1000,
        rollback_detectable: true,
    }
}

fn print_of(kind: FingerprintKind, value: &str) -> Fingerprint {
    Fingerprint {
        kind,
        value: value.to_owned(),
    }
}

fn sample_peer(note: &str) -> StoredPeer {
    StoredPeer {
        identity: PeerIdentity {
            issuer: None,
            agent_id: "agent-a".to_owned(),
            workload_id: None,
            endpoint_id: "ep-1".to_owned(),
            tls_cert: cert_sha256(b"der"),
            agent_card_key: print_of(FingerprintKind::Jwk7638, "root-of-five"),
            key_bindings: vec![],
            security_projection_digest: print_of(FingerprintKind::JsonSha256, "projection"),
            full_card_digest: print_of(FingerprintKind::JsonSha256, "card"),
        },
        local_note: note.to_owned(),
    }
}

fn covered(message_id: &str, body: &[u8]) -> CoveredValues {
    CoveredValues {
        peer: "agent-b".to_owned(),
        message_id: message_id.to_owned(),
        body_digest: body_digest(body),
        interface_url: "https://agent.example/a2a".to_owned(),
        tenant: None,
        a2a_version: "1.0".to_owned(),
        extensions: vec![],
        content_type: "application/a2a+json".to_owned(),
        http_method: "POST".to_owned(),
    }
    .normalized()
}

fn identity(issuer: &str, agent: &str) -> Identity {
    Identity {
        issuer: issuer.to_owned(),
        agent: agent.to_owned(),
        root: String::new(),
    }
}

fn terms(rev: u64, predecessor: Option<&str>, task_id: Option<&str>, objective: &str) -> ParsedContract {
    let contract = Contract {
        contract_id: "3f2a1b4c-9d8e-4f70-a1b2-c3d4e5f60718".to_owned(),
        revision: rev,
        predecessor_digest: predecessor.map(str::to_owned),
        task_id: task_id.map(str::to_owned),
        context_id: None,
        task_type: "https://akson.invalid/t".to_owned(),
        message_id: "m1".to_owned(),
        requester: identity("iss", "requester"),
        performer: identity("iss", "performer"),
        objective: objective.to_owned(),
        input_ids: vec![],
        deliverables: vec![Deliverable {
            role: "r".to_owned(),
            media_type: "text/plain".to_owned(),
        }],
        evidence_slots: vec![],
        requested_capabilities: vec![],
        max_response_bytes: 1024,
        max_cost_microusd: None,
        deadline: "2030-01-01T00:00:00Z".to_owned(),
        result_recipient: ResultRecipient::RequestOrigin,
        created_at: "2026-01-01T00:00:00Z".to_owned(),
        expires_at: "2030-01-01T00:00:00Z".to_owned(),
    };
    let payload = format!("{contract:?}").into_bytes();
    ParsedContract {
        digest: cert_sha256(&payload).value,
        payload,
        contract,
    }
}

fn parsed(rev: u64, predecessor: Option<&str>, task_id: Option<&str>) -> ParsedContract {
    terms(rev, predecessor, task_id, "o")
}

fn parsed_with_objective(objective: &str) -> ParsedContract {
    terms(0, None, None, objective)
}

fn work_order(id: &str, nonce: &str) -> WorkOrder {
    WorkOrder {
        version: 1,
        work_order_id: id.to_owned(),
        issuer: identity("local", "authority"),
        issuer_assurance: "local-human".to_owned(),
        audience: Audience {
            daemon: "aksond".to_owned(),
            executor: "worker-1".to_owned(),
        },
        request_origin: RequestOrigin {
            peer: identity("iss", "requester"),
            tls_certificate_sha256: "ab".repeat(32),
        },
        task_id: "task-1".to_owned(),
        context_id: "ctx-1".to_owned(),
        message_id: "msg-1".to_owned(),
        contract_revision: 0,
        contract_digest: "a".repeat(64),
        capabilities: CapabilityVector::new(vec![Grant::Respond(RespondScope {
            task_id: "task-1".to_owned(),
            message_id: "msg-1".to_owned(),
            recipient: "request-origin".to_owned(),
            max_responses: 1,
            max_bytes: 8192,
            deadline: "2030-01-01T00:00:00Z".to_owned(),
        })])
        .unwrap(),
        input_manifest: vec!["src".to_owned()],
        processor_digest: None,
        runner_digest: None,
        sandbox_digest: None,
        profile_digest: None,
        budgets: Budgets {
            max_cost_microusd: 500,
            max_bytes: 8192,
            max_operations: 4,
        },
        evidence_slots: vec![],
        policy_version: 1,
        decision_id: "d-1".to_owned(),
        not_before: "2026-01-01T00:00:00Z".to_owned(),
        deadline: "2030-01-01T00:00:00Z".to_owned(),
        nonce: nonce.to_owned(),
        remote_cancel: None,
    }
}

fn processor_config(id: &str) -> ProcessorConfig {
    ProcessorConfig {
        processor_id: id.to_owned(),
        provider: "example-ai".to_owned(),
        origin: Origin {
            host: "api.example.com".to_owned(),
            port: 443,
        },
        disclosure: Disclosure::Remote {
            recipient: "Example AI".to_owned(),
            region: "us-east".to_owned(),
        },
        path: "/".to_owned(),
        auth: AuthScheme::Bearer,
        headers: Vec::new(),
        config: "{\"model\":\"review-1\"}".to_owned(),
        tls_certificate_sha256: None,
    }
}

fn processor_call_for(request: &[u8], work_order_id: &str) -> ProcessorCall {
    let request_digest = cert_sha256(request).value;
    ProcessorCall {
        idempotency_key: format!("{work_order_id}:{request_digest}"),
        work_order_id: work_order_id.to_owned(),
        task_id: "task-1".to_owned(),
        processor_id: "assessor".to_owned(),
        provider: "example-ai".to_owned(),
        config_digest: "cc".repeat(32),
        request_digest,
        origin: Origin {
            host: "api.example.com".to_owned(),
            port: 443,
        },
        max_cost_microusd: 5000,
        max_response_bytes: 65536,
        deadline: "2030-01-01T00:00:00Z".to_owned(),
    }
}

fn processor_call(request: &[u8]) -> ProcessorCall {
    processor_call_for(request, "wo-1")
}

#[test]
fn peer_round_trip_seals_record() {
    let mut store = Store::open_in_memory([3u8; 32], checkpoint(0)).unwrap();
    store.put_peer(&sample_peer("private annotation")).unwrap();
    let got = store.get_peer("agent-a").unwrap().unwrap();
    assert_eq!(got.local_note, "private annotation");
    assert!(store.get_peer("nobody").unwrap().is_none());
}

#[test]
fn remove_enables_explicit_repair_of_a_rotated_peer() {
    let mut store = Store::open_in_memory([3u8; 32], checkpoint(0)).unwrap();
    store.put_peer(&sample_peer("")).unwrap();

    let before = store.verify_audit().unwrap();
    assert!(store.remove_peer("agent-a", 1_001).unwrap());
    assert_eq!(store.verify_audit().unwrap(), before + 1);
    assert!(store.get_peer("agent-a").unwrap().is_none());
    assert!(store.peer_status("agent-a").unwrap().is_none());

    let mut rotated = sample_peer("");
    rotated.identity.agent_card_key = print_of(FingerprintKind::Jwk7638, "root-of-six");
    store.put_peer(&rotated).unwrap();
    assert_eq!(
        store
            .get_peer("agent-a")
            .unwrap()
            .unwrap()
            .identity
            .agent_card_key,
        rotated.identity.agent_card_key
    );

    let after = store.verify_audit().unwrap();
    assert!(!store.remove_peer("nobody", 1_003).unwrap());
    assert_eq!(store.verify_audit().unwrap(), after);
}

#[test]
fn direct_put_peer_is_active_and_restore_keeps_status() {
    let mut store = Store::open_in_memory([3u8; 32], checkpoint(0)).unwrap();
    store.put_peer(&sample_peer("note")).unwrap();
    assert_eq!(
        store.peer_status("agent-a").unwrap(),
        Some(PeerStatus::Active)
    );
    store.put_peer(&sample_peer("note")).unwrap();
    assert_eq!(
        store.peer_status("agent-a").unwrap(),
        Some(PeerStatus::Active)
    );
}

#[test]
fn rollback_detection_unavailable_still_operates() {
    let cp = ExternalCheckpoint {
        state_generation: 0,
        trusted_time: 0,
        rollback_detectable: false,
    };
    let mut store = Store::open_in_memory([3u8; 32], cp).unwrap();
    assert_eq!(*store.recovery(), Recovery::RollbackDetectionUnavailable);
    assert!(store.recovery().automatic_authority_enabled());
}

#[test]
fn trusted_time_backward_is_uncertain() {
    let mut store = Store::open_in_memory([3u8; 32], checkpoint(0)).unwrap();
    assert!(matches!(
        store.observe_time(1000, 300).unwrap(),
        TimeStatus::Trusted { .. }
    ));
    assert!(matches!(
        store.observe_time(800, 300).unwrap(),
        TimeStatus::Trusted { .. }
    ));
    assert!(matches!(
        store.observe_time(600, 300).unwrap(),
        TimeStatus::Uncertain { .. }
    ));
}

#[test]
fn trusted_now_is_monotonic_and_refuses_a_large_backward_step() {
    let mut store = Store::open_in_memory([3u8; 32], checkpoint(0)).unwrap();
    assert_eq!(store.trusted_now(1_000_000).unwrap(), 1_000_000);
    assert_eq!(store.trusted_now(1_000_050).unwrap(), 1_000_050);
    assert_eq!(store.trusted_now(1_000_040).unwrap(), 1_000_050);
    assert!(matches!(
        store.trusted_now(1_000_050 - 10_000),
        Err(StoreError::TimeUncertain)
    ));
}

#[test]
fn idempotent_replay_returns_saved_response() {
    let mut store = Store::open_in_memory([3u8; 32], checkpoint(0)).unwrap();
    let cv = covered("m1", b"body");
    assert_eq!(
        store
            .receive_request(&cv, b"body", b"RESP", Some("task-9"), "task", 100)
            .unwrap(),
        Receipt::Fresh
    );
    match store
        .receive_request(&cv, b"body", b"RESP-2", Some("task-other"), "task", 101)
        .unwrap()
    {
        Receipt::Duplicate { task_id, response } => {
            assert_eq!(task_id.as_deref(), Some("task-9"));
            assert_eq!(response, b"RESP");
        }
        other => panic!("expected duplicate, got {other:?}"),
    }
}

#[test]
fn changed_covered_value_is_conflict() {
    let mut store = Store::open_in_memory([3u8; 32], checkpoint(0)).unwrap();
    store
        .receive_request(&covered("m1", b"body"), b"body", b"RESP", None, "task", 100)
        .unwrap();
    let changed = covered("m1", b"different");
    assert_eq!(
        store
            .receive_request(&changed, b"different", b"RESP", None, "task", 101)
            .unwrap(),
        Receipt::Conflict
    );
}

#[test]
fn tombstone_preserves_replay_after_payload_drop() {
    let mut store = Store::open_in_memory([3u8; 32], checkpoint(0)).unwrap();
    let cv = covered("m1", b"body");
    store
        .receive_request(&cv, b"body", b"RESP", Some("task-9"), "task", 100)
        .unwrap();
    assert!(store.demote_to_tombstone("agent-b", "m1", 9999).unwrap());

    match store
        .receive_request(&cv, b"body", b"RESP-2", Some("task-x"), "task", 200)
        .unwrap()
    {
        Receipt::Duplicate { task_id, response } => {
            assert_eq!(task_id.as_deref(), Some("task-9"));
            assert_eq!(response, b"RESP");
        }
        other => panic!("expected duplicate, got {other:?}"),
    }
    let changed = covered("m1", b"different");
    assert_eq!(
        store
            .receive_request(&changed, b"different", b"R", None, "task", 201)
            .unwrap(),
        Receipt::Conflict
    );
}

#[test]
fn submit_advances_head_and_stores_contract() {
    let mut store = Store::open_in_memory([3u8; 32], checkpoint(0)).unwrap();
    let rev0 = parsed(0, None, None);
    let verdict = store
        .submit_revision("task-1", &rev0, "origin-root-fixture", EXPIRES, 100)
        .unwrap();
    assert!(matches!(verdict, RevisionVerdict::Advance(_)));

    assert_eq!(
        store.contract_head("task-1").unwrap(),
        HeadState::Open(Head {
            revision: 0,
            digest: rev0.digest.clone()
        })
    );
    assert_eq!(
        store.get_contract(&rev0.digest).unwrap().unwrap(),
        rev0.payload
    );
    assert!(store.get_contract(&"0".repeat(64)).unwrap().is_none());
}

#[test]
fn stale_revision_leaves_head_untouched() {
    let mut store = Store::open_in_memory([3u8; 32], checkpoint(0)).unwrap();
    let rev0 = parsed(0, None, None);
    store
        .submit_revision("task-1", &rev0, "origin-root-fixture", EXPIRES, 100)
        .unwrap();
    let sibling = parsed_with_objective("a different objective");
    assert_ne!(sibling.digest, rev0.digest);
    let verdict = store
        .submit_revision("task-1", &sibling, "origin-root-fixture", EXPIRES, 101)
        .unwrap();
    assert_eq!(
        verdict,
        RevisionVerdict::Stale(StaleReason::HeadAlreadyExists)
    );
    assert_eq!(
        store.contract_head("task-1").unwrap(),
        HeadState::Open(Head {
            revision: 0,
            digest: rev0.digest
        })
    );
}

#[test]
fn chain_then_lock_bars_successors() {
    let mut store = Store::open_in_memory([3u8; 32], checkpoint(0)).unwrap();
    let rev0 = parsed(0, None, None);
    store
        .submit_revision("task-1", &rev0, "origin-root-fixture", EXPIRES, 100)
        .unwrap();
    let rev1 = parsed(1, Some(&rev0.digest), Some("task-1"));
    assert!(matches!(
        store
            .submit_revision("task-1", &rev1, "origin-root-fixture", EXPIRES, 101)
            .unwrap(),
        RevisionVerdict::Advance(_)
    ));

    let before = store.verify_audit().unwrap();
    assert!(store
        .accept_contract("task-1", &rev1.digest, 102)
        .unwrap()
        .is_ok());
    assert_eq!(store.verify_audit().unwrap(), before + 1);
    assert!(matches!(
        store.contract_head("task-1").unwrap(),
        HeadState::Locked(_)
    ));

    let rev2 = parsed(2, Some(&rev1.digest), Some("task-1"));
    assert_eq!(
        store
            .submit_revision("task-1", &rev2, "origin-root-fixture", EXPIRES, 103)
            .unwrap(),
        RevisionVerdict::Stale(StaleReason::HeadLocked)
    );
}

#[test]
fn accept_stale_digest_returns_lock_error() {
    let mut store = Store::open_in_memory([3u8; 32], checkpoint(0)).unwrap();
    let rev0 = parsed(0, None, None);
    store
        .submit_revision("task-1", &rev0, "origin-root-fixture", EXPIRES, 100)
        .unwrap();
    let r = store
        .accept_contract("task-1", &"a".repeat(64), 101)
        .unwrap();
    assert_eq!(r, Err(LockError::DigestMismatch));
    assert!(matches!(
        store.contract_head("task-1").unwrap(),
        HeadState::Open(_)
    ));
}

#[test]
fn claim_consumes_the_nonce_and_is_idempotent() {
    let mut store = Store::open_in_memory([3u8; 32], checkpoint(0)).unwrap();
    let order = work_order("wo-1", &"n".repeat(43));
    assert_eq!(
        store.claim_attempt(&order, DIGEST, 100).unwrap(),
        ClaimOutcome::Claimed
    );
    assert_eq!(
        store.attempt_state("wo-1").unwrap(),
        Some(AttemptState::Claimed)
    );
    assert_eq!(
        store.claim_attempt(&order, DIGEST, 101).unwrap(),
        ClaimOutcome::AlreadyClaimed(AttemptState::Claimed)
    );
}

#[test]
fn a_reused_nonce_on_a_different_order_is_refused() {
    let mut store = Store::open_in_memory([3u8; 32], checkpoint(0)).unwrap();
    let nonce = "n".repeat(43);
    store
        .claim_attempt(&work_order("wo-1", &nonce), DIGEST, 100)
        .unwrap();
    assert_eq!(
        store
            .claim_attempt(&work_order("wo-2", &nonce), DIGEST, 101)
            .unwrap(),
        ClaimOutcome::NonceReused
    );
    assert!(store.attempt_state("wo-2").unwrap().is_none());
}

#[test]
fn advance_drives_the_state_machine_and_rejects_out_of_order() {
    let mut store = Store::open_in_memory([3u8; 32], checkpoint(0)).unwrap();
    let order = work_order("wo-1", &"n".repeat(43));
    store.claim_attempt(&order, DIGEST, 100).unwrap();
    assert_eq!(
        store
            .advance_attempt("wo-1", AttemptEvent::Start, 101)
            .unwrap(),
        Ok(AttemptState::Running)
    );
    assert_eq!(
        store
            .advance_attempt("wo-1", AttemptEvent::Succeed, 102)
            .unwrap(),
        Ok(AttemptState::Succeeded)
    );
    assert!(matches!(
        store
            .advance_attempt("wo-1", AttemptEvent::Start, 103)
            .unwrap(),
        Err(TransitionError::AlreadyTerminal { .. })
    ));
    assert_eq!(
        store.attempt_state("wo-1").unwrap(),
        Some(AttemptState::Succeeded)
    );
    assert!(matches!(
        store.advance_attempt("nope", AttemptEvent::Start, 104),
        Err(StoreError::UnknownAttempt(_))
    ));
}

#[test]
fn crash_recovery_marks_claimed_and_running_ambiguous() {
    let mut store = Store::open_in_memory([3u8; 32], checkpoint(0)).unwrap();
    store
        .claim_attempt(&work_order("wo-1", &"n".repeat(43)), DIGEST, 100)
        .unwrap();
    store
        .claim_attempt(&work_order("wo-2", &"m".repeat(43)), DIGEST, 100)
        .unwrap();
    store
        .advance_attempt("wo-2", AttemptEvent::Start, 101)
        .unwrap()
        .unwrap();

    assert_eq!(store.resolve_crashed_attempts(200).unwrap(), 2);
    assert_eq!(
        store.attempt_state("wo-1").unwrap(),
        Some(AttemptState::Ambiguous)
    );
    assert_eq!(
        store.attempt_state("wo-2").unwrap(),
        Some(AttemptState::Ambiguous)
    );
    assert_eq!(store.resolve_crashed_attempts(201).unwrap(), 0);
}

#[test]
fn processor_config_round_trips_sealed() {
    let mut store = Store::open_in_memory([3u8; 32], checkpoint(0)).unwrap();
    store
        .put_processor(&processor_config("assessor"), 100)
        .unwrap();
    assert_eq!(
        store.get_processor("assessor").unwrap().unwrap().provider,
        "example-ai"
    );
    assert_eq!(store.list_processors().unwrap().len(), 1);
    assert!(store.get_processor("nope").unwrap().is_none());
    let mut updated = processor_config("assessor");
    updated.provider = "example-ai-v2".to_owned();
    store.put_processor(&updated, 101).unwrap();
    assert_eq!(store.list_processors().unwrap().len(), 1);
    assert_eq!(
        store.get_processor("assessor").unwrap().unwrap().provider,
        "example-ai-v2"
    );
}

#[test]
fn prepare_call_is_idempotent() {
    let mut store = Store::open_in_memory([3u8; 32], checkpoint(0)).unwrap();
    let call = processor_call(b"review this");
    assert_eq!(
        store.prepare_call(&call, 16, 100).unwrap(),
        PrepareOutcome::Prepared
    );
    assert_eq!(
        store.call_state(&call.idempotency_key).unwrap(),
        Some(SubAttemptState::Prepared)
    );
    assert_eq!(
        store.prepare_call(&call, 16, 101).unwrap(),
        PrepareOutcome::AlreadyPrepared(SubAttemptState::Prepared)
    );
}

#[test]
fn prepare_call_enforces_the_aggregate_operation_budget() {
    let mut store = Store::open_in_memory([3u8; 32], checkpoint(0)).unwrap();
    assert_eq!(
        store
            .prepare_call(&processor_call_for(b"one", "wo-cap"), 2, 100)
            .unwrap(),
        PrepareOutcome::Prepared
    );
    assert_eq!(
        store
            .prepare_call(&processor_call_for(b"two", "wo-cap"), 2, 101)
            .unwrap(),
        PrepareOutcome::Prepared
    );
    assert_eq!(
        store
            .prepare_call(&processor_call_for(b"three", "wo-cap"), 2, 102)
            .unwrap(),
        PrepareOutcome::BudgetExhausted { max_operations: 2 }
    );
    assert_eq!(
        store
            .prepare_call(&processor_call_for(b"one", "wo-cap"), 2, 103)
            .unwrap(),
        PrepareOutcome::AlreadyPrepared(SubAttemptState::Prepared)
    );
    assert_eq!(
        store
            .prepare_call(&processor_call_for(b"one", "wo-other"), 2, 104)
            .unwrap(),
        PrepareOutcome::Prepared
    );
}

#[test]
fn advance_call_drives_the_state_machine() {
    let mut store = Store::open_in_memory([3u8; 32], checkpoint(0)).unwrap();
    let call = processor_call(b"x");
    store.prepare_call(&call, 16, 100).unwrap();
    assert_eq!(
        store
            .advance_call(&call.idempotency_key, SubAttemptEvent::Dispatch, 101)
            .unwrap()
            .unwrap(),
        SubAttemptState::Dispatching
    );
    assert_eq!(
        store
            .advance_call(&call.idempotency_key, SubAttemptEvent::Complete, 102)
            .unwrap()
            .unwrap(),
        SubAttemptState::Completed
    );
    assert!(store
        .advance_call(&call.idempotency_key, SubAttemptEvent::Dispatch, 103)
        .unwrap()
        .is_err());
    assert!(matches!(
        store.advance_call("nope", SubAttemptEvent::Dispatch, 104),
        Err(StoreError::UnknownProcessorCall(_))
    ));
}

#[test]
fn crash_while_dispatching_resolves_ambiguous() {
    let mut store = Store::open_in_memory([3u8; 32], checkpoint(0)).unwrap();
    let dispatching = processor_call(b"disclosed");
    store.prepare_call(&dispatching, 16, 100).unwrap();
    store
        .advance_call(&dispatching.idempotency_key, SubAttemptEvent::Dispatch, 101)
        .unwrap()
        .unwrap();
    let prepared = processor_call(b"not yet sent");
    store.prepare_call(&prepared, 16, 102).unwrap();

    assert_eq!(store.resolve_crashed_calls(200).unwrap(), 1);
    assert_eq!(
        store.call_state(&dispatching.idempotency_key).unwrap(),
        Some(SubAttemptState::Ambiguous)
    );
    assert_eq!(
        store.call_state(&prepared.idempotency_key).unwrap(),
        Some(SubAttemptState::Prepared)
    );
    assert_eq!(store.resolve_crashed_calls(201).unwrap(), 0);
}

#[test]
fn auto_approve_policy_round_trips_and_clears() {
    let mut store = Store::open_in_memory([3u8; 32], checkpoint(0)).unwrap();
    assert!(store.auto_approve_for_root(ROOT_FOR_TEST).unwrap().is_none());
    let policy = AutoApprovePolicy {
        task_types: vec!["t/design/v1".to_owned(), "t/review/v1".to_owned()],
        max_response_bytes: 8192,
    };
    store.put_auto_approve("peer-1", ROOT_FOR_TEST, &policy, 100).unwrap();
    assert_eq!(store.auto_approve_for_root(ROOT_FOR_TEST).unwrap().unwrap(), policy);
    assert!(store.delete_auto_approve(ROOT_FOR_TEST).unwrap());
    assert!(store.auto_approve_for_root(ROOT_FOR_TEST).unwrap().is_none());
}

#[test]
fn removing_a_peer_also_drops_its_verification_keys() {
    let mut store = Store::open_in_memory([3u8; 32], checkpoint(0)).unwrap();
    store.put_peer(&sample_peer("to be removed")).unwrap();
    let key = [7u8; 32];
    store
        .put_peer_key("old-fp", "contract-proposal", "agent-a", "iss", &key, "root-fixture", 100)
        .unwrap();
    assert!(store
        .peer_key("old-fp", "contract-proposal")
        .unwrap()
        .is_some());

    assert!(store.remove_peer("agent-a", 101).unwrap());

    assert!(store
        .peer_key("old-fp", "contract-proposal")
        .unwrap()
        .is_none());
}

#[test]
fn list_sent_requests_peers_and_outcomes() {
    let mut store = Store::open_in_memory([3u8; 32], checkpoint(0)).unwrap();
    assert!(store.list_peers().unwrap().is_empty());
    assert!(store.list_sent_requests().unwrap().is_empty());
    assert!(store.list_outcomes().unwrap().is_empty());

    store
        .put_sent_request(
            &SentRequest {
                contract_digest: "a".repeat(64),
                task_id: "t1".to_owned(),
                context_id: "c".to_owned(),
                contract_id: "cid".to_owned(),
                performer_agent: "p".to_owned(),
                performer_issuer: "iss".to_owned(),
                message_id: "m".to_owned(),
                performer_root: "root-fixture".to_owned(),
            },
            100,
        )
        .unwrap();
    assert_eq!(store.list_sent_requests().unwrap().len(), 1);

    store
        .put_outcome(
            &"a".repeat(64),
            "t1",
            &"b".repeat(64),
            "od",
            "accepted",
            b"env",
            "2026-07-18T00:00:00Z",
            100,
        )
        .unwrap();
    let outs = store.list_outcomes().unwrap();
    assert_eq!(outs.len(), 1);
    assert_eq!(outs[0].task_id, "t1");
    assert_eq!(outs[0].state, "accepted");
}

#[test]
fn processor_credentials_round_trip_sealed() {
    let mut store = Store::open_in_memory([3u8; 32], checkpoint(0)).unwrap();
    store.put_credential("proc-1", b"sk-secret", 100).unwrap();
    assert_eq!(
        store.get_credential("proc-1").unwrap(),
        Some(b"sk-secret".to_vec())
    );
    store.put_credential("proc-1", b"sk-rotated", 200).unwrap();
    assert_eq!(
        store.get_credential("proc-1").unwrap(),
        Some(b"sk-rotated".to_vec())
    );
    assert!(store.get_credential("proc-none").unwrap().is_none());
}

#[test]
fn task_inputs_round_trip_sealed_and_ordered() {
    let mut store = Store::open_in_memory([3u8; 32], checkpoint(0)).unwrap();
    store
        .put_task_input(
            "task-1",
            "b",
            1,
            "text/plain",
            3,
            &"b".repeat(64),
            b"two",
            100,
        )
        .unwrap();
    store
        .put_task_input(
            "task-1",
            "a",
            0,
            "text/x-diff",
            5,
            &"a".repeat(64),
            b"first",
            100,
        )
        .unwrap();
    let inputs = store.list_task_inputs("task-1").unwrap();
    assert_eq!(inputs.len(), 2);
    assert_eq!(inputs[0].input_id, "a");
    assert_eq!(inputs[0].payload, b"first");
    assert_eq!(inputs[0].media_type, "text/x-diff");
    assert_eq!(inputs[1].input_id, "b");
    assert_eq!(inputs[1].payload, b"two");
    store
        .put_task_input(
            "task-1",
            "a",
            0,
            "text/x-diff",
            5,
            &"a".repeat(64),
            b"CHANGED",
            200,
        )
        .unwrap();
    let again = store.list_task_inputs("task-1").unwrap();
    assert_eq!(again.len(), 2);
    assert_eq!(again[0].payload, b"first");
    assert!(store.list_task_inputs("task-2").unwrap().is_empty());
}

#[test]
fn sent_requests_and_outcomes_round_trip() {
    let mut store = Store::open_in_memory([3u8; 32], checkpoint(0)).unwrap();
    let req = SentRequest {
        contract_digest: "a".repeat(64),
        task_id: "task-1".to_owned(),
        context_id: "ctx-1".to_owned(),
        contract_id: "cid".to_owned(),
        performer_agent: "performer".to_owned(),
        performer_issuer: "iss".to_owned(),
        message_id: "msg-1".to_owned(),
        performer_root: "root-fixture".to_owned(),
    };
    store.put_sent_request(&req, 100).unwrap();
    assert_eq!(store.get_sent_request(&"a".repeat(64)).unwrap(), Some(req));
    assert!(store.get_sent_request("nope").unwrap().is_none());

    store
        .put_outcome(
            &"a".repeat(64),
            "task-1",
            &"b".repeat(64),
            "outcome-digest",
            "accepted",
            b"sealed-envelope-bytes",
            "2026-07-18T00:00:00Z",
            100,
        )
        .unwrap();
    let (digest, envelope) = store.get_outcome(&"a".repeat(64)).unwrap().unwrap();
    assert_eq!(digest, "outcome-digest");
    assert_eq!(envelope, b"sealed-envelope-bytes");
    assert!(store.get_outcome("nope").unwrap().is_none());
}

#[test]
fn peer_tls_fingerprint_reverse_looks_up_the_pinned_cert() {
    let mut store = Store::open_in_memory([3u8; 32], checkpoint(0)).unwrap();
    let key = [7u8; 32];
    store
        .put_peer_key("fp-xyz", "contract-proposal", "peer-1", "local", &key, "root-fixture", 100)
        .unwrap();
    assert_eq!(
        store.peer_tls_fingerprint("local", "peer-1").unwrap(),
        Some("fp-xyz".to_owned())
    );
    assert!(store
        .peer_tls_fingerprint("local", "stranger")
        .unwrap()
        .is_none());
}

#[test]
fn state_generation_mismatch_enters_recovery() {
    let mut store = Store::open_in_memory([3u8; 32], checkpoint(0)).unwrap();
    store.set_state_generation(3).unwrap();
    let old = store.snapshot();
    let store = Store::open(old.clone(), checkpoint(4)).unwrap();
    assert!(store.recovery().is_recovery());
    assert!(!store.recovery().automatic_authority_enabled());
    let store = Store::open(old, checkpoint(3)).unwrap();
    assert_eq!(*store.recovery(), Recovery::Normal);
    assert!(store.recovery().automatic_authority_enabled());
}

#[test]
fn reopening_adopts_the_external_checkpoints_trusted_time_as_a_floor() {
    let cp = ExternalCheckpoint {
        state_generation: 5,
        trusted_time: 1000,
        rollback_detectable: true,
    };
    let mut store = Store::open_in_memory([3u8; 32], cp).unwrap();
    assert_eq!(store.trusted_now(1500).unwrap(), 1500);
    let cp = ExternalCheckpoint {
        state_generation: 5,
        trusted_time: 5000,
        rollback_detectable: true,
    };
    let mut store = Store::open(store.snapshot(), cp).unwrap();
    assert_eq!(*store.recovery(), Recovery::Normal);
    assert_eq!(store.trusted_time_floor().unwrap(), 5000);
    assert!(matches!(
        store.observe_time(3000, 5).unwrap(),
        TimeStatus::Uncertain { .. }
    ));
}

#[test]
fn head_and_contracts_survive_reopen_and_purge() {
    let rev0 = parsed(0, None, None);
    let mut store = Store::open_in_memory([3u8; 32], checkpoint(0)).unwrap();
    store
        .submit_revision("task-1", &rev0, "origin-root-fixture", EXPIRES, 100)
        .unwrap();
    let mut store = Store::open(store.snapshot(), checkpoint(0)).unwrap();
    assert!(matches!(
        store.contract_head("task-1").unwrap(),
        HeadState::Open(_)
    ));
    assert!(store.get_contract(&rev0.digest).unwrap().is_some());
    store.purge_expired_contracts(EXPIRES + 1).unwrap();
    assert!(store.get_contract(&rev0.digest).unwrap().is_none());
}

#[test]
fn attempts_survive_reopen() {
    let order = work_order("wo-1", &"n".repeat(43));
    let mut store = Store::open_in_memory([3u8; 32], checkpoint(0)).unwrap();
    store.claim_attempt(&order, DIGEST, 100).unwrap();
    let mut store = Store::open(store.snapshot(), checkpoint(0)).unwrap();
    assert_eq!(
        store.claim_attempt(&order, DIGEST, 101).unwrap(),
        ClaimOutcome::AlreadyClaimed(AttemptState::Claimed)
    );
}

#[test]
fn a_work_order_round_trips_and_is_found_by_task() {
    let mut store = Store::open_in_memory([3u8; 32], checkpoint(0)).unwrap();
    let order = work_order("wo-1", &"n".repeat(43));
    let issued = IssuedWorkOrder {
        order: order.clone(),
        digest: DIGEST.to_owned(),
        mac: "mac".to_owned(),
    };
    store.claim_attempt(&order, DIGEST, 100).unwrap();
    store.put_work_order(&issued, 100).unwrap();
    let got = store.get_work_order("wo-1").unwrap().expect("stored order");
    assert_eq!(got, issued);
    assert_eq!(
        store.attempt_for_task("task-1").unwrap(),
        Some("wo-1".to_owned())
    );
    assert!(store.get_work_order("wo-nope").unwrap().is_none());
    assert!(store.attempt_for_task("task-nope").unwrap().is_none());
}

#[test]
fn put_peer_key_retains_the_proposal_key_by_fingerprint() {
    let mut store = Store::open_in_memory([3u8; 32], checkpoint(0)).unwrap();
    let proposal = [5u8; 32];
    store
        .put_peer_key(
            "fp-abc",
            "contract-proposal",
            "peer-1",
            "local",
            &proposal,
            "root-fixture",
            100,
        )
        .unwrap();
    let pk = store
        .peer_key("fp-abc", "contract-proposal")
        .unwrap()
        .expect("the proposal key should be persisted");
    assert_eq!(pk.agent_id, "peer-1");
    assert_eq!(pk.issuer, "local");
    assert_eq!(pk.public_key, proposal);
    assert!(store
        .peer_key("other", "contract-proposal")
        .unwrap()
        .is_none());
}

#[test]
fn a_task_is_offered_for_reaction_once() {
    let mut store = Store::open_in_memory([3u8; 32], checkpoint(0)).unwrap();
    assert!(store.tasks_awaiting_reaction().unwrap().is_empty());
    store
        .submit_revision("task-x", &parsed(0, None, None), "root", EXPIRES, 100)
        .unwrap();
    assert_eq!(store.tasks_awaiting_reaction().unwrap().len(), 1);
    store.mark_task_reacted("task-x", 101).unwrap();
    assert!(store.tasks_awaiting_reaction().unwrap().is_empty());
    store.mark_task_reacted("task-x", 102).unwrap();
}

#[test]
fn a_result_completes_its_attempt_once() {
    let mut store = Store::open_in_memory([3u8; 32], checkpoint(0)).unwrap();
    let order = work_order("wo-1", &"n".repeat(43));
    store.claim_attempt(&order, DIGEST, 100).unwrap();
    store
        .advance_attempt("wo-1", AttemptEvent::Start, 101)
        .unwrap()
        .unwrap();
    assert_eq!(
        store
            .complete_attempt_with_result("wo-1", "task-1", "bundle", b"manifest", 102)
            .unwrap(),
        CompletionOutcome::Completed
    );
    assert_eq!(
        store
            .complete_attempt_with_result("wo-1", "task-1", "other", b"other", 103)
            .unwrap(),
        CompletionOutcome::AlreadyCompleted
    );
    assert_eq!(
        store.result_manifest("wo-1").unwrap(),
        Some(("bundle".to_owned(), b"manifest".to_vec()))
    );
    assert_eq!(
        store.attempt_state("wo-1").unwrap(),
        Some(AttemptState::Succeeded)
    );
}

#[test]
fn an_attempt_that_is_not_running_does_not_complete() {
    let mut store = Store::open_in_memory([3u8; 32], checkpoint(0)).unwrap();
    let order = work_order("wo-1", &"n".repeat(43));
    store.claim_attempt(&order, DIGEST, 100).unwrap();
    store
        .advance_attempt("wo-1", AttemptEvent::Cancel, 101)
        .unwrap()
        .unwrap();
    assert_eq!(
        store
            .complete_attempt_with_result("wo-1", "task-1", "bundle", b"manifest", 102)
            .unwrap(),
        CompletionOutcome::NotRunnable(AttemptState::Cancelled)
    );
    assert_eq!(store.result_manifest("wo-1").unwrap(), None);
}

#[test]
fn an_outcome_and_its_outputs_are_written_together_and_once() {
    let mut store = Store::open_in_memory([3u8; 32], checkpoint(0)).unwrap();
    let outputs = vec![NewTaskOutput {
        artifact_id: "a-1",
        ordinal: 0,
        role: "response",
        media_type: "text/plain",
        byte_length: 5,
        sha256: "s",
        payload: b"hello",
    }];
    let write = store
        .record_outcome_with_outputs(
            "digest", "task-1", "bundle", "od", "accepted", b"{}", &outputs, "at", 100,
        )
        .unwrap();
    assert!(matches!(write, OutcomeWrite::Recorded));
    let again = store
        .record_outcome_with_outputs(
            "digest", "task-1", "bundle", "od-2", "accepted", b"{}", &outputs, "at", 101,
        )
        .unwrap();
    assert!(!matches!(again, OutcomeWrite::Recorded));
    let list = store.list_task_outputs("task-1").unwrap();
    assert_eq!(list.len(), 1);
    assert_eq!(list[0].payload, b"hello");
    assert_eq!(store.get_outcome("digest").unwrap().unwrap().0, "od");
}

#[test]
fn a_state_opens_as_it_was_written() {
    let mut store = Store::open_in_memory([3u8; 32], checkpoint(0)).unwrap();
    store.put_peer(&sample_peer("note")).unwrap();
    store
        .submit_revision("task-1", &parsed(0, None, None), "root", EXPIRES, 100)
        .unwrap();
    store.audit(1, "pair.created", "peer=agent-a").unwrap();
    let written = store.snapshot();
    let again = Store::open(written.clone(), checkpoint(0)).unwrap();
    assert_eq!(again.snapshot(), written);
    assert_eq!(again.verify_audit().unwrap(), store.verify_audit().unwrap());
}

#[test]
fn a_state_that_is_not_sound_does_not_open() {
    let mut store = Store::open_in_memory([3u8; 32], checkpoint(0)).unwrap();
    store.put_peer(&sample_peer("note")).unwrap();
    let mut broken = store.snapshot();
    let row = broken.peers[0].clone();
    broken.peers.push(row);
    assert!(matches!(
        Store::open(broken, checkpoint(0)),
        Err(StoreError::Corrupt(_))
    ));
}

#[test]
fn a_context_is_kept_with_its_task() {
    let mut store = Store::open_in_memory([3u8; 32], checkpoint(0)).unwrap();
    store
        .submit_revision("task-1", &parsed(0, None, None), "origin", EXPIRES, 100)
        .unwrap();
    store.set_task_context("task-1", "ctx-1").unwrap();
    assert_eq!(
        store.task_context("task-1").unwrap(),
        Some("ctx-1".to_owned())
    );
    assert_eq!(
        store.origin_root("task-1").unwrap(),
        Some("origin".to_owned())
    );
    assert_eq!(store.origin_root("task-2").unwrap(), None);
}
