//! Deciding on tasks, and issuing their work orders.
use akson::approve::{approve_and_issue, deny, Approval};
use akson::authority::{CapabilityComponent, Grant, WorkOrder};
use akson::broker::{AuthScheme, Disclosure, Origin, ProcessorConfig};
use akson::contract::{
    Capability, Contract, Deliverable, HeadState, Identity, ParsedContract, ResultRecipient,
};
use akson::control_dispatch::{dispatch_control, TaskAnswer};
use akson::decision::{decide, draft_decision, Decision, DecisionKind};
use akson::delivery::CoveredValues;
use akson::issue::{
    claim_order, draft_order, issue_for_accepted, IssueConfig, Seal, MAX_ATTEMPT_SECS,
};
use akson::identity::{Fingerprint, FingerprintKind, PeerIdentity, StoredPeer};
use akson::propose::{submit_proposal, Proposal, ProposedInput, Submission};
use akson::request::ControlRequest;
use akson::store::{ExternalCheckpoint, Store};
use akson::tls::cert_sha256;

const ROOT: &str = "root-fixture";
const REQ_TLS: &str = "req-tls-fingerprint";
const T: &str = "https://akson.invalid/t";

const NOW: i64 = 1_800_000_000;

fn store() -> Store {
    let cp = ExternalCheckpoint {
        state_generation: 0,
        trusted_time: 0,
        rollback_detectable: true,
    };
    Store::open_in_memory([12u8; 32], cp).unwrap()
}

fn ident(agent: &str) -> Identity {
    Identity {
        issuer: "iss".to_owned(),
        agent: agent.to_owned(),
        root: ROOT.to_owned(),
    }
}

fn proposal(caps: &[Capability], task_type: &str) -> ParsedContract {
    let contract = Contract {
        contract_id: "3f2a1b4c-9d8e-4f70-a1b2-c3d4e5f60718".to_owned(),
        revision: 0,
        predecessor_digest: None,
        task_id: None,
        context_id: None,
        task_type: task_type.to_owned(),
        message_id: "msg-1".to_owned(),
        requester: ident("requester"),
        performer: ident("performer"),
        objective: "o".to_owned(),
        input_ids: vec!["diff".to_owned()],
        deliverables: vec![Deliverable {
            role: "r".to_owned(),
            media_type: "text/plain".to_owned(),
        }],
        evidence_slots: vec![],
        requested_capabilities: caps.to_vec(),
        max_response_bytes: 8192,
        max_cost_microusd: Some(500),
        deadline: "2030-01-01T00:00:00Z".to_owned(),
        result_recipient: ResultRecipient::RequestOrigin,
        created_at: "2026-01-01T00:00:00Z".to_owned(),
        expires_at: "2030-01-01T00:00:00Z".to_owned(),
    };
    let payload = format!("{contract:?}").into_bytes();
    ParsedContract {
        digest: cert_sha256(&payload).value,
        payload,
        contract,
    }
}

/// Submits a proposal, as a received one is.
fn submit(store: &mut Store, caps: &[Capability], task_type: &str) -> String {
    let task_id = "task-1".to_owned();
    store
        .submit_revision(&task_id, &proposal(caps, task_type), ROOT, 1_893_456_000, NOW)
        .unwrap();
    store.set_task_context(&task_id, "ctx-1").unwrap();
    task_id
}

fn sign(decision: &Decision) -> Option<Vec<u8>> {
    Some(format!("{decision:?}").into_bytes())
}

fn seal(order: &WorkOrder) -> Option<Seal> {
    Some(Seal {
        digest: cert_sha256(format!("{order:?}").as_bytes()).value,
        mac: "mac".to_owned(),
    })
}

fn submit_one(store: &mut Store) -> String {
    submit(store, &[Capability::Respond], T)
}

#[test]
fn accept_locks_the_head_and_signs_a_verifiable_decision() {
    let mut store = store();
    let task_id = submit_one(&mut store);
    let record = decide(
        &mut store,
        &task_id,
        DecisionKind::Accept,
        None,
        None,
        &ident("performer"),
        sign,
        "2026-07-18T00:00:00Z",
        NOW,
    )
    .unwrap();
    assert!(record.accepted);
    assert!(matches!(
        store.contract_head(&task_id).unwrap(),
        HeadState::Locked(_)
    ));
    assert_eq!(store.list_submitted_tasks().unwrap().len(), 0);
    let signed = String::from_utf8(record.decision).unwrap();
    assert!(signed.contains(&format!("task_id: \"{task_id}\"")));
    assert!(signed.contains("decision: Accept"));
}

#[test]
fn a_second_accept_is_a_conflict() {
    let mut store = store();
    let task_id = submit_one(&mut store);
    decide(
        &mut store,
        &task_id,
        DecisionKind::Accept,
        None,
        None,
        &ident("performer"),
        sign,
        "2026-07-18T00:00:00Z",
        NOW,
    )
    .unwrap();
    let again = decide(
        &mut store,
        &task_id,
        DecisionKind::Accept,
        None,
        None,
        &ident("performer"),
        sign,
        "2026-07-18T00:00:00Z",
        NOW,
    )
    .unwrap_err();
    assert_eq!(again.status, 409);
}

#[test]
fn reject_signs_without_locking_the_head() {
    let mut store = store();
    let task_id = submit_one(&mut store);
    let record = decide(
        &mut store,
        &task_id,
        DecisionKind::Reject,
        Some("insufficient-evidence"),
        None,
        &ident("performer"),
        sign,
        "2026-07-18T00:00:00Z",
        NOW,
    )
    .unwrap();
    assert!(!record.accepted);
    assert!(matches!(
        store.contract_head(&task_id).unwrap(),
        HeadState::Open(_)
    ));
}

#[test]
fn deciding_an_unknown_task_is_404() {
    let mut store = store();
    let err = decide(
        &mut store,
        "task-nope",
        DecisionKind::Accept,
        None,
        None,
        &ident("performer"),
        sign,
        "2026-07-18T00:00:00Z",
        NOW,
    )
    .unwrap_err();
    assert_eq!(err.status, 404);
}

#[test]
fn a_decision_that_is_not_signed_changes_nothing() {
    let mut store = store();
    let task_id = submit_one(&mut store);
    let before = store.snapshot();
    let err = decide(
        &mut store,
        &task_id,
        DecisionKind::Accept,
        None,
        None,
        &ident("performer"),
        |_: &Decision| -> Option<Vec<u8>> { None },
        "2026-07-18T00:00:00Z",
        NOW,
    )
    .unwrap_err();
    assert_eq!(err.status, 500);
    assert_eq!(store.snapshot(), before);
}

#[test]
fn a_decision_is_bound_to_the_revision_it_was_made_on() {
    let mut store = store();
    let task_id = submit_one(&mut store);
    let decision = draft_decision(
        &store,
        &task_id,
        DecisionKind::RequestRevision,
        Some("scope"),
        Some("narrow it"),
        &ident("performer"),
        "2026-07-18T00:00:00Z",
    )
    .unwrap();
    assert_eq!(decision.contract_revision, 0);
    assert_eq!(
        decision.contract_digest,
        proposal(&[Capability::Respond], T).digest
    );
    assert_eq!(decision.context_id, "ctx-1");
    assert_eq!(decision.reason_code.as_deref(), Some("scope"));
    assert_eq!(decision.note.as_deref(), Some("narrow it"));
    assert_eq!(decision.decided_at, "2026-07-18T00:00:00Z");
}

fn config<'a>(issuer: &'a Identity, nonce: &'a str) -> IssueConfig<'a> {
    config_p(issuer, nonce, None)
}

fn config_p<'a>(issuer: &'a Identity, nonce: &'a str, processor: Option<&'a str>) -> IssueConfig<'a> {
    IssueConfig {
        processor_grant: processor,
        grant_artifacts: false,
        issuer,
        issuer_assurance: "local-human",
        daemon: "aksond",
        executor: "worker-1",
        requester_tls_sha256: REQ_TLS,
        nonce,
        decision_id: "d-1",
        policy_version: 1,
        max_operations: 16,
    }
}

fn submit_and_accept(store: &mut Store, caps: &[Capability]) -> String {
    let task_id = submit(store, caps, T);
    decide(
        store,
        &task_id,
        DecisionKind::Accept,
        None,
        None,
        &ident("performer"),
        sign,
        "2026-07-18T00:00:00Z",
        NOW,
    )
    .unwrap();
    task_id
}

const SAFE: [Capability; 2] = [Capability::Respond, Capability::ReadSuppliedInputs];

#[test]
fn issues_and_claims_a_work_order_granting_the_safe_capabilities() {
    let mut store = store();
    let task_id = submit_and_accept(&mut store, &SAFE);
    let issuer = ident("authority");
    let issued = issue_for_accepted(
        &mut store,
        &task_id,
        &config(&issuer, &"n".repeat(43)),
        seal,
        NOW,
    )
    .unwrap();
    assert_eq!(Some(issued.mac.clone()), seal(&issued.order).map(|s| s.mac));
    assert_eq!(issued.order.task_id, task_id);
    let caps = &issued.order.capabilities;
    assert!(caps.grant(CapabilityComponent::Respond).is_some());
    assert!(caps.grant(CapabilityComponent::ReadSuppliedInputs).is_some());
    assert!(caps.grant(CapabilityComponent::ProcessorUse).is_none());
    assert!(caps.grant(CapabilityComponent::ArtifactExport).is_none());
    assert!(store
        .attempt_state(&issued.order.work_order_id)
        .unwrap()
        .is_some());
}

#[test]
fn the_work_order_deadline_is_clamped_to_the_attempt_ceiling() {
    let mut store = store();
    let task_id = submit_and_accept(&mut store, &SAFE);
    let issuer = ident("authority");
    let issued = issue_for_accepted(
        &mut store,
        &task_id,
        &config(&issuer, &"n".repeat(43)),
        seal,
        NOW,
    )
    .unwrap();
    let expected = time::OffsetDateTime::from_unix_timestamp(NOW + MAX_ATTEMPT_SECS)
        .unwrap()
        .format(&time::format_description::well_known::Rfc3339)
        .unwrap();
    assert_eq!(issued.order.deadline, expected);
    match issued
        .order
        .capabilities
        .grant(CapabilityComponent::Respond)
    {
        Some(Grant::Respond(scope)) => assert_eq!(scope.deadline, expected),
        other => panic!("expected a Respond grant, got {other:?}"),
    }
}

#[test]
fn an_expired_contract_is_refused_at_issue() {
    let mut store = store();
    let task_id = submit_and_accept(&mut store, &SAFE);
    let issuer = ident("authority");
    let after_expiry = 1_893_456_000;
    let err = issue_for_accepted(
        &mut store,
        &task_id,
        &config(&issuer, &"n".repeat(43)),
        seal,
        after_expiry,
    )
    .unwrap_err();
    assert_eq!(err.status, 409);
    assert!(err.type_.contains("contract-expired"));
}

#[test]
fn processor_use_is_not_auto_granted() {
    let mut store = store();
    let task_id = submit_and_accept(&mut store, &[Capability::ProcessorUse]);
    let issuer = ident("authority");
    let err = issue_for_accepted(
        &mut store,
        &task_id,
        &config(&issuer, &"n".repeat(43)),
        seal,
        NOW,
    )
    .unwrap_err();
    assert_eq!(err.status, 422);
}

fn add_processor(store: &mut Store, id: &str) {
    store
        .put_processor(
            &ProcessorConfig {
                processor_id: id.to_owned(),
                provider: "example-ai".to_owned(),
                origin: Origin {
                    host: "api.example.com".to_owned(),
                    port: 443,
                },
                disclosure: Disclosure::Remote {
                    recipient: "Example AI".to_owned(),
                    region: "us-east".to_owned(),
                },
                path: "/".to_owned(),
                auth: AuthScheme::Bearer,
                headers: Vec::new(),
                config: "{\"model\":\"review-1\"}".to_owned(),
                tls_certificate_sha256: None,
            },
            NOW,
        )
        .unwrap();
}

#[test]
fn an_explicit_processor_grant_adds_processor_use_bound_to_that_processor() {
    let mut store = store();
    let task_id = submit_and_accept(
        &mut store,
        &[
            Capability::Respond,
            Capability::ReadSuppliedInputs,
            Capability::ProcessorUse,
        ],
    );
    add_processor(&mut store, "assessor");
    let issuer = ident("authority");
    let issued = issue_for_accepted(
        &mut store,
        &task_id,
        &config_p(&issuer, &"n".repeat(43), Some("assessor")),
        seal,
        NOW,
    )
    .unwrap();
    let caps = &issued.order.capabilities;
    assert!(caps.grant(CapabilityComponent::Respond).is_some());
    assert!(caps.grant(CapabilityComponent::ProcessorUse).is_some());
    match caps.grant(CapabilityComponent::ProcessorUse) {
        Some(Grant::ProcessorUse(scope)) => assert_eq!(scope.processor_id, "assessor"),
        other => panic!("expected a processor_use grant, got {other:?}"),
    }
}

#[test]
fn a_processor_grant_the_contract_did_not_request_is_refused() {
    let mut store = store();
    let task_id = submit_and_accept(&mut store, &SAFE);
    add_processor(&mut store, "assessor");
    let issuer = ident("authority");
    let err = issue_for_accepted(
        &mut store,
        &task_id,
        &config_p(&issuer, &"n".repeat(43), Some("assessor")),
        seal,
        NOW,
    )
    .unwrap_err();
    assert_eq!(err.status, 422);
}

#[test]
fn a_grant_naming_an_unconfigured_processor_is_refused() {
    let mut store = store();
    let task_id = submit_and_accept(
        &mut store,
        &[
            Capability::Respond,
            Capability::ReadSuppliedInputs,
            Capability::ProcessorUse,
        ],
    );
    let issuer = ident("authority");
    let err = issue_for_accepted(
        &mut store,
        &task_id,
        &config_p(&issuer, &"n".repeat(43), Some("ghost")),
        seal,
        NOW,
    )
    .unwrap_err();
    assert_eq!(err.status, 404);
}

#[test]
fn an_explicit_artifact_grant_adds_artifact_export_when_requested() {
    let mut store = store();
    let task_id = submit_and_accept(
        &mut store,
        &[
            Capability::Respond,
            Capability::ReadSuppliedInputs,
            Capability::ArtifactExport,
        ],
    );
    let issuer = ident("authority");
    let issued = issue_for_accepted(
        &mut store,
        &task_id,
        &IssueConfig {
            grant_artifacts: true,
            ..config(&issuer, &"n".repeat(43))
        },
        seal,
        NOW,
    )
    .unwrap();
    assert!(issued
        .order
        .capabilities
        .grant(CapabilityComponent::ArtifactExport)
        .is_some());
}

#[test]
fn an_artifact_grant_the_contract_did_not_request_is_refused() {
    let mut store = store();
    let task_id = submit_and_accept(&mut store, &SAFE);
    let issuer = ident("authority");
    let err = issue_for_accepted(
        &mut store,
        &task_id,
        &IssueConfig {
            grant_artifacts: true,
            ..config(&issuer, &"n".repeat(43))
        },
        seal,
        NOW,
    )
    .unwrap_err();
    assert_eq!(err.status, 422);
}

#[test]
fn issuing_before_accept_is_refused() {
    let mut store = store();
    let task_id = submit_one(&mut store);
    let issuer = ident("authority");
    let err = issue_for_accepted(
        &mut store,
        &task_id,
        &config(&issuer, &"n".repeat(43)),
        seal,
        NOW,
    )
    .unwrap_err();
    assert_eq!(err.status, 409);
}

#[test]
fn an_order_without_a_seal_is_not_issued() {
    let mut store = store();
    let task_id = submit_and_accept(&mut store, &SAFE);
    let issuer = ident("authority");
    let nonce = "n".repeat(43);
    let order = draft_order(&store, &task_id, &config(&issuer, &nonce), NOW).unwrap();
    let before = store.snapshot();
    assert_eq!(
        claim_order(&mut store, order, None, NOW).unwrap_err().status,
        500
    );
    assert_eq!(store.snapshot(), before);
}

#[test]
fn a_nonce_serves_one_order() {
    let mut store = store();
    let task_id = submit_and_accept(&mut store, &SAFE);
    let issuer = ident("authority");
    let nonce = "n".repeat(43);
    let order = draft_order(&store, &task_id, &config(&issuer, &nonce), NOW).unwrap();
    let mut other = order.clone();
    other.work_order_id = "wo-other".to_owned();
    let first = seal(&order);
    let second = seal(&other);
    claim_order(&mut store, order, first, NOW).unwrap();
    assert_eq!(
        claim_order(&mut store, other, second, NOW).unwrap_err().status,
        409
    );
}

#[test]
fn task_inbox_lists_a_submitted_task() {
    let mut store = store();
    let TaskAnswer::Inbox(empty) = dispatch_control(&store, &ControlRequest::TaskInbox).unwrap()
    else {
        panic!("expected the inbox");
    };
    assert_eq!(empty.len(), 0);
    let task_id = submit_one(&mut store);
    let TaskAnswer::Inbox(tasks) = dispatch_control(&store, &ControlRequest::TaskInbox).unwrap()
    else {
        panic!("expected the inbox");
    };
    assert_eq!(tasks.len(), 1);
    assert_eq!(tasks[0].task_id, task_id);
    assert!(matches!(
        store.contract_head(&tasks[0].task_id).unwrap(),
        HeadState::Open(_)
    ));
}

#[test]
fn a_task_is_shown_with_its_terms() {
    let mut store = store();
    let task_id = submit(
        &mut store,
        &[Capability::Respond],
        "https://akson.invalid/task/code-review/v1",
    );
    let request = ControlRequest::TaskShow {
        task_id: task_id.clone(),
    };
    let TaskAnswer::Card(card) = dispatch_control(&store, &request).unwrap() else {
        panic!("expected a card");
    };
    assert_eq!(card.task_id, task_id);
    assert!(card.terms.task_type.contains("code-review"));
    assert_eq!(card.revision, 0);
}

#[test]
fn task_show_on_an_unknown_task_is_404() {
    let store = store();
    let problem = dispatch_control(
        &store,
        &ControlRequest::TaskShow {
            task_id: "task-nope".to_owned(),
        },
    )
    .unwrap_err();
    assert_eq!(problem.status, 404);
}

#[test]
fn other_requests_are_not_about_tasks() {
    let problem = dispatch_control(&store(), &ControlRequest::PeerList).unwrap_err();
    assert_eq!(problem.type_, "urn:akson:error:unsupported-operation");
}

fn print_of(kind: FingerprintKind, value: &str) -> Fingerprint {
    Fingerprint {
        kind,
        value: value.to_owned(),
    }
}

fn pair_requester(store: &mut Store) {
    store
        .put_peer(&StoredPeer {
            identity: PeerIdentity {
                issuer: Some("iss".to_owned()),
                agent_id: "requester".to_owned(),
                workload_id: None,
                endpoint_id: "https://requester/a2a".to_owned(),
                tls_cert: print_of(FingerprintKind::CertSha256, "req-fp"),
                agent_card_key: print_of(FingerprintKind::Jwk7638, ROOT),
                key_bindings: vec![],
                security_projection_digest: print_of(FingerprintKind::JsonSha256, "p"),
                full_card_digest: print_of(FingerprintKind::JsonSha256, "c"),
            },
            local_note: String::new(),
        })
        .unwrap();
}

fn approval<'a>(performer: &'a Identity, nonce: &'a str) -> Approval<'a> {
    Approval {
        performer,
        processor: None,
        artifacts: false,
        decided_at: "2026-07-18T00:00:00Z",
        nonce,
        decision_id: "decision-1",
    }
}

#[test]
fn an_approval_accepts_and_issues() {
    let mut store = store();
    pair_requester(&mut store);
    let task_id = submit_one(&mut store);
    let performer = ident("performer");
    let out = approve_and_issue(
        &mut store,
        &task_id,
        &approval(&performer, "nonce-1"),
        sign,
        seal,
        NOW,
    );
    assert_eq!(out.is_ok(), true);
    let order = out.unwrap().order;
    assert!(order.work_order_id.starts_with("wo-"));
    assert_eq!(store.list_submitted_tasks().unwrap().len(), 0);
}

#[test]
fn an_approval_that_stopped_halfway_is_taken_up_again() {
    let mut store = store();
    let task_id = submit_one(&mut store);
    let performer = ident("performer");
    let a = approval(&performer, "nonce-1");
    // Nobody is pinned for who asked: the task is accepted, and no order goes out.
    let refused = approve_and_issue(&mut store, &task_id, &a, sign, seal, NOW).unwrap_err();
    assert_eq!(refused.status, 500);
    assert!(matches!(
        store.contract_head(&task_id).unwrap(),
        HeadState::Locked(_)
    ));
    pair_requester(&mut store);
    let issued = approve_and_issue(&mut store, &task_id, &a, |_| None, seal, NOW).unwrap();
    assert!(issued.order.work_order_id.starts_with("wo-"));
}

#[test]
fn an_approval_that_is_not_signed_issues_nothing() {
    let mut store = store();
    pair_requester(&mut store);
    let task_id = submit_one(&mut store);
    let performer = ident("performer");
    let a = approval(&performer, "nonce-1");
    let refused = approve_and_issue(&mut store, &task_id, &a, |_| None, seal, NOW).unwrap_err();
    assert_eq!(refused.type_, "urn:akson:error:sign-failed");
    assert_eq!(store.list_submitted_tasks().unwrap().len(), 1);
}

#[test]
fn a_denial_gives_its_reason_and_locks_nothing() {
    let mut store = store();
    let task_id = submit_one(&mut store);
    let record = deny(
        &mut store,
        &task_id,
        &ident("performer"),
        "out-of-scope",
        sign,
        "2026-07-18T00:00:00Z",
        NOW,
    )
    .unwrap();
    assert!(!record.accepted);
    assert!(String::from_utf8(record.decision)
        .unwrap()
        .contains("out-of-scope"));
    assert!(matches!(
        store.contract_head(&task_id).unwrap(),
        HeadState::Open(_)
    ));
}

fn arrival(message_id: &str) -> CoveredValues {
    CoveredValues {
        peer: ROOT.to_owned(),
        message_id: message_id.to_owned(),
        body_digest: "digest".to_owned(),
        interface_url: "https://performer.invalid/a2a".to_owned(),
        tenant: None,
        a2a_version: "1.0".to_owned(),
        extensions: vec![],
        content_type: "application/json".to_owned(),
        http_method: "POST".to_owned(),
    }
}

fn arriving() -> Proposal {
    let input = |id: &str, payload: &[u8]| ProposedInput {
        input_id: id.to_owned(),
        media_type: "text/plain".to_owned(),
        sha256: format!("sha-{id}"),
        payload: payload.to_vec(),
    };
    Proposal {
        task_id: "task-1".to_owned(),
        context_id: "context-1".to_owned(),
        parsed: proposal(&SAFE, T),
        expires_at: 1_893_456_000,
        inputs: vec![input("a", b"first"), input("b", b"second"), input("a", b"third")],
        response: b"submitted".to_vec(),
    }
}

#[test]
fn a_proposal_is_recorded_once_and_starts_nothing() {
    let mut store = store();
    let p = arriving();
    let first = submit_proposal(&mut store, &arrival("m"), b"body", ROOT, &p, NOW);
    assert_eq!(first, Submission::Submitted);
    assert_eq!(store.list_submitted_tasks().unwrap().len(), 1);
    assert!(matches!(store.contract_head("task-1"), Ok(HeadState::Open(_))));
    let kept = store.list_task_inputs("task-1").unwrap();
    assert_eq!(kept.len(), 2);
    assert_eq!(kept[0].payload, b"first");
    assert_eq!(kept[1].payload, b"second");
    assert_eq!(store.attempt_for_task("task-1").unwrap(), None);
    assert_eq!((kept[0].ordinal, kept[1].ordinal), (0, 1));
    assert_eq!(kept[1].byte_length, 6);

    let before = store.snapshot();
    let again = submit_proposal(&mut store, &arrival("m"), b"body", ROOT, &p, NOW + 1);
    assert_eq!(again, Submission::Duplicate(b"submitted".to_vec()));
    let mut changed = arrival("m");
    changed.body_digest = "other".to_owned();
    let other = submit_proposal(&mut store, &changed, b"other", ROOT, &p, NOW + 1);
    assert_eq!(other, Submission::Conflict);
    assert_eq!(store.snapshot(), before);
}

#[test]
fn a_proposal_that_does_not_follow_the_head_leaves_no_trace() {
    let mut store = store();
    let p = arriving();
    submit_proposal(&mut store, &arrival("m"), b"body", ROOT, &p, NOW);
    let before = store.snapshot();
    let mut q = arriving();
    q.parsed.digest = "another".to_owned();
    let stale = submit_proposal(&mut store, &arrival("n"), b"body", ROOT, &q, NOW);
    assert_eq!(stale, Submission::Stale);
    assert_eq!(store.snapshot(), before);
}
