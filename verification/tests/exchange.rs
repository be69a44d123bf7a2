//! Receiving messages, exporting results, and introductions.
use akson::authority::{
    AttemptEvent, Audience, Budgets, CapabilityVector, Grant, RequestOrigin, RespondScope,
    WorkOrder,
};
use akson::contract::Identity;
use akson::control::Problem;
use akson::delivery::content_digest;
use akson::export::{
    export_result_bundle, judge_bundle, BundleDraft, BundleVerdict, SignerHint,
};
use akson::identity::{Fingerprint, FingerprintKind, PeerIdentity};
use akson::introduce::{
    binding_keys, dial_target, finish_dial, hear_proof, hear_verdict, introduction_problem,
    open_dial, respond_introduction, FlightAnswer, Hello, IntroContent, IntroIdentity,
    PendingIntro,
    IntroReading, IntroResponse, IntroTerms, IntroTranscript, IntroduceError, KeyReading, Role,
    VerifiedPeer,
};
use akson::receive_http::{
    answer_dispatch, answer_result, handle_receive, DispatchKind, HttpRequest, HttpResponse,
    ReceiveConfig, ReceiveStep, ReceivedContent, ReceivedEnvelope, ReceivedMessage, ReceivedPart,
    ResponseBody,
};
use akson::store::imports::{IntroCommitOutcome, PeerImport};
use akson::store::requests::NewTaskOutput;
use akson::store::{ExternalCheckpoint, Store};

const NOW: i64 = 1_800_000_000;
const ROOT: &str = "root-fixture-aaaaaaaaaaaaaaaaaaaaaaaaaaaaaa";

fn store() -> Store {
    let cp = ExternalCheckpoint {
        state_generation: 0,
        trusted_time: 0,
        rollback_detectable: true,
    };
    Store::open_in_memory([37u8; 32], cp).unwrap()
}

fn ident(agent: &str) -> Identity {
    Identity {
        issuer: "iss".to_owned(),
        agent: agent.to_owned(),
        root: ROOT.to_owned(),
    }
}

const BODY: &[u8] = b"{\"message\":{}}";

fn message() -> ReceivedMessage {
    ReceivedMessage {
        message_id: "msg-1".to_owned(),
        context_id: "ctx-1".to_owned(),
        parts: vec![
            ReceivedPart {
                media_type: "application/envelope".to_owned(),
                filename: String::new(),
                content: ReceivedContent::Data(Some(ReceivedEnvelope {
                    payload_type: "contract".to_owned(),
                    bytes: b"{}".to_vec(),
                })),
            },
            ReceivedPart {
                media_type: "text/plain".to_owned(),
                filename: String::new(),
                content: ReceivedContent::Other,
            },
        ],
    }
}

fn result_message() -> ReceivedMessage {
    let mut m = message();
    m.parts.push(ReceivedPart {
        media_type: "application/envelope".to_owned(),
        filename: String::new(),
        content: ReceivedContent::Data(Some(ReceivedEnvelope {
            payload_type: "result".to_owned(),
            bytes: b"manifest".to_vec(),
        })),
    });
    m.parts.push(ReceivedPart {
        media_type: "text/plain".to_owned(),
        filename: "a-1".to_owned(),
        content: ReceivedContent::Raw(b"output".to_vec()),
    });
    m
}

fn config(accepts_results: bool) -> ReceiveConfig<'static> {
    ReceiveConfig {
        required_extensions: &[],
        interface_url: "https://local/a2a",
        envelope_media_type: "application/envelope",
        result_payload_type: "result",
        has_outcome_key: accepts_results,
        has_task_result_key: true,
    }
}

fn request<'a>(body: &'a [u8], digest: &'a str) -> HttpRequest<'a> {
    HttpRequest {
        method: "POST",
        content_type: "application/a2a+json",
        a2a_version: Some("1.0"),
        content_digest: Some(digest),
        activated_extensions: &[],
        tenant: None,
        peer: "requester",
        body,
    }
}

fn response(step: ReceiveStep) -> HttpResponse {
    match step {
        ReceiveStep::Respond(response) => response,
        other => panic!("expected a response, got {other:?}"),
    }
}

#[test]
fn a_valid_message_is_dispatched_and_its_replay_is_answered_as_before() {
    let mut store = store();
    let digest = content_digest(BODY);
    let req = request(BODY, &digest);
    let covered = match handle_receive(&store, &config(false), &req, &Some(message()), NOW).unwrap() {
        ReceiveStep::Dispatch(covered) => covered,
        other => panic!("expected a dispatch, got {other:?}"),
    };
    assert_eq!(covered.message_id, "msg-1");
    let first = answer_dispatch(DispatchKind::Submitted, b"{\"id\":\"task-1\"}".to_vec());
    assert_eq!(first.status, 200);
    assert_eq!(first.content_type, "application/a2a+json");
    store
        .receive_request(
            &covered,
            BODY,
            b"{\"id\":\"task-1\"}",
            Some("task-1"),
            "task",
            NOW,
        )
        .unwrap();
    let replay =
        response(handle_receive(&store, &config(false), &req, &Some(message()), NOW).unwrap());
    assert_eq!(replay, first);
}

#[test]
fn a_wrong_content_type_is_415() {
    let store = store();
    let digest = content_digest(BODY);
    let mut req = request(BODY, &digest);
    req.content_type = "application/json";
    let resp = response(handle_receive(&store, &config(false), &req, &Some(message()), NOW).unwrap());
    assert_eq!(resp.status, 415);
    assert_eq!(resp.content_type, "application/problem+json");
}

#[test]
fn a_get_is_405() {
    let store = store();
    let mut req = request(b"{}", "sha-256=:x:");
    req.method = "GET";
    assert_eq!(
        response(handle_receive(&store, &config(false), &req, &None, NOW).unwrap()).status,
        405
    );
}

#[test]
fn a_wrong_content_digest_is_400() {
    let store = store();
    let wrong = content_digest(b"not the body");
    let resp = response(
        handle_receive(
            &store,
            &config(false),
            &request(BODY, &wrong),
            &Some(message()),
            NOW,
        )
        .unwrap(),
    );
    assert_eq!(resp.status, 400);
}

#[test]
fn a_body_that_is_no_message_is_400() {
    let digest = content_digest(BODY);
    let resp = response(
        handle_receive(&store(), &config(false), &request(BODY, &digest), &None, NOW).unwrap(),
    );
    assert_eq!(resp.status, 400);
    assert!(matches!(resp.body, ResponseBody::Problem(p) if p.type_.ends_with("malformed-request")));
}

#[test]
fn a_result_goes_its_own_way() {
    let digest = content_digest(BODY);
    let req = request(BODY, &digest);
    match handle_receive(&store(), &config(true), &req, &Some(result_message()), NOW).unwrap() {
        ReceiveStep::Finalize {
            envelope,
            delivered,
            signed_at,
        } => {
            assert_eq!(envelope.bytes, b"manifest");
            assert_eq!(delivered.len(), 1);
            assert_eq!(delivered[0].artifact_id, "a-1");
            assert_eq!(delivered[0].bytes, b"output");
            assert_eq!(signed_at, "2027-01-15T08:00:00Z");
        }
        other => panic!("expected a result, got {other:?}"),
    }
    let refused = response(
        handle_receive(&store(), &config(false), &req, &Some(result_message()), NOW).unwrap(),
    );
    assert_eq!(refused.status, 415);
}

#[test]
fn a_result_passes_the_gates_first() {
    let wrong = content_digest(b"other");
    let ask = |req: &HttpRequest<'_>| {
        response(handle_receive(&store(), &config(true), req, &Some(result_message()), NOW).unwrap())
    };
    assert_eq!(ask(&request(BODY, &wrong)).status, 400);
    let digest = content_digest(BODY);
    let mut none = request(BODY, &digest);
    none.content_digest = None;
    assert_eq!(ask(&none).status, 400);
    let mut version = request(BODY, &digest);
    version.a2a_version = None;
    assert_eq!(ask(&version).status, 400);
}

#[test]
fn what_became_of_a_proposal_gives_the_status() {
    assert_eq!(answer_dispatch(DispatchKind::Duplicate, vec![]).status, 200);
    let rejected = answer_dispatch(DispatchKind::Rejected, b"x".to_vec());
    assert_eq!(rejected.status, 422);
    assert_eq!(rejected.content_type, "application/problem+json");
    assert_eq!(rejected.body, ResponseBody::Bytes(b"x".to_vec()));
    assert_eq!(answer_dispatch(DispatchKind::Conflict, vec![]).status, 409);
    assert_eq!(answer_result(Ok(b"ok".to_vec())).status, 200);
    assert_eq!(
        answer_result(Err(Problem::new(422, "bad", "bad"))).status,
        422
    );
}

fn order(nonce: &str) -> WorkOrder {
    WorkOrder {
        version: 1,
        work_order_id: "wo-1".to_owned(),
        issuer: ident("authority"),
        issuer_assurance: "local-human".to_owned(),
        audience: Audience {
            daemon: "aksond".to_owned(),
            executor: "worker-1".to_owned(),
        },
        request_origin: RequestOrigin {
            peer: ident("requester"),
            tls_certificate_sha256: "ab".repeat(32),
        },
        task_id: "task-1".to_owned(),
        context_id: "ctx-1".to_owned(),
        message_id: "msg-1".to_owned(),
        contract_revision: 0,
        contract_digest: "a".repeat(64),
        capabilities: CapabilityVector::new(vec![Grant::Respond(RespondScope {
            task_id: "task-1".to_owned(),
            message_id: "msg-1".to_owned(),
            recipient: "request-origin".to_owned(),
            max_responses: 1,
            max_bytes: 8192,
            deadline: "2030-01-01T00:00:00Z".to_owned(),
        })])
        .unwrap(),
        input_manifest: vec![],
        processor_digest: None,
        runner_digest: None,
        sandbox_digest: None,
        profile_digest: None,
        budgets: Budgets {
            max_cost_microusd: 500,
            max_bytes: 8192,
            max_operations: 4,
        },
        evidence_slots: vec![],
        policy_version: 1,
        decision_id: "d-1".to_owned(),
        not_before: "2026-01-01T00:00:00Z".to_owned(),
        deadline: "2030-01-01T00:00:00Z".to_owned(),
        nonce: nonce.to_owned(),
        remote_cancel: None,
    }
}

fn accepted_task(store: &mut Store) -> String {
    store.claim_attempt(&order("nonce"), "digest", NOW).unwrap();
    "task-1".to_owned()
}

fn completed_task(store: &mut Store) -> String {
    let task_id = accepted_task(store);
    store
        .advance_attempt("wo-1", AttemptEvent::Start, NOW)
        .unwrap()
        .unwrap();
    store
        .put_task_output(
            &task_id,
            "a-1",
            0,
            "response",
            "text/plain",
            14,
            "sha",
            b"assessed: fine",
            NOW,
        )
        .unwrap();
    store
        .complete_attempt_with_result("wo-1", &task_id, "bundle-digest", b"manifest", NOW)
        .unwrap();
    task_id
}

/// Assembles as an endpoint does that can verify its own result.
fn assemble(draft: &BundleDraft) -> BundleVerdict {
    BundleVerdict::Verified {
        bundle_digest: "bundle-digest".to_owned(),
        outputs: draft.outputs.len() as u64,
        payload_bytes: draft.outputs.iter().map(|o| o.payload.len() as u64).sum(),
        bundle: Some(draft.manifest.clone()),
    }
}

fn export(
    store: &Store,
    agent: &str,
    task_id: &str,
    assemble: fn(&BundleDraft) -> BundleVerdict,
) -> Result<akson::export::ExportReply, Problem> {
    export_result_bundle(
        store,
        &ident(agent),
        ROOT,
        &vec![5u8; 32],
        "thumb",
        task_id,
        assemble,
    )
}

#[test]
fn a_completed_task_exports_a_bundle_that_verifies_offline() {
    let mut store = store();
    let task_id = completed_task(&mut store);
    let out = export(&store, "performer", &task_id, assemble).unwrap();
    assert_eq!(out.bundle_digest, "bundle-digest");
    assert_eq!(out.task_id, task_id);
    assert_eq!(out.outputs, 1);
    assert_eq!(out.payload_bytes, 14);
    assert_eq!(out.signer_task_result_public_key_hex, "05".repeat(32));
    assert_eq!(out.bundle, b"manifest");
}

#[test]
fn an_unknown_task_is_refused() {
    let store = store();
    let err = export(&store, "performer", "task-nope", assemble).unwrap_err();
    assert_eq!(err.status, 404);
}

#[test]
fn an_accepted_but_uncompleted_task_is_refused() {
    let mut store = store();
    let task_id = accepted_task(&mut store);
    let err = export(&store, "performer", &task_id, assemble).unwrap_err();
    assert_eq!(err.status, 404, "no completed result yet");
}

#[test]
fn a_requester_side_task_is_refused_with_the_honest_reason() {
    let mut store = store();
    store
        .record_outcome_with_outputs(
            &"d1".repeat(32),
            "task-recv",
            &"b2".repeat(32),
            &"c3".repeat(32),
            "accepted",
            b"{}",
            &Vec::<NewTaskOutput>::new(),
            "2026-07-18T00:00:00Z",
            NOW,
        )
        .unwrap();
    let err = export(&store, "requester", "task-recv", assemble).unwrap_err();
    assert_eq!(err.status, 409);
    assert!(
        err.title.contains("performer"),
        "the refusal must point at the performer's endpoint: {}",
        err.title
    );
}

#[test]
fn a_result_the_own_key_cannot_verify_is_not_exported() {
    let mut store = store();
    let task_id = completed_task(&mut store);
    let err = export(&store, "performer", &task_id, |_| {
        BundleVerdict::Refused("signature".to_owned())
    })
    .unwrap_err();
    assert_eq!(err.status, 500);
    assert!(err.title.contains("refusing to export"), "{}", err.title);
}

#[test]
fn a_bundle_is_judged_by_its_digest_and_its_reading() {
    let signer = SignerHint {
        issuer: "iss".to_owned(),
        agent: "performer".to_owned(),
        root_thumbprint: ROOT.to_owned(),
        task_result_public_key_hex: "05".to_owned(),
        task_result_thumbprint: "thumb".to_owned(),
    };
    let verified = |bundle: Option<Vec<u8>>| BundleVerdict::Verified {
        bundle_digest: "d".to_owned(),
        outputs: 0,
        payload_bytes: 0,
        bundle,
    };
    let judge = |digest: &str, verdict| judge_bundle("t", &signer, digest, verdict);
    assert!(judge("d", verified(Some(vec![1]))).is_ok());
    let p = judge("e", verified(Some(vec![1]))).unwrap_err();
    assert_eq!(p.type_, "urn:akson:error:export-invalid");
    let p = judge("d", verified(None)).unwrap_err();
    assert_eq!(p.type_, "urn:akson:error:internal");
    let p = judge("d", BundleVerdict::Unreadable).unwrap_err();
    assert_eq!(p.type_, "urn:akson:error:corrupt-result");
}

const DIALER: &str = "root-dialer";
const RESPONDER: &str = "root-responder";

fn terms() -> IntroTerms {
    IntroTerms {
        protocol_version: 1,
        token_version: 1,
        hello_path: "/hello".to_owned(),
        complete_path: "/complete".to_owned(),
        media_type: "application/intro".to_owned(),
    }
}

fn party(root: &str) -> IntroIdentity {
    IntroIdentity {
        own_root: root.to_owned(),
        tls_sha256: format!("tls-of-{root}"),
        issuer: "iss".to_owned(),
        agent: "agent".to_owned(),
    }
}

fn identity(root: &str, tls: &str) -> PeerIdentity {
    let print = |kind, value: &str| Fingerprint {
        kind,
        value: value.to_owned(),
    };
    PeerIdentity {
        issuer: Some("iss".to_owned()),
        agent_id: format!("agent-{root}"),
        workload_id: None,
        endpoint_id: "https://peer/a2a".to_owned(),
        tls_cert: print(FingerprintKind::CertSha256, tls),
        agent_card_key: print(FingerprintKind::Jwk7638, root),
        key_bindings: vec![],
        security_projection_digest: print(FingerprintKind::JsonSha256, "p"),
        full_card_digest: print(FingerprintKind::JsonSha256, "c"),
    }
}

fn proven(root: &str, tls: &str) -> VerifiedPeer {
    VerifiedPeer {
        identity: Ok(identity(root, tls)),
        keys: vec![
            KeyReading {
                purpose: "contract-proposal".to_owned(),
                key: Some([7u8; 32]),
            },
            KeyReading {
                purpose: "unreadable".to_owned(),
                key: None,
            },
        ],
    }
}

fn hello() -> Hello {
    Hello {
        protocol_version: 1,
        token_version: 1,
        target_root: RESPONDER.to_owned(),
        claimed_root: DIALER.to_owned(),
        nonce: "nonce".to_owned(),
    }
}

fn answer(
    store: &mut Store,
    pending: &mut Option<PendingIntro>,
    path: &str,
    hello: Option<Hello>,
    found: Option<VerifiedPeer>,
) -> IntroResponse {
    let found = std::cell::RefCell::new(found);
    respond_introduction(
        &party(RESPONDER),
        &terms(),
        store,
        pending,
        path,
        "203.0.113.5",
        Some("tls-of-dialer"),
        Some([1u8; 32]),
        &IntroReading {
            hello,
            is_material: true,
        },
        |t: &IntroTranscript| -> Option<Vec<u8>> {
            assert_eq!(t.role, Role::Responder);
            assert_eq!(t.responder_root, RESPONDER);
            Some(b"proof".to_vec())
        },
        |root: &str, t: &IntroTranscript, tls: &str| -> Option<VerifiedPeer> {
            assert_eq!(root, DIALER);
            assert_eq!(t.role, Role::Dialer);
            assert_eq!(tls, "tls-of-dialer");
            found.borrow_mut().take()
        },
        NOW,
    )
}

#[test]
fn an_introduction_runs_through_once() {
    let mut store = store();
    store.add_peer_import(DIALER, "dana", "", NOW).unwrap();
    let mut pending = None;
    let first = answer(&mut store, &mut pending, "/hello", Some(hello()), None);
    assert_eq!(first.status, 200);
    assert_eq!(first.content, IntroContent::Material(b"proof".to_vec()));
    assert_eq!(pending.as_ref().map(|p| p.hello.clone()), Some(hello()));
    assert_eq!(
        answer(&mut store, &mut pending, "/hello", Some(hello()), None).status,
        403
    );
    let second = answer(
        &mut store,
        &mut pending,
        "/complete",
        None,
        Some(proven(DIALER, "tls-of-dialer")),
    );
    assert_eq!(second.status, 200);
    assert_eq!(second.content, IntroContent::Acknowledged);
    assert_eq!(pending, None);
    assert_eq!(
        store.peer_by_root(DIALER).unwrap().unwrap().1,
        "active"
    );
    assert!(store
        .peer_key("tls-of-dialer", "contract-proposal")
        .unwrap()
        .is_some());
    let third = answer(
        &mut store,
        &mut pending,
        "/complete",
        None,
        Some(proven(DIALER, "tls-of-dialer")),
    );
    assert_eq!(third.status, 403);
    assert!(store.knocks().unwrap().is_empty());
}

#[test]
fn refusals_are_all_the_same_and_are_noted() {
    let mut store = store();
    let mut pending = None;
    let mut wrong_version = hello();
    wrong_version.protocol_version = 2;
    let mut wrong_target = hello();
    wrong_target.target_root = "someone".to_owned();
    let a = answer(&mut store, &mut pending, "/hello", Some(wrong_version), None);
    let b = answer(&mut store, &mut pending, "/hello", Some(wrong_target), None);
    let c = answer(&mut store, &mut pending, "/hello", Some(hello()), None);
    let d = answer(&mut store, &mut pending, "/hello", None, None);
    let e = answer(&mut store, &mut pending, "/other", None, None);
    assert_eq!(a.status, 403);
    assert_eq!(a, b);
    assert_eq!(a, c);
    assert_eq!(a, d);
    assert_eq!(a, e);
    assert_eq!(pending, None);
    let mut classes: Vec<String> = store
        .knocks()
        .unwrap()
        .into_iter()
        .map(|k| k.refusal_class)
        .collect();
    classes.sort();
    assert_eq!(classes, ["bad-version", "not-imported", "wrong-target"]);
}

#[test]
fn a_proof_that_does_not_hold_pins_nothing() {
    let mut store = store();
    store.add_peer_import(DIALER, "dana", "", NOW).unwrap();
    let mut pending = None;
    answer(&mut store, &mut pending, "/hello", Some(hello()), None);
    let r = answer(&mut store, &mut pending, "/complete", None, None);
    assert_eq!(r.status, 403);
    assert!(store.peer_by_root(DIALER).unwrap().is_none());
    assert_eq!(store.knocks().unwrap()[0].refusal_class, "bad-proof");

    answer(&mut store, &mut pending, "/hello", Some(hello()), None);
    store.remove_peer_import(DIALER, NOW).unwrap();
    let r = answer(
        &mut store,
        &mut pending,
        "/complete",
        None,
        Some(proven(DIALER, "tls-of-dialer")),
    );
    assert_eq!(r.status, 403);
    assert!(store.peer_by_root(DIALER).unwrap().is_none());
}

#[test]
fn a_relationship_that_began_anew_takes_another_hello() {
    let mut store = store();
    store.add_peer_import(DIALER, "dana", "", NOW).unwrap();
    let mut pending = None;
    let first = answer(&mut store, &mut pending, "/hello", Some(hello()), None);
    assert_eq!(first.status, 200);
    store.remove_peer_import(DIALER, NOW).unwrap();
    store.add_peer_import(DIALER, "dana", "", NOW).unwrap();
    let r = answer(
        &mut store,
        &mut pending,
        "/complete",
        None,
        Some(proven(DIALER, "tls-of-dialer")),
    );
    assert_eq!(r.status, 403);
    assert!(store.peer_by_root(DIALER).unwrap().is_none());
}

#[test]
fn changed_material_suspends() {
    let mut store = store();
    store.add_peer_import(DIALER, "dana", "", NOW).unwrap();
    let mut pending = None;
    for (tls, status) in [("tls-of-dialer", 200), ("tls-rotated", 409)] {
        answer(&mut store, &mut pending, "/hello", Some(hello()), None);
        let r = answer(
            &mut store,
            &mut pending,
            "/complete",
            None,
            Some(proven(DIALER, tls)),
        );
        assert_eq!(r.status, status);
    }
    assert_ne!(store.peer_by_root(DIALER).unwrap().unwrap().1, "active");
}

fn import(hint: &str) -> PeerImport {
    PeerImport {
        root_thumbprint: RESPONDER.to_owned(),
        label: "dana".to_owned(),
        endpoint_hint: hint.to_owned(),
        epoch: 1,
        added_at: NOW,
    }
}

#[test]
fn a_hint_leads_to_a_host_and_a_port() {
    assert_eq!(
        dial_target(&import("host:18443")).unwrap(),
        ("host".to_owned(), 18443)
    );
    assert_eq!(
        dial_target(&import("::1:80")).unwrap(),
        ("::1".to_owned(), 80)
    );
    assert_eq!(dial_target(&import("")), Err(IntroduceError::NoEndpoint));
    assert_eq!(dial_target(&import("host")), Err(IntroduceError::BadEndpoint));
    assert_eq!(
        dial_target(&import("host:70000")),
        Err(IntroduceError::BadEndpoint)
    );
}

#[test]
fn the_dialer_discloses_only_after_the_proof() {
    let mut store = store();
    store
        .add_peer_import(RESPONDER, "dana", "host:1", NOW)
        .unwrap();
    let dial = open_dial(
        &party(DIALER),
        &terms(),
        &import("host:1"),
        Some("tls-seen"),
        Some([1u8; 32]),
        &[0u8; 32],
    )
    .unwrap();
    assert_eq!(dial.hello.claimed_root, DIALER);
    assert_eq!(dial.hello.target_root, RESPONDER);
    assert_eq!(dial.hello.nonce, "A".repeat(43));
    assert_eq!(dial.their_transcript.role, Role::Responder);
    assert_eq!(dial.their_transcript.responder_tls_sha256, "tls-seen");
    assert_eq!(dial.my_transcript.role, Role::Dialer);

    assert!(hear_proof(&FlightAnswer::Response {
        status: 200,
        readable: true
    })
    .is_ok());
    let refused = hear_verdict(&dial, Err("bad signature".to_owned())).unwrap_err();
    assert_eq!(refused, IntroduceError::Verify("bad signature".to_owned()));
    let disclosure = hear_verdict(&dial, Ok(proven(RESPONDER, "tls-seen"))).unwrap();
    assert_eq!(disclosure.transcript, dial.my_transcript);
    let (peer, outcome) = finish_dial(
        &mut store,
        &dial,
        &disclosure.peer,
        &FlightAnswer::Response {
            status: 200,
            readable: true,
        },
        NOW,
    )
    .unwrap();
    assert_eq!(peer.agent_id, "agent-root-responder");
    assert_eq!(outcome, IntroCommitOutcome::Committed);
    assert_eq!(store.peer_by_root(RESPONDER).unwrap().unwrap().1, "active");
}

#[test]
fn a_removal_outruns_an_introduction() {
    let mut store = store();
    store
        .add_peer_import(RESPONDER, "dana", "host:1", NOW)
        .unwrap();
    let dial = open_dial(
        &party(DIALER),
        &terms(),
        &import("host:1"),
        Some("tls-seen"),
        Some([1u8; 32]),
        &[0u8; 32],
    )
    .unwrap();
    store.remove_peer_import(RESPONDER, NOW).unwrap();
    store
        .add_peer_import(RESPONDER, "dana", "host:1", NOW)
        .unwrap();
    let e = finish_dial(
        &mut store,
        &dial,
        &proven(RESPONDER, "tls-seen"),
        &FlightAnswer::Response {
            status: 200,
            readable: true,
        },
        NOW,
    )
    .unwrap_err();
    assert_eq!(
        e,
        IntroduceError::NotCommitted(IntroCommitOutcome::EpochChanged)
    );
    assert!(store.peer_by_root(RESPONDER).unwrap().is_none());
}

#[test]
fn what_a_connection_lacks_stops_the_dial() {
    let open = |tls: Option<&str>, exporter: Option<[u8; 32]>| {
        open_dial(
            &party(DIALER),
            &terms(),
            &import("host:1"),
            tls,
            exporter,
            &[0u8; 32],
        )
    };
    assert_eq!(
        open(None, Some([1u8; 32])).unwrap_err(),
        IntroduceError::Http("no server certificate".to_owned())
    );
    assert_eq!(
        open(Some("t"), None).unwrap_err(),
        IntroduceError::Http("no channel binding".to_owned())
    );
}

#[test]
fn a_failed_flight_is_told_for_what_it_was() {
    let answered = |status, readable| FlightAnswer::Response { status, readable };
    assert_eq!(
        hear_proof(&answered(403, true)),
        Err(IntroduceError::Refused)
    );
    assert_eq!(
        hear_proof(&answered(500, true)),
        Err(IntroduceError::Status(500))
    );
    assert_eq!(
        hear_proof(&answered(200, false)),
        Err(IntroduceError::Verify("malformed".to_owned()))
    );
    assert_eq!(
        hear_proof(&FlightAnswer::TooLarge { status: 200 }),
        Err(IntroduceError::Http("response too large".to_owned()))
    );
    assert_eq!(
        hear_proof(&FlightAnswer::Broken("reset".to_owned())),
        Err(IntroduceError::Http("reset".to_owned()))
    );
    let status = |e: &IntroduceError| introduction_problem(e).status;
    assert_eq!(status(&IntroduceError::Refused), 403);
    assert_eq!(status(&IntroduceError::NoEndpoint), 400);
    assert_eq!(status(&IntroduceError::Status(500)), 502);
    assert_eq!(
        IntroduceError::Status(500).message(),
        "introduction failed with status 500"
    );
    assert_eq!(
        IntroduceError::NotCommitted(IntroCommitOutcome::Suspended("x".to_owned())).message(),
        "the introduction could not be committed: Suspended(\"x\")"
    );
    assert_eq!(IntroduceError::Io("gone".to_owned()).message(), "io: gone");
    assert_eq!(IntroduceError::Tls("alert".to_owned()).message(), "alert");
    assert_eq!(
        IntroduceError::Store("s".to_owned()).message(),
        "committing the peer failed: s"
    );
}

#[test]
fn keys_that_cannot_be_read_are_left_out() {
    assert_eq!(
        binding_keys(&proven(DIALER, "t").keys),
        vec![("contract-proposal".to_owned(), [7u8; 32])]
    );
}
