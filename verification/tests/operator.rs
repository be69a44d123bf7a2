//! The requests of the operator, and the reactions to what arrives.
use akson::address::host_port_of;
use akson::authority::WorkOrder;
use akson::contract::{
    Capability, Contract, Deliverable, Identity, ParsedContract, ResultRecipient,
};
use akson::control::Problem;
use akson::control_dispatch::TaskAnswer;
use akson::coord_peers::FeatureReport;
use akson::decision::{decide, Decision, DecisionKind};
use akson::endpoint::Endpoint;
use akson::identity::{Fingerprint, FingerprintKind, PeerIdentity, PeerStatus, StoredPeer, SuspendReason};
use akson::issue::{issue_for_accepted, IssueConfig, Seal};
use akson::operator::{
    answer_ping, dispatch, resolve_performer, send_introduced, token_reply, Answer, Effect, Performer,
    Reply,
};
use akson::pairing::PairServeError;
use akson::reactor::{auto_approve_if_allowed, begin_sweep, end_sweep, hook_environment};
use akson::request::{ControlRequest, SendSpec, TokenReading};
use akson::store::imports::IntroCommitOutcome;
use akson::store::peers::AutoApprovePolicy;
use akson::store::requests::NewTaskOutput;
use akson::store::{ExternalCheckpoint, Store};
use akson::tls::cert_sha256;

const ROOT: &str = "root-fixture-aaaaaaaaaaaaaaaaaaaaaaaaaaaaaa";
const OWN_ROOT: &str = "root-own-aaaaaaaaaaaaaaaaaaaaaaaaaaaaaaaaaa";
const T: &str = "https://akson.invalid/task/code-review/v1";

const NOW: i64 = 1_800_000_000;

fn store() -> Store {
    let cp = ExternalCheckpoint {
        state_generation: 0,
        trusted_time: 0,
        rollback_detectable: true,
    };
    Store::open_in_memory([12u8; 32], cp).unwrap()
}

fn ident(agent: &str) -> Identity {
    Identity {
        issuer: "iss".to_owned(),
        agent: agent.to_owned(),
        root: ROOT.to_owned(),
    }
}

fn proposal(caps: &[Capability], task_type: &str) -> ParsedContract {
    let contract = Contract {
        contract_id: "3f2a1b4c-9d8e-4f70-a1b2-c3d4e5f60718".to_owned(),
        revision: 0,
        predecessor_digest: None,
        task_id: None,
        context_id: None,
        task_type: task_type.to_owned(),
        message_id: "msg-1".to_owned(),
        requester: ident("requester"),
        performer: ident("performer"),
        objective: "o".to_owned(),
        input_ids: vec!["diff".to_owned()],
        deliverables: vec![Deliverable {
            role: "r".to_owned(),
            media_type: "text/plain".to_owned(),
        }],
        evidence_slots: vec![],
        requested_capabilities: caps.to_vec(),
        max_response_bytes: 8192,
        max_cost_microusd: Some(500),
        deadline: "2030-01-01T00:00:00Z".to_owned(),
        result_recipient: ResultRecipient::RequestOrigin,
        created_at: "2026-01-01T00:00:00Z".to_owned(),
        expires_at: "2030-01-01T00:00:00Z".to_owned(),
    };
    let payload = format!("{contract:?}").into_bytes();
    ParsedContract {
        digest: cert_sha256(&payload).value,
        payload,
        contract,
    }
}

/// Submits a proposal, as a received one is.
fn submit(store: &mut Store, caps: &[Capability], task_type: &str) -> String {
    let task_id = "task-1".to_owned();
    store
        .submit_revision(&task_id, &proposal(caps, task_type), ROOT, 1_893_456_000, NOW)
        .unwrap();
    store.set_task_context(&task_id, "ctx-1").unwrap();
    task_id
}

fn sign(decision: &Decision) -> Option<Vec<u8>> {
    Some(format!("{decision:?}").into_bytes())
}

fn seal(order: &WorkOrder) -> Option<Seal> {
    Some(Seal {
        digest: cert_sha256(format!("{order:?}").as_bytes()).value,
        mac: "mac".to_owned(),
    })
}

fn me(root: &str) -> Endpoint {
    Endpoint {
        issuer: "iss".to_owned(),
        agent: "performer".to_owned(),
        root: root.to_owned(),
        token: format!("akson1{}", "q".repeat(59)),
        interface_url: "https://local:18443/a2a".to_owned(),
        receive_addr: None,
        fingerprint: "fp".to_owned(),
        data_dir: "/srv/akson".to_owned(),
    }
}

fn report() -> Vec<FeatureReport> {
    vec![
        FeatureReport {
            feature: "seccomp".to_owned(),
            available: true,
            required: true,
        },
        FeatureReport {
            feature: "landlock".to_owned(),
            available: false,
            required: false,
        },
    ]
}

fn ask(store: &mut Store, request: ControlRequest) -> Result<Answer, Problem> {
    dispatch(store, &me(OWN_ROOT), &request, &report(), NOW)
}

fn reply(store: &mut Store, request: ControlRequest) -> Reply {
    match ask(store, request).unwrap() {
        Answer::Reply(reply) => reply,
        other => panic!("expected a reply, got {other:?}"),
    }
}

fn effect(store: &mut Store, request: ControlRequest) -> Effect {
    match ask(store, request).unwrap() {
        Answer::Perform(effect) => effect,
        other => panic!("expected an effect, got {other:?}"),
    }
}

fn add(root: &str, suffix: Option<&str>, label: &str) -> ControlRequest {
    ControlRequest::PeerAdd {
        token: TokenReading::Root(root.to_owned()),
        suffix: suffix.map(str::to_owned),
        label: label.to_owned(),
        endpoint: None,
        update: false,
    }
}

fn peer(root: &str, agent: &str) -> StoredPeer {
    let print = |kind, value: &str| Fingerprint {
        kind,
        value: value.to_owned(),
    };
    StoredPeer {
        identity: PeerIdentity {
            issuer: Some("iss".to_owned()),
            agent_id: agent.to_owned(),
            workload_id: None,
            endpoint_id: "https://requester/a2a".to_owned(),
            tls_cert: print(FingerprintKind::CertSha256, "req-fp"),
            agent_card_key: print(FingerprintKind::Jwk7638, root),
            key_bindings: vec![],
            security_projection_digest: print(FingerprintKind::JsonSha256, "p"),
            full_card_digest: print(FingerprintKind::JsonSha256, "c"),
        },
        local_note: String::new(),
    }
}

#[test]
fn token_import_label_remove_roundtrip() {
    let mut a = store();
    let Reply::Token(token_b) = reply(&mut a, ControlRequest::Token) else {
        panic!("expected a token");
    };
    assert!(token_b.token.starts_with("akson1"));
    assert_eq!(token_b.token.len(), 65);
    assert_eq!(
        token_b.presentation,
        format!("{}@local:18443", token_b.token)
    );

    let Reply::Imported(added) = reply(&mut a, add(ROOT, Some("127.0.0.1:18444"), "bob-codex"))
    else {
        panic!("expected an import");
    };
    assert_eq!(added.endpoint_hint.as_deref(), Some("127.0.0.1:18444"));

    let own_err = ask(&mut a, add(OWN_ROOT, None, "me")).unwrap_err();
    assert_eq!(own_err.status, 400);

    let dup = ask(&mut a, add(ROOT, None, "other")).unwrap_err();
    assert_eq!(dup.status, 409);

    let Reply::Peers { imports, .. } = reply(&mut a, ControlRequest::PeerList) else {
        panic!("expected a list");
    };
    assert_eq!(imports.len(), 1);
    assert_eq!(imports[0].label, "bob-codex");
    assert_eq!(imports[0].status, "imported");
    assert!(imports[0].claims.is_none());

    reply(
        &mut a,
        ControlRequest::PeerLabel {
            label: "bob-codex".to_owned(),
            new_label: "dana".to_owned(),
        },
    );
    reply(
        &mut a,
        ControlRequest::PeerImportRemove {
            label: "dana".to_owned(),
        },
    );
    let Reply::Peers { imports, .. } = reply(&mut a, ControlRequest::PeerList) else {
        panic!("expected a list");
    };
    assert!(imports.is_empty());

    let Reply::Knocks(knocks) = reply(&mut a, ControlRequest::PeerKnocks) else {
        panic!("expected the log");
    };
    assert!(knocks.is_empty());
}

#[test]
fn diagnose_reports_daemon_health() {
    let mut store = store();
    let Reply::Health(health) = reply(&mut store, ControlRequest::Diagnose) else {
        panic!("expected a report");
    };
    assert_eq!(health.daemon, "aksond");
    assert_eq!(health.capabilities, report());
    assert!(health.sandbox_ready);
}

#[test]
fn approve_over_dispatch_issues_a_work_order_with_the_derived_keys() {
    let mut store = store();
    store.put_peer(&peer(ROOT, "requester")).unwrap();
    let task_id = submit(&mut store, &[Capability::Respond], T);
    let Effect::Approve {
        task_id: approved,
        processor,
        artifacts,
        now,
    } = effect(
        &mut store,
        ControlRequest::TaskApprove {
            task_id: task_id.clone(),
            processor: None,
            artifacts: false,
        },
    )
    else {
        panic!("expected an approval");
    };
    assert_eq!(approved, task_id);
    let record = decide(
        &mut store,
        &approved,
        DecisionKind::Accept,
        None,
        None,
        &ident("performer"),
        sign,
        "2027-01-15T08:00:00Z",
        now,
    )
    .unwrap();
    let issuer = ident("performer");
    let nonce = "n".repeat(43);
    let issued = issue_for_accepted(
        &mut store,
        &approved,
        &IssueConfig {
            processor_grant: processor.as_deref(),
            grant_artifacts: artifacts,
            issuer: &issuer,
            issuer_assurance: "local-human",
            daemon: "aksond",
            executor: "worker",
            requester_tls_sha256: "req-fp",
            nonce: &nonce,
            decision_id: "d-1",
            policy_version: 1,
            max_operations: 16,
        },
        seal,
        now,
    )
    .unwrap();
    assert_eq!(record.accepted, true);
    assert!(issued.order.work_order_id.starts_with("wo-"));
    let Reply::Tasks(TaskAnswer::Inbox(tasks)) = reply(&mut store, ControlRequest::TaskInbox) else {
        panic!("expected the inbox");
    };
    assert_eq!(tasks.len(), 0);
}

#[test]
fn processor_add_list_and_credential_round_trip() {
    let mut store = store();
    let Reply::Processors(none) = reply(&mut store, ControlRequest::ProcessorList) else {
        panic!("expected a list");
    };
    assert_eq!(none.len(), 0);
    let added = reply(
        &mut store,
        ControlRequest::ProcessorAdd {
            processor_id: "local-llm".to_owned(),
            provider: "local".to_owned(),
            origin_host: "127.0.0.1".to_owned(),
            origin_port: 8443,
            local: true,
            tls_certificate_sha256: Some("ab".repeat(32)),
            path: None,
            auth: None,
            headers: vec!["x-a: one".to_owned(), "none".to_owned(), " x-b :two:2 ".to_owned()],
        },
    );
    assert_eq!(
        added,
        Reply::ProcessorAdded {
            processor_id: "local-llm".to_owned()
        }
    );
    let Reply::Processors(procs) = reply(&mut store, ControlRequest::ProcessorList) else {
        panic!("expected a list");
    };
    assert_eq!(procs.len(), 1);
    assert_eq!(procs[0].processor_id, "local-llm");
    assert_eq!(procs[0].origin, "https://127.0.0.1:8443");
    assert_eq!(procs[0].local, true);
    assert_eq!(procs[0].pinned, true);
    let config = store.get_processor("local-llm").unwrap().unwrap();
    assert_eq!(config.path, "/");
    let headers: Vec<(String, String)> = config
        .headers
        .into_iter()
        .map(|h| (h.name, h.value))
        .collect();
    assert_eq!(
        headers,
        vec![
            ("x-a".to_owned(), "one".to_owned()),
            ("x-b".to_owned(), "two:2".to_owned())
        ]
    );
    let cred = reply(
        &mut store,
        ControlRequest::ProcessorCredential {
            processor_id: "local-llm".to_owned(),
            credential: "sk-secret".to_owned(),
        },
    );
    assert_eq!(
        cred,
        Reply::CredentialSet {
            processor_id: "local-llm".to_owned()
        }
    );
    assert_eq!(
        store.get_credential("local-llm").unwrap(),
        Some(b"sk-secret".to_vec())
    );
}

#[test]
fn an_import_is_refused_for_what_is_wrong_with_it() {
    let mut store = store();
    let bad = |token: TokenReading, label: &str, endpoint: Option<&str>, update: bool| {
        ControlRequest::PeerAdd {
            token,
            suffix: None,
            label: label.to_owned(),
            endpoint: endpoint.map(str::to_owned),
            update,
        }
    };
    let root = || TokenReading::Root(ROOT.to_owned());
    let cases = [
        (
            bad(TokenReading::Unreadable("no token".to_owned()), "a", None, false),
            400,
            "bad-token",
        ),
        (bad(root(), "Not A Label", None, false), 400, "bad-label"),
        (bad(root(), "a--b", None, false), 400, "bad-label"),
        (bad(root(), "a", Some("no-port"), false), 400, "bad-endpoint"),
        (bad(root(), "a", Some("h:0"), false), 400, "bad-endpoint"),
        (bad(root(), "a", None, true), 404, "unknown-peer"),
    ];
    for (request, status, kind) in cases {
        let p = ask(&mut store, request).unwrap_err();
        assert_eq!(p.status, status);
        assert_eq!(p.type_, format!("urn:akson:error:{kind}"));
    }
    reply(&mut store, add(ROOT, None, "a"));
    let p = ask(&mut store, add("another-root", None, "a")).unwrap_err();
    assert_eq!(p.type_, "urn:akson:error:label-taken");
    reply(&mut store, bad(root(), "b", Some("h:1"), true));
    let import = store.peer_import_by_label("b").unwrap().unwrap();
    assert_eq!(import.endpoint_hint, "h:1");
    assert_eq!(import.root_thumbprint, ROOT);
}

#[test]
fn labels_are_the_only_address() {
    let mut store = store();
    store.put_peer(&peer("stray-root", "stray")).unwrap();
    let p = resolve_performer(&store, "stray").unwrap_err();
    assert_eq!(p.status, 404);

    reply(&mut store, add(ROOT, Some("h:1"), "dana"));
    assert!(matches!(
        resolve_performer(&store, "dana").unwrap(),
        Performer::FirstContact(_)
    ));
    store.put_peer(&peer(ROOT, "requester")).unwrap();
    assert_eq!(
        resolve_performer(&store, "dana").unwrap(),
        Performer::Known {
            root: ROOT.to_owned(),
            agent: "requester".to_owned()
        }
    );
    store.put_peer(&peer("third-root", "dana")).unwrap();
    let p = resolve_performer(&store, "dana").unwrap_err();
    assert_eq!(p.type_, "urn:akson:error:ambiguous-performer");
}

#[test]
fn a_suspended_peer_is_sent_nothing() {
    let mut store = store();
    reply(&mut store, add(ROOT, Some("h:1"), "dana"));
    store.put_peer(&peer(ROOT, "requester")).unwrap();
    let mut rotated = peer(ROOT, "requester");
    rotated.identity.tls_cert.value = "other-fp".to_owned();
    assert!(matches!(
        store
            .commit_introduced_peer(ROOT, 1, &rotated, &vec![], NOW)
            .unwrap(),
        IntroCommitOutcome::Suspended(_)
    ));
    let p = ask(
        &mut store,
        ControlRequest::TaskSend {
            spec: SendSpec {
                performer: "dana".to_owned(),
                rest: "{}".to_owned(),
            },
        },
    )
    .unwrap_err();
    assert_eq!(p.status, 409);
    assert_eq!(p.type_, "urn:akson:error:peer-suspended");
}

#[test]
fn a_task_goes_to_the_agent_behind_the_label() {
    let mut store = store();
    reply(&mut store, add(ROOT, Some("h:1"), "dana"));
    let send = || ControlRequest::TaskSend {
        spec: SendSpec {
            performer: "dana".to_owned(),
            rest: "{}".to_owned(),
        },
    };
    assert!(matches!(
        effect(&mut store, send()),
        Effect::Introduce { send: Some(_), .. }
    ));
    store.put_peer(&peer(ROOT, "requester")).unwrap();
    assert_eq!(
        effect(&mut store, send()),
        Effect::Send {
            spec: SendSpec {
                performer: "requester".to_owned(),
                rest: "{}".to_owned()
            },
            root: ROOT.to_owned()
        }
    );
    assert!(matches!(
        effect(
            &mut store,
            ControlRequest::PeerPing {
                label: "dana".to_owned()
            }
        ),
        Effect::Introduce { send: None, .. }
    ));
}

#[test]
fn outputs_are_given_by_role() {
    let mut store = store();
    let output = |artifact_id: &'static str, ordinal, role: &'static str, payload: &'static [u8]| {
        NewTaskOutput {
            artifact_id,
            ordinal,
            role,
            media_type: "text/plain",
            byte_length: payload.len() as i64,
            sha256: "s",
            payload,
        }
    };
    store
        .record_outcome_with_outputs(
            "d",
            "task-9",
            "b",
            "o",
            "accepted",
            b"{}",
            &vec![
                output("a-1", 0, "response", b"hello"),
                output("a-2", 1, "patch", b"diff"),
            ],
            "at",
            NOW,
        )
        .unwrap();
    let get = |role: Option<&str>| ControlRequest::TaskOutput {
        task_id: "task-9".to_owned(),
        role: role.map(str::to_owned),
    };
    let Reply::Outputs { outputs, .. } = reply(&mut store, get(None)) else {
        panic!("expected outputs");
    };
    assert_eq!(outputs.len(), 2);
    assert_eq!(outputs[0].content, "aGVsbG8=");
    let Reply::Outputs { outputs, .. } = reply(&mut store, get(Some("patch"))) else {
        panic!("expected outputs");
    };
    assert_eq!(outputs.len(), 1);
    assert_eq!(outputs[0].artifact_id, "a-2");
    let Reply::Outcomes(outcomes) = reply(&mut store, ControlRequest::TaskOutcomes) else {
        panic!("expected outcomes");
    };
    assert_eq!(outcomes[0].task_id, "task-9");
}

#[test]
fn a_standing_approval_binds_to_an_introduced_root() {
    let mut store = store();
    reply(&mut store, add(ROOT, None, "dana"));
    let set = |types: &[&str]| ControlRequest::PeerAutoApprove {
        label: "dana".to_owned(),
        task_types: types.iter().map(|t| (*t).to_owned()).collect(),
        max_response_bytes: 8192,
    };
    let p = ask(&mut store, set(&[T])).unwrap_err();
    assert_eq!(p.type_, "urn:akson:error:not-introduced");
    store.put_peer(&peer(ROOT, "requester")).unwrap();
    assert!(matches!(
        reply(&mut store, set(&[T])),
        Reply::ApprovalSet { root_thumbprint, .. } if root_thumbprint == ROOT
    ));
    assert_eq!(
        store.auto_approve_for_root(ROOT).unwrap().unwrap(),
        AutoApprovePolicy {
            task_types: vec![T.to_owned()],
            max_response_bytes: 8192
        }
    );
    assert_eq!(
        reply(&mut store, set(&[])),
        Reply::ApprovalCleared {
            cleared: true,
            label: "dana".to_owned()
        }
    );
    assert_eq!(store.auto_approve_for_root(ROOT).unwrap(), None);
}

#[test]
fn a_rolled_back_clock_decides_nothing() {
    let mut store = store();
    store.trusted_now(NOW + 100_000).unwrap();
    let p = ask(
        &mut store,
        ControlRequest::TaskDeny {
            task_id: "task-1".to_owned(),
            reason: "no".to_owned(),
        },
    )
    .unwrap_err();
    assert_eq!(p.status, 503);
}

#[test]
fn who_this_endpoint_is() {
    let mut store = store();
    let Reply::WhoAmI(who) = reply(&mut store, ControlRequest::WhoAmI) else {
        panic!("expected an identity");
    };
    assert_eq!(who.agent, "performer");
    assert_eq!(who.data_dir, "/srv/akson");
    assert_eq!(reply(&mut store, ControlRequest::IssueWorkOrder), Reply::Accepted);
    let p = ask(&mut store, ControlRequest::CoordWhoAmI).unwrap_err();
    assert_eq!(p.status, 400);
}

fn approve_standing(store: &mut Store, types: &[&str], max: u64) {
    store
        .put_auto_approve(
            "requester",
            ROOT,
            &AutoApprovePolicy {
                task_types: types.iter().map(|t| (*t).to_owned()).collect(),
                max_response_bytes: max,
            },
            NOW,
        )
        .unwrap();
}

#[test]
fn a_task_that_fits_is_approved_without_being_asked_for() {
    let mut store = store();
    store.put_peer(&peer(ROOT, "requester")).unwrap();
    approve_standing(&mut store, &[T], 8192);
    let task_id = submit(&mut store, &[Capability::Respond], T);
    assert!(auto_approve_if_allowed(&store, &task_id));
    let pending = begin_sweep(&mut store, NOW).unwrap();
    assert_eq!(pending.len(), 1);
    assert_eq!(pending[0].approve_at, Some(NOW));
    end_sweep(&mut store, &pending, NOW).unwrap();
    assert!(begin_sweep(&mut store, NOW).unwrap().is_empty());
}

#[test]
fn whatever_does_not_fit_is_left_for_a_decision() {
    let with = |types: &[&str], max: u64, caps: &[Capability], active: bool| {
        let mut store = store();
        if active {
            store.put_peer(&peer(ROOT, "requester")).unwrap();
        } else {
            store
                .put_peer_status(&peer(ROOT, "requester"), PeerStatus::Suspended(SuspendReason::MaterialChanged))
                .unwrap();
        }
        approve_standing(&mut store, types, max);
        let task_id = submit(&mut store, caps, T);
        auto_approve_if_allowed(&store, &task_id)
    };
    let safe = [Capability::Respond];
    assert!(with(&[T], 8192, &safe, true));
    assert!(!with(&["other"], 8192, &safe, true));
    assert!(!with(&[T], 8191, &safe, true));
    assert!(!with(&[T], 8192, &[Capability::ProcessorUse], true));
    assert!(!with(&[T], 8192, &[Capability::ArtifactExport], true));
    assert!(!with(&[T], 8192, &safe, false));
    let mut none = store();
    none.put_peer(&peer(ROOT, "requester")).unwrap();
    let task_id = submit(&mut none, &safe, T);
    assert!(!auto_approve_if_allowed(&none, &task_id));
    assert!(!auto_approve_if_allowed(&none, "task-nope"));
}

#[test]
fn a_standing_approval_is_for_where_a_task_came_from() {
    let mut store = store();
    store.put_peer(&peer(ROOT, "requester")).unwrap();
    approve_standing(&mut store, &[T], 8192);
    // The contract names an approved requester, but came from elsewhere.
    let claimed = proposal(&[Capability::Respond], T);
    store
        .submit_revision("task-1", &claimed, "root-elsewhere", 1_893_456_000, NOW)
        .unwrap();
    assert!(!auto_approve_if_allowed(&store, "task-1"));
}

#[test]
fn a_sweep_at_a_doubtful_time_approves_nothing() {
    let mut store = store();
    store.put_peer(&peer(ROOT, "requester")).unwrap();
    approve_standing(&mut store, &[T], 8192);
    submit(&mut store, &[Capability::Respond], T);
    store.trusted_now(NOW + 100_000).unwrap();
    let pending = begin_sweep(&mut store, NOW).unwrap();
    assert_eq!(pending.len(), 1);
    assert_eq!(pending[0].approve_at, None);
}

#[test]
fn a_command_is_told_of_a_task_in_its_environment() {
    let ((a, b), (c, d)) = hook_environment("task-1", true);
    assert_eq!((a.as_str(), b.as_str()), ("AKSON_TASK", "task-1"));
    assert_eq!((c.as_str(), d.as_str()), ("AKSON_TASK_AUTO", "1"));
    assert_eq!(hook_environment("t", false).1 .1, "0");
}

#[test]
fn a_ping_is_answered_with_what_was_introduced() {
    let identity = peer(ROOT, "requester").identity;
    let Reply::Introduced(said) = answer_ping("dana", &identity, &IntroCommitOutcome::Committed)
    else {
        panic!("expected an introduction");
    };
    assert_eq!(said.introduced, "Committed");
    assert_eq!(said.issuer.as_deref(), Some("iss"));
    assert_eq!(said.agent, "requester");
    assert_eq!(said.root_thumbprint, ROOT);
    assert_eq!(said.label, "dana");

    let quoted = IntroCommitOutcome::Suspended("a \"b\"".to_owned());
    let Reply::Introduced(said) = answer_ping("dana", &identity, &quoted) else {
        panic!("expected an introduction");
    };
    assert_eq!(said.introduced, "Suspended(\"a \\\"b\\\"\")");
}

#[test]
fn a_task_goes_to_the_peer_that_was_introduced_for_it() {
    let spec = SendSpec {
        performer: "dana".to_owned(),
        rest: "{}".to_owned(),
    };
    let Effect::Send { spec: sent, root } = send_introduced(&spec, &peer(ROOT, "requester").identity)
    else {
        panic!("expected a send");
    };
    assert_eq!(sent.performer, "requester");
    assert_eq!(sent.rest, "{}");
    assert_eq!(root, ROOT);
}

#[test]
fn a_name_finds_a_peer_only_while_it_is_the_only_one() {
    let mut store = store();
    assert_eq!(store.sole_peer_named("requester").unwrap(), None);
    store.put_peer(&peer(ROOT, "requester")).unwrap();
    assert_eq!(
        store.sole_peer_named("requester").unwrap(),
        Some(peer(ROOT, "requester"))
    );
    store.put_peer(&peer(OWN_ROOT, "requester")).unwrap();
    assert_eq!(store.sole_peer_named("requester").unwrap(), None);
}

#[test]
fn the_line_to_hand_out_has_the_hint_of_the_interface() {
    let mut here = me(OWN_ROOT);
    assert_eq!(
        token_reply(&here).presentation,
        format!("{}@local:18443", here.token)
    );
    here.interface_url = "https://local/a2a".to_owned();
    assert_eq!(token_reply(&here).presentation, here.token);
    assert_eq!(token_reply(&here).hint, None);
}

#[test]
fn a_reopened_store_keeps_its_state() {
    let mut first = store();
    let task_id = submit(&mut first, &[Capability::Respond], T);
    let cp = ExternalCheckpoint {
        state_generation: 0,
        trusted_time: 0,
        rollback_detectable: false,
    };
    let mut again = Store::open(first.snapshot(), cp).unwrap();
    let Reply::Tasks(TaskAnswer::Inbox(tasks)) = reply(&mut again, ControlRequest::TaskInbox) else {
        panic!("expected the inbox");
    };
    assert_eq!(tasks[0].task_id, task_id);
}

#[test]
fn a_hint_is_a_host_and_its_port() {
    let hint = |url: &str| host_port_of(url);
    assert_eq!(
        hint("https://[::1]:8443/a2a").as_deref(),
        Some("[::1]:8443")
    );
    assert_eq!(hint("https://[::1]/a2a"), None);
    assert_eq!(
        hint("https://host.example:18443/a2a").as_deref(),
        Some("host.example:18443")
    );
    assert_eq!(hint("https://host.example/a2a"), None);
    assert_eq!(hint("http://host.example:1/a2a"), None);
}

#[test]
fn pairing_that_cannot_be_served_says_why() {
    assert_eq!(PairServeError::Io("x".to_owned()).message(), "io: x");
    assert_eq!(PairServeError::Tls("y".to_owned()).message(), "tls: y");
    let p = Problem::new(500, "internal", "no keys");
    assert_eq!(PairServeError::material(&p).message(), "material: no keys");
}
