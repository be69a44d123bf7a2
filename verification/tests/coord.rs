//! The coordination surface: staging, consent, dispatch, status and evidence.
use akson::control::{authorize, ControlOp, Problem, Surface};
use akson::contract::HeadState;
use akson::coord::{
    decode_cursor, encode_cursor, stage_reference, valid_id, COORD_PROTOCOL, MAX_ID_CHARS,
    MAX_STAGED_PAYLOAD_BYTES,
};
use akson::coord_card::{risk_card, RiskCard};
use akson::coord_dispatch::{
    begin_dispatch, finish_dispatch, record_carriage, DispatchReply, DispatchStep,
};
use akson::coord_egress::{
    acknowledgement, coord_dispatch_envelope, coord_dispatch_media_type, envelope, judge_carriage,
    message_body, summarize, verify, Carriage, CoordEnvelope, CoordReject, CoordRoute, PartContent,
};
use akson::coord_peers::{
    CapabilityClaim, EvidenceSchemas, Facts, FeatureReport, PeerShown, Source,
};
use akson::coord_requests::{dispatch_coord, CoordAnswer, Surroundings};
use akson::coord_stage::{
    check_stageable, Admitted, ConsentReply, EventsPage, StageReply, StageShown,
};
use akson::endpoint::Endpoint;
use akson::identity::{Fingerprint, FingerprintKind, PeerIdentity, PeerStatus, StoredPeer};
use akson::request::ControlRequest;
use akson::store::imports::IntroCommitOutcome;
use akson::store::rows::{EgressState, StageStatus};
use akson::store::staging::StagedContract;
use akson::store::{CoordEventKind, ExternalCheckpoint, Store};
use akson::tls::cert_sha256;
use base64::engine::general_purpose::{STANDARD, URL_SAFE_NO_PAD};
use base64::Engine;

const RECIPIENT: &str = "partner";
const RECIPIENT_ROOT: &str = "root-recipient-fixture";
const LOCAL_ROOT: &str = "root-sender-fixture";
const TASK_TYPE: &str = "https://byom.example/task/exchange/v1";
const WALL: i64 = 1_800_000_000;

struct World {
    store: Store,
    asked: u64,
}

fn me() -> Endpoint {
    Endpoint {
        issuer: "local".to_owned(),
        agent: "akson-local".to_owned(),
        root: LOCAL_ROOT.to_owned(),
        token: "akson1token".to_owned(),
        interface_url: "https://127.0.0.1:18443/a2a".to_owned(),
        receive_addr: None,
        fingerprint: "fp-local".to_owned(),
        data_dir: "/srv/akson".to_owned(),
    }
}

fn schemas() -> EvidenceSchemas {
    EvidenceSchemas {
        provisional: true,
        statement_type: "statement".to_owned(),
        payload_type: "payload".to_owned(),
        envelope_media_type: "envelope".to_owned(),
        schemas: vec!["one".to_owned()],
    }
}

/// A schema for these tests: printable ASCII without white space, labels, roots and
/// digests of their alphabets.
fn fits(s: &str, max: usize, allowed: fn(char) -> bool) -> bool {
    !s.is_empty() && s.len() <= max && s.chars().all(allowed)
}

fn schema_task_type(s: &str) -> bool {
    fits(s, 256, |c| c.is_ascii_graphic())
}

fn schema_label(s: &str) -> bool {
    fits(s, 64, |c| c.is_ascii_alphanumeric() || c == '-' || c == '_')
}

fn schema_root(s: &str) -> bool {
    fits(s, 128, |c| c.is_ascii_alphanumeric() || c == '-' || c == '_')
}

fn schema_digest(s: &str) -> bool {
    s.len() == 64 && fits(s, 64, |c| c.is_ascii_hexdigit())
}

fn schema_admits(e: &CoordEnvelope) -> bool {
    e.schema_version == 1
        && e.protocol == COORD_PROTOCOL
        && schema_task_type(&e.task_type)
        && schema_label(&e.recipient_label)
        && schema_root(&e.recipient_root)
        && schema_root(&e.sender_root)
        && schema_digest(&e.payload_sha256)
        && schema_digest(&e.staged_digest)
}

impl World {
    fn new() -> World {
        let cp = ExternalCheckpoint {
            state_generation: 0,
            trusted_time: 0,
            rollback_detectable: false,
        };
        let mut world = World {
            store: Store::open_in_memory([9u8; 32], cp).unwrap(),
            asked: 0,
        };
        world.pin_peer(RECIPIENT_ROOT, RECIPIENT, "https://127.0.0.1:1/a2a");
        world
    }

    fn pin_peer(&mut self, root: &str, label: &str, endpoint_id: &str) {
        self.store
            .add_peer_import(root, label, "127.0.0.1:1", 1_753_574_000)
            .unwrap();
        self.store
            .put_peer(&peer_record(root, endpoint_id, b"der-fixture"))
            .unwrap();
    }

    fn ask(&mut self, request: &ControlRequest) -> Result<CoordAnswer, Problem> {
        self.asked += 1;
        let admitted = match request {
            ControlRequest::Stage {
                task_type,
                performer,
                ..
            } => Admitted {
                task_type: schema_task_type(task_type),
                recipient_label: schema_label(performer),
            },
            _ => Admitted {
                task_type: false,
                recipient_label: false,
            },
        };
        let around = Surroundings {
            wall: WALL,
            nonce: format!("{:032x}", self.asked),
            admitted,
            report: vec![FeatureReport {
                feature: "seccomp".to_owned(),
                available: false,
                required: true,
            }],
            schemas: schemas(),
        };
        dispatch_coord(&mut self.store, &me(), request, &around, schema_admits)
    }

    fn stage(&mut self, payload: &str) -> StageReply {
        self.stage_to(payload, RECIPIENT).unwrap()
    }

    fn stage_to(&mut self, payload: &str, performer: &str) -> Result<StageReply, Problem> {
        match self.ask(&ControlRequest::Stage {
            task_type: TASK_TYPE.to_owned(),
            performer: performer.to_owned(),
            payload_base64: STANDARD.encode(payload),
        })? {
            CoordAnswer::Staged(reply) => Ok(reply),
            other => panic!("expected a staging, got {other:?}"),
        }
    }

    fn show(&mut self, stage_ref: &str) -> StageShown {
        match self
            .ask(&ControlRequest::StageShow {
                stage_ref: stage_ref.to_owned(),
            })
            .unwrap()
        {
            CoordAnswer::Shown(shown) => shown,
            other => panic!("expected a staging, got {other:?}"),
        }
    }

    fn consent(&mut self, stage_ref: &str) -> Result<ConsentReply, Problem> {
        match self.ask(&ControlRequest::StageConsent {
            stage_ref: stage_ref.to_owned(),
        })? {
            CoordAnswer::Consent(reply) => Ok(reply),
            other => panic!("expected consent, got {other:?}"),
        }
    }

    fn events(&mut self, cursor: Option<String>, limit: Option<u32>) -> EventsPage {
        match self
            .ask(&ControlRequest::EventsRead { cursor, limit })
            .unwrap()
        {
            CoordAnswer::Events(page) => page,
            other => panic!("expected events, got {other:?}"),
        }
    }

    fn consented(&mut self, payload: &str) -> (String, String) {
        let stage_ref = self.stage(payload).staged.stage_ref;
        let receipt = self.consent(&stage_ref).unwrap().receipt.receipt_id;
        (stage_ref, receipt)
    }

    /// Dispatches, and fails to connect if anything is to be carried.
    fn dispatch(&mut self, stage_ref: &str, receipt: &str, key: &str) -> Result<DispatchReply, Problem> {
        let request = ControlRequest::Dispatch {
            stage_ref: stage_ref.to_owned(),
            consent_receipt: receipt.to_owned(),
            execution_key: key.to_owned(),
        };
        match self.ask(&request)? {
            CoordAnswer::Dispatch(DispatchStep::Done(reply)) => Ok(reply),
            CoordAnswer::Dispatch(DispatchStep::Carry(order)) => {
                finish_dispatch(&mut self.store, &order, &unreachable_peer(), WALL)
            }
            other => panic!("expected a dispatch, got {other:?}"),
        }
    }
}

fn unreachable_peer() -> Result<(u16, Vec<u8>), Problem> {
    Err(Problem::new(
        502,
        "unreachable",
        "the peer endpoint refused the connection",
    ))
}

fn print_of(kind: FingerprintKind, value: &str) -> Fingerprint {
    Fingerprint {
        kind,
        value: value.to_owned(),
    }
}

fn peer_record(root: &str, endpoint_id: &str, cert_der: &[u8]) -> StoredPeer {
    StoredPeer {
        identity: PeerIdentity {
            issuer: Some("orgA".to_owned()),
            agent_id: "alice".to_owned(),
            workload_id: None,
            endpoint_id: endpoint_id.to_owned(),
            tls_cert: cert_sha256(cert_der),
            agent_card_key: print_of(FingerprintKind::Jwk7638, root),
            key_bindings: vec![],
            security_projection_digest: print_of(FingerprintKind::JsonSha256, "p"),
            full_card_digest: print_of(FingerprintKind::JsonSha256, "c"),
        },
        local_note: String::new(),
    }
}

fn rendered(card: &RiskCard) -> String {
    format!("{:?}", card.sections)
}

#[test]
fn staging_the_same_bytes_twice_yields_one_record_and_the_same_reference() {
    let mut w = World::new();
    let first = w.stage("outbound bytes");
    let second = w.stage("outbound bytes");
    assert_eq!(first.staged.stage_ref, second.staged.stage_ref);
    assert_eq!(first.staged.staged_digest, second.staged.staged_digest);
    assert_eq!(first.already_staged, false);
    assert_eq!(second.already_staged, true);
    assert_eq!(first.staged.staged_at, second.staged.staged_at);
    let other = w.stage("other bytes");
    assert_ne!(other.staged.stage_ref, first.staged.stage_ref);
    let events = w.events(None, None).events;
    assert_eq!(events.len(), 2, "two contents, two events, three calls");
}

#[test]
fn staging_is_inert_no_task_no_attempt_no_authority_no_egress() {
    let mut w = World::new();
    let stage_ref = w.stage("outbound bytes").staged.stage_ref;
    let store = &w.store;
    assert!(store.list_submitted_tasks().unwrap().is_empty());
    assert!(matches!(
        store.contract_head(&stage_ref).unwrap(),
        HeadState::Empty
    ));
    assert!(store.attempt_for_task(&stage_ref).unwrap().is_none());
    assert!(store.unconsumed_consent(&stage_ref).unwrap().is_none());
    assert_eq!(
        store
            .staged_contract(&stage_ref)
            .unwrap()
            .unwrap()
            .status
            .as_str(),
        "staged"
    );
    assert!(store.list_sent_requests().unwrap().is_empty());
    assert!(store.list_outcomes().unwrap().is_empty());
}

#[test]
fn consent_is_admin_only_and_binds_the_exact_staged_digest() {
    let mut w = World::new();
    let staged = w.stage("outbound bytes").staged;
    assert!(authorize(Surface::Coord, ControlOp::StageConsent).is_err());
    authorize(Surface::Admin, ControlOp::StageConsent).unwrap();

    let consent = w.consent(&staged.stage_ref).unwrap();
    assert_eq!(consent.receipt.staged_digest, staged.staged_digest);
    assert_eq!(consent.receipt.max_uses, 1);
    assert_eq!(consent.receipt.uses, 0);
    assert!(consent.receipt.receipt_id.starts_with("consent-"));
    let text = rendered(&consent.card);
    assert!(text.contains(&staged.payload_sha256));
    assert!(!text.contains("outbound bytes"));

    let shown = w.show(&staged.stage_ref);
    assert_eq!(shown.staged.status.as_str(), "consented");
    assert_eq!(
        shown.consent.unwrap().receipt_id,
        consent.receipt.receipt_id
    );
    let again = w.consent(&staged.stage_ref).unwrap_err();
    assert_eq!(again.status, 409);
}

#[test]
fn the_handshake_names_all_eight_ops_and_claims_no_missing_part() {
    let mut w = World::new();
    let CoordAnswer::WhoAmI(who) = w.ask(&ControlRequest::CoordWhoAmI).unwrap() else {
        panic!("expected a handshake");
    };
    assert_eq!(who.protocol, COORD_PROTOCOL);
    assert_eq!(who.protocol_version, 1);
    assert_eq!(
        who.features,
        [
            "coord_whoami",
            "peer_show",
            "stage",
            "stage_show",
            "dispatch",
            "task_status",
            "events_read",
            "capability_evidence"
        ]
    );
    assert_eq!(who.unimplemented, Vec::<String>::new());
    assert_eq!(who.partial, Vec::<String>::new());
    let text = format!("{who:?}");
    assert!(!text.contains("data_dir"));
    assert!(!text.contains("/srv/akson"));
    assert!(!text.contains("receive_addr"));
}

#[test]
fn one_receipt_dispatches_once_and_a_second_key_is_refused() {
    let mut w = World::new();
    let (stage_ref, receipt) = w.consented("outbound bytes");

    let first = w.dispatch(&stage_ref, &receipt, "exec-1").unwrap();
    assert_eq!(first.consent_receipt, receipt);
    assert_eq!(first.status.as_str(), "dispatched");
    assert_eq!(first.consent_spent, true);
    assert_eq!(first.replayed, false);
    assert!(first.dispatch_receipt.starts_with("dispatch-"));
    assert_eq!(first.egress.state, EgressState::Failed);
    assert_eq!(first.egress.retryable, true);

    let replay = w.dispatch(&stage_ref, &receipt, "exec-2").unwrap_err();
    assert_eq!(replay.status, 409);
    assert_eq!(replay.type_, "urn:akson:error:consent-spent");

    assert!(w.store.unconsumed_consent(&stage_ref).unwrap().is_none());
    assert_eq!(
        w.store
            .staged_contract(&stage_ref)
            .unwrap()
            .unwrap()
            .status
            .as_str(),
        "dispatched"
    );
    let dispatched = w
        .store
        .read_coord_events(0, 50)
        .unwrap()
        .into_iter()
        .filter(|e| e.kind == CoordEventKind::Dispatched)
        .count();
    assert_eq!(dispatched, 1, "one dispatch, one event");
}

#[test]
fn the_same_execution_key_retries_to_the_same_receipt() {
    let mut w = World::new();
    let (stage_ref, receipt) = w.consented("outbound bytes");
    let first = w.dispatch(&stage_ref, &receipt, "exec-1").unwrap();
    let again = w.dispatch(&stage_ref, &receipt, "exec-1").unwrap();
    assert_eq!(again.dispatch_receipt, first.dispatch_receipt);
    assert_eq!(again.dispatched_at, first.dispatched_at);
    assert_eq!(again.replayed, true);
    assert_eq!(first.replayed, false);
}

#[test]
fn dispatch_without_a_live_consent_receipt_is_refused_and_stages_stay_inert() {
    let mut w = World::new();
    let stage_ref = w.stage("outbound bytes").staged.stage_ref;

    let refused = w
        .dispatch(&stage_ref, "consent-invented", "k1")
        .unwrap_err();
    assert_eq!(refused.status, 409);
    assert_eq!(refused.type_, "urn:akson:error:consent-required");

    assert!(authorize(Surface::Coord, ControlOp::StageConsent).is_err());

    for bad in ["stage-nope", "not a ref", ""] {
        let problem = w.dispatch(bad, "consent-x", "k2").unwrap_err();
        assert_eq!(problem.status, 404, "{bad:?}");
    }
    let long = "k".repeat(MAX_ID_CHARS + 1);
    let problem = w.dispatch(&stage_ref, "consent-x", &long).unwrap_err();
    assert_eq!(problem.status, 400);

    assert_eq!(
        w.store
            .staged_contract(&stage_ref)
            .unwrap()
            .unwrap()
            .status
            .as_str(),
        "staged"
    );
    assert!(w.store.coord_dispatch(&stage_ref).unwrap().is_none());
}

#[test]
fn an_unroutable_stage_is_refused_before_the_receipt_is_spent() {
    let mut w = World::new();
    let stage_ref = w.stage_to("outbound bytes", "").unwrap().staged.stage_ref;
    let receipt = w.consent(&stage_ref).unwrap().receipt.receipt_id;

    let refused = w.dispatch(&stage_ref, &receipt, "exec-1").unwrap_err();
    assert_eq!(refused.status, 409);
    assert_eq!(refused.type_, "urn:akson:error:unroutable-recipient");

    assert!(
        w.store.unconsumed_consent(&stage_ref).unwrap().is_some(),
        "the receipt must still be live"
    );
    assert!(w.store.coord_dispatch(&stage_ref).unwrap().is_none());
    assert_eq!(
        w.store
            .staged_contract(&stage_ref)
            .unwrap()
            .unwrap()
            .status
            .as_str(),
        "consented"
    );
}

#[test]
fn a_task_type_the_envelope_cannot_carry_never_reaches_a_consent_receipt() {
    let mut w = World::new();
    for refused in [
        "https://byom.example/tâsk/v1",
        "https://byom.example/t\u{200b}ask/v1",
        "https://byom.example/tasк/v1",
    ] {
        let problem = w
            .ask(&ControlRequest::Stage {
                task_type: refused.to_owned(),
                performer: RECIPIENT.to_owned(),
                payload_base64: STANDARD.encode("outbound bytes"),
            })
            .unwrap_err();
        assert_eq!(problem.status, 400, "{refused:?}");
        assert_eq!(
            problem.type_, "urn:akson:error:bad-task-type",
            "{refused:?}"
        );
    }
    assert!(w.store.read_coord_events(0, 50).unwrap().is_empty());
}

#[test]
fn a_dispatch_whose_envelope_cannot_be_built_does_not_spend_the_receipt() {
    let mut w = World::new();
    w.pin_peer("not/a/root", "elsewhere", "https://127.0.0.1:1/a2a");
    let stage_ref = w
        .stage_to("outbound bytes", "elsewhere")
        .unwrap()
        .staged
        .stage_ref;
    let receipt = w.consent(&stage_ref).unwrap().receipt.receipt_id;

    let problem = w.dispatch(&stage_ref, &receipt, "exec-1").unwrap_err();
    assert_eq!(problem.type_, "urn:akson:error:bad-envelope");

    assert!(
        w.store.unconsumed_consent(&stage_ref).unwrap().is_some(),
        "an unsendable envelope must not burn the operator's receipt"
    );
    assert!(w.store.coord_dispatch(&stage_ref).unwrap().is_none());
    assert_eq!(
        w.store
            .staged_contract(&stage_ref)
            .unwrap()
            .unwrap()
            .status
            .as_str(),
        "consented"
    );
}

#[test]
fn a_suspended_recipient_is_unroutable_and_the_receipt_survives() {
    let mut w = World::new();
    let (stage_ref, receipt) = w.consented("outbound bytes");
    let epoch = w
        .store
        .peer_import_by_label(RECIPIENT)
        .unwrap()
        .unwrap()
        .epoch;
    let outcome = w
        .store
        .commit_introduced_peer(
            RECIPIENT_ROOT,
            epoch,
            &peer_record(RECIPIENT_ROOT, "https://127.0.0.1:1/a2a", b"rotated-der"),
            &vec![],
            1_753_574_100,
        )
        .unwrap();
    assert!(
        matches!(outcome, IntroCommitOutcome::Suspended(_)),
        "{outcome:?}"
    );
    assert_ne!(
        w.store.peer_status_by_root(RECIPIENT_ROOT).unwrap(),
        Some(PeerStatus::Active)
    );
    let refused = w.dispatch(&stage_ref, &receipt, "exec-1").unwrap_err();
    assert_eq!(refused.status, 409);
    assert_eq!(refused.type_, "urn:akson:error:unroutable-recipient");

    assert!(w.store.unconsumed_consent(&stage_ref).unwrap().is_some());
    assert!(w.store.coord_dispatch(&stage_ref).unwrap().is_none());
}

#[test]
fn a_recipient_with_no_usable_https_endpoint_is_unroutable() {
    let mut w = World::new();
    w.pin_peer("root-no-endpoint", "nowhere", "ep-alice-1");
    let stage_ref = w
        .stage_to("outbound bytes", "nowhere")
        .unwrap()
        .staged
        .stage_ref;
    let receipt = w.consent(&stage_ref).unwrap().receipt.receipt_id;

    let refused = w.dispatch(&stage_ref, &receipt, "exec-1").unwrap_err();
    assert_eq!(refused.status, 409);
    assert_eq!(refused.type_, "urn:akson:error:unroutable-recipient");
    assert!(w.store.unconsumed_consent(&stage_ref).unwrap().is_some());
    assert!(w.store.coord_dispatch(&stage_ref).unwrap().is_none());
}

#[test]
fn a_dispatched_staging_cannot_be_consented_again() {
    let mut w = World::new();
    let (stage_ref, receipt) = w.consented("outbound bytes");
    let dispatched = w.dispatch(&stage_ref, &receipt, "exec-1").unwrap();

    let refused = w.consent(&stage_ref).unwrap_err();
    assert_eq!(refused.status, 409);
    assert_eq!(refused.type_, "urn:akson:error:already-dispatched");
    let detail = refused.detail.unwrap_or_default();
    assert!(detail.contains("exec-1"), "{detail}");
    assert!(detail.contains("carriage failed"), "{detail}");
    assert_eq!(dispatched.execution_key, "exec-1");

    assert!(w.store.unconsumed_consent(&stage_ref).unwrap().is_none());
    let consents = w
        .store
        .read_coord_events(0, 200)
        .unwrap()
        .into_iter()
        .filter(|e| e.kind == CoordEventKind::ConsentRecorded)
        .count();
    assert_eq!(consents, 1, "one staging, one consent");
}

#[test]
fn the_risk_card_reads_the_dispatch_ledger() {
    let mut w = World::new();
    let (stage_ref, receipt) = w.consented("outbound bytes");
    let staged = w.store.staged_contract(&stage_ref).unwrap().unwrap();

    let text = rendered(&risk_card(&w.store, &staged, None));
    assert!(text.contains("staging was inert"), "{text}");

    w.dispatch(&stage_ref, &receipt, "exec-1").unwrap();
    let record = w.store.coord_dispatch(&stage_ref).unwrap().unwrap();
    let text = rendered(&risk_card(&w.store, &staged, Some(&record)));
    assert!(
        !text.contains("staging was inert"),
        "the card must not claim inertness after a dispatch: {text}"
    );
    assert!(text.contains("ALREADY DISPATCHED"), "{text}");
    assert!(text.contains(&record.dispatch_receipt), "{text}");

    let mut sent = record;
    sent.egress_state = EgressState::Sent;
    let text = rendered(&risk_card(&w.store, &staged, Some(&sent)));
    assert!(text.contains("ALREADY DISCLOSED"), "{text}");
}

#[test]
fn a_receipt_does_not_travel_between_staged_digests() {
    let mut w = World::new();
    let (_, receipt) = w.consented("first bytes");
    let other_ref = w.stage("second bytes").staged.stage_ref;

    let refused = w.dispatch(&other_ref, &receipt, "exec-1").unwrap_err();
    assert_eq!(refused.status, 409);
    assert_eq!(refused.type_, "urn:akson:error:consent-required");
    assert_eq!(
        w.store
            .staged_contract(&other_ref)
            .unwrap()
            .unwrap()
            .status
            .as_str(),
        "staged"
    );
}

#[test]
fn task_status_reports_a_dispatch_this_surface_committed() {
    let mut w = World::new();
    let (stage_ref, receipt) = w.consented("outbound bytes");
    let dispatched = w.dispatch(&stage_ref, &receipt, "exec-1").unwrap();
    let dispatch_receipt = dispatched.dispatch_receipt.clone();

    for id in [dispatch_receipt.as_str(), stage_ref.as_str()] {
        let CoordAnswer::Status(status) = w
            .ask(&ControlRequest::TaskStatus {
                task_id: id.to_owned(),
            })
            .unwrap()
        else {
            panic!("expected a status");
        };
        assert_eq!(status.task_id, id);
        assert_eq!(status.stage_ref, stage_ref);
        assert_eq!(status.staged_digest, dispatched.staged_digest);
        assert_eq!(status.consent_receipt, receipt);
        assert_eq!(status.execution_key, "exec-1");
        assert_eq!(status.status.as_str(), "dispatched");
        assert_eq!(status.egress.state, EgressState::Failed);
        assert_eq!(status.verification.acknowledged, false);
        assert_eq!(status.verification.result_manifest_digest, None);
        assert_eq!(status.verification.outcome_state, None);
    }
}

fn evidence(w: &mut World, label: &str) -> Result<CapabilityClaim, Problem> {
    match w.ask(&ControlRequest::CapabilityEvidence {
        label: label.to_owned(),
    })? {
        CoordAnswer::Evidence(claim) => Ok(claim),
        other => panic!("expected evidence, got {other:?}"),
    }
}

#[test]
fn capability_evidence_names_every_dimension_and_its_source() {
    let mut w = World::new();
    w.store
        .add_peer_import("root-thumb-fixture", "other", "127.0.0.1:18444", 1000)
        .unwrap();
    let claim = evidence(&mut w, "other").unwrap();
    assert_eq!(claim.label, "other");
    assert_eq!(claim.root_thumbprint, "root-thumb-fixture");
    let dims = &claim.predicate.dimensions;
    let names: Vec<&str> = dims.iter().map(|d| d.dimension.as_str()).collect();
    assert_eq!(
        names,
        vec![
            "peer_identity",
            "card_claims",
            "key_expiry",
            "rollback_detection",
            "confinement",
            "budget",
            "evidence_schemas"
        ]
    );
    for d in dims {
        assert!(matches!(
            d.source,
            Source::LocallyObserved | Source::PeerAsserted
        ));
        assert!(!d.state.is_empty());
    }
    assert_eq!(dims[0].state, "unverified");
    assert_eq!(dims[1].state, "absent");
    assert_eq!(dims[2].state, "not_retained");
    assert!(matches!(&dims[4].facts, Facts::Confinement(f)
        if !f.sandbox_ready && f.unavailable_required == vec!["seccomp".to_owned()]));

    for label in ["nobody", "NOT a label"] {
        let problem = evidence(&mut w, label).unwrap_err();
        assert_eq!(problem.status, 404, "{label:?}");
        assert_eq!(problem.type_, "urn:akson:error:unknown-peer");
    }
}

#[test]
fn capability_evidence_never_carries_the_operators_private_note() {
    let mut w = World::new();
    w.store
        .add_peer_import("root-note-fixture", "other", "127.0.0.1:18444", 1000)
        .unwrap();
    let mut peer = peer_record("root-note-fixture", "ep-alice-1", b"der-fixture");
    peer.local_note = "OPERATOR PRIVATE NOTE".to_owned();
    w.store.put_peer(&peer).unwrap();
    let claim = evidence(&mut w, "other").unwrap();
    assert!(!format!("{claim:?}").contains("OPERATOR PRIVATE NOTE"));
    assert!(!format!("{:?}", claim.predicate).contains("OPERATOR PRIVATE NOTE"));
    assert_eq!(claim.predicate.dimensions[0].state, "verified");
    assert_eq!(claim.predicate.dimensions[1].state, "pinned");
}

fn shown(w: &mut World, label: &str) -> Result<PeerShown, Problem> {
    match w.ask(&ControlRequest::PeerShow {
        label: label.to_owned(),
    })? {
        CoordAnswer::Peer(peer) => Ok(peer),
        other => panic!("expected a peer, got {other:?}"),
    }
}

#[test]
fn peer_show_answers_only_about_the_label_it_was_given() {
    let mut w = World::new();
    let problem = shown(&mut w, "nobody").unwrap_err();
    assert_eq!(problem.status, 404);
    let malformed = shown(&mut w, "NOT a label").unwrap_err();
    assert_eq!(malformed, problem);

    w.store
        .add_peer_import("root-thumb-fixture", "other", "127.0.0.1:18444", 1000)
        .unwrap();
    let peer = shown(&mut w, "other").unwrap();
    assert_eq!(peer.verified, false);
    assert_eq!(peer.status, "imported");
    assert!(peer.details.is_none());
}

#[test]
fn staging_refuses_a_label_that_names_no_import_and_oversized_bytes() {
    let mut w = World::new();
    let unknown = w.stage_to("bytes", "nobody").unwrap_err();
    assert_eq!(unknown.status, 404);

    let big = w
        .ask(&ControlRequest::Stage {
            task_type: TASK_TYPE.to_owned(),
            performer: String::new(),
            payload_base64: STANDARD.encode(vec![b'x'; MAX_STAGED_PAYLOAD_BYTES + 1]),
        })
        .unwrap_err();
    assert_eq!(big.status, 413);

    let bad_type = w
        .ask(&ControlRequest::Stage {
            task_type: "has a space".to_owned(),
            performer: String::new(),
            payload_base64: STANDARD.encode("bytes"),
        })
        .unwrap_err();
    assert_eq!(bad_type.status, 400);
}

#[test]
fn cursors_are_opaque_and_only_ever_come_from_a_reply() {
    assert_eq!(decode_cursor(&encode_cursor(0)).unwrap(), 0);
    assert_eq!(decode_cursor(&encode_cursor(4242)).unwrap(), 4242);
    for bogus in [
        "",
        "0",
        "4242",
        "!!!",
        &URL_SAFE_NO_PAD.encode("other-feed:1"),
    ] {
        assert!(decode_cursor(bogus).is_err(), "{bogus:?} must be refused");
    }
}

#[test]
fn the_event_feed_resumes_from_a_cursor_without_re_delivering() {
    let mut w = World::new();
    for i in 0..3 {
        w.stage(&format!("bytes {i}"));
    }
    let first = w.events(None, Some(2));
    assert_eq!(first.events.len(), 2);
    assert_eq!(first.has_more, true);
    let rest = w.events(Some(first.next_cursor), None);
    assert_eq!(rest.events.len(), 1);
    assert_eq!(rest.has_more, false);
    let tail = w.events(Some(rest.next_cursor), None);
    assert!(tail.events.is_empty());
}

fn staged_fixture() -> StagedContract {
    let payload = b"outbound bytes";
    let (stage_ref, staged_digest, payload_sha256) =
        stage_reference(payload, "partner", "https://byom.example/task/exchange/v1").unwrap();
    StagedContract {
        stage_ref,
        staged_digest,
        task_type: "https://byom.example/task/exchange/v1".to_owned(),
        performer: "partner".to_owned(),
        payload_sha256,
        byte_length: payload.len(),
        status: StageStatus::Consented,
        staged_at: 1_800_000_000,
    }
}

fn route() -> CoordRoute {
    CoordRoute {
        label: "partner".to_owned(),
        root: "root-recipient-fixture".to_owned(),
        endpoint: "https://127.0.0.1:18444/a2a".to_owned(),
        tls_fingerprint: "fp-recipient".to_owned(),
    }
}

fn built() -> CoordEnvelope {
    envelope(
        &staged_fixture(),
        &route(),
        "root-sender-fixture",
        "consent-abc",
        schema_admits,
    )
    .unwrap()
}

#[test]
fn a_built_envelope_verifies_at_the_receiver() {
    let staged = staged_fixture();
    let env = built();
    let msg = message_body(&env, b"outbound bytes", "dispatch-1", &staged.stage_ref);
    let parsed = coord_dispatch_envelope(&msg.parts).unwrap();
    let received = verify(
        parsed,
        &msg.parts,
        "root-sender-fixture",
        "root-recipient-fixture",
    )
    .unwrap();
    assert_eq!(received.staged_digest, staged.staged_digest);
    assert_eq!(received.payload_sha256, staged.payload_sha256);
    assert_eq!(received.consent_receipt, "consent-abc");
    assert_eq!(received.byte_length, "outbound bytes".len());
    assert_eq!(msg.message_id, "dispatch-1");
}

#[test]
fn the_envelope_has_no_contract_terms() {
    let text = format!("{:?}", built());
    for member in [
        "consent_receipt",
        "payload_sha256",
        "protocol",
        "recipient_label",
        "recipient_root",
        "schema_version",
        "sender_root",
        "staged_digest",
        "task_type",
    ] {
        assert!(text.contains(&format!("{member}: ")));
    }
    assert_eq!(text.matches(": ").count(), 9);
    for invented in [
        "objective",
        "deliverables",
        "deadline",
        "limits",
        "requested_capabilities",
        "contract_id",
    ] {
        assert!(
            !text.contains(invented),
            "{invented} is a contract term the operator never consented to"
        );
    }
}

#[test]
fn every_fault_of_a_dispatch_is_refused() {
    let staged = staged_fixture();
    let check = |env: Option<CoordEnvelope>, payload: &[u8], sender: &str, local: &str| {
        let msg = message_body(&built(), payload, "dispatch-1", &staged.stage_ref);
        verify(&env, &msg.parts, sender, local)
    };
    let (s, r) = ("root-sender-fixture", "root-recipient-fixture");
    assert!(check(Some(built()), b"outbound bytes", s, r).is_ok());
    assert_eq!(
        check(None, b"outbound bytes", s, r),
        Err(CoordReject::Malformed)
    );
    assert_eq!(
        check(Some(built()), b"outbound bytes", "other", r),
        Err(CoordReject::SenderMismatch)
    );
    assert_eq!(
        check(Some(built()), b"outbound bytes", s, "other"),
        Err(CoordReject::NotTheRecipient)
    );
    assert_eq!(
        check(Some(built()), b"tampered bytes", s, r),
        Err(CoordReject::PayloadDigest)
    );
    let mut other_label = built();
    other_label.recipient_label = "someone".to_owned();
    assert_eq!(
        check(Some(other_label), b"outbound bytes", s, r),
        Err(CoordReject::StagedDigest)
    );
    for reject in [
        CoordReject::Malformed,
        CoordReject::SenderMismatch,
        CoordReject::NotTheRecipient,
        CoordReject::PayloadDigest,
        CoordReject::StagedDigest,
    ] {
        assert!(!reject.reason().is_empty());
    }
}

#[test]
fn an_acknowledgement_names_what_was_received() {
    let staged = staged_fixture();
    let msg = message_body(&built(), b"outbound bytes", "dispatch-1", &staged.stage_ref);
    let received = verify(
        &Some(built()),
        &msg.parts,
        "root-sender-fixture",
        "root-recipient-fixture",
    )
    .unwrap();
    let ack = acknowledgement(&received, "root-recipient-fixture", 77);
    assert_eq!(ack.staged_digest, staged.staged_digest);
    assert_eq!(ack.recipient_root, "root-recipient-fixture");
    assert_eq!(ack.protocol, COORD_PROTOCOL);
    assert_eq!(ack.received_at, 77);
}

#[test]
fn a_message_carries_the_envelope_and_the_bytes() {
    let msg = message_body(&built(), b"outbound bytes", "dispatch-1", "stage-1");
    assert_eq!(msg.context_id, "stage-1");
    assert!(msg
        .parts
        .iter()
        .any(|p| matches!(&p.content, PartContent::Data(Some(e)) if *e == built())));
    assert!(msg
        .parts
        .iter()
        .any(|p| p.content == PartContent::Raw(b"outbound bytes".to_vec())));
}

#[test]
fn an_answer_counts_only_if_it_names_the_staged_digest() {
    let body = |digest: &str| {
        format!("{{\"coordination\":\"received\",\"staged_digest\":\"{digest}\"}}").into_bytes()
    };
    assert!(matches!(
        judge_carriage(&Ok((200, body("d1"))), "root", "d1"),
        Carriage::Acknowledged { .. }
    ));
    assert!(matches!(
        judge_carriage(&Ok((200, body("d2"))), "root", "d1"),
        Carriage::Failed { .. }
    ));
    assert!(matches!(
        judge_carriage(&Ok((200, b"not json".to_vec())), "root", "d1"),
        Carriage::Failed { .. }
    ));
    assert!(matches!(
        judge_carriage(&Ok((500, body("d1"))), "root", "d1"),
        Carriage::Failed { .. }
    ));
    assert!(matches!(
        judge_carriage(&unreachable_peer(), "root", "d1"),
        Carriage::Failed { .. }
    ));
}

#[test]
fn an_acknowledged_carriage_stands() {
    let mut w = World::new();
    let (stage_ref, receipt) = w.consented("outbound bytes");
    let step = begin_dispatch(
        &mut w.store,
        LOCAL_ROOT,
        &stage_ref,
        &receipt,
        "exec-1",
        &"0".repeat(32),
        WALL,
        schema_admits,
    )
    .unwrap();
    let DispatchStep::Carry(order) = step else {
        panic!("expected carriage");
    };
    let answer = Ok((
        200,
        format!("{{\"staged_digest\":\"{}\"}}", order.staged.staged_digest).into_bytes(),
    ));
    let reply = finish_dispatch(&mut w.store, &order, &answer, WALL).unwrap();
    assert_eq!(reply.egress.state, EgressState::Sent);
    assert_eq!(reply.egress.retryable, false);
    let later = record_carriage(
        &mut w.store,
        &order,
        Carriage::Failed {
            detail: "late".to_owned(),
        },
        WALL,
    )
    .unwrap();
    assert_eq!(later.egress.state, EgressState::Sent);
    let again = w.dispatch(&stage_ref, &receipt, "exec-1").unwrap();
    assert_eq!(again.egress.state, EgressState::Sent);
    assert_eq!(again.replayed, true);
}

#[test]
fn a_rolled_back_clock_stages_nothing() {
    let mut w = World::new();
    w.store.trusted_now(WALL + 100_000).unwrap();
    let before = w.store.snapshot();
    let refused = w.stage_to("outbound bytes", RECIPIENT).unwrap_err();
    assert_eq!(refused.status, 503);
    assert_eq!(w.store.snapshot(), before);
}

#[test]
fn references_follow_from_the_content() {
    let (r1, d1, p1) = stage_reference(b"hello", "partner", "t").unwrap();
    let (r2, d2, p2) = stage_reference(b"hello", "other", "t").unwrap();
    assert_eq!(
        p1,
        "2cf24dba5fb0a30e26e83b2ac5b9e29e1b161e5c1fa7425e73043362938b9824"
    );
    assert_eq!(p1, p2);
    assert_ne!(d1, d2);
    assert_ne!(r1, r2);
    assert!(r1.starts_with("stage-"));
    assert_eq!(stage_reference(b"hello", "partner", "t").unwrap(), (r1, d1, p1));
}

#[test]
fn the_schema_decides_what_an_envelope_may_hold() {
    let refused = envelope(
        &staged_fixture(),
        &route(),
        "root-sender-fixture",
        "consent-abc",
        |_: &CoordEnvelope| false,
    )
    .unwrap_err();
    assert_eq!(refused.type_, "urn:akson:error:bad-envelope");
    assert_eq!(refused.status, 500);
    let seen = envelope(
        &staged_fixture(),
        &route(),
        "root-sender-fixture",
        "consent-abc",
        |e: &CoordEnvelope| e.recipient_root == "root-recipient-fixture",
    );
    assert_eq!(seen.unwrap(), built());
    assert!(valid_id("exec-1"));
    assert!(!valid_id(""));
}

#[test]
fn what_the_schema_refuses_is_not_staged() {
    let ask = |task_type: bool, recipient_label: bool, performer: &str| {
        check_stageable(
            performer,
            Some(b"bytes".to_vec()),
            Admitted {
                task_type,
                recipient_label,
            },
        )
    };
    assert_eq!(ask(true, true, "partner").unwrap(), b"bytes".to_vec());
    assert_eq!(ask(true, false, "").unwrap(), b"bytes".to_vec());
    assert_eq!(
        ask(false, true, "partner").unwrap_err().type_,
        "urn:akson:error:bad-task-type"
    );
    assert_eq!(ask(true, false, "partner").unwrap_err().status, 404);
    assert_eq!(ask(true, true, "-partner").unwrap_err().status, 404);
}

#[test]
fn a_receipt_says_what_it_can_be_spent_on() {
    let mut w = World::new();
    let staged = w.stage("outbound bytes").staged;
    let receipt = w.consent(&staged.stage_ref).unwrap().receipt;
    assert_eq!(receipt.purpose, "coord.dispatch");
    assert_eq!(receipt.payload_sha256, staged.payload_sha256);
    assert_eq!(receipt.staged_digest, staged.staged_digest);
    assert_eq!((receipt.max_uses, receipt.uses), (1, 0));
    let snapshot = w.store.snapshot();
    assert_eq!(snapshot.receipts[0].1.purpose, "coord.dispatch");
    assert_eq!(snapshot.receipts[0].1.payload_sha256, staged.payload_sha256);
}

#[test]
fn a_hand_built_cursor_is_refused() {
    for text in [
        "akson-coord-events-v1:+5",
        "akson-coord-events-v1:007",
        "akson-coord-events-v1:-1",
        "akson-coord-events-v1:",
        "akson-coord-events-v2:5",
    ] {
        assert!(decode_cursor(&URL_SAFE_NO_PAD.encode(text)).is_err(), "{text}");
    }
    assert_eq!(
        decode_cursor(&URL_SAFE_NO_PAD.encode("akson-coord-events-v1:5")).unwrap(),
        5
    );
}

#[test]
fn one_receipt_spends_once_whatever_is_tried() {
    let mut w = World::new();
    let (stage_ref, receipt) = w.consented("outbound bytes");
    let first = w.dispatch(&stage_ref, &receipt, "exec-1").unwrap();
    let again = w.dispatch(&stage_ref, &receipt, "exec-1").unwrap();
    assert_eq!(again.dispatch_receipt, first.dispatch_receipt);
    assert_eq!(again.replayed, true);
    let other = w.dispatch(&stage_ref, &receipt, "exec-2").unwrap_err();
    assert_eq!(other.type_, "urn:akson:error:consent-spent");
    assert!(w.consent(&stage_ref).is_err());
    let told = w
        .events(None, None)
        .events
        .iter()
        .filter(|e| e.event.kind == CoordEventKind::Dispatched)
        .count();
    assert_eq!(told, 1);
}

#[test]
fn long_texts_are_cut() {
    assert_eq!(summarize("abc", 5), "abc");
    assert_eq!(summarize(&"x".repeat(500), 10), "x".repeat(10));
    assert_eq!(summarize("a\u{1b}[31mb\n", 10), "a[31mb");
}

#[test]
fn the_envelope_has_a_media_type_of_its_own() {
    assert_eq!(
        coord_dispatch_media_type(),
        "application/vnd.akson-dev.coord-dispatch.v1+json"
    );
}

#[test]
fn events_tell_what_was_staged_and_where_it_went() {
    let mut w = World::new();
    let (stage_ref, receipt) = w.consented("bytes");
    w.dispatch(&stage_ref, &receipt, "key-1").unwrap();
    let page = w.events(None, None);
    let kinds: Vec<CoordEventKind> = page.events.iter().map(|e| e.event.kind).collect();
    assert_eq!(
        kinds,
        vec![
            CoordEventKind::Staged,
            CoordEventKind::ConsentRecorded,
            CoordEventKind::Dispatched,
            CoordEventKind::EgressRecorded,
        ]
    );
    let staged = page.events[0].event.content.as_ref().unwrap();
    assert_eq!(staged.payload_sha256, cert_sha256(b"bytes").value);
    assert_eq!(staged.task_type, TASK_TYPE);
    assert_eq!(staged.performer, RECIPIENT);
    assert_eq!(staged.byte_length, 5);
    assert_eq!(page.events[1].event.max_uses, Some(1));
    assert_eq!(page.events[1].event.consent_receipt.as_deref(), Some(receipt.as_str()));
    let dispatched = &page.events[2].event;
    assert_eq!(dispatched.recipient_root.as_deref(), Some(RECIPIENT_ROOT));
    assert_eq!(dispatched.content.as_ref(), Some(staged));
    let egress = &page.events[3].event;
    assert_eq!(egress.recipient_root.as_deref(), Some(RECIPIENT_ROOT));
    assert_eq!(egress.egress_state, Some(EgressState::Failed));
    assert!(egress.remark.is_some());
}

#[test]
fn the_feed_tells_of_each_dispatch_once() {
    let mut w = World::new();
    let (a, ra) = w.consented("first bytes");
    let (b, rb) = w.consented("second bytes");
    w.dispatch(&a, &ra, "exec-1").unwrap();
    w.dispatch(&b, &rb, "exec-2").unwrap();
    w.dispatch(&a, &ra, "exec-1").unwrap();
    w.dispatch(&b, &rb, "exec-3").unwrap_err();
    let good = w.store.snapshot();
    let told: Vec<_> = good
        .events
        .iter()
        .filter(|e| e.kind == CoordEventKind::Dispatched)
        .map(|e| e.consent_receipt.clone().unwrap())
        .collect();
    assert_eq!(told, vec![ra, rb]);

    let checkpoint = ExternalCheckpoint {
        state_generation: good.state_generation,
        trusted_time: 0,
        rollback_detectable: true,
    };
    assert!(Store::open(good.clone(), checkpoint).is_ok());
    let at = good
        .events
        .iter()
        .position(|e| e.kind == CoordEventKind::Dispatched)
        .unwrap();

    // A second telling of the same dispatch.
    let mut twice = good.clone();
    let mut again = twice.events[at].clone();
    again.seq = twice.events.last().unwrap().seq + 1;
    twice.events.push(again);
    assert!(Store::open(twice, checkpoint).is_err());

    // A dispatch that is not told of.
    let mut untold = good.clone();
    untold.events.remove(at);
    assert!(Store::open(untold, checkpoint).is_err());

    // A telling of a dispatch that is not there.
    let mut made_up = good.clone();
    made_up.events[at].execution_key = Some("exec-9".to_owned());
    assert!(Store::open(made_up, checkpoint).is_err());
}
