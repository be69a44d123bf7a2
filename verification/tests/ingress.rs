//! The gates that a request passes.
use akson::delivery::content_digest;
use akson::coord::stage_reference;
use akson::coord_egress::{message_body, Acknowledgement, CoordEnvelope, Part};
use akson::identity::{Fingerprint, FingerprintKind, PeerIdentity, PeerStatus, StoredPeer};
use akson::ingress::{admit_request, Admit, Ingress, Reject};
use akson::receive_coord::{resolve_sender, take_dispatch};
use akson::receive_http::{HttpResponse, ResponseBody};
use akson::store::{ExternalCheckpoint, Store};

const BODY: &[u8] = br#"{"messageId":"m1"}"#;

fn store() -> Store {
    let cp = ExternalCheckpoint {
        state_generation: 0,
        trusted_time: 0,
        rollback_detectable: true,
    };
    Store::open_in_memory([4u8; 32], cp).unwrap()
}

fn ingress<'a>(digest: &'a str, exts: &'a [String]) -> Ingress<'a> {
    Ingress {
        peer: "agent-b",
        method: "POST",
        content_type: "application/a2a+json",
        a2a_version: Some("1.0"),
        content_digest: Some(digest),
        activated_extensions: exts,
        interface_url: "https://agent.example/a2a",
        tenant: None,
        message_id: "m1",
        body: BODY,
    }
}

#[test]
fn accepts_a_well_formed_fresh_request() {
    let digest = content_digest(BODY);
    let out = admit_request(&store(), &[], &ingress(&digest, &[])).unwrap();
    assert!(matches!(out, Admit::Accept(_)));
}

#[test]
fn rejects_wrong_media_type() {
    let digest = content_digest(BODY);
    let mut req = ingress(&digest, &[]);
    req.content_type = "application/json";
    assert!(matches!(
        admit_request(&store(), &[], &req).unwrap(),
        Admit::Rejected(Reject::UnsupportedMediaType)
    ));
}

#[test]
fn accepts_media_type_with_charset_param() {
    let digest = content_digest(BODY);
    let mut req = ingress(&digest, &[]);
    req.content_type = "application/a2a+json; charset=utf-8";
    assert!(matches!(
        admit_request(&store(), &[], &req).unwrap(),
        Admit::Accept(_)
    ));
}

#[test]
fn rejects_bad_a2a_version() {
    let digest = content_digest(BODY);
    let mut req = ingress(&digest, &[]);
    req.a2a_version = Some("0.3");
    assert!(matches!(
        admit_request(&store(), &[], &req).unwrap(),
        Admit::Rejected(Reject::BadA2aVersion(_))
    ));
}

#[test]
fn rejects_mismatched_content_digest() {
    let wrong = content_digest(b"different body");
    assert!(matches!(
        admit_request(&store(), &[], &ingress(&wrong, &[])).unwrap(),
        Admit::Rejected(Reject::ContentDigest(_))
    ));
}

#[test]
fn rejects_missing_required_extension() {
    let digest = content_digest(BODY);
    let required = vec!["https://akson.cc/ext/contract/v1".to_owned()];
    assert!(matches!(
        admit_request(&store(), &required, &ingress(&digest, &[])).unwrap(),
        Admit::Rejected(Reject::MissingRequiredExtensions(_))
    ));
}

#[test]
fn duplicate_and_conflict_after_commit() {
    let mut store = store();
    let digest = content_digest(BODY);
    let covered = match admit_request(&store, &[], &ingress(&digest, &[])).unwrap() {
        Admit::Accept(c) => c,
        other => panic!("expected accept, got {other:?}"),
    };
    store
        .receive_request(&covered, BODY, b"RESPONSE", Some("task-1"), "task", 100)
        .unwrap();

    match admit_request(&store, &[], &ingress(&digest, &[])).unwrap() {
        Admit::Duplicate { task_id, response } => {
            assert_eq!(task_id.as_deref(), Some("task-1"));
            assert_eq!(response, b"RESPONSE");
        }
        other => panic!("expected duplicate, got {other:?}"),
    }

    let other_body: &[u8] = br#"{"messageId":"m1","x":1}"#;
    let other_digest = content_digest(other_body);
    let mut req = ingress(&other_digest, &[]);
    req.body = other_body;
    assert!(matches!(
        admit_request(&store, &[], &req).unwrap(),
        Admit::Conflict
    ));
}

#[test]
fn the_refusal_names_what_is_missing() {
    let digest = content_digest(BODY);
    let required = vec!["urn:a".to_owned(), "urn:b".to_owned()];
    let active = vec!["urn:b".to_owned()];
    match admit_request(&store(), &required, &ingress(&digest, &active)).unwrap() {
        Admit::Rejected(Reject::MissingRequiredExtensions(missing)) => {
            assert_eq!(missing, vec!["urn:a".to_owned()])
        }
        other => panic!("expected a refusal, got {other:?}"),
    }
    let mut req = ingress(&digest, &active);
    req.a2a_version = None;
    match admit_request(&store(), &required, &req).unwrap() {
        Admit::Rejected(Reject::BadA2aVersion(v)) => assert_eq!(v, ""),
        other => panic!("expected a refusal, got {other:?}"),
    }
}

#[test]
fn the_order_of_extensions_is_no_part_of_a_request() {
    let digest = content_digest(BODY);
    let one = vec!["urn:a".to_owned(), "urn:b".to_owned()];
    let two = vec!["urn:b".to_owned(), "urn:a".to_owned(), "urn:a".to_owned()];
    let mut store = store();
    let covered = match admit_request(&store, &[], &ingress(&digest, &one)).unwrap() {
        Admit::Accept(c) => c,
        other => panic!("expected accept, got {other:?}"),
    };
    store
        .receive_request(&covered, BODY, b"R", None, "task", 1)
        .unwrap();
    assert!(matches!(
        admit_request(&store, &[], &ingress(&digest, &two)).unwrap(),
        Admit::Duplicate { .. }
    ));
}

fn print_of(kind: FingerprintKind, value: &str) -> Fingerprint {
    Fingerprint {
        kind,
        value: value.to_owned(),
    }
}

fn pin(store: &mut Store, root: &str, label: &str, tls: &str) {
    store.add_peer_import(root, label, "", 1).unwrap();
    store
        .put_peer(&StoredPeer {
            identity: PeerIdentity {
                issuer: None,
                agent_id: label.to_owned(),
                workload_id: None,
                endpoint_id: format!("https://{label}.example/a2a"),
                tls_cert: print_of(FingerprintKind::CertSha256, tls),
                agent_card_key: print_of(FingerprintKind::Jwk7638, root),
                key_bindings: vec![],
                security_projection_digest: print_of(FingerprintKind::JsonSha256, "p"),
                full_card_digest: print_of(FingerprintKind::JsonSha256, "c"),
            },
            local_note: String::new(),
        })
        .unwrap();
    store
        .put_peer_key(tls, "contract-proposal", label, "iss", &[3u8; 32], root, 1)
        .unwrap();
}

#[test]
fn a_certificate_leads_to_the_active_peer_that_was_pinned_with_it() {
    let mut store = store();
    pin(&mut store, "root-a", "anna", "tls-a");
    pin(&mut store, "root-b", "ben", "tls-b");
    assert_eq!(resolve_sender(&store, "tls-b").as_deref(), Some("root-b"));
    assert_eq!(resolve_sender(&store, "tls-a").as_deref(), Some("root-a"));
    assert_eq!(resolve_sender(&store, "tls-c"), None);
    assert_eq!(
        store.peer_status_by_root("root-a").unwrap(),
        Some(PeerStatus::Active)
    );
    assert!(store.remove_relationship("root-a", 2).unwrap());
    assert_eq!(resolve_sender(&store, "tls-a"), None);
    assert_eq!(resolve_sender(&store, "tls-b").as_deref(), Some("root-b"));
}

const PAYLOAD: &[u8] = b"outbound bytes";

fn sent() -> (CoordEnvelope, Vec<Part>) {
    let (stage_ref, staged_digest, payload_sha256) =
        stage_reference(PAYLOAD, "partner", "https://byom.example/t").unwrap();
    let envelope = CoordEnvelope {
        schema_version: 1,
        protocol: "p".to_owned(),
        task_type: "https://byom.example/t".to_owned(),
        recipient_label: "partner".to_owned(),
        recipient_root: "root-here".to_owned(),
        sender_root: "agent-b".to_owned(),
        payload_sha256,
        staged_digest,
        consent_receipt: "consent-1".to_owned(),
    };
    let message = message_body(&envelope, PAYLOAD, "m1", &stage_ref);
    (envelope, message.parts)
}

fn take(store: &mut Store, req: &Ingress<'_>, envelope: Option<CoordEnvelope>, wall: i64) -> HttpResponse {
    let (_, parts) = sent();
    take_dispatch(
        store,
        &[],
        req,
        &envelope,
        &parts,
        "root-here",
        |a: &Acknowledgement| {
            format!("{} {} {}", a.coordination, a.staged_digest, a.received_at).into_bytes()
        },
        wall,
    )
}

#[test]
fn a_dispatch_is_taken_once_and_acknowledged_as_before() {
    let mut store = store();
    let digest = content_digest(BODY);
    let req = ingress(&digest, &[]);
    let (envelope, _) = sent();
    let first = take(&mut store, &req, Some(envelope.clone()), 100);
    assert_eq!(first.status, 200);
    assert_eq!(
        first.body,
        ResponseBody::Bytes(format!("acknowledged {} 100", envelope.staged_digest).into_bytes())
    );
    // A replay gets what was recorded, even where it would not be verified any more.
    assert_eq!(take(&mut store, &req, None, 200), first);
    let mut changed = ingress(&digest, &[]);
    changed.tenant = Some("other");
    assert_eq!(take(&mut store, &changed, Some(envelope), 200).status, 409);
}

#[test]
fn a_dispatch_that_is_refused_leaves_no_trace() {
    let mut store = store();
    let digest = content_digest(BODY);
    let before = store.snapshot();
    let (envelope, _) = sent();
    let malformed = take(&mut store, &ingress(&digest, &[]), None, 100);
    assert_eq!(malformed.status, 400);
    let mut other = ingress(&digest, &[]);
    other.peer = "agent-c";
    let wrong = take(&mut store, &other, Some(envelope.clone()), 100);
    // The sender does not learn which check it was.
    assert_eq!(wrong, malformed);
    let mut get = ingress(&digest, &[]);
    get.method = "GET";
    assert_eq!(take(&mut store, &get, Some(envelope.clone()), 100).status, 405);
    let mut media = ingress(&digest, &[]);
    media.content_type = "text/plain";
    assert_eq!(take(&mut store, &media, Some(envelope), 100).status, 415);
    assert_eq!(store.snapshot(), before);
}
