//! Digests, covered values and their commitment.
use akson::delivery::{
    body_digest, content_digest, tombstone_lifetime_secs, verify_content_digest, CoveredValues,
    DeliveryError,
};

fn covered() -> CoveredValues {
    CoveredValues {
        peer: "agent-b".to_owned(),
        message_id: "msg-1".to_owned(),
        body_digest: body_digest(b"body"),
        interface_url: "https://agent.example/a2a".to_owned(),
        tenant: None,
        a2a_version: "1.0".to_owned(),
        extensions: vec!["z".to_owned(), "a".to_owned()],
        content_type: "application/a2a+json".to_owned(),
        http_method: "POST".to_owned(),
    }
    .normalized()
}

#[test]
fn content_digest_shape() {
    assert_eq!(
        content_digest(b"hello"),
        "sha-256=:LPJNul+wow4m6DsqxbninhsWHlwfp0JecwQzYpOLmCQ=:"
    );
}

#[test]
fn verify_accepts_matching_digest() {
    assert!(verify_content_digest(&content_digest(b"hello"), b"hello").is_ok());
}

#[test]
fn verify_rejects_mismatch_and_bad_alg() {
    assert!(matches!(
        verify_content_digest(&content_digest(b"hello"), b"world"),
        Err(DeliveryError::Mismatch)
    ));
    assert!(matches!(
        verify_content_digest("sha-512=:AAAA:", b"x"),
        Err(DeliveryError::Algorithm)
    ));
    assert!(matches!(
        verify_content_digest("sha-256=:a:, sha-256=:b:", b"x"),
        Err(DeliveryError::NotSingle)
    ));
    assert!(matches!(
        verify_content_digest("", b"x"),
        Err(DeliveryError::Missing)
    ));
}

#[test]
fn extension_order_does_not_change_identity() {
    let a = covered();
    let mut b = a.clone();
    b.extensions = vec!["a".to_owned(), "z".to_owned()];
    assert_eq!(a.canonical_bytes(), b.normalized().canonical_bytes());
}

#[test]
fn commitment_is_keyed_and_binds_every_field() {
    let key = [1u8; 32];
    let base = covered().commitment(&key);
    let mut changed = covered();
    changed.message_id = "msg-2".to_owned();
    assert_ne!(base, changed.commitment(&key));
    assert_ne!(base, covered().commitment(&[2u8; 32]));
}

#[test]
fn tombstone_lifetime_is_the_larger_horizon() {
    assert_eq!(tombstone_lifetime_secs(1000, 100, 200), 1000);
    assert_eq!(tombstone_lifetime_secs(100, 300, 200), 500);
}

#[test]
fn covered_values_have_one_canonical_form() {
    assert_eq!(
        String::from_utf8(covered().canonical_bytes()).unwrap(),
        "{\"a2a_version\":\"1.0\",\"body_digest\":\"Iw2DWNyOiJC0xY3utikS7i8gNXrpKlzIYbmOaP4xrLU=\",\"content_type\":\"application/a2a+json\",\"extensions\":[\"a\",\"z\"],\"http_method\":\"POST\",\"interface_url\":\"https://agent.example/a2a\",\"message_id\":\"msg-1\",\"peer\":\"agent-b\"}"
    );
    let mut named = covered();
    named.tenant = Some("t".to_owned());
    assert!(String::from_utf8(named.canonical_bytes())
        .unwrap()
        .ends_with("\"peer\":\"agent-b\",\"tenant\":\"t\"}"));
}

#[test]
fn a_commitment_is_the_keyed_digest_of_the_canonical_form() {
    let tag = covered().commitment(&[1u8; 32]);
    let hex: String = tag.iter().map(|b| format!("{b:02x}")).collect();
    assert_eq!(hex, "4cbb3188614f168e28e6130937b56c329d958711eea0f9226436ed02a1f257d6");
}

#[test]
fn a_digest_that_is_no_byte_sequence_is_malformed() {
    assert_eq!(
        verify_content_digest("sha-256=AAAA", b"x"),
        Err(DeliveryError::Malformed)
    );
    assert_eq!(
        verify_content_digest("sha-256=:!!:", b"x"),
        Err(DeliveryError::Malformed)
    );
}

#[test]
fn repeated_extensions_count_once() {
    let mut a = covered();
    a.extensions = vec!["a".to_owned(), "z".to_owned(), "a".to_owned()];
    let b = a.normalized();
    assert_eq!(b.extensions, vec!["a".to_owned(), "z".to_owned()]);
}

#[test]
fn an_absent_tenant_is_not_an_empty_one() {
    let none = covered();
    let mut empty = covered();
    empty.tenant = Some(String::new());
    assert_ne!(none.canonical_bytes(), empty.canonical_bytes());
    assert_ne!(none.commitment(&[1u8; 32]), empty.commitment(&[1u8; 32]));
    assert_eq!(none.canonical_bytes(), covered().canonical_bytes());
}

#[test]
fn every_covered_value_has_bytes_of_its_own() {
    let base = covered().canonical_bytes();
    let mut seen = vec![base];
    for i in 0..8 {
        let mut c = covered();
        let field = match i {
            0 => &mut c.peer,
            1 => &mut c.message_id,
            2 => &mut c.body_digest,
            3 => &mut c.interface_url,
            4 => &mut c.a2a_version,
            5 => &mut c.content_type,
            6 => &mut c.http_method,
            _ => &mut c.extensions[0],
        };
        field.push('x');
        let bytes = c.canonical_bytes();
        assert!(!seen.contains(&bytes));
        seen.push(bytes);
    }
}

#[test]
fn a_refused_digest_says_why() {
    let said = [
        (DeliveryError::Missing, "Content-Digest is missing"),
        (
            DeliveryError::NotSingle,
            "Content-Digest must carry exactly one value",
        ),
        (
            DeliveryError::Algorithm,
            "unsupported Content-Digest algorithm (only sha-256)",
        ),
        (DeliveryError::Malformed, "malformed Content-Digest value"),
        (
            DeliveryError::Mismatch,
            "Content-Digest does not match the body",
        ),
    ];
    for (e, text) in said {
        assert_eq!(e.message(), text);
    }
}
