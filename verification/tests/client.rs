//! Posting a message.
use akson::a2a_client::{
    judge_exchange, plan_for, plan_post, reads_on, split_response, MAX_RESPONSE_BODY,
};
use akson::address::parse_endpoint;

#[test]
fn parse_endpoint_requires_https() {
    assert!(parse_endpoint("http://host/a2a").is_none());
    let (host, port, path) = parse_endpoint("https://host:9443/a2a").unwrap();
    assert_eq!((host.as_str(), port, path.as_str()), ("host", 9443, "/a2a"));
    let (_h, port, path) = parse_endpoint("https://host").unwrap();
    assert_eq!((port, path.as_str()), (443, "/"));
}

#[test]
fn a_text_that_is_no_url_is_no_endpoint() {
    assert!(parse_endpoint("host:9443").is_none());
    assert!(parse_endpoint("").is_none());
}

#[test]
fn the_head_of_a_request_names_the_body_and_the_extensions() {
    let plan = plan_post(
        "https://host:9443/a2a",
        b"hello",
        &vec!["urn:one".to_owned(), "urn:two".to_owned()],
    )
    .unwrap();
    assert_eq!(plan.host, "host");
    assert_eq!(plan.port, 9443);
    assert_eq!(
        plan.head,
        "POST /a2a HTTP/1.1\r\nHost: akson\r\nContent-Type: application/a2a+json\r\na2a-version: 1.0\r\ncontent-digest: sha-256=:LPJNul+wow4m6DsqxbninhsWHlwfp0JecwQzYpOLmCQ=:\r\na2a-extensions: urn:one, urn:two\r\nContent-Length: 5\r\nConnection: close\r\n\r\n"
    );
}

#[test]
fn an_endpoint_that_cannot_be_used_is_a_problem() {
    let p = plan_post("http://host/a2a", b"hello", &Vec::new()).unwrap_err();
    assert_eq!(p.status, 500);
    assert_eq!(p.type_, "urn:akson:error:bad-endpoint");
    assert!(plan_for(None, b"x", &Vec::new()).is_err());
    let plan = plan_for(
        Some(("h".to_owned(), 1, "/p".to_owned())),
        b"",
        &Vec::new(),
    )
    .unwrap();
    assert!(plan.head.contains("a2a-extensions: \r\n"));
}

#[test]
fn a_response_is_split_at_the_first_blank_line() {
    assert_eq!(
        split_response(b"HTTP/1.1 200 OK\r\nx: y\r\n\r\nbody\r\n\r\nmore"),
        Some((200, b"body\r\n\r\nmore".to_vec()))
    );
    assert_eq!(
        split_response(b"HTTP/1.1 404\r\n\r\n"),
        Some((404, Vec::new()))
    );
}

#[test]
fn what_is_no_response_is_not_split() {
    assert_eq!(split_response(b""), None);
    assert_eq!(split_response(b"HTTP/1.1 200 OK\r\n"), None);
    assert_eq!(split_response(b"HTTP/1.1\r\n\r\nbody"), None);
    assert_eq!(split_response(b"HTTP/1.1 abc\r\n\r\nbody"), None);
    assert_eq!(split_response(b"HTTP/1.1 70000\r\n\r\nbody"), None);
    assert_eq!(split_response(b"\xff\xfe 200\r\n\r\nbody"), None);
}

#[test]
fn reading_ends_at_the_bound() {
    assert!(reads_on(0));
    assert!(reads_on(MAX_RESPONSE_BODY - 1));
    assert!(!reads_on(MAX_RESPONSE_BODY));
    assert_eq!(MAX_RESPONSE_BODY, 64 * 1024);
}

#[test]
fn an_exchange_that_failed_is_a_problem() {
    let p = judge_exchange(Err("reset".to_owned())).unwrap_err();
    assert_eq!((p.status, p.detail.as_deref()), (502, Some("reset")));
    let p = judge_exchange(Ok(b"nothing".to_vec())).unwrap_err();
    assert_eq!((p.status, p.detail), (502, None));
    assert_eq!(p.title, "the peer sent no HTTP response");
    assert_eq!(
        judge_exchange(Ok(b"HTTP/1.1 200 OK\r\n\r\nx".to_vec())).unwrap(),
        (200, b"x".to_vec())
    );
}
