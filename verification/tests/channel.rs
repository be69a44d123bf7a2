//! The channel of a confined worker.
use akson::broker_channel::{
    channel_answer, channel_step, read_capped_line, BrokerRequest, ChannelAnswer, ChannelStep,
    LineBuffer, LineRead, Taken, MAX_REQUESTS, MAX_REQUEST_BYTES,
};

/// Reads a request as the daemon does.
fn parse(line: &[u8]) -> Option<BrokerRequest> {
    let value = serde_json::from_slice::<serde_json::Value>(line).ok()?;
    Some(BrokerRequest {
        processor_id: value.get("processor_id")?.as_str()?.to_owned(),
        request: value.get("request")?.as_str()?.to_owned(),
    })
}

/// Serves a whole input; gives the answers, one a line.
fn serve<F: FnMut(&str, &[u8]) -> String>(input: &[u8], mut dispatch: F) -> Vec<String> {
    let mut answers = Vec::new();
    let mut at = 0;
    let mut served = 0;
    loop {
        let (read, next) = read_capped_line(input, at, MAX_REQUEST_BYTES);
        at = next;
        match channel_step(served, read) {
            ChannelStep::Stop => return answers,
            ChannelStep::Skip => {}
            ChannelStep::Refuse(error) => {
                answers.push(format!("error: {error}"));
                return answers;
            }
            ChannelStep::Read(line) => match channel_answer(&parse(&line)) {
                ChannelAnswer::Call {
                    processor_id,
                    request,
                } => answers.push(dispatch(&processor_id, &request)),
                ChannelAnswer::Error(error) => answers.push(format!("error: {error}")),
            },
        }
        served += 1;
    }
}

#[test]
fn it_relays_a_request_to_the_dispatcher_and_answers() {
    let answers = serve(
        b"{\"processor_id\":\"model-x\",\"request\":\"hello\"}\n",
        |processor_id, request| {
            format!("200 {processor_id} {}", String::from_utf8_lossy(request))
        },
    );
    assert_eq!(answers.len(), 1);
    assert!(answers[0].starts_with("200"));
    assert_eq!(answers[0], "200 model-x hello");
}

#[test]
fn a_malformed_line_is_answered_with_an_error_not_an_action() {
    let mut called = false;
    let answers = serve(b"not json\n", |_, _| {
        called = true;
        String::new()
    });
    assert!(answers[0].starts_with("error"), "malformed → error object");
    assert!(
        !called,
        "the dispatcher must not run for a malformed request"
    );
}

#[test]
fn read_capped_line_stops_at_the_cap_without_a_newline() {
    let big = vec![b'x'; 100_000];
    match read_capped_line(&big, 0, 1024) {
        (LineRead::TooLarge, _) => {}
        (other, _) => panic!("expected TooLarge, got {other:?}"),
    }
}

#[test]
fn read_capped_line_returns_a_short_line_and_then_eof() {
    let input = b"hello\n".to_vec();
    let next = match read_capped_line(&input, 0, 1024) {
        (LineRead::Line(b), next) => {
            assert_eq!(b, b"hello");
            next
        }
        _ => panic!("expected a line"),
    };
    assert!(matches!(
        read_capped_line(&input, next, 1024),
        (LineRead::Eof, _)
    ));
}

#[test]
fn an_oversized_request_is_refused_and_the_dispatcher_never_runs() {
    let mut called = false;
    let answers = serve(&vec![b'x'; 2 * 1024 * 1024], |_, _| {
        called = true;
        String::new()
    });
    assert!(
        answers[0].starts_with("error"),
        "oversized → error, not action"
    );
    assert!(
        !called,
        "the dispatcher must never run for an oversized request"
    );
}

#[test]
fn a_line_of_exactly_the_bound_is_read() {
    let mut input = vec![b'x'; 8];
    input.push(b'\n');
    assert_eq!(
        read_capped_line(&input, 0, 8),
        (LineRead::Line(vec![b'x'; 8]), 9)
    );
    assert_eq!(read_capped_line(&input, 0, 7), (LineRead::TooLarge, 8));
}

#[test]
fn a_line_that_does_not_end_is_no_line() {
    assert_eq!(read_capped_line(b"abc", 0, 8), (LineRead::Eof, 3));
}

#[test]
fn no_more_than_the_bound_is_held() {
    let mut line = LineBuffer::new(2);
    assert_eq!(line.feed(Taken::Byte(b'a')), None);
    assert_eq!(line.feed(Taken::Byte(b'b')), None);
    assert_eq!(line.feed(Taken::Byte(b'c')), Some(LineRead::TooLarge));
    assert_eq!(line.feed(Taken::Byte(b'\n')), Some(LineRead::Line(b"ab".to_vec())));
    assert_eq!(line.feed(Taken::Failure), Some(LineRead::Failed));
    assert_eq!(line.feed(Taken::End), Some(LineRead::Eof));
}

#[test]
fn the_number_of_requests_is_bounded() {
    let input: Vec<u8> = b"{\"processor_id\":\"p\",\"request\":\"r\"}\n".repeat(MAX_REQUESTS + 5);
    let mut calls = 0;
    serve(&input, |_, _| {
        calls += 1;
        String::new()
    });
    assert_eq!(calls, MAX_REQUESTS);
    assert_eq!(
        channel_step(MAX_REQUESTS, LineRead::Line(b"x".to_vec())),
        ChannelStep::Stop
    );
}

#[test]
fn an_empty_line_asks_for_nothing() {
    assert_eq!(channel_step(0, LineRead::Line(Vec::new())), ChannelStep::Skip);
    assert_eq!(channel_step(0, LineRead::Eof), ChannelStep::Stop);
    assert_eq!(channel_step(0, LineRead::Failed), ChannelStep::Stop);
    assert_eq!(
        channel_step(0, LineRead::TooLarge),
        ChannelStep::Refuse("request too large".to_owned())
    );
}
