//! The flash channel's session and its batching writer.

use thingblock_link::server::batch::{is_batchable, push_coalesced};
use thingblock_link::server::protocol::{Percent, Response, ResponseBody, ResultPayload};
use thingblock_link::server::session::{
    malformed_envelope, on_incoming, Incoming, ReadStep, Session, Writer, BATCH_COOLDOWN_MS,
    RESPONSE_CHANNEL_CAPACITY,
};

fn log(id: &str, chunk: &str) -> Response {
    Response { id: id.to_string(), body: ResponseBody::Log { chunk: chunk.to_string() } }
}

fn monitor(id: &str, data: &str) -> Response {
    Response { id: id.to_string(), body: ResponseBody::MonitorData { data: data.to_string() } }
}

fn done(id: &str) -> Response {
    Response { id: id.to_string(), body: ResponseBody::Result(ResultPayload::Empty) }
}

/// A response as one line of text.
fn line(response: &Response) -> String {
    match &response.body {
        ResponseBody::Log { chunk } => format!("{} log {chunk}", response.id),
        ResponseBody::MonitorData { data } => format!("{} monitor {data}", response.id),
        ResponseBody::Result(_) => format!("{} result", response.id),
        ResponseBody::Progress { phase, .. } => format!("{} progress {phase}", response.id),
        ResponseBody::Error { code, .. } => format!("{} error {code}", response.id),
        ResponseBody::Event(json) => format!("{} event {json}", response.id),
    }
}

fn lines(responses: &[Response]) -> Vec<String> {
    responses.iter().map(line).collect()
}

#[test]
fn neighbouring_text_of_one_request_and_kind_merges() {
    let mut buf = Vec::new();
    for response in [log("1", "a"), log("1", "b"), monitor("1", "c"), monitor("1", "d"), log("2", "e"), log("1", "f")] {
        push_coalesced(&mut buf, response);
    }
    assert_eq!(lines(&buf), ["1 log ab", "1 monitor cd", "2 log e", "1 log f"]);
}

#[test]
fn what_is_not_text_never_merges() {
    let mut buf = Vec::new();
    for response in [done("1"), done("1"), log("1", "a"), done("1"), log("1", "b")] {
        push_coalesced(&mut buf, response);
    }
    assert_eq!(lines(&buf), ["1 result", "1 result", "1 log a", "1 result", "1 log b"]);
}

#[test]
fn only_streamed_text_may_wait() {
    assert!(is_batchable(&log("1", "").body));
    assert!(is_batchable(&monitor("1", "").body));
    assert!(!is_batchable(&done("1").body));
    assert!(!is_batchable(&ResponseBody::Progress {
        phase: String::new(),
        percent: Percent::Reported { bits: 0 }
    }));
    assert!(!is_batchable(&ResponseBody::Error { code: String::new(), message: String::new() }));
    assert!(!is_batchable(&ResponseBody::Event(String::new())));
}

#[test]
fn text_waits_until_the_deadline() {
    let mut writer = Writer::new();
    assert_eq!(writer.flush_at, None);
    assert!(writer.receive(log("1", "a"), 1000).is_empty());
    assert_eq!(writer.flush_at, Some(1000 + BATCH_COOLDOWN_MS));
    assert_eq!(BATCH_COOLDOWN_MS, 100);
    assert!(writer.receive(log("1", "b"), 1099).is_empty());
    assert_eq!(writer.flush_at, Some(1100), "the deadline does not move");
    assert_eq!(lines(&writer.tick()), ["1 log ab"]);
    assert_eq!(writer.flush_at, None);
    assert!(writer.tick().is_empty());
}

#[test]
fn a_reply_flushes_the_text_before_it() {
    let mut writer = Writer::new();
    writer.receive(log("1", "a"), 0);
    writer.receive(log("2", "b"), 1);
    assert_eq!(lines(&writer.receive(done("1"), 2)), ["1 log a", "2 log b", "1 result"]);
    assert_eq!(writer.flush_at, None);
    assert!(writer.buf.is_empty());
}

#[test]
fn nothing_is_lost_when_the_last_sender_goes() {
    let mut writer = Writer::new();
    let mut sent = Vec::new();
    sent.extend(writer.receive(log("1", "a"), 0));
    sent.extend(writer.receive(done("2"), 5));
    sent.extend(writer.receive(monitor("3", "x"), 6));
    sent.extend(writer.receive(monitor("3", "y"), 7));
    sent.extend(writer.close());
    assert_eq!(lines(&sent), ["1 log a", "2 result", "3 monitor xy"]);
}

#[test]
fn the_scratch_directory_is_made_once() {
    let mut session: Session<u8, u8> = Session::new();
    assert_eq!(*session.ensure_temp_base(Some(1)), 1);
    assert_eq!(*session.ensure_temp_base(Some(2)), 1);
    assert_eq!(*session.ensure_temp_base(None), 1);
}

#[test]
fn only_text_is_an_envelope() {
    assert!(matches!(on_incoming(Incoming::Text("{}".to_string())), ReadStep::Handle(t) if t == "{}"));
    for ignored in [Incoming::Binary, Incoming::Ping, Incoming::Pong] {
        assert!(matches!(on_incoming(ignored), ReadStep::Ignore));
    }
    for end in [Incoming::Close, Incoming::Failed, Incoming::Ended] {
        assert!(matches!(on_incoming(end), ReadStep::Stop));
    }
}

#[test]
fn a_malformed_envelope_is_answered_without_an_id() {
    let response = malformed_envelope("expected value at line 1 column 1");
    assert_eq!(response.id, "");
    match response.body {
        ResponseBody::Error { code, message } => {
            assert_eq!(code, "invalidRequest");
            assert_eq!(message, "malformed envelope: expected value at line 1 column 1");
        }
        other => panic!("no error: {other:?}"),
    }
    assert_eq!(RESPONSE_CHANNEL_CAPACITY, 64);
}
