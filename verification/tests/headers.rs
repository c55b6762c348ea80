use codex_api::common::ResponseEvent;
use codex_api::sse::response_headers::{open_stream, stream_opening};
use http::{HeaderMap, HeaderValue};

#[test]
fn headers_open_the_stream() {
    let mut headers = HeaderMap::new();
    headers.insert("OpenAI-Model", HeaderValue::from_static("gpt-x"));
    headers.append("openai-model", HeaderValue::from_static("second"));
    headers.insert("x-request-id", HeaderValue::from_static("req\t1"));
    headers.insert("x-codex-turn-state", HeaderValue::from_static("state"));
    let opening = open_stream(&headers, true);
    assert_eq!(opening.events, vec![ResponseEvent::ServerModel("gpt-x".to_string())]);
    assert_eq!(opening.upstream_request_id.as_deref(), Some("req\t1"));
    assert_eq!(opening.turn_state.as_deref(), Some("state"));
    assert_eq!(open_stream(&headers, false).turn_state, None);
}

#[test]
fn absent_headers_say_nothing() {
    let opening = open_stream(&HeaderMap::new(), true);
    assert!(opening.events.is_empty());
    assert_eq!(opening.upstream_request_id, None);
    assert_eq!(opening.turn_state, None);
}

#[test]
fn headers_that_are_no_text_say_nothing() {
    let mut headers = HeaderMap::new();
    headers.insert("openai-model", HeaderValue::from_bytes(b"caf\xc3\xa9").unwrap());
    headers.insert("x-request-id", HeaderValue::from_bytes(b"\xff").unwrap());
    headers.insert("x-codex-turn-state", HeaderValue::from_bytes(b"").unwrap());
    let opening = open_stream(&headers, true);
    assert!(opening.events.is_empty());
    assert_eq!(opening.upstream_request_id, None);
    assert_eq!(opening.turn_state.as_deref(), Some(""));
}

#[test]
fn the_turn_state_needs_a_place() {
    let opening = stream_opening(
        Some("m".to_string()),
        Some("r".to_string()),
        Some("t".to_string()),
        false,
    );
    assert_eq!(opening.events, vec![ResponseEvent::ServerModel("m".to_string())]);
    assert_eq!(opening.upstream_request_id.as_deref(), Some("r"));
    assert_eq!(opening.turn_state, None);
}
