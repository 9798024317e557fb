use hyperliquid_ws::error::Error;
use hyperliquid_ws::ws::post_ws_manager::{
    on_stream_end, ping_payload, post_request_payload, route_incoming, Incoming, PostResponseMessage,
    ReadOutcome, StreamEnd, RECONNECT_DELAY_SECS, SEND_PING_INTERVAL,
};

#[test]
fn post_payload_frames_compact_request() {
    let p = post_request_payload(7, "{ \"type\" : \"order\", \"n\" : [1, 2] }").unwrap();
    assert_eq!(p, "{\"method\":\"post\",\"id\":7,\"request\":{\"n\":[1,2],\"type\":\"order\"}}");
}

#[test]
fn post_payload_large_id() {
    let p = post_request_payload(u64::MAX, "null").unwrap();
    assert_eq!(p, "{\"method\":\"post\",\"id\":18446744073709551615,\"request\":null}");
}

#[test]
fn post_payload_rejects_bad_json() {
    match post_request_payload(1, "{not json") {
        Err(Error::JsonParse(m)) => assert!(!m.is_empty()),
        other => panic!("expected a JSON error, got {:?}", other),
    }
}

#[test]
fn ping_payload_text() {
    assert_eq!(ping_payload(), "{\"method\":\"ping\"}");
    assert_eq!(SEND_PING_INTERVAL, 50);
}

#[test]
fn objects_are_parsed_other_text_ignored() {
    assert_eq!(
        route_incoming(ReadOutcome::Text("{\"channel\":\"pong\"}".to_string())),
        Incoming::Parse("{\"channel\":\"pong\"}".to_string())
    );
    assert_eq!(route_incoming(ReadOutcome::Text("Websocket connection established.".to_string())), Incoming::Ignore);
    assert_eq!(route_incoming(ReadOutcome::Text(String::new())), Incoming::Ignore);
    assert_eq!(route_incoming(ReadOutcome::Text(" {}".to_string())), Incoming::Ignore);
}

#[test]
fn failures_are_forwarded_as_errors() {
    assert_eq!(
        route_incoming(ReadOutcome::NotText("invalid utf-8".to_string())),
        Incoming::Forward(PostResponseMessage::HyperliquidError(
            "Reader text conversion error: \"invalid utf-8\"".to_string()
        ))
    );
    assert_eq!(
        route_incoming(ReadOutcome::Failed("connection reset".to_string())),
        Incoming::Forward(PostResponseMessage::HyperliquidError("Reader error: \"connection reset\"".to_string()))
    );
}

#[test]
fn error_messages() {
    assert_eq!(Error::JsonParse("eof".to_string()).message(), "Json parse error: \"eof\"");
    assert_eq!(Error::Websocket("refused".to_string()).message(), "Websocket error: \"refused\"");
    assert_eq!(Error::WsSend("closed".to_string()).message(), "WS send error: \"closed\"");
    assert_eq!(Error::GenericReader("a\"b".to_string()).message(), "Reader error: \"a\\\"b\"");
}

#[test]
fn stream_end_reconnects_only_when_enabled() {
    assert_eq!(on_stream_end(true), StreamEnd::Reconnect { delay_secs: RECONNECT_DELAY_SECS });
    assert_eq!(RECONNECT_DELAY_SECS, 1);
    assert_eq!(on_stream_end(false), StreamEnd::Exit);
}
