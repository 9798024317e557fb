use hyperliquid_ws::ws::post_ws_manager2::{
    begin_reconnect, keeps_running, on_reconnected, ping_due, queue_error_message, reader_step, reconnect_backoff,
    resumed_reader_step, send_outcome_response, should_reconnect, writer_on_link_event,
    writer_on_request, LinkEvent, LinkState, ReaderEvent, SendOutcome, TimeSpan, WriteDecision,
    WsConfig, WsRequest, WsResponse,
};

fn secs(s: u64) -> TimeSpan {
    TimeSpan::from_secs(s)
}

fn request(id: &str, payload: &str) -> WsRequest {
    WsRequest { id: id.to_string(), payload: payload.to_string() }
}

fn error_for(id: &str, data: &str) -> WsResponse {
    WsResponse { id: Some(id.to_string()), data: data.to_string(), is_error: true }
}

#[test]
fn config_defaults() {
    let c = WsConfig::default();
    assert_eq!(c.url, "");
    assert_eq!(c.ping_interval, secs(30));
    assert!(c.reconnect_enabled);
    assert_eq!(c.max_reconnect_delay, secs(60));
    assert_eq!(c.read_timeout, secs(90));
    assert_eq!(c.write_timeout, secs(5));
}

#[test]
fn time_span_min() {
    assert_eq!(secs(3).min(secs(5)), secs(3));
    assert_eq!(secs(5).min(secs(3)), secs(3));
    let a = TimeSpan { secs: 2, nanos: 5 };
    let b = TimeSpan { secs: 2, nanos: 4 };
    assert_eq!(a.min(b), b);
}

#[test]
fn lifecycle() {
    let s = LinkState::new();
    assert!(!s.is_connected());
    assert_eq!(s.get_reconnect_attempts(), 0);
    let s = LinkState { reconnect_attempts: 9, ..s }.started();
    assert!(s.is_connected() && s.writer_ready && !s.stopped);
    assert_eq!(s.get_reconnect_attempts(), 0);
    let (t, close) = s.stop();
    assert!(close);
    assert!(t.stopped && !t.connected && !t.writer_ready);
    let (_, close_again) = t.stop();
    assert!(!close_again);
}

#[test]
fn reader_forwards_text_unchanged() {
    let s = LinkState { reconnect_attempts: 4, ..LinkState::new().started() };
    let step = reader_step(s, ReaderEvent::Text("hello".to_string()));
    assert_eq!(step.response, Some(WsResponse { id: None, data: "hello".to_string(), is_error: false }));
    assert!(step.keep_reading);
    assert_eq!(step.state.reconnect_attempts, 0);
    assert!(step.state.connected);
}

#[test]
fn reader_notes_binary_size() {
    let s = LinkState::new().started();
    let step = reader_step(s, ReaderEvent::Binary(5));
    assert_eq!(step.response.unwrap().data, "Binary data: 5 bytes");
    let step = reader_step(s, ReaderEvent::Binary(0));
    assert_eq!(step.response.unwrap().data, "Binary data: 0 bytes");
}

#[test]
fn reader_control_frames() {
    let s = LinkState { reconnect_attempts: 2, ..LinkState::new().started() };
    for e in [ReaderEvent::Ping, ReaderEvent::Pong, ReaderEvent::Frame] {
        let step = reader_step(s, e);
        assert!(step.response.is_none());
        assert!(step.keep_reading);
        assert_eq!(step.state.reconnect_attempts, 0);
    }
}

#[test]
fn reader_link_loss() {
    let s = LinkState { reconnect_attempts: 2, ..LinkState::new().started() };
    for e in [ReaderEvent::Error, ReaderEvent::Ended, ReaderEvent::TimedOut] {
        let step = reader_step(s, e);
        assert!(step.response.is_none());
        assert!(!step.keep_reading);
        assert!(!step.state.connected);
        assert_eq!(step.state.reconnect_attempts, 2);
    }
}

#[test]
fn reader_close_frame_resets_count_and_ends_reading() {
    let s = LinkState { reconnect_attempts: 1, ..LinkState::new().started() };
    let step = reader_step(s, ReaderEvent::Close);
    assert!(step.response.is_none());
    assert!(!step.keep_reading);
    assert!(!step.state.connected);
    assert_eq!(step.state.reconnect_attempts, 0);
    let (_, wait) = begin_reconnect(step.state, secs(60)).unwrap();
    assert_eq!(wait, secs(1));
}

#[test]
fn resumed_reader_keeps_reading_through_close() {
    let s = LinkState { reconnect_attempts: 3, ..LinkState::new().started() };
    let (t, go) = resumed_reader_step(s, &ReaderEvent::Close);
    assert!(go);
    assert_eq!(t.reconnect_attempts, 0);
    assert!(t.connected);
    let (t, go) = resumed_reader_step(s, &ReaderEvent::TimedOut);
    assert!(!go);
    assert!(!t.connected);
    assert_eq!(t.reconnect_attempts, 3);
}

#[test]
fn reconnect_only_when_enabled_and_running() {
    let mut c = WsConfig::default();
    let s = LinkState::new();
    assert!(should_reconnect(&s, &c));
    let (stopped, _) = s.stop();
    assert!(!should_reconnect(&stopped, &c));
    c.reconnect_enabled = false;
    assert!(!should_reconnect(&s, &c));
}

#[test]
fn backoff_doubles_to_sixty_four_seconds() {
    let max = secs(600);
    let want = [1, 2, 4, 8, 16, 32, 64, 64, 64];
    for (a, w) in want.iter().enumerate() {
        assert_eq!(reconnect_backoff(a as u64, max), secs(*w));
    }
    assert_eq!(reconnect_backoff(1000, max), secs(64));
}

#[test]
fn backoff_capped_by_max_delay() {
    assert_eq!(reconnect_backoff(5, secs(10)), secs(10));
    assert_eq!(reconnect_backoff(0, TimeSpan { secs: 0, nanos: 500 }), TimeSpan { secs: 0, nanos: 500 });
    assert_eq!(reconnect_backoff(6, secs(60)), secs(60));
}

#[test]
fn backoff_exponent_uses_low_32_bits() {
    assert_eq!(reconnect_backoff(1u64 << 32, secs(600)), secs(1));
    assert_eq!(reconnect_backoff((1u64 << 32) + 3, secs(600)), secs(8));
}

#[test]
fn reconnect_attempts_are_counted() {
    let s = LinkState { reconnect_attempts: 3, ..LinkState::new() };
    let (t, wait) = begin_reconnect(s, secs(60)).unwrap();
    assert_eq!(t.reconnect_attempts, 4);
    assert_eq!(wait, secs(8));
    let s = LinkState { reconnect_attempts: u64::MAX, ..LinkState::new() };
    let (t, _) = begin_reconnect(s, secs(60)).unwrap();
    assert_eq!(t.reconnect_attempts, 0);
    let (stopped, _) = s.stop();
    assert!(begin_reconnect(stopped, secs(60)).is_none());
    assert!(on_reconnected(LinkState::new()).connected);
}

#[test]
fn writer_rejects_when_not_connected() {
    let s = LinkState::new();
    match writer_on_request(&s, request("a", "x")) {
        WriteDecision::Reject(r) => assert_eq!(r, error_for("a", "Not connected")),
        WriteDecision::Send { .. } => panic!("should not send"),
    }
}

#[test]
fn writer_rejects_without_writer() {
    let s = LinkState { connected: true, ..LinkState::new() };
    match writer_on_request(&s, request("b", "x")) {
        WriteDecision::Reject(r) => assert_eq!(r, error_for("b", "Writer not available")),
        WriteDecision::Send { .. } => panic!("should not send"),
    }
}

#[test]
fn writer_sends_when_ready() {
    let s = LinkState::new().started();
    match writer_on_request(&s, request("test-1", "Hello WebSocket!")) {
        WriteDecision::Send { id, payload } => {
            assert_eq!(id, "test-1");
            assert_eq!(payload, "Hello WebSocket!");
        }
        WriteDecision::Reject(r) => panic!("should send, got {:?}", r),
    }
}

#[test]
fn send_outcomes() {
    assert_eq!(send_outcome_response("c".to_string(), SendOutcome::Sent), None);
    assert_eq!(
        send_outcome_response("c".to_string(), SendOutcome::Failed("broken pipe".to_string())),
        Some(error_for("c", "Send error: broken pipe"))
    );
    assert_eq!(
        send_outcome_response("c".to_string(), SendOutcome::TimedOut),
        Some(error_for("c", "Send timeout"))
    );
}

#[test]
fn link_news_and_pings() {
    let s = LinkState { connected: true, ..LinkState::new() };
    assert!(!ping_due(&s));
    let t = writer_on_link_event(s, LinkEvent::Reconnected);
    assert!(t.writer_ready);
    assert!(ping_due(&t));
    let u = writer_on_link_event(t, LinkEvent::Disconnected);
    assert!(!u.connected);
    assert!(u.writer_ready);
    assert!(!ping_due(&u));
}

#[test]
fn queue_error_text() {
    assert_eq!(queue_error_message("channel closed"), "Failed to queue request: channel closed");
}

#[test]
fn stop_is_final() {
    let (s, _) = LinkState::new().started().stop();
    let events = [
        ReaderEvent::Text("x".to_string()),
        ReaderEvent::Binary(1),
        ReaderEvent::Ping,
        ReaderEvent::Close,
        ReaderEvent::Ended,
    ];
    for e in events {
        let (resumed, _) = resumed_reader_step(s, &e);
        assert!(resumed.stopped);
        assert!(reader_step(s, e).state.stopped);
    }
    assert!(writer_on_link_event(s, LinkEvent::Reconnected).stopped);
    assert!(writer_on_link_event(s, LinkEvent::Disconnected).stopped);
    assert!(on_reconnected(s).stopped);
    assert!(s.started().stopped);
    assert!(begin_reconnect(s, secs(60)).is_none());
    assert!(!should_reconnect(&s, &WsConfig::default()));
    assert!(!ping_due(&s));
    assert!(!keeps_running(&s));
    assert!(keeps_running(&LinkState::new()));
}

#[test]
fn data_restarts_backoff() {
    let s = LinkState { reconnect_attempts: 5, ..LinkState::new().started() };
    let after = reader_step(s, ReaderEvent::Pong).state;
    let (t, wait) = begin_reconnect(after, secs(60)).unwrap();
    assert_eq!(t.reconnect_attempts, 1);
    assert_eq!(wait, secs(1));
    let (_, capped) = begin_reconnect(after, TimeSpan { secs: 0, nanos: 250 }).unwrap();
    assert_eq!(capped, TimeSpan { secs: 0, nanos: 250 });
}

#[test]
fn writer_handles_queue_in_order() {
    let up = LinkState::new().started();
    let down = LinkState::new();
    let queue = [("a", "1", up), ("b", "2", down), ("c", "3", up)];
    let mut written = Vec::new();
    let mut answers = Vec::new();
    for (id, payload, state) in queue {
        match writer_on_request(&state, request(id, payload)) {
            WriteDecision::Send { id, payload } => {
                written.push(payload);
                if let Some(r) = send_outcome_response(id, SendOutcome::TimedOut) {
                    answers.push(r);
                }
            }
            WriteDecision::Reject(r) => answers.push(r),
        }
    }
    assert_eq!(written, vec!["1".to_string(), "3".to_string()]);
    assert_eq!(
        answers,
        vec![error_for("a", "Send timeout"), error_for("b", "Not connected"), error_for("c", "Send timeout")]
    );
}
