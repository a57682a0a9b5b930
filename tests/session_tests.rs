use echo_sync::models::ClipboardMessage;
use echo_sync::session::{
    clipboard_changed, frame_to_message, should_relay, FrameOutcome, InboundFrame, SessionEvent,
    SessionPhase,
};
use echo_sync::state::AppState;

fn message_from(device: &str, content: &str) -> ClipboardMessage {
    ClipboardMessage {
        device_id: device.to_string(),
        content: content.to_string(),
        nonce: Some("iv".to_string()),
        encrypted: true,
        timestamp: 1234,
    }
}

#[test]
fn relay_skips_own_echo_only() {
    let m = message_from("dev_a", "x");
    assert!(!should_relay(&m, &"dev_a".to_string()));
    assert!(should_relay(&m, &"dev_b".to_string()));
    assert!(should_relay(&m, &"dev_c".to_string()));
}

#[test]
fn structured_frame_keeps_fields_but_device() {
    let parsed = message_from("spoofed", "hello");
    let m = frame_to_message(Some(parsed), "{...}".to_string(), &"mine".to_string());
    assert_eq!(m.device_id, "mine");
    assert_eq!(m.content, "hello");
    assert_eq!(m.nonce.as_deref(), Some("iv"));
    assert!(m.encrypted);
    assert_eq!(m.timestamp, 1234);
}

#[test]
fn malformed_frame_is_wrapped_stored_and_published() {
    let mut engine = AppState::new(String::new());
    let frame = InboundFrame::Text { raw: "not json {".to_string(), parsed: None };
    let out = engine.handle_frame_at(11, &"conn_dev".to_string(), frame, 500);
    match out {
        FrameOutcome::Publish(m) => {
            assert_eq!(m.content, "not json {");
            assert_eq!(m.device_id, "conn_dev");
            assert!(!m.encrypted);
            assert!(m.nonce.is_none());
            assert!(m.timestamp > 0);
        }
        other => panic!("unexpected outcome {:?}", other),
    }
    let history = engine.get_history(11);
    assert_eq!(history.len(), 1);
    assert_eq!(history[0].content, "not json {");
    assert_eq!(history[0].device_id, "conn_dev");
}

#[test]
fn rate_limited_frame_is_dropped() {
    let mut engine = AppState::new(String::new());
    let dev = "d".to_string();
    let first = InboundFrame::Text { raw: "one".to_string(), parsed: None };
    let second = InboundFrame::Text { raw: "two".to_string(), parsed: None };
    assert!(matches!(engine.handle_frame_at(1, &dev, first, 0), FrameOutcome::Publish(_)));
    assert!(matches!(engine.handle_frame_at(1, &dev, second, 10), FrameOutcome::RateLimited));
    assert_eq!(engine.get_history(1).len(), 1);
}

#[test]
fn control_and_close_frames() {
    let mut engine = AppState::new(String::new());
    let dev = "d".to_string();
    assert!(matches!(engine.handle_frame_at(1, &dev, InboundFrame::Control, 0), FrameOutcome::Ignored));
    assert!(matches!(engine.handle_frame_at(1, &dev, InboundFrame::Close, 0), FrameOutcome::Stop));
    assert!(engine.get_history(1).is_empty());
    assert_eq!(engine.bucket_of("d"), echo_sync::rate_limit::RateLimitState::default());
}

#[test]
fn handle_frame_reads_clock() {
    let mut engine = AppState::new(String::new());
    let frame = InboundFrame::Text { raw: "hi".to_string(), parsed: None };
    assert!(matches!(engine.handle_frame(2, &"x".to_string(), frame), FrameOutcome::Publish(_)));
    assert_eq!(engine.get_history(2)[0].content, "hi");
}

#[test]
fn session_phases() {
    let p = SessionPhase::Connecting;
    assert_eq!(p.next(SessionEvent::PingFailed), SessionPhase::Connecting);
    let p = p.next(SessionEvent::Upgraded);
    assert_eq!(p, SessionPhase::Active);
    assert!(p.is_running());
    assert_eq!(p.next(SessionEvent::PingSent), SessionPhase::Active);
    assert_eq!(p.next(SessionEvent::Relayed), SessionPhase::Active);
    assert_eq!(p.next(SessionEvent::FrameHandled), SessionPhase::Active);
    assert_eq!(p.next(SessionEvent::RelayFailed), SessionPhase::Closing);
    assert_eq!(p.next(SessionEvent::InboundEnded), SessionPhase::Closing);
    let c = p.next(SessionEvent::PingFailed);
    assert_eq!(c, SessionPhase::Closing);
    assert!(!c.is_running());
    let done = c.next(SessionEvent::GroupLeft);
    assert_eq!(done, SessionPhase::Closed);
    assert_eq!(done.next(SessionEvent::Upgraded), SessionPhase::Closed);
}

#[test]
fn clipboard_change_detection() {
    assert!(clipboard_changed(&"new".to_string(), &"old".to_string()));
    assert!(!clipboard_changed(&"same".to_string(), &"same".to_string()));
    assert!(!clipboard_changed(&String::new(), &"old".to_string()));
}
