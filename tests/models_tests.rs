use echo_sync::error::AppError;
use echo_sync::models::{now_millis, stamp_of, Claims, ClipboardMessage, TOKEN_LIFETIME_SECS};

#[test]
fn clipboard_message_new_sets_defaults() {
    let msg = ClipboardMessage::new("device_123".to_string(), "test content".to_string());

    assert_eq!(msg.device_id, "device_123");
    assert_eq!(msg.content, "test content");
    assert!(!msg.encrypted);
    assert!(msg.nonce.is_none());
    assert!(msg.timestamp > 0);
}

#[test]
fn clipboard_message_accepts_string_and_str() {
    let msg1 = ClipboardMessage::new("device".to_string(), "content".to_string());
    let msg2 = ClipboardMessage::new(String::from("device"), String::from("content"));

    assert_eq!(msg1.device_id, msg2.device_id);
    assert_eq!(msg1.content, msg2.content);
}

#[test]
fn now_millis_is_after_2020() {
    // 2020-01-01T00:00:00Z in milliseconds
    assert!(now_millis() > 1_577_836_800_000);
}

#[test]
fn duplicate_copies_every_field() {
    let m = ClipboardMessage {
        device_id: "a".to_string(),
        content: "b".to_string(),
        nonce: Some("c".to_string()),
        encrypted: true,
        timestamp: 5,
    };
    let d = m.duplicate();
    assert_eq!(d.device_id, "a");
    assert_eq!(d.content, "b");
    assert_eq!(d.nonce.as_deref(), Some("c"));
    assert!(d.encrypted);
    assert_eq!(d.timestamp, 5);
}

#[test]
fn claims_expire_after_a_day() {
    let c = Claims::issued_at("user".to_string(), 1_700_000_000);
    assert_eq!(c.sub, "user");
    assert_eq!(c.iat, 1_700_000_000);
    assert_eq!(c.exp, 1_700_086_400);
    assert_eq!(TOKEN_LIFETIME_SECS, 86400);
}

#[test]
fn error_parts_by_variant() {
    assert_eq!(AppError::Auth("bad".to_string()).into_parts(), (401, "bad".to_string()));
    assert_eq!(AppError::Conflict("dup".to_string()).into_parts(), (409, "dup".to_string()));
    assert_eq!(AppError::Internal("boom".to_string()).into_parts(), (500, "Internal error".to_string()));
    let db: AppError = sqlx::Error::RowNotFound.into();
    assert!(matches!(db, AppError::Database(_)));
    assert_eq!(db.into_parts(), (500, "Database error".to_string()));
}

#[test]
fn stamp_of_clock_readings() {
    assert_eq!(stamp_of(None), 1);
    assert_eq!(stamp_of(Some(0)), 1);
    assert_eq!(stamp_of(Some(1_700_000_000_123)), 1_700_000_000_123);
    assert_eq!(stamp_of(Some(u64::MAX as u128 + 7)), u64::MAX);
}

#[test]
fn saturate_millis_values() {
    assert_eq!(echo_sync::state::saturate_millis(42), 42);
    assert_eq!(echo_sync::state::saturate_millis(u128::MAX), u64::MAX);
}
