use echo_sync::state::{group_idle, AppState, GROUP_CAPACITY};
use uuid::Uuid;

#[test]
fn creates_new_channel() {
    let mut engine = AppState::new(String::new());
    let user_id = Uuid::new_v4().as_u128();

    assert!(!engine.has_group(user_id));
    let _tx = engine.get_or_create_channel(user_id);
    assert!(engine.has_group(user_id));
}

#[test]
fn reuses_existing_channel() {
    let mut engine = AppState::new(String::new());
    let user_id = Uuid::new_v4().as_u128();

    let tx1 = engine.get_or_create_channel(user_id);
    let tx2 = engine.get_or_create_channel(user_id);

    assert_eq!(tx1.receiver_count(), tx2.receiver_count());
}

#[test]
fn cleanup_removes_empty_channel() {
    let mut engine = AppState::new(String::new());
    let user_id = Uuid::new_v4().as_u128();

    let tx = engine.get_or_create_channel(user_id);
    assert!(engine.has_group(user_id));

    engine.cleanup_channel_if_empty(user_id, &tx);
    assert!(!engine.has_group(user_id));
}

#[test]
fn cleanup_keeps_channel_with_subscribers() {
    let mut engine = AppState::new(String::new());
    let user_id = Uuid::new_v4().as_u128();

    let tx = engine.get_or_create_channel(user_id);
    let _rx = tx.subscribe();

    engine.cleanup_channel_if_empty(user_id, &tx);
    assert!(engine.has_group(user_id));
}

#[test]
fn two_first_joins_share_one_group() {
    let mut engine = AppState::new(String::new());
    let tx1 = engine.get_or_create_channel(9);
    let _rx = tx1.subscribe();
    let tx2 = engine.get_or_create_channel(9);
    assert!(engine.has_group(9));
    assert!(!engine.has_group(10));
    // the receiver made on the first handle counts on the second
    assert_eq!(tx2.receiver_count(), 1);
    assert!(tx1.same_channel(&tx2));
}

#[test]
fn cleanup_ignores_a_replaced_channel() {
    let mut engine = AppState::new(String::new());
    let (stale, _) = tokio::sync::broadcast::channel::<echo_sync::models::ClipboardMessage>(4);
    let _tx = engine.get_or_create_channel(1);
    engine.cleanup_channel_if_empty(1, &stale);
    assert!(engine.has_group(1));
}

#[test]
fn cleanup_leaves_other_groups() {
    let mut engine = AppState::new(String::new());
    let a = engine.get_or_create_channel(1);
    let _b = engine.get_or_create_channel(2);
    engine.cleanup_channel_if_empty(1, &a);
    assert!(!engine.has_group(1));
    assert!(engine.has_group(2));
}

#[test]
fn leave_with_no_group_is_harmless() {
    let mut engine = AppState::new(String::new());
    let (tx, _) = tokio::sync::broadcast::channel::<echo_sync::models::ClipboardMessage>(4);
    engine.cleanup_channel_if_empty(5, &tx);
    assert!(!engine.has_group(5));
}

#[test]
fn idle_decision_by_channel_and_count() {
    assert!(group_idle(true, 0));
    assert!(!group_idle(true, 3));
    assert!(!group_idle(false, 0));
}

#[test]
fn new_group_buffers_its_capacity() {
    let mut engine = AppState::new(String::new());
    let tx = engine.get_or_create_channel(3);
    let mut behind = tx.subscribe();
    let mut current = tx.subscribe();
    for i in 0..GROUP_CAPACITY as u64 {
        tx.send(echo_sync::models::ClipboardMessage::new("d".to_string(), format!("{}", i))).unwrap();
    }
    // a full capacity of messages waits for a receiver
    assert_eq!(current.try_recv().unwrap().content, "0");
    for i in 0..2 * GROUP_CAPACITY as u64 {
        tx.send(echo_sync::models::ClipboardMessage::new("d".to_string(), format!("more {}", i))).unwrap();
    }
    // a receiver that fell far behind loses the oldest messages instead of blocking the sender
    assert!(matches!(behind.try_recv(), Err(tokio::sync::broadcast::error::TryRecvError::Lagged(_))));
}
