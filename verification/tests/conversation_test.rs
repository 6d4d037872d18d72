use mi7_agent::clock::timestamp_from;
use mi7_agent::memory::{ConversationHistory, ConversationMessage, Session, StoredMessage};
use mi7_agent::memory::store::messages_to_delete;

#[test]
fn history_starts_empty() {
    let h = ConversationHistory::new(3);
    assert!(h.is_empty());
    assert_eq!(h.len(), 0);
    assert!(h.get_messages().is_empty());
}

#[test]
fn history_keeps_most_recent() {
    let mut h = ConversationHistory::new(2);
    h.add_message_at("user".to_string(), "one".to_string(), 1);
    h.add_message_at("assistant".to_string(), "two".to_string(), 2);
    h.add_message_at("user".to_string(), "three".to_string(), 3);
    assert_eq!(h.len(), 2);
    let m = h.get_messages();
    assert_eq!(m[0].role, "assistant");
    assert_eq!(m[0].content, "two");
    assert_eq!(m[1].role, "user");
    assert_eq!(m[1].content, "three");
    assert!(m[1].tool_call_id.is_none());
}

#[test]
fn history_with_zero_capacity_keeps_nothing() {
    let mut h = ConversationHistory::new(0);
    h.add_message("user".to_string(), "hi".to_string());
    assert!(h.is_empty());
}

#[test]
fn history_add_message_stamps_and_appends() {
    let mut h = ConversationHistory::default();
    h.add_message("user".to_string(), "hi".to_string());
    assert_eq!(h.len(), 1);
    assert_eq!(h.get_messages()[0].content, "hi");
    for i in 0..20 {
        h.add_message("user".to_string(), i.to_string());
    }
    assert_eq!(h.len(), 10);
    assert_eq!(h.get_messages()[9].content, "19");
}

#[test]
fn history_clear() {
    let mut h = ConversationHistory::new(5);
    h.add_message_at("user".to_string(), "x".to_string(), 0);
    h.clear();
    assert!(h.is_empty());
    assert_eq!(h.len(), 0);
}

#[test]
fn cleanup_counts() {
    assert_eq!(messages_to_delete(5, 10), 0);
    assert_eq!(messages_to_delete(10, 10), 0);
    assert_eq!(messages_to_delete(15, 10), 5);
    assert_eq!(messages_to_delete(0, 0), 0);
}

#[test]
fn records_hold_their_fields() {
    let m = StoredMessage { id: 1, session_id: "s".into(), role: "user".into(), content: "c".into(), timestamp: 9 };
    let s = Session { id: "s".into(), name: "n".into(), created_at: 1, updated_at: 2, message_count: 3 };
    let c = ConversationMessage { role: "user".into(), content: "c".into(), timestamp: 4 };
    assert_eq!(m.id + s.message_count + c.timestamp, 8);
}

#[test]
fn history_after_many_adds_holds_the_last_ones_in_order() {
    for cap in [0usize, 1, 3, 7] {
        for k in [0usize, 1, 3, 5, 9] {
            let mut h = ConversationHistory::new(cap);
            for i in 0..k {
                h.add_message(format!("r{}", i), format!("c{}", i));
            }
            let kept = k.min(cap);
            assert_eq!(h.len(), kept);
            let m = h.get_messages();
            for (j, msg) in m.iter().enumerate() {
                let i = k - kept + j;
                assert_eq!(msg.role, format!("r{}", i));
                assert_eq!(msg.content, format!("c{}", i));
            }
        }
    }
}

#[test]
fn clock_readings_become_timestamps() {
    assert_eq!(timestamp_from(Ok(1_700_000_000)), 1_700_000_000);
    assert_eq!(timestamp_from(Ok(0)), 0);
    assert_eq!(timestamp_from(Err(5)), -5);
    assert_eq!(timestamp_from(Ok(u64::MAX)), i64::MAX);
    assert_eq!(timestamp_from(Err(u64::MAX)), -i64::MAX);
    assert_eq!(timestamp_from(Err(i64::MAX as u64)), -i64::MAX);
}
