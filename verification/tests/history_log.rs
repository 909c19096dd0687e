use wiz_lights_rs::MessageHistory;
use wiz_lights_rs::MessageType;

#[test]
fn test_record_message() {
    let mut history = MessageHistory::new();
    history.record(
        MessageType::Send,
        "{\"method\": \"setPilot\", \"params\": {\"state\": true}}",
        0,
    );

    assert_eq!(history.len(), 1);
}

#[test]
fn test_record_error() {
    let mut history = MessageHistory::new();
    history.record_error("Connection timeout");
    assert_eq!(history.last_error().map(|e| e.as_str()), Some("Connection timeout"));
}

#[test]
fn test_max_entries() {
    let mut history = MessageHistory::with_max_entries(2);
    for i in 0..5 {
        history.record(MessageType::Send, &format!("{{\"method\": \"method{}\"}}", i), i as u64);
    }
    assert_eq!(history.len(), 2);
}

#[test]
fn record_without_method_is_ignored() {
    let mut history = MessageHistory::new();
    history.record(MessageType::Send, "{\"params\": {\"state\": true}}", 0);
    history.record(MessageType::Send, "not json at all", 0);
    assert_eq!(history.len(), 0);
    assert!(history.is_empty());
}

#[test]
fn summary_counts_distinct_methods() {
    let mut history = MessageHistory::new();
    history.record(MessageType::Send, "{\"method\":\"getPilot\"}", 1);
    history.record(MessageType::Send, "{\"method\":\"getPilot\"}", 2);
    history.record(MessageType::Send, "{\"method\":\"setPilot\"}", 3);
    history.record(MessageType::Receive, "{\"method\":\"getPilot\"}", 4);
    let summary = history.summary();
    assert_eq!(summary.send_count, 2);
    assert_eq!(summary.receive_count, 1);
    assert_eq!(summary.push_count, 0);
    assert_eq!(summary.total_entries, 4);
    assert!(summary.last_error.is_none());
}

#[test]
fn clear_forgets_everything() {
    let mut history = MessageHistory::new();
    history.record(MessageType::Push, "{\"method\":\"syncPilot\"}", 9);
    history.record_error("boom");
    history.clear();
    assert_eq!(history.len(), 0);
    assert!(history.last_error().is_none());
    assert_eq!(history.summary().push_count, 0);
}

#[test]
fn oldest_entry_leaves_first() {
    let mut history = MessageHistory::with_max_entries(2);
    history.record(MessageType::Send, "{\"method\":\"a\"}", 1);
    history.record(MessageType::Send, "{\"method\":\"b\"}", 2);
    history.record(MessageType::Send, "{\"method\":\"c\"}", 3);
    let methods: Vec<&str> = history.entries().iter().map(|e| e.method.as_str()).collect();
    assert_eq!(methods, vec!["b", "c"]);
}
