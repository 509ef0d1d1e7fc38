use alice_engine::chat::{parse_timestamp_to_millis, ChatHistory};


fn setup() -> ChatHistory {
    ChatHistory::new()
}

#[test]
fn test_open_creates_tables() {
    let ch = setup();
    let count = ch.query(10, 0).total;
    assert_eq!(count, 0);
}

#[test]
fn test_append_and_query() {
    let mut ch = setup();
    ch.append("user1", "user", "hello", "20260220120000");
    ch.append("agent", "assistant", "hi there", "20260220120001");

    let result = ch.query(10, 0);
    assert_eq!(result.total, 2);
    assert_eq!(result.messages.len(), 2);
    assert_eq!(result.messages[0].role, "user");
    assert_eq!(result.messages[1].role, "assistant");
}

#[test]
fn test_query_pagination() {
    let mut ch = setup();
    for i in 0..10 {
        ch.append("user", "user", &format!("msg{}", i), "20260220120000");
    }

    // Get last 3
    let result = ch.query(3, 0);
    assert_eq!(result.messages.len(), 3);
    assert_eq!(result.total, 10);
    assert!(result.has_more);

    // Get 3 before the start_id
    let result2 = ch.query(3, result.start_id);
    assert_eq!(result2.messages.len(), 3);
}

#[test]
fn test_user_message_inbox() {
    let mut ch = setup();

    // Write user messages (unread)
    ch.write_user_message("24007", "hello agent", "20260220120000", "chat");
    ch.write_user_message("24007", "are you there?", "20260220120001", "chat");

    // Count unread
    assert_eq!(ch.count_unread_user_messages(), 2);

    // Read unread (marks as read)
    let msgs = ch.read_unread_user_messages();
    assert_eq!(msgs.len(), 2);
    assert_eq!(msgs[0].content, "hello agent");
    assert_eq!(msgs[1].content, "are you there?");

    // Now count should be 0
    assert_eq!(ch.count_unread_user_messages(), 0);

    // Read again should return empty
    let msgs2 = ch.read_unread_user_messages();
    assert!(msgs2.is_empty());
}

#[test]
fn test_agent_reply_outbox() {
    let mut ch = setup();

    ch.write_agent_reply("alice", "hello user!", "20260220120000");

    let replies = ch.read_unread_agent_replies();
    assert_eq!(replies.len(), 1);
    assert_eq!(replies[0].1, "hello user!");

    // Read again should be empty
    let replies2 = ch.read_unread_agent_replies();
    assert!(replies2.is_empty());
}

#[test]
fn test_engine_status() {
    let mut ch = setup();

    // Initially no status
    assert!(ch.read_status().is_none());

    // Update status
    ch.update_status(r#"{"inferring": true, "log": "/tmp/out.log"}"#);
    let status = ch.read_status().unwrap();
    assert!(status.contains("inferring"));

    // Update again (upsert)
    ch.update_status(r#"{"inferring": false}"#);
    let status2 = ch.read_status().unwrap();
    assert!(status2.contains("false"));
}

#[test]
fn test_get_last_message_time() {
    let mut ch = setup();

    // Empty db
    assert_eq!(ch.get_last_message_time(), 0);

    // Add a message
    ch.append("user", "user", "test", "20260220120000");
    let time = ch.get_last_message_time();
    assert!(time > 0);
}

#[test]
fn test_parse_timestamp() {
    let millis = parse_timestamp_to_millis("20260220120000").unwrap();
    assert!(millis > 0);

    // Invalid
    assert!(parse_timestamp_to_millis("short").is_none());
}

#[test]
fn test_mixed_read_write() {
    let mut ch = setup();

    // User sends message
    ch.write_user_message("24007", "hi", "20260220120000", "chat");

    // Agent reads it
    let inbox = ch.read_unread_user_messages();
    assert_eq!(inbox.len(), 1);

    // Agent replies
    ch.write_agent_reply("alice", "hello!", "20260220120001");

    // Append to history (display)
    ch.append("24007", "user", "hi", "20260220120000");
    ch.append("alice", "assistant", "hello!", "20260220120001");

    // Query should show all messages (inbox + history)
    let result = ch.query(100, 0);
    // 1 user msg (inbox, now read) + 1 agent reply + 2 appended = 4
    assert_eq!(result.total, 4);
}

#[test]
fn ranges_are_read_whole() {
    let mut ch = setup();
    for i in 0..60 {
        ch.write_user_message("u", &format!("m{}", i), "20260220120000", "chat");
    }
    ch.write_user_message("u", "later", "20260220120001", "chat");
    let all = ch.read_messages_in_range("20260220120000", "20260220120000");
    assert_eq!(all.len(), 60);
    assert_eq!(all[59].content, "m59");
    assert_eq!(ch.read_messages_in_range("20260220120000", "20260220120001").len(), 61);
    assert_eq!(ch.count_unread_user_messages(), 61);
}
