use alice_engine::inference::output::{
    truncate_stdout, ActionOutput, ReadMsgEntry, STDOUT_TRUNCATE_LIMIT,
};

#[test]
fn test_truncate_stdout_short() {
    let (text, truncated) = truncate_stdout("hello");
    assert_eq!(text, "hello");
    assert!(!truncated);
}

#[test]
fn test_truncate_stdout_long() {
    let long = "x".repeat(STDOUT_TRUNCATE_LIMIT + 100);
    let (result, truncated) = truncate_stdout(&long);
    assert!(result.contains("[truncated"));
    assert!(result.len() < long.len());
    assert!(truncated);
}

#[test]
fn test_msg_id_extraction() {
    let send = ActionOutput::SendMsg { msg_id: "ts123".into() };
    assert_eq!(send.msg_id(), Some("ts123"));

    let empty = ActionOutput::Empty;
    assert_eq!(empty.msg_id(), None);
}

#[test]
fn test_msg_ids_extraction() {
    let read = ActionOutput::ReadMsg {
        entries: vec![
            ReadMsgEntry {
                role: "user".into(),
                sender: "user".into(),
                timestamp: "ts1".into(),
                content: "a".into(),
                is_known: true,
            },
            ReadMsgEntry {
                role: "user".into(),
                sender: "user".into(),
                timestamp: "ts2".into(),
                content: "b".into(),
                is_known: true,
            },
        ],
    };
    let ids = read.msg_ids();
    assert_eq!(ids, vec!["ts1", "ts2"]);
}

#[test]
fn test_truncate_stdout() {
    let short = "hello";
    let (text, was_truncated) = truncate_stdout(short);
    assert_eq!(text, "hello");
    assert!(!was_truncated);

    let long = "x".repeat(102_400 + 100);
    let (text, was_truncated) = truncate_stdout(&long);
    assert!(text.contains("[truncated"));
    assert!(text.len() < long.len());
    assert!(was_truncated);
}
