use alice_engine::inference::Action;
use alice_engine::stream::{InferenceStream, RecvResult, StreamItem};

#[test]
fn test_stream_item_action() {
    let item = StreamItem::Action(Action::Idle { timeout_secs: None });
    match item {
        StreamItem::Action(Action::Idle { timeout_secs: None }) => {}
        _ => panic!("Expected Action(Idle)"),
    }
}

#[test]
fn test_stream_item_done() {
    let item = StreamItem::Done("full output".to_string(), None);
    match item {
        StreamItem::Done(text, _) => assert_eq!(text, "full output"),
        _ => panic!("Expected Done"),
    }
}

#[test]
fn test_stream_item_error() {
    let item = StreamItem::Error("timeout".to_string());
    match item {
        StreamItem::Error(msg) => assert_eq!(msg, "timeout"),
        _ => panic!("Expected Error"),
    }
}

#[test]
fn test_mock_stream() {
    let mut stream = InferenceStream::mock(vec![
        StreamItem::Action(Action::Idle { timeout_secs: None }),
        StreamItem::Action(Action::Thinking { content: "hmm".to_string() }),
        StreamItem::Done("all done".to_string(), None),
    ]);

    // First item
    match stream.next().unwrap() {
        StreamItem::Action(Action::Idle { timeout_secs: None }) => {}
        _ => panic!("Expected Idle"),
    }

    // Second item
    match stream.next().unwrap() {
        StreamItem::Action(Action::Thinking { content }) => assert_eq!(content, "hmm"),
        _ => panic!("Expected Thinking"),
    }

    // Third item
    match stream.next().unwrap() {
        StreamItem::Done(text, _) => assert_eq!(text, "all done"),
        _ => panic!("Expected Done"),
    }

    // Channel closed
    assert!(stream.next().is_none());
}

#[test]
fn test_mock_stream_disconnected() {
    let mut stream = InferenceStream::mock(vec![]);
    // Channel already closed, should return Disconnected
    match stream.next_or_timeout() {
        RecvResult::Disconnected => {}
        _ => panic!("Expected Disconnected"),
    }
}
