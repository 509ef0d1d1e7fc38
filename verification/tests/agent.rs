use alice_engine::agent::{SequenceGuard, SequenceVerdict, Transaction};
use alice_engine::inference::Action;

#[test]
fn test_transaction_creation() {
    let tx = Transaction::new("test");
    assert!(tx.action_records.is_empty());
}

#[test]
fn test_transaction_action_recording() {
    let mut tx = Transaction::new("test");
    let action_id = tx.record_doing(
        Action::Idle { timeout_secs: None },
    );
    assert_eq!(tx.action_records.len(), 1);

    tx.record_done(&action_id);
    assert!(tx.action_records[0].duration.is_some());
}

#[test]
fn test_generate_action_id_format() {
    let tx = Transaction::new("test");
    let id = tx.generate_action_id();
    assert!(id.len() >= 20);
    assert!(id.contains('_'));
}

#[test]
fn test_sequence_guard_normal_allows_all() {
    let mut guard = SequenceGuard::new("test");
    assert_eq!(
        guard.check(&Action::Thinking {
            content: "hi".into()
        }),
        SequenceVerdict::Allow
    );
}

#[test]
fn test_sequence_guard_normal_to_idle() {
    let mut guard = SequenceGuard::new("test");
    assert_eq!(
        guard.check(&Action::Idle { timeout_secs: None }),
        SequenceVerdict::Allow
    );
}

#[test]
fn test_sequence_guard_idle_then_reject() {
    let mut guard = SequenceGuard::new("test");
    assert_eq!(
        guard.check(&Action::Idle { timeout_secs: None }),
        SequenceVerdict::Allow
    );
    match guard.check(&Action::ReadMsg) {
        SequenceVerdict::Reject(_) => {}
        other => panic!("Expected Reject, got {:?}", other),
    }
}

#[test]
fn test_sequence_guard_idle_then_idle_ignored() {
    let mut guard = SequenceGuard::new("test");
    assert_eq!(
        guard.check(&Action::Idle { timeout_secs: None }),
        SequenceVerdict::Allow
    );
    assert_eq!(
        guard.check(&Action::Idle { timeout_secs: None }),
        SequenceVerdict::Ignore
    );
}

#[test]
fn test_sequence_guard_blocking_then_blocking_allowed() {
    let mut guard = SequenceGuard::new("test");
    let script = Action::Script {
        content: "echo hi".into(),
    };
    assert_eq!(guard.check(&script), SequenceVerdict::Allow);
    assert_eq!(guard.check(&Action::ReadMsg), SequenceVerdict::Allow);
}

#[test]
fn test_sequence_guard_blocking_then_idle_ignored() {
    let mut guard = SequenceGuard::new("test");
    let script = Action::Script {
        content: "echo hi".into(),
    };
    assert_eq!(guard.check(&script), SequenceVerdict::Allow);
    assert_eq!(
        guard.check(&Action::Idle { timeout_secs: None }),
        SequenceVerdict::Ignore
    );
}

#[test]
fn test_sequence_guard_blocking_then_nonblocking_rejected() {
    let mut guard = SequenceGuard::new("test");
    let script = Action::Script {
        content: "echo hi".into(),
    };
    assert_eq!(guard.check(&script), SequenceVerdict::Allow);
    match guard.check(&Action::Thinking {
        content: "hmm".into(),
    }) {
        SequenceVerdict::Reject(_) => {}
        other => panic!("Expected Reject, got {:?}", other),
    }
}

#[test]
fn messages_do_not_follow_blocking_actions() {
    let mut guard = SequenceGuard::new("test");
    let script = Action::Script {
        content: "echo hi".into(),
    };
    assert_eq!(guard.check(&script), SequenceVerdict::Allow);
    let message = Action::SendMsg {
        recipient: "u".into(),
        content: "hi".into(),
    };
    assert!(matches!(guard.check(&message), SequenceVerdict::Reject(_)));
    assert_eq!(guard.check(&Action::ReadMsg), SequenceVerdict::Allow);
}

#[test]
fn test_sequence_guard_nonblocking_chain() {
    let mut guard = SequenceGuard::new("test");
    assert_eq!(
        guard.check(&Action::Thinking {
            content: "a".into()
        }),
        SequenceVerdict::Allow
    );
    assert_eq!(
        guard.check(&Action::SendMsg {
            recipient: "u".into(),
            content: "hi".into()
        }),
        SequenceVerdict::Allow
    );
    assert_eq!(
        guard.check(&Action::WriteFile {
            path: "f".into(),
            content: "c".into()
        }),
        SequenceVerdict::Allow
    );
}

#[test]
fn test_sequence_guard_bab_pattern() {
    let mut guard = SequenceGuard::new("test");
    assert_eq!(
        guard.check(&Action::Thinking {
            content: "plan".into()
        }),
        SequenceVerdict::Allow
    );
    assert_eq!(
        guard.check(&Action::Script {
            content: "echo hi".into()
        }),
        SequenceVerdict::Allow
    );
    match guard.check(&Action::Thinking {
        content: "reflect".into(),
    }) {
        SequenceVerdict::Reject(_) => {}
        other => panic!("Expected Reject, got {:?}", other),
    }
}

#[test]
fn test_action_is_blocking() {
    assert!(Action::Script { content: "".into() }.is_blocking());
    assert!(Action::ReadMsg.is_blocking());

    assert!(!Action::Idle { timeout_secs: None }.is_blocking());
    assert!(!Action::Thinking { content: "".into() }.is_blocking());
    assert!(!Action::SendMsg {
        recipient: "".into(),
        content: "".into()
    }
    .is_blocking());
    assert!(!Action::WriteFile {
        path: "".into(),
        content: "".into()
    }
    .is_blocking());
}
