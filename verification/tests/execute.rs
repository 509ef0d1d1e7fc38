//! What actions come to.
use std::time::Duration;

use alice_engine::action::execute::{
    address_message, check_shell, execute_action, execute_create_instance, execute_read_msg,
    execute_replace_in_file, execute_script, execute_set_profile, finish_send, initial_knowledge,
    make_shell, plan_summary, plan_write, resolve_recipient_id, start_send, summary_block,
    summary_output, write_output, ActionTask, SendStep, WritePlan,
};
use alice_engine::agent::memory::Memory;
use alice_engine::agent::transaction::Transaction;
use alice_engine::chat::ChatHistory;
use alice_engine::external::shell::ShellOutput;
use alice_engine::external::skeleton::SkeletonConfig;
use alice_engine::hub::contacts::ContactInfo;
use alice_engine::inference::output::ActionOutput;
use alice_engine::inference::Action;
use alice_engine::persist::settings::Settings;
use alice_engine::registry::Registry;

fn shell_output(output: &str, exit_code: Option<i32>) -> ShellOutput {
    ShellOutput {
        output: output.to_string(),
        exit_code,
        truncated: false,
        duration: Duration::from_millis(1200),
    }
}

fn contact(id: &str, name: Option<&str>) -> ContactInfo {
    ContactInfo { id: id.to_string(), name: name.map(|n| n.to_string()) }
}

#[test]
fn test_execute_idle() {
    let result = execute_action(&Action::Idle { timeout_secs: None });
    assert!(matches!(result, ActionTask::Done(ActionOutput::Empty)));
}

#[test]
fn test_execute_thinking() {
    let action = Action::Thinking { content: "deep thought".to_string() };
    let result = execute_action(&action);
    assert!(matches!(result, ActionTask::Done(ActionOutput::Empty)));
}

#[test]
fn test_execute_script() {
    let action = Action::Script { content: "echo hello_rust".to_string() };
    match execute_action(&action) {
        ActionTask::Run { script } => assert_eq!(script, "echo hello_rust"),
        other => panic!("unexpected task {:?}", other),
    }
    let result = execute_script(&shell_output("hello_rust\n", Some(0)), "0.1".to_string());
    match result {
        ActionOutput::Script { ref stdout, .. } => assert!(stdout.contains("hello_rust")),
        _ => panic!("Expected ActionOutput::Script, got {:?}", result),
    }
}

#[test]
fn test_execute_script_exit_code() {
    let result = execute_script(&shell_output("", Some(42)), "0.0".to_string());
    match result {
        ActionOutput::Script { exit_code, .. } => assert_eq!(exit_code, 42),
        _ => panic!("Expected ActionOutput::Script, got {:?}", result),
    }
}

#[test]
fn test_execute_write_and_read_file() {
    match plan_write("/ws", "test.txt", true) {
        Ok(WritePlan::Direct { path }) => assert_eq!(path, "/ws/test.txt"),
        other => panic!("unexpected plan {:?}", other),
    }
    let config = SkeletonConfig::get();
    let result = write_output(&config, "test.txt", "hello from rust");
    match result {
        ActionOutput::WriteFile { bytes, lines, .. } => {
            assert_eq!(bytes, 15);
            assert_eq!(lines, 1);
        }
        _ => panic!("Expected ActionOutput::WriteFile, got {:?}", result),
    }
}

#[test]
fn test_execute_replace_in_file() {
    let (result, content) = execute_replace_in_file("hello world", "hello", "goodbye");
    assert!(matches!(result, ActionOutput::ReplaceInFile { match_count: 1, .. }));
    assert_eq!(content.unwrap(), "goodbye world");
}

#[test]
fn replacing_needs_exactly_one_match() {
    let (none, kept) = execute_replace_in_file("hello world", "absent", "x");
    assert!(matches!(none, ActionOutput::ReplaceInFileFailed { match_count: 0, .. }));
    assert!(kept.is_none());
    let (two, kept) = execute_replace_in_file("aXbXc", "X", "y");
    assert!(matches!(two, ActionOutput::ReplaceInFileFailed { match_count: 2, .. }));
    assert!(kept.is_none());
    let (empty, kept) = execute_replace_in_file("abc", "", "y");
    assert!(matches!(empty, ActionOutput::ReplaceInFileFailed { match_count: 4, .. }));
    assert!(kept.is_none());
}

#[test]
fn test_execute_read_msg_empty() {
    let mut chat = ChatHistory::new();
    assert!(matches!(execute_action(&Action::ReadMsg), ActionTask::ReadInbox));
    let inbox = chat.read_unread_user_messages();
    match execute_read_msg(&inbox, &Vec::new()) {
        ActionOutput::ReadMsg { entries } => {
            assert!(entries.is_empty(), "Expected empty entries for empty inbox");
        }
        other => panic!("Expected ActionOutput::ReadMsg, got {:?}", other),
    }
}

#[test]
fn test_execute_read_msg_with_messages() {
    let mut chat = ChatHistory::new();
    chat.write_user_message("user", "hello agent", "20260220120000", "chat");
    chat.write_user_message("user", "how are you?", "20260220120001", "chat");
    let inbox = chat.read_unread_user_messages();
    match execute_read_msg(&inbox, &Vec::new()) {
        ActionOutput::ReadMsg { entries } => {
            assert_eq!(entries.len(), 2);
            assert_eq!(entries[0].content, "hello agent");
            assert_eq!(entries[0].timestamp, "20260220120000");
            assert_eq!(entries[0].sender, "user");
            assert!(entries[0].is_known);
            assert_eq!(entries[1].content, "how are you?");
            assert_eq!(entries[1].timestamp, "20260220120001");
        }
        other => panic!("Expected ActionOutput::ReadMsg, got {:?}", other),
    }
    assert_eq!(chat.count_unread_user_messages(), 0);
}

#[test]
fn senders_are_known_by_contact() {
    let mut chat = ChatHistory::new();
    chat.write_user_message("stranger", "psst", "20260220120000", "chat");
    chat.write_user_message("48f5fd", "hi", "20260220120001", "chat");
    let inbox = chat.read_unread_user_messages();
    match execute_read_msg(&inbox, &vec!["48f5fd".to_string()]) {
        ActionOutput::ReadMsg { entries } => {
            assert!(!entries[0].is_known);
            assert!(entries[1].is_known);
        }
        other => panic!("Expected ActionOutput::ReadMsg, got {:?}", other),
    }
}

#[test]
fn test_execute_send_msg_to_user() {
    let mut chat = ChatHistory::new();
    let mut tx = Transaction::new("test");
    assert!(matches!(start_send(&mut tx, "user", false), SendStep::ToUser));
    chat.write_agent_reply("test", "hello user!", "20260220120000");
    let result = finish_send(&mut tx, "user", Some("20260220120000".to_string()));
    match result {
        ActionOutput::SendMsg { ref msg_id } => {
            assert!(!msg_id.is_empty(), "msg_id should not be empty");
        }
        _ => panic!("Expected ActionOutput::SendMsg, got {:?}", result),
    }
    let replies = chat.read_unread_agent_replies();
    assert_eq!(replies.len(), 1);
    assert_eq!(replies[0].1, "hello user!");
}

#[test]
fn test_execute_send_msg_no_extension_fails() {
    let mut tx = Transaction::new("test");
    match start_send(&mut tx, "some_agent", false) {
        SendStep::Done(ActionOutput::SendMsgFailed { error }) => {
            assert!(error.contains("通讯服务"), "Error should mention 通讯服务, got: {}", error);
        }
        other => panic!("Expected a failure, got {:?}", other),
    }
}

#[test]
fn test_send_msg_failure_sets_cancel_idle() {
    let mut tx = Transaction::new("test");
    assert!(!tx.cancel_idle);
    let _step = start_send(&mut tx, "nonexistent_agent", false);
    assert!(tx.cancel_idle, "cancel_idle should be true after send_msg failure");
}

#[test]
fn test_send_msg_to_user_does_not_set_cancel_idle() {
    let mut tx = Transaction::new("test");
    assert!(!tx.cancel_idle);
    assert!(matches!(start_send(&mut tx, "user", false), SendStep::ToUser));
    let result = finish_send(&mut tx, "user", Some("20260220120000".to_string()));
    assert!(matches!(result, ActionOutput::SendMsg { .. }));
    assert!(!tx.cancel_idle, "cancel_idle should remain false after successful send_msg");
}

#[test]
fn recipients_are_resolved_by_id_name_or_both() {
    let cs = vec![contact("aa11", Some("Bob")), contact("48f5fd", Some("进化三号（产品）"))];
    assert_eq!(resolve_recipient_id("aa11", &cs), Some("aa11".to_string()));
    assert_eq!(resolve_recipient_id("Bob", &cs), Some("aa11".to_string()));
    assert_eq!(
        resolve_recipient_id("进化三号（产品）(48f5fd)", &cs),
        Some("48f5fd".to_string())
    );
    assert_eq!(resolve_recipient_id("Eve(ffff)", &cs), None);
    assert_eq!(resolve_recipient_id("Bob()", &cs), None);
}

#[test]
fn an_unknown_recipient_cancels_idling() {
    let mut tx = Transaction::new("test");
    assert!(matches!(start_send(&mut tx, "Eve", true), SendStep::NeedContacts));
    match address_message(&mut tx, "Eve", &vec![contact("aa11", Some("Bob"))]) {
        SendStep::Done(ActionOutput::SendMsgFailed { error }) => assert!(error.contains("Eve")),
        other => panic!("unexpected step {:?}", other),
    }
    assert!(tx.cancel_idle);
    match address_message(&mut tx, "Bob", &vec![contact("aa11", Some("Bob"))]) {
        SendStep::Relay { to } => assert_eq!(to, "aa11"),
        other => panic!("unexpected step {:?}", other),
    }
}

#[test]
fn a_refused_relay_is_a_failure() {
    let mut tx = Transaction::new("test");
    let out = finish_send(&mut tx, "Bob", None);
    assert!(matches!(out, ActionOutput::SendMsgFailed { .. }));
    assert!(tx.cancel_idle);
}

#[test]
fn test_execute_summary_empty_current() {
    let plan = plan_summary("", "some summary", None, None);
    assert!(plan.is_none());
    let result = summary_output(plan, String::new(), "", 0);
    assert!(matches!(result, ActionOutput::SummaryEmpty));
}

#[test]
fn test_execute_summary() {
    let mut memory = Memory::open("/m", Registry::new());
    memory.append_current("hello\nhi back\n");
    let plan = plan_summary(
        memory.read_current().as_str(),
        "Alice read a greeting and replied",
        Some("20260223155500".to_string()),
        Some("20260223160100".to_string()),
    );
    let p = plan.unwrap();
    assert_eq!(p.first_msg, "20260223155500");
    assert_eq!(p.last_msg, "20260223160100");
    assert_eq!(p.msg_range, "20260223155500 ~ 20260223160100");
    assert!(p.summary.contains("Alice read a greeting and replied"));
    let line = p.summary.clone();
    memory.commit_summary("20260223160100", line.as_str(), "");
    let result = summary_output(Some(p), "20260223160100".to_string(), "", 2);
    match result {
        ActionOutput::Summary { msg_count, .. } => {
            assert_eq!(msg_count, 2, "Should have 2 message IDs");
        }
        _ => panic!("Expected ActionOutput::Summary, got {:?}", result),
    }
    assert!(memory.read_current().is_empty());
    let blocks = memory.list_session_blocks();
    assert_eq!(blocks.len(), 1);
    assert!(memory.read_session_block(&blocks[0]).contains("Alice read a greeting and replied"));
}

#[test]
fn test_summary_creates_new_block_when_full() {
    let mut memory = Memory::open("/m", Registry::new());
    let large = "x".repeat(8 * 1024);
    memory.append_session_block("20260223100000", large.as_str());
    memory.append_current("something\n");
    let size = memory.session_block_size("20260223100000");
    assert!(size >= 8 * 1024);
    let last = Some(("20260223100000".to_string(), size));
    let name = summary_block(last, 12, 8, "20260223160000");
    memory.commit_summary(&name, "test summary", "");
    let blocks = memory.list_session_blocks();
    assert_eq!(blocks.len(), 2);
    assert_eq!(blocks[0], "20260223100000");
    assert_ne!(blocks[1], "20260223100000");
}

#[test]
fn blocks_are_filled_before_a_new_one_is_begun() {
    assert_eq!(summary_block(None, 9, 8, "t"), "t");
    assert_eq!(summary_block(Some(("b".to_string(), 8183)), 9, 8, "t"), "b");
    assert_eq!(summary_block(Some(("b".to_string(), 8184)), 9, 8, "t"), "t");
    assert_eq!(summary_block(Some(("b".to_string(), 8193)), 0, 8, "t"), "t");
}

#[test]
fn distilling_trims_the_summary() {
    let action = Action::Distill {
        target_action_id: "20260223160000_aaaaaa".to_string(),
        summary: "  short \n".to_string(),
    };
    match execute_action(&action) {
        ActionTask::Distill { target_action_id, summary } => {
            assert_eq!(target_action_id, "20260223160000_aaaaaa");
            assert_eq!(summary, "short");
        }
        other => panic!("unexpected task {:?}", other),
    }
}

#[test]
fn profiles_are_changed_by_key() {
    let current = Settings { color: Some("red".to_string()), ..Default::default() };
    let (next, out) = execute_set_profile("name: Bob\nAvatar: 🦊\n", &current);
    let s = next.unwrap();
    assert_eq!(s.name.as_deref(), Some("Bob"));
    assert_eq!(s.avatar.as_deref(), Some("🦊"));
    assert_eq!(s.color.as_deref(), Some("red"));
    match out {
        ActionOutput::SetProfile { updated } => assert_eq!(updated, "name=Bob, avatar=🦊"),
        other => panic!("unexpected output {:?}", other),
    }
}

#[test]
fn unknown_profile_keys_are_refused() {
    let (next, out) = execute_set_profile("name: Bob\nsize: 3\n", &Settings::default());
    assert!(next.is_none());
    match out {
        ActionOutput::SetProfileFailed { unknown_key } => assert_eq!(unknown_key, "size"),
        other => panic!("unexpected output {:?}", other),
    }
}

#[test]
fn created_instances_report_their_knowledge() {
    assert_eq!(initial_knowledge(""), None);
    assert_eq!(initial_knowledge("know"), Some("know".to_string()));
    match execute_create_instance("ab12".to_string(), "Bob", "知识") {
        ActionOutput::CreateInstance { instance_id, name, knowledge_bytes } => {
            assert_eq!(instance_id, "ab12");
            assert_eq!(name, "Bob");
            assert_eq!(knowledge_bytes, 6);
        }
        other => panic!("unexpected output {:?}", other),
    }
}

#[test]
fn paths_that_step_up_are_refused() {
    let e = plan_write("/ws", "../x", false).unwrap_err();
    assert_eq!(e, "Path traversal rejected: ../x");
    match plan_write("/ws", "a/b", false) {
        Ok(WritePlan::ByShell { path }) => assert_eq!(path, "/ws/a/b"),
        other => panic!("unexpected plan {:?}", other),
    }
}

#[test]
fn failed_commands_are_reported() {
    assert!(check_shell("write_file", &shell_output("", Some(0))).is_ok());
    let e = check_shell("write_file", &shell_output(" denied \n", Some(13))).unwrap_err();
    assert!(e.contains("13"));
    assert!(e.contains("denied"));
}

#[test]
fn privileged_instances_run_as_the_engine() {
    assert_eq!(make_shell("/ws", true, "ab12", true).sandbox_user, None);
    assert_eq!(make_shell("/ws", false, "ab12", false).sandbox_user, None);
    assert_eq!(
        make_shell("/ws", false, "ab12", true).sandbox_user,
        Some("agent-ab12".to_string())
    );
}
