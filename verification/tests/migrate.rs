//! Taking over what older versions left in files.
use alice_engine::agent::memory::Memory;
use alice_engine::agent::roll::SessionEntry;
use alice_engine::legacy::{
    block_name_of, blocks_to_import, entry_lines, migrate_current, migrate_text, migrated_name,
    session_files, CurrentMigration, SessionImport, TextMigration,
};
use alice_engine::registry::Registry;

fn entry(summary: &str) -> SessionEntry {
    SessionEntry {
        first_msg: "m1".to_string(),
        last_msg: "m2".to_string(),
        summary: summary.to_string(),
    }
}

/// Reads the lines that are valid entries.
fn parsed(content: &str) -> Vec<SessionEntry> {
    entry_lines(content)
        .iter()
        .filter_map(|l| serde_json::from_str::<serde_json::Value>(l).ok())
        .map(|v| SessionEntry {
            first_msg: v["first_msg"].as_str().unwrap_or("").to_string(),
            last_msg: v["last_msg"].as_str().unwrap_or("").to_string(),
            summary: v["summary"].as_str().unwrap_or("").to_string(),
        })
        .collect()
}

#[test]
fn test_migrate_knowledge_from_file() {
    match migrate_text("", Some("test knowledge content")) {
        TextMigration::Import { content } => assert_eq!(content, "test knowledge content"),
        other => panic!("unexpected {:?}", other),
    }
    assert_eq!(migrated_name("/m/knowledge.md"), "/m/knowledge.md.migrated");
}

#[test]
fn test_migrate_knowledge_idempotent() {
    assert!(matches!(
        migrate_text("existing knowledge", Some("new content")),
        TextMigration::Skip
    ));
}

#[test]
fn test_migrate_history() {
    match migrate_text("", Some("test history")) {
        TextMigration::Import { content } => assert_eq!(content, "test history"),
        other => panic!("unexpected {:?}", other),
    }
    assert_eq!(migrated_name("history.txt"), "history.txt.migrated");
}

#[test]
fn blank_files_are_not_taken_over() {
    assert!(matches!(migrate_text("", Some(" \n")), TextMigration::Skip));
    assert!(matches!(migrate_text("", None), TextMigration::Skip));
}

#[test]
fn test_migrate_sessions() {
    let jsonl = r#"{"first_msg":"msg1","last_msg":"msg2","summary":"block summary 1"}
{"first_msg":"msg3","last_msg":"msg4","summary":"block summary 2"}"#;
    let files = session_files(0, &vec!["20260301120000.jsonl".to_string()]);
    assert_eq!(files, vec!["20260301120000.jsonl".to_string()]);
    assert_eq!(block_name_of(&files[0]), "20260301120000");
    let entries = parsed(jsonl);
    assert_eq!(entries.len(), 2);
    assert_eq!(entries[0].first_msg, "msg1");
    assert_eq!(entries[1].first_msg, "msg3");
    let imports = vec![SessionImport { block_name: block_name_of(&files[0]), entries }];
    assert_eq!(blocks_to_import(&imports), vec![0]);
    assert_eq!(migrated_name(&files[0]), "20260301120000.jsonl.migrated");
}

#[test]
fn test_migrate_sessions_idempotent() {
    let files = session_files(1, &vec!["20260301120000.jsonl".to_string()]);
    assert!(files.is_empty());
}

#[test]
fn test_migrate_current() {
    let content = "---行为编号[test]开始---\nsome action content\n---行为编号[test]结束---";
    match migrate_current(Some(content), "", "20260301120000") {
        CurrentMigration::Import { action_id, content: c } => {
            assert_eq!(action_id, "20260301120000_legacy");
            assert_eq!(c, content);
        }
        other => panic!("unexpected {:?}", other),
    }
    assert_eq!(migrated_name("current.txt"), "current.txt.migrated");
}

#[test]
fn test_migrate_all_no_files() {
    assert!(matches!(migrate_text("", None), TextMigration::Skip));
    assert!(session_files(0, &Vec::new()).is_empty());
    assert!(matches!(migrate_current(None, "", "t"), CurrentMigration::Skip));
}

#[test]
fn test_rename_migrated() {
    assert_eq!(migrated_name("test.txt"), "test.txt.migrated");
}

#[test]
fn test_migrate_sessions_multiple_files() {
    let names = vec![
        "20260303000000.jsonl".to_string(),
        "notes.txt".to_string(),
        "20260301000000.jsonl".to_string(),
        "20260302000000.jsonl".to_string(),
    ];
    let files = session_files(0, &names);
    let blocks: Vec<String> = files.iter().map(|f| block_name_of(f)).collect();
    assert_eq!(blocks.len(), 3);
    assert_eq!(blocks[0], "20260301000000");
    assert_eq!(blocks[1], "20260302000000");
    assert_eq!(blocks[2], "20260303000000");
    let b = parsed(
        r#"{"first_msg":"b1","last_msg":"b2","summary":"block B1"}
{"first_msg":"b3","last_msg":"b4","summary":"block B2"}"#,
    );
    assert_eq!(b.len(), 2);
    assert_eq!(b[0].summary, "block B1");
    assert_eq!(b[1].summary, "block B2");
}

#[test]
fn test_migrate_current_idempotent() {
    assert!(matches!(
        migrate_current(Some("legacy current content"), "existing content", "t"),
        CurrentMigration::Skip
    ));
    assert!(matches!(
        migrate_current(Some(" \n"), "existing content", "t"),
        CurrentMigration::SetAside
    ));
}

#[test]
fn test_migrate_sessions_invalid_json_lines() {
    let jsonl = r#"{"first_msg":"ok1","last_msg":"ok2","summary":"valid line 1"}
this is not valid json
{"first_msg":"ok3","last_msg":"ok4","summary":"valid line 2"}
{"broken json
"#;
    assert_eq!(entry_lines(jsonl).len(), 4);
    let entries = parsed(jsonl);
    assert_eq!(entries.len(), 2);
    assert_eq!(entries[0].summary, "valid line 1");
    assert_eq!(entries[1].summary, "valid line 2");
}

#[test]
fn test_migrate_all_full() {
    let mut memory = Memory::open("/m", Registry::new());
    match migrate_text(&memory.read_history(), Some("full test history")) {
        TextMigration::Import { content } => {
            memory.write_history(&content);
        }
        other => panic!("unexpected {:?}", other),
    }
    assert_eq!(memory.read_history(), "full test history");
    assert!(matches!(
        migrate_text(&memory.read_history(), Some("full test history")),
        TextMigration::Skip
    ));
    let imports = vec![
        SessionImport { block_name: "20260301000000".to_string(), entries: vec![entry("session entry")] },
        SessionImport { block_name: "20260302000000".to_string(), entries: vec![] },
    ];
    assert_eq!(blocks_to_import(&imports), vec![0]);
    match migrate_current(Some("action content from current.txt"), "", "20260301000000") {
        CurrentMigration::Import { content, .. } => {
            assert!(content.contains("action content from current.txt"));
        }
        other => panic!("unexpected {:?}", other),
    }
}
