use alice_engine::agent::memory::Memory;
use alice_engine::persist::files::FileEffect;
use alice_engine::registry::Registry;

fn setup() -> Memory {
    Memory::open("/tmp/memory", Registry::new())
}

#[test]
fn test_open_empty_files() {
    let memory = setup();
    assert_eq!(memory.read_knowledge(), "");
    assert_eq!(memory.read_history(), "");
    assert_eq!(memory.read_current(), "");
}

#[test]
fn test_open_existing_files() {
    let mut found = Registry::new();
    found.insert("/tmp/memory/knowledge.md", "existing knowledge".to_string());
    found.insert("/tmp/memory/sessions/history.txt", "existing history".to_string());
    found.insert("/tmp/memory/sessions/current.txt", "existing current".to_string());
    let memory = Memory::open("/tmp/memory", found);
    assert_eq!(memory.read_knowledge(), "existing knowledge");
    assert_eq!(memory.read_history(), "existing history");
    assert_eq!(memory.read_current(), "existing current");
}

#[test]
fn test_append_current() {
    let mut memory = setup();
    memory.append_current("line 1\n");
    let effects = memory.append_current("line 2\n");
    assert_eq!(memory.read_current(), "line 1\n\nline 2\n");
    assert_eq!(effects.len(), 1);
    match &effects[0] {
        FileEffect::Write { path, content } => {
            assert_eq!(path, "/tmp/memory/sessions/current.txt");
            assert_eq!(content, "line 1\n\nline 2\n");
        }
        other => panic!("expected a write, got {:?}", other),
    }
}

#[test]
fn test_write_current() {
    let mut memory = setup();
    memory.append_current("old content");
    memory.write_current("new content");
    assert_eq!(memory.read_current(), "new content");
}

#[test]
fn test_session_blocks() {
    let mut memory = setup();
    assert_eq!(memory.list_session_blocks(), Vec::<String>::new());

    memory.write_session_block("20260301120000", "line1\nline2\n");
    assert_eq!(memory.list_session_blocks(), vec!["20260301120000"]);

    let content = memory.read_session_block("20260301120000");
    assert_eq!(content, "line1\nline2\n");

    memory.append_session_block("20260301120000", "line3\n");
    let content = memory.read_session_block("20260301120000");
    assert_eq!(content, "line1\nline2\nline3\n");

    assert!(memory.session_block_size("20260301120000") > 0);
    assert_eq!(memory.session_block_size("20260301120000"), 18);
    assert_eq!(memory.session_block_size("nonexistent"), 0);

    memory.delete_session_block("20260301120000");
    assert_eq!(memory.list_session_blocks(), Vec::<String>::new());

    assert!(memory.delete_session_block("nonexistent").is_empty());
}

#[test]
fn test_session_blocks_sorted() {
    let mut memory = setup();
    memory.write_session_block("20260301150000", "b");
    memory.write_session_block("20260301120000", "a");
    memory.write_session_block("20260301180000", "c");

    let blocks = memory.list_session_blocks();
    assert_eq!(blocks, vec!["20260301120000", "20260301150000", "20260301180000"]);
}

#[test]
fn test_commit_summary() {
    let mut memory = setup();
    memory.append_current("thinking about stuff\n");
    memory.commit_summary(
        "20260301120000",
        "{\"summary\": \"session data\"}\n",
        "# Updated Knowledge\nnew insights",
    );

    let session = memory.read_session_block("20260301120000");
    assert_eq!(session, "{\"summary\": \"session data\"}\n");
    assert_eq!(memory.read_knowledge(), "# Updated Knowledge\nnew insights");
    assert_eq!(memory.read_current(), "");
}

#[test]
fn test_commit_history() {
    let mut memory = setup();
    memory.write_session_block("20260301120000", "old session data\n");
    memory.write_history("old history");

    memory.commit_history("compressed new history", "20260301120000");

    assert_eq!(memory.read_history(), "compressed new history");
    assert!(memory.read_session_block("20260301120000").is_empty());
    assert_eq!(memory.read_last_rolled(), "20260301120000");
}

#[test]
fn test_commit_summary_appends_to_existing_session() {
    let mut memory = setup();
    memory.commit_summary("20260301120000", "line1\n", "knowledge v1");

    memory.append_current("more thinking\n");
    memory.commit_summary("20260301120000", "line2\n", "knowledge v2");

    let session = memory.read_session_block("20260301120000");
    assert_eq!(session, "line1\nline2\n");
    assert_eq!(memory.read_knowledge(), "knowledge v2");
}

#[test]
fn test_memory_dir_accessor() {
    let memory = setup();
    assert_eq!(memory.memory_dir(), "/tmp/memory");
    assert_eq!(memory.sessions_dir(), "/tmp/memory/sessions");
}

#[test]
fn a_summary_clears_the_current_record_last() {
    let mut memory = setup();
    let effects = memory.commit_summary("b1", "x\n", "k");
    assert_eq!(effects.len(), 3);
    assert!(matches!(&effects[0], FileEffect::Append { path, .. } if path == "/tmp/memory/sessions/b1.jsonl"));
    assert!(matches!(&effects[1], FileEffect::Write { path, .. } if path == "/tmp/memory/knowledge.md"));
    assert!(matches!(&effects[2], FileEffect::Write { content, .. } if content.is_empty()));
}

#[test]
fn rolling_removes_a_block_after_the_history_is_written() {
    let mut memory = setup();
    memory.write_session_block("b1", "x\n");
    let effects = memory.commit_history("h", "b1");
    assert_eq!(effects.len(), 3);
    assert!(matches!(&effects[0], FileEffect::Write { content, .. } if content == "h"));
    assert!(matches!(&effects[1], FileEffect::Remove { path } if path == "/tmp/memory/sessions/b1.jsonl"));
    assert!(matches!(&effects[2], FileEffect::Write { path, .. } if path == "/tmp/memory/sessions/.last_rolled"));
    let again = memory.commit_history("h2", "b1");
    assert_eq!(again.len(), 2);
}

#[test]
fn only_new_instances_get_a_first_history() {
    let mut memory = setup();
    let effects = memory.write_initial_history("born today");
    assert_eq!(effects.len(), 1);
    assert!(matches!(
        &effects[0],
        FileEffect::Write { path, content }
            if path == "/tmp/memory/sessions/history.txt" && content == "born today"
    ));
    assert_eq!(memory.read_history(), "born today");
    assert!(memory.write_initial_history("again").is_empty());
    assert_eq!(memory.read_history(), "born today");
}
