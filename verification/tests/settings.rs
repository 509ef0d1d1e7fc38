//! Settings, tables and the places where things are kept.
use alice_engine::agent::alice::{create_instance, new_instances, resolve_max_beats, Alice, InstancePolicy};
use alice_engine::float_bits::Real;
use alice_engine::logging::{
    infer_log_dir, is_expired, log_cutoff, should_rotate, CleanupTotals, LogFile,
};
use alice_engine::model::{InstanceSettings, Message};
use alice_engine::persist::settings::Settings;
use alice_engine::persist::{
    build_create_table_sql, insert_sql, select_all_sql, select_row_sql, update_sql, Collection,
    Column, KvStore, Persist, Value,
};
use alice_engine::registry::Registry;
use alice_engine::startup::{env_or_arg, resolve_dir};
use alice_engine::text::order::sort_texts;
use alice_engine::util::Counter;

fn policy() -> InstancePolicy {
    InstancePolicy {
        session_blocks_limit: 3,
        session_block_kb: 8,
        history_kb: 16,
        safety_max_consecutive_beats: 20,
        safety_cooldown_secs: 60,
        test_instance_prefix: "test-".to_string(),
        test_instance_max_beats: 10,
        default_model: "openai@default".to_string(),
    }
}

fn settings(max_beats: Option<u32>) -> Settings {
    Settings {
        api_key: Some("sk-test".to_string()),
        model: Some("test".to_string()),
        max_beats,
        ..Default::default()
    }
}

#[test]
fn test_instance_settings_max_beats() {
    assert_eq!(settings(Some(20)).max_beats, Some(20));
    assert_eq!(resolve_max_beats("normal", Some(20), &policy()), Some(20));
    assert_eq!(settings(None).max_beats, None);
    assert_eq!(resolve_max_beats("normal", None, &policy()), None);
}

#[test]
fn test_test_prefix_default_max_beats() {
    let foo = Alice::new("test-foo", &settings(None), &policy());
    assert_eq!(foo.pulse.max_beats, Some(10));
    let normal = Alice::new("normal", &settings(None), &policy());
    assert_eq!(normal.pulse.max_beats, None);
}

#[test]
fn instances_need_a_key() {
    let mut own = Settings::default();
    assert!(create_instance("a", &mut own, &Settings::default(), &policy()).is_err());
    let mut own = Settings::default();
    let a = create_instance("a", &mut own, &settings(None), &policy()).unwrap();
    assert_eq!(a.instance_id, "a");
    assert_eq!(own.api_key.as_deref(), Some("sk-test"));
}

#[test]
fn only_new_instances_are_started() {
    let ids = vec!["a".to_string(), "b".to_string()];
    assert_eq!(new_instances(&ids, &vec!["a".to_string()]), vec!["b".to_string()]);
}

#[test]
fn settings_are_merged_by_field() {
    let mut a = Settings { name: Some("a".to_string()), ..Default::default() };
    let b = Settings {
        name: Some("b".to_string()),
        color: Some("red".to_string()),
        ..Default::default()
    };
    a.merge_fallback(&b);
    assert_eq!(a.name.as_deref(), Some("a"));
    assert_eq!(a.color.as_deref(), Some("red"));
    assert_eq!(Settings::default().model_or_default("m"), "m");
    assert!(!Settings::default().privileged_or_default());
    assert!(Settings::default().validate().is_err());
    assert!(settings(None).validate().is_ok());
    assert!(settings(None).has_api_key());
    assert_eq!(settings(None).channel_configs("m").len(), 1);
}

#[test]
fn tables_are_described_in_sql() {
    let schema = vec![
        Column::id("id"),
        Column::text("a"),
        Column::text_optional("b"),
        Column::integer("c"),
        Column::floating("d"),
    ];
    assert_eq!(
        build_create_table_sql("t", &schema),
        "CREATE TABLE IF NOT EXISTS t (id INTEGER PRIMARY KEY AUTOINCREMENT, a TEXT NOT NULL DEFAULT '', b TEXT, c INTEGER NOT NULL DEFAULT 0, d REAL NOT NULL DEFAULT 0.0)"
    );
    assert_eq!(insert_sql("t", &schema), "INSERT INTO t (a, b, c, d) VALUES (?, ?, ?, ?)");
    assert_eq!(select_all_sql("t", &schema), "SELECT id, a, b, c, d FROM t");
    assert_eq!(select_row_sql("t", &schema), "SELECT id, a, b, c, d FROM t WHERE rowid = ?");
    assert_eq!(
        update_sql("t", &schema).unwrap(),
        "UPDATE t SET a = ?, b = ?, c = ?, d = ? WHERE id = ?"
    );
    assert!(update_sql("t", &vec![Column::text("a")]).is_none());
}

#[test]
fn values_are_told_apart() {
    assert_eq!(Value::from("x".to_string()).as_str(), Some("x"));
    assert_eq!(Value::from(3i64).as_i64(), Some(3));
    assert_eq!(Value::from(3i32).as_i64(), Some(3));
    assert!(Value::from(None::<String>).is_null());
    assert_eq!(Value::from(Real { bits: 7 }).as_f64().unwrap().bits, 7);
    assert_eq!(Value::Null.as_str(), None);
}

fn message(content: &str, id: i64) -> Message {
    Message {
        id,
        sender: "user".to_string(),
        role: "user".to_string(),
        content: content.to_string(),
        timestamp: "20260220120000".to_string(),
        read_status: "unread".to_string(),
        msg_type: "chat".to_string(),
    }
}

#[test]
fn messages_survive_storage() {
    let m = message("hello", 5);
    let mut row = vec![Value::from(5i64)];
    row.extend(m.to_row());
    let back = Message::from_row(&row).unwrap();
    assert_eq!(back.id, 5);
    assert_eq!(back.content, "hello");
    assert_eq!(back.timestamp, "20260220120000");
    let mut row2 = vec![Value::from(6i64)];
    row2.extend(message("again", 6).to_row());
    let items: Vec<Message> = Collection::load_all(&vec![row, row2]).unwrap();
    let mut c = Collection::open(items);
    assert_eq!(c.count(), 2);
    c.insert(message("third", 7));
    let changed = c.update_where(|m| m.id > 5, |m| message("new", m.id));
    assert_eq!(changed, vec![1, 2]);
    assert_eq!(c.all()[0].content, "hello");
    assert_eq!(c.all()[1].content, "new");
    c.reload(Vec::new());
    assert_eq!(c.count(), 0);
}

#[test]
fn keys_hold_their_last_value() {
    let mut kv = KvStore::open(
        "kv",
        vec![("a".to_string(), "1".to_string()), ("a".to_string(), "2".to_string())],
    );
    assert_eq!(kv.get("a"), Some("2"));
    kv.set("b", "3");
    assert_eq!(kv.get("b"), Some("3"));
    kv.remove("a");
    assert_eq!(kv.get("a"), None);
    assert_eq!(kv.set_sql(), "INSERT OR REPLACE INTO kv (key, value) VALUES (?, ?)");
    assert_eq!(kv.remove_sql(), "DELETE FROM kv WHERE key = ?");
    assert_eq!(KvStore::select_sql("kv"), "SELECT key, value FROM kv");
    assert!(KvStore::create_sql("kv").contains("PRIMARY KEY"));
}

#[test]
fn registries_keep_one_value_per_key() {
    let mut r: Registry<u32> = Registry::new();
    r.insert("a", 1);
    r.insert("b", 2);
    r.insert("a", 3);
    assert_eq!(r.get("a"), Some(&3));
    assert!(r.contains_key("b"));
    assert_eq!(r.remove("a"), Some(3));
    assert_eq!(r.get("a"), None);
    assert_eq!(r.remove("a"), None);
}

#[test]
fn recent_logs_are_kept() {
    let now: u64 = 100 * 86_400;
    let cutoff = log_cutoff(now, 7);
    assert_eq!(cutoff, 93 * 86_400);
    assert_eq!(log_cutoff(10, 7), 0);
    let old = LogFile { modified_secs: Some(cutoff - 1), size: 10 };
    let fresh = LogFile { modified_secs: Some(cutoff), size: 10 };
    let unknown = LogFile { modified_secs: None, size: 10 };
    assert!(is_expired(&old, cutoff));
    assert!(!is_expired(&fresh, cutoff));
    assert!(!is_expired(&unknown, cutoff));
    let mut totals = CleanupTotals::new();
    totals.note(&old);
    assert_eq!(totals.files.value(), 1);
    assert_eq!(totals.bytes.value(), 10);
    assert!(should_rotate(2 * 1_048_576 + 1, 2));
    assert!(should_rotate(3 * 1_048_576, 2));
    assert!(!should_rotate(2 * 1_048_576, 2));
    assert_eq!(infer_log_dir("/logs", "ab"), "/logs/infer/ab");
}

#[test]
fn directories_come_from_the_environment_first() {
    let arg = "arg".to_string();
    assert_eq!(env_or_arg(Some("env"), Some(&arg)), Some("env".to_string()));
    assert_eq!(env_or_arg(None, Some(&arg)), Some("arg".to_string()));
    assert_eq!(env_or_arg(None, None), None);
    assert_eq!(resolve_dir(None, None, "/base", "logs"), "/base/logs");
    assert_eq!(resolve_dir(Some("/e"), Some(&arg), "/base", "logs"), "/e");
}

#[test]
fn texts_are_sorted() {
    let mut v = vec!["b".to_string(), "a".to_string(), "ab".to_string()];
    sort_texts(&mut v);
    assert_eq!(v, vec!["a".to_string(), "ab".to_string(), "b".to_string()]);
}

#[test]
fn backoff_doubles_up_to_a_cap() {
    let mut c = Counter::new();
    let mut waits: Vec<u64> = Vec::new();
    for _ in 0..6 {
        c.increment();
        waits.push(c.exponential_backoff(5, 10, 60));
    }
    assert!(waits.windows(2).all(|w| w[0] <= w[1]));
    assert_eq!(*waits.last().unwrap(), 60);
    c.reset();
    assert_eq!(c.value(), 0);
    c.advance(u64::MAX);
    c.increment();
    assert_eq!(c.value(), u64::MAX);
}

#[test]
fn cut_texts_end_at_a_character() {
    assert_eq!(alice_engine::util::safe_truncate("日本", 4), "日");
    assert_eq!(alice_engine::util::safe_truncate("abc", 3), "abc");
    assert_eq!(alice_engine::util::safe_truncate("abc", 2), "ab");
}

#[test]
fn empty_fields_are_filled_in() {
    let mut s = InstanceSettings {
        api_key: String::new(),
        model: String::new(),
        user_id: String::new(),
        privileged: true,
        max_beats: Some(3),
        action_separator: None,
        session_blocks_limit: None,
        session_block_kb: None,
        history_kb: None,
        safety_max_consecutive_beats: None,
        safety_cooldown_secs: None,
        extra_models: Vec::new(),
        name: None,
        color: None,
        avatar: None,
    };
    assert!(s.validate().is_err());
    s.apply_env_fallbacks(Some("key".to_string()), None, None, "openai@m");
    assert!(s.validate().is_ok());
    assert_eq!((s.api_key.as_str(), s.model.as_str(), s.user_id.as_str()), ("key", "openai@m", "default"));
    s.apply_env_fallbacks(None, Some("x@y".to_string()), Some("me".to_string()), "openai@n");
    assert_eq!((s.api_key.as_str(), s.model.as_str(), s.user_id.as_str()), ("key", "openai@m", "default"));
    assert!(s.privileged);
    assert_eq!(s.max_beats, Some(3));
}
