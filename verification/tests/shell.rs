//! Commands, their output, and what comes over the wire.
use std::time::Duration;

use alice_engine::agent::transaction::{fresh_action_id, make_action_id, Transaction};
use alice_engine::clock::random_token;
use alice_engine::external::llm::{
    api_error, prepare_request, read_sync_response, read_usage, resolve_model,
    stream_timeout_error, LlmConfig, SseChoice, SseResponse, SseUsage, StreamCollector,
};
use alice_engine::external::shell::{
    available_mb, escape_quotes, first_sandbox_step, marked_write_script, next_sandbox_step,
    resolve_action_path, sandbox_user_name, OutputCollector, SandboxStep, Shell, ShellOutput,
};
use alice_engine::external::vision::{image_data_uri, infer_image_media_type, is_data_uri};
use alice_engine::float_bits::Real;
use alice_engine::inference::Action;

fn choice(v: &serde_json::Value) -> SseChoice {
    SseChoice {
        content: v["delta"]["content"].as_str().map(|s| s.to_string()),
        finish_reason: v["finish_reason"].as_str().map(|s| s.to_string()),
    }
}

fn response(json: &str) -> SseResponse {
    let v: serde_json::Value = serde_json::from_str(json).unwrap();
    let choices = v["choices"].as_array().unwrap().iter().map(choice).collect();
    SseResponse { choices, usage: None }
}

#[test]
fn test_sse_response_parse() {
    let json = r#"{"choices":[{"delta":{"content":"hello"},"finish_reason":null}]}"#;
    let resp = response(json);
    assert_eq!(resp.choices.len(), 1);
    assert_eq!(resp.choices[0].content.as_deref(), Some("hello"));
    let mut c = StreamCollector::new();
    assert_eq!(c.absorb(&resp), "hello");
}

#[test]
fn test_sse_response_empty_delta() {
    let json = r#"{"choices":[{"delta":{},"finish_reason":null}]}"#;
    let resp = response(json);
    assert!(resp.choices[0].content.is_none());
    let mut c = StreamCollector::new();
    assert_eq!(c.absorb(&resp), "");
}

#[test]
fn test_sse_response_finish() {
    let json = r#"{"choices":[{"delta":{},"finish_reason":"stop"}]}"#;
    let resp = response(json);
    assert_eq!(resp.choices[0].finish_reason.as_deref(), Some("stop"));
}

#[test]
fn streams_are_read_line_by_line() {
    let mut c = StreamCollector::new();
    assert!(c.feed("data: {\"a\"").is_empty());
    assert_eq!(c.feed(":1}\n\ndata:x\ndata: [DONE]\n: note\nda"), vec!["{\"a\":1}", "x"]);
    assert_eq!(c.sse_buffer, "da");
    assert_eq!(c.feed_bytes(b"ta: \xffz\n"), vec!["\u{fffd}z"]);
}

#[test]
fn the_last_usage_counts() {
    let mut c = StreamCollector::new();
    let usage = |p: Option<u64>| SseResponse {
        choices: vec![],
        usage: Some(SseUsage { prompt_tokens: p, completion_tokens: Some(2) }),
    };
    c.absorb(&usage(Some(1)));
    c.absorb(&usage(None));
    let (text, u) = c.finish();
    assert_eq!(text, "");
    assert_eq!(u.unwrap().input_tokens, 0);
    assert!(read_usage(&None).is_none());
}

#[test]
fn whole_answers_are_read() {
    let resp = SseResponse {
        choices: vec![SseChoice { content: Some("hi".to_string()), finish_reason: None }],
        usage: Some(SseUsage { prompt_tokens: Some(3), completion_tokens: None }),
    };
    let (text, u) = read_sync_response(&resp);
    assert_eq!(text, "hi");
    assert_eq!(u.unwrap().input_tokens, 3);
    assert_eq!(api_error("LLM", "500", "oops"), "LLM API error 500: oops");
    assert!(stream_timeout_error().contains("60 seconds"));
}

#[test]
fn models_name_their_provider() {
    let (url, id) = resolve_model("openrouter@a/b");
    assert!(url.contains("openrouter"));
    assert_eq!(id, "a/b");
    let (url, id) = resolve_model("https://llm.example/v1@m");
    assert!(url.starts_with("https://llm.example/v1"));
    assert_eq!(id, "m");
    let config = LlmConfig {
        model: "openai@m".to_string(),
        api_key: "k".to_string(),
        temperature: None,
        max_tokens: None,
    };
    let q = prepare_request(&config, 4096, Real { bits: 0 }, true);
    assert_eq!(q.authorization, "Bearer k");
    assert_eq!(q.model_id, "m");
    assert_eq!(q.max_tokens, 4096);
    assert!(q.stream);
}

#[test]
fn output_is_cut_and_read_as_text() {
    let mut c = OutputCollector::new(4);
    assert_eq!(c.wanted(), 5);
    c.take(b"ab");
    assert_eq!(c.wanted(), 3);
    c.take(b"cdef");
    assert_eq!(c.wanted(), 0);
    let o = c.finish(Some(0), Duration::from_millis(5));
    assert_eq!(o.output, "abcd");
    assert!(o.truncated);
    assert!(o.success());
    let mut c = OutputCollector::new(4);
    c.take(b"abcd");
    assert_eq!(c.wanted(), 1);
    assert!(!c.finish(Some(0), Duration::from_millis(5)).truncated);
    let mut c = OutputCollector::new(100);
    c.take(&[0xff, b'x']);
    let o = c.finish(None, Duration::from_millis(5));
    assert_eq!(o.output, "\u{fffd}x");
    assert!(!o.truncated);
    assert!(!o.success());
    assert_eq!(o.exit_code_display(), "unknown");
}

#[test]
fn test_exit_code_is_shown() {
    let o = ShellOutput {
        output: String::new(),
        exit_code: Some(42),
        truncated: false,
        duration: Duration::from_millis(1),
    };
    assert_eq!(o.exit_code_display(), "42");
}

#[test]
fn paths_are_quoted() {
    assert_eq!(escape_quotes("a'b"), "a'\\''b");
    let s = marked_write_script("/d/f", "text", "HEREDOC_1");
    assert!(s.contains("mkdir -p"));
    assert!(s.contains("text"));
    assert!(s.contains("HEREDOC_1"));
}

#[test]
fn commands_run_as_the_sandbox_user() {
    let plain = Shell::new("/ws".to_string(), None).with_timeout(5).with_max_output(9);
    assert_eq!(plain.timeout_ms, 5);
    assert_eq!(plain.max_output, 9);
    let p = plain.exec("echo x");
    assert_eq!(p.dir.as_deref(), Some("/ws"));
    let boxed = Shell::new("/ws".to_string(), Some("agent-a".to_string()));
    let q = boxed.exec("echo x");
    assert_ne!(p.program, q.program);
    assert!(q.args.iter().any(|a| a.contains("agent-a")));
    let w = boxed.write_file("/ws/a", "content");
    let joined = format!("{} {}", w.args.join(" "), w.stdin);
    assert!(joined.contains("HEREDOC_"));
    assert!(joined.contains("content"));
    assert_ne!(
        format!("{}{}", w.args.join(" "), w.stdin),
        {
            let v = boxed.write_file("/ws/a", "content");
            format!("{}{}", v.args.join(" "), v.stdin)
        }
    );
    let r = boxed.read_file("/ws/a");
    assert!(format!("{} {}", r.args.join(" "), r.stdin).contains("cat '/ws/a'"));
}

#[test]
fn action_paths_lie_in_the_workspace() {
    assert_eq!(resolve_action_path("/ws", "a/b"), Ok("/ws/a/b".to_string()));
    assert_eq!(resolve_action_path("/ws", "/abs"), Ok("/abs".to_string()));
    assert!(resolve_action_path("/ws", "a/../../b").is_err());
}

#[test]
fn free_space_is_read_from_a_report() {
    assert_eq!(available_mb("Avail\n 123M\n"), Some(123));
    assert_eq!(available_mb("Avail\n"), None);
    assert_eq!(available_mb("Avail\nx\n"), None);
}

#[test]
fn sandbox_users_are_made_once() {
    let user = sandbox_user_name("agent-", "ab");
    assert_eq!(user, "agent-ab");
    let first = first_sandbox_step(&user);
    assert!(matches!(first, SandboxStep::Check { .. }));
    let there = next_sandbox_step(first, true, "", &user, "/ws");
    assert!(matches!(there, SandboxStep::Own { .. }));
    let made = next_sandbox_step(first_sandbox_step(&user), false, "", &user, "/ws");
    assert!(matches!(made, SandboxStep::Create { .. }));
    let failed = next_sandbox_step(made, false, "no rights", &user, "/ws");
    assert!(matches!(failed, SandboxStep::Failed(_)));
    assert!(matches!(next_sandbox_step(there, false, "", &user, "/ws"), SandboxStep::Done));
}

#[test]
fn images_are_sent_as_data() {
    assert!(is_data_uri("data:image/png;base64,xx"));
    assert!(!is_data_uri("http://x/y.png"));
    assert_eq!(infer_image_media_type("http://x/Y.JPG?z=1", ""), "image/jpeg");
    assert_eq!(infer_image_media_type("http://x/y", "image/gif; q=1"), "image/gif");
    assert_eq!(infer_image_media_type("http://x/y", "text/html"), "image/png");
    assert_eq!(image_data_uri("http://x/y.webp", "", b"hello"), "data:image/webp;base64,aGVsbG8=");
}

#[test]
fn action_ids_are_fresh() {
    assert_eq!(make_action_id("20260101000000", "abcdef"), "20260101000000_abcdef");
    let t = random_token();
    assert_eq!(t.len(), 6);
    assert!(t.chars().all(|c| c.is_ascii_hexdigit()));
    let id = fresh_action_id();
    assert_eq!(id.len(), 21);
    assert!(id[..14].chars().all(|c| c.is_ascii_digit()));
    assert_ne!(id, fresh_action_id());
}

#[test]
fn records_are_timed() {
    let mut tx = Transaction::new("x");
    let id = tx.record_doing(Action::ReadMsg);
    assert!(tx.action_records[0].duration.is_none());
    tx.record_done(&id);
    assert!(tx.action_records[0].duration.is_some());
}
