use alice_engine::inference::capture::CaptureOutput;
use alice_engine::inference::compress::CompressOutput;
use alice_engine::inference::incoming::{AnswerStream, Heard};
use alice_engine::inference::schema::with_schema;
use alice_engine::inference::{
    parse_actions, parse_single_action_chunk, safe_render, strip_markdown_code_block, Action,
};

const TOKEN: &str = "test123";

fn sep() -> String {
    format!("Action-{}", TOKEN)
}

fn end() -> String {
    format!("Action-end-{}", TOKEN)
}

#[test]
fn test_safe_render_basic() {
    let result = safe_render(
        "Hello {{NAME}}, welcome to {{PLACE}}!",
        &[("{{NAME}}", "Alice"), ("{{PLACE}}", "Wonderland")],
    );
    assert_eq!(result, "Hello Alice, welcome to Wonderland!");
}

#[test]
fn test_safe_render_no_injection() {
    let result = safe_render(
        "A={{A}} B={{B}}",
        &[("{{A}}", "contains {{B}} inside"), ("{{B}}", "INJECTED")],
    );
    assert_eq!(result, "A=contains {{B}} inside B=INJECTED");
}

#[test]
fn test_safe_render_unknown_placeholder() {
    let result = safe_render("{{KNOWN}} and {{UNKNOWN}}", &[("{{KNOWN}}", "yes")]);
    assert_eq!(result, "yes and {{UNKNOWN}}");
}

#[test]
fn test_safe_render_empty_value() {
    let result = safe_render("before{{X}}after", &[("{{X}}", "")]);
    assert_eq!(result, "beforeafter");
}

#[test]
fn test_safe_render_chinese() {
    let result = safe_render(
        "你好{{NAME}}，欢迎来到{{PLACE}}",
        &[("{{NAME}}", "小白"), ("{{PLACE}}", "仙境")],
    );
    assert_eq!(result, "你好小白，欢迎来到仙境");
}

#[test]
fn test_safe_render_no_vars() {
    let result = safe_render("no placeholders here", &[]);
    assert_eq!(result, "no placeholders here");
}

#[test]
fn test_safe_render_adjacent_placeholders() {
    let result = safe_render("{{A}}{{B}}", &[("{{A}}", "hello"), ("{{B}}", "world")]);
    assert_eq!(result, "helloworld");
}

#[test]
fn test_safe_render_single_brace() {
    let result = safe_render("a{b}c", &[]);
    assert_eq!(result, "a{b}c");
}

#[test]
fn test_parse_idle() {
    let raw = format!("{}\nidle\n{}", sep(), end());
    let actions = parse_actions(&raw, TOKEN).unwrap();
    assert_eq!(actions.len(), 1);
    assert!(matches!(actions[0], Action::Idle { timeout_secs: None }));
}

#[test]
fn test_parse_idle_with_timeout() {
    let raw = format!("{}\nidle\n120\n{}", sep(), end());
    let actions = parse_actions(&raw, TOKEN).unwrap();
    assert_eq!(actions.len(), 1);
    match &actions[0] {
        Action::Idle {
            timeout_secs: Some(120),
        } => {}
        other => panic!("Expected Idle with 120s timeout, got {:?}", other),
    }
}

#[test]
fn test_parse_idle_with_invalid_timeout() {
    let raw = format!("{}\nidle\nabc\n{}", sep(), end());
    let actions = parse_actions(&raw, TOKEN).unwrap();
    assert_eq!(actions.len(), 1);
    assert!(matches!(actions[0], Action::Thinking { .. }));
}

#[test]
fn test_idle_display_with_timeout() {
    assert_eq!(
        Action::Idle {
                timeout_secs: Some(60)
            }.display(),
        "idle 60"
    );
    assert_eq!(Action::Idle { timeout_secs: None }.display(), "idle");
}

#[test]
fn test_parse_read_msg() {
    let raw = format!("{}\nread_msg\n{}", sep(), end());
    let actions = parse_actions(&raw, TOKEN).unwrap();
    assert_eq!(actions.len(), 1);
    assert!(matches!(actions[0], Action::ReadMsg));
}

#[test]
fn test_parse_send_msg() {
    let raw = format!(
        "{}\nsend_msg\nrecipient-{}\n24007\ncontent-{}\nHello there!\nSecond line.\n{}",
        sep(), TOKEN, TOKEN, end()
    );
    let actions = parse_actions(&raw, TOKEN).unwrap();
    assert_eq!(actions.len(), 1);
    match &actions[0] {
        Action::SendMsg { recipient, content } => {
            assert_eq!(recipient, "24007");
            assert_eq!(content, "Hello there!\nSecond line.");
        }
        _ => panic!("Expected SendMsg"),
    }
}

#[test]
fn test_parse_thinking() {
    let raw = format!(
        "{}\nthinking\nI need to plan this carefully.\nStep 1...\n{}",
        sep(), end()
    );
    let actions = parse_actions(&raw, TOKEN).unwrap();
    assert_eq!(actions.len(), 1);
    match &actions[0] {
        Action::Thinking { content } => assert!(content.contains("plan this carefully")),
        _ => panic!("Expected Thinking"),
    }
}

#[test]
fn test_parse_script() {
    let raw = format!("{}\nscript\necho hello\nls -la\n{}", sep(), end());
    let actions = parse_actions(&raw, TOKEN).unwrap();
    assert_eq!(actions.len(), 1);
    match &actions[0] {
        Action::Script { content } => assert_eq!(content, "echo hello\nls -la"),
        _ => panic!("Expected Script"),
    }
}

#[test]
fn test_parse_write_file() {
    let raw = format!(
        "{}\nwrite_file\npath-{}\ntest.txt\ncontent-{}\nfile content here\nline 2\n{}",
        sep(), TOKEN, TOKEN, end()
    );
    let actions = parse_actions(&raw, TOKEN).unwrap();
    assert_eq!(actions.len(), 1);
    match &actions[0] {
        Action::WriteFile { path, content } => {
            assert_eq!(path, "test.txt");
            assert_eq!(content, "file content here\nline 2");
        }
        _ => panic!("Expected WriteFile"),
    }
}

#[test]
fn test_parse_replace_in_file() {
    let raw = format!(
        "{}\nreplace_in_file\npath-{}\nconfig.toml\nsearch-{}\nold text\nreplace-{}\nnew text\n{}",
        sep(), TOKEN, TOKEN, TOKEN, end()
    );
    let actions = parse_actions(&raw, TOKEN).unwrap();
    assert_eq!(actions.len(), 1);
    match &actions[0] {
        Action::ReplaceInFile {
            path,
            search,
            replace,
        } => {
            assert_eq!(path, "config.toml");
            assert_eq!(search, "old text");
            assert_eq!(replace, "new text");
        }
        _ => panic!("Expected ReplaceInFile"),
    }
}

#[test]
fn test_parse_summary() {
    let raw = format!(
        "{}\nsummary\nAlice读了代码，修改了配置文件。\n{}",
        sep(), end()
    );
    let actions = parse_actions(&raw, TOKEN).unwrap();
    assert_eq!(actions.len(), 1);
    match &actions[0] {
        Action::Summary { content } => {
            assert!(content.contains("读了代码"));
        }
        _ => panic!("Expected Summary"),
    }
}

#[test]
fn test_parse_multiple_actions() {
    let raw = format!(
        "{}\nthinking\nplanning...\n{}\nscript\necho test\n{}\nidle\n{}",
        sep(), sep(), sep(), end()
    );
    let actions = parse_actions(&raw, TOKEN).unwrap();
    assert_eq!(actions.len(), 3);
    assert!(matches!(actions[0], Action::Thinking { .. }));
    assert!(matches!(actions[1], Action::Script { .. }));
    assert!(matches!(actions[2], Action::Idle { timeout_secs: None }));
}

#[test]
fn test_strip_markdown_code_block_bash() {
    assert_eq!(
        strip_markdown_code_block("```bash\nwhoami\npwd\nls\n```"),
        "whoami\npwd\nls"
    );
}

#[test]
fn test_strip_markdown_code_block_no_markers() {
    let input = "whoami\npwd\nls";
    assert_eq!(strip_markdown_code_block(input), input);
}

#[test]
fn test_strip_markdown_code_block_only_opening() {
    let input = "```bash\nwhoami\npwd";
    assert_eq!(strip_markdown_code_block(input), input);
}

#[test]
fn test_strip_markdown_code_block_generic() {
    assert_eq!(
        strip_markdown_code_block("```\nsome content\nmore content\n```"),
        "some content\nmore content"
    );
}

#[test]
fn test_parse_unknown_action_becomes_thinking() {
    let raw = format!("{}\nunknown_action\n{}", sep(), end());
    let actions = parse_actions(&raw, TOKEN).unwrap();
    assert_eq!(actions.len(), 1);
    match &actions[0] {
        Action::Thinking { content } => {
            assert!(content.contains("action解析失败"));
        }
        _ => panic!("Expected Thinking with parse error"),
    }
}

#[test]
fn test_action_display() {
    assert_eq!(Action::Idle { timeout_secs: None }.display(), "idle");
    assert_eq!(
        Action::SendMsg {
                recipient: "24007".to_string(),
                content: "hi".to_string()
            }.display(),
        "send_msg → 24007"
    );
    assert_eq!(
        Action::ReplaceInFile {
                path: "f.rs".to_string(),
                search: "a".to_string(),
                replace: "b".to_string(),
            }.display(),
        "replace_in_file → f.rs"
    );
    assert_eq!(
        Action::Summary {
                content: "test".to_string(),
            }.display(),
        "summary"
    );
}

#[test]
fn test_parse_send_msg_empty_becomes_thinking() {
    // Empty send_msg with no fields should fail parsing
    let raw = format!("{}\nsend_msg\n{}", sep(), end());
    let actions = parse_actions(&raw, TOKEN).unwrap();
    assert_eq!(actions.len(), 1);
    assert!(matches!(actions[0], Action::Thinking { .. }));
}

#[test]
fn test_parse_write_file_empty_becomes_thinking() {
    // Empty write_file with no fields should fail parsing
    let raw = format!("{}\nwrite_file\n{}", sep(), end());
    let actions = parse_actions(&raw, TOKEN).unwrap();
    assert_eq!(actions.len(), 1);
    assert!(matches!(actions[0], Action::Thinking { .. }));
}

#[test]
fn test_parse_replace_rust_generics_not_false_match() {
    let rust_code_search = "    connections: RwLock<HashMap<String, Arc<Mutex<Chat>>>>,\n}";
    let rust_code_replace = "    connections: RwLock<HashMap<String, Arc<Mutex<Chat>>>>,\n    extra_field: bool,\n}";
    let raw = format!(
        "{}\nreplace_in_file\npath-{}\nmod.rs\nsearch-{}\n{}\nreplace-{}\n{}\n{}",
        sep(), TOKEN, TOKEN, rust_code_search, TOKEN, rust_code_replace, end()
    );
    let actions = parse_actions(&raw, TOKEN).unwrap();
    assert_eq!(actions.len(), 1);
    match &actions[0] {
        Action::ReplaceInFile {
            path,
            search,
            replace,
        } => {
            assert_eq!(path, "mod.rs");
            assert_eq!(search, rust_code_search);
            assert_eq!(replace, rust_code_replace);
        }
        _ => panic!("Expected ReplaceInFile"),
    }
}

#[test]
fn test_parse_no_actions() {
    let raw = "some random text without any action markers";
    let actions = parse_actions(raw, TOKEN).unwrap();
    assert_eq!(actions.len(), 0);
}

#[test]
fn test_parse_set_profile() {
    let raw = format!(
        "{}\nset_profile\nname: TestBot\ncolor: #FF0000\n{}",
        sep(), end()
    );
    let actions = parse_actions(&raw, TOKEN).unwrap();
    assert_eq!(actions.len(), 1);
    match &actions[0] {
        Action::SetProfile { content } => {
            assert!(content.contains("name: TestBot"));
            assert!(content.contains("color: #FF0000"));
        }
        _ => panic!("Expected SetProfile"),
    }
}

#[test]
fn test_parse_distill() {
    let raw = format!(
        "{}\ndistill\ntarget_action_id-{}\n20260101_abc123\nsummary-{}\nThis is the summary.\n{}",
        sep(), TOKEN, TOKEN, end()
    );
    let actions = parse_actions(&raw, TOKEN).unwrap();
    assert_eq!(actions.len(), 1);
    match &actions[0] {
        Action::Distill {
            target_action_id,
            summary,
        } => {
            assert_eq!(target_action_id, "20260101_abc123");
            assert_eq!(summary, "This is the summary.");
        }
        _ => panic!("Expected Distill"),
    }
}

#[test]
fn test_parse_create_instance() {
    let raw = format!(
        "{}\ncreate_instance\nname-{}\nMyBot\nknowledge-{}\nSome initial knowledge.\n{}",
        sep(), TOKEN, TOKEN, end()
    );
    let actions = parse_actions(&raw, TOKEN).unwrap();
    assert_eq!(actions.len(), 1);
    match &actions[0] {
        Action::CreateInstance { name, knowledge } => {
            assert_eq!(name, "MyBot");
            assert_eq!(knowledge, "Some initial knowledge.");
        }
        _ => panic!("Expected CreateInstance"),
    }
}

#[test]
fn test_parse_single_action_chunk() {
    let body = "idle\n120";
    let actions = parse_single_action_chunk(body, TOKEN);
    assert_eq!(actions.len(), 1);
    match &actions[0] {
        Action::Idle {
            timeout_secs: Some(120),
        } => {}
        other => panic!("Expected Idle with 120s, got {:?}", other),
    }
}

#[test]
fn test_schema_markdown_contains_all_variants() {
    let schema = Action::schema_markdown(TOKEN);
    assert!(schema.contains("idle"));
    assert!(schema.contains("read_msg"));
    assert!(schema.contains("send_msg"));
    assert!(schema.contains("thinking"));
    assert!(schema.contains("script"));
    assert!(schema.contains("write_file"));
    assert!(schema.contains("replace_in_file"));
    assert!(schema.contains("summary"));
    assert!(schema.contains("set_profile"));
    assert!(schema.contains("create_instance"));
    assert!(schema.contains("distill"));
    assert!(schema.contains(&format!("Action-end-{}", TOKEN)));
}

// ─── Format anomaly tests: error messages enter current ─────────

#[test]
fn test_format_anomaly_garbage_before_separator() {
    let raw = format!("这是一些废话blah blah\n{}\nidle\n{}", sep(), end());
    let actions = parse_actions(&raw, TOKEN).unwrap();
    assert_eq!(actions.len(), 1);
    match &actions[0] {
        Action::Thinking { content } => {
            assert!(
                content.contains("action解析失败"),
                "Error should contain 'action解析失败', got: {}",
                content
            );
            assert!(
                content.contains("Unexpected content before first"),
                "Error should mention unexpected content, got: {}",
                content
            );
        }
        other => panic!("Expected Thinking with error, got: {:?}", other),
    }
}

#[test]
fn test_format_anomaly_complete_garbage_no_separator() {
    let raw = "completely random garbage text 完全乱码 no actions here";
    let actions = parse_actions(raw, TOKEN).unwrap();
    assert_eq!(
        actions.len(),
        0,
        "Complete garbage without separator should return empty Vec"
    );
}

#[test]
fn test_format_anomaly_misspelled_variant() {
    let raw = format!("{}\nidel\n{}", sep(), end());
    let actions = parse_actions(&raw, TOKEN).unwrap();
    assert_eq!(actions.len(), 1);
    match &actions[0] {
        Action::Thinking { content } => {
            assert!(
                content.contains("action解析失败"),
                "Error should contain 'action解析失败', got: {}",
                content
            );
        }
        other => panic!("Expected Thinking with error, got: {:?}", other),
    }
}

#[test]
fn test_format_anomaly_empty_after_separator() {
    let raw = format!("{}\n{}", sep(), end());
    let actions = parse_actions(&raw, TOKEN).unwrap();
    for action in &actions {
        if let Action::Thinking { content } = action {
            assert!(
                content.contains("action解析失败") || content.contains("⚠️"),
                "Error Thinking should have informative message, got: {}",
                content
            );
        }
    }
}

#[test]
fn test_format_anomaly_multiple_actions_with_bad_middle() {
    let raw = format!(
        "{}\nthinking\nok\n{}\nbad_action_name\n{}\nidle\n{}",
        sep(),
        sep(),
        sep(),
        end()
    );
    let actions = parse_actions(&raw, TOKEN).unwrap();
    let has_error = actions.iter().any(|a| match a {
        Action::Thinking { content } => content.contains("action解析失败"),
        _ => false,
    });
    assert!(
        has_error,
        "Should contain at least one Thinking with parse error. Got: {:?}",
        actions
    );
}

#[test]
fn test_format_anomaly_missing_end_marker_auto_appended() {
    let raw = format!("{}\nidle\n", sep());
    let actions = parse_actions(&raw, TOKEN).unwrap();
    assert_eq!(actions.len(), 1);
    assert!(
        matches!(actions[0], Action::Idle { .. }),
        "Auto-appended end marker should allow successful parse"
    );
}

#[test]
fn test_format_anomaly_partial_separator() {
    let raw = format!("Action-\nidle\n{}", end());
    let actions = parse_actions(&raw, TOKEN).unwrap();
    assert_eq!(
        actions.len(),
        0,
        "Partial separator should not match"
    );
}

#[test]
fn test_format_anomaly_error_message_includes_original_output() {
    let raw = format!("废话废话废话\n{}\nnonexistent_action\n{}", sep(), end());
    let actions = parse_actions(&raw, TOKEN).unwrap();
    assert_eq!(actions.len(), 1);
    match &actions[0] {
        Action::Thinking { content } => {
            assert!(
                content.contains("原始输出"),
                "Error should include original output snippet, got: {}",
                content
            );
        }
        other => panic!("Expected Thinking with error, got: {:?}", other),
    }
}

#[test]
fn test_format_anomaly_from_markdown_direct_no_separator() {
    let result = Action::from_markdown("just some random text", TOKEN);
    assert!(
        result.is_err(),
        "from_markdown should return Err for text without separator"
    );
    let err = result.unwrap_err();
    assert!(
        err.contains("Missing end marker"),
        "Error should mention missing end marker, got: {}",
        err
    );
}

#[test]
fn test_format_anomaly_from_markdown_direct_garbage_before_separator() {
    let input = format!("garbage here\n{}\nidle\n{}", sep(), end());
    let result = Action::from_markdown(&input, TOKEN);
    assert!(
        result.is_err(),
        "from_markdown should return Err for garbage before separator"
    );
    let err = result.unwrap_err();
    assert!(
        err.contains("Unexpected content before first"),
        "Error should mention unexpected content, got: {}",
        err
    );
}

#[test]
fn test_format_anomaly_from_markdown_direct_missing_end_marker() {
    let input = format!("{}\nidle\n", sep());
    let result = Action::from_markdown(&input, TOKEN);
    assert!(
        result.is_err(),
        "from_markdown should return Err for missing end marker"
    );
    let err = result.unwrap_err();
    assert!(
        err.contains("Missing end marker"),
        "Error should mention missing end marker, got: {}",
        err
    );
}

fn said(heard: Vec<Heard>) -> Vec<String> {
    heard
        .into_iter()
        .map(|h| match h {
            Heard::Preamble(t) => format!("preamble {}", t),
            Heard::Wanted(a) => format!("action {}", a.display()),
            Heard::Failed(e) => format!("failed {}", e),
        })
        .collect()
}

#[test]
fn actions_are_heard_as_they_come() {
    let text = format!(
        "hello\n{s}\nread_msg\n{s}\nthinking\nhm\n{e}",
        s = sep(),
        e = end()
    );
    let mut whole = AnswerStream::new(TOKEN);
    let mut expected = said(whole.feed(&text));
    expected.extend(said(whole.finish().into_iter().collect()));
    assert_eq!(expected.len(), 3);
    assert_eq!(expected[0], "preamble hello");
    for size in 1..9 {
        let mut stream = AnswerStream::new(TOKEN);
        let mut heard = Vec::new();
        let chars: Vec<char> = text.chars().collect();
        for piece in chars.chunks(size) {
            let piece: String = piece.iter().collect();
            heard.extend(said(stream.feed(&piece)));
        }
        assert_eq!(heard.len(), 2);
        heard.extend(said(stream.finish().into_iter().collect()));
        assert_eq!(heard, expected);
    }
}

#[test]
fn unfinished_answers_fail() {
    let mut stream = AnswerStream::new(TOKEN);
    assert!(stream.feed(&format!("{}\nread_msg\n", sep())).is_empty());
    assert!(matches!(stream.finish(), Some(Heard::Failed(_))));
    let mut stream = AnswerStream::new(TOKEN);
    let heard = stream.feed(&format!("{s}\ndance\n{s}\n", s = sep()));
    assert!(matches!(heard[0], Heard::Failed(_)));
    let mut stream = AnswerStream::new(TOKEN);
    stream.feed(&end());
    assert!(stream.finish().is_none());
}

#[test]
fn formats_are_told() {
    assert_eq!(
        CompressOutput::schema_markdown("t"),
        "每个元素以 CompressOutput-t 开头，包含以下字段：\nsummary-t\n随笔\n所有元素结束后输出: CompressOutput-end-t\n"
    );
    let schema = CaptureOutput::schema_markdown("t");
    assert!(schema.contains("knowledge-t\n知识文件\n"));
    let prompt = with_schema("do it", &schema);
    assert!(prompt.starts_with("do it\n\n### 输出规范 ###\n"));
    assert!(prompt.ends_with(&schema));
}
