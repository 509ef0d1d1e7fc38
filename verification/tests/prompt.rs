use alice_engine::action::action_output::{read_msg_entry, send_success};
use alice_engine::inference::beat::{
    build_environment, build_knowledge_content, build_skill_content, estimate_sessions_size,
    extract_msg_ids, make_memory_usage, make_reserved_skill, parse_summary_dual_output, BeatRequest,
    EnvironmentInfo, SessionBlock, SessionMessage, StatusInfo,
};
use alice_engine::inference::capture::{CaptureOutput, CaptureRequest};
use alice_engine::inference::compress::CompressRequest;

#[test]
fn test_parse_summary_dual_output_with_knowledge() {
    let raw = "This is summary\n===KNOWLEDGE_abc123===\nknowledge content here";
    let (summary, knowledge) =
        parse_summary_dual_output(raw, "===SUMMARY===", "===KNOWLEDGE_abc123===");
    assert_eq!(summary, "This is summary");
    assert_eq!(knowledge, "knowledge content here");
}

#[test]
fn test_parse_summary_dual_output_no_knowledge() {
    let raw = "Just summary, no knowledge marker";
    let (summary, knowledge) =
        parse_summary_dual_output(raw, "===SUMMARY===", "===KNOWLEDGE_xyz===");
    assert_eq!(summary, "Just summary, no knowledge marker");
    assert_eq!(knowledge, "");
}

#[test]
fn test_parse_summary_dual_output_strip_summary_marker() {
    let raw = "===SUMMARY===\nActual summary\n===KNOWLEDGE_t1===\nknowledge";
    let (summary, knowledge) =
        parse_summary_dual_output(raw, "===SUMMARY===", "===KNOWLEDGE_t1===");
    assert_eq!(summary, "Actual summary");
    assert_eq!(knowledge, "knowledge");
}

#[test]
fn test_extract_msg_ids_send() {
    let text = "send success [MSG:20260303120000]\nsome other text";
    let ids = extract_msg_ids(text);
    assert_eq!(ids, vec!["20260303120000"]);
}

#[test]
fn test_extract_msg_ids_read() {
    let text = "[MSG:20260303130000]发来一条消息：\nhello";
    let ids = extract_msg_ids(text);
    assert_eq!(ids, vec!["20260303130000"]);
}

#[test]
fn test_extract_msg_ids_mixed() {
    let text = "send success [MSG:20260303120000]\n[MSG:20260303130000]发来一条消息：\nhello\nsend success [MSG:20260303120000]";
    let ids = extract_msg_ids(text);
    assert_eq!(ids, vec!["20260303120000", "20260303130000"]);
}

#[test]
fn test_extract_msg_ids_ignores_untrusted() {
    let text = "random [MSG:20260303120000] text without context";
    let ids = extract_msg_ids(text);
    assert!(ids.is_empty());
}

#[test]
fn test_extract_msg_ids_system_message() {
    let text = "[系统通知] [MSG:20260307103449]发来一条消息：\n\n[验证] system消息测试\n";
    let ids = extract_msg_ids(text);
    assert_eq!(ids, vec!["20260307103449"]);
}

#[test]
fn test_make_memory_usage_basic() {
    let usage = make_memory_usage(1000, 2000, 3000, 4000);
    assert!(usage.contains("3000"));
    assert!(usage.contains("1000"));
    assert!(usage.contains("2000"));
}

#[test]
fn test_make_memory_usage_over_limit() {
    let usage = make_memory_usage(50000, 50000, 50000, 50000);
    assert!(usage.contains("⚠️"));
}

#[test]
fn test_make_reserved_skill_no_host() {
    // When host is None or empty, falls back to localhost:{port}
    let result = make_reserved_skill(None, "test", 8081);
    assert!(result.contains("localhost:8081"), "should fallback to localhost:port");
    assert!(result.contains("test"), "should contain instance_id");

    let result2 = make_reserved_skill(Some(""), "test", 8081);
    assert!(result2.contains("localhost:8081"), "empty host should also fallback");
}

#[test]
fn test_estimate_sessions_size() {
    let blocks = vec![SessionBlock {
        start_time: "20260303120000".into(),
        end_time: "20260303120100".into(),
        messages: vec![SessionMessage {
            sender_role: "user".into(),
            sender_id: Some("user".into()),
            timestamp: "20260303120000".into(),
            content: "hello".into(),
        }],
        summary: "User said hello".into(),
    }];
    let size = estimate_sessions_size(&blocks);
    assert!(size > 0);
}

#[test]
fn sessions_are_measured_in_characters() {
    let blocks = vec![SessionBlock {
        start_time: "1".into(),
        end_time: "2".into(),
        messages: vec![SessionMessage {
            sender_role: "user".into(),
            sender_id: None,
            timestamp: "1".into(),
            content: "你好".into(),
        }],
        summary: "小结".into(),
    }];
    assert_eq!(estimate_sessions_size(&blocks), 4 + 4 + 1 + 2 + 20 + 40);
}

#[test]
fn test_estimate_sessions_size_empty() {
    assert_eq!(estimate_sessions_size(&[]), 0);
}

#[test]
fn test_session_block_to_markdown() {
    let block = SessionBlock {
        start_time: "20260303120000".into(),
        end_time: "20260303120100".into(),
        messages: vec![],
        summary: "Some work happened".into(),
    };
    let rendered = block.to_markdown();
    assert!(rendered.contains("20260303120000"));
    assert!(rendered.contains("Some work happened"));
}

#[test]
fn test_build_skill_content() {
    let result = build_skill_content(Some("1.2.3.4:8080"), "test", 8081, "custom skill", "extra");
    assert!(result.contains("custom skill"));
    assert!(result.contains("extra"));
}

#[test]
fn test_build_skill_content_empty() {
    let result = build_skill_content(None, "test", 8081, "", "");
    // Should still have reserved skill (app guide)
    assert!(result.contains("localhost:8081"));
}

#[test]
fn test_build_knowledge_content() {
    let result = build_knowledge_content("# 泛准则\n- 谨慎加信任");
    assert!(result.contains("### 要点与知识 ###"));
    assert!(result.contains("谨慎加信任"));
}

#[test]
fn test_build_knowledge_content_empty() {
    assert_eq!(build_knowledge_content(""), "");
    assert_eq!(build_knowledge_content("  "), "");
}

#[test]
fn test_build_environment() {
    let env = build_environment("abc123", Some("TestBot"), "联系人列表", "Linux x86_64", Some("1.2.3.4:8080"));
    assert_eq!(env.identity, "TestBot（abc123）");
    assert_eq!(env.contacts, Some("联系人列表".to_string()));
    assert_eq!(env.shell_env, "Linux x86_64");
    assert_eq!(env.host, Some("1.2.3.4:8080".to_string()));
}

#[test]
fn test_build_environment_no_contacts() {
    let env = build_environment("abc123", None, "", "Linux x86_64", None);
    assert_eq!(env.identity, "abc123");
    assert_eq!(env.contacts, None);
    assert_eq!(env.host, None);
}

#[test]
fn test_to_markdown_output() {
    let request = BeatRequest {
        skill: String::new(),
        knowledge: String::new(),
        history: "(空)".to_string(),
        sessions: vec![],
        environment: EnvironmentInfo {
            identity: "test".to_string(),
            contacts: None,
            shell_env: "Linux".to_string(),
            host: None,
        },
        current: "(空)".to_string(),
        status: StatusInfo {
            current_time: "[20260311120000]".to_string(),
            start_time: "[20260311100000]".to_string(),
            unread: "[0] 条".to_string(),
            instance_name: "test".to_string(),
            memory_usage: "current: 100字符 | 合计: 100字符".to_string(),
        },
    };
    let output = request.to_markdown();
    // Empty skill and knowledge should be skipped by ToMarkdown
    assert!(!output.contains("### skill ###"));
    assert!(!output.contains("### 知识 ###"));
    // Single-line fields should use inline format (smart rendering)
    assert!(output.contains("经历: (空)"));
    assert!(output.contains("current: (空)"));
    // Nested structs should render with section titles
    assert!(output.contains("### 环境信息 ###"));
    assert!(output.contains("### 当前状态 ###"));
    // EnvironmentInfo fields should be inline
    assert!(output.contains("你是: test"));
    assert!(output.contains("脚本环境: Linux"));
    // StatusInfo fields should be inline
    assert!(output.contains("现在时刻: [20260311120000]"));
    assert!(output.contains("收件箱未读来信: [0] 条"));
    // Scene description (struct-level doc comment) should appear at the top
    assert!(output.contains("你醒了"));
}

#[test]
fn to_markdown_contains_all_sections() {
    let req = CaptureRequest {
        knowledge_content: "K".into(),
        recent_content: "R".into(),
        current_content: "C".into(),
        summary_content: "S".into(),
    };
    let output = req.to_markdown();
    assert!(output.contains("你是agent的知识维护者"));
    assert!(output.contains("## 当前知识\nK"));
    assert!(output.contains("## 近况\nR"));
    assert!(output.contains("## 当前增量\nC"));
    assert!(output.contains("## 本次小结\nS"));
}

#[test]
fn to_markdown_contains_instructions() {
    let req = CaptureRequest {
        knowledge_content: "".into(),
        recent_content: "".into(),
        current_content: "".into(),
        summary_content: "".into(),
    };
    let output = req.to_markdown();
    assert!(output.contains("接话"));
    assert!(output.contains("起手"));
    assert!(output.contains("用户知识洞察"));
    assert!(output.contains("自己的理解"));
    assert!(output.contains("终态快照"));
}

#[test]
fn capture_output_parses() {
    let token = "test123";
    let input = format!(
        "CaptureOutput-{t}\nknowledge-{t}\nsome knowledge content\nCaptureOutput-end-{t}",
        t = token
    );
    let results = CaptureOutput::from_markdown(&input, token).unwrap();
    assert_eq!(results.len(), 1);
    assert_eq!(results[0].knowledge, "some knowledge content");
}

#[test]
fn test_compress_request_to_markdown() {
    let req = CompressRequest {
        requirement: "浓缩为不超过10KB".to_string(),
        content: "session data".to_string(),
    };
    let md = req.to_markdown();
    assert!(md.contains("小说作家"));
    assert!(md.contains("### 压缩要求 ###"));
    assert!(md.contains("浓缩为不超过10KB"));
    assert!(md.contains("### 待压缩内容 ###"));
    assert!(md.contains("session data"));
}

#[test]
fn test_compress_request_with_combined_content() {
    let req = CompressRequest {
        requirement: "浓缩为不超过10KB".to_string(),
        content: "existing history\n\nnew session".to_string(),
    };
    let md = req.to_markdown();
    assert!(md.contains("existing history"));
    assert!(md.contains("new session"));
}

#[test]
fn skills_follow_the_guide() {
    let base = build_skill_content(Some("h"), "a", 1, "", " ");
    assert!(!base.is_empty());
    let all = build_skill_content(Some("h"), "a", 1, "own {host}", "extra");
    assert_eq!(all, format!("{}\n\nown {{host}}\n\nextra", base));
}

#[test]
fn sent_and_read_messages_are_found_in_one_record() {
    let (sent, read) = ("20260220120000", "20260220120001");
    let text = send_success(sent) + &read_msg_entry("[bob]", read, "see [this]");
    assert_eq!(extract_msg_ids(&text), vec![sent.to_string(), read.to_string()]);
    let same = send_success(sent) + &read_msg_entry("bob", sent, "");
    assert_eq!(extract_msg_ids(&same), vec![sent.to_string()]);
}
