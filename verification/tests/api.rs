//! The HTTP side.
use alice_engine::agent::signal::EngineStatus;
use alice_engine::api::auth::{
    check_auth, compute_session_token, engine_session_token, handle_login_post, handle_logout,
    setup_settings, AuthDecision, AuthRequest,
};
use alice_engine::api::http_protocol::{
    build_proxy_prefix, build_proxy_url, build_session_cookie, build_session_cookie_name,
    extract_session_token, mask_api_key, parse_proxy_target, process_proxy_response_header,
    rewrite_cookie_path, try_process_proxy_response_header, try_rewrite_cookie_path, Header,
};
use alice_engine::api::routes::{
    content_type_of, extract_instance_id_from_path, free_upload_name, handle_hub_ws, handle_proxy,
    handle_public_static, host_endpoint, hub_route, is_embedded_page, message_limit, page_name,
    self_hooks, serve_workspace_file, tunnel_body, tunnel_request, tunnel_status, upload_name,
    upload_path, FileFacts, HubRoute,
};
use alice_engine::api::state::{
    build_instance_info, created_answer, decide_delete, decide_read, delete_instance,
    deleted_answer, display_name, get_messages, get_replies_after, list_files, observe,
    page_limit, send_message, settings_answer, settings_change, updated_settings, DeleteDecision, DirEntry,
    ReadDecision,
};
use alice_engine::api::types::EngineOnlineStatus;
use alice_engine::chat::{parse_timestamp_to_millis, ChatHistory};
use alice_engine::hub::host::HostState;
use alice_engine::hub::slave::{HttpProxyResponse, SlaveHttpProxyHandler};
use alice_engine::hub::tunnel::TunnelInstanceInfo;
use alice_engine::persist::settings::Settings;

fn header(name: &str, value: &str) -> Header {
    Header { name: name.to_string(), value: value.to_string() }
}

fn instance(id: &str) -> TunnelInstanceInfo {
    TunnelInstanceInfo {
        id: id.to_string(),
        name: format!("name of {}", id),
        avatar: String::new(),
        color: String::new(),
        privileged: false,
        last_active: 0,
    }
}

fn request<'a>(path: &'a str, cookies: Option<&'a str>) -> AuthRequest<'a> {
    AuthRequest {
        skip_auth: false,
        path,
        setup_completed: true,
        default_secret: false,
        loopback: false,
        cookies,
        cookie_name: "alice_session_8081",
        session_token: "tok",
    }
}

#[test]
fn sessions_are_let_in_and_others_are_not() {
    let name = build_session_cookie_name("8081");
    assert_eq!(name, "alice_session_8081");
    let good = format!("a=b; {}=tok", name);
    assert_eq!(check_auth(&request("/api/instances", Some(&good))), AuthDecision::Pass);
    let bad = format!("{}=other", name);
    assert_eq!(check_auth(&request("/api/instances", Some(&bad))), AuthDecision::Login);
    assert_eq!(check_auth(&request("/api/instances", None)), AuthDecision::Login);
    assert_eq!(check_auth(&request("/login", None)), AuthDecision::Pass);
    assert_eq!(check_auth(&request("/public/x/apps/i.html", None)), AuthDecision::Pass);
}

#[test]
fn set_up_comes_before_login() {
    let mut q = request("/api/instances", None);
    q.setup_completed = false;
    assert_eq!(check_auth(&q), AuthDecision::Setup);
    q.skip_auth = true;
    assert_eq!(check_auth(&q), AuthDecision::Pass);
    let mut local = request("/api/instances", None);
    local.loopback = true;
    assert_eq!(check_auth(&local), AuthDecision::Pass);
    let mut open = request("/api/instances", None);
    open.default_secret = true;
    assert_eq!(check_auth(&open), AuthDecision::Pass);
}

#[test]
fn passwords_are_trimmed() {
    let ok = handle_login_post(" pw \n", "pw", "c", "t");
    assert_eq!(ok.location, "/");
    assert!(ok.set_cookie.unwrap().starts_with("c=t"));
    let no = handle_login_post("wrong", "pw", "c", "t");
    assert_eq!(no.location, "/login?error=1");
    assert!(no.set_cookie.is_none());
    let out = handle_logout("c");
    assert_eq!(out.location, "/login");
    assert!(out.set_cookie.unwrap().starts_with("c="));
}

#[test]
fn session_tokens_are_sha256_in_hexadecimal() {
    assert_eq!(
        compute_session_token("abc"),
        "ba7816bf8f01cfea414140de5dae2223b00361a396177a9cb410ff61f20015ad"
    );
    assert_eq!(engine_session_token("abc"), compute_session_token("abc"));
    assert_eq!(engine_session_token(""), "");
}

#[test]
fn the_first_set_up_sets_a_key_and_a_model() {
    let s = setup_settings("k".to_string(), "m".to_string());
    assert_eq!(s.api_key.as_deref(), Some("k"));
    assert_eq!(s.model.as_deref(), Some("m"));
    assert!(s.name.is_none());
}

#[test]
fn session_cookies_are_read_back() {
    let c = build_session_cookie("alice_session_1", "abc");
    assert_eq!(extract_session_token(&c, "alice_session_1"), Some("abc".to_string()));
    assert_eq!(extract_session_token(&c, "alice_session_2"), None);
}

#[test]
fn keys_are_masked() {
    assert_eq!(mask_api_key("sk-1234567890"), "sk-1...7890");
    assert_eq!(mask_api_key("12345678"), "12345678");
}

#[test]
fn proxy_targets_need_a_high_port() {
    assert_eq!(parse_proxy_target("8080/a/b"), Some((8080, "/a/b".to_string())));
    assert_eq!(parse_proxy_target("8080"), Some((8080, "/".to_string())));
    assert_eq!(parse_proxy_target("80/a"), None);
    assert_eq!(parse_proxy_target("x/a"), None);
    assert_eq!(build_proxy_prefix(8080), "/proxy/8080");
    assert_eq!(build_proxy_url(8080, "/a", Some("q=1")), "http://localhost:8080/a?q=1");
}

#[test]
fn cookie_paths_move_below_the_prefix() {
    assert_eq!(rewrite_cookie_path("a=b; Path=/", "/proxy/8080"), "a=b; Path=/proxy/8080/");
    assert_eq!(
        rewrite_cookie_path("a=b; PATH=/x; HttpOnly", "/proxy/8080"),
        "a=b; PATH=/proxy/8080/x; HttpOnly"
    );
    assert_eq!(rewrite_cookie_path("a=b", "/proxy/8080"), "a=b");
    assert_eq!(
        try_rewrite_cookie_path("a=b; Path=/", "/p"),
        Some("a=b; Path=/p/".to_string())
    );
}

#[test]
fn proxied_headers_are_moved_or_dropped() {
    assert_eq!(
        process_proxy_response_header("Location", "/home", "/proxy/8080"),
        Some("/proxy/8080/home".to_string())
    );
    assert_eq!(process_proxy_response_header("Transfer-Encoding", "chunked", "/p"), None);
    assert_eq!(
        process_proxy_response_header("X-Other", "v", "/p"),
        Some("v".to_string())
    );
    assert_eq!(
        try_process_proxy_response_header("X-Other", "v", "/p"),
        Some(Some("v".to_string()))
    );
}

#[test]
fn instances_are_found_in_paths() {
    assert_eq!(extract_instance_id_from_path("/api/instances/ab/x"), Some("ab".to_string()));
    assert_eq!(extract_instance_id_from_path("/serve/ab/i.html"), Some("ab".to_string()));
    assert_eq!(extract_instance_id_from_path("/public/ab"), Some("ab".to_string()));
    assert_eq!(extract_instance_id_from_path("/api/instances/"), None);
    assert_eq!(extract_instance_id_from_path("/api/settings"), None);
}

#[test]
fn requests_go_to_the_engine_that_has_the_instance() {
    let mut host = HostState::new("t".to_string());
    host.register("e1", "", "http://e1", vec![instance("far")]);
    match hub_route(Some(&host), "/api/instances/far/messages") {
        HubRoute::Tunnel { instance_id, engine_id } => {
            assert_eq!(instance_id, "far");
            assert_eq!(engine_id, "e1");
        }
        other => panic!("unexpected route {:?}", other),
    }
    assert!(matches!(hub_route(Some(&host), "/api/instances/near"), HubRoute::Here));
    assert!(matches!(hub_route(Some(&host), "/api/settings"), HubRoute::Here));
    assert!(matches!(hub_route(None, "/api/instances/far"), HubRoute::Here));
}

#[test]
fn only_apps_are_public() {
    assert!(handle_public_static("apps/i.html").is_ok());
    let e = handle_public_static("secret.txt").unwrap_err();
    assert_eq!(e.status, 403);
}

#[test]
fn files_outside_of_the_workspace_are_not_served() {
    let facts = |target: &str| FileFacts {
        workspace_exists: true,
        target: Some(target.to_string()),
        workspace: Some("/ws".to_string()),
        is_file: true,
    };
    assert!(serve_workspace_file(&facts("/ws/a.html")).is_ok());
    assert_eq!(serve_workspace_file(&facts("/ws2/a.html")).unwrap_err().status, 404);
    let mut gone = facts("/ws/a");
    gone.workspace_exists = false;
    assert_eq!(serve_workspace_file(&gone).unwrap_err().status, 404);
    let mut lost = facts("/ws/a");
    lost.workspace = None;
    assert_eq!(serve_workspace_file(&lost).unwrap_err().status, 500);
}

#[test]
fn extensions_are_compared_in_lower_case() {
    assert_eq!(content_type_of("HTML"), content_type_of("html"));
    assert!(content_type_of("HTML").starts_with("text/html"));
}

#[test]
fn proxy_requests_are_planned() {
    let hs = vec![header("host", "x"), header("accept", "*/*")];
    let plan = handle_proxy("/proxy/8080/a", Some("q"), "POST", &hs).unwrap();
    assert_eq!(plan.url, "http://localhost:8080/a?q");
    assert_eq!(plan.method, "POST");
    assert_eq!(plan.prefix, "/proxy/8080");
    assert!(plan.headers.iter().all(|h| h.name != "host"));
    assert_eq!(handle_proxy("/proxy/80/a", None, "GET", &hs).unwrap_err().status, 400);
    assert_eq!(handle_proxy("/other", None, "GET", &hs).unwrap_err().status, 400);
}

#[test]
fn upload_names_are_numbered() {
    assert_eq!(upload_name("file.txt", 0), "file.txt");
    assert_eq!(upload_name("file.txt", 1), "file_1.txt");
    assert_eq!(upload_name("file.txt", 2), "file_2.txt");
    assert_eq!(upload_name("file", 3), "file_3");
    assert_eq!(upload_path("20260301", "file_1.txt"), "uploads/20260301/file_1.txt");
}

#[test]
fn pages_have_names() {
    assert_eq!(page_name("/"), "index.html");
    assert_eq!(page_name("/index"), "index.html");
    assert_eq!(page_name("/files.html"), "files.html");
    assert!(is_embedded_page("setup.html"));
    assert!(!is_embedded_page("other.html"));
}

#[test]
fn hosts_are_addressed_with_a_scheme() {
    assert_eq!(host_endpoint(None, 8081), "http://localhost:8081");
    assert_eq!(host_endpoint(Some("h.example"), 8081), "http://h.example");
    assert_eq!(host_endpoint(Some("https://h.example"), 8081), "https://h.example");
}

#[test]
fn engines_join_with_the_token() {
    assert_eq!(handle_hub_ws(None, None, None).unwrap_err().status, 400);
    assert_eq!(handle_hub_ws(Some("t"), Some("x".to_string()), None).unwrap_err().status, 401);
    assert_eq!(handle_hub_ws(Some("t"), Some("t".to_string()), None).unwrap(), "unknown");
    assert_eq!(
        handle_hub_ws(Some("t"), Some("t".to_string()), Some("e".to_string())).unwrap(),
        "e"
    );
}

#[test]
fn bodies_pass_the_tunnel_unchanged() {
    let body = b"hello".to_vec();
    let q = tunnel_request("POST", "/a", Some("x=1"), vec![header("A", "b")], &body);
    assert_eq!(q.path, "/a?x=1");
    assert_eq!(q.body.as_deref(), Some("aGVsbG8="));
    let handler = SlaveHttpProxyHandler::new(8081, "abc".to_string());
    let local = handler.local_request(&q);
    assert_eq!(local.body, Some(body.clone()));
    assert_eq!(local.url, "http://localhost:8081/a?x=1");
    let resp = handler.answer(200, vec![], &body);
    assert_eq!(tunnel_body(&resp), body);
    assert!(tunnel_request("GET", "/a", None, vec![], &Vec::new()).body.is_none());
    let broken = HttpProxyResponse { status: 200, headers: vec![], body: Some("%".to_string()) };
    assert!(tunnel_body(&broken).is_empty());
    let failed = handler.failure("no");
    assert_eq!(failed.status, 502);
    assert_eq!(tunnel_body(&failed), b"Tunnel error: no".to_vec());
}

#[test]
fn foreign_statuses_are_checked() {
    assert_eq!(tunnel_status(404), 404);
    assert_eq!(tunnel_status(42), 502);
    assert_eq!(tunnel_status(1000), 502);
}

#[test]
fn hosts_register_hooks_with_themselves() {
    let h = self_hooks(8081, "c", "t");
    assert_eq!(h.url, "http://localhost:8081/api/hooks");
    assert_eq!(h.contacts_url, "http://localhost:8081/api/hub/contacts/{instance_id}");
    assert_eq!(h.send_msg_relay_url, "http://localhost:8081/api/hub/relay");
    assert_eq!(h.cookie, "c=t");
}

#[test]
fn pages_of_messages_follow_on() {
    let mut chat = ChatHistory::new();
    for i in 0..7 {
        let r = send_message(&mut chat, "user", &format!(" m{} ", i), "20260220120000");
        assert!(r.success);
        assert_eq!(r.message, Some(format!("{}", i + 1)));
    }
    let last = get_messages(&chat, None, None, 3, 1, 100);
    let ids: Vec<i64> = last.messages.iter().map(|m| m.id).collect();
    assert_eq!(ids, vec![5, 6, 7]);
    assert!(last.has_more);
    assert_eq!(last.messages[0].content, "m4");
    let older = get_messages(&chat, Some(5), None, 10, 1, 100);
    let ids: Vec<i64> = older.messages.iter().map(|m| m.id).collect();
    assert_eq!(ids, vec![1, 2, 3, 4]);
    assert!(!older.has_more);
    let newer = get_messages(&chat, None, Some(5), 10, 1, 100);
    assert_eq!(newer.messages.len(), 2);
    assert!(!newer.has_more);
    assert_eq!(get_replies_after(&chat, 0).len(), 0);
    chat.write_agent_reply("a", "yes", "20260220120001");
    let replies = get_replies_after(&chat, 6);
    assert_eq!(replies.len(), 1);
    assert_eq!(replies[0].id, 8);
    assert_eq!(replies[0].role, "agent");
    assert_eq!(replies[0].content, "yes");
    assert_eq!(message_limit(None), 50);
    assert_eq!(message_limit(Some(7)), 7);
    assert_eq!(page_limit(0, 1, 100), 1);
    assert_eq!(page_limit(1000, 1, 100), 100);
}

#[test]
fn replies_are_limited() {
    let mut chat = ChatHistory::new();
    for _ in 0..120 {
        chat.write_agent_reply("a", "x", "20260220120000");
    }
    assert_eq!(get_replies_after(&chat, 0).len(), 100);
    assert_eq!(get_replies_after(&chat, 110).len(), 10);
}

#[test]
fn blank_messages_are_refused() {
    let mut chat = ChatHistory::new();
    let r = send_message(&mut chat, "user", " \n", "20260220120000");
    assert!(!r.success);
    assert_eq!(r.message.as_deref(), Some("Empty message"));
    assert_eq!(chat.count_unread_user_messages(), 0);
}

#[test]
fn times_are_read_as_milliseconds() {
    assert_eq!(parse_timestamp_to_millis("19700102000000"), Some(86_400_000));
    assert_eq!(parse_timestamp_to_millis("20260220120000"), Some(1_771_588_800_000));
    assert_eq!(parse_timestamp_to_millis("20260231120000"), None);
    assert_eq!(parse_timestamp_to_millis("2026"), None);
}

#[test]
fn what_is_seen_of_an_instance() {
    let mut s = EngineStatus::default();
    s.born = true;
    s.idle_timeout_secs = Some(30);
    let o = observe(Some(s.clone()), true, Some("thought".to_string()));
    assert!(matches!(o.engine_online, EngineOnlineStatus::Online));
    assert!(o.idle && o.born && o.infer_output.is_none());
    assert_eq!(o.idle_timeout_secs, Some(30));
    let o = observe(Some(s.clone()), false, None);
    assert!(matches!(o.engine_online, EngineOnlineStatus::Offline));
    s.inferring = true;
    let o = observe(Some(s), false, Some("thought".to_string()));
    assert!(matches!(o.engine_online, EngineOnlineStatus::Inferring));
    assert_eq!(o.infer_output.as_deref(), Some("thought"));
    let o = observe(None, true, None);
    assert!(matches!(o.engine_online, EngineOnlineStatus::Offline));
}

fn dir_entry(name: &str, is_dir: bool, hidden: bool) -> DirEntry {
    DirEntry { name: name.to_string(), is_dir, is_file: !is_dir, len: 7, hidden }
}

#[test]
fn directories_are_listed_first() {
    let entries = vec![
        dir_entry("b.txt", false, false),
        dir_entry(".git", true, true),
        dir_entry("Zoo", true, false),
        dir_entry("A.txt", false, false),
        dir_entry("apps", true, false),
    ];
    let names = |v: Vec<alice_engine::api::types::FileInfo>| -> Vec<String> {
        v.into_iter().map(|f| f.name).collect()
    };
    let listed = list_files("/ws", "/ws", true, &entries);
    assert_eq!(listed[0].size, None);
    assert_eq!(listed[2].size, Some(7));
    assert_eq!(names(listed), vec!["apps", "Zoo", "A.txt", "b.txt"]);
    assert!(list_files("/other", "/ws", true, &entries).is_empty());
    assert!(list_files("/ws/b.txt", "/ws", false, &entries).is_empty());
}

#[test]
fn reading_is_decided_by_what_a_file_is() {
    let text = |r: ReadDecision| match r {
        ReadDecision::Text => "text".to_string(),
        ReadDecision::Answer(a) => a.content,
    };
    assert_eq!(text(decide_read(true, true, 10, 100, "a", false)), "text");
    assert_eq!(
        text(decide_read(false, true, 10, 100, "a", false)),
        "File not found or access denied"
    );
    assert_eq!(text(decide_read(true, true, 101, 100, "a", false)), "File too large (>1MB)");
    assert!(text(decide_read(true, true, 10, 100, "a.png", true)).contains("a.png"));
}

#[test]
fn the_workspace_itself_is_not_removed() {
    assert_eq!(decide_delete("a", "/ws/a", "/ws", true), Ok(DeleteDecision::Directory));
    assert_eq!(decide_delete("a", "/ws/a", "/ws", false), Ok(DeleteDecision::File));
    assert_eq!(
        decide_delete("", "/ws", "/ws", true),
        Err("Cannot delete workspace root".to_string())
    );
    assert_eq!(
        decide_delete(".", "/ws", "/ws", true),
        Err("Cannot delete workspace root".to_string())
    );
    assert_eq!(decide_delete("../x", "/x", "/ws", true), Err("Access denied".to_string()));
    assert_eq!(deleted_answer("a").message.as_deref(), Some("Deleted: a"));
}

#[test]
fn instances_are_shown_by_name_or_id() {
    let named = Settings { name: Some("Bob".to_string()), ..Default::default() };
    assert_eq!(build_instance_info("ab", Some(&named), Some(5)).name, "Bob");
    assert_eq!(build_instance_info("ab", Some(&Settings::default()), None).name, "ab");
    assert_eq!(build_instance_info("ab", None, None).last_active, 0);
    assert_eq!(display_name("  Bob "), Some("Bob".to_string()));
    assert_eq!(display_name("  "), None);
    assert!(created_answer(Ok("ab".to_string())).success);
    assert!(!created_answer(Err("no".to_string())).success);
    assert!(delete_instance("ab", Ok(())).success);
    assert_eq!(delete_instance("ab", Err("no".to_string())).message.as_deref(), Some("no"));
}

#[test]
fn updates_keep_what_they_leave_open() {
    let current = Settings {
        name: Some("Bob".to_string()),
        color: Some("red".to_string()),
        ..Default::default()
    };
    let update = Settings { color: Some("blue".to_string()), ..Default::default() };
    let next = updated_settings(&current, update);
    assert_eq!(next.name.as_deref(), Some("Bob"));
    assert_eq!(next.color.as_deref(), Some("blue"));
    assert!(!settings_answer(None).success);
    assert!(settings_answer(Some("color".to_string())).success);
}

#[test]
fn locations_are_moved_once() {
    let once = process_proxy_response_header("location", "/home", "/proxy/8080").unwrap();
    assert_eq!(process_proxy_response_header("location", &once, "/proxy/8080"), Some(once));
}

#[test]
fn cookies_are_moved_once() {
    let prefix = "/proxy/8080";
    for cookie in ["a=b; Path=/", "a=b; path=/x; HttpOnly", "a=b", "p=/path=/; Path=/y"] {
        let once = rewrite_cookie_path(cookie, prefix);
        assert_eq!(rewrite_cookie_path(&once, prefix), once);
    }
}

#[test]
fn sessions_are_found_behind_other_cookies() {
    let others = "a=1; xs=2; s2=3";
    assert_eq!(extract_session_token(others, "s"), None);
    let cookies = format!("{}; s=token", others);
    assert_eq!(extract_session_token(&cookies, "s"), Some("token".to_string()));
}

#[test]
fn uploads_take_the_first_free_name() {
    let taken: Vec<String> =
        ["a.txt", "a_1.txt", "a_3.txt", "b"].iter().map(|s| s.to_string()).collect();
    assert_eq!(free_upload_name(&taken, "a.txt"), "a_2.txt");
    assert_eq!(free_upload_name(&taken, "b"), "b_1");
    assert_eq!(free_upload_name(&taken, "c.txt"), "c.txt");
}

#[test]
fn changes_of_settings_are_named() {
    assert_eq!(settings_change(&Settings::default()), None);
    let update = Settings {
        max_beats: Some(1),
        model: Some("m".to_string()),
        shell_env: Some("sh".to_string()),
        ..Default::default()
    };
    assert_eq!(settings_change(&update), Some("model, max_beats, shell_env".to_string()));
}
