//! Engines that work together.
use alice_engine::action::execute::resolve_recipient_id;
use alice_engine::api::http_protocol::Header;
use alice_engine::api::routes::{joining_engine_id, with_remote_instances};
use alice_engine::hub::config::{EngineEntry, HubConfig, HubConfigStore};
use alice_engine::hub::contacts::{
    fetch_contacts, format_contacts_list, handle_hub_relay, local_relay_error, relay_from_slave, relay_message, ContactInfo, HubRelay,
    HubRole, LocalInstance, LocalRelayError, RelayOutcome, RelayRoute, SlaveLocalHandler,
};
use alice_engine::hub::host::{first_message, flatten_groups, host_step, HostState, HostStep};
use alice_engine::hub::mode::HubState;
use alice_engine::hub::proxy::{proxy_error, proxy_to_engine, returned};
use alice_engine::hub::slave::{
    engine_endpoint, slave_step, Reconnect, ReconnectEvent, ReconnectStep, SlaveState, SlaveStep,
};
use alice_engine::hub::tunnel::{TunnelEvent, TunnelInstanceInfo, TunnelMessage};

fn instance(id: &str) -> TunnelInstanceInfo {
    TunnelInstanceInfo {
        id: id.to_string(),
        name: format!("n-{}", id),
        avatar: String::new(),
        color: String::new(),
        privileged: false,
        last_active: 0,
    }
}

fn local(id: &str, name: Option<&str>, opened: bool) -> LocalInstance {
    LocalInstance { id: id.to_string(), opened, name: name.map(|n| n.to_string()) }
}

fn slave() -> SlaveState {
    SlaveState::new(
        "http://host:9000".to_string(),
        8081,
        "secret".to_string(),
        "tok".to_string(),
        "e1".to_string(),
    )
}

#[test]
fn registered_instances_are_found_until_the_engine_is_gone() {
    let mut host = HostState::new("t".to_string());
    let (id, dropped) = host.register("given", "e1", "http://a", vec![instance("x")]);
    assert_eq!(id, "e1");
    assert!(dropped.is_empty());
    assert_eq!(host.find_instance_engine("x"), Some("e1".to_string()));
    assert_eq!(host.find_instance_engine("y"), None);
    assert!(host.update_instances("e1", vec![instance("y")]));
    assert_eq!(host.find_instance_engine("x"), None);
    assert_eq!(host.find_instance_engine("y"), Some("e1".to_string()));
    assert_eq!(host.slave_count(), 1);
    assert!(host.mark_disconnected("e1"));
    assert_eq!(host.find_instance_engine("y"), None);
    assert_eq!(host.slave_count(), 0);
    host.remove("e1");
    assert_eq!(host.slave_count(), 0);
    assert!(!host.mark_disconnected("e1"));
}

#[test]
fn an_engine_takes_the_place_of_one_at_the_same_address() {
    let mut host = HostState::new("t".to_string());
    host.register("a", "", "http://same", vec![instance("x")]);
    let (id, dropped) = host.register("b", "", "http://same", vec![instance("z")]);
    assert_eq!(id, "b");
    assert_eq!(dropped, vec!["a".to_string()]);
    assert_eq!(host.find_instance_engine("x"), None);
    let all = flatten_groups(&host.get_all_remote_instances());
    assert_eq!(all.len(), 1);
    assert_eq!(all[0].id, "z");
    let shown = with_remote_instances(Vec::new(), &all);
    assert_eq!(shown[0].name, "n-z");
}

#[test]
fn hosts_answer_heartbeats() {
    assert!(matches!(
        host_step(TunnelEvent::Message(TunnelMessage::Heartbeat)),
        HostStep::Heartbeat
    ));
    assert!(matches!(host_step(TunnelEvent::Message(TunnelMessage::Leave)), HostStep::End));
    assert!(matches!(host_step(TunnelEvent::Closed), HostStep::End));
    assert!(matches!(host_step(TunnelEvent::Noise), HostStep::Wait));
    let register = TunnelEvent::Message(TunnelMessage::Register {
        engine_id: "e".to_string(),
        engine_endpoint: "http://e".to_string(),
        instances: vec![],
    });
    let (id, endpoint, instances) = first_message(register).unwrap();
    assert_eq!(id, "e");
    assert_eq!(endpoint, "http://e");
    assert!(instances.is_empty());
    assert!(first_message(TunnelEvent::Noise).is_none());
}

#[test]
fn slaves_pass_messages_on() {
    match slave_step(TunnelEvent::Message(TunnelMessage::Rpc { payload: "p".to_string() })) {
        SlaveStep::Deliver { payload } => assert_eq!(payload, "p"),
        other => panic!("unexpected step {:?}", other),
    }
    match slave_step(TunnelEvent::Outgoing { payload: "q".to_string() }) {
        SlaveStep::Send { payload } => assert_eq!(payload, "q"),
        other => panic!("unexpected step {:?}", other),
    }
    assert!(matches!(slave_step(TunnelEvent::SendFailed), SlaveStep::End));
}

#[test]
fn modes_exclude_each_other() {
    let mut hub = HubState::new();
    assert_eq!(hub.status().mode, "off");
    assert!(hub.enable_host("t".to_string()).is_ok());
    assert_eq!(hub.enable_host("t".to_string()), Err("Already in host mode".to_string()));
    assert_eq!(
        hub.join_host(slave()),
        Err("Currently in host mode. Disable first.".to_string())
    );
    assert!(hub.as_host().is_some());
    assert!(hub.disable_host().is_ok());
    assert_eq!(hub.disable_host(), Err("Not in host mode".to_string()));
    assert!(hub.join_host(slave()).is_ok());
    assert_eq!(
        hub.enable_host("t".to_string()),
        Err("Currently joined to a host. Leave first.".to_string())
    );
    assert_eq!(
        hub.join_host(slave()),
        Err("Already joined to a host. Leave first.".to_string())
    );
    assert!(hub.as_slave().is_some());
    assert!(hub.leave_host().is_ok());
    assert_eq!(hub.leave_host(), Err("Not joined to any host".to_string()));
}

#[test]
fn waits_double_up_to_a_minute() {
    let mut r = Reconnect::new();
    let mut waits: Vec<u64> = Vec::new();
    let mut step = r.next(ReconnectEvent::Lost, true);
    for _ in 0..7 {
        match step {
            ReconnectStep::Wait { secs } => waits.push(secs),
            other => panic!("unexpected step {:?}", other),
        }
        assert!(matches!(r.next(ReconnectEvent::Waited, true), ReconnectStep::Connect));
        step = r.next(ReconnectEvent::Failed, true);
    }
    assert_eq!(waits, vec![2, 4, 8, 16, 32, 60, 60]);
    assert!(matches!(r.next(ReconnectEvent::Connected, true), ReconnectStep::Register));
    assert!(matches!(r.next(ReconnectEvent::Registered, true), ReconnectStep::Run));
    assert!(matches!(r.next(ReconnectEvent::Lost, true), ReconnectStep::Wait { secs: 2 }));
    assert!(matches!(r.next(ReconnectEvent::Lost, false), ReconnectStep::GiveUp));
}

#[test]
fn slaves_register_with_their_instances() {
    let mut s = slave();
    assert_eq!(s.ws_url(), "ws://host:9000/api/hub/ws?token=tok");
    match s.register_message(&Some("me.example".to_string())) {
        TunnelMessage::Register { engine_id, engine_endpoint, .. } => {
            assert_eq!(engine_id, "e1");
            assert!(engine_endpoint.contains("me.example"));
        }
        other => panic!("unexpected message {:?}", other),
    }
    assert!(s.instances_update(vec![instance("x")]).is_some());
    assert!(engine_endpoint(&None, 8081).contains("8081"));
    s.stop_reconnect();
    assert!(!s.should_reconnect);
    assert_eq!(joining_engine_id(&vec![instance("x")]), "x");
    assert_eq!(joining_engine_id(&Vec::new()), "unknown");
}

#[test]
fn contacts_leave_out_who_asks() {
    let remote = vec![instance("far"), instance("me")];
    let here = vec![
        local("me", Some("Me"), true),
        local("near", Some("Near"), true),
        local("broken", None, false),
    ];
    let cs = fetch_contacts(&remote, &here, "me");
    let ids: Vec<&str> = cs.iter().map(|c| c.id.as_str()).collect();
    assert!(ids.contains(&"far"));
    assert!(ids.contains(&"near"));
    assert!(!ids.contains(&"me"));
    let handler = SlaveLocalHandler::new(vec![local("a", None, true), local("b", None, true)]);
    let cs = handler.local_contacts("a");
    assert_eq!(cs.len(), 1);
    assert_eq!(cs[0].id, "b");
}

#[test]
fn messages_are_relayed_by_role() {
    assert!(matches!(relay_message(HubRole::Off, true, true), RelayRoute::Local));
    assert!(matches!(relay_message(HubRole::Host, false, true), RelayRoute::Local));
    assert!(matches!(relay_message(HubRole::Host, true, true), RelayRoute::Tunnel));
    match relay_message(HubRole::Host, true, false) {
        RelayRoute::Fail(e) => assert_eq!(e, "Slave tunnel endpoint not available"),
        other => panic!("unexpected route {:?}", other),
    }
    match relay_message(HubRole::Joined, false, false) {
        RelayRoute::Fail(e) => assert_eq!(e, "Not connected to host"),
        other => panic!("unexpected route {:?}", other),
    }
    assert!(matches!(relay_from_slave(true, false, false, "x"), RelayRoute::Local));
    assert!(matches!(relay_from_slave(false, false, false, "x"), RelayRoute::Fail(_)));
}

#[test]
fn relays_are_answered() {
    assert!(handle_hub_relay(&RelayOutcome::Answered(200), "x").success);
    assert_eq!(
        handle_hub_relay(&RelayOutcome::Answered(500), "x").message.as_deref(),
        Some("Target engine returned 500")
    );
    assert_eq!(
        handle_hub_relay(&RelayOutcome::NoAnswer, "x").message.as_deref(),
        Some("Tunnel request failed")
    );
    assert!(handle_hub_relay(&RelayOutcome::Delivered, "x").success);
    assert_eq!(
        handle_hub_relay(&RelayOutcome::Unknown, "x").message.as_deref(),
        Some("Instance x not found")
    );
    let a = local_relay_error("x", &LocalRelayError::NotFound("gone".to_string()));
    let b = local_relay_error("x", &LocalRelayError::WriteFailed("full".to_string()));
    assert!(a.contains("gone"));
    assert!(b.contains("full"));
}

#[test]
fn cookies_do_not_leave_the_engine() {
    let hs = vec![
        Header { name: "Cookie".to_string(), value: "mine".to_string() },
        Header { name: "Accept".to_string(), value: "*/*".to_string() },
    ];
    let q = proxy_to_engine("http://e", "session=t", "GET", "/a", Some("x=1"), &hs);
    assert_eq!(q.url, "http://e/a?x=1");
    assert_eq!(q.cookie, "session=t");
    assert!(q.headers.iter().all(|h| h.value != "mine"));
    let back = vec![
        Header { name: "Transfer-Encoding".to_string(), value: "chunked".to_string() },
        Header { name: "ETag".to_string(), value: "1".to_string() },
    ];
    assert_eq!(returned(&back).len(), 1);
    assert!(proxy_error("down").contains("down"));
}

#[test]
fn hub_settings_are_kept() {
    let mut store = HubConfigStore::open(None);
    assert!(store.load().engines.is_empty());
    let entry = EngineEntry {
        label: "a".to_string(),
        endpoint: "http://a".to_string(),
        auth_token: "t".to_string(),
    };
    store.save(&HubConfig { engines: vec![entry] });
    let back = store.load();
    assert_eq!(back.engines.len(), 1);
    assert_eq!(back.engines[0].endpoint, "http://a");
}

#[test]
fn messages_travel_to_the_engine_that_has_their_recipient() {
    let mut host = HostState::new("t".to_string());
    host.register("given", "e1", "http://a", vec![instance("x")]);
    let json = b"{\"a\":1}".to_vec();
    match host.relay_route("x", &json) {
        HubRelay::Tunnel { engine_id, request } => {
            assert_eq!(engine_id, "e1");
            assert_eq!(request.method, "POST");
            assert_eq!(request.path, "/api/instances/x/messages/relay");
            assert_eq!(request.headers.len(), 1);
            assert_eq!(request.headers[0].name, "Content-Type");
            assert_eq!(request.headers[0].value, "application/json");
            assert_eq!(request.body.as_deref(), Some("eyJhIjoxfQ=="));
        }
        other => panic!("unexpected route {:?}", other),
    }
    assert!(matches!(host.relay_route("y", &json), HubRelay::Local));
    host.mark_disconnected("e1");
    assert!(matches!(host.relay_route("x", &json), HubRelay::Local));
}

#[test]
fn contacts_are_reached_as_they_are_shown() {
    let contacts = vec![
        ContactInfo { id: "48f5fd".to_string(), name: Some("三号（产品）".to_string()) },
        ContactInfo { id: "x".to_string(), name: None },
    ];
    assert_eq!(format_contacts_list(&contacts), "三号（产品）(48f5fd)\nx");
    assert_eq!(
        resolve_recipient_id("三号（产品）(48f5fd)", &contacts),
        Some("48f5fd".to_string())
    );
    assert_eq!(resolve_recipient_id("x", &contacts), Some("x".to_string()));
    assert_eq!(format_contacts_list(&Vec::new()), "");
}
