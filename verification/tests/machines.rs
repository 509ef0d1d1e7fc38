//! The machines that drive an instance.
use alice_engine::agent::alice::{Alice, InstancePolicy};
use alice_engine::agent::beat::{
    plan_beat, preamble_action, settle, BeatPlan, BeatRun, BeatStep,
};
use alice_engine::agent::channels::{channel_display_name, ChannelState};
use alice_engine::agent::pulse::{
    announce, disk_warning, ExitReason, Pulse, PulseEvent, PulsePolicy, PulseStep,
};
use alice_engine::agent::roll::{
    condensed_history, decide_roll, full_blocks, outcome_message, prepare_roll, render_blocks,
    roll_message, roll_outcome, RollDecision, RollOutcome, RollTask, SessionEntry,
};
use alice_engine::agent::signal::{EngineStatus, SignalHub};
use alice_engine::bindings::i18n::beat_limit_reached;
use alice_engine::chat::ChatHistory;
use alice_engine::external::llm::LlmConfig;
use alice_engine::inference::compress::CompressOutput;
use alice_engine::inference::output::ActionOutput;
use alice_engine::inference::{parse_actions, Action};
use alice_engine::persist::settings::Settings;

fn pulse_policy() -> PulsePolicy {
    PulsePolicy {
        beat_interval_secs: 3,
        error_backoff_secs: 10,
        disk_check_interval_beats: 10,
        disk_min_available_mb: 100,
        inference_backoff_base_secs: 5,
        inference_backoff_max_exponent: 6,
        inference_backoff_cap_secs: 60,
    }
}

fn config(model: &str) -> LlmConfig {
    LlmConfig {
        model: model.to_string(),
        api_key: "k".to_string(),
        temperature: None,
        max_tokens: None,
    }
}

fn alice() -> Alice {
    let policy = InstancePolicy {
        session_blocks_limit: 3,
        session_block_kb: 8,
        history_kb: 16,
        safety_max_consecutive_beats: 20,
        safety_cooldown_secs: 60,
        test_instance_prefix: "test-".to_string(),
        test_instance_max_beats: 10,
        default_model: "openai@default".to_string(),
    };
    let s = Settings { api_key: Some("k".to_string()), ..Default::default() };
    Alice::new("a", &s, &policy)
}

#[test]
fn idle_instances_wait_for_messages() {
    let policy = pulse_policy();
    let mut p = Pulse::new(None, 3, 60);
    assert_eq!(p.next(PulseEvent::Round { shutdown: false }, &policy), PulseStep::LoadSettings);
    let quiet = PulseEvent::Reloaded { unread: 0, now_ms: 0 };
    assert_eq!(p.next(quiet, &policy), PulseStep::SleepIdle);
    let mail = PulseEvent::Reloaded { unread: 1, now_ms: 0 };
    assert!(matches!(p.next(mail, &policy), PulseStep::Beat { check_disk: true }));
    assert_eq!(
        p.next(PulseEvent::Round { shutdown: true }, &policy),
        PulseStep::Exit { why: ExitReason::Shutdown }
    );
}

#[test]
fn too_many_beats_in_a_row_are_cooled_down() {
    let policy = pulse_policy();
    let mut p = Pulse::new(None, 3, 60);
    p.last_was_idle = false;
    let mut beats = 0;
    for _ in 0..10 {
        match p.next(PulseEvent::Reloaded { unread: 0, now_ms: 0 }, &policy) {
            PulseStep::Beat { .. } => {
                beats += 1;
                p.next(PulseEvent::BeatDone { shutdown: false }, &policy);
                p.next(PulseEvent::RollPrepared { started: false }, &policy);
            }
            PulseStep::Cooldown { beats: n, secs } => {
                assert_eq!(n, 3);
                assert_eq!(secs, 60);
                break;
            }
            other => panic!("unexpected step {:?}", other),
        }
    }
    assert_eq!(beats, 3);
    let said = announce(&PulseStep::Cooldown { beats: 3, secs: 60 });
    assert!(said.is_some());
    assert!(announce(&PulseStep::Again).is_none());
}

#[test]
fn beats_stop_at_their_limit() {
    let policy = pulse_policy();
    let mut p = Pulse::new(Some(1), 30, 60);
    p.last_was_idle = false;
    assert!(matches!(
        p.next(PulseEvent::Reloaded { unread: 0, now_ms: 0 }, &policy),
        PulseStep::Beat { .. }
    ));
    p.next(PulseEvent::BeatDone { shutdown: false }, &policy);
    let last = p.next(PulseEvent::Reloaded { unread: 5, now_ms: 0 }, &policy);
    assert_eq!(
        last,
        PulseStep::Exit { why: ExitReason::BeatLimit { announce: true, beats: 1, max: 1 } }
    );
    assert_eq!(announce(&last), Some(beat_limit_reached(1, 1)));
}

#[test]
fn failures_put_off_the_next_inference() {
    let policy = pulse_policy();
    let mut p = Pulse::new(None, 30, 60);
    let first = p.note_failure(1000, &policy);
    let second = p.note_failure(1000, &policy);
    assert!(first <= second);
    assert!(p.backoff_remaining(1000).is_some());
    p.last_was_idle = false;
    assert!(matches!(
        p.next(PulseEvent::Reloaded { unread: 1, now_ms: 1000 }, &policy),
        PulseStep::Wait { .. }
    ));
    p.note_success();
    assert!(p.backoff_remaining(1000).is_none());
    assert_eq!(
        p.next(PulseEvent::BeatFailed, &policy),
        PulseStep::Recover { secs: 10 }
    );
}

#[test]
fn full_disks_are_reported() {
    let policy = pulse_policy();
    assert!(disk_warning(Some(99), &policy).is_some());
    assert!(disk_warning(Some(100), &policy).is_none());
    assert!(disk_warning(None, &policy).is_none());
}

#[test]
fn interrupts_are_seen_once() {
    let mut hub = SignalHub::new();
    assert!(!hub.set_interrupt("a"));
    hub.register("a", vec![config("m")]);
    hub.register("b", vec![config("m")]);
    assert!(hub.set_interrupt("a"));
    assert!(hub.set_interrupt("a"));
    assert!(!hub.check_interrupt("b"));
    assert!(hub.check_interrupt("a"));
    assert!(!hub.check_interrupt("a"));
    let mut s = EngineStatus::default();
    s.inferring = true;
    assert!(hub.update_status("a", s));
    assert!(hub.get_status("a").unwrap().inferring);
    assert!(!hub.get_status("b").unwrap().inferring);
    hub.unregister("a");
    assert!(hub.get_status("a").is_none());
}

#[test]
fn channels_take_turns() {
    let mut c = ChannelState {
        configs: vec![config("openai@a"), config("openai@b")],
        index: 0,
    };
    assert_eq!(channel_display_name(0), "primary");
    assert_eq!(channel_display_name(1), "extra1");
    assert_eq!(c.create_channel(100).model_id, "a");
    assert_eq!(c.current_config().unwrap().model, "openai@a");
    assert!(c.advance_channel().is_some());
    assert_eq!(c.create_channel(100).model_id, "b");
    assert_eq!(c.current_config().unwrap().model, "openai@b");
    c.advance_channel();
    assert_eq!(c.create_channel(100).model_id, "a");
    c.select_channel(1);
    assert_eq!(c.index, 1);
    c.select_channel(7);
    assert_eq!(c.index, 0);
    let (names, _, _) = c.channels_status();
    assert_eq!(names.len(), 2);
    c.update_channel_configs(vec![config("openai@c")]);
    assert!(c.advance_channel().is_none());
}

#[test]
fn beats_run_their_actions_in_order() {
    let mut a = alice();
    let mut run = BeatRun::start(&mut a);
    let think = Action::Thinking { content: "hm".to_string() };
    let id = match run.on_action(false, &think) {
        BeatStep::Execute { action_id } => action_id,
        other => panic!("unexpected step {:?}", other),
    };
    let (out, _) = run.on_executed(&mut a.pulse, &id, &think, Ok(ActionOutput::Empty), 0);
    assert!(matches!(out, ActionOutput::Empty));
    let idle = Action::Idle { timeout_secs: Some(5) };
    let id = match run.on_action(false, &idle) {
        BeatStep::Execute { action_id } => action_id,
        other => panic!("unexpected step {:?}", other),
    };
    run.on_executed(&mut a.pulse, &id, &idle, Ok(ActionOutput::Empty), 100);
    assert!(a.pulse.last_was_idle);
    assert_eq!(a.pulse.idle_timeout_secs, Some(5));
    assert!(matches!(run.on_action(false, &think), BeatStep::Stop(_)));
}

#[test]
fn interrupted_beats_stop() {
    let mut a = alice();
    let mut run = BeatRun::start(&mut a);
    let think = Action::Thinking { content: "hm".to_string() };
    match run.on_action(true, &think) {
        BeatStep::Stop(note) => assert_eq!(note.sort, "interrupt"),
        other => panic!("unexpected step {:?}", other),
    }
    assert!(run.tx.action_records.is_empty());
}

#[test]
fn idling_is_cancelled_after_a_failed_message() {
    let mut a = alice();
    let mut run = BeatRun::start(&mut a);
    run.tx.cancel_idle = true;
    match run.on_action(false, &Action::Idle { timeout_secs: None }) {
        BeatStep::Cancel { output: ActionOutput::Note { text }, action_id } => {
            assert_eq!(text, "idle cancelled: send_msg failed earlier in this beat");
            assert!(action_id.len() >= 21);
            assert!(action_id[..14].bytes().all(|b| b.is_ascii_digit()));
            assert_eq!(&action_id[14..15], "_");
        }
        other => panic!("unexpected step {:?}", other),
    }
    assert!(run.tx.action_records[0].duration.is_some());
    assert!(BeatRun::on_failure(true, "e".to_string()).is_ok());
    assert_eq!(BeatRun::on_failure(false, "e".to_string()).unwrap_err(), "e");
}

#[test]
fn messages_are_read_before_anything_else() {
    let p = Pulse::new(None, 3, 60);
    assert_eq!(plan_beat(&p, 2), BeatPlan::AutoRead);
    match settle(Err("boom".to_string())) {
        ActionOutput::Note { text } => assert!(text.contains("boom")),
        other => panic!("unexpected output {:?}", other),
    }
    assert!(matches!(preamble_action("so"), Action::Thinking { .. }));
}

#[test]
fn histories_roll_one_block_at_a_time() {
    let blocks: Vec<String> = vec!["1".to_string(), "2".to_string(), "3".to_string()];
    assert!(matches!(decide_roll(&blocks, 9, &None), RollDecision::NotNeeded));
    assert!(matches!(decide_roll(&blocks, 3, &None), RollDecision::NotNeeded));
    assert!(matches!(decide_roll(&Vec::new(), 0, &None), RollDecision::NotNeeded));
    match decide_roll(&blocks, 2, &None) {
        RollDecision::Roll { block, .. } => assert_eq!(block, "1"),
        other => panic!("unexpected decision {:?}", other),
    }
    match decide_roll(&blocks, 2, &Some("1".to_string())) {
        RollDecision::DropResidual { block } => assert_eq!(block, "1"),
        other => panic!("unexpected decision {:?}", other),
    }
    assert!(matches!(prepare_roll("1", &Vec::new(), "h", 16), RollTask::DropEmpty { .. }));
    assert!(condensed_history(&Vec::new()).is_err());
    let one = vec![CompressOutput { summary: "short".to_string() }];
    assert_eq!(condensed_history(&one), Ok("short".to_string()));
    assert!(!roll_message("old", &Ok("new".to_string())).is_empty());
}

#[test]
fn written_answers_are_read_back() {
    let text = "Action-abc123\nsend_msg\nrecipient-abc123\nuser\ncontent-abc123\nhi\nthere\nAction-abc123\nidle\n30\nAction-abc123\nread_msg\nAction-end-abc123";
    let actions = parse_actions(text, "abc123").unwrap();
    assert_eq!(actions.len(), 3);
    match &actions[0] {
        Action::SendMsg { recipient, content } => {
            assert_eq!(recipient, "user");
            assert_eq!(content, "hi\nthere");
        }
        other => panic!("unexpected action {:?}", other),
    }
    assert!(matches!(actions[1], Action::Idle { timeout_secs: Some(30) }));
    assert!(matches!(actions[2], Action::ReadMsg));
}

#[test]
fn test_count_unread_messages() {
    let chat = alice_engine::chat::ChatHistory::new();
    assert_eq!(chat.count_unread_user_messages(), 0);
}

#[test]
fn distilling_replaces_one_block() {
    let a = alice_engine::agent::record::record_block("20260101000000_aaaaaa", "long text");
    let b = alice_engine::agent::record::record_block("20260101000001_bbbbbb", "other");
    let current = format!("{}{}", a, b);
    let (text, out) = alice_engine::agent::record::distill_record(
        &current,
        "20260101000000_aaaaaa",
        " short ",
    )
    .unwrap();
    assert!(text.starts_with("---------行为编号[20260101000000_aaaaaa]开始---------\n[已提炼] short\n"));
    assert!(text.ends_with(&b));
    match out {
        ActionOutput::Distill { old_bytes, new_bytes } => {
            assert_eq!(old_bytes, a.len());
            assert_eq!(new_bytes, text.len() - b.len());
        }
        other => panic!("unexpected output {:?}", other),
    }
    let e = alice_engine::agent::record::distill_record(&current, "x", "s").unwrap_err();
    assert_eq!(e, "Action block not found: x");
}

#[test]
fn timed_idling_ends() {
    let policy = pulse_policy();
    let mut p = Pulse::new(None, 3, 60);
    p.fall_idle(Some(8), 0);
    let slept =
        PulseEvent::Slept { shutdown: false, interrupted: false, unread: 0, now_ms: 0 };
    assert_eq!(p.next(slept, &policy), PulseStep::Again);
    assert_eq!(p.next(slept, &policy), PulseStep::Again);
    assert!(matches!(p.next(slept, &policy), PulseStep::Beat { .. }));
    assert!(!p.last_was_idle);
    p.fall_idle(Some(8), 0);
    let asked = PulseEvent::Slept { shutdown: false, interrupted: true, unread: 0, now_ms: 0 };
    assert_eq!(p.next(asked, &policy), PulseStep::ShowIdle);
    assert_eq!(p.idle_timeout_secs, None);
}

#[test]
fn rolling_comes_to_one_of_three_ends() {
    assert_eq!(roll_outcome(&vec![], "h").unwrap_err(), "LLM returned no compress output");
    let blank = vec![CompressOutput { summary: " \n".to_string() }];
    let silent = roll_outcome(&blank, "h").unwrap();
    assert!(matches!(silent, RollOutcome::Silent));
    assert!(outcome_message(&silent).contains("压缩结果为空"));
    let good = vec![CompressOutput { summary: " new \n".to_string() }];
    match roll_outcome(&good, "old").unwrap() {
        RollOutcome::Rolled { old_history, new_history } => {
            assert_eq!(old_history, "old");
            assert_eq!(new_history, "new");
        }
        other => panic!("unexpected outcome {:?}", other),
    }
}

#[test]
fn sessions_show_their_messages() {
    let mut chat = ChatHistory::new();
    chat.write_user_message("u", "early", "20260220110000", "chat");
    chat.write_user_message("u", "hello", "20260220120000", "chat");
    chat.write_agent_reply("a", "hi", "20260220120001");
    let entries = vec![SessionEntry {
        first_msg: "20260220120000".to_string(),
        last_msg: "20260220120001".to_string(),
        summary: "greetings".to_string(),
    }];
    let blocks = full_blocks(&entries, &chat);
    assert_eq!(blocks.len(), 1);
    assert_eq!(blocks[0].start_time, "20260220120000");
    assert_eq!(blocks[0].summary, "greetings");
    assert_eq!(blocks[0].messages.len(), 2);
    assert_eq!(blocks[0].messages[0].sender_role, "user");
    assert_eq!(blocks[0].messages[0].sender_id.as_deref(), Some("u"));
    assert_eq!(blocks[0].messages[1].content, "hi");
    assert!(render_blocks(&blocks).contains("hello"));
}
