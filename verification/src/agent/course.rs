//! How a beat and the pulse of an instance take their course.
use vstd::prelude::*;

use crate::agent::alice;
use crate::agent::alice::{Alice, InstancePolicy};
use crate::agent::beat;
use crate::agent::beat::{BeatRun, BeatStep};
use crate::agent::channels;
use crate::agent::guard;
use crate::agent::guard::{SequenceState, VerdictModel};
use crate::agent::pulse;
use crate::agent::pulse::{ExitReason, Pulse, PulseEvent, PulsePolicy, PulseStep};
use crate::agent::transaction;
use crate::agent::transaction::ActionRecord;
use crate::inference::action;
use crate::inference::action::ActionModel;
use crate::inference::output::ActionOutput;
use crate::persist::settings::Settings;
use crate::text::number;
use crate::text::parts;
use crate::text::search;
use crate::util;

verus! {

/// Only the result of a script and what was read have to be seen before the model goes
/// on.
pub proof fn law_scripts_and_reading_block(a: ActionModel)
    ensures
        match a {
            ActionModel::Script { .. } => action::blocking(a),
            ActionModel::ReadMsg => action::blocking(a),
            _ => !action::blocking(a),
        },
{
}

/// Behind a plain start of a beat, a script or a reading is followed only by such, and
/// an idle by nothing at all, whatever comes in between.
pub proof fn law_order_within_a_beat(
    id: Seq<char>,
    start: Seq<ActionModel>,
    turn: ActionModel,
    a: ActionModel,
)
    requires
        forall|i: int|
            0 <= i < start.len() ==> !(#[trigger] start[i] is Script) && !(start[i] is ReadMsg)
                && !(start[i] is Idle),
    ensures
        ({
            let s = guard::state_after(SequenceState::Normal, start.push(turn));
            let v = guard::verdict(id, s, a);
            &&& turn is Idle && a is Idle ==> v is Ignore
            &&& turn is Idle && !(a is Idle) ==> v is Reject
            &&& turn is Script || turn is ReadMsg ==> match a {
                ActionModel::Idle { .. } => v is Ignore,
                ActionModel::Script { .. } => v is Allow,
                ActionModel::ReadMsg => v is Allow,
                _ => v is Reject,
            }
            &&& !(turn is Idle || turn is Script || turn is ReadMsg) ==> v is Allow
        }),
{
    assert forall|i: int| 0 <= i < start.len() implies !action::blocking(#[trigger] start[i])
        && !(start[i] is Idle) by {}
    guard::law_plain_runs_are_allowed(id, start, a);
    assert(start.push(turn).drop_last() =~= start);
    assert(start.push(turn).last() == turn);
}

/// A rejection names the instance and the action.
pub proof fn law_rejections_name_the_action(id: Seq<char>, s: SequenceState, a: ActionModel)
    ensures
        match guard::verdict(id, s, a) {
            VerdictModel::Reject(reason) => {
                &&& search::has_text(reason, id)
                &&& search::has_text(reason, action::display_text(a))
            },
            _ => true,
        },
{
    let shown = action::display_text(a);
    parts::lemma_whole(id);
    parts::lemma_whole(shown);
    parts::lemma_in_five(
        "[SEQUENCE-"@,
        id,
        "] Non-blocking action '"@,
        shown,
        "' after blocking action — aborting inference"@,
        id,
    );
    parts::lemma_in_five(
        "[SEQUENCE-"@,
        id,
        "] Non-blocking action '"@,
        shown,
        "' after blocking action — aborting inference"@,
        shown,
    );
    parts::lemma_in_five(
        "[SEQUENCE-"@,
        id,
        "] Action '"@,
        shown,
        "' after idle — zero tolerance, aborting inference"@,
        id,
    );
    parts::lemma_in_five(
        "[SEQUENCE-"@,
        id,
        "] Action '"@,
        shown,
        "' after idle — zero tolerance, aborting inference"@,
        shown,
    );
}

/// After an interruption nothing more is done or put on record; before it, an action
/// that may come is put on record as the last one and carried out, except that an idle
/// is called off where a message of this beat could not be sent.
pub proof fn law_what_becomes_of_an_action(
    before: BeatRun,
    interrupted: bool,
    a: ActionModel,
    after: BeatRun,
    step: BeatStep,
)
    requires
        beat::is_step(before, interrupted, a, after, step),
    ensures
        interrupted ==> step is Stop && after.tx.action_records@ == before.tx.action_records@,
        !interrupted && before.guard.state == SequenceState::Normal ==> {
            &&& after.tx.action_records@.len() == before.tx.action_records@.len() + 1
            &&& after.tx.action_records@.last().action@ == a
            &&& a is Idle && before.tx.cancel_idle <==> step is Cancel
            &&& !(a is Idle && before.tx.cancel_idle) <==> step is Execute
            &&& step matches BeatStep::Execute { action_id } ==> after.tx.action_records@.last().action_id@
                == action_id@
        },
        !interrupted && before.guard.state == SequenceState::AfterIdle ==> {
            &&& after.tx.action_records@ == before.tx.action_records@
            &&& a is Idle ==> step is Skip
            &&& !(a is Idle) ==> step is Stop
        },
        !interrupted && before.guard.state == SequenceState::AfterBlocking ==> {
            &&& (a is Script || a is ReadMsg) <==> step is Execute
            &&& a is Idle <==> step is Skip
            &&& !(a is Script || a is ReadMsg || a is Idle) <==> step is Stop
        },
{
}

/// What went wrong is told in what the action is said to have come to.
pub proof fn law_errors_are_told(o: ActionOutput, result: Result<ActionOutput, String>)
    requires
        beat::is_output(o, result),
    ensures
        match result {
            Ok(given) => o == given,
            Err(e) => o matches ActionOutput::Note { text } && search::has_text(text@, e@),
        },
{
    if let Err(e) = result {
        parts::lemma_whole(e@);
        parts::lemma_part_of_sum("Action error: "@, e@, e@);
    }
}

/// What a model says before its first action is kept whole as a thought.
pub proof fn law_preambles_are_kept(text: Seq<char>)
    ensures
        search::has_suffix(beat::preamble_thought(text), text),
{
    let r = beat::preamble_thought(text);
    assert(r.subrange(r.len() - text.len(), r.len() as int) =~= text);
}

/// The summary of a beat is that of its last summing up.
pub proof fn law_the_last_summary_counts(records: Seq<ActionRecord>, r: ActionRecord)
    ensures
        ({
            let more = records.push(r);
            let last = beat::last_summary_of(more, more.len() as int);
            match r.action@ {
                ActionModel::Summary { content } => last == Some(content),
                _ => last == beat::last_summary_of(records, records.len() as int),
            }
        }),
        beat::last_summary_of(Seq::empty(), 0) is None,
{
    lemma_same_start(records, records.push(r), records.len() as int);
}

proof fn lemma_same_start(a: Seq<ActionRecord>, b: Seq<ActionRecord>, n: int)
    requires
        0 <= n <= a.len(),
        n <= b.len(),
        forall|i: int| 0 <= i < n ==> a[i] == b[i],
    ensures
        beat::last_summary_of(a, n) == beat::last_summary_of(b, n),
    decreases n,
{
    if n > 0 {
        lemma_same_start(a, b, n - 1);
    }
}

/// The record that is marked as done is one of the action's name, and the only one that
/// changes.
pub proof fn law_only_the_done_action_is_marked(
    before: Seq<ActionRecord>,
    after: Seq<ActionRecord>,
    id: Seq<char>,
    i: int,
)
    requires
        transaction::marked_done(before, after, id),
        0 <= i < before.len(),
    ensures
        after.len() == before.len(),
        after[i].action_id@ == before[i].action_id@,
        after[i].action@ == before[i].action@,
        before[i].action_id@ != id ==> after[i] == before[i],
        before[i].action_id@ == id && (forall|j: int|
            0 <= j < before.len() && j != i ==> (#[trigger] before[j]).action_id@ != id)
            ==> after[i].duration is Some,
{
    lemma_found(before, id, 0);
}

proof fn lemma_found(records: Seq<ActionRecord>, id: Seq<char>, i: int)
    requires
        0 <= i,
    ensures
        match transaction::record_from(records, id, i) {
            Some(k) => i <= k < records.len() && records[k].action_id@ == id,
            None => forall|j: int| i <= j < records.len() ==> (#[trigger] records[j]).action_id@ != id,
        },
    decreases records.len() - i,
{
    if i < records.len() {
        lemma_found(records, id, i + 1);
    }
}

/// The names of actions are told apart by their moments and by their tokens.
pub proof fn law_action_names_differ(t: Seq<char>, a: Seq<char>, b: Seq<char>)
    requires
        a != b,
    ensures
        transaction::action_id_text(t, a) != transaction::action_id_text(t, b),
        transaction::action_id_text(a, t) != transaction::action_id_text(b, t),
        search::has_prefix(transaction::action_id_text(t, a), t),
        search::has_suffix(transaction::action_id_text(t, a), a),
{
    let r = transaction::action_id_text(t, a);
    assert(r.subrange(0, t.len() as int) =~= t);
    assert(r.subrange(r.len() - a.len(), r.len() as int) =~= a);
    if transaction::action_id_text(t, a) == transaction::action_id_text(t, b) {
        parts::lemma_cancel_left(t + "_"@, a, b);
    }
    if transaction::action_id_text(a, t) == transaction::action_id_text(b, t) {
        parts::lemma_cancel_right(a + "_"@, b + "_"@, t);
        parts::lemma_cancel_right(a, b, "_"@);
    }
}

/// A failure is counted, the instance waits before it asks again, never longer than the
/// cap, and the turn passes to another model where there is one. Nothing else of the
/// instance changes.
pub proof fn law_failures_make_it_wait(
    before: Alice,
    after: Alice,
    now_ms: u64,
    policy: PulsePolicy,
    secs: u64,
)
    requires
        alice::failed(before, after, now_ms, policy, secs),
        now_ms + secs * 1000 <= u64::MAX,
    ensures
        before.pulse.inference_failures < u32::MAX ==> after.pulse.inference_failures
            == before.pulse.inference_failures + 1,
        after.pulse.inference_backoff_until == Some((now_ms + secs * 1000) as u64),
        secs <= policy.inference_backoff_cap_secs,
        before.pulse.inference_failures == 0 && policy.inference_backoff_base_secs
            <= policy.inference_backoff_cap_secs ==> secs == policy.inference_backoff_base_secs,
        before.channels.configs@.len() > 1 && before.channels.index < u64::MAX
            ==> after.channels.index == before.channels.index + 1,
        before.channels.configs@.len() <= 1 ==> after.channels.index == before.channels.index,
        after.channels.configs == before.channels.configs,
        after.instance_id == before.instance_id,
        after.pulse.beat_count == before.pulse.beat_count,
        after.pulse.last_was_idle == before.pulse.last_was_idle,
        after.pulse.max_beats == before.pulse.max_beats,
{
    assert(util::doubled(policy.inference_backoff_base_secs as nat, 0)
        == policy.inference_backoff_base_secs);
}

/// The wait is doubled by every further failure, until the exponent or the cap is
/// reached.
pub proof fn law_waits_are_doubled(failures: nat, base: nat, max_exponent: nat, cap: nat)
    requires
        1 <= failures <= max_exponent,
    ensures
        util::backoff_secs(1, base, max_exponent, cap) == (if base < cap {
            base
        } else {
            cap
        }),
        2 * util::backoff_secs(failures, base, max_exponent, cap) < cap ==> util::backoff_secs(
            failures + 1,
            base,
            max_exponent,
            cap,
        ) == 2 * util::backoff_secs(failures, base, max_exponent, cap),
        util::backoff_secs(max_exponent + 1 + failures, base, max_exponent, cap)
            == util::backoff_secs(max_exponent + 1, base, max_exponent, cap),
{
    assert(util::doubled(base, 0) == base);
    assert(util::doubled(base, failures) == 2 * util::doubled(base, (failures - 1) as nat));
}

/// An instance has what its settings say, and what the policy says where they say
/// nothing.
pub proof fn law_settings_take_precedence(
    a: Alice,
    name: Seq<char>,
    s: Settings,
    policy: InstancePolicy,
)
    requires
        alice::is_instance_of(a, name, s, policy),
    ensures
        a.instance_id@ == name,
        a.session_blocks_limit == (if s.session_blocks_limit is Some {
            s.session_blocks_limit->0
        } else {
            policy.session_blocks_limit
        }),
        a.session_block_kb == (if s.session_block_kb is Some {
            s.session_block_kb->0
        } else {
            policy.session_block_kb
        }),
        a.history_kb == (if s.history_kb is Some {
            s.history_kb->0
        } else {
            policy.history_kb
        }),
        a.pulse.safety_max_consecutive_beats == (if s.safety_max_consecutive_beats is Some {
            s.safety_max_consecutive_beats->0
        } else {
            policy.safety_max_consecutive_beats
        }),
        a.pulse.safety_cooldown_secs == (if s.safety_cooldown_secs is Some {
            s.safety_cooldown_secs->0
        } else {
            policy.safety_cooldown_secs
        }),
        a.privileged <==> s.privileged == Some(true),
        s.max_beats is Some ==> a.pulse.max_beats == s.max_beats,
        s.max_beats is None && search::has_prefix(name, policy.test_instance_prefix@)
            ==> a.pulse.max_beats == Some(policy.test_instance_max_beats),
        s.max_beats is None && !search::has_prefix(name, policy.test_instance_prefix@)
            ==> a.pulse.max_beats is None,
        a.instance_name == s.name,
        a.host == s.host,
        a.shell_env == s.shell_env,
        a.pulse.last_was_idle,
        a.pulse.beat_count == 0,
        !a.pulse.born,
{
}

/// New instances are those that do not run yet, in their order.
pub proof fn law_new_instances_are_those_not_running(ids: Seq<Seq<char>>, running: Seq<Seq<char>>)
    ensures
        alice::not_running(ids, running) == ids.filter(|id: Seq<char>| !running.contains(id)),
    decreases ids.len(),
{
    reveal(Seq::filter);
    if ids.len() > 0 {
        law_new_instances_are_those_not_running(ids.drop_last(), running);
    }
}

/// The names of the channels differ.
pub proof fn law_channels_are_told_apart(i: nat, j: nat)
    requires
        i != j,
    ensures
        channels::channel_name(i) != channels::channel_name(j),
{
    reveal_strlit("primary");
    reveal_strlit("extra");
    assert("primary"@[0] == 'p');
    assert(("extra"@ + number::dec(i))[0] == 'e');
    assert(("extra"@ + number::dec(j))[0] == 'e');
    parts::lemma_dec_differs(i, j);
    if i > 0 && j > 0 && channels::channel_name(i) == channels::channel_name(j) {
        parts::lemma_cancel_left("extra"@, number::dec(i), number::dec(j));
    }
}

/// A beat that goes well is counted once; the beats in a row are counted until the
/// instance idles. Then the history is looked into, unless it is being rolled already.
pub proof fn law_beats_are_counted(p: Pulse, policy: PulsePolicy)
    requires
        p.beat_count < u32::MAX,
        p.consecutive_beats < u32::MAX,
    ensures
        ({
            let (q, step) = pulse::pulse_step(p, PulseEvent::BeatDone { shutdown: false }, policy);
            &&& q.beat_count == p.beat_count + 1
            &&& p.last_was_idle ==> q.consecutive_beats == 0
            &&& !p.last_was_idle ==> q.consecutive_beats == p.consecutive_beats + 1
            &&& q.last_was_idle == p.last_was_idle
            &&& q.rolling == p.rolling
            &&& p.rolling ==> step is Again
            &&& !p.rolling ==> step is PrepareRoll
        }),
{
}

/// Too many beats in a row make an instance cool down for as long as it is told to, and
/// are forgotten then; this comes before all else.
pub proof fn law_too_many_beats_cool_down(p: Pulse, unread: i64, now_ms: u64, policy: PulsePolicy)
    requires
        unread > 0 || !p.last_was_idle,
        unread >= 0,
        p.consecutive_beats >= p.safety_max_consecutive_beats,
    ensures
        ({
            let (q, step) = pulse::pulse_step(p, PulseEvent::Reloaded { unread, now_ms }, policy);
            &&& step == (PulseStep::Cooldown {
                beats: p.consecutive_beats,
                secs: p.safety_cooldown_secs,
            })
            &&& q.consecutive_beats == 0
            &&& q.beat_count == p.beat_count
        }),
{
}

/// After a failure an instance waits until the time is over, by an interval at most at a
/// time, and beats then.
pub proof fn law_failures_are_waited_out(p: Pulse, now_ms: u64, until: u64, policy: PulsePolicy)
    requires
        !p.last_was_idle,
        p.consecutive_beats < p.safety_max_consecutive_beats,
        p.max_beats is None,
        p.inference_backoff_until == Some(until),
    ensures
        ({
            let (q, step) = pulse::pulse_step(
                p,
                PulseEvent::Reloaded { unread: 0, now_ms },
                policy,
            );
            &&& now_ms >= until ==> step is Beat && q.inference_backoff_until is None
            &&& now_ms < until ==> q.inference_backoff_until == Some(until) && (step matches
                PulseStep::Wait { ms } && (policy.beat_interval_secs * 1000 <= u64::MAX ==> {
                &&& ms <= until - now_ms
                &&& ms <= policy.beat_interval_secs * 1000
                &&& ms == until - now_ms || ms == policy.beat_interval_secs * 1000
            }))
        }),
{
}

/// What fails makes an instance recover for as long as the policy says; it does not count
/// as a beat, and the instance does not fall idle over it.
pub proof fn law_failed_beats_do_not_count(p: Pulse, policy: PulsePolicy)
    ensures
        ({
            let (q, step) = pulse::pulse_step(p, PulseEvent::BeatFailed, policy);
            &&& step == (PulseStep::Recover { secs: policy.error_backoff_secs })
            &&& q.beat_count == p.beat_count
            &&& !q.last_was_idle
            &&& q.consecutive_beats == 0
            &&& q.inference_failures == p.inference_failures
            &&& q.inference_backoff_until == p.inference_backoff_until
        }),
{
}

/// Whether the history is being rolled is known from when it started to when it ended.
pub proof fn law_rolling_is_remembered(p: Pulse, started: bool, policy: PulsePolicy)
    ensures
        pulse::pulse_step(p, PulseEvent::RollPrepared { started }, policy).0 == (Pulse {
            rolling: started,
            ..p
        }),
        pulse::pulse_step(p, PulseEvent::RollEnded, policy).0 == (Pulse { rolling: false, ..p }),
        pulse::pulse_step(p, PulseEvent::SettingsGone, policy).1 == (PulseStep::Exit {
            why: ExitReason::SettingsGone,
        }),
        pulse::pulse_step(p, PulseEvent::Round { shutdown: false }, policy) == (
            p,
            PulseStep::LoadSettings,
        ),
{
}

/// An interruption of an idling instance makes it idle on without end.
pub proof fn law_interruptions_make_it_idle_on(
    p: Pulse,
    unread: i64,
    now_ms: u64,
    policy: PulsePolicy,
)
    ensures
        ({
            let (q, step) = pulse::pulse_step(
                p,
                PulseEvent::Slept { shutdown: false, interrupted: true, unread, now_ms },
                policy,
            );
            &&& step is ShowIdle
            &&& q.idle_timeout_secs is None
            &&& q.idle_since is None
            &&& q.last_was_idle == p.last_was_idle
            &&& q.beat_count == p.beat_count
        }),
{
}

/// The disk is looked at when beats begin, and again after every so many of them.
pub proof fn law_the_disk_is_looked_at(p: Pulse, now_ms: u64, policy: PulsePolicy, n: nat)
    requires
        policy.disk_check_interval_beats > 0,
        !p.last_was_idle,
        p.consecutive_beats < p.safety_max_consecutive_beats,
        p.max_beats is None,
        p.inference_backoff_until is None,
    ensures
        ({
            let step = pulse::pulse_step(p, PulseEvent::Reloaded { unread: 0, now_ms }, policy).1;
            &&& p.consecutive_beats == 0 ==> step == (PulseStep::Beat { check_disk: true })
            &&& p.consecutive_beats == policy.disk_check_interval_beats ==> step == (
            PulseStep::Beat { check_disk: true })
            &&& 0 < p.consecutive_beats < policy.disk_check_interval_beats ==> step == (
            PulseStep::Beat { check_disk: false })
        }),
{
    let d = policy.disk_check_interval_beats as int;
    let c = p.consecutive_beats as int;
    if 0 <= c < d {
        vstd::arithmetic::div_mod::lemma_small_mod(c as nat, d as nat);
    }
    vstd::arithmetic::div_mod::lemma_mod_self_0(d);
}

/// What is said of a limit holds its numbers.
pub proof fn law_announcements_hold_the_numbers(beats: u32, secs: u64, max: u32)
    ensures
        match pulse::announcement(PulseStep::Cooldown { beats, secs }) {
            Some(text) => search::has_text(text, number::dec(beats as nat)) && search::has_text(
                text,
                number::dec(secs as nat),
            ),
            None => false,
        },
        match pulse::announcement(
            PulseStep::Exit { why: ExitReason::BeatLimit { announce: true, beats, max } },
        ) {
            Some(text) => search::has_text(
                text,
                number::dec(beats as nat) + "/"@ + number::dec(max as nat),
            ),
            None => false,
        },
        pulse::announcement(
            PulseStep::Exit { why: ExitReason::BeatLimit { announce: false, beats, max } },
        ) is None,
        pulse::announcement(PulseStep::Exit { why: ExitReason::Shutdown }) is None,
{
    let (b, s, m) = (number::dec(beats as nat), number::dec(secs as nat), number::dec(max as nat));
    parts::lemma_whole(b);
    parts::lemma_whole(s);
    let rest = "秒让系统休息一下。这是正常的保护机制，不是故障。稍等片刻即可自动恢复。如需调整触发阈值，可在 Settings 中修改 safety_max_consecutive_beats。"@;
    parts::lemma_in_five("连续工作保护已启动：已连续推理"@, b, "次，暂停"@, s, rest, b);
    parts::lemma_in_five("连续工作保护已启动：已连续推理"@, b, "次，暂停"@, s, rest, s);
    let front = "推理次数已达上限（"@;
    parts::lemma_assoc(front, b, "/"@);
    parts::lemma_assoc(front, b + "/"@, m);
    parts::lemma_part(front, b + "/"@ + m, "），实例已停止推理。"@);
}

} // verus!
