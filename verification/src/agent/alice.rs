//! An agent instance.
use vstd::prelude::*;

use std::time::Instant;

use crate::agent::channels::ChannelState;
use crate::agent::pulse;
use crate::agent::pulse::{Pulse, PulsePolicy};
use crate::agent::signal::EngineStatus;
use crate::bindings::i18n;
use crate::bindings::i18n::{inference_error_no_rotation, inference_error_with_rotation};
use crate::persist::settings;
use crate::persist::settings::Settings;
use crate::text::search;
use crate::text::search::starts_with;
use crate::util;

verus! {

/// What an instance does not set is taken from here.
#[derive(Debug)]
pub struct InstancePolicy {
    pub session_blocks_limit: u32,
    pub session_block_kb: u32,
    pub history_kb: u32,
    pub safety_max_consecutive_beats: u32,
    pub safety_cooldown_secs: u64,
    /// Instances whose names start so are for trials, and beat only so often.
    pub test_instance_prefix: String,
    pub test_instance_max_beats: u32,
    /// The model of instances that set none.
    pub default_model: String,
}

/// An agent instance.
#[derive(Debug)]
pub struct Alice {
    pub instance_id: String,
    pub instance_name: Option<String>,
    pub pulse: Pulse,
    pub channels: ChannelState,
    /// Where the running inference is logged.
    pub current_infer_log_path: Option<String>,
    /// Whether it runs without a sandbox.
    pub privileged: bool,
    pub host: Option<String>,
    pub shell_env: Option<String>,
    /// So many session blocks are kept before the history is rolled.
    pub session_blocks_limit: u32,
    pub session_block_kb: u32,
    pub history_kb: u32,
}

pub open spec fn max_beats_of(name: Seq<char>, set: Option<u32>, policy: InstancePolicy) -> Option<
    u32,
> {
    match set {
        Some(n) => Some(n),
        None => if search::has_prefix(name, policy.test_instance_prefix@) {
            Some(policy.test_instance_max_beats)
        } else {
            None
        },
    }
}

/// How often an instance may beat: as often as is set, or else as trial instances
/// may, or else without end.
pub fn resolve_max_beats(name: &str, set: Option<u32>, policy: &InstancePolicy) -> (r: Option<u32>)
    ensures
        r == max_beats_of(name@, set, *policy),
{
    match set {
        Some(n) => Some(n),
        None => if starts_with(name, policy.test_instance_prefix.as_str()) {
            Some(policy.test_instance_max_beats)
        } else {
            None
        },
    }
}

fn number_or(a: Option<u32>, b: u32) -> (r: u32)
    ensures
        r == settings::or_value(a, b),
{
    match a {
        Some(n) => n,
        None => b,
    }
}

fn copy_text(s: &Option<String>) -> (r: Option<String>)
    ensures
        r == *s,
{
    match s {
        Some(t) => Some(t.clone()),
        None => None,
    }
}

/// An instance as settings make it: what they leave open comes from the policy.
pub open spec fn is_instance_of(a: Alice, name: Seq<char>, s: Settings, policy: InstancePolicy) -> bool {
    &&& a.instance_id@ == name
    &&& a.instance_name == s.name
    &&& settings::is_channels(a.channels.configs@, s, policy.default_model@)
    &&& a.channels.index == 0
    &&& a.current_infer_log_path is None
    &&& a.privileged == settings::or_value(s.privileged, false)
    &&& a.host == s.host
    &&& a.shell_env == s.shell_env
    &&& a.session_blocks_limit == settings::or_value(
        s.session_blocks_limit,
        policy.session_blocks_limit,
    )
    &&& a.session_block_kb == settings::or_value(s.session_block_kb, policy.session_block_kb)
    &&& a.history_kb == settings::or_value(s.history_kb, policy.history_kb)
    &&& a.pulse == (Pulse {
        last_was_idle: true,
        idle_timeout_secs: None,
        idle_since: None,
        idle_elapsed: 0,
        born: false,
        beat_count: 0,
        max_beats: max_beats_of(name, s.max_beats, policy),
        consecutive_beats: 0,
        safety_max_consecutive_beats: settings::or_value(
            s.safety_max_consecutive_beats,
            policy.safety_max_consecutive_beats,
        ),
        safety_cooldown_secs: settings::or_value(
            s.safety_cooldown_secs,
            policy.safety_cooldown_secs,
        ),
        inference_failures: 0,
        inference_backoff_until: None,
        rolling: false,
    })
}

impl Alice {
    /// An instance with complete settings.
    pub fn new(name: &str, s: &Settings, policy: &InstancePolicy) -> (r: Self)
        ensures
            is_instance_of(r, name@, *s, *policy),
    {
        let safety_cooldown_secs: u64 = match s.safety_cooldown_secs {
            Some(n) => n,
            None => policy.safety_cooldown_secs,
        };
        Alice {
            instance_id: name.to_string(),
            instance_name: copy_text(&s.name),
            pulse: Pulse::new(
                resolve_max_beats(name, s.max_beats, policy),
                number_or(s.safety_max_consecutive_beats, policy.safety_max_consecutive_beats),
                safety_cooldown_secs,
            ),
            channels: ChannelState { configs: s.channel_configs(policy.default_model.as_str()), index: 0 },
            current_infer_log_path: None,
            privileged: s.privileged_or_default(),
            host: copy_text(&s.host),
            shell_env: copy_text(&s.shell_env),
            session_blocks_limit: number_or(s.session_blocks_limit, policy.session_blocks_limit),
            session_block_kb: number_or(s.session_block_kb, policy.session_block_kb),
            history_kb: number_or(s.history_kb, policy.history_kb),
        }
    }

    /// Takes over settings that may have changed while the instance runs: limits,
    /// where they are set, its name and its privileges, and its models where the
    /// settings of the engine, `complete`, could be read as well.
    pub fn hot_reload(&mut self, s: &Settings, complete: Option<&Settings>, default_model: &str)
        ensures
            final(self).instance_id == old(self).instance_id,
            final(self).instance_name == s.name,
            final(self).privileged == settings::or_value(s.privileged, false),
            final(self).session_blocks_limit == settings::or_value(
                s.session_blocks_limit,
                old(self).session_blocks_limit,
            ),
            final(self).session_block_kb == settings::or_value(
                s.session_block_kb,
                old(self).session_block_kb,
            ),
            final(self).history_kb == settings::or_value(s.history_kb, old(self).history_kb),
            final(self).pulse == (Pulse {
                safety_max_consecutive_beats: settings::or_value(
                    s.safety_max_consecutive_beats,
                    old(self).pulse.safety_max_consecutive_beats,
                ),
                safety_cooldown_secs: settings::or_value(
                    s.safety_cooldown_secs,
                    old(self).pulse.safety_cooldown_secs,
                ),
                ..old(self).pulse
            }),
            final(self).channels.index == old(self).channels.index,
            match complete {
                Some(c) => settings::is_channels(
                    final(self).channels.configs@,
                    *c,
                    default_model@,
                ),
                None => final(self).channels == old(self).channels,
            },
            final(self).host == old(self).host,
            final(self).shell_env == old(self).shell_env,
            final(self).current_infer_log_path == old(self).current_infer_log_path,
    {
        if let Some(v) = s.safety_max_consecutive_beats {
            self.pulse.safety_max_consecutive_beats = v;
        }
        if let Some(v) = s.safety_cooldown_secs {
            self.pulse.safety_cooldown_secs = v;
        }
        self.session_blocks_limit = number_or(s.session_blocks_limit, self.session_blocks_limit);
        self.session_block_kb = number_or(s.session_block_kb, self.session_block_kb);
        self.history_kb = number_or(s.history_kb, self.history_kb);
        self.instance_name = copy_text(&s.name);
        self.privileged = s.privileged_or_default();
        if let Some(c) = complete {
            let configs = c.channel_configs(default_model);
            self.channels.update_channel_configs(configs);
        }
    }

    /// Notes a failed inference: there is a wait, and another model gets the turn
    /// where there is one. Returns the seconds to wait, and from whom to whom the
    /// turn passed.
    pub fn set_inference_backoff(&mut self, now_ms: u64, policy: &PulsePolicy) -> (r: (
        u64,
        Option<(String, String)>,
    ))
        ensures
            failed(*old(self), *final(self), now_ms, *policy, r.0),
            match r.1 {
                Some((from, to)) => {
                    &&& old(self).channels.configs@.len() > 1
                    &&& from@ == crate::agent::channels::channel_name(
                        old(self).channels.current() as nat,
                    )
                    &&& to@ == crate::agent::channels::channel_name(
                        final(self).channels.current() as nat,
                    )
                },
                None => old(self).channels.configs@.len() <= 1,
            },
    {
        let secs: u64 = self.pulse.note_failure(now_ms, policy);
        let rotation = self.channels.advance_channel();
        (secs, rotation)
    }

    /// The instance starts to think: it is born, and what it thinks is logged.
    pub fn begin_inference(&mut self, log_path: &str)
        ensures
            *final(self) == (Alice {
                pulse: Pulse { born: true, ..old(self).pulse },
                current_infer_log_path: final(self).current_infer_log_path,
                ..*old(self)
            }),
            final(self).current_infer_log_path is Some,
            final(self).current_infer_log_path->0@ == log_path@,
    {
        self.current_infer_log_path = Some(log_path.to_string());
        self.pulse.born = true;
    }

    /// What is seen of the instance while it thinks.
    pub fn inferring_status(&self, before: EngineStatus) -> (r: EngineStatus)
        ensures
            r == (EngineStatus {
                inferring: true,
                born: self.pulse.born,
                log_path: self.current_infer_log_path,
                ..before
            }),
    {
        EngineStatus {
            inferring: true,
            born: self.pulse.born,
            log_path: copy_text(&self.current_infer_log_path),
            ..before
        }
    }

    /// What is seen of the instance while it idles.
    pub fn idle_status(&self, before: EngineStatus, now: Instant) -> (r: EngineStatus)
        ensures
            r == (EngineStatus {
                inferring: false,
                born: self.pulse.born,
                last_beat: now,
                idle_timeout_secs: self.pulse.idle_timeout_secs,
                idle_since: self.pulse.idle_since,
                ..before
            }),
    {
        EngineStatus {
            inferring: false,
            born: self.pulse.born,
            last_beat: now,
            idle_timeout_secs: self.pulse.idle_timeout_secs,
            idle_since: self.pulse.idle_since,
            ..before
        }
    }

    /// What is seen of the instance after a beat that failed.
    pub fn failed_status(&mut self, before: EngineStatus, now: Instant) -> (r: EngineStatus)
        ensures
            *final(self) == (Alice { current_infer_log_path: None, ..*old(self) }),
            r == (EngineStatus {
                inferring: false,
                born: old(self).pulse.born,
                last_beat: now,
                log_path: None,
                idle_timeout_secs: None,
                idle_since: None,
            }),
    {
        self.current_infer_log_path = None;
        EngineStatus {
            inferring: false,
            born: self.pulse.born,
            last_beat: now,
            log_path: None,
            idle_timeout_secs: None,
            idle_since: None,
        }
    }
}

/// An instance before and after a failed inference, with the seconds to wait.
pub open spec fn failed(
    before: Alice,
    after: Alice,
    now_ms: u64,
    policy: PulsePolicy,
    secs: u64,
) -> bool {
    &&& after == (Alice { pulse: after.pulse, channels: after.channels, ..before })
    &&& after.channels.configs == before.channels.configs
    &&& after.channels.index == (if before.channels.configs@.len() > 1 {
        crate::agent::channels::turned(before.channels.index)
    } else {
        before.channels.index
    })
    &&& after.pulse == (Pulse {
        inference_failures: pulse::capped_u32(before.pulse.inference_failures + 1),
        inference_backoff_until: Some(
            pulse::capped_u64(now_ms + pulse::capped_u64(secs * 1000)),
        ),
        ..before.pulse
    })
    &&& secs == util::backoff_secs(
        after.pulse.inference_failures as nat,
        policy.inference_backoff_base_secs as nat,
        policy.inference_backoff_max_exponent as nat,
        policy.inference_backoff_cap_secs as nat,
    )
}

/// An instance from its own settings and those of the engine: the former come
/// first, and together they need a key.
pub fn create_instance(
    name: &str,
    own: &mut Settings,
    global: &Settings,
    policy: &InstancePolicy,
) -> (r: Result<Alice, String>)
    ensures
        ({
            let whole = *final(own);
            &&& settings::is_merged(whole, *old(own), *global)
            &&& match r {
                Ok(a) => whole.has_key() && is_instance_of(a, name@, whole, *policy),
                Err(e) => !whole.has_key() && e@
                    == "Missing api_key: set in settings.json or ALICE_DEFAULT_API_KEY env var"@,
            }
        }),
{
    own.merge_fallback(global);
    match own.validate() {
        Ok(_) => Ok(Alice::new(name, own, policy)),
        Err(e) => Err(e),
    }
}

/// What is said of a failed inference.
pub open spec fn inference_error_text(
    error: Seq<char>,
    backoff: u64,
    rotation: Option<(Seq<char>, Seq<char>)>,
) -> Seq<char> {
    match rotation {
        Some((from, to)) => i18n::inference_error_with_rotation_text(
            error,
            from,
            to,
            backoff as nat,
        ),
        None => i18n::inference_error_no_rotation_text(error, backoff as nat),
    }
}

pub open spec fn rotation_view(rotation: Option<(String, String)>) -> Option<(Seq<char>, Seq<char>)> {
    match rotation {
        Some((from, to)) => Some((from@, to@)),
        None => None,
    }
}

/// From whom to whom the turn passed, where there is more than one model.
pub open spec fn rotation_of(before: Alice, after: Alice) -> Option<(Seq<char>, Seq<char>)> {
    if before.channels.configs@.len() > 1 {
        Some(
            (
                crate::agent::channels::channel_name(before.channels.current() as nat),
                crate::agent::channels::channel_name(after.channels.current() as nat),
            ),
        )
    } else {
        None
    }
}

/// What is said of a failed inference.
pub fn inference_error(error: &str, backoff: u64, rotation: &Option<(String, String)>) -> (r: String)
    ensures
        r@ == inference_error_text(error@, backoff, rotation_view(*rotation)),
{
    match rotation {
        Some((from, to)) => inference_error_with_rotation(
            error,
            from.as_str(),
            to.as_str(),
            backoff,
        ),
        None => inference_error_no_rotation(error, backoff),
    }
}

/// The instances that are there but do not run yet.
pub open spec fn not_running(ids: Seq<Seq<char>>, running: Seq<Seq<char>>) -> Seq<Seq<char>>
    decreases ids.len(),
{
    if ids.len() == 0 {
        Seq::empty()
    } else if running.contains(ids.last()) {
        not_running(ids.drop_last(), running)
    } else {
        not_running(ids.drop_last(), running).push(ids.last())
    }
}

/// The instances that are there but do not run yet, in the order in which they
/// were found.
pub fn new_instances(ids: &Vec<String>, running: &Vec<String>) -> (r: Vec<String>)
    ensures
        search::views(r@) == not_running(search::views(ids@), search::views(running@)),
{
    let ghost all = search::views(ids@);
    let mut out: Vec<String> = Vec::new();
    let mut i: usize = 0;
    assert(search::views(out@) =~= Seq::<Seq<char>>::empty());
    assert(all.take(0) =~= Seq::<Seq<char>>::empty());
    while i < ids.len()
        invariant
            i <= ids@.len(),
            all == search::views(ids@),
            search::views(out@) == not_running(all.take(i as int), search::views(running@)),
        decreases ids@.len() - i,
    {
        assert(all.take(i + 1).drop_last() =~= all.take(i as int));
        assert(all[i as int] == ids@[i as int]@);
        if !search::lists(running, ids[i].as_str()) {
            let id = ids[i].clone();
            proof {
                search::lemma_views_push(out@, id);
            }
            out.push(id);
        }
        i = i + 1;
    }
    assert(all.take(i as int) =~= all);
    out
}

} // verus!
