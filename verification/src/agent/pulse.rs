//! The rhythm of an instance: when it beats, sleeps, waits and ends.
use vstd::prelude::*;

use crate::bindings::i18n;
use crate::bindings::i18n::{beat_limit_reached, disk_space_low, safety_valve_triggered};
use crate::util;
use crate::util::Counter;

verus! {

/// What decides when an instance beats.
#[derive(Debug, Clone, Copy, PartialEq, Eq, Structural)]
pub struct Pulse {
    /// Whether the last beat ended in idling.
    pub last_was_idle: bool,
    /// How long to idle, in seconds; without end where there is none.
    pub idle_timeout_secs: Option<u64>,
    /// When the instance fell idle, in seconds of the epoch.
    pub idle_since: Option<u64>,
    /// How long it has idled, in seconds.
    pub idle_elapsed: u64,
    /// Whether it has ever thought or idled.
    pub born: bool,
    pub beat_count: u32,
    pub max_beats: Option<u32>,
    /// Beats since it last idled.
    pub consecutive_beats: u32,
    /// How many of them there may be before it is made to cool down.
    pub safety_max_consecutive_beats: u32,
    pub safety_cooldown_secs: u64,
    /// Failed inferences in a row.
    pub inference_failures: u32,
    /// No inference before this moment, in milliseconds of the machine's clock.
    pub inference_backoff_until: Option<u64>,
    /// Whether the history is being rolled.
    pub rolling: bool,
}

/// The rhythm that all instances share.
#[derive(Debug, Clone, Copy, PartialEq, Eq, Structural)]
pub struct PulsePolicy {
    pub beat_interval_secs: u64,
    pub error_backoff_secs: u64,
    pub disk_check_interval_beats: u32,
    pub disk_min_available_mb: u64,
    pub inference_backoff_base_secs: u64,
    pub inference_backoff_max_exponent: u32,
    pub inference_backoff_cap_secs: u64,
}

/// What happened to an instance.
#[derive(Debug, Clone, Copy, PartialEq, Eq, Structural)]
pub enum PulseEvent {
    /// It starts over.
    Round { shutdown: bool },
    /// Its settings can no longer be read.
    SettingsGone,
    /// Its settings were read; so many messages wait for it, and this is the time.
    Reloaded { unread: i64, now_ms: u64 },
    /// It slept for one interval.
    Slept { shutdown: bool, interrupted: bool, unread: i64, now_ms: u64 },
    /// A beat went well.
    BeatDone { shutdown: bool },
    /// A beat failed.
    BeatFailed,
    /// The rolling of the history was looked into, and started or not.
    RollPrepared { started: bool },
    /// The rolling of the history ended.
    RollEnded,
}

/// Why an instance ends.
#[derive(Debug, Clone, Copy, PartialEq, Eq, Structural)]
pub enum ExitReason {
    /// The engine shuts down.
    Shutdown,
    /// Its settings are gone: it was deleted.
    SettingsGone,
    /// It has beaten as often as it may. It says so, unless it was idle.
    BeatLimit { announce: bool, beats: u32, max: u32 },
}

/// What an instance does next.
#[derive(Debug, Clone, Copy, PartialEq, Eq, Structural)]
pub enum PulseStep {
    /// It ends.
    Exit { why: ExitReason },
    /// It reads its settings.
    LoadSettings,
    /// It shows that it idles, and sleeps for one interval.
    SleepIdle,
    /// It starts over.
    Again,
    /// It shows that it idles, and starts over.
    ShowIdle,
    /// It has beaten too often: it says so and sleeps.
    Cooldown { beats: u32, secs: u64 },
    /// It waits for the model to be asked again.
    Wait { ms: u64 },
    /// It beats, and may look at the disk first.
    Beat { check_disk: bool },
    /// It sees whether the history is to be rolled.
    PrepareRoll,
    /// It shows that it failed, says so, and sleeps.
    Recover { secs: u64 },
}

pub open spec fn capped_u32(n: int) -> u32 {
    if n <= u32::MAX {
        n as u32
    } else {
        u32::MAX
    }
}

pub open spec fn capped_u64(n: int) -> u64 {
    if n <= u64::MAX {
        n as u64
    } else {
        u64::MAX
    }
}

/// An instance that is awake: it cools down after too many beats, ends at its
/// limit, waits after failures, and beats otherwise.
pub open spec fn awake(p: Pulse, now_ms: u64, policy: PulsePolicy) -> (Pulse, PulseStep) {
    if p.consecutive_beats >= p.safety_max_consecutive_beats {
        (
            Pulse { consecutive_beats: 0, last_was_idle: false, ..p },
            PulseStep::Cooldown { beats: p.consecutive_beats, secs: p.safety_cooldown_secs },
        )
    } else if p.max_beats is Some && p.beat_count >= p.max_beats->0 {
        (
            Pulse { last_was_idle: true, ..p },
            PulseStep::Exit {
                why: ExitReason::BeatLimit {
                    announce: !p.last_was_idle,
                    beats: p.beat_count,
                    max: p.max_beats->0,
                },
            },
        )
    } else if p.inference_backoff_until is Some && now_ms < p.inference_backoff_until->0 {
        let left = p.inference_backoff_until->0 - now_ms;
        let interval = policy.beat_interval_secs * 1000;
        (
            Pulse { idle_elapsed: 0, ..p },
            PulseStep::Wait {
                ms: (if left < interval {
                    left
                } else {
                    interval
                }) as u64,
            },
        )
    } else {
        (
            Pulse { idle_elapsed: 0, inference_backoff_until: None, ..p },
            PulseStep::Beat {
                check_disk: p.consecutive_beats % policy.disk_check_interval_beats == 0,
            },
        )
    }
}

/// An instance that idles and slept for one interval: an interruption makes it
/// idle without end, the end of its time or a message wakes it.
pub open spec fn after_sleep(
    p: Pulse,
    interrupted: bool,
    unread: i64,
    now_ms: u64,
    policy: PulsePolicy,
) -> (Pulse, PulseStep) {
    if interrupted {
        (
            Pulse { idle_timeout_secs: None, idle_since: None, idle_elapsed: 0, ..p },
            PulseStep::ShowIdle,
        )
    } else if p.idle_timeout_secs is Some {
        let slept = Pulse {
            idle_elapsed: capped_u64(p.idle_elapsed + policy.beat_interval_secs),
            ..p
        };
        if slept.idle_elapsed >= p.idle_timeout_secs->0 {
            awake(
                Pulse {
                    idle_timeout_secs: None,
                    idle_since: None,
                    idle_elapsed: 0,
                    last_was_idle: false,
                    ..slept
                },
                now_ms,
                policy,
            )
        } else if unread == 0 {
            (slept, PulseStep::Again)
        } else {
            awake(slept, now_ms, policy)
        }
    } else if unread == 0 {
        (p, PulseStep::Again)
    } else {
        awake(p, now_ms, policy)
    }
}

/// What an instance does after an event, and what becomes of its state.
pub open spec fn pulse_step(p: Pulse, e: PulseEvent, policy: PulsePolicy) -> (Pulse, PulseStep) {
    match e {
        PulseEvent::Round { shutdown } => if shutdown {
            (p, PulseStep::Exit { why: ExitReason::Shutdown })
        } else {
            (p, PulseStep::LoadSettings)
        },
        PulseEvent::SettingsGone => (p, PulseStep::Exit { why: ExitReason::SettingsGone }),
        PulseEvent::Reloaded { unread, now_ms } => if p.last_was_idle && unread == 0 {
            (Pulse { consecutive_beats: 0, ..p }, PulseStep::SleepIdle)
        } else {
            awake(p, now_ms, policy)
        },
        PulseEvent::Slept { shutdown, interrupted, unread, now_ms } => if shutdown {
            (p, PulseStep::Exit { why: ExitReason::Shutdown })
        } else {
            after_sleep(p, interrupted, unread, now_ms, policy)
        },
        PulseEvent::BeatDone { shutdown } => {
            let q = Pulse {
                beat_count: capped_u32(p.beat_count + 1),
                consecutive_beats: if p.last_was_idle {
                    0
                } else {
                    capped_u32(p.consecutive_beats + 1)
                },
                ..p
            };
            if shutdown {
                (q, PulseStep::Exit { why: ExitReason::Shutdown })
            } else if q.rolling {
                (q, PulseStep::Again)
            } else {
                (q, PulseStep::PrepareRoll)
            }
        },
        PulseEvent::BeatFailed => (
            Pulse { last_was_idle: false, consecutive_beats: 0, ..p },
            PulseStep::Recover { secs: policy.error_backoff_secs },
        ),
        PulseEvent::RollPrepared { started } => (Pulse { rolling: started, ..p }, PulseStep::Again),
        PulseEvent::RollEnded => (Pulse { rolling: false, ..p }, PulseStep::Again),
    }
}

impl PulsePolicy {
    /// The interval in milliseconds is a number of the machine, and the disk is
    /// looked at every so often.
    pub open spec fn wf(self) -> bool {
        self.disk_check_interval_beats > 0 && self.beat_interval_secs * 1000 <= u64::MAX
    }
}

impl Pulse {
    /// A new instance: it idles, and has never beaten.
    pub fn new(
        max_beats: Option<u32>,
        safety_max_consecutive_beats: u32,
        safety_cooldown_secs: u64,
    ) -> (r: Self)
        ensures
            r == (Pulse {
                last_was_idle: true,
                idle_timeout_secs: None,
                idle_since: None,
                idle_elapsed: 0,
                born: false,
                beat_count: 0,
                max_beats,
                consecutive_beats: 0,
                safety_max_consecutive_beats,
                safety_cooldown_secs,
                inference_failures: 0,
                inference_backoff_until: None,
                rolling: false,
            }),
    {
        Pulse {
            last_was_idle: true,
            idle_timeout_secs: None,
            idle_since: None,
            idle_elapsed: 0,
            born: false,
            beat_count: 0,
            max_beats,
            consecutive_beats: 0,
            safety_max_consecutive_beats,
            safety_cooldown_secs,
            inference_failures: 0,
            inference_backoff_until: None,
            rolling: false,
        }
    }

    /// How long, in milliseconds, no inference may start yet. Once the time is
    /// over it is forgotten.
    pub fn backoff_remaining(&mut self, now_ms: u64) -> (r: Option<u64>)
        ensures
            match old(self).inference_backoff_until {
                Some(until) => if now_ms < until {
                    r == Some((until - now_ms) as u64) && *final(self) == *old(self)
                } else {
                    r is None && *final(self) == (Pulse {
                        inference_backoff_until: None,
                        ..*old(self)
                    })
                },
                None => r is None && *final(self) == *old(self),
            },
    {
        if let Some(until) = self.inference_backoff_until {
            if now_ms < until {
                return Some(until - now_ms);
            }
            self.inference_backoff_until = None;
        }
        None
    }

    fn wake(&mut self, now_ms: u64, policy: &PulsePolicy) -> (r: PulseStep)
        requires
            policy.wf(),
        ensures
            (*final(self), r) == awake(*old(self), now_ms, *policy),
    {
        if self.consecutive_beats >= self.safety_max_consecutive_beats {
            let beats: u32 = self.consecutive_beats;
            self.consecutive_beats = 0;
            self.last_was_idle = false;
            return PulseStep::Cooldown { beats, secs: self.safety_cooldown_secs };
        }
        if let Some(max) = self.max_beats {
            if self.beat_count >= max {
                let announce = !self.last_was_idle;
                self.last_was_idle = true;
                return PulseStep::Exit {
                    why: ExitReason::BeatLimit { announce, beats: self.beat_count, max },
                };
            }
        }
        self.idle_elapsed = 0;
        if let Some(left) = self.backoff_remaining(now_ms) {
            let interval: u64 = policy.beat_interval_secs * 1000;
            return PulseStep::Wait {
                ms: if left < interval {
                    left
                } else {
                    interval
                },
            };
        }
        PulseStep::Beat {
            check_disk: self.consecutive_beats % policy.disk_check_interval_beats == 0,
        }
    }

    /// Goes on after an event: says what to do next.
    pub fn next(&mut self, event: PulseEvent, policy: &PulsePolicy) -> (r: PulseStep)
        requires
            policy.wf(),
        ensures
            (*final(self), r) == pulse_step(*old(self), event, *policy),
    {
        match event {
            PulseEvent::Round { shutdown } => if shutdown {
                PulseStep::Exit { why: ExitReason::Shutdown }
            } else {
                PulseStep::LoadSettings
            },
            PulseEvent::SettingsGone => PulseStep::Exit { why: ExitReason::SettingsGone },
            PulseEvent::Reloaded { unread, now_ms } => {
                if self.last_was_idle && unread == 0 {
                    self.consecutive_beats = 0;
                    PulseStep::SleepIdle
                } else {
                    self.wake(now_ms, policy)
                }
            },
            PulseEvent::Slept { shutdown, interrupted, unread, now_ms } => {
                if shutdown {
                    return PulseStep::Exit { why: ExitReason::Shutdown };
                }
                if interrupted {
                    self.idle_timeout_secs = None;
                    self.idle_since = None;
                    self.idle_elapsed = 0;
                    return PulseStep::ShowIdle;
                }
                if let Some(timeout) = self.idle_timeout_secs {
                    self.idle_elapsed = self.idle_elapsed.saturating_add(policy.beat_interval_secs);
                    if self.idle_elapsed >= timeout {
                        self.idle_timeout_secs = None;
                        self.idle_since = None;
                        self.last_was_idle = false;
                        self.idle_elapsed = 0;
                    } else if unread == 0 {
                        return PulseStep::Again;
                    }
                } else if unread == 0 {
                    return PulseStep::Again;
                }
                self.wake(now_ms, policy)
            },
            PulseEvent::BeatDone { shutdown } => {
                self.beat_count = self.beat_count.saturating_add(1);
                if self.last_was_idle {
                    self.consecutive_beats = 0;
                } else {
                    self.consecutive_beats = self.consecutive_beats.saturating_add(1);
                }
                if shutdown {
                    PulseStep::Exit { why: ExitReason::Shutdown }
                } else if self.rolling {
                    PulseStep::Again
                } else {
                    PulseStep::PrepareRoll
                }
            },
            PulseEvent::BeatFailed => {
                self.last_was_idle = false;
                self.consecutive_beats = 0;
                PulseStep::Recover { secs: policy.error_backoff_secs }
            },
            PulseEvent::RollPrepared { started } => {
                self.rolling = started;
                PulseStep::Again
            },
            PulseEvent::RollEnded => {
                self.rolling = false;
                PulseStep::Again
            },
        }
    }

    /// Notes a failed inference: the more of them in a row, the longer the wait.
    /// Returns the seconds to wait.
    pub fn note_failure(&mut self, now_ms: u64, policy: &PulsePolicy) -> (r: u64)
        ensures
            final(self).inference_failures == capped_u32(old(self).inference_failures + 1),
            r == util::backoff_secs(
                final(self).inference_failures as nat,
                policy.inference_backoff_base_secs as nat,
                policy.inference_backoff_max_exponent as nat,
                policy.inference_backoff_cap_secs as nat,
            ),
            *final(self) == (Pulse {
                inference_failures: final(self).inference_failures,
                inference_backoff_until: Some(
                    capped_u64(now_ms + capped_u64(r * 1000)),
                ),
                ..*old(self)
            }),
    {
        self.inference_failures = self.inference_failures.saturating_add(1);
        let failures = Counter { count: self.inference_failures as u64 };
        let secs: u64 = failures.exponential_backoff(
            policy.inference_backoff_base_secs,
            policy.inference_backoff_max_exponent,
            policy.inference_backoff_cap_secs,
        );
        let ms: u64 = if secs <= 18446744073709551 {
            secs * 1000
        } else {
            u64::MAX
        };
        self.inference_backoff_until = Some(now_ms.saturating_add(ms));
        secs
    }

    /// Notes an inference that went well.
    pub fn note_success(&mut self)
        ensures
            *final(self) == (Pulse {
                inference_failures: 0,
                inference_backoff_until: None,
                ..*old(self)
            }),
    {
        self.inference_failures = 0;
        self.inference_backoff_until = None;
    }

    /// Falls idle, for a time or without end.
    pub fn fall_idle(&mut self, timeout_secs: Option<u64>, now_secs: u64)
        ensures
            *final(self) == (Pulse {
                last_was_idle: true,
                idle_timeout_secs: timeout_secs,
                idle_since: Some(now_secs),
                born: true,
                ..*old(self)
            }),
    {
        self.last_was_idle = true;
        self.idle_timeout_secs = timeout_secs;
        self.idle_since = Some(now_secs);
        self.born = true;
    }
}

/// What an instance says before it does what it does next.
pub open spec fn announcement(step: PulseStep) -> Option<Seq<char>> {
    match step {
        PulseStep::Cooldown { beats, secs } => Some(
            i18n::safety_valve_triggered_text(beats as nat, secs as nat),
        ),
        PulseStep::Exit { why: ExitReason::BeatLimit { announce: true, beats, max } } => Some(
            i18n::beat_limit_reached_text(beats as nat, max as nat),
        ),
        _ => None,
    }
}

/// What an instance says before it does what it does next.
pub fn announce(step: &PulseStep) -> (r: Option<String>)
    ensures
        match r {
            Some(s) => announcement(*step) == Some(s@),
            None => announcement(*step) is None,
        },
{
    match step {
        PulseStep::Cooldown { beats, secs } => Some(safety_valve_triggered(*beats, *secs)),
        PulseStep::Exit { why: ExitReason::BeatLimit { announce, beats, max } } => if *announce {
            Some(beat_limit_reached(*beats, *max))
        } else {
            None
        },
        _ => None,
    }
}

/// What is said of the disk: nothing, unless it is known to be nearly full.
pub fn disk_warning(available_mb: Option<u64>, policy: &PulsePolicy) -> (r: Option<String>)
    ensures
        match r {
            Some(s) => available_mb is Some && available_mb->0 < policy.disk_min_available_mb && s@
                == i18n::disk_space_low_text(available_mb->0 as nat),
            None => available_mb is Some ==> available_mb->0 >= policy.disk_min_available_mb,
        },
{
    match available_mb {
        Some(mb) => if mb < policy.disk_min_available_mb {
            Some(disk_space_low(mb))
        } else {
            None
        },
        None => None,
    }
}

/// However an instance comes to beat, it has not beaten as often as it may, not as
/// often in a row as it may, and is past the wait after its last failure.
pub proof fn law_beats_are_admitted(p: Pulse, e: PulseEvent, policy: PulsePolicy)
    requires
        pulse_step(p, e, policy).1 is Beat,
    ensures
        p.max_beats is Some ==> p.beat_count < p.max_beats->0,
        p.consecutive_beats < p.safety_max_consecutive_beats,
        p.inference_backoff_until is Some ==> {
            ||| e matches PulseEvent::Reloaded { now_ms, .. } && now_ms >= p.inference_backoff_until->0
            ||| e matches PulseEvent::Slept { now_ms, .. } && now_ms >= p.inference_backoff_until->0
        },
{
}

/// What an instance does in a round that leads to a beat that goes well: it never
/// gets past the number of beats in a row that it may make.
pub proof fn law_beats_in_a_row_are_bounded(
    p: Pulse,
    e: PulseEvent,
    beaten: Pulse,
    shutdown: bool,
    policy: PulsePolicy,
)
    requires
        pulse_step(p, e, policy).1 is Beat,
        beaten.consecutive_beats == pulse_step(p, e, policy).0.consecutive_beats,
    ensures
        pulse_step(beaten, PulseEvent::BeatDone { shutdown }, policy).0.consecutive_beats
            <= p.safety_max_consecutive_beats,
{
}

/// A shutdown ends an instance wherever it is told of it.
pub proof fn law_shutdown_ends(p: Pulse, interrupted: bool, unread: i64, now_ms: u64, policy: PulsePolicy)
    ensures
        pulse_step(p, PulseEvent::Round { shutdown: true }, policy).1 == (PulseStep::Exit { why: ExitReason::Shutdown }),
        pulse_step(
            p,
            PulseEvent::Slept { shutdown: true, interrupted, unread, now_ms },
            policy,
        ).1 == (PulseStep::Exit { why: ExitReason::Shutdown }),
        pulse_step(p, PulseEvent::BeatDone { shutdown: true }, policy).1 == (PulseStep::Exit { why: ExitReason::Shutdown }),
{
}

/// An instance that has beaten as often as it may never beats again, whatever
/// happens; and it ends as soon as it is awake and has not to cool down first.
pub proof fn law_limit_ends(p: Pulse, e: PulseEvent, policy: PulsePolicy)
    requires
        p.max_beats is Some,
        p.beat_count >= p.max_beats->0,
    ensures
        !(pulse_step(p, e, policy).1 is Beat),
        pulse_step(p, e, policy).0.max_beats == p.max_beats,
        pulse_step(p, e, policy).0.beat_count >= p.beat_count,
        p.consecutive_beats < p.safety_max_consecutive_beats ==> match e {
            PulseEvent::Reloaded { unread, now_ms } => !p.last_was_idle || unread != 0
                ==> pulse_step(p, e, policy).1 is Exit,
            PulseEvent::Slept { interrupted: false, unread, .. } => unread != 0 ==> pulse_step(
                p,
                e,
                policy,
            ).1 is Exit,
            _ => true,
        },
{
}

/// An instance that idles without end and gets no message never beats: it only
/// sleeps and starts over.
pub proof fn law_idle_stays_idle(p: Pulse, interrupted: bool, now_ms: u64, policy: PulsePolicy)
    requires
        p.last_was_idle,
        p.idle_timeout_secs is None,
    ensures
        pulse_step(p, PulseEvent::Reloaded { unread: 0, now_ms }, policy).1 is SleepIdle,
        pulse_step(p, PulseEvent::Reloaded { unread: 0, now_ms }, policy).0.last_was_idle,
        ({
            let slept = pulse_step(
                p,
                PulseEvent::Slept { shutdown: false, interrupted, unread: 0, now_ms },
                policy,
            );
            &&& slept.1 is Again || slept.1 is ShowIdle
            &&& slept.0.last_was_idle
            &&& slept.0.idle_timeout_secs is None
        }),
{
}

/// A message wakes an idle instance that nothing holds back, whether it idles for
/// a time or without end.
pub proof fn law_messages_wake(p: Pulse, unread: i64, now_ms: u64, policy: PulsePolicy)
    requires
        unread > 0,
        p.consecutive_beats < p.safety_max_consecutive_beats,
        p.max_beats is Some ==> p.beat_count < p.max_beats->0,
        p.inference_backoff_until is None,
    ensures
        pulse_step(p, PulseEvent::Reloaded { unread, now_ms }, policy).1 is Beat,
        pulse_step(
            p,
            PulseEvent::Slept { shutdown: false, interrupted: false, unread, now_ms },
            policy,
        ).1 is Beat,
{
}

/// The slept intervals after which a timed idling is over.
pub open spec fn idled(p: Pulse, n: nat, policy: PulsePolicy) -> Pulse
    decreases n,
{
    if n == 0 {
        p
    } else {
        pulse_step(
            idled(p, (n - 1) as nat, policy),
            PulseEvent::Slept { shutdown: false, interrupted: false, unread: 0, now_ms: 0 },
            policy,
        ).0
    }
}

proof fn lemma_idled(p: Pulse, n: nat, policy: PulsePolicy)
    requires
        p.idle_timeout_secs is Some,
        p.idle_elapsed + n * policy.beat_interval_secs < p.idle_timeout_secs->0,
    ensures
        idled(p, n, policy) == (Pulse {
            idle_elapsed: (p.idle_elapsed + n * policy.beat_interval_secs) as u64,
            ..p
        }),
    decreases n,
{
    if n > 0 {
        let m = (n - 1) as nat;
        assert(n * policy.beat_interval_secs == m * policy.beat_interval_secs
            + policy.beat_interval_secs) by (nonlinear_arith)
            requires
                n == m + 1,
        ;
        assert(0 <= m * policy.beat_interval_secs) by (nonlinear_arith);
        lemma_idled(p, m, policy);
        let before = idled(p, m, policy);
        assert(capped_u64(before.idle_elapsed + policy.beat_interval_secs) == p.idle_elapsed + n
            * policy.beat_interval_secs);
    } else {
        assert(n * policy.beat_interval_secs == 0) by (nonlinear_arith)
            requires
                n == 0,
        ;
    }
}

/// An instance that idles for a time and gets no message sleeps on until the
/// intervals it slept make up that time, and wakes then.
pub proof fn law_timed_idling_ends(p: Pulse, n: nat, now_ms: u64, policy: PulsePolicy)
    requires
        p.last_was_idle,
        p.idle_timeout_secs is Some,
        p.idle_elapsed + n * policy.beat_interval_secs < p.idle_timeout_secs->0,
        p.consecutive_beats < p.safety_max_consecutive_beats,
        p.max_beats is Some ==> p.beat_count < p.max_beats->0,
        p.inference_backoff_until is None,
    ensures
        ({
            let slept = PulseEvent::Slept {
                shutdown: false,
                interrupted: false,
                unread: 0,
                now_ms,
            };
            let step = pulse_step(idled(p, n, policy), slept, policy);
            if p.idle_elapsed + (n + 1) * policy.beat_interval_secs < p.idle_timeout_secs->0 {
                step.1 is Again && step.0.last_was_idle
            } else {
                step.1 is Beat && !step.0.last_was_idle && step.0.idle_timeout_secs is None
            }
        }),
{
    lemma_idled(p, n, policy);
    assert((n + 1) * policy.beat_interval_secs == n * policy.beat_interval_secs
        + policy.beat_interval_secs) by (nonlinear_arith);
}

} // verus!
