//! The settings of an instance and of the whole engine.
use vstd::prelude::*;

use crate::external::llm::LlmConfig;
use crate::float_bits::Real;
use crate::model::ExtraModel;
use crate::text::search;

verus! {

/// Settings, with everything left open that was not set.
#[derive(Debug)]
pub struct Settings {
    pub api_key: Option<String>,
    pub model: Option<String>,
    pub temperature: Option<Real>,
    pub max_tokens: Option<u32>,
    pub extra_channels: Option<Vec<ExtraModel>>,
    pub privileged: Option<bool>,
    pub max_beats: Option<u32>,
    pub session_blocks_limit: Option<u32>,
    pub session_block_kb: Option<u32>,
    pub history_kb: Option<u32>,
    pub safety_max_consecutive_beats: Option<u32>,
    pub safety_cooldown_secs: Option<u64>,
    pub name: Option<String>,
    pub color: Option<String>,
    pub avatar: Option<String>,
    pub host: Option<String>,
    pub shell_env: Option<String>,
}

/// A setting, or else what stands in for it.
pub open spec fn or_else<T>(a: Option<T>, b: Option<T>) -> Option<T> {
    match a {
        Some(x) => Some(x),
        None => b,
    }
}

/// A setting, or else a default.
pub open spec fn or_value<T>(a: Option<T>, b: T) -> T {
    match a {
        Some(x) => x,
        None => b,
    }
}

/// Settings in which everything that `s` leaves open is taken from `fallback`.
pub open spec fn merged(s: Settings, fallback: Settings) -> Settings {
    Settings {
        api_key: or_else(s.api_key, fallback.api_key),
        model: or_else(s.model, fallback.model),
        temperature: or_else(s.temperature, fallback.temperature),
        max_tokens: or_else(s.max_tokens, fallback.max_tokens),
        extra_channels: or_else(s.extra_channels, fallback.extra_channels),
        privileged: or_else(s.privileged, fallback.privileged),
        max_beats: or_else(s.max_beats, fallback.max_beats),
        session_blocks_limit: or_else(s.session_blocks_limit, fallback.session_blocks_limit),
        session_block_kb: or_else(s.session_block_kb, fallback.session_block_kb),
        history_kb: or_else(s.history_kb, fallback.history_kb),
        safety_max_consecutive_beats: or_else(
            s.safety_max_consecutive_beats,
            fallback.safety_max_consecutive_beats,
        ),
        safety_cooldown_secs: or_else(s.safety_cooldown_secs, fallback.safety_cooldown_secs),
        name: or_else(s.name, fallback.name),
        color: or_else(s.color, fallback.color),
        avatar: or_else(s.avatar, fallback.avatar),
        host: or_else(s.host, fallback.host),
        shell_env: or_else(s.shell_env, fallback.shell_env),
    }
}

/// `s` filled in from `fallback`, as far as can be told from what the lists hold.
pub open spec fn is_merged(after: Settings, s: Settings, fallback: Settings) -> bool {
    let whole = merged(s, fallback);
    &&& after == (Settings { extra_channels: after.extra_channels, ..whole })
    &&& after.extra_channels is Some == whole.extra_channels is Some
    &&& after.extra_channels is Some ==> after.extra_channels->0@ == whole.extra_channels->0@
}

/// Settings that leave everything open.
pub open spec fn nothing_set() -> Settings {
    Settings {
        api_key: None,
        model: None,
        temperature: None,
        max_tokens: None,
        extra_channels: None,
        privileged: None,
        max_beats: None,
        session_blocks_limit: None,
        session_block_kb: None,
        history_kb: None,
        safety_max_consecutive_beats: None,
        safety_cooldown_secs: None,
        name: None,
        color: None,
        avatar: None,
        host: None,
        shell_env: None,
    }
}

impl Default for Settings {
    fn default() -> (r: Self)
        ensures
            r == nothing_set(),
    {
        Settings {
            api_key: None,
            model: None,
            temperature: None,
            max_tokens: None,
            extra_channels: None,
            privileged: None,
            max_beats: None,
            session_blocks_limit: None,
            session_block_kb: None,
            history_kb: None,
            safety_max_consecutive_beats: None,
            safety_cooldown_secs: None,
            name: None,
            color: None,
            avatar: None,
            host: None,
            shell_env: None,
        }
    }
}

/// Filling in from settings that leave everything open changes nothing, and so
/// does filling in a second time; several fallbacks can be merged in any grouping.
pub proof fn law_merging(a: Settings, b: Settings, c: Settings)
    ensures
        merged(a, nothing_set()) == a,
        merged(nothing_set(), a) == a,
        merged(merged(a, b), b) == merged(a, b),
        merged(merged(a, b), c) == merged(a, merged(b, c)),
{
}

fn text_or(a: &Option<String>, b: &Option<String>) -> (r: Option<String>)
    ensures
        r == or_else(*a, *b),
{
    match a {
        Some(x) => Some(x.clone()),
        None => match b {
            Some(y) => Some(y.clone()),
            None => None,
        },
    }
}

fn copy_channels(v: &Vec<ExtraModel>) -> (r: Vec<ExtraModel>)
    ensures
        r@ == v@,
{
    let mut out: Vec<ExtraModel> = Vec::new();
    let mut i: usize = 0;
    while i < v.len()
        invariant
            i <= v@.len(),
            out@ == v@.take(i as int),
        decreases v@.len() - i,
    {
        out.push(v[i].clone());
        i = i + 1;
        assert(v@.take(i as int) =~= v@.take(i - 1).push(v@[i - 1]));
    }
    assert(out@ =~= v@);
    out
}

impl Settings {
    /// Fills in what is left open from other settings.
    pub fn merge_fallback(&mut self, fallback: &Settings)
        ensures
            is_merged(*final(self), *old(self), *fallback),
    {
        self.api_key = text_or(&self.api_key, &fallback.api_key);
        self.model = text_or(&self.model, &fallback.model);
        if self.temperature.is_none() {
            self.temperature = fallback.temperature;
        }
        if self.max_tokens.is_none() {
            self.max_tokens = fallback.max_tokens;
        }
        if self.extra_channels.is_none() {
            self.extra_channels = match &fallback.extra_channels {
                Some(v) => Some(copy_channels(v)),
                None => None,
            };
        }
        if self.privileged.is_none() {
            self.privileged = fallback.privileged;
        }
        if self.max_beats.is_none() {
            self.max_beats = fallback.max_beats;
        }
        if self.session_blocks_limit.is_none() {
            self.session_blocks_limit = fallback.session_blocks_limit;
        }
        if self.session_block_kb.is_none() {
            self.session_block_kb = fallback.session_block_kb;
        }
        if self.history_kb.is_none() {
            self.history_kb = fallback.history_kb;
        }
        if self.safety_max_consecutive_beats.is_none() {
            self.safety_max_consecutive_beats = fallback.safety_max_consecutive_beats;
        }
        if self.safety_cooldown_secs.is_none() {
            self.safety_cooldown_secs = fallback.safety_cooldown_secs;
        }
        self.name = text_or(&self.name, &fallback.name);
        self.color = text_or(&self.color, &fallback.color);
        self.avatar = text_or(&self.avatar, &fallback.avatar);
        self.host = text_or(&self.host, &fallback.host);
        self.shell_env = text_or(&self.shell_env, &fallback.shell_env);
    }

    /// The model, or the default one.
    pub fn model_or_default(&self, default_model: &str) -> (r: String)
        ensures
            r@ == model_text(*self, default_model@),
    {
        match &self.model {
            Some(m) => m.clone(),
            None => default_model.to_string(),
        }
    }

    /// The key; empty where there is none.
    pub fn api_key_or_default(&self) -> (r: String)
        ensures
            r@ == (match self.api_key {
                Some(k) => k@,
                None => Seq::empty(),
            }),
    {
        match &self.api_key {
            Some(k) => k.clone(),
            None => String::new(),
        }
    }

    pub fn privileged_or_default(&self) -> (r: bool)
        ensures
            r == or_value(self.privileged, false),
    {
        match self.privileged {
            Some(p) => p,
            None => false,
        }
    }

    /// Settings need a key.
    pub fn validate(&self) -> (r: Result<(), String>)
        ensures
            match r {
                Ok(_) => self.has_key(),
                Err(e) => !self.has_key() && e@
                    == "Missing api_key: set in settings.json or ALICE_DEFAULT_API_KEY env var"@,
            },
    {
        if self.has_api_key() {
            Ok(())
        } else {
            Err("Missing api_key: set in settings.json or ALICE_DEFAULT_API_KEY env var".to_string())
        }
    }

    pub open spec fn has_key(self) -> bool {
        self.api_key is Some && self.api_key->0@.len() > 0
    }

    /// Whether there is a key that is not empty.
    pub fn has_api_key(&self) -> (r: bool)
        ensures
            r == self.has_key(),
    {
        match &self.api_key {
            Some(k) => !k.as_str().is_empty(),
            None => false,
        }
    }

    /// The models that an instance works with: its own one first, then the
    /// further ones, all with the same limits.
    pub fn channel_configs(&self, default_model: &str) -> (r: Vec<LlmConfig>)
        ensures
            is_channels(r@, *self, default_model@),
    {
        let mut configs: Vec<LlmConfig> = Vec::new();
        configs.push(
            LlmConfig {
                model: self.model_or_default(default_model),
                api_key: self.api_key_or_default(),
                temperature: self.temperature,
                max_tokens: self.max_tokens,
            },
        );
        if let Some(extra) = &self.extra_channels {
            let mut i: usize = 0;
            while i < extra.len()
                invariant
                    i <= extra@.len(),
                    self.extra_channels == Some(*extra),
                    configs@.len() == i + 1,
                    is_channel(configs@[0], model_text(*self, default_model@), key_text(*self), *self),
                    forall|k: int|
                        1 <= k <= i ==> is_channel(
                            #[trigger] configs@[k],
                            extra@[k - 1].model@,
                            extra@[k - 1].api_key@,
                            *self,
                        ),
                decreases extra@.len() - i,
            {
                configs.push(
                    LlmConfig {
                        model: extra[i].model.clone(),
                        api_key: extra[i].api_key.clone(),
                        temperature: self.temperature,
                        max_tokens: self.max_tokens,
                    },
                );
                i = i + 1;
            }
        }
        configs
    }
}

/// A name, where it is wanted.
pub open spec fn named(wanted: bool, name: Seq<char>) -> Seq<Seq<char>> {
    if wanted {
        seq![name]
    } else {
        Seq::empty()
    }
}

/// The names of the settings that are set.
pub open spec fn set_names(s: Settings) -> Seq<Seq<char>> {
    named(s.api_key is Some, "api_key"@) + named(s.model is Some, "model"@) + named(
        s.temperature is Some,
        "temperature"@,
    ) + named(s.max_tokens is Some, "max_tokens"@) + named(
        s.extra_channels is Some,
        "extra_channels"@,
    ) + named(s.privileged is Some, "privileged"@) + named(s.max_beats is Some, "max_beats"@)
        + named(s.session_blocks_limit is Some, "session_blocks_limit"@) + named(
        s.session_block_kb is Some,
        "session_block_kb"@,
    ) + named(s.history_kb is Some, "history_kb"@) + named(
        s.safety_max_consecutive_beats is Some,
        "safety_max_consecutive_beats"@,
    ) + named(s.safety_cooldown_secs is Some, "safety_cooldown_secs"@) + named(
        s.name is Some,
        "name"@,
    ) + named(s.color is Some, "color"@) + named(s.avatar is Some, "avatar"@) + named(
        s.host is Some,
        "host"@,
    ) + named(s.shell_env is Some, "shell_env"@)
}

fn push_named(out: &mut Vec<String>, wanted: bool, name: &str)
    ensures
        search::views(final(out)@) == search::views(old(out)@) + named(wanted, name@),
{
    let ghost before = search::views(out@);
    if wanted {
        let s = name.to_string();
        proof {
            search::lemma_views_push(out@, s);
        }
        out.push(s);
    }
    assert(search::views(out@) =~= before + named(wanted, name@));
}

impl Settings {
    /// The names of the settings that are set.
    pub fn set_fields(&self) -> (r: Vec<String>)
        ensures
            search::views(r@) == set_names(*self),
    {
        let mut out: Vec<String> = Vec::new();
        assert(search::views(out@) =~= Seq::<Seq<char>>::empty());
        push_named(&mut out, self.api_key.is_some(), "api_key");
        assert(search::views(out@) =~= named(self.api_key is Some, "api_key"@));
        push_named(&mut out, self.model.is_some(), "model");
        push_named(&mut out, self.temperature.is_some(), "temperature");
        push_named(&mut out, self.max_tokens.is_some(), "max_tokens");
        push_named(&mut out, self.extra_channels.is_some(), "extra_channels");
        push_named(&mut out, self.privileged.is_some(), "privileged");
        push_named(&mut out, self.max_beats.is_some(), "max_beats");
        push_named(&mut out, self.session_blocks_limit.is_some(), "session_blocks_limit");
        push_named(&mut out, self.session_block_kb.is_some(), "session_block_kb");
        push_named(&mut out, self.history_kb.is_some(), "history_kb");
        push_named(
            &mut out,
            self.safety_max_consecutive_beats.is_some(),
            "safety_max_consecutive_beats",
        );
        push_named(&mut out, self.safety_cooldown_secs.is_some(), "safety_cooldown_secs");
        push_named(&mut out, self.name.is_some(), "name");
        push_named(&mut out, self.color.is_some(), "color");
        push_named(&mut out, self.avatar.is_some(), "avatar");
        push_named(&mut out, self.host.is_some(), "host");
        push_named(&mut out, self.shell_env.is_some(), "shell_env");
        out
    }
}

pub open spec fn model_text(s: Settings, default_model: Seq<char>) -> Seq<char> {
    match s.model {
        Some(m) => m@,
        None => default_model,
    }
}

pub open spec fn key_text(s: Settings) -> Seq<char> {
    match s.api_key {
        Some(k) => k@,
        None => Seq::empty(),
    }
}

/// A model with a key, with the limits of the settings.
pub open spec fn is_channel(c: LlmConfig, model: Seq<char>, key: Seq<char>, s: Settings) -> bool {
    c.model@ == model && c.api_key@ == key && c.temperature == s.temperature && c.max_tokens
        == s.max_tokens
}

/// The models that an instance with these settings works with.
pub open spec fn is_channels(
    configs: Seq<LlmConfig>,
    s: Settings,
    default_model: Seq<char>,
) -> bool {
    let extra = match s.extra_channels {
        Some(v) => v@,
        None => Seq::empty(),
    };
    &&& configs.len() == 1 + extra.len()
    &&& is_channel(configs[0], model_text(s, default_model), key_text(s), s)
    &&& forall|k: int|
        1 <= k < configs.len() ==> is_channel(
            #[trigger] configs[k],
            extra[k - 1].model@,
            extra[k - 1].api_key@,
            s,
        )
}

} // verus!
