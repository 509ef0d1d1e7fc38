//! What the tables and the settings keep.
use vstd::prelude::*;

use crate::external::llm::LlmConfig;
use crate::persist;
use crate::persist::settings;
use crate::persist::settings::{merged, named, Settings};
use crate::persist::{Column, ColumnType};
use crate::text::parts;
use crate::text::search;

verus! {

/// What is set counts; the fallback counts only where nothing is set.
pub proof fn law_own_settings_take_precedence(s: Settings, f: Settings)
    ensures
        s.api_key is Some ==> merged(s, f).api_key == s.api_key,
        s.api_key is None ==> merged(s, f).api_key == f.api_key,
        s.model is Some ==> merged(s, f).model == s.model,
        s.model is None ==> merged(s, f).model == f.model,
        s.temperature is Some ==> merged(s, f).temperature == s.temperature,
        s.temperature is None ==> merged(s, f).temperature == f.temperature,
        s.max_tokens is Some ==> merged(s, f).max_tokens == s.max_tokens,
        s.max_tokens is None ==> merged(s, f).max_tokens == f.max_tokens,
        s.extra_channels is Some ==> merged(s, f).extra_channels == s.extra_channels,
        s.extra_channels is None ==> merged(s, f).extra_channels == f.extra_channels,
        s.privileged is Some ==> merged(s, f).privileged == s.privileged,
        s.privileged is None ==> merged(s, f).privileged == f.privileged,
        s.max_beats is Some ==> merged(s, f).max_beats == s.max_beats,
        s.max_beats is None ==> merged(s, f).max_beats == f.max_beats,
        s.session_blocks_limit is Some ==> merged(s, f).session_blocks_limit == s.session_blocks_limit,
        s.session_blocks_limit is None ==> merged(s, f).session_blocks_limit == f.session_blocks_limit,
        s.session_block_kb is Some ==> merged(s, f).session_block_kb == s.session_block_kb,
        s.session_block_kb is None ==> merged(s, f).session_block_kb == f.session_block_kb,
        s.history_kb is Some ==> merged(s, f).history_kb == s.history_kb,
        s.history_kb is None ==> merged(s, f).history_kb == f.history_kb,
        s.safety_max_consecutive_beats is Some ==> merged(s, f).safety_max_consecutive_beats == s.safety_max_consecutive_beats,
        s.safety_max_consecutive_beats is None ==> merged(s, f).safety_max_consecutive_beats == f.safety_max_consecutive_beats,
        s.safety_cooldown_secs is Some ==> merged(s, f).safety_cooldown_secs == s.safety_cooldown_secs,
        s.safety_cooldown_secs is None ==> merged(s, f).safety_cooldown_secs == f.safety_cooldown_secs,
        s.name is Some ==> merged(s, f).name == s.name,
        s.name is None ==> merged(s, f).name == f.name,
        s.color is Some ==> merged(s, f).color == s.color,
        s.color is None ==> merged(s, f).color == f.color,
        s.avatar is Some ==> merged(s, f).avatar == s.avatar,
        s.avatar is None ==> merged(s, f).avatar == f.avatar,
        s.host is Some ==> merged(s, f).host == s.host,
        s.host is None ==> merged(s, f).host == f.host,
        s.shell_env is Some ==> merged(s, f).shell_env == s.shell_env,
        s.shell_env is None ==> merged(s, f).shell_env == f.shell_env,
{
}

proof fn lemma_either(a: Seq<Seq<char>>, b: Seq<Seq<char>>, x: Seq<char>)
    ensures
        a.contains(x) || b.contains(x) ==> (a + b).contains(x),
{
    if a.contains(x) {
        let i = choose|i: int| 0 <= i < a.len() && a[i] == x;
        assert((a + b)[i] == x);
    } else if b.contains(x) {
        let i = choose|i: int| 0 <= i < b.len() && b[i] == x;
        assert((a + b)[a.len() + i] == x);
    }
}

proof fn lemma_in_any(
    x0: Seq<Seq<char>>,
    x1: Seq<Seq<char>>,
    x2: Seq<Seq<char>>,
    x3: Seq<Seq<char>>,
    x4: Seq<Seq<char>>,
    x5: Seq<Seq<char>>,
    x6: Seq<Seq<char>>,
    x7: Seq<Seq<char>>,
    x8: Seq<Seq<char>>,
    x9: Seq<Seq<char>>,
    x10: Seq<Seq<char>>,
    x11: Seq<Seq<char>>,
    x12: Seq<Seq<char>>,
    x13: Seq<Seq<char>>,
    x14: Seq<Seq<char>>,
    x15: Seq<Seq<char>>,
    x16: Seq<Seq<char>>,
    x: Seq<char>,
)
    ensures
        x0.contains(x) ==> (x0 + x1 + x2 + x3 + x4 + x5 + x6 + x7 + x8 + x9 + x10 + x11 + x12 + x13 + x14 + x15 + x16).contains(x),
        x1.contains(x) ==> (x0 + x1 + x2 + x3 + x4 + x5 + x6 + x7 + x8 + x9 + x10 + x11 + x12 + x13 + x14 + x15 + x16).contains(x),
        x2.contains(x) ==> (x0 + x1 + x2 + x3 + x4 + x5 + x6 + x7 + x8 + x9 + x10 + x11 + x12 + x13 + x14 + x15 + x16).contains(x),
        x3.contains(x) ==> (x0 + x1 + x2 + x3 + x4 + x5 + x6 + x7 + x8 + x9 + x10 + x11 + x12 + x13 + x14 + x15 + x16).contains(x),
        x4.contains(x) ==> (x0 + x1 + x2 + x3 + x4 + x5 + x6 + x7 + x8 + x9 + x10 + x11 + x12 + x13 + x14 + x15 + x16).contains(x),
        x5.contains(x) ==> (x0 + x1 + x2 + x3 + x4 + x5 + x6 + x7 + x8 + x9 + x10 + x11 + x12 + x13 + x14 + x15 + x16).contains(x),
        x6.contains(x) ==> (x0 + x1 + x2 + x3 + x4 + x5 + x6 + x7 + x8 + x9 + x10 + x11 + x12 + x13 + x14 + x15 + x16).contains(x),
        x7.contains(x) ==> (x0 + x1 + x2 + x3 + x4 + x5 + x6 + x7 + x8 + x9 + x10 + x11 + x12 + x13 + x14 + x15 + x16).contains(x),
        x8.contains(x) ==> (x0 + x1 + x2 + x3 + x4 + x5 + x6 + x7 + x8 + x9 + x10 + x11 + x12 + x13 + x14 + x15 + x16).contains(x),
        x9.contains(x) ==> (x0 + x1 + x2 + x3 + x4 + x5 + x6 + x7 + x8 + x9 + x10 + x11 + x12 + x13 + x14 + x15 + x16).contains(x),
        x10.contains(x) ==> (x0 + x1 + x2 + x3 + x4 + x5 + x6 + x7 + x8 + x9 + x10 + x11 + x12 + x13 + x14 + x15 + x16).contains(x),
        x11.contains(x) ==> (x0 + x1 + x2 + x3 + x4 + x5 + x6 + x7 + x8 + x9 + x10 + x11 + x12 + x13 + x14 + x15 + x16).contains(x),
        x12.contains(x) ==> (x0 + x1 + x2 + x3 + x4 + x5 + x6 + x7 + x8 + x9 + x10 + x11 + x12 + x13 + x14 + x15 + x16).contains(x),
        x13.contains(x) ==> (x0 + x1 + x2 + x3 + x4 + x5 + x6 + x7 + x8 + x9 + x10 + x11 + x12 + x13 + x14 + x15 + x16).contains(x),
        x14.contains(x) ==> (x0 + x1 + x2 + x3 + x4 + x5 + x6 + x7 + x8 + x9 + x10 + x11 + x12 + x13 + x14 + x15 + x16).contains(x),
        x15.contains(x) ==> (x0 + x1 + x2 + x3 + x4 + x5 + x6 + x7 + x8 + x9 + x10 + x11 + x12 + x13 + x14 + x15 + x16).contains(x),
        x16.contains(x) ==> (x0 + x1 + x2 + x3 + x4 + x5 + x6 + x7 + x8 + x9 + x10 + x11 + x12 + x13 + x14 + x15 + x16).contains(x),
{
    let a0 = x0;
    let a1 = a0 + x1;
    lemma_either(a0, x1, x);
    let a2 = a1 + x2;
    lemma_either(a1, x2, x);
    let a3 = a2 + x3;
    lemma_either(a2, x3, x);
    let a4 = a3 + x4;
    lemma_either(a3, x4, x);
    let a5 = a4 + x5;
    lemma_either(a4, x5, x);
    let a6 = a5 + x6;
    lemma_either(a5, x6, x);
    let a7 = a6 + x7;
    lemma_either(a6, x7, x);
    let a8 = a7 + x8;
    lemma_either(a7, x8, x);
    let a9 = a8 + x9;
    lemma_either(a8, x9, x);
    let a10 = a9 + x10;
    lemma_either(a9, x10, x);
    let a11 = a10 + x11;
    lemma_either(a10, x11, x);
    let a12 = a11 + x12;
    lemma_either(a11, x12, x);
    let a13 = a12 + x13;
    lemma_either(a12, x13, x);
    let a14 = a13 + x14;
    lemma_either(a13, x14, x);
    let a15 = a14 + x15;
    lemma_either(a14, x15, x);
    let a16 = a15 + x16;
    lemma_either(a15, x16, x);
}

proof fn lemma_named(wanted: bool, name: Seq<char>)
    ensures
        wanted ==> named(wanted, name).contains(name),
{
    if wanted {
        assert(named(wanted, name)[0] == name);
    }
}

proof fn lemma_api_key_told(s: Settings)
    requires
        s.api_key is Some,
    ensures
        settings::set_names(s).contains("api_key"@),
{
    lemma_named(s.api_key is Some, "api_key"@);
    lemma_in_any(
        named(s.api_key is Some, "api_key"@),
        named(s.model is Some, "model"@),
        named(s.temperature is Some, "temperature"@),
        named(s.max_tokens is Some, "max_tokens"@),
        named(s.extra_channels is Some, "extra_channels"@),
        named(s.privileged is Some, "privileged"@),
        named(s.max_beats is Some, "max_beats"@),
        named(s.session_blocks_limit is Some, "session_blocks_limit"@),
        named(s.session_block_kb is Some, "session_block_kb"@),
        named(s.history_kb is Some, "history_kb"@),
        named(s.safety_max_consecutive_beats is Some, "safety_max_consecutive_beats"@),
        named(s.safety_cooldown_secs is Some, "safety_cooldown_secs"@),
        named(s.name is Some, "name"@),
        named(s.color is Some, "color"@),
        named(s.avatar is Some, "avatar"@),
        named(s.host is Some, "host"@),
        named(s.shell_env is Some, "shell_env"@),
        "api_key"@,
    );
}

proof fn lemma_model_told(s: Settings)
    requires
        s.model is Some,
    ensures
        settings::set_names(s).contains("model"@),
{
    lemma_named(s.model is Some, "model"@);
    lemma_in_any(
        named(s.api_key is Some, "api_key"@),
        named(s.model is Some, "model"@),
        named(s.temperature is Some, "temperature"@),
        named(s.max_tokens is Some, "max_tokens"@),
        named(s.extra_channels is Some, "extra_channels"@),
        named(s.privileged is Some, "privileged"@),
        named(s.max_beats is Some, "max_beats"@),
        named(s.session_blocks_limit is Some, "session_blocks_limit"@),
        named(s.session_block_kb is Some, "session_block_kb"@),
        named(s.history_kb is Some, "history_kb"@),
        named(s.safety_max_consecutive_beats is Some, "safety_max_consecutive_beats"@),
        named(s.safety_cooldown_secs is Some, "safety_cooldown_secs"@),
        named(s.name is Some, "name"@),
        named(s.color is Some, "color"@),
        named(s.avatar is Some, "avatar"@),
        named(s.host is Some, "host"@),
        named(s.shell_env is Some, "shell_env"@),
        "model"@,
    );
}

proof fn lemma_temperature_told(s: Settings)
    requires
        s.temperature is Some,
    ensures
        settings::set_names(s).contains("temperature"@),
{
    lemma_named(s.temperature is Some, "temperature"@);
    lemma_in_any(
        named(s.api_key is Some, "api_key"@),
        named(s.model is Some, "model"@),
        named(s.temperature is Some, "temperature"@),
        named(s.max_tokens is Some, "max_tokens"@),
        named(s.extra_channels is Some, "extra_channels"@),
        named(s.privileged is Some, "privileged"@),
        named(s.max_beats is Some, "max_beats"@),
        named(s.session_blocks_limit is Some, "session_blocks_limit"@),
        named(s.session_block_kb is Some, "session_block_kb"@),
        named(s.history_kb is Some, "history_kb"@),
        named(s.safety_max_consecutive_beats is Some, "safety_max_consecutive_beats"@),
        named(s.safety_cooldown_secs is Some, "safety_cooldown_secs"@),
        named(s.name is Some, "name"@),
        named(s.color is Some, "color"@),
        named(s.avatar is Some, "avatar"@),
        named(s.host is Some, "host"@),
        named(s.shell_env is Some, "shell_env"@),
        "temperature"@,
    );
}

proof fn lemma_max_tokens_told(s: Settings)
    requires
        s.max_tokens is Some,
    ensures
        settings::set_names(s).contains("max_tokens"@),
{
    lemma_named(s.max_tokens is Some, "max_tokens"@);
    lemma_in_any(
        named(s.api_key is Some, "api_key"@),
        named(s.model is Some, "model"@),
        named(s.temperature is Some, "temperature"@),
        named(s.max_tokens is Some, "max_tokens"@),
        named(s.extra_channels is Some, "extra_channels"@),
        named(s.privileged is Some, "privileged"@),
        named(s.max_beats is Some, "max_beats"@),
        named(s.session_blocks_limit is Some, "session_blocks_limit"@),
        named(s.session_block_kb is Some, "session_block_kb"@),
        named(s.history_kb is Some, "history_kb"@),
        named(s.safety_max_consecutive_beats is Some, "safety_max_consecutive_beats"@),
        named(s.safety_cooldown_secs is Some, "safety_cooldown_secs"@),
        named(s.name is Some, "name"@),
        named(s.color is Some, "color"@),
        named(s.avatar is Some, "avatar"@),
        named(s.host is Some, "host"@),
        named(s.shell_env is Some, "shell_env"@),
        "max_tokens"@,
    );
}

proof fn lemma_extra_channels_told(s: Settings)
    requires
        s.extra_channels is Some,
    ensures
        settings::set_names(s).contains("extra_channels"@),
{
    lemma_named(s.extra_channels is Some, "extra_channels"@);
    lemma_in_any(
        named(s.api_key is Some, "api_key"@),
        named(s.model is Some, "model"@),
        named(s.temperature is Some, "temperature"@),
        named(s.max_tokens is Some, "max_tokens"@),
        named(s.extra_channels is Some, "extra_channels"@),
        named(s.privileged is Some, "privileged"@),
        named(s.max_beats is Some, "max_beats"@),
        named(s.session_blocks_limit is Some, "session_blocks_limit"@),
        named(s.session_block_kb is Some, "session_block_kb"@),
        named(s.history_kb is Some, "history_kb"@),
        named(s.safety_max_consecutive_beats is Some, "safety_max_consecutive_beats"@),
        named(s.safety_cooldown_secs is Some, "safety_cooldown_secs"@),
        named(s.name is Some, "name"@),
        named(s.color is Some, "color"@),
        named(s.avatar is Some, "avatar"@),
        named(s.host is Some, "host"@),
        named(s.shell_env is Some, "shell_env"@),
        "extra_channels"@,
    );
}

proof fn lemma_privileged_told(s: Settings)
    requires
        s.privileged is Some,
    ensures
        settings::set_names(s).contains("privileged"@),
{
    lemma_named(s.privileged is Some, "privileged"@);
    lemma_in_any(
        named(s.api_key is Some, "api_key"@),
        named(s.model is Some, "model"@),
        named(s.temperature is Some, "temperature"@),
        named(s.max_tokens is Some, "max_tokens"@),
        named(s.extra_channels is Some, "extra_channels"@),
        named(s.privileged is Some, "privileged"@),
        named(s.max_beats is Some, "max_beats"@),
        named(s.session_blocks_limit is Some, "session_blocks_limit"@),
        named(s.session_block_kb is Some, "session_block_kb"@),
        named(s.history_kb is Some, "history_kb"@),
        named(s.safety_max_consecutive_beats is Some, "safety_max_consecutive_beats"@),
        named(s.safety_cooldown_secs is Some, "safety_cooldown_secs"@),
        named(s.name is Some, "name"@),
        named(s.color is Some, "color"@),
        named(s.avatar is Some, "avatar"@),
        named(s.host is Some, "host"@),
        named(s.shell_env is Some, "shell_env"@),
        "privileged"@,
    );
}

proof fn lemma_max_beats_told(s: Settings)
    requires
        s.max_beats is Some,
    ensures
        settings::set_names(s).contains("max_beats"@),
{
    lemma_named(s.max_beats is Some, "max_beats"@);
    lemma_in_any(
        named(s.api_key is Some, "api_key"@),
        named(s.model is Some, "model"@),
        named(s.temperature is Some, "temperature"@),
        named(s.max_tokens is Some, "max_tokens"@),
        named(s.extra_channels is Some, "extra_channels"@),
        named(s.privileged is Some, "privileged"@),
        named(s.max_beats is Some, "max_beats"@),
        named(s.session_blocks_limit is Some, "session_blocks_limit"@),
        named(s.session_block_kb is Some, "session_block_kb"@),
        named(s.history_kb is Some, "history_kb"@),
        named(s.safety_max_consecutive_beats is Some, "safety_max_consecutive_beats"@),
        named(s.safety_cooldown_secs is Some, "safety_cooldown_secs"@),
        named(s.name is Some, "name"@),
        named(s.color is Some, "color"@),
        named(s.avatar is Some, "avatar"@),
        named(s.host is Some, "host"@),
        named(s.shell_env is Some, "shell_env"@),
        "max_beats"@,
    );
}

proof fn lemma_session_blocks_limit_told(s: Settings)
    requires
        s.session_blocks_limit is Some,
    ensures
        settings::set_names(s).contains("session_blocks_limit"@),
{
    lemma_named(s.session_blocks_limit is Some, "session_blocks_limit"@);
    lemma_in_any(
        named(s.api_key is Some, "api_key"@),
        named(s.model is Some, "model"@),
        named(s.temperature is Some, "temperature"@),
        named(s.max_tokens is Some, "max_tokens"@),
        named(s.extra_channels is Some, "extra_channels"@),
        named(s.privileged is Some, "privileged"@),
        named(s.max_beats is Some, "max_beats"@),
        named(s.session_blocks_limit is Some, "session_blocks_limit"@),
        named(s.session_block_kb is Some, "session_block_kb"@),
        named(s.history_kb is Some, "history_kb"@),
        named(s.safety_max_consecutive_beats is Some, "safety_max_consecutive_beats"@),
        named(s.safety_cooldown_secs is Some, "safety_cooldown_secs"@),
        named(s.name is Some, "name"@),
        named(s.color is Some, "color"@),
        named(s.avatar is Some, "avatar"@),
        named(s.host is Some, "host"@),
        named(s.shell_env is Some, "shell_env"@),
        "session_blocks_limit"@,
    );
}

proof fn lemma_session_block_kb_told(s: Settings)
    requires
        s.session_block_kb is Some,
    ensures
        settings::set_names(s).contains("session_block_kb"@),
{
    lemma_named(s.session_block_kb is Some, "session_block_kb"@);
    lemma_in_any(
        named(s.api_key is Some, "api_key"@),
        named(s.model is Some, "model"@),
        named(s.temperature is Some, "temperature"@),
        named(s.max_tokens is Some, "max_tokens"@),
        named(s.extra_channels is Some, "extra_channels"@),
        named(s.privileged is Some, "privileged"@),
        named(s.max_beats is Some, "max_beats"@),
        named(s.session_blocks_limit is Some, "session_blocks_limit"@),
        named(s.session_block_kb is Some, "session_block_kb"@),
        named(s.history_kb is Some, "history_kb"@),
        named(s.safety_max_consecutive_beats is Some, "safety_max_consecutive_beats"@),
        named(s.safety_cooldown_secs is Some, "safety_cooldown_secs"@),
        named(s.name is Some, "name"@),
        named(s.color is Some, "color"@),
        named(s.avatar is Some, "avatar"@),
        named(s.host is Some, "host"@),
        named(s.shell_env is Some, "shell_env"@),
        "session_block_kb"@,
    );
}

proof fn lemma_history_kb_told(s: Settings)
    requires
        s.history_kb is Some,
    ensures
        settings::set_names(s).contains("history_kb"@),
{
    lemma_named(s.history_kb is Some, "history_kb"@);
    lemma_in_any(
        named(s.api_key is Some, "api_key"@),
        named(s.model is Some, "model"@),
        named(s.temperature is Some, "temperature"@),
        named(s.max_tokens is Some, "max_tokens"@),
        named(s.extra_channels is Some, "extra_channels"@),
        named(s.privileged is Some, "privileged"@),
        named(s.max_beats is Some, "max_beats"@),
        named(s.session_blocks_limit is Some, "session_blocks_limit"@),
        named(s.session_block_kb is Some, "session_block_kb"@),
        named(s.history_kb is Some, "history_kb"@),
        named(s.safety_max_consecutive_beats is Some, "safety_max_consecutive_beats"@),
        named(s.safety_cooldown_secs is Some, "safety_cooldown_secs"@),
        named(s.name is Some, "name"@),
        named(s.color is Some, "color"@),
        named(s.avatar is Some, "avatar"@),
        named(s.host is Some, "host"@),
        named(s.shell_env is Some, "shell_env"@),
        "history_kb"@,
    );
}

proof fn lemma_safety_max_consecutive_beats_told(s: Settings)
    requires
        s.safety_max_consecutive_beats is Some,
    ensures
        settings::set_names(s).contains("safety_max_consecutive_beats"@),
{
    lemma_named(s.safety_max_consecutive_beats is Some, "safety_max_consecutive_beats"@);
    lemma_in_any(
        named(s.api_key is Some, "api_key"@),
        named(s.model is Some, "model"@),
        named(s.temperature is Some, "temperature"@),
        named(s.max_tokens is Some, "max_tokens"@),
        named(s.extra_channels is Some, "extra_channels"@),
        named(s.privileged is Some, "privileged"@),
        named(s.max_beats is Some, "max_beats"@),
        named(s.session_blocks_limit is Some, "session_blocks_limit"@),
        named(s.session_block_kb is Some, "session_block_kb"@),
        named(s.history_kb is Some, "history_kb"@),
        named(s.safety_max_consecutive_beats is Some, "safety_max_consecutive_beats"@),
        named(s.safety_cooldown_secs is Some, "safety_cooldown_secs"@),
        named(s.name is Some, "name"@),
        named(s.color is Some, "color"@),
        named(s.avatar is Some, "avatar"@),
        named(s.host is Some, "host"@),
        named(s.shell_env is Some, "shell_env"@),
        "safety_max_consecutive_beats"@,
    );
}

proof fn lemma_safety_cooldown_secs_told(s: Settings)
    requires
        s.safety_cooldown_secs is Some,
    ensures
        settings::set_names(s).contains("safety_cooldown_secs"@),
{
    lemma_named(s.safety_cooldown_secs is Some, "safety_cooldown_secs"@);
    lemma_in_any(
        named(s.api_key is Some, "api_key"@),
        named(s.model is Some, "model"@),
        named(s.temperature is Some, "temperature"@),
        named(s.max_tokens is Some, "max_tokens"@),
        named(s.extra_channels is Some, "extra_channels"@),
        named(s.privileged is Some, "privileged"@),
        named(s.max_beats is Some, "max_beats"@),
        named(s.session_blocks_limit is Some, "session_blocks_limit"@),
        named(s.session_block_kb is Some, "session_block_kb"@),
        named(s.history_kb is Some, "history_kb"@),
        named(s.safety_max_consecutive_beats is Some, "safety_max_consecutive_beats"@),
        named(s.safety_cooldown_secs is Some, "safety_cooldown_secs"@),
        named(s.name is Some, "name"@),
        named(s.color is Some, "color"@),
        named(s.avatar is Some, "avatar"@),
        named(s.host is Some, "host"@),
        named(s.shell_env is Some, "shell_env"@),
        "safety_cooldown_secs"@,
    );
}

proof fn lemma_name_told(s: Settings)
    requires
        s.name is Some,
    ensures
        settings::set_names(s).contains("name"@),
{
    lemma_named(s.name is Some, "name"@);
    lemma_in_any(
        named(s.api_key is Some, "api_key"@),
        named(s.model is Some, "model"@),
        named(s.temperature is Some, "temperature"@),
        named(s.max_tokens is Some, "max_tokens"@),
        named(s.extra_channels is Some, "extra_channels"@),
        named(s.privileged is Some, "privileged"@),
        named(s.max_beats is Some, "max_beats"@),
        named(s.session_blocks_limit is Some, "session_blocks_limit"@),
        named(s.session_block_kb is Some, "session_block_kb"@),
        named(s.history_kb is Some, "history_kb"@),
        named(s.safety_max_consecutive_beats is Some, "safety_max_consecutive_beats"@),
        named(s.safety_cooldown_secs is Some, "safety_cooldown_secs"@),
        named(s.name is Some, "name"@),
        named(s.color is Some, "color"@),
        named(s.avatar is Some, "avatar"@),
        named(s.host is Some, "host"@),
        named(s.shell_env is Some, "shell_env"@),
        "name"@,
    );
}

proof fn lemma_color_told(s: Settings)
    requires
        s.color is Some,
    ensures
        settings::set_names(s).contains("color"@),
{
    lemma_named(s.color is Some, "color"@);
    lemma_in_any(
        named(s.api_key is Some, "api_key"@),
        named(s.model is Some, "model"@),
        named(s.temperature is Some, "temperature"@),
        named(s.max_tokens is Some, "max_tokens"@),
        named(s.extra_channels is Some, "extra_channels"@),
        named(s.privileged is Some, "privileged"@),
        named(s.max_beats is Some, "max_beats"@),
        named(s.session_blocks_limit is Some, "session_blocks_limit"@),
        named(s.session_block_kb is Some, "session_block_kb"@),
        named(s.history_kb is Some, "history_kb"@),
        named(s.safety_max_consecutive_beats is Some, "safety_max_consecutive_beats"@),
        named(s.safety_cooldown_secs is Some, "safety_cooldown_secs"@),
        named(s.name is Some, "name"@),
        named(s.color is Some, "color"@),
        named(s.avatar is Some, "avatar"@),
        named(s.host is Some, "host"@),
        named(s.shell_env is Some, "shell_env"@),
        "color"@,
    );
}

proof fn lemma_avatar_told(s: Settings)
    requires
        s.avatar is Some,
    ensures
        settings::set_names(s).contains("avatar"@),
{
    lemma_named(s.avatar is Some, "avatar"@);
    lemma_in_any(
        named(s.api_key is Some, "api_key"@),
        named(s.model is Some, "model"@),
        named(s.temperature is Some, "temperature"@),
        named(s.max_tokens is Some, "max_tokens"@),
        named(s.extra_channels is Some, "extra_channels"@),
        named(s.privileged is Some, "privileged"@),
        named(s.max_beats is Some, "max_beats"@),
        named(s.session_blocks_limit is Some, "session_blocks_limit"@),
        named(s.session_block_kb is Some, "session_block_kb"@),
        named(s.history_kb is Some, "history_kb"@),
        named(s.safety_max_consecutive_beats is Some, "safety_max_consecutive_beats"@),
        named(s.safety_cooldown_secs is Some, "safety_cooldown_secs"@),
        named(s.name is Some, "name"@),
        named(s.color is Some, "color"@),
        named(s.avatar is Some, "avatar"@),
        named(s.host is Some, "host"@),
        named(s.shell_env is Some, "shell_env"@),
        "avatar"@,
    );
}

proof fn lemma_host_told(s: Settings)
    requires
        s.host is Some,
    ensures
        settings::set_names(s).contains("host"@),
{
    lemma_named(s.host is Some, "host"@);
    lemma_in_any(
        named(s.api_key is Some, "api_key"@),
        named(s.model is Some, "model"@),
        named(s.temperature is Some, "temperature"@),
        named(s.max_tokens is Some, "max_tokens"@),
        named(s.extra_channels is Some, "extra_channels"@),
        named(s.privileged is Some, "privileged"@),
        named(s.max_beats is Some, "max_beats"@),
        named(s.session_blocks_limit is Some, "session_blocks_limit"@),
        named(s.session_block_kb is Some, "session_block_kb"@),
        named(s.history_kb is Some, "history_kb"@),
        named(s.safety_max_consecutive_beats is Some, "safety_max_consecutive_beats"@),
        named(s.safety_cooldown_secs is Some, "safety_cooldown_secs"@),
        named(s.name is Some, "name"@),
        named(s.color is Some, "color"@),
        named(s.avatar is Some, "avatar"@),
        named(s.host is Some, "host"@),
        named(s.shell_env is Some, "shell_env"@),
        "host"@,
    );
}

proof fn lemma_shell_env_told(s: Settings)
    requires
        s.shell_env is Some,
    ensures
        settings::set_names(s).contains("shell_env"@),
{
    lemma_named(s.shell_env is Some, "shell_env"@);
    lemma_in_any(
        named(s.api_key is Some, "api_key"@),
        named(s.model is Some, "model"@),
        named(s.temperature is Some, "temperature"@),
        named(s.max_tokens is Some, "max_tokens"@),
        named(s.extra_channels is Some, "extra_channels"@),
        named(s.privileged is Some, "privileged"@),
        named(s.max_beats is Some, "max_beats"@),
        named(s.session_blocks_limit is Some, "session_blocks_limit"@),
        named(s.session_block_kb is Some, "session_block_kb"@),
        named(s.history_kb is Some, "history_kb"@),
        named(s.safety_max_consecutive_beats is Some, "safety_max_consecutive_beats"@),
        named(s.safety_cooldown_secs is Some, "safety_cooldown_secs"@),
        named(s.name is Some, "name"@),
        named(s.color is Some, "color"@),
        named(s.avatar is Some, "avatar"@),
        named(s.host is Some, "host"@),
        named(s.shell_env is Some, "shell_env"@),
        "shell_env"@,
    );
}

/// What was set of the models and of the rights is told by the names of its fields.
pub proof fn law_set_model_fields_are_told(s: Settings)
    ensures
        s.api_key is Some ==> settings::set_names(s).contains("api_key"@),
        s.model is Some ==> settings::set_names(s).contains("model"@),
        s.temperature is Some ==> settings::set_names(s).contains("temperature"@),
        s.max_tokens is Some ==> settings::set_names(s).contains("max_tokens"@),
        s.extra_channels is Some ==> settings::set_names(s).contains("extra_channels"@),
        s.privileged is Some ==> settings::set_names(s).contains("privileged"@),
{
    if s.api_key is Some {
        lemma_api_key_told(s);
    }
    if s.model is Some {
        lemma_model_told(s);
    }
    if s.temperature is Some {
        lemma_temperature_told(s);
    }
    if s.max_tokens is Some {
        lemma_max_tokens_told(s);
    }
    if s.extra_channels is Some {
        lemma_extra_channels_told(s);
    }
    if s.privileged is Some {
        lemma_privileged_told(s);
    }
}

/// What was set of the limits is told by the names of its fields.
pub proof fn law_set_limits_are_told(s: Settings)
    ensures
        s.max_beats is Some ==> settings::set_names(s).contains("max_beats"@),
        s.session_blocks_limit is Some ==> settings::set_names(s).contains("session_blocks_limit"@),
        s.session_block_kb is Some ==> settings::set_names(s).contains("session_block_kb"@),
        s.history_kb is Some ==> settings::set_names(s).contains("history_kb"@),
        s.safety_max_consecutive_beats is Some ==> settings::set_names(s).contains("safety_max_consecutive_beats"@),
        s.safety_cooldown_secs is Some ==> settings::set_names(s).contains("safety_cooldown_secs"@),
{
    if s.max_beats is Some {
        lemma_max_beats_told(s);
    }
    if s.session_blocks_limit is Some {
        lemma_session_blocks_limit_told(s);
    }
    if s.session_block_kb is Some {
        lemma_session_block_kb_told(s);
    }
    if s.history_kb is Some {
        lemma_history_kb_told(s);
    }
    if s.safety_max_consecutive_beats is Some {
        lemma_safety_max_consecutive_beats_told(s);
    }
    if s.safety_cooldown_secs is Some {
        lemma_safety_cooldown_secs_told(s);
    }
}

/// What was set of the profile and of the machine is told by the names of its fields.
pub proof fn law_set_profile_fields_are_told(s: Settings)
    ensures
        s.name is Some ==> settings::set_names(s).contains("name"@),
        s.color is Some ==> settings::set_names(s).contains("color"@),
        s.avatar is Some ==> settings::set_names(s).contains("avatar"@),
        s.host is Some ==> settings::set_names(s).contains("host"@),
        s.shell_env is Some ==> settings::set_names(s).contains("shell_env"@),
{
    if s.name is Some {
        lemma_name_told(s);
    }
    if s.color is Some {
        lemma_color_told(s);
    }
    if s.avatar is Some {
        lemma_avatar_told(s);
    }
    if s.host is Some {
        lemma_host_told(s);
    }
    if s.shell_env is Some {
        lemma_shell_env_told(s);
    }
}

/// The first model that is asked is the one that is set, with its key; behind it come the
/// further ones in their order, each with its own key.
pub proof fn law_models_are_asked_in_order(
    configs: Seq<LlmConfig>,
    s: Settings,
    default_model: Seq<char>,
    k: int,
)
    requires
        settings::is_channels(configs, s, default_model),
    ensures
        configs.len() >= 1,
        s.model is Some ==> configs[0].model@ == s.model->0@,
        s.model is None ==> configs[0].model@ == default_model,
        s.api_key is Some ==> configs[0].api_key@ == s.api_key->0@,
        s.extra_channels is None ==> configs.len() == 1,
        s.extra_channels is Some ==> configs.len() == s.extra_channels->0@.len() + 1,
        s.extra_channels is Some && 0 <= k < s.extra_channels->0@.len() ==> {
            &&& configs[k + 1].model@ == s.extra_channels->0@[k].model@
            &&& configs[k + 1].api_key@ == s.extra_channels->0@[k].api_key@
        },
        0 <= k < configs.len() ==> configs[k].temperature == s.temperature && configs[k].max_tokens
            == s.max_tokens,
{
}

/// What is written of a row are all its columns but the number of the row, in their
/// order.
pub proof fn law_all_but_the_number_is_written(schema: Seq<Column>)
    ensures
        persist::written(schema) == schema.filter(|c: Column| !(c.col_type is Id)),
    decreases schema.len(),
{
    reveal(Seq::filter);
    if schema.len() > 0 {
        law_all_but_the_number_is_written(schema.drop_last());
    }
}

proof fn lemma_column_named(cs: Seq<Column>, i: int)
    requires
        0 <= i < cs.len(),
    ensures
        search::has_text(search::join_text(persist::column_names(cs), ", "@), cs[i].name@),
{
    parts::lemma_part_of_join(persist::column_names(cs), ", "@, i);
}

/// Every statement names its table, and every column that it reads or writes.
pub proof fn law_statements_name_their_columns(table: Seq<char>, schema: Seq<Column>, i: int)
    requires
        0 <= i < schema.len(),
    ensures
        search::has_suffix(persist::select_all_text(table, schema), " FROM "@ + table),
        search::has_text(persist::select_all_text(table, schema), schema[i].name@),
        search::has_suffix(
            persist::select_row_text(table, schema),
            " FROM "@ + table + " WHERE rowid = ?"@,
        ),
        search::has_prefix(persist::insert_text(table, schema), "INSERT INTO "@ + table + " ("@),
        search::has_prefix(
            persist::create_table_text(table, schema),
            "CREATE TABLE IF NOT EXISTS "@ + table + " ("@,
        ),
        search::has_text(persist::create_table_text(table, schema), persist::column_def(schema[i])),
        !(schema[i].col_type is Id) ==> search::has_text(
            persist::insert_text(table, schema),
            schema[i].name@,
        ),
{
    let names = search::join_text(persist::column_names(schema), ", "@);
    let from = " FROM "@ + table;
    let select = persist::select_all_text(table, schema);
    parts::lemma_assoc("SELECT "@ + names, " FROM "@, table);
    assert(select == "SELECT "@ + names + from);
    assert(select.subrange(select.len() - from.len(), select.len() as int) =~= from);
    lemma_column_named(schema, i);
    parts::lemma_in_three("SELECT "@, names, from, schema[i].name@);
    let row = persist::select_row_text(table, schema);
    let cond = " WHERE rowid = ?"@;
    parts::lemma_assoc("SELECT "@ + names, from, cond);
    let end = from + cond;
    assert(row == "SELECT "@ + names + end);
    assert(row.subrange(row.len() - end.len(), row.len() as int) =~= end);
    let defs = schema.map_values(|c: Column| persist::column_def(c));
    let all = search::join_text(defs, ", "@);
    let make = "CREATE TABLE IF NOT EXISTS "@ + table + " ("@;
    let create = persist::create_table_text(table, schema);
    parts::lemma_part_of_join(defs, ", "@, i);
    assert(defs[i] == persist::column_def(schema[i]));
    parts::lemma_in_three(make, all, ")"@, defs[i]);
    parts::lemma_assoc(make, all, ")"@);
    lemma_front(make, all + ")"@);
    let w = persist::written(schema);
    let put = "INSERT INTO "@ + table + " ("@;
    let cols = search::join_text(persist::column_names(w), ", "@);
    let marks = search::join_text(w.map_values(|c: Column| "?"@), ", "@);
    parts::lemma_assoc(put, cols, ") VALUES ("@);
    parts::lemma_assoc(put, cols + ") VALUES ("@, marks);
    parts::lemma_assoc(put, cols + ") VALUES ("@ + marks, ")"@);
    lemma_front(put, cols + ") VALUES ("@ + marks + ")"@);
    if !(schema[i].col_type is Id) {
        lemma_written_has(schema, i);
        let k = choose|k: int| 0 <= k < w.len() && w[k] == schema[i];
        lemma_column_named(w, k);
        parts::lemma_in_five(put, cols, ") VALUES ("@, marks, ")"@, schema[i].name@);
    }
}

proof fn lemma_front(a: Seq<char>, b: Seq<char>)
    ensures
        search::has_prefix(a + b, a),
{
    assert((a + b).subrange(0, a.len() as int) =~= a);
}

proof fn lemma_written_has(schema: Seq<Column>, i: int)
    requires
        0 <= i < schema.len(),
        !(schema[i].col_type is Id),
    ensures
        persist::written(schema).contains(schema[i]),
    decreases schema.len(),
{
    let w = persist::written(schema);
    let before = persist::written(schema.drop_last());
    if i == schema.len() - 1 {
        assert(w[w.len() - 1] == schema[i]);
    } else {
        assert(schema.drop_last()[i] == schema[i]);
        lemma_written_has(schema.drop_last(), i);
        let k = choose|k: int| 0 <= k < before.len() && before[k] == schema[i];
        assert(w[k] == schema[i]);
    }
}

/// A column is defined under its name, and by its own kind.
pub proof fn law_columns_are_defined_by_their_kind(c: Column, d: Column)
    ensures
        search::has_prefix(persist::column_def(c), c.name@),
        c.name@ == d.name@ && c.col_type != d.col_type ==> persist::column_def(c)
            != persist::column_def(d),
        c.col_type is Text ==> persist::column_def(c) == c.name@ + " TEXT NOT NULL DEFAULT ''"@,
        c.col_type is Id ==> persist::column_def(c) == c.name@
            + " INTEGER PRIMARY KEY AUTOINCREMENT"@,
{
    reveal_strlit(" INTEGER PRIMARY KEY AUTOINCREMENT");
    reveal_strlit(" TEXT NOT NULL DEFAULT ''");
    reveal_strlit(" TEXT");
    reveal_strlit(" INTEGER NOT NULL DEFAULT 0");
    reveal_strlit(" REAL NOT NULL DEFAULT 0.0");
    assert(" INTEGER PRIMARY KEY AUTOINCREMENT"@.len() == 34);
    assert(" TEXT NOT NULL DEFAULT ''"@.len() == 25);
    assert(" TEXT"@.len() == 5);
    assert(" INTEGER NOT NULL DEFAULT 0"@.len() == 27);
    assert(" REAL NOT NULL DEFAULT 0.0"@.len() == 26);
    let s = persist::column_def(c);
    assert(s.subrange(0, c.name@.len() as int) =~= c.name@);
    assert(s.len() != persist::column_def(d).len() || c.name@.len() != d.name@.len() || c.col_type
        == d.col_type);
}

/// Under a key stands what was put there last; a row under another key changes nothing
/// of it.
pub proof fn law_the_last_row_counts(rows: Seq<(String, String)>, row: (String, String), k: Seq<char>)
    ensures
        persist::entries_of(rows.push(row)).contains_key(row.0@),
        persist::entries_of(rows.push(row))[row.0@] == row.1,
        k != row.0@ ==> persist::entries_of(rows.push(row)).contains_key(k) == persist::entries_of(
            rows,
        ).contains_key(k),
        k != row.0@ && persist::entries_of(rows).contains_key(k) ==> persist::entries_of(
            rows.push(row),
        )[k] == persist::entries_of(rows)[k],
{
    assert(rows.push(row).drop_last() =~= rows);
}

proof fn lemma_id_column(schema: Seq<Column>, i: int)
    requires
        0 <= i,
    ensures
        match persist::id_column_from(schema, i) {
            Some(k) => i <= k < schema.len() && schema[k].col_type is Id,
            None => forall|k: int| i <= k < schema.len() ==> !((#[trigger] schema[k]).col_type is Id),
        },
    decreases schema.len() - i,
{
    if i < schema.len() {
        lemma_id_column(schema, i + 1);
    }
}

/// A row is changed in all its columns but its number, and found by its number.
pub proof fn law_rows_are_changed_by_their_number(
    table: &str,
    schema: Vec<Column>,
    i: int,
    k: int,
    r: Option<String>,
)
    requires
        call_ensures(persist::update_sql, (table, &schema), r),
        0 <= i < schema@.len(),
        0 <= k < schema@.len(),
        schema@[k].col_type is Id,
        forall|j: int| 0 <= j < schema@.len() && j != k ==> !((#[trigger] schema@[j]).col_type is Id),
    ensures
        r is Some,
        search::has_prefix(r->0@, "UPDATE "@ + table@ + " SET "@),
        search::has_suffix(r->0@, " WHERE "@ + schema@[k].name@ + " = ?"@),
        i != k ==> search::has_text(r->0@, schema@[i].name@ + " = ?"@),
{
    lemma_id_column(schema@, 0);
    let id = schema@[k].name@;
    let w = persist::written(schema@);
    let sets = w.map_values(|c: Column| c.name@ + " = ?"@);
    let all = search::join_text(sets, ", "@);
    let front = "UPDATE "@ + table@ + " SET "@;
    let end = " WHERE "@ + id + " = ?"@;
    parts::lemma_assoc(front + all, " WHERE "@, id);
    parts::lemma_assoc(front + all, " WHERE "@ + id, " = ?"@);
    let s = r->0@;
    assert(s == front + all + end);
    assert(s.subrange(s.len() - end.len(), s.len() as int) =~= end);
    parts::lemma_assoc(front, all, end);
    lemma_front(front, all + end);
    if i != k {
        lemma_written_has(schema@, i);
        let j = choose|j: int| 0 <= j < w.len() && w[j] == schema@[i];
        assert(sets[j] == schema@[i].name@ + " = ?"@);
        parts::lemma_part_of_join(sets, ", "@, j);
        parts::lemma_in_three(front, all, end, sets[j]);
    }
}

} // verus!
