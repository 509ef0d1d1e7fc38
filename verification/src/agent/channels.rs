//! The models that an instance turns to, one after the other.
use vstd::prelude::*;

use crate::external::llm;
use crate::external::llm::{resolve_model, LlmConfig};
use crate::text::number;
use crate::text::number::push_dec;

verus! {

/// The models of an instance, and the counter that says whose turn it is.
#[derive(Debug)]
pub struct ChannelState {
    pub configs: Vec<LlmConfig>,
    pub index: u64,
}

/// A model that is ready to be asked.
#[derive(Debug)]
pub struct Channel {
    pub api_url: String,
    pub model_id: String,
    pub api_key: String,
    pub max_tokens: u32,
}

pub open spec fn channel_name(idx: nat) -> Seq<char> {
    if idx == 0 {
        "primary"@
    } else {
        "extra"@ + number::dec(idx)
    }
}

/// How a channel is called: `primary` for the first, `extra1`, `extra2` and so on
/// for the others.
pub fn channel_display_name(idx: usize) -> (r: String)
    ensures
        r@ == channel_name(idx as nat),
{
    if idx == 0 {
        "primary".to_string()
    } else {
        let mut s = "extra".to_string();
        push_dec(&mut s, idx as u64);
        s
    }
}

/// The counter after one more turn; after the last number it starts again.
pub open spec fn turned(index: u64) -> u64 {
    if index == u64::MAX {
        0
    } else {
        (index + 1) as u64
    }
}

/// The counter after `n` more turns.
pub open spec fn turned_often(index: u64, n: nat) -> u64
    decreases n,
{
    if n == 0 {
        index
    } else {
        turned(turned_often(index, (n - 1) as nat))
    }
}

impl ChannelState {
    /// Whose turn it is.
    pub open spec fn current(self) -> int {
        self.index as int % self.configs@.len() as int
    }

    /// The settings of the model whose turn it is; none where there is no model.
    pub fn current_config(&self) -> (r: Option<LlmConfig>)
        ensures
            match r {
                Some(c) => {
                    let wanted = self.configs@[self.current()];
                    &&& self.configs@.len() > 0
                    &&& c.model@ == wanted.model@
                    &&& c.api_key@ == wanted.api_key@
                    &&& c.temperature == wanted.temperature
                    &&& c.max_tokens == wanted.max_tokens
                },
                None => self.configs@.len() == 0,
            },
    {
        let n: usize = self.configs.len();
        if n == 0 {
            return None;
        }
        let idx: usize = (self.index % (n as u64)) as usize;
        let c = &self.configs[idx];
        Some(
            LlmConfig {
                model: c.model.clone(),
                api_key: c.api_key.clone(),
                temperature: c.temperature,
                max_tokens: c.max_tokens,
            },
        )
    }

    /// The model whose turn it is, ready to be asked.
    pub fn create_channel(&self, default_max_tokens: u32) -> (r: Channel)
        requires
            self.configs@.len() > 0,
        ensures
            ({
                let c = self.configs@[self.current()];
                &&& (r.api_url@, r.model_id@) == llm::resolved_model(c.model@)
                &&& r.api_key@ == c.api_key@
                &&& r.max_tokens == (match c.max_tokens {
                    Some(n) => n,
                    None => default_max_tokens,
                })
            }),
    {
        let n: usize = self.configs.len();
        let idx: usize = (self.index % (n as u64)) as usize;
        let c = &self.configs[idx];
        let (api_url, model_id) = resolve_model(c.model.as_str());
        Channel {
            api_url,
            model_id,
            api_key: c.api_key.clone(),
            max_tokens: match c.max_tokens {
                Some(n) => n,
                None => default_max_tokens,
            },
        }
    }

    /// Passes the turn on. Says from whom to whom, unless there is only one.
    pub fn advance_channel(&mut self) -> (r: Option<(String, String)>)
        ensures
            final(self).configs == old(self).configs,
            match r {
                Some((from, to)) => {
                    &&& old(self).configs@.len() > 1
                    &&& final(self).index == turned(old(self).index)
                    &&& from@ == channel_name(old(self).current() as nat)
                    &&& to@ == channel_name(final(self).current() as nat)
                },
                None => old(self).configs@.len() <= 1 && final(self).index == old(self).index,
            },
    {
        let n: usize = self.configs.len();
        if n <= 1 {
            return None;
        }
        let old_idx: usize = (self.index % (n as u64)) as usize;
        self.index = if self.index == u64::MAX {
            0
        } else {
            self.index + 1
        };
        let new_idx: usize = (self.index % (n as u64)) as usize;
        Some((channel_display_name(old_idx), channel_display_name(new_idx)))
    }

    /// The names of the channels, the counter, and whose turn it is.
    pub fn channels_status(&self) -> (r: (Vec<String>, u64, usize))
        requires
            self.configs@.len() > 0,
        ensures
            r.0@.len() == self.configs@.len(),
            forall|i: int| 0 <= i < r.0@.len() ==> (#[trigger] r.0@[i])@ == channel_name(i as nat),
            r.1 == self.index,
            r.2 == self.current(),
    {
        let n: usize = self.configs.len();
        let mut names: Vec<String> = Vec::new();
        let mut i: usize = 0;
        while i < n
            invariant
                i <= n,
                names@.len() == i,
                forall|k: int| 0 <= k < i ==> (#[trigger] names@[k])@ == channel_name(k as nat),
            decreases n - i,
        {
            names.push(channel_display_name(i));
            i = i + 1;
        }
        let current: usize = (self.index % (n as u64)) as usize;
        (names, self.index, current)
    }

    /// Gives the turn to a channel; to the first one where there is none of that
    /// number.
    pub fn select_channel(&mut self, idx: usize)
        ensures
            final(self).configs == old(self).configs,
            final(self).index == (if idx >= old(self).configs@.len() {
                0
            } else {
                idx as int
            }),
    {
        self.index = if idx >= self.configs.len() {
            0
        } else {
            idx as u64
        };
    }

    /// Takes over other models; the counter goes on.
    pub fn update_channel_configs(&mut self, configs: Vec<LlmConfig>)
        ensures
            final(self).configs == configs,
            final(self).index == old(self).index,
    {
        self.configs = configs;
    }
}

proof fn lemma_turned_often(index: u64, n: nat)
    requires
        index + n <= u64::MAX,
    ensures
        turned_often(index, n) == index + n,
    decreases n,
{
    if n > 0 {
        lemma_turned_often(index, (n - 1) as nat);
    }
}

/// Of several channels, the turn passes to the next one each time, and comes
/// round to the same one after as many turns as there are channels.
pub proof fn law_turns_go_round(index: u64, channels: nat, n: nat)
    requires
        channels > 0,
        index + n <= u64::MAX,
        index + channels <= u64::MAX,
    ensures
        turned_often(index, n) as int % channels as int == (index + n) % channels as int,
        turned_often(index, channels) as int % channels as int == index as int % channels as int,
{
    lemma_turned_often(index, n);
    lemma_turned_often(index, channels);
    vstd::arithmetic::div_mod::lemma_mod_add_multiples_vanish(index as int, channels as int);
}

} // verus!
