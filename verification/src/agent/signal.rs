//! What the outside asks of running instances, and what it sees of them.
use vstd::prelude::*;

use std::time::Instant;

use crate::agent::channels::ChannelState;
use crate::external::llm::LlmConfig;
use crate::registry::Registry;

verus! {

/// What is seen of a running instance.
#[derive(Debug)]
pub struct EngineStatus {
    pub inferring: bool,
    pub born: bool,
    pub last_beat: Instant,
    pub log_path: Option<String>,
    pub idle_timeout_secs: Option<u64>,
    pub idle_since: Option<u64>,
}

impl Default for EngineStatus {
    fn default() -> (r: Self)
        ensures
            !r.inferring,
            !r.born,
            r.log_path is None,
            r.idle_timeout_secs is None,
            r.idle_since is None,
    {
        EngineStatus {
            inferring: false,
            born: false,
            last_beat: Instant::now(),
            log_path: None,
            idle_timeout_secs: None,
            idle_since: None,
        }
    }
}

impl Clone for EngineStatus {
    fn clone(&self) -> (r: Self)
        ensures
            r == *self,
    {
        EngineStatus {
            inferring: self.inferring,
            born: self.born,
            last_beat: self.last_beat,
            log_path: match &self.log_path {
                Some(p) => Some(p.clone()),
                None => None,
            },
            idle_timeout_secs: self.idle_timeout_secs,
            idle_since: self.idle_since,
        }
    }
}

/// Who is asked to stop, after an instance was: nobody else where there is no such
/// instance.
pub open spec fn asked(m: Map<Seq<char>, bool>, id: Seq<char>) -> Map<Seq<char>, bool> {
    if m.contains_key(id) {
        m.insert(id, true)
    } else {
        m
    }
}

/// Who is asked to stop, after an instance looked whether it is.
pub open spec fn looked(m: Map<Seq<char>, bool>, id: Seq<char>) -> Map<Seq<char>, bool> {
    if m.contains_key(id) {
        m.insert(id, false)
    } else {
        m
    }
}

/// Whether an instance is asked to stop.
pub open spec fn is_asked(m: Map<Seq<char>, bool>, id: Seq<char>) -> bool {
    m.contains_key(id) && m[id]
}

/// A running instance that is asked to stop sees it once, however often it is asked
/// before it looks; no other instance sees anything of it.
pub proof fn law_interrupts_are_seen_once(m: Map<Seq<char>, bool>, id: Seq<char>, other: Seq<char>)
    requires
        m.contains_key(id),
        other != id,
    ensures
        is_asked(asked(m, id), id),
        asked(asked(m, id), id) == asked(m, id),
        !is_asked(looked(asked(m, id), id), id),
        is_asked(asked(m, id), other) == is_asked(m, other),
        is_asked(looked(m, id), other) == is_asked(m, other),
{
    assert(asked(asked(m, id), id) =~= asked(m, id));
}

/// The signals of the running instances, each under the name of its instance.
#[derive(Debug)]
pub struct SignalHub {
    /// Whether an instance was asked to stop what it does.
    pub interrupts: Registry<bool>,
    pub statuses: Registry<EngineStatus>,
    pub channels: Registry<ChannelState>,
}

impl SignalHub {
    /// Each registered instance has all three signals, and no other has any.
    pub open spec fn wf(self) -> bool {
        &&& self.interrupts.wf()
        &&& self.statuses.wf()
        &&& self.channels.wf()
        &&& self.interrupts@.dom() == self.statuses@.dom()
        &&& self.interrupts@.dom() == self.channels@.dom()
    }

    pub open spec fn has(self, id: Seq<char>) -> bool {
        self.interrupts@.contains_key(id)
    }

    /// Nothing is different for any instance but one.
    pub open spec fn same_but(self, before: SignalHub, id: Seq<char>) -> bool {
        &&& self.interrupts@.remove(id) == before.interrupts@.remove(id)
        &&& self.statuses@.remove(id) == before.statuses@.remove(id)
        &&& self.channels@.remove(id) == before.channels@.remove(id)
    }

    pub fn new() -> (r: Self)
        ensures
            r.wf(),
            forall|id: Seq<char>| !r.has(id),
    {
        SignalHub {
            interrupts: Registry::new(),
            statuses: Registry::new(),
            channels: Registry::new(),
        }
    }

    /// Starts an instance afresh: nothing is asked of it, it is not born, and its
    /// first model has the turn.
    pub fn register(&mut self, instance_id: &str, channel_configs: Vec<LlmConfig>)
        requires
            old(self).wf(),
        ensures
            final(self).wf(),
            final(self).has(instance_id@),
            !final(self).interrupts@[instance_id@],
            !final(self).statuses@[instance_id@].inferring,
            !final(self).statuses@[instance_id@].born,
            final(self).statuses@[instance_id@].log_path is None,
            final(self).statuses@[instance_id@].idle_timeout_secs is None,
            final(self).statuses@[instance_id@].idle_since is None,
            final(self).channels@[instance_id@] == (ChannelState {
                configs: channel_configs,
                index: 0,
            }),
            final(self).same_but(*old(self), instance_id@),
    {
        let ghost id = instance_id@;
        self.interrupts.insert(instance_id, false);
        self.statuses.insert(instance_id, EngineStatus::default());
        self.channels.insert(instance_id, ChannelState { configs: channel_configs, index: 0 });
        proof {
            assert(self.interrupts@.dom() =~= old(self).interrupts@.dom().insert(id));
            assert(self.statuses@.dom() =~= old(self).interrupts@.dom().insert(id));
            assert(self.channels@.dom() =~= old(self).interrupts@.dom().insert(id));
            assert(self.interrupts@.remove(id) =~= old(self).interrupts@.remove(id));
            assert(self.statuses@.remove(id) =~= old(self).statuses@.remove(id));
            assert(self.channels@.remove(id) =~= old(self).channels@.remove(id));
        }
    }

    /// Forgets an instance.
    pub fn unregister(&mut self, instance_id: &str)
        requires
            old(self).wf(),
        ensures
            final(self).wf(),
            !final(self).has(instance_id@),
            final(self).same_but(*old(self), instance_id@),
    {
        let ghost id = instance_id@;
        self.interrupts.remove(instance_id);
        self.statuses.remove(instance_id);
        self.channels.remove(instance_id);
        proof {
            assert(self.interrupts@.dom() =~= old(self).interrupts@.dom().remove(id));
            assert(self.statuses@.dom() =~= old(self).interrupts@.dom().remove(id));
            assert(self.channels@.dom() =~= old(self).interrupts@.dom().remove(id));
            assert(self.interrupts@.remove(id) =~= old(self).interrupts@.remove(id));
            assert(self.statuses@.remove(id) =~= old(self).statuses@.remove(id));
            assert(self.channels@.remove(id) =~= old(self).channels@.remove(id));
        }
    }

    /// Asks an instance to stop what it does; says whether there is one.
    pub fn set_interrupt(&mut self, instance_id: &str) -> (r: bool)
        requires
            old(self).wf(),
        ensures
            final(self).wf(),
            r == old(self).has(instance_id@),
            final(self).interrupts@ == asked(old(self).interrupts@, instance_id@),
            final(self).statuses == old(self).statuses,
            final(self).channels == old(self).channels,
    {
        if self.interrupts.contains_key(instance_id) {
            self.interrupts.insert(instance_id, true);
            assert(self.interrupts@.dom() =~= old(self).interrupts@.dom());
            true
        } else {
            false
        }
    }

    /// Whether an instance was asked to stop since it last looked.
    pub fn check_interrupt(&mut self, instance_id: &str) -> (r: bool)
        requires
            old(self).wf(),
        ensures
            final(self).wf(),
            r == is_asked(old(self).interrupts@, instance_id@),
            final(self).interrupts@ == looked(old(self).interrupts@, instance_id@),
            final(self).statuses == old(self).statuses,
            final(self).channels == old(self).channels,
    {
        let asked = match self.interrupts.get(instance_id) {
            Some(b) => Some(*b),
            None => None,
        };
        match asked {
            Some(b) => {
                self.interrupts.insert(instance_id, false);
                assert(self.interrupts@.dom() =~= old(self).interrupts@.dom());
                b
            },
            None => false,
        }
    }

    /// The models of an instance.
    pub fn get_channel_state(&self, instance_id: &str) -> (r: Option<&ChannelState>)
        requires
            self.wf(),
        ensures
            match r {
                Some(c) => self.has(instance_id@) && *c == self.channels@[instance_id@],
                None => !self.has(instance_id@),
            },
    {
        assert(self.interrupts@.dom().contains(instance_id@) == self.channels@.dom().contains(
            instance_id@,
        ));
        self.channels.get(instance_id)
    }

    /// Puts back the models of an instance.
    pub fn set_channel_state(&mut self, instance_id: &str, channels: ChannelState) -> (r: bool)
        requires
            old(self).wf(),
        ensures
            final(self).wf(),
            r == old(self).has(instance_id@),
            final(self).channels@ == (if r {
                old(self).channels@.insert(instance_id@, channels)
            } else {
                old(self).channels@
            }),
            final(self).interrupts == old(self).interrupts,
            final(self).statuses == old(self).statuses,
    {
        assert(self.interrupts@.dom().contains(instance_id@) == self.channels@.dom().contains(
            instance_id@,
        ));
        if self.channels.contains_key(instance_id) {
            self.channels.insert(instance_id, channels);
            assert(self.channels@.dom() =~= old(self).channels@.dom());
            true
        } else {
            false
        }
    }

    /// What is seen of an instance.
    pub fn get_status(&self, instance_id: &str) -> (r: Option<EngineStatus>)
        requires
            self.wf(),
        ensures
            match r {
                Some(s) => self.has(instance_id@) && s == self.statuses@[instance_id@],
                None => !self.has(instance_id@),
            },
    {
        assert(self.interrupts@.dom().contains(instance_id@) == self.statuses@.dom().contains(
            instance_id@,
        ));
        match self.statuses.get(instance_id) {
            Some(s) => Some(s.clone()),
            None => None,
        }
    }

    /// Changes what is seen of an instance; says whether there is one.
    pub fn update_status(&mut self, instance_id: &str, status: EngineStatus) -> (r: bool)
        requires
            old(self).wf(),
        ensures
            final(self).wf(),
            r == old(self).has(instance_id@),
            final(self).statuses@ == (if r {
                old(self).statuses@.insert(instance_id@, status)
            } else {
                old(self).statuses@
            }),
            final(self).interrupts == old(self).interrupts,
            final(self).channels == old(self).channels,
    {
        assert(self.interrupts@.dom().contains(instance_id@) == self.statuses@.dom().contains(
            instance_id@,
        ));
        if self.statuses.contains_key(instance_id) {
            self.statuses.insert(instance_id, status);
            assert(self.statuses@.dom() =~= old(self).statuses@.dom());
            true
        } else {
            false
        }
    }
}

} // verus!
