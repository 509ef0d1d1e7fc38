//! What an engine is to the others, and how that changes.
use vstd::prelude::*;

use crate::hub::contacts::HubRole;
use crate::hub::host;
use crate::hub::host::HostState;
use crate::hub::slave::SlaveState;
use crate::text::number;
use crate::text::number::push_dec;

verus! {

/// What an engine is to the others.
#[derive(Debug)]
pub enum HubMode {
    /// It stands alone.
    Off,
    /// Others join it.
    Host(HostState),
    /// It joined another.
    Joined(SlaveState),
}

/// What an engine is to the others, as it is shown.
#[derive(Debug)]
pub struct HubStatus {
    pub mode: String,
    pub detail: Option<String>,
}

impl HubMode {
    pub open spec fn role(self) -> HubRole {
        match self {
            HubMode::Off => HubRole::Off,
            HubMode::Host(_) => HubRole::Host,
            HubMode::Joined(_) => HubRole::Joined,
        }
    }
}

/// An engine among others.
#[derive(Debug)]
pub struct HubState {
    pub mode: HubMode,
}

impl HubState {
    pub fn new() -> (r: Self)
        ensures
            r.mode is Off,
    {
        HubState { mode: HubMode::Off }
    }

    pub fn role(&self) -> (r: HubRole)
        ensures
            r == self.mode.role(),
    {
        match &self.mode {
            HubMode::Off => HubRole::Off,
            HubMode::Host(_) => HubRole::Host,
            HubMode::Joined(_) => HubRole::Joined,
        }
    }

    /// Lets others join, if the engine stands alone.
    pub fn enable_host(&mut self, join_token: String) -> (r: Result<(), String>)
        ensures
            match old(self).mode {
                HubMode::Off => {
                    &&& r is Ok
                    &&& final(self).mode matches HubMode::Host(h) && h.wf() && h.join_token@
                        == join_token@ && h.connections@ == Map::<
                        Seq<char>,
                        crate::hub::host::SlaveConnection,
                    >::empty()
                },
                HubMode::Host(_) => {
                    &&& r matches Err(e) && e@ == "Already in host mode"@
                    &&& *final(self) == *old(self)
                },
                HubMode::Joined(_) => {
                    &&& r matches Err(e) && e@ == "Currently joined to a host. Leave first."@
                    &&& *final(self) == *old(self)
                },
            },
    {
        match &self.mode {
            HubMode::Off => {},
            HubMode::Host(_) => {
                return Err("Already in host mode".to_string());
            },
            HubMode::Joined(_) => {
                return Err("Currently joined to a host. Leave first.".to_string());
            },
        }
        self.mode = HubMode::Host(HostState::new(join_token));
        Ok(())
    }

    /// Lets nobody join any more.
    pub fn disable_host(&mut self) -> (r: Result<(), String>)
        ensures
            match old(self).mode {
                HubMode::Host(_) => r is Ok && final(self).mode is Off,
                _ => {
                    &&& r matches Err(e) && e@ == "Not in host mode"@
                    &&& *final(self) == *old(self)
                },
            },
    {
        match &self.mode {
            HubMode::Host(_) => {},
            _ => {
                return Err("Not in host mode".to_string());
            },
        }
        self.mode = HubMode::Off;
        Ok(())
    }

    /// Joins a host, if the engine stands alone.
    pub fn join_host(&mut self, slave: SlaveState) -> (r: Result<(), String>)
        ensures
            match old(self).mode {
                HubMode::Off => r is Ok && final(self).mode == HubMode::Joined(slave),
                HubMode::Host(_) => {
                    &&& r matches Err(e) && e@ == "Currently in host mode. Disable first."@
                    &&& *final(self) == *old(self)
                },
                HubMode::Joined(_) => {
                    &&& r matches Err(e) && e@ == "Already joined to a host. Leave first."@
                    &&& *final(self) == *old(self)
                },
            },
    {
        match &self.mode {
            HubMode::Off => {},
            HubMode::Host(_) => {
                return Err("Currently in host mode. Disable first.".to_string());
            },
            HubMode::Joined(_) => {
                return Err("Already joined to a host. Leave first.".to_string());
            },
        }
        self.mode = HubMode::Joined(slave);
        Ok(())
    }

    /// Leaves the host.
    pub fn leave_host(&mut self) -> (r: Result<(), String>)
        ensures
            match old(self).mode {
                HubMode::Joined(_) => r is Ok && final(self).mode is Off,
                _ => {
                    &&& r matches Err(e) && e@ == "Not joined to any host"@
                    &&& *final(self) == *old(self)
                },
            },
    {
        match &self.mode {
            HubMode::Joined(_) => {},
            _ => {
                return Err("Not joined to any host".to_string());
            },
        }
        self.mode = HubMode::Off;
        Ok(())
    }

    /// What the engine is to the others, as it is shown.
    pub fn status(&self) -> (r: HubStatus)
        ensures
            match self.mode {
                HubMode::Off => r.mode@ == "off"@ && r.detail is None,
                HubMode::Host(h) => r.mode@ == "host"@ && r.detail is Some && r.detail->0@
                    == number::dec(
                    host::connected_of(
                        h.connections.values@,
                        h.connections.values@.len() as int,
                    ).len(),
                ) + " slaves connected"@,
                HubMode::Joined(s) => r.mode@ == "joined"@ && r.detail is Some && r.detail->0@
                    == "connected to "@ + s.host_url@,
            },
    {
        match &self.mode {
            HubMode::Off => HubStatus { mode: "off".to_string(), detail: None },
            HubMode::Host(h) => {
                let mut s = String::new();
                let count: usize = h.slave_count();
                push_dec(&mut s, count as u64);
                s.push_str(" slaves connected");
                assert(s@ =~= number::dec(count as nat) + " slaves connected"@);
                HubStatus { mode: "host".to_string(), detail: Some(s) }
            },
            HubMode::Joined(j) => {
                let mut s = "connected to ".to_string();
                s.push_str(j.host_url.as_str());
                HubStatus { mode: "joined".to_string(), detail: Some(s) }
            },
        }
    }

    /// The host, where the engine is one.
    pub fn as_host(&self) -> (r: Option<&HostState>)
        ensures
            match r {
                Some(h) => self.mode == HubMode::Host(*h),
                None => !(self.mode is Host),
            },
    {
        match &self.mode {
            HubMode::Host(h) => Some(h),
            _ => None,
        }
    }

    /// What is known of the host that the engine joined.
    pub fn as_slave(&self) -> (r: Option<&SlaveState>)
        ensures
            match r {
                Some(s) => self.mode == HubMode::Joined(*s),
                None => !(self.mode is Joined),
            },
    {
        match &self.mode {
            HubMode::Joined(s) => Some(s),
            _ => None,
        }
    }
}

} // verus!
