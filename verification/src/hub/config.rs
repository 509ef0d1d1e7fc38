//! The engines that a hub knows of.
use vstd::prelude::*;

verus! {

/// An engine that the hub knows of.
#[derive(Debug)]
pub struct EngineEntry {
    pub label: String,
    pub endpoint: String,
    pub auth_token: String,
}

impl Clone for EngineEntry {
    fn clone(&self) -> (r: Self)
        ensures
            r == *self,
    {
        EngineEntry {
            label: self.label.clone(),
            endpoint: self.endpoint.clone(),
            auth_token: self.auth_token.clone(),
        }
    }
}

/// The engines that a hub knows of.
#[derive(Debug)]
pub struct HubConfig {
    pub engines: Vec<EngineEntry>,
}

impl HubConfig {
    fn copy(&self) -> (r: Self)
        ensures
            r.engines@ == self.engines@,
    {
        let mut engines: Vec<EngineEntry> = Vec::new();
        let mut i: usize = 0;
        while i < self.engines.len()
            invariant
                i <= self.engines@.len(),
                engines@ == self.engines@.take(i as int),
            decreases self.engines@.len() - i,
        {
            engines.push(self.engines[i].clone());
            i = i + 1;
            assert(self.engines@.take(i as int) =~= self.engines@.take(i - 1).push(
                self.engines@[i - 1],
            ));
        }
        assert(engines@ =~= self.engines@);
        HubConfig { engines }
    }
}

/// The engines that a hub knows of, as its file holds them.
#[derive(Debug)]
pub struct HubConfigStore {
    pub stored: HubConfig,
}

impl HubConfigStore {
    /// The file as it was read; without one there are no engines.
    pub fn open(found: Option<HubConfig>) -> (r: Self)
        ensures
            r.stored.engines@ == (match found {
                Some(c) => c.engines@,
                None => Seq::empty(),
            }),
    {
        match found {
            Some(c) => HubConfigStore { stored: c },
            None => HubConfigStore { stored: HubConfig { engines: Vec::new() } },
        }
    }

    pub fn load(&self) -> (r: HubConfig)
        ensures
            r.engines@ == self.stored.engines@,
    {
        self.stored.copy()
    }

    pub fn save(&mut self, config: &HubConfig)
        ensures
            final(self).stored.engines@ == config.engines@,
    {
        self.stored = config.copy();
    }
}

} // verus!
