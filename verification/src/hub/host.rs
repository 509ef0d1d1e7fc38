//! The engines that joined this one.
use vstd::prelude::*;

use crate::codec;
use crate::hub::contacts;
use crate::hub::contacts::{route_relay, HubRelay};
use crate::hub::tunnel::{copy_instances, TunnelEvent, TunnelInstanceInfo, TunnelMessage};
use crate::registry;
use crate::registry::Registry;
use crate::text::chars::same_text;
use crate::text::search;

verus! {

/// An engine that joined.
#[derive(Debug)]
pub struct SlaveConnection {
    pub engine_id: String,
    pub engine_endpoint: String,
    pub instances: Vec<TunnelInstanceInfo>,
    /// Whether the connection still stands.
    pub connected: bool,
}

/// The engines that joined this one, each under its identifier.
#[derive(Debug)]
pub struct HostState {
    pub join_token: String,
    pub connections: Registry<SlaveConnection>,
}

/// An engine has an instance of a name.
pub open spec fn hosts(c: SlaveConnection, id: Seq<char>) -> bool {
    exists|i: int| 0 <= i < c.instances@.len() && (#[trigger] c.instances@[i]).id@ == id
}

/// The first engine from the `i`th on that is connected and has an instance.
pub open spec fn engine_from(cs: Seq<SlaveConnection>, id: Seq<char>, i: int) -> Option<int>
    decreases cs.len() - i,
{
    if i < 0 || i >= cs.len() {
        None
    } else if cs[i].connected && hosts(cs[i], id) {
        Some(i)
    } else {
        engine_from(cs, id, i + 1)
    }
}

/// An instance is found wherever a connected engine has it, and only there.
pub proof fn law_instances_are_found(cs: Seq<SlaveConnection>, id: Seq<char>)
    ensures
        match engine_from(cs, id, 0) {
            Some(i) => 0 <= i < cs.len() && cs[i].connected && hosts(cs[i], id),
            None => forall|i: int|
                0 <= i < cs.len() && cs[i].connected ==> !hosts(#[trigger] cs[i], id),
        },
{
    lemma_engine_from(cs, id, 0);
}

proof fn lemma_engine_from(cs: Seq<SlaveConnection>, id: Seq<char>, from: int)
    requires
        0 <= from,
    ensures
        match engine_from(cs, id, from) {
            Some(i) => from <= i < cs.len() && cs[i].connected && hosts(cs[i], id),
            None => forall|i: int|
                from <= i < cs.len() && cs[i].connected ==> !hosts(#[trigger] cs[i], id),
        },
    decreases cs.len() - from,
{
    if from < cs.len() && !(cs[from].connected && hosts(cs[from], id)) {
        lemma_engine_from(cs, id, from + 1);
    }
}

/// An engine that is in the way of another: it is reached at the same address, under
/// another identifier.
pub open spec fn is_stale(c: SlaveConnection, key: Seq<char>, endpoint: Seq<char>, id: Seq<char>) -> bool {
    c.engine_endpoint@ == endpoint && key != id
}

fn has_instance(c: &SlaveConnection, id: &str) -> (r: bool)
    ensures
        r == hosts(*c, id@),
{
    let mut i: usize = 0;
    while i < c.instances.len()
        invariant
            i <= c.instances@.len(),
            forall|k: int| 0 <= k < i ==> (#[trigger] c.instances@[k]).id@ != id@,
        decreases c.instances@.len() - i,
    {
        if same_text(c.instances[i].id.as_str(), id) {
            return true;
        }
        i = i + 1;
    }
    false
}

/// The engines that are left after those in the way of a new one were dropped.
pub open spec fn without_stale(
    m: Map<Seq<char>, SlaveConnection>,
    endpoint: Seq<char>,
    id: Seq<char>,
) -> Map<Seq<char>, SlaveConnection> {
    m.restrict(
        Set::new(|k: Seq<char>| m.contains_key(k) && !is_stale(m[k], k, endpoint, id)),
    )
}

/// The identifier that an engine goes by: the one it gave itself, or else the one
/// that it came with.
pub open spec fn effective_id(registered: Seq<char>, given: Seq<char>) -> Seq<char> {
    if registered.len() == 0 {
        given
    } else {
        registered
    }
}

impl HostState {
    /// Each engine stands under its own identifier.
    pub open spec fn wf(self) -> bool {
        &&& self.connections.wf()
        &&& forall|i: int|
            0 <= i < self.connections.keys@.len() ==> (#[trigger] self.connections.values@[i]).engine_id@
                == self.connections.keys@[i]@
    }

    pub fn new(join_token: String) -> (r: Self)
        ensures
            r.wf(),
            r.join_token@ == join_token@,
            r.connections@ == Map::<Seq<char>, SlaveConnection>::empty(),
    {
        HostState { join_token, connections: Registry::new() }
    }

    /// Drops the engines that are in the way of a new one; returns their identifiers.
    fn drop_stale(&mut self, endpoint: &str, id: &str) -> (r: Vec<String>)
        requires
            old(self).wf(),
        ensures
            final(self).wf(),
            final(self).join_token == old(self).join_token,
            final(self).connections@ == without_stale(old(self).connections@, endpoint@, id@),
            forall|k: Seq<char>|
                search::views(r@).contains(k) <==> old(self).connections@.contains_key(k)
                    && is_stale(old(self).connections@[k], k, endpoint@, id@),
    {
        let ghost start = self.connections@;
        let mut dropped: Vec<String> = Vec::new();
        let mut i: usize = 0;
        assert(search::views(dropped@) =~= Seq::<Seq<char>>::empty());
        while i < self.connections.keys.len()
            invariant
                i <= self.connections.keys@.len(),
                self.wf(),
                self.join_token == old(self).join_token,
                start == old(self).connections@,
                forall|k: Seq<char>| #[trigger]
                    self.connections@.contains_key(k) ==> start.contains_key(k)
                        && self.connections@[k] == start[k],
                forall|k: Seq<char>| #[trigger]
                    start.contains_key(k) ==> self.connections@.contains_key(k) || is_stale(
                        start[k],
                        k,
                        endpoint@,
                        id@,
                    ),
                forall|j: int|
                    0 <= j < i ==> !is_stale(
                        #[trigger] self.connections.values@[j],
                        self.connections.keys@[j]@,
                        endpoint@,
                        id@,
                    ),
                forall|k: Seq<char>|
                    search::views(dropped@).contains(k) <==> #[trigger] start.contains_key(k)
                        && !self.connections@.contains_key(k),
            decreases self.connections.keys@.len() - i,
        {
            let ghost keys = search::views(self.connections.keys@);
            let ghost here = self.connections.keys@[i as int]@;
            proof {
                assert(keys[i as int] == here);
                registry::lemma_position_of(keys, i as int);
                assert(self.connections@.contains_key(here));
                assert(self.connections@[here] == self.connections.values@[i as int]);
            }
            let stale = same_text(
                self.connections.values[i].engine_endpoint.as_str(),
                endpoint,
            ) && !same_text(self.connections.keys[i].as_str(), id);
            if stale {
                let key = self.connections.keys[i].clone();
                let ghost before = *self;
                let ghost gone = dropped@;
                self.connections.remove(key.as_str());
                proof {
                    search::lemma_views_push(dropped@, key);
                    self.lemma_removed(before, i as int);
                    assert forall|k: Seq<char>|
                        search::views(gone).push(here).contains(k) <==> #[trigger] start.contains_key(k)
                            && !self.connections@.contains_key(k) by {
                        let g = search::views(gone);
                        let p = g.push(here);
                        if g.contains(k) {
                            let a = choose|a: int| 0 <= a < g.len() && g[a] == k;
                            assert(p[a] == k);
                        }
                        if k == here {
                            assert(p[g.len() as int] == k);
                        }
                        if p.contains(k) && k != here {
                            let a = choose|a: int| 0 <= a < p.len() && p[a] == k;
                            assert(g[a] == k);
                        }
                    }
                }
                dropped.push(key);
            } else {
                i = i + 1;
            }
        }
        proof {
            assert forall|k: Seq<char>| #[trigger] self.connections@.contains_key(k) implies !is_stale(
                start[k],
                k,
                endpoint@,
                id@,
            ) by {
                let keys = search::views(self.connections.keys@);
                registry::lemma_position_from(keys, k, 0);
                let j = registry::position(keys, k)->0;
                assert(!is_stale(
                    self.connections.values@[j],
                    self.connections.keys@[j]@,
                    endpoint@,
                    id@,
                ));
            }
            assert(self.connections@ =~= without_stale(start, endpoint@, id@));
        }
        dropped
    }

    proof fn lemma_removed(self, before: HostState, i: int)
        requires
            before.wf(),
            0 <= i < before.connections.keys@.len(),
            self.connections.wf(),
            self.connections@ == before.connections@.remove(before.connections.keys@[i]@),
            search::views(self.connections.keys@) == search::views(before.connections.keys@).remove(i),
        ensures
            self.wf(),
            self.connections.keys@.len() == before.connections.keys@.len() - 1,
            forall|j: int|
                0 <= j < i ==> #[trigger] self.connections.values@[j]
                    == before.connections.values@[j] && self.connections.keys@[j]@
                    == before.connections.keys@[j]@,
    {
        let was = search::views(before.connections.keys@);
        let now = search::views(self.connections.keys@);
        assert(now.len() == self.connections.keys@.len());
        assert(was.len() == before.connections.keys@.len());
        assert(now.len() == was.len() - 1);
        assert forall|j: int| 0 <= j < self.connections.keys@.len() implies ({
            let k = if j < i {
                j
            } else {
                j + 1
            };
            &&& #[trigger] self.connections.values@[j] == before.connections.values@[k]
            &&& self.connections.keys@[j]@ == before.connections.keys@[k]@
        }) by {
            let k = if j < i {
                j
            } else {
                j + 1
            };
            assert(now[j] == self.connections.keys@[j]@);
            assert(was[k] == before.connections.keys@[k]@);
            assert(now[j] == was[k]);
            registry::lemma_position_of(now, j);
            registry::lemma_position_of(was, k);
            assert(self.connections@.contains_key(now[j]));
            assert(self.connections@[now[j]] == self.connections.values@[j]);
            assert(before.connections@[was[k]] == before.connections.values@[k]);
        }
    }

    /// Takes in an engine that joined: it takes the place of the one of its
    /// identifier, and those that are reached at the same address under another
    /// identifier are dropped. Returns the identifier that it goes by, and those of
    /// the dropped ones.
    pub fn register(
        &mut self,
        given_id: &str,
        registered_id: &str,
        engine_endpoint: &str,
        instances: Vec<TunnelInstanceInfo>,
    ) -> (r: (String, Vec<String>))
        requires
            old(self).wf(),
        ensures
            final(self).wf(),
            final(self).join_token == old(self).join_token,
            r.0@ == effective_id(registered_id@, given_id@),
            final(self).connections@.contains_key(r.0@),
            ({
                let c = final(self).connections@[r.0@];
                &&& c.engine_id@ == r.0@
                &&& c.engine_endpoint@ == engine_endpoint@
                &&& c.instances@ == instances@
                &&& c.connected
            }),
            final(self).connections@.remove(r.0@) == without_stale(
                old(self).connections@,
                engine_endpoint@,
                r.0@,
            ).remove(r.0@),
            forall|k: Seq<char>|
                search::views(r.1@).contains(k) <==> old(self).connections@.contains_key(k)
                    && is_stale(old(self).connections@[k], k, engine_endpoint@, r.0@),
    {
        let id = if registered_id.is_empty() {
            given_id.to_string()
        } else {
            registered_id.to_string()
        };
        let dropped = self.drop_stale(engine_endpoint, id.as_str());
        let ghost before = *self;
        let c = SlaveConnection {
            engine_id: id.clone(),
            engine_endpoint: engine_endpoint.to_string(),
            instances,
            connected: true,
        };
        self.connections.insert(id.as_str(), c);
        proof {
            self.lemma_inserted(before, id@);
            assert(self.connections@.remove(id@) =~= before.connections@.remove(id@));
        }
        (id, dropped)
    }

    proof fn lemma_inserted(self, before: HostState, id: Seq<char>)
        requires
            before.wf(),
            self.connections.wf(),
            self.connections@.contains_key(id),
            self.connections@[id].engine_id@ == id,
            self.connections@ == before.connections@.insert(id, self.connections@[id]),
        ensures
            self.wf(),
    {
        let keys = search::views(self.connections.keys@);
        let was = search::views(before.connections.keys@);
        assert forall|i: int| 0 <= i < self.connections.keys@.len() implies (
        #[trigger] self.connections.values@[i]).engine_id@ == self.connections.keys@[i]@ by {
            assert(keys[i] == self.connections.keys@[i]@);
            registry::lemma_position_of(keys, i);
            assert(self.connections@.contains_key(keys[i]));
            assert(self.connections@[keys[i]] == self.connections.values@[i]);
            if keys[i] != id {
                assert(before.connections@.contains_key(keys[i]));
                registry::lemma_position_from(was, keys[i], 0);
                let j = registry::position(was, keys[i])->0;
                assert(was[j] == before.connections.keys@[j]@);
                assert(before.connections.values@[j].engine_id@ == before.connections.keys@[j]@);
            }
        }
    }

    fn replace(&mut self, engine_id: &str, instances: Vec<TunnelInstanceInfo>, connected: bool)
        requires
            old(self).wf(),
            old(self).connections@.contains_key(engine_id@),
        ensures
            final(self).wf(),
            final(self).join_token == old(self).join_token,
            final(self).connections@.contains_key(engine_id@),
            ({
                let was = old(self).connections@[engine_id@];
                let now = final(self).connections@[engine_id@];
                &&& now.engine_id@ == was.engine_id@
                &&& now.engine_endpoint@ == was.engine_endpoint@
                &&& now.instances@ == instances@
                &&& now.connected == connected
            }),
            final(self).connections@.remove(engine_id@) == old(self).connections@.remove(
                engine_id@,
            ),
    {
        let ghost before = *self;
        let (eid, endpoint) = match self.connections.find(engine_id) {
            Some(i) => {
                proof {
                    let keys = search::views(self.connections.keys@);
                    registry::lemma_position_from(keys, engine_id@, 0);
                    assert(keys[i as int] == self.connections.keys@[i as int]@);
                    assert(self.connections.values@[i as int].engine_id@ == engine_id@);
                }
                (
                    self.connections.values[i].engine_id.clone(),
                    self.connections.values[i].engine_endpoint.clone(),
                )
            },
            None => (String::new(), String::new()),
        };
        let c = SlaveConnection { engine_id: eid, engine_endpoint: endpoint, instances, connected };
        self.connections.insert(engine_id, c);
        proof {
            self.lemma_inserted(before, engine_id@);
            assert(self.connections@.remove(engine_id@) =~= before.connections@.remove(engine_id@));
        }
    }

    /// Takes in the instances that an engine now has; says whether there is such an
    /// engine.
    pub fn update_instances(&mut self, engine_id: &str, instances: Vec<TunnelInstanceInfo>) -> (r: bool)
        requires
            old(self).wf(),
        ensures
            final(self).wf(),
            final(self).join_token == old(self).join_token,
            r == old(self).connections@.contains_key(engine_id@),
            r ==> {
                let was = old(self).connections@[engine_id@];
                let now = final(self).connections@[engine_id@];
                &&& final(self).connections@.contains_key(engine_id@)
                &&& now.engine_id@ == was.engine_id@
                &&& now.engine_endpoint@ == was.engine_endpoint@
                &&& now.instances@ == instances@
                &&& now.connected == was.connected
                &&& final(self).connections@.remove(engine_id@) == old(self).connections@.remove(
                    engine_id@,
                )
            },
            !r ==> final(self).connections == old(self).connections,
    {
        let connected = match self.connections.get(engine_id) {
            Some(c) => c.connected,
            None => {
                return false;
            },
        };
        self.replace(engine_id, instances, connected);
        true
    }

    /// Notes that the connection to an engine no longer stands.
    pub fn mark_disconnected(&mut self, engine_id: &str) -> (r: bool)
        requires
            old(self).wf(),
        ensures
            final(self).wf(),
            final(self).join_token == old(self).join_token,
            r == old(self).connections@.contains_key(engine_id@),
            r ==> {
                let was = old(self).connections@[engine_id@];
                let now = final(self).connections@[engine_id@];
                &&& final(self).connections@.contains_key(engine_id@)
                &&& now.engine_id@ == was.engine_id@
                &&& now.engine_endpoint@ == was.engine_endpoint@
                &&& now.instances@ == was.instances@
                &&& !now.connected
                &&& final(self).connections@.remove(engine_id@) == old(self).connections@.remove(
                    engine_id@,
                )
            },
            !r ==> final(self).connections == old(self).connections,
    {
        let instances = match self.connections.get(engine_id) {
            Some(c) => copy_instances(&c.instances),
            None => {
                return false;
            },
        };
        self.replace(engine_id, instances, false);
        true
    }

    /// Forgets an engine.
    pub fn remove(&mut self, engine_id: &str)
        requires
            old(self).wf(),
        ensures
            final(self).wf(),
            final(self).join_token == old(self).join_token,
            final(self).connections@ == old(self).connections@.remove(engine_id@),
    {
        let ghost before = *self;
        let ghost keys = search::views(self.connections.keys@);
        self.connections.remove(engine_id);
        proof {
            registry::lemma_position_from(keys, engine_id@, 0);
            match registry::position(keys, engine_id@) {
                Some(i) => {
                    assert(keys[i] == before.connections.keys@[i]@);
                    self.lemma_removed(before, i);
                },
                None => {},
            }
        }
    }

    /// Which engine has an instance: the first one that is connected.
    pub fn find_instance_engine(&self, instance_id: &str) -> (r: Option<String>)
        ensures
            match r {
                Some(id) => engine_from(self.connections.values@, instance_id@, 0) is Some && id@
                    == self.connections.values@[engine_from(
                    self.connections.values@,
                    instance_id@,
                    0,
                )->0].engine_id@,
                None => engine_from(self.connections.values@, instance_id@, 0) is None,
            },
    {
        let mut i: usize = 0;
        while i < self.connections.values.len()
            invariant
                i <= self.connections.values@.len(),
                engine_from(self.connections.values@, instance_id@, 0) == engine_from(
                    self.connections.values@,
                    instance_id@,
                    i as int,
                ),
            decreases self.connections.values@.len() - i,
        {
            if self.connections.values[i].connected && has_instance(
                &self.connections.values[i],
                instance_id,
            ) {
                return Some(self.connections.values[i].engine_id.clone());
            }
            i = i + 1;
        }
        None
    }

    /// Decides how a message travels to an instance: to the engine that has it, the
    /// first one that is connected, or else into a chat of this engine. The message
    /// comes written out in JSON.
    pub fn relay_route(&self, target: &str, json: &Vec<u8>) -> (r: HubRelay)
        requires
            codec::fits_base64(json@),
        ensures
            match engine_from(self.connections.values@, target@, 0) {
                Some(i) => r matches HubRelay::Tunnel { engine_id, request } && engine_id@
                    == self.connections.values@[i].engine_id@ && contacts::is_relay_request(
                    request,
                    target@,
                    json@,
                ),
                None => r is Local,
            },
    {
        route_relay(self.find_instance_engine(target), target, json)
    }

    /// The instances of all engines that are connected, each list under the
    /// identifier of its engine.
    pub fn get_all_remote_instances(&self) -> (r: Vec<(String, Vec<TunnelInstanceInfo>)>)
        requires
            self.wf(),
        ensures
            are_groups(
                r@,
                connected_of(self.connections.values@, self.connections.values@.len() as int),
                true,
            ),
    {
        self.groups(true)
    }

    /// The instances of all engines that are connected, each list under the address
    /// of its engine.
    pub fn get_remote_endpoints(&self) -> (r: Vec<(String, Vec<TunnelInstanceInfo>)>)
        requires
            self.wf(),
        ensures
            are_groups(
                r@,
                connected_of(self.connections.values@, self.connections.values@.len() as int),
                false,
            ),
    {
        self.groups(false)
    }

    fn groups(&self, by_id: bool) -> (r: Vec<(String, Vec<TunnelInstanceInfo>)>)
        ensures
            are_groups(
                r@,
                connected_of(self.connections.values@, self.connections.values@.len() as int),
                by_id,
            ),
    {
        let mut out: Vec<(String, Vec<TunnelInstanceInfo>)> = Vec::new();
        let mut i: usize = 0;
        while i < self.connections.values.len()
            invariant
                i <= self.connections.values@.len(),
                are_groups(out@, connected_of(self.connections.values@, i as int), by_id),
            decreases self.connections.values@.len() - i,
        {
            let c = &self.connections.values[i];
            if c.connected {
                let name = if by_id {
                    c.engine_id.clone()
                } else {
                    c.engine_endpoint.clone()
                };
                out.push((name, copy_instances(&c.instances)));
            }
            i = i + 1;
        }
        out
    }

    /// How many engines are connected.
    pub fn slave_count(&self) -> (r: usize)
        ensures
            r == connected_of(
                self.connections.values@,
                self.connections.values@.len() as int,
            ).len(),
    {
        let mut count: usize = 0;
        let mut i: usize = 0;
        while i < self.connections.values.len()
            invariant
                i <= self.connections.values@.len(),
                count <= i,
                count == connected_of(self.connections.values@, i as int).len(),
            decreases self.connections.values@.len() - i,
        {
            if self.connections.values[i].connected {
                count = count + 1;
            }
            i = i + 1;
        }
        count
    }
}

/// The engines among the first `n` that are connected.
pub open spec fn connected_of(cs: Seq<SlaveConnection>, n: int) -> Seq<SlaveConnection>
    decreases n,
{
    if n <= 0 || n > cs.len() {
        Seq::empty()
    } else if cs[n - 1].connected {
        connected_of(cs, n - 1).push(cs[n - 1])
    } else {
        connected_of(cs, n - 1)
    }
}

/// The instances of engines, under their identifiers or their addresses.
pub open spec fn are_groups(
    gs: Seq<(String, Vec<TunnelInstanceInfo>)>,
    cs: Seq<SlaveConnection>,
    by_id: bool,
) -> bool {
    gs.len() == cs.len() && forall|i: int|
        0 <= i < gs.len() ==> {
            let g = #[trigger] gs[i];
            &&& g.0@ == (if by_id {
                cs[i].engine_id@
            } else {
                cs[i].engine_endpoint@
            })
            &&& g.1@ == cs[i].instances@
        }
}

/// All instances of the groups, one group after the other.
pub open spec fn all_instances(gs: Seq<(String, Vec<TunnelInstanceInfo>)>, n: int) -> Seq<
    TunnelInstanceInfo,
>
    decreases n,
{
    if n <= 0 || n > gs.len() {
        Seq::empty()
    } else {
        all_instances(gs, n - 1) + gs[n - 1].1@
    }
}

/// All instances of the groups, one group after the other.
pub fn flatten_groups(gs: &Vec<(String, Vec<TunnelInstanceInfo>)>) -> (r: Vec<TunnelInstanceInfo>)
    ensures
        r@ == all_instances(gs@, gs@.len() as int),
{
    let mut out: Vec<TunnelInstanceInfo> = Vec::new();
    let mut i: usize = 0;
    while i < gs.len()
        invariant
            i <= gs@.len(),
            out@ == all_instances(gs@, i as int),
        decreases gs@.len() - i,
    {
        let mut more = copy_instances(&gs[i].1);
        out.append(&mut more);
        i = i + 1;
    }
    out
}

/// What a host does on a connection.
#[derive(Debug)]
pub enum HostStep {
    /// It waits for more.
    Wait,
    /// It answers that the connection still stands.
    Heartbeat,
    /// It takes in the instances that the engine now has.
    Update { instances: Vec<TunnelInstanceInfo> },
    /// It hands a call, or the answer to one, to whom it concerns.
    Deliver { payload: String },
    /// It sends a call, or the answer to one.
    Send { payload: String },
    /// It ends the connection.
    End,
}

/// What a host does after something happened on a connection.
pub open spec fn is_host_step(e: TunnelEvent, s: HostStep) -> bool {
    match e {
        TunnelEvent::Message(TunnelMessage::Heartbeat) => s is Heartbeat,
        TunnelEvent::Message(TunnelMessage::Register { instances, .. }) => s == HostStep::Update {
            instances,
        },
        TunnelEvent::Message(TunnelMessage::Leave) => s is End,
        TunnelEvent::Message(TunnelMessage::Rpc { payload }) => s == HostStep::Deliver { payload },
        TunnelEvent::Noise => s is Wait,
        TunnelEvent::Closed => s is End,
        TunnelEvent::Outgoing { payload } => s == HostStep::Send { payload },
        TunnelEvent::SendFailed => s is End,
    }
}

/// Decides what a host does after something happened on a connection.
pub fn host_step(e: TunnelEvent) -> (r: HostStep)
    ensures
        is_host_step(e, r),
{
    match e {
        TunnelEvent::Message(m) => match m {
            TunnelMessage::Heartbeat => HostStep::Heartbeat,
            TunnelMessage::Register { instances, .. } => HostStep::Update { instances },
            TunnelMessage::Leave => HostStep::End,
            TunnelMessage::Rpc { payload } => HostStep::Deliver { payload },
        },
        TunnelEvent::Noise => HostStep::Wait,
        TunnelEvent::Closed => HostStep::End,
        TunnelEvent::Outgoing { payload } => HostStep::Send { payload },
        TunnelEvent::SendFailed => HostStep::End,
    }
}

/// The engine that opens a connection, where it says so first.
pub fn first_message(e: TunnelEvent) -> (r: Option<(String, String, Vec<TunnelInstanceInfo>)>)
    ensures
        match e {
            TunnelEvent::Message(
                TunnelMessage::Register { engine_id, engine_endpoint, instances },
            ) => r == Some((engine_id, engine_endpoint, instances)),
            _ => r is None,
        },
{
    match e {
        TunnelEvent::Message(m) => match m {
            TunnelMessage::Register { engine_id, engine_endpoint, instances } => Some(
                (engine_id, engine_endpoint, instances),
            ),
            _ => None,
        },
        _ => None,
    }
}

} // verus!
