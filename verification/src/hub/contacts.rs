//! Whom an instance can write to, and how its messages get there.
use vstd::prelude::*;

use crate::api::http_protocol::Header;
use crate::codec;
use crate::codec::base64_encode;
use crate::hub::slave::HttpProxyRequest;
use crate::hub::tunnel::TunnelInstanceInfo;
use crate::text::chars::same_text;
use crate::text::number;
use crate::text::number::push_dec;
use crate::text::search;
use crate::text::search::join;

verus! {

/// Someone whom an instance can write to.
#[derive(Debug)]
pub struct ContactInfo {
    pub id: String,
    pub name: Option<String>,
}

/// Someone whom an instance can write to, with the texts as sequences.
pub struct ContactModel {
    pub id: Seq<char>,
    pub name: Option<Seq<char>>,
}

impl View for ContactInfo {
    type V = ContactModel;

    open spec fn view(&self) -> ContactModel {
        ContactModel {
            id: self.id@,
            name: match self.name {
                Some(n) => Some(n@),
                None => None,
            },
        }
    }
}

pub open spec fn contacts(v: Seq<ContactInfo>) -> Seq<ContactModel> {
    v.map_values(|c: ContactInfo| c@)
}

/// An instance of this engine. Its name is not known where it cannot be opened.
#[derive(Debug)]
pub struct LocalInstance {
    pub id: String,
    pub opened: bool,
    pub name: Option<String>,
}

/// The name of an instance, where it is another than its identifier.
pub open spec fn other_name(id: Seq<char>, name: Seq<char>) -> Option<Seq<char>> {
    if name != id {
        Some(name)
    } else {
        None
    }
}

pub open spec fn local_contact(x: LocalInstance) -> ContactModel {
    ContactModel {
        id: x.id@,
        name: if x.opened {
            match x.name {
                Some(n) => other_name(x.id@, n@),
                None => None,
            }
        } else {
            None
        },
    }
}

pub open spec fn remote_contact(x: TunnelInstanceInfo) -> ContactModel {
    ContactModel { id: x.id@, name: other_name(x.id@, x.name@) }
}

fn local_entry(x: &LocalInstance) -> (r: ContactInfo)
    ensures
        r@ == local_contact(*x),
{
    let name = if x.opened {
        match &x.name {
            Some(n) => if same_text(n.as_str(), x.id.as_str()) {
                None
            } else {
                Some(n.clone())
            },
            None => None,
        }
    } else {
        None
    };
    ContactInfo { id: x.id.clone(), name }
}

fn remote_entry(x: &TunnelInstanceInfo) -> (r: ContactInfo)
    ensures
        r@ == remote_contact(*x),
{
    let name = if same_text(x.name.as_str(), x.id.as_str()) {
        None
    } else {
        Some(x.name.clone())
    };
    ContactInfo { id: x.id.clone(), name }
}

/// The instances of this engine among the first `n`, but the one that asks.
pub open spec fn others(xs: Seq<LocalInstance>, n: int, exclude: Seq<char>) -> Seq<ContactModel>
    decreases n,
{
    if n <= 0 || n > xs.len() {
        Seq::empty()
    } else if xs[n - 1].id@ == exclude {
        others(xs, n - 1, exclude)
    } else {
        others(xs, n - 1, exclude).push(local_contact(xs[n - 1]))
    }
}

/// The instances of this engine, but the one that asks.
pub fn local_contacts(instances: &Vec<LocalInstance>, exclude_id: &str) -> (r: Vec<ContactInfo>)
    ensures
        contacts(r@) == others(instances@, instances@.len() as int, exclude_id@),
{
    let mut out: Vec<ContactInfo> = Vec::new();
    let mut i: usize = 0;
    assert(contacts(out@) =~= Seq::<ContactModel>::empty());
    while i < instances.len()
        invariant
            i <= instances@.len(),
            contacts(out@) == others(instances@, i as int, exclude_id@),
        decreases instances@.len() - i,
    {
        if !same_text(instances[i].id.as_str(), exclude_id) {
            let ghost had = out@;
            let c = local_entry(&instances[i]);
            out.push(c);
            assert(contacts(out@) =~= contacts(had).push(c@));
        }
        i = i + 1;
    }
    out
}

/// Some contact has an identifier.
pub open spec fn listed(cs: Seq<ContactModel>, id: Seq<char>) -> bool {
    exists|i: int| 0 <= i < cs.len() && (#[trigger] cs[i]).id == id
}

/// The list with one more contact, unless it is the one that asks or is listed
/// already.
pub open spec fn noted(cs: Seq<ContactModel>, c: ContactModel, exclude: Seq<char>) -> Seq<
    ContactModel,
> {
    if c.id == exclude || listed(cs, c.id) {
        cs
    } else {
        cs.push(c)
    }
}

/// The list with the first `n` of some contacts added, one after the other.
pub open spec fn noted_all(
    cs: Seq<ContactModel>,
    more: Seq<ContactModel>,
    n: int,
    exclude: Seq<char>,
) -> Seq<ContactModel>
    decreases n,
{
    if n <= 0 || n > more.len() {
        cs
    } else {
        noted(noted_all(cs, more, n - 1, exclude), more[n - 1], exclude)
    }
}

fn is_listed(cs: &Vec<ContactInfo>, id: &str) -> (r: bool)
    ensures
        r == listed(contacts(cs@), id@),
{
    let ghost all = contacts(cs@);
    let mut i: usize = 0;
    while i < cs.len()
        invariant
            i <= cs@.len(),
            all == contacts(cs@),
            forall|k: int| 0 <= k < i ==> (#[trigger] all[k]).id != id@,
        decreases cs@.len() - i,
    {
        assert(all[i as int] == cs@[i as int]@);
        if same_text(cs[i].id.as_str(), id) {
            return true;
        }
        i = i + 1;
    }
    false
}

fn note_contact(cs: &mut Vec<ContactInfo>, c: ContactInfo, exclude: &str)
    ensures
        contacts(final(cs)@) == noted(contacts(old(cs)@), c@, exclude@),
{
    if !same_text(c.id.as_str(), exclude) && !is_listed(cs, c.id.as_str()) {
        let ghost cm = c@;
        cs.push(c);
        assert(contacts(cs@) =~= contacts(old(cs)@).push(cm));
    }
}

/// Instances of other engines as contacts.
pub open spec fn remote_contacts(xs: Seq<TunnelInstanceInfo>) -> Seq<ContactModel> {
    xs.map_values(|x: TunnelInstanceInfo| remote_contact(x))
}

pub open spec fn local_contacts_of(xs: Seq<LocalInstance>) -> Seq<ContactModel> {
    xs.map_values(|x: LocalInstance| local_contact(x))
}

/// Whom an instance can write to on a host: the instances of the engines that
/// joined, then those of this engine, each one once.
pub open spec fn host_contacts(
    remote: Seq<TunnelInstanceInfo>,
    local: Seq<LocalInstance>,
    exclude: Seq<char>,
) -> Seq<ContactModel> {
    let far = remote_contacts(remote);
    let near = local_contacts_of(local);
    noted_all(
        noted_all(Seq::empty(), far, far.len() as int, exclude),
        near,
        near.len() as int,
        exclude,
    )
}

/// Whom an instance can write to on a host.
pub fn fetch_contacts(
    remote: &Vec<TunnelInstanceInfo>,
    local: &Vec<LocalInstance>,
    instance_id: &str,
) -> (r: Vec<ContactInfo>)
    ensures
        contacts(r@) == host_contacts(remote@, local@, instance_id@),
{
    let ghost far = remote_contacts(remote@);
    let ghost near = local_contacts_of(local@);
    let mut out: Vec<ContactInfo> = Vec::new();
    let mut i: usize = 0;
    assert(contacts(out@) =~= Seq::<ContactModel>::empty());
    while i < remote.len()
        invariant
            i <= remote@.len(),
            far == remote_contacts(remote@),
            contacts(out@) == noted_all(Seq::empty(), far, i as int, instance_id@),
        decreases remote@.len() - i,
    {
        assert(far[i as int] == remote_contact(remote@[i as int]));
        let c = remote_entry(&remote[i]);
        note_contact(&mut out, c, instance_id);
        i = i + 1;
    }
    let ghost first = contacts(out@);
    let mut j: usize = 0;
    while j < local.len()
        invariant
            j <= local@.len(),
            near == local_contacts_of(local@),
            contacts(out@) == noted_all(first, near, j as int, instance_id@),
        decreases local@.len() - j,
    {
        assert(near[j as int] == local_contact(local@[j as int]));
        let c = local_entry(&local[j]);
        note_contact(&mut out, c, instance_id);
        j = j + 1;
    }
    out
}

/// No two contacts have the same identifier, and none has that of the one that asks.
pub open spec fn proper(cs: Seq<ContactModel>, exclude: Seq<char>) -> bool {
    &&& forall|i: int| 0 <= i < cs.len() ==> (#[trigger] cs[i]).id != exclude
    &&& forall|i: int, j: int|
        0 <= i < j < cs.len() ==> (#[trigger] cs[i]).id != (#[trigger] cs[j]).id
}

proof fn lemma_noted_proper(
    cs: Seq<ContactModel>,
    more: Seq<ContactModel>,
    n: int,
    exclude: Seq<char>,
)
    requires
        proper(cs, exclude),
        0 <= n <= more.len(),
    ensures
        proper(noted_all(cs, more, n, exclude), exclude),
        forall|i: int|
            0 <= i < cs.len() ==> listed(
                noted_all(cs, more, n, exclude),
                (#[trigger] cs[i]).id,
            ),
        forall|i: int|
            0 <= i < n && (#[trigger] more[i]).id != exclude ==> listed(
                noted_all(cs, more, n, exclude),
                more[i].id,
            ),
    decreases n,
{
    if n > 0 {
        lemma_noted_proper(cs, more, n - 1, exclude);
        let before = noted_all(cs, more, n - 1, exclude);
        let after = noted_all(cs, more, n, exclude);
        let c = more[n - 1];
        assert forall|id: Seq<char>| listed(before, id) implies listed(after, id) by {
            let k = choose|k: int| 0 <= k < before.len() && (#[trigger] before[k]).id == id;
            assert(after[k].id == id);
        }
        if !(c.id == exclude || listed(before, c.id)) {
            assert(after[before.len() as int].id == c.id);
            assert forall|i: int, j: int| 0 <= i < j < after.len() implies (#[trigger] after[i]).id
                != (#[trigger] after[j]).id by {
                if j == before.len() {
                    assert(before[i].id != c.id);
                }
            }
        }
    } else {
        assert forall|i: int| 0 <= i < cs.len() implies listed(cs, (#[trigger] cs[i]).id) by {}
    }
}

/// On a host an instance sees each other instance exactly once, and never itself.
pub proof fn law_contacts_are_complete(
    remote: Seq<TunnelInstanceInfo>,
    local: Seq<LocalInstance>,
    exclude: Seq<char>,
)
    ensures
        proper(host_contacts(remote, local, exclude), exclude),
        forall|i: int|
            0 <= i < remote.len() && (#[trigger] remote[i]).id@ != exclude ==> listed(
                host_contacts(remote, local, exclude),
                remote[i].id@,
            ),
        forall|i: int|
            0 <= i < local.len() && (#[trigger] local[i]).id@ != exclude ==> listed(
                host_contacts(remote, local, exclude),
                local[i].id@,
            ),
{
    let far = remote_contacts(remote);
    let near = local_contacts_of(local);
    let first = noted_all(Seq::empty(), far, far.len() as int, exclude);
    lemma_noted_proper(Seq::empty(), far, far.len() as int, exclude);
    lemma_noted_proper(first, near, near.len() as int, exclude);
    let whole = host_contacts(remote, local, exclude);
    assert forall|i: int| 0 <= i < remote.len() && (#[trigger] remote[i]).id@ != exclude implies listed(
        whole,
        remote[i].id@,
    ) by {
        assert(far[i].id == remote[i].id@);
        assert(listed(first, far[i].id));
        let k = choose|k: int| 0 <= k < first.len() && (#[trigger] first[k]).id == far[i].id;
        assert(listed(whole, first[k].id));
    }
    assert forall|i: int| 0 <= i < local.len() && (#[trigger] local[i]).id@ != exclude implies listed(
        whole,
        local[i].id@,
    ) by {
        assert(near[i].id == local[i].id@);
    }
}

/// How a message gets to an instance.
#[derive(Debug)]
pub enum RelayRoute {
    /// It is put into the chat of an instance of this engine.
    Local,
    /// It goes to an engine that joined this one.
    Tunnel,
    /// It goes to the host.
    Host,
    /// It does not get there.
    Fail(String),
}

/// How a contact is shown: by its name with the identifier in brackets, or by the
/// identifier alone.
pub open spec fn contact_text(c: ContactModel) -> Seq<char> {
    match c.name {
        Some(n) => n + "("@ + c.id + ")"@,
        None => c.id,
    }
}

/// The contacts as they are shown, one below the other.
pub fn format_contacts_list(cs: &Vec<ContactInfo>) -> (r: String)
    ensures
        r@ == search::join_text(
            contacts(cs@).map_values(|c: ContactModel| contact_text(c)),
            "\n"@,
        ),
{
    let ghost wanted = contacts(cs@).map_values(|c: ContactModel| contact_text(c));
    let mut out: Vec<String> = Vec::new();
    let mut i: usize = 0;
    assert(search::views(out@) =~= wanted.take(0));
    while i < cs.len()
        invariant
            i <= cs@.len(),
            wanted == contacts(cs@).map_values(|c: ContactModel| contact_text(c)),
            search::views(out@) == wanted.take(i as int),
        decreases cs@.len() - i,
    {
        let one = match &cs[i].name {
            Some(n) => {
                let mut s = n.clone();
                s.push_str("(");
                s.push_str(cs[i].id.as_str());
                s.push_str(")");
                s
            },
            None => cs[i].id.clone(),
        };
        proof {
            assert(wanted[i as int] == contact_text(cs@[i as int]@));
            search::lemma_views_push(out@, one);
            assert(wanted.take(i + 1) =~= wanted.take(i as int).push(one@));
        }
        out.push(one);
        i = i + 1;
    }
    assert(wanted.take(i as int) =~= wanted);
    join(&out, "\n")
}

/// What an engine is to the others.
#[derive(Debug, Clone, Copy, PartialEq, Eq, Structural)]
pub enum HubRole {
    Off,
    Host,
    Joined,
}

/// Decides how a message gets to an instance: a host sends it to the engine that
/// has the instance, where one has; an engine that joined sends all to its host.
pub fn relay_message(role: HubRole, on_slave: bool, has_endpoint: bool) -> (r: RelayRoute)
    ensures
        match role {
            HubRole::Off => r is Local,
            HubRole::Host => if !on_slave {
                r is Local
            } else if has_endpoint {
                r is Tunnel
            } else {
                r matches RelayRoute::Fail(e) && e@ == "Slave tunnel endpoint not available"@
            },
            HubRole::Joined => if has_endpoint {
                r is Host
            } else {
                r matches RelayRoute::Fail(e) && e@ == "Not connected to host"@
            },
        },
{
    match role {
        HubRole::Off => RelayRoute::Local,
        HubRole::Host => if !on_slave {
            RelayRoute::Local
        } else if has_endpoint {
            RelayRoute::Tunnel
        } else {
            RelayRoute::Fail("Slave tunnel endpoint not available".to_string())
        },
        HubRole::Joined => if has_endpoint {
            RelayRoute::Host
        } else {
            RelayRoute::Fail("Not connected to host".to_string())
        },
    }
}

/// Decides how a host passes on a message that an engine sent it.
pub fn relay_from_slave(is_local: bool, host_alive: bool, has_endpoint: bool, to: &str) -> (r: RelayRoute)
    ensures
        if is_local {
            r is Local
        } else if !host_alive {
            r matches RelayRoute::Fail(e) && e@ == "Host state no longer available"@
        } else if has_endpoint {
            r is Tunnel
        } else {
            r matches RelayRoute::Fail(e) && e@ == "Instance "@ + to@
                + " not found on any connected engine"@
        },
{
    if is_local {
        RelayRoute::Local
    } else if !host_alive {
        RelayRoute::Fail("Host state no longer available".to_string())
    } else if has_endpoint {
        RelayRoute::Tunnel
    } else {
        let mut e = "Instance ".to_string();
        e.push_str(to);
        e.push_str(" not found on any connected engine");
        RelayRoute::Fail(e)
    }
}

/// Why a message could not be put into the chat of an instance of this engine.
#[derive(Debug)]
pub enum LocalRelayError {
    NotFound(String),
    WriteFailed(String),
}

/// What is said where a message could not be put into a chat.
pub fn local_relay_error(to: &str, e: &LocalRelayError) -> (r: String)
    ensures
        r@ == (match e {
            LocalRelayError::NotFound(why) => "Instance "@ + to@ + " not found: "@ + why@,
            LocalRelayError::WriteFailed(why) => "Failed to write relay message: "@ + why@,
        }),
{
    match e {
        LocalRelayError::NotFound(why) => {
            let mut s = "Instance ".to_string();
            s.push_str(to);
            s.push_str(" not found: ");
            s.push_str(why.as_str());
            s
        },
        LocalRelayError::WriteFailed(why) => {
            let mut s = "Failed to write relay message: ".to_string();
            s.push_str(why.as_str());
            s
        },
    }
}

/// How a message that was to be passed on ended.
#[derive(Debug)]
pub struct RelayResponse {
    pub success: bool,
    pub message: Option<String>,
}

/// How a message that is to be passed on travels.
#[derive(Debug)]
pub enum HubRelay {
    /// In this request, to the engine that has the instance.
    Tunnel { engine_id: String, request: HttpProxyRequest },
    /// Into the chat of an instance of this engine.
    Local,
}

/// The path under which an engine takes a message for one of its instances.
pub open spec fn relay_path(target: Seq<char>) -> Seq<char> {
    "/api/instances/"@ + target + "/messages/relay"@
}

/// A request that carries a message, written out in JSON, to an instance.
pub open spec fn is_relay_request(q: HttpProxyRequest, target: Seq<char>, json: Seq<u8>) -> bool {
    &&& q.method@ == "POST"@
    &&& q.path@ == relay_path(target)
    &&& q.headers@.len() == 1
    &&& q.headers@[0].name@ == "Content-Type"@
    &&& q.headers@[0].value@ == "application/json"@
    &&& q.body is Some
    &&& q.body->0@ == codec::base64_text(json)
    &&& codec::base64_bytes(q.body->0@) == Some(json)
}

fn relay_request(target: &str, json: &Vec<u8>) -> (r: HttpProxyRequest)
    requires
        codec::fits_base64(json@),
    ensures
        is_relay_request(r, target@, json@),
{
    let mut path = "/api/instances/".to_string();
    path.push_str(target);
    path.push_str("/messages/relay");
    let mut headers: Vec<Header> = Vec::new();
    headers.push(
        Header { name: "Content-Type".to_string(), value: "application/json".to_string() },
    );
    HttpProxyRequest {
        method: "POST".to_string(),
        path,
        headers,
        body: Some(base64_encode(json.as_slice())),
    }
}

/// Decides how a message travels, by the engine that has its recipient. The message
/// comes written out in JSON.
pub fn route_relay(engine: Option<String>, target: &str, json: &Vec<u8>) -> (r: HubRelay)
    requires
        codec::fits_base64(json@),
    ensures
        match engine {
            Some(id) => r matches HubRelay::Tunnel { engine_id, request } && engine_id@ == id@
                && is_relay_request(request, target@, json@),
            None => r is Local,
        },
{
    match engine {
        Some(engine_id) => HubRelay::Tunnel { engine_id, request: relay_request(target, json) },
        None => HubRelay::Local,
    }
}

/// What came of passing a message on.
#[derive(Debug)]
pub enum RelayOutcome {
    /// The engine that has the instance answered with this status.
    Answered(u16),
    /// That engine did not answer.
    NoAnswer,
    /// It was put into the chat of an instance of this engine.
    Delivered,
    /// There is no such instance.
    Unknown,
}

/// What is said of a message that was to be passed on.
pub open spec fn relay_error(o: RelayOutcome, target: Seq<char>) -> Option<Seq<char>> {
    match o {
        RelayOutcome::Answered(status) => if status < 300 {
            None
        } else {
            Some("Target engine returned "@ + number::dec(status as nat))
        },
        RelayOutcome::NoAnswer => Some("Tunnel request failed"@),
        RelayOutcome::Delivered => None,
        RelayOutcome::Unknown => Some("Instance "@ + target + " not found"@),
    }
}

/// The answer to a request to pass a message on.
pub fn handle_hub_relay(o: &RelayOutcome, target: &str) -> (r: RelayResponse)
    ensures
        r.success == (relay_error(*o, target@) is None),
        (match r.message {
            Some(m) => Some(m@),
            None => None,
        }) == relay_error(*o, target@),
{
    let message = match o {
        RelayOutcome::Answered(status) => if *status < 300 {
            None
        } else {
            let mut s = "Target engine returned ".to_string();
            push_dec(&mut s, *status as u64);
            Some(s)
        },
        RelayOutcome::NoAnswer => Some("Tunnel request failed".to_string()),
        RelayOutcome::Delivered => None,
        RelayOutcome::Unknown => {
            let mut s = "Instance ".to_string();
            s.push_str(target);
            s.push_str(" not found");
            Some(s)
        },
    };
    RelayResponse { success: message.is_none(), message }
}

/// Answers for the instances of an engine that joined a host.
#[derive(Debug)]
pub struct SlaveLocalHandler {
    pub instances: Vec<LocalInstance>,
}

impl SlaveLocalHandler {
    pub fn new(instances: Vec<LocalInstance>) -> (r: Self)
        ensures
            r.instances@ == instances@,
    {
        SlaveLocalHandler { instances }
    }

    /// The instances of this engine, but the one that asks.
    pub fn local_contacts(&self, exclude_id: &str) -> (r: Vec<ContactInfo>)
        ensures
            contacts(r@) == others(self.instances@, self.instances@.len() as int, exclude_id@),
    {
        local_contacts(&self.instances, exclude_id)
    }
}

} // verus!
