//! What engines that are joined keep and pass on.
use vstd::prelude::*;

use crate::api::http_protocol::Header;
use crate::api::laws::is_of_the_connection;
use crate::bindings::http::HUB_WS_PATH;
use crate::hub::contacts;
use crate::hub::contacts::{
    handle_hub_relay, relay_from_slave, relay_message, ContactModel, HubRole, LocalInstance,
    RelayOutcome, RelayResponse, RelayRoute,
};
use crate::hub::host;
use crate::hub::host::{host_step, HostStep, SlaveConnection};
use crate::hub::proxy;
use crate::hub::slave;
use crate::hub::slave::{
    slave_step, HttpProxyRequest, LocalRequest, Reconnect, ReconnectEvent, ReconnectStep,
    SlaveHttpProxyHandler, SlaveStep,
};
use crate::hub::tunnel::{TunnelEvent, TunnelInstanceInfo, TunnelMessage};
use crate::text::case;
use crate::text::laws;
use crate::text::number;
use crate::text::parts;
use crate::text::search;

verus! {

/// A call that comes or goes over the tunnel is passed on word for word, on both sides;
/// a broken connection ends.
pub proof fn law_calls_are_passed_on(payload: String, h: HostStep, s: SlaveStep)
    ensures
        call_ensures(host_step, (TunnelEvent::Message(TunnelMessage::Rpc { payload }),), h)
            ==> h == (HostStep::Deliver { payload }),
        call_ensures(host_step, (TunnelEvent::Outgoing { payload },), h) ==> h == (
        HostStep::Send { payload }),
        call_ensures(slave_step, (TunnelEvent::Message(TunnelMessage::Rpc { payload }),), s)
            ==> s == (SlaveStep::Deliver { payload }),
        call_ensures(slave_step, (TunnelEvent::Outgoing { payload },), s) ==> s == (
        SlaveStep::Send { payload }),
        call_ensures(host_step, (TunnelEvent::Closed,), h) ==> h is End,
        call_ensures(slave_step, (TunnelEvent::Closed,), s) ==> s is End,
        call_ensures(host_step, (TunnelEvent::SendFailed,), h) ==> h is End,
        call_ensures(slave_step, (TunnelEvent::SendFailed,), s) ==> s is End,
        call_ensures(host_step, (TunnelEvent::Noise,), h) ==> h is Wait,
        call_ensures(slave_step, (TunnelEvent::Noise,), s) ==> s is Wait,
{
}

/// An engine that tells its instances anew is taken at its word, and one that leaves is
/// let go.
pub proof fn law_engines_are_taken_at_their_word(
    engine_id: String,
    engine_endpoint: String,
    instances: Vec<TunnelInstanceInfo>,
    h: HostStep,
)
    ensures
        call_ensures(
            host_step,
            (
                TunnelEvent::Message(
                    TunnelMessage::Register { engine_id, engine_endpoint, instances },
                ),
            ),
            h,
        ) ==> h == (HostStep::Update { instances }),
        call_ensures(host_step, (TunnelEvent::Message(TunnelMessage::Leave),), h) ==> h is End,
        call_ensures(host_step, (TunnelEvent::Message(TunnelMessage::Heartbeat),), h)
            ==> h is Heartbeat,
{
}

/// Only engines that are connected count, in their order.
pub proof fn law_only_connected_engines_count(cs: Seq<SlaveConnection>, n: int)
    requires
        0 <= n <= cs.len(),
    ensures
        host::connected_of(cs, n) == cs.take(n).filter(|c: SlaveConnection| c.connected),
    decreases n,
{
    reveal(Seq::filter);
    if n > 0 {
        law_only_connected_engines_count(cs, n - 1);
        assert(cs.take(n).drop_last() =~= cs.take(n - 1));
    }
}

/// Every instance of every group is among all instances.
pub proof fn law_all_instances_are_gathered(
    gs: Seq<(String, Vec<TunnelInstanceInfo>)>,
    n: int,
    i: int,
    k: int,
)
    requires
        0 <= i < n <= gs.len(),
        0 <= k < gs[i].1@.len(),
    ensures
        host::all_instances(gs, n).contains(gs[i].1@[k]),
    decreases n,
{
    let all = host::all_instances(gs, n);
    let before = host::all_instances(gs, n - 1);
    let x = gs[i].1@[k];
    if i == n - 1 {
        assert(all[before.len() + k] == x);
    } else {
        law_all_instances_are_gathered(gs, n - 1, i, k);
        let j = choose|j: int| 0 <= j < before.len() && before[j] == x;
        assert(all[j] == x);
    }
}

/// An engine that comes back under another identifier replaces what stood at its
/// address, and no other.
pub proof fn law_only_stale_engines_are_dropped(
    m: Map<Seq<char>, SlaveConnection>,
    endpoint: Seq<char>,
    id: Seq<char>,
    k: Seq<char>,
)
    requires
        m.contains_key(k),
    ensures
        host::without_stale(m, endpoint, id).contains_key(k) <==> k == id || m[k].engine_endpoint@
            != endpoint,
        host::without_stale(m, endpoint, id).contains_key(k) ==> host::without_stale(
            m,
            endpoint,
            id,
        )[k] == m[k],
{
}

/// An engine is known by the identifier it gives itself, and by the one it came under
/// only where it gives none.
pub proof fn law_engines_name_themselves(registered: Seq<char>, given: Seq<char>)
    ensures
        registered.len() > 0 ==> host::effective_id(registered, given) == registered,
        registered.len() == 0 ==> host::effective_id(registered, given) == given,
{
}

/// The headers of a request go to the other engine in their order and unchanged, but for
/// those of the connection and the cookies.
pub proof fn law_headers_go_to_the_engine(hs: Seq<Header>, n: int)
    requires
        0 <= n <= hs.len(),
    ensures
        proxy::sent_headers(hs, n) == hs.take(n).filter(
            |h: Header| !is_of_the_connection(h.name@) && h.name@.map_values(
                |c: char| case::ascii_lower(c),
            ) != "cookie"@,
        ),
    decreases n,
{
    reveal(Seq::filter);
    if n > 0 {
        law_headers_go_to_the_engine(hs, n - 1);
        assert(hs.take(n).drop_last() =~= hs.take(n - 1));
    }
}

/// The headers of an answer come back in their order and unchanged, but for those of the
/// connection and the cookies that it would set.
pub proof fn law_headers_come_back(hs: Seq<Header>, n: int)
    requires
        0 <= n <= hs.len(),
    ensures
        proxy::returned_headers(hs, n) == hs.take(n).filter(|h: Header|
            {
                let name = case::lowercase_text(h.name@);
                name != "connection"@ && name != "keep-alive"@ && name != "transfer-encoding"@
                    && name != "te"@ && name != "trailer"@ && name != "set-cookie"@
            }),
    decreases n,
{
    reveal(Seq::filter);
    if n > 0 {
        law_headers_come_back(hs, n - 1);
        assert(hs.take(n).drop_last() =~= hs.take(n - 1));
    }
}

/// A message stays here where no other engine is concerned, goes over the tunnel where
/// one is and can be reached, and fails in words where it cannot.
pub proof fn law_messages_find_their_way(
    role: HubRole,
    on_slave: bool,
    has_endpoint: bool,
    r: RelayRoute,
)
    requires
        call_ensures(relay_message, (role, on_slave, has_endpoint), r),
    ensures
        r is Local <==> role is Off || (role is Host && !on_slave),
        r is Tunnel <==> role is Host && on_slave && has_endpoint,
        r is Host <==> role is Joined && has_endpoint,
        r is Fail <==> !has_endpoint && (role is Joined || (role is Host && on_slave)),
{
}

/// What a joined engine passes on stays here where the instance is here, and else goes
/// over the tunnel where there is one.
pub proof fn law_passed_on_messages_find_their_way(
    is_local: bool,
    host_alive: bool,
    has_endpoint: bool,
    to: &str,
    r: RelayRoute,
)
    requires
        call_ensures(relay_from_slave, (is_local, host_alive, has_endpoint, to), r),
    ensures
        r is Local <==> is_local,
        r is Tunnel <==> !is_local && host_alive && has_endpoint,
        r is Fail <==> !is_local && !(host_alive && has_endpoint),
        !is_local && host_alive && !has_endpoint ==> (r matches RelayRoute::Fail(e)
            && search::has_text(e@, to@)),
{
    parts::lemma_part("Instance "@, to@, " not found on any connected engine"@);
}

/// A message counts as passed on exactly where it was delivered here or where the other
/// engine took it; else it is told why not.
pub proof fn law_answers_say_whether_it_arrived(
    o: RelayOutcome,
    target: &str,
    r: RelayResponse,
)
    requires
        call_ensures(handle_hub_relay, (&o, target), r),
    ensures
        match o {
            RelayOutcome::Answered(status) => {
                &&& r.success <==> status < 300
                &&& status >= 300 ==> r.message is Some && search::has_suffix(
                    r.message->0@,
                    number::dec(status as nat),
                )
            },
            RelayOutcome::Delivered => r.success,
            RelayOutcome::NoAnswer => !r.success && r.message is Some,
            RelayOutcome::Unknown => !r.success && r.message is Some && search::has_text(
                r.message->0@,
                target@,
            ),
        },
{
    match o {
        RelayOutcome::Answered(status) => {
            if status >= 300 {
                let s = r.message->0@;
                let d = number::dec(status as nat);
                assert(s.subrange(s.len() - d.len(), s.len() as int) =~= d);
            }
        },
        RelayOutcome::Unknown => {
            parts::lemma_part("Instance "@, target@, " not found"@);
        },
        _ => {},
    }
}

/// A message that is passed on is asked for at the instance that it is meant for.
pub proof fn law_relays_are_addressed(a: Seq<char>, b: Seq<char>)
    ensures
        search::has_text(contacts::relay_path(a), "/"@ + a + "/"@),
        a != b ==> contacts::relay_path(a) != contacts::relay_path(b),
{
    if contacts::relay_path(a) == contacts::relay_path(b) {
        parts::lemma_same_between("/api/instances/"@, a, b, "/messages/relay"@);
    }
    reveal_strlit("/api/instances/");
    reveal_strlit("/messages/relay");
    reveal_strlit("/");
    let s = contacts::relay_path(a);
    let p = "/"@ + a + "/"@;
    assert(s.subrange(14, (14 + p.len()) as int) =~= p);
    assert(search::occurs_at(s, p, 14));
}

/// A contact is shown with its identifier, and with its name where it has one that is not
/// the identifier itself.
pub proof fn law_contacts_are_shown(id: Seq<char>, name: Seq<char>)
    ensures
        contacts::contact_text(ContactModel { id, name: None }) == id,
        contacts::contact_text(ContactModel { id, name: Some(name) }) == name + "("@ + id + ")"@,
        contacts::other_name(id, id) is None,
        name != id ==> contacts::other_name(id, name) == Some(name),
{
}

proof fn lemma_others(xs: Seq<LocalInstance>, n: int, exclude: Seq<char>, i: int)
    requires
        0 <= i < n <= xs.len(),
        xs[i].id@ != exclude,
    ensures
        contacts::others(xs, n, exclude).contains(contacts::local_contact(xs[i])),
    decreases n,
{
    let all = contacts::others(xs, n, exclude);
    let before = contacts::others(xs, n - 1, exclude);
    let c = contacts::local_contact(xs[i]);
    if i == n - 1 {
        assert(all[all.len() - 1] == c);
    } else {
        lemma_others(xs, n - 1, exclude, i);
        let k = choose|k: int| 0 <= k < before.len() && before[k] == c;
        assert(all[k] == c);
    }
}

/// The other instances of an engine are contacts of an instance, each under its own
/// identifier; the instance itself is none.
pub proof fn law_other_instances_are_contacts(
    xs: Seq<LocalInstance>,
    n: int,
    exclude: Seq<char>,
    i: int,
)
    requires
        0 <= n <= xs.len(),
    ensures
        0 <= i < n && xs[i].id@ != exclude ==> exists|k: int|
            0 <= k < contacts::others(xs, n, exclude).len() && (#[trigger] contacts::others(
                xs,
                n,
                exclude,
            )[k]).id == xs[i].id@,
        forall|k: int|
            0 <= k < contacts::others(xs, n, exclude).len() ==> (#[trigger] contacts::others(
                xs,
                n,
                exclude,
            )[k]).id != exclude,
    decreases n,
{
    if 0 <= i < n && xs[i].id@ != exclude {
        lemma_others(xs, n, exclude, i);
        let all = contacts::others(xs, n, exclude);
        let k = choose|k: int| 0 <= k < all.len() && all[k] == contacts::local_contact(xs[i]);
        assert(all[k].id == xs[i].id@);
    }
    if n > 0 {
        law_other_instances_are_contacts(xs, n - 1, exclude, 0);
    }
}

/// An engine that lost its host tries again after two seconds and then after twice as
/// long each time, up to a minute, as long as it is wanted; then it tells its instances
/// and goes on.
pub proof fn law_lost_hosts_are_sought(s: Reconnect, wanted: bool)
    ensures
        slave::reconnect_step(s, ReconnectEvent::Lost, true).1 == (ReconnectStep::Wait { secs: 2 }),
        slave::reconnect_step(s, ReconnectEvent::Lost, true).0.delay_secs == 2,
        slave::reconnect_step(s, ReconnectEvent::Lost, false).1 is GiveUp,
        slave::reconnect_step(s, ReconnectEvent::Waited, true).1 is Connect,
        slave::reconnect_step(s, ReconnectEvent::Waited, false).1 is GiveUp,
        slave::reconnect_step(s, ReconnectEvent::Connected, wanted).1 is Register,
        slave::reconnect_step(s, ReconnectEvent::Registered, wanted).1 is Run,
        s.delay_secs < 30 ==> slave::reconnect_step(s, ReconnectEvent::Failed, true).1 == (
        ReconnectStep::Wait { secs: (2 * s.delay_secs) as u64 }),
        30 <= s.delay_secs ==> slave::reconnect_step(s, ReconnectEvent::Failed, true).1 == (
        ReconnectStep::Wait { secs: 60 }),
        slave::reconnect_step(s, ReconnectEvent::RegisterFailed, wanted) == slave::reconnect_step(
            s,
            ReconnectEvent::Failed,
            wanted,
        ),
        slave::reconnect_step(s, ReconnectEvent::Failed, false).1 is GiveUp,
        slave::reconnect_step(s, ReconnectEvent::Waited, true).0 == s,
{
}

/// An engine is reached at the address it is told, with a scheme in front where it has
/// none, and else at its own port.
pub proof fn law_engines_are_reached(host: Seq<char>, port: nat)
    requires
        host.len() > 0,
    ensures
        search::has_suffix(slave::endpoint_of(Some(host), port), host),
        search::has_prefix(slave::endpoint_of(Some(host), port), "http"@),
        search::has_suffix(slave::endpoint_of(None, port), ":"@ + number::dec(port)),
{
    reveal_strlit("http://");
    reveal_strlit("http");
    reveal_strlit("http://localhost:");
    reveal_strlit(":");
    let a = slave::endpoint_of(Some(host), port);
    assert(a.subrange(a.len() - host.len(), a.len() as int) =~= host);
    if !search::has_prefix(host, "http"@) {
        assert(a.subrange(0, 4) =~= "http"@);
    }
    let b = slave::endpoint_of(None, port);
    let d = ":"@ + number::dec(port);
    assert(b.subrange(b.len() - d.len(), b.len() as int) =~= d);
}

/// What comes over the tunnel is asked of this engine under its own cookie: the same
/// method and path, the same body, and the same headers but for the cookie and the host.
pub proof fn law_tunnelled_requests_are_asked_here(
    h: SlaveHttpProxyHandler,
    q: HttpProxyRequest,
    r: LocalRequest,
)
    requires
        call_ensures(SlaveHttpProxyHandler::local_request, (&h, &q), r),
    ensures
        r.method@ == q.method@,
        search::has_suffix(r.url@, q.path@),
        search::has_text(r.url@, ":"@ + number::dec(h.local_port as nat)),
        r.headers@ == q.headers@.filter(
            |x: Header| case::lowercase_text(x.name@) != "cookie"@ && case::lowercase_text(x.name@)
                != "host"@,
        ),
        q.body is None ==> r.body is None,
{
    law_foreign_headers_are_kept(q.headers@, q.headers@.len() as int);
    assert(q.headers@.take(q.headers@.len() as int) =~= q.headers@);
    let u = r.url@;
    let d = number::dec(h.local_port as nat);
    assert(u.subrange(u.len() - q.path@.len(), u.len() as int) =~= q.path@);
    reveal_strlit("http://localhost:");
    reveal_strlit(":");
    let p = ":"@ + d;
    assert(u.subrange(16, (16 + p.len()) as int) =~= p);
    assert(search::occurs_at(u, p, 16));
}

/// The headers of a request that came over the tunnel are kept in their order, but for the
/// cookie and the host.
pub proof fn law_foreign_headers_are_kept(hs: Seq<Header>, n: int)
    requires
        0 <= n <= hs.len(),
    ensures
        slave::foreign_headers(hs, n) == hs.take(n).filter(
            |x: Header| case::lowercase_text(x.name@) != "cookie"@ && case::lowercase_text(x.name@)
                != "host"@,
        ),
    decreases n,
{
    reveal(Seq::filter);
    if n > 0 {
        law_foreign_headers_are_kept(hs, n - 1);
        assert(hs.take(n).drop_last() =~= hs.take(n - 1));
    }
}

/// The tunnel leads to the host under the scheme for it, with the token that was given
/// out.
pub proof fn law_tunnels_lead_to_the_host(rest: Seq<char>, token: Seq<char>)
    requires
        !search::has_text(rest, "http://"@),
        !search::has_text(rest, "https://"@),
        !search::has_text("ws://"@ + rest, "https://"@),
    ensures
        search::has_prefix(slave::tunnel_url("http://"@ + rest, token), "ws://"@ + rest),
        search::has_suffix(slave::tunnel_url("http://"@ + rest, token), "?token="@ + token),
{
    reveal_strlit("http://");
    let host = "http://"@ + rest;
    assert(host.subrange(0, 7) =~= "http://"@);
    assert(search::occurs_at(host, "http://"@, 0));
    assert(search::find_text(host, "http://"@) == Some(0int));
    laws::law_replacing_goes_from_place_to_place(host, "http://"@, "ws://"@, 0);
    assert(host.skip(7) =~= rest);
    laws::law_replacing_goes_from_place_to_place(rest, "http://"@, "ws://"@, 0);
    assert(host.take(0) + "ws://"@ + rest =~= "ws://"@ + rest);
    let plain = "ws://"@ + rest;
    reveal_strlit("https://");
    laws::law_replacing_goes_from_place_to_place(plain, "https://"@, "wss://"@, 0);
    let url = slave::tunnel_url(host, token);
    let front = plain + HUB_WS_PATH@;
    let end = "?token="@ + token;
    parts::lemma_assoc(front, "?token="@, token);
    assert(url == front + end);
    assert(url.subrange(url.len() - end.len(), url.len() as int) =~= end);
    assert(url.subrange(0, plain.len() as int) =~= plain);
}

/// An open instance is shown with its name, unless that is its identifier; one that is
/// not open has none that is known, and those of other engines have theirs.
pub proof fn law_contacts_have_their_names(x: LocalInstance, y: TunnelInstanceInfo)
    ensures
        contacts::local_contact(x).id == x.id@,
        x.opened && x.name is Some && x.name->0@ != x.id@ ==> contacts::local_contact(x).name
            == Some(x.name->0@),
        !x.opened || x.name is None || x.name->0@ == x.id@ ==> contacts::local_contact(x).name
            is None,
        contacts::remote_contact(y).id == y.id@,
        y.name@ != y.id@ ==> contacts::remote_contact(y).name == Some(y.name@),
{
}

} // verus!
