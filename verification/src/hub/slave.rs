//! The host that this engine joined.
use vstd::prelude::*;

use crate::api::auth;
use crate::api::auth::compute_session_token;
use crate::api::http_protocol::Header;
use crate::bindings::http::HUB_WS_PATH;
use crate::codec;
use crate::codec::{base64_decode, base64_encode};
use crate::hub::tunnel::{copy_instances, TunnelEvent, TunnelInstanceInfo, TunnelMessage};
use crate::text::case;
use crate::text::case::to_lower;
use crate::text::chars::same_text;
use crate::text::number;
use crate::text::number::push_dec;
use crate::text::search;
use crate::text::search::{replace, starts_with};

verus! {

/// What is known of the host that this engine joined.
#[derive(Debug)]
pub struct SlaveState {
    pub host_url: String,
    pub local_port: u16,
    pub auth_token: String,
    pub join_token: String,
    pub engine_id: String,
    /// Whether to connect again when the connection breaks.
    pub should_reconnect: bool,
    /// The instances that the host is told of.
    pub instances: Vec<TunnelInstanceInfo>,
    /// The address that the host was told.
    pub engine_endpoint: Option<String>,
}

/// The address of the tunnel of a host.
pub open spec fn tunnel_url(host_url: Seq<char>, token: Seq<char>) -> Seq<char> {
    search::replace_all(
        search::replace_all(host_url, "http://"@, "ws://"@),
        "https://"@,
        "wss://"@,
    ) + HUB_WS_PATH@ + "?token="@ + token
}

/// The address that an engine is reached at: the one that is set, with `http://`
/// before it unless it starts with `http`, or else its port on this machine.
pub open spec fn endpoint_of(host: Option<Seq<char>>, port: nat) -> Seq<char> {
    if host is Some && host->0.len() > 0 {
        if search::has_prefix(host->0, "http"@) {
            host->0
        } else {
            "http://"@ + host->0
        }
    } else {
        "http://localhost:"@ + number::dec(port)
    }
}

pub open spec fn opt_view(s: Option<String>) -> Option<Seq<char>> {
    match s {
        Some(t) => Some(t@),
        None => None,
    }
}

/// The address that an engine is reached at.
pub fn engine_endpoint(host: &Option<String>, local_port: u16) -> (r: String)
    ensures
        r@ == endpoint_of(opt_view(*host), local_port as nat),
{
    if let Some(h) = host {
        if !h.as_str().is_empty() {
            if starts_with(h.as_str(), "http") {
                return h.clone();
            }
            let mut s = "http://".to_string();
            s.push_str(h.as_str());
            return s;
        }
    }
    let mut s = "http://localhost:".to_string();
    push_dec(&mut s, local_port as u64);
    s
}

impl SlaveState {
    pub fn new(
        host_url: String,
        local_port: u16,
        auth_token: String,
        join_token: String,
        engine_id: String,
    ) -> (r: Self)
        ensures
            r.host_url@ == host_url@,
            r.local_port == local_port,
            r.auth_token@ == auth_token@,
            r.join_token@ == join_token@,
            r.engine_id@ == engine_id@,
            r.should_reconnect,
            r.instances@.len() == 0,
            r.engine_endpoint is None,
    {
        SlaveState {
            host_url,
            local_port,
            auth_token,
            join_token,
            engine_id,
            should_reconnect: true,
            instances: Vec::new(),
            engine_endpoint: None,
        }
    }

    /// Does not connect again when the connection breaks.
    pub fn stop_reconnect(&mut self)
        ensures
            *final(self) == (SlaveState { should_reconnect: false, ..*old(self) }),
    {
        self.should_reconnect = false;
    }

    /// The address of the tunnel of the host.
    pub fn ws_url(&self) -> (r: String)
        ensures
            r@ == tunnel_url(self.host_url@, self.join_token@),
    {
        proof {
            reveal_strlit("http://");
            reveal_strlit("https://");
        }
        let a = replace(self.host_url.as_str(), "http://", "ws://");
        let mut s = replace(a.as_str(), "https://", "wss://");
        s.push_str(HUB_WS_PATH);
        s.push_str("?token=");
        s.push_str(self.join_token.as_str());
        s
    }

    /// The first message to the host: the address and the instances of this engine.
    pub fn register_message(&mut self, host: &Option<String>) -> (r: TunnelMessage)
        ensures
            *final(self) == (SlaveState {
                engine_endpoint: final(self).engine_endpoint,
                ..*old(self)
            }),
            final(self).engine_endpoint is Some,
            final(self).engine_endpoint->0@ == endpoint_of(
                opt_view(*host),
                old(self).local_port as nat,
            ),
            r matches TunnelMessage::Register { engine_id, engine_endpoint, instances } && engine_id@
                == old(self).engine_id@ && engine_endpoint@ == endpoint_of(
                opt_view(*host),
                old(self).local_port as nat,
            ) && instances@ == old(self).instances@,
    {
        let endpoint = engine_endpoint(host, self.local_port);
        self.engine_endpoint = Some(endpoint.clone());
        TunnelMessage::Register {
            engine_id: self.engine_id.clone(),
            engine_endpoint: endpoint,
            instances: copy_instances(&self.instances),
        }
    }

    /// Tells the host other instances; nothing where this engine has no identifier.
    pub fn instances_update(&self, instances: Vec<TunnelInstanceInfo>) -> (r: Option<TunnelMessage>)
        ensures
            match r {
                Some(m) => {
                    &&& self.engine_id@.len() > 0
                    &&& m matches TunnelMessage::Register {
                        engine_id,
                        engine_endpoint,
                        instances: told,
                    } && engine_id@ == self.engine_id@ && engine_endpoint@ == (
                    match self.engine_endpoint {
                        Some(e) => e@,
                        None => Seq::empty(),
                    }) && told@ == instances@
                },
                None => self.engine_id@.len() == 0,
            },
    {
        if self.engine_id.as_str().is_empty() {
            return None;
        }
        Some(
            TunnelMessage::Register {
                engine_id: self.engine_id.clone(),
                engine_endpoint: match &self.engine_endpoint {
                    Some(e) => e.clone(),
                    None => String::new(),
                },
                instances,
            },
        )
    }
}

/// What an engine does on the connection to its host.
#[derive(Debug)]
pub enum SlaveStep {
    Wait,
    Heartbeat,
    Deliver { payload: String },
    Send { payload: String },
    End,
}

/// What an engine does after something happened on the connection to its host.
pub open spec fn is_slave_step(e: TunnelEvent, s: SlaveStep) -> bool {
    match e {
        TunnelEvent::Message(TunnelMessage::Heartbeat) => s is Heartbeat,
        TunnelEvent::Message(TunnelMessage::Rpc { payload }) => s == SlaveStep::Deliver { payload },
        TunnelEvent::Message(_) => s is Wait,
        TunnelEvent::Noise => s is Wait,
        TunnelEvent::Closed => s is End,
        TunnelEvent::Outgoing { payload } => s == SlaveStep::Send { payload },
        TunnelEvent::SendFailed => s is End,
    }
}

/// Decides what an engine does after something happened on the connection to its
/// host.
pub fn slave_step(e: TunnelEvent) -> (r: SlaveStep)
    ensures
        is_slave_step(e, r),
{
    match e {
        TunnelEvent::Message(m) => match m {
            TunnelMessage::Heartbeat => SlaveStep::Heartbeat,
            TunnelMessage::Rpc { payload } => SlaveStep::Deliver { payload },
            TunnelMessage::Register { .. } => SlaveStep::Wait,
            TunnelMessage::Leave => SlaveStep::Wait,
        },
        TunnelEvent::Noise => SlaveStep::Wait,
        TunnelEvent::Closed => SlaveStep::End,
        TunnelEvent::Outgoing { payload } => SlaveStep::Send { payload },
        TunnelEvent::SendFailed => SlaveStep::End,
    }
}

/// The seconds to wait before the first attempt to connect again.
pub const RECONNECT_FIRST_SECS: u64 = 2;

/// The seconds to wait at most.
pub const RECONNECT_MAX_SECS: u64 = 60;

/// Where an engine stands that connects again.
#[derive(Debug, Clone, Copy, PartialEq, Eq, Structural)]
pub struct Reconnect {
    pub delay_secs: u64,
}

/// Something that happens to an engine that connects again.
#[derive(Debug, Clone, Copy, PartialEq, Eq, Structural)]
pub enum ReconnectEvent {
    /// The connection broke.
    Lost,
    /// The wait is over.
    Waited,
    /// The host can be reached.
    Connected,
    /// The host cannot be reached.
    Failed,
    /// The host was told the instances.
    Registered,
    /// The host could not be told.
    RegisterFailed,
}

/// What an engine does that connects again.
#[derive(Debug, Clone, Copy, PartialEq, Eq, Structural)]
pub enum ReconnectStep {
    /// It gives up.
    GiveUp,
    /// It waits for so many seconds.
    Wait { secs: u64 },
    /// It tries to connect.
    Connect,
    /// It tells the host its instances.
    Register,
    /// It works on the connection.
    Run,
}

/// The wait after another failure.
pub open spec fn longer(delay: u64) -> u64 {
    if delay * 2 < RECONNECT_MAX_SECS {
        (delay * 2) as u64
    } else {
        RECONNECT_MAX_SECS
    }
}

/// What an engine does after an event, and where it stands then. It goes on as long
/// as it is to connect again.
pub open spec fn reconnect_step(s: Reconnect, e: ReconnectEvent, wanted: bool) -> (
    Reconnect,
    ReconnectStep,
) {
    match e {
        ReconnectEvent::Lost => {
            let fresh = Reconnect { delay_secs: RECONNECT_FIRST_SECS };
            if wanted {
                (fresh, ReconnectStep::Wait { secs: RECONNECT_FIRST_SECS })
            } else {
                (fresh, ReconnectStep::GiveUp)
            }
        },
        ReconnectEvent::Waited => if wanted {
            (s, ReconnectStep::Connect)
        } else {
            (s, ReconnectStep::GiveUp)
        },
        ReconnectEvent::Connected => (s, ReconnectStep::Register),
        ReconnectEvent::Registered => (s, ReconnectStep::Run),
        ReconnectEvent::Failed | ReconnectEvent::RegisterFailed => {
            let next = Reconnect { delay_secs: longer(s.delay_secs) };
            if wanted {
                (next, ReconnectStep::Wait { secs: next.delay_secs })
            } else {
                (next, ReconnectStep::GiveUp)
            }
        },
    }
}

impl Reconnect {
    pub fn new() -> (r: Self)
        ensures
            r.delay_secs == RECONNECT_FIRST_SECS,
    {
        Reconnect { delay_secs: RECONNECT_FIRST_SECS }
    }

    /// Goes on after an event.
    pub fn next(&mut self, event: ReconnectEvent, wanted: bool) -> (r: ReconnectStep)
        ensures
            (*final(self), r) == reconnect_step(*old(self), event, wanted),
    {
        match event {
            ReconnectEvent::Lost => {
                self.delay_secs = RECONNECT_FIRST_SECS;
                if wanted {
                    ReconnectStep::Wait { secs: self.delay_secs }
                } else {
                    ReconnectStep::GiveUp
                }
            },
            ReconnectEvent::Waited => if wanted {
                ReconnectStep::Connect
            } else {
                ReconnectStep::GiveUp
            },
            ReconnectEvent::Connected => ReconnectStep::Register,
            ReconnectEvent::Registered => ReconnectStep::Run,
            ReconnectEvent::Failed | ReconnectEvent::RegisterFailed => {
                self.delay_secs = if self.delay_secs < RECONNECT_MAX_SECS / 2 {
                    self.delay_secs * 2
                } else {
                    RECONNECT_MAX_SECS
                };
                if wanted {
                    ReconnectStep::Wait { secs: self.delay_secs }
                } else {
                    ReconnectStep::GiveUp
                }
            },
        }
    }
}

/// The wait after `n` failures in a row.
pub open spec fn wait_after(n: nat) -> u64
    decreases n,
{
    if n == 0 {
        RECONNECT_FIRST_SECS
    } else {
        longer(wait_after((n - 1) as nat))
    }
}

/// The wait between attempts grows with each failure until it reaches a minute, and
/// stays there.
pub proof fn law_waits_grow_to_a_minute(n: nat)
    ensures
        2 <= wait_after(n) <= 60,
        wait_after(n) <= wait_after(n + 1),
        n >= 5 ==> wait_after(n) == 60,
    decreases n,
{
    if n > 0 {
        law_waits_grow_to_a_minute((n - 1) as nat);
    }
    if n == 5 {
        reveal_with_fuel(wait_after, 6);
    }
}

/// A request that is passed on through the tunnel.
#[derive(Debug)]
pub struct HttpProxyRequest {
    pub method: String,
    pub path: String,
    pub headers: Vec<Header>,
    /// The body in base 64.
    pub body: Option<String>,
}

/// The answer to such a request.
#[derive(Debug)]
pub struct HttpProxyResponse {
    pub status: u16,
    pub headers: Vec<Header>,
    /// The body in base 64.
    pub body: Option<String>,
}

/// A request to this engine itself.
#[derive(Debug)]
pub struct LocalRequest {
    pub url: String,
    pub method: String,
    pub cookie: String,
    pub headers: Vec<Header>,
    pub body: Option<Vec<u8>>,
}

/// A header that this engine sets itself.
pub open spec fn own_header(name_lower: Seq<char>) -> bool {
    name_lower == "cookie"@ || name_lower == "host"@
}

/// The headers among the first `n` that are passed on to this engine.
pub open spec fn foreign_headers(hs: Seq<Header>, n: int) -> Seq<Header>
    decreases n,
{
    if n <= 0 || n > hs.len() {
        Seq::empty()
    } else if own_header(case::lowercase_text(hs[n - 1].name@)) {
        foreign_headers(hs, n - 1)
    } else {
        foreign_headers(hs, n - 1).push(hs[n - 1])
    }
}

/// Passes on requests of the host to this engine.
#[derive(Debug)]
pub struct SlaveHttpProxyHandler {
    pub local_port: u16,
    pub auth_token: String,
}

impl SlaveHttpProxyHandler {
    pub fn new(local_port: u16, auth_token: String) -> (r: Self)
        ensures
            r.local_port == local_port,
            r.auth_token@ == auth_token@,
    {
        SlaveHttpProxyHandler { local_port, auth_token }
    }

    /// The request to this engine that a request of the host stands for: with a
    /// cookie of this engine, and with the body as far as it can be read.
    pub fn local_request(&self, q: &HttpProxyRequest) -> (r: LocalRequest)
        ensures
            r.url@ == "http://localhost:"@ + number::dec(self.local_port as nat) + q.path@,
            r.method@ == q.method@,
            r.cookie@ == "session_token="@ + auth::session_digest(self.auth_token@),
            r.headers@ == foreign_headers(q.headers@, q.headers@.len() as int),
            (match r.body {
                Some(b) => Some(b@),
                None => None,
            }) == (match q.body {
                Some(b) => codec::base64_bytes(b@),
                None => None,
            }),
    {
        let mut url = "http://localhost:".to_string();
        push_dec(&mut url, self.local_port as u64);
        url.push_str(q.path.as_str());
        let mut cookie = "session_token=".to_string();
        cookie.push_str(compute_session_token(self.auth_token.as_str()).as_str());
        let mut headers: Vec<Header> = Vec::new();
        let mut i: usize = 0;
        while i < q.headers.len()
            invariant
                i <= q.headers@.len(),
                headers@ == foreign_headers(q.headers@, i as int),
            decreases q.headers@.len() - i,
        {
            let lower = to_lower(q.headers[i].name.as_str());
            if !same_text(lower.as_str(), "cookie") && !same_text(lower.as_str(), "host") {
                headers.push(q.headers[i].clone());
            }
            i = i + 1;
        }
        let body = match &q.body {
            Some(b) => base64_decode(b.as_str()),
            None => None,
        };
        LocalRequest { url, method: q.method.clone(), cookie, headers, body }
    }

    /// The answer to the host, from the answer of this engine.
    pub fn answer(&self, status: u16, headers: Vec<Header>, body: &Vec<u8>) -> (r: HttpProxyResponse)
        requires
            codec::fits_base64(body@),
        ensures
            r.status == status,
            r.headers@ == headers@,
            codec::carries(r.body, body@),
    {
        let encoded = if body.len() == 0 {
            None
        } else {
            Some(base64_encode(body.as_slice()))
        };
        HttpProxyResponse { status, headers, body: encoded }
    }

    /// The answer to the host where this engine did not answer.
    pub fn failure(&self, error: &str) -> (r: HttpProxyResponse)
        requires
            codec::fits_base64(vstd::utf8::encode_utf8("Tunnel error: "@ + error@)),
        ensures
            r.status == 502,
            r.headers@.len() == 0,
            r.body is Some,
            r.body->0@ == codec::base64_text(
                vstd::utf8::encode_utf8("Tunnel error: "@ + error@),
            ),
    {
        let mut s = "Tunnel error: ".to_string();
        s.push_str(error);
        HttpProxyResponse {
            status: 502,
            headers: Vec::new(),
            body: Some(base64_encode(s.as_str().as_bytes())),
        }
    }
}

} // verus!
