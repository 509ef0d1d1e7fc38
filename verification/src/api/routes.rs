//! Where requests go, and what they are answered.
use vstd::prelude::*;

use crate::api::http_protocol;
use crate::api::http_protocol::{
    build_proxy_prefix, build_proxy_url, content_type_for_extension, forward_request_headers,
    parse_proxy_target, to_reqwest_method, Header, PROXY_PATH_PREFIX, PUBLIC_DIR_PREFIX,
};
use crate::api::state;
use crate::api::state::is_within;
use crate::api::types::InstanceInfo;
use crate::codec;
use crate::codec::{base64_decode, base64_encode};
use crate::hub::host;
use crate::hub::host::HostState;
use crate::hub::slave::{HttpProxyRequest, HttpProxyResponse};
use crate::hub::tunnel::TunnelInstanceInfo;
use crate::text::case;
use crate::text::case::to_lower;
use crate::text::chars::{same_text, slice_text, to_chars};
use crate::text::number;
use crate::text::number::push_dec;
use crate::text::search;
use crate::text::search::{before, lists, rfind_chars, starts_with, strip_prefix};

verus! {

/// The name behind a prefix, up to the next slash; none where it is empty.
pub open spec fn name_behind(path: Seq<char>, prefix: Seq<char>) -> Option<Seq<char>> {
    if search::has_prefix(path, prefix) {
        let name = search::before_text(path.skip(prefix.len() as int), "/"@);
        if name.len() > 0 {
            Some(name)
        } else {
            None
        }
    } else {
        None
    }
}

/// The instance that a path concerns.
pub open spec fn instance_in_path(path: Seq<char>) -> Option<Seq<char>> {
    match name_behind(path, "/api/instances/"@) {
        Some(id) => Some(id),
        None => match name_behind(path, "/serve/"@) {
            Some(id) => Some(id),
            None => name_behind(path, "/public/"@),
        },
    }
}

fn behind(path: &str, prefix: &str) -> (r: Option<String>)
    ensures
        match r {
            Some(id) => name_behind(path@, prefix@) == Some(id@),
            None => name_behind(path@, prefix@) is None,
        },
{
    match strip_prefix(path, prefix) {
        Some(rest) => {
            let id = before(rest.as_str(), "/");
            if id.as_str().is_empty() {
                None
            } else {
                Some(id)
            }
        },
        None => None,
    }
}

/// The instance that a path concerns.
pub fn extract_instance_id_from_path(path: &str) -> (r: Option<String>)
    ensures
        match r {
            Some(id) => instance_in_path(path@) == Some(id@),
            None => instance_in_path(path@) is None,
        },
{
    if let Some(id) = behind(path, "/api/instances/") {
        return Some(id);
    }
    if let Some(id) = behind(path, "/serve/") {
        return Some(id);
    }
    behind(path, "/public/")
}

/// An error that a request is answered with: a status, and what is said.
#[derive(Debug)]
pub struct ApiError {
    pub status: u16,
    pub message: String,
}

pub open spec fn is_error(e: ApiError, status: u16, message: Seq<char>) -> bool {
    e.status == status && e.message@ == message
}

fn api_error(status: u16, message: &str) -> (r: ApiError)
    ensures
        is_error(r, status, message@),
{
    ApiError { status, message: message.to_string() }
}

/// The instances of other engines among the first `n`, as they are shown: little is
/// known of them.
pub open spec fn is_remote_info(x: InstanceInfo, t: TunnelInstanceInfo) -> bool {
    x.id@ == t.id@ && x.name@ == t.name@ && x.avatar@.len() == 0 && x.color@.len() == 0
        && !x.privileged && x.last_active == 0
}

/// All instances as they are shown: those of this engine, then those of the others.
pub fn with_remote_instances(local: Vec<InstanceInfo>, remote: &Vec<TunnelInstanceInfo>) -> (r: Vec<
    InstanceInfo,
>)
    ensures
        r@.len() == local@.len() + remote@.len(),
        r@.take(local@.len() as int) == local@,
        forall|i: int|
            0 <= i < remote@.len() ==> is_remote_info(
                #[trigger] r@[local@.len() + i],
                remote@[i],
            ),
{
    let mut out = local;
    let ghost n = local@.len() as int;
    let mut i: usize = 0;
    while i < remote.len()
        invariant
            i <= remote@.len(),
            n == local@.len(),
            out@.len() == n + i,
            out@.take(n) == local@,
            forall|k: int| 0 <= k < i ==> is_remote_info(#[trigger] out@[n + k], remote@[k]),
        decreases remote@.len() - i,
    {
        let ghost had = out@;
        out.push(
            InstanceInfo {
                id: remote[i].id.clone(),
                name: remote[i].name.clone(),
                avatar: String::new(),
                color: String::new(),
                privileged: false,
                last_active: 0,
            },
        );
        i = i + 1;
        assert(out@.take(n) =~= had.take(n));
        assert forall|k: int| 0 <= k < i implies is_remote_info(#[trigger] out@[n + k], remote@[k]) by {
            if k < i - 1 {
                assert(out@[n + k] == had[n + k]);
            }
        }
    }
    out
}

/// What is known of a file that is asked for: where it and the workspace really
/// are, as far as that can be told.
#[derive(Debug)]
pub struct FileFacts {
    pub workspace_exists: bool,
    pub target: Option<String>,
    pub workspace: Option<String>,
    pub is_file: bool,
}

/// Decides whether a file of a workspace is sent: only what lies in the workspace
/// is.
pub fn serve_workspace_file(f: &FileFacts) -> (r: Result<(), ApiError>)
    ensures
        match r {
            Ok(_) => f.workspace_exists && f.target is Some && f.workspace is Some && state::lies_in(
                f.target->0@,
                f.workspace->0@,
            ) && f.is_file,
            Err(e) => if !f.workspace_exists {
                is_error(e, 404, "Workspace not found"@)
            } else if f.target is None {
                is_error(e, 404, "File not found"@)
            } else if f.workspace is None {
                is_error(e, 500, "Cannot resolve workspace"@)
            } else {
                &&& !state::lies_in(f.target->0@, f.workspace->0@) || !f.is_file
                &&& is_error(e, 404, "File not found"@)
            },
        },
{
    if !f.workspace_exists {
        return Err(api_error(404, "Workspace not found"));
    }
    match (&f.target, &f.workspace) {
        (None, _) => Err(api_error(404, "File not found")),
        (Some(_), None) => Err(api_error(500, "Cannot resolve workspace")),
        (Some(t), Some(w)) => {
            if is_within(t.as_str(), w.as_str()) && f.is_file {
                Ok(())
            } else {
                Err(api_error(404, "File not found"))
            }
        },
    }
}

/// The media type of a file with an extension, whatever the case of its letters.
pub fn content_type_of(extension: &str) -> (r: &'static str)
    ensures
        r@ == http_protocol::content_type(case::lowercase_text(extension@)),
{
    let lower = to_lower(extension);
    content_type_for_extension(lower.as_str())
}

/// Decides whether everyone may see a file.
pub fn handle_public_static(path: &str) -> (r: Result<(), ApiError>)
    ensures
        match r {
            Ok(_) => search::has_prefix(path@, "apps/"@),
            Err(e) => !search::has_prefix(path@, "apps/"@) && is_error(
                e,
                403,
                "Public access only allowed for apps/ directory"@,
            ),
        },
{
    if starts_with(path, PUBLIC_DIR_PREFIX) {
        Ok(())
    } else {
        Err(api_error(403, "Public access only allowed for apps/ directory"))
    }
}

/// A request that the proxy passes on to a port of this machine.
#[derive(Debug)]
pub struct ProxyPlan {
    pub url: String,
    pub method: &'static str,
    pub headers: Vec<Header>,
    pub prefix: String,
}

/// The request that the proxy passes on.
pub fn handle_proxy(path: &str, query: Option<&str>, method: &str, headers: &Vec<Header>) -> (r: Result<
    ProxyPlan,
    ApiError,
>)
    ensures
        ({
            let rest = path@.skip("/proxy/"@.len() as int);
            let target = http_protocol::proxy_target(rest);
            match r {
                Ok(p) => {
                    &&& search::has_prefix(path@, "/proxy/"@)
                    &&& target is Some
                    &&& p.url@ == http_protocol::with_query(
                        "http://localhost:"@ + number::dec((target->0).0 as nat) + (target->0).1,
                        http_protocol::str_view(query),
                    )
                    &&& p.method@ == http_protocol::passed_method(method@)
                    &&& p.headers@ == http_protocol::passed_on(headers@, headers@.len() as int)
                    &&& p.prefix@ == "/proxy/"@ + number::dec((target->0).0 as nat)
                },
                Err(e) => if !search::has_prefix(path@, "/proxy/"@) {
                    is_error(e, 400, "Invalid proxy path"@)
                } else {
                    target is None && is_error(e, 400, "Invalid port (must be >= 1024)"@)
                },
            }
        }),
{
    let rest = match strip_prefix(path, PROXY_PATH_PREFIX) {
        Some(rest) => rest,
        None => {
            return Err(api_error(400, "Invalid proxy path"));
        },
    };
    match parse_proxy_target(rest.as_str()) {
        Some((port, target)) => Ok(
            ProxyPlan {
                url: build_proxy_url(port, target.as_str(), query),
                method: to_reqwest_method(method),
                headers: forward_request_headers(headers),
                prefix: build_proxy_prefix(port),
            },
        ),
        None => Err(api_error(400, "Invalid port (must be >= 1024)")),
    }
}

/// The parts of a file's name before and from its last dot.
pub open spec fn name_parts(name: Seq<char>) -> (Seq<char>, Seq<char>) {
    match search::rfind_text(name, "."@) {
        Some(i) => (name.take(i), name.skip(i)),
        None => (name, Seq::empty()),
    }
}

/// The name that is tried for a file after `tries` others were taken.
pub open spec fn upload_candidate(name: Seq<char>, tries: nat) -> Seq<char> {
    if tries == 0 {
        name
    } else {
        name_parts(name).0 + "_"@ + number::dec(tries) + name_parts(name).1
    }
}

/// The name that is tried for a file after so many others were taken.
pub fn upload_name(name: &str, tries: u32) -> (r: String)
    ensures
        r@ == upload_candidate(name@, tries as nat),
{
    if tries == 0 {
        return name.to_string();
    }
    let v = to_chars(name);
    let dot = to_chars(".");
    let n: usize = v.len();
    let (stem, ext) = match rfind_chars(&v, &dot) {
        Some(i) => {
            let a = slice_text(&v, 0, i);
            let b = slice_text(&v, i, n);
            assert(a@ =~= name@.take(i as int));
            assert(b@ =~= name@.skip(i as int));
            (a, b)
        },
        None => (name.to_string(), String::new()),
    };
    let mut s = stem;
    s.push_str("_");
    push_dec(&mut s, tries as u64);
    s.push_str(ext.as_str());
    s
}

/// No name is tried twice for a file.
pub proof fn law_upload_names_differ(name: Seq<char>, i: nat, j: nat)
    requires
        upload_candidate(name, i) == upload_candidate(name, j),
    ensures
        i == j,
{
    reveal_strlit("_");
    reveal_strlit(".");
    let (stem, ext) = name_parts(name);
    search::lemma_rfind_from(name, "."@, name.len() - 1);
    assert(stem + ext =~= name);
    number::lemma_dec_digits(i);
    number::lemma_dec_digits(j);
    if i == 0 || j == 0 {
        let k = if i == 0 {
            j
        } else {
            i
        };
        if k != 0 {
            number::lemma_dec_digits(k);
            assert(upload_candidate(name, k).len() > name.len());
        }
    } else {
        let (a, b) = (upload_candidate(name, i), upload_candidate(name, j));
        let s = stem.len() as int + 1;
        let e = ext.len() as int;
        assert(a.subrange(s, a.len() - e) =~= number::dec(i));
        assert(b.subrange(s, b.len() - e) =~= number::dec(j));
    }
}

/// The first name for a file that is not taken.
pub open spec fn is_free_name(r: Seq<char>, taken: Seq<Seq<char>>, name: Seq<char>) -> bool {
    exists|k: nat| #[trigger]
        is_first_free(k, taken, name) && r == upload_candidate(name, k)
}

/// The name that is tried after `k` others is not taken, and all of these are.
pub open spec fn is_first_free(k: nat, taken: Seq<Seq<char>>, name: Seq<char>) -> bool {
    &&& !taken.contains(upload_candidate(name, k))
    &&& forall|j: nat| j < k ==> taken.contains(#[trigger] upload_candidate(name, j))
}

/// Of the names that are tried one is free, where one more is tried than are taken.
proof fn lemma_some_name_is_free(taken: Seq<Seq<char>>, name: Seq<char>)
    ensures
        exists|j: nat|
            j <= taken.len() && !taken.contains(#[trigger] upload_candidate(name, j)),
{
    let n = taken.len();
    let tried = Seq::new((n + 1) as nat, |i: int| upload_candidate(name, i as nat));
    assert(tried.no_duplicates()) by {
        assert forall|i: int, j: int| 0 <= i < tried.len() && 0 <= j < tried.len() && i != j implies
            tried[i] != tried[j] by {
            if tried[i] == tried[j] {
                law_upload_names_differ(name, i as nat, j as nat);
            }
        }
    }
    tried.unique_seq_to_set();
    taken.lemma_cardinality_of_set();
    vstd::seq_lib::seq_to_set_is_finite(taken);
    if forall|j: nat| j <= n ==> taken.contains(#[trigger] upload_candidate(name, j)) {
        assert forall|x: Seq<char>| tried.to_set().contains(x) implies taken.to_set().contains(
            x,
        ) by {
            let i = choose|i: int| 0 <= i < tried.len() && tried[i] == x;
            assert(taken.contains(upload_candidate(name, i as nat)));
        }
        vstd::set_lib::lemma_len_subset(tried.to_set(), taken.to_set());
    }
}

/// The name under which a file is kept: its own, or the first numbered one that is
/// not taken.
pub fn free_upload_name(taken: &Vec<String>, name: &str) -> (r: String)
    requires
        taken@.len() < u32::MAX,
    ensures
        is_free_name(r@, search::views(taken@), name@),
{
    let ghost all = search::views(taken@);
    let mut tries: u32 = 0;
    loop
        invariant
            all == search::views(taken@),
            all.len() == taken@.len(),
            taken@.len() < u32::MAX,
            tries <= taken@.len(),
            forall|j: nat| j < tries ==> all.contains(#[trigger] upload_candidate(name@, j)),
        decreases taken@.len() - tries,
    {
        let candidate = upload_name(name, tries);
        if !lists(taken, candidate.as_str()) {
            assert(is_first_free(tries as nat, all, name@));
            return candidate;
        }
        proof {
            if tries == taken@.len() {
                lemma_some_name_is_free(all, name@);
            }
        }
        tries = tries + 1;
    }
}

/// The path under which a file is found that came on a day.
pub fn upload_path(today: &str, name: &str) -> (r: String)
    ensures
        r@ == "uploads/"@ + today@ + "/"@ + name@,
{
    let mut s = "uploads/".to_string();
    s.push_str(today);
    s.push_str("/");
    s.push_str(name);
    s
}

/// A path without the slashes at its start.
pub open spec fn without_slashes(path: Seq<char>) -> Seq<char>
    decreases path.len(),
{
    if path.len() > 0 && path[0] == '/' {
        without_slashes(path.skip(1))
    } else {
        path
    }
}

/// The page that a path shows.
pub open spec fn page_of(path: Seq<char>) -> Seq<char> {
    let p = without_slashes(path);
    if p.len() == 0 || p == "index"@ {
        "index.html"@
    } else {
        p
    }
}

/// The page that a path shows.
pub fn page_name(path: &str) -> (r: String)
    ensures
        r@ == page_of(path@),
{
    let v = to_chars(path);
    let n: usize = v.len();
    let mut i: usize = 0;
    assert(path@.skip(0) =~= path@);
    while i < n && v[i] == '/'
        invariant
            i <= n,
            n == v@.len(),
            v@ == path@,
            without_slashes(path@) == without_slashes(path@.skip(i as int)),
        decreases n - i,
    {
        assert(path@.skip(i as int).skip(1) =~= path@.skip(i + 1));
        i = i + 1;
    }
    let p = slice_text(&v, i, n);
    assert(p@ =~= path@.skip(i as int));
    if p.as_str().is_empty() || same_text(p.as_str(), "index") {
        "index.html".to_string()
    } else {
        p
    }
}

/// The pages that the engine brings with it.
pub open spec fn is_own_page(name: Seq<char>) -> bool {
    name == "index.html"@ || name == "setup.html"@ || name == "login.html"@ || name
        == "knowledge.html"@ || name == "files.html"@
}

/// Whether the engine brings a page with it.
pub fn is_embedded_page(name: &str) -> (r: bool)
    ensures
        r == is_own_page(name@),
{
    same_text(name, "index.html") || same_text(name, "setup.html") || same_text(name, "login.html")
        || same_text(name, "knowledge.html") || same_text(name, "files.html")
}

/// The address that a host is reached at: with `http://` before it, unless it names
/// its scheme.
pub open spec fn host_address(host: Option<Seq<char>>, port: nat) -> Seq<char> {
    match host {
        Some(h) => if search::has_prefix(h, "http://"@) || search::has_prefix(h, "https://"@) {
            h
        } else {
            "http://"@ + h
        },
        None => "http://localhost:"@ + number::dec(port),
    }
}

/// The address that a host is reached at.
pub fn host_endpoint(host: Option<&str>, port: u16) -> (r: String)
    ensures
        r@ == host_address(http_protocol::str_view(host), port as nat),
{
    match host {
        Some(h) => if starts_with(h, "http://") || starts_with(h, "https://") {
            h.to_string()
        } else {
            let mut s = "http://".to_string();
            s.push_str(h);
            s
        },
        None => {
            let mut s = "http://localhost:".to_string();
            push_dec(&mut s, port as u64);
            s
        },
    }
}

/// Decides whether an engine may join, and the identifier that it comes with.
pub fn handle_hub_ws(join_token: Option<&str>, token: Option<String>, engine_id: Option<String>) -> (r: Result<
    String,
    ApiError,
>)
    ensures
        ({
            let given = match token {
                Some(t) => t@,
                None => Seq::empty(),
            };
            match r {
                Ok(id) => join_token is Some && given == join_token->0@ && id@ == (
                match engine_id {
                    Some(e) => e@,
                    None => "unknown"@,
                }),
                Err(e) => if join_token is None {
                    is_error(e, 400, "Not in host mode"@)
                } else {
                    given != join_token->0@ && is_error(e, 401, "Invalid join token"@)
                },
            }
        }),
{
    let wanted = match join_token {
        Some(t) => t,
        None => {
            return Err(api_error(400, "Not in host mode"));
        },
    };
    let given = match token {
        Some(t) => t,
        None => String::new(),
    };
    if !same_text(given.as_str(), wanted) {
        return Err(api_error(401, "Invalid join token"));
    }
    match engine_id {
        Some(e) => Ok(e),
        None => Ok("unknown".to_string()),
    }
}

/// The identifier that an engine joins with: that of its first instance.
pub fn joining_engine_id(instances: &Vec<TunnelInstanceInfo>) -> (r: String)
    ensures
        r@ == (if instances@.len() > 0 {
            instances@[0].id@
        } else {
            "unknown"@
        }),
{
    if instances.len() > 0 {
        instances[0].id.clone()
    } else {
        "unknown".to_string()
    }
}

/// A request as it goes through the tunnel.
pub fn tunnel_request(
    method: &str,
    path: &str,
    query: Option<&str>,
    headers: Vec<Header>,
    body: &Vec<u8>,
) -> (r: HttpProxyRequest)
    requires
        codec::fits_base64(body@),
    ensures
        r.method@ == method@,
        r.path@ == http_protocol::with_query(path@, http_protocol::str_view(query)),
        r.headers@ == headers@,
        codec::carries(r.body, body@),
{
    let mut p = path.to_string();
    if let Some(q) = query {
        p.push('?');
        p.push_str(q);
    }
    let encoded = if body.len() == 0 {
        None
    } else {
        Some(base64_encode(body.as_slice()))
    };
    HttpProxyRequest { method: method.to_string(), path: p, headers, body: encoded }
}

/// The body of an answer that came through the tunnel; empty where there is none or
/// it cannot be read.
pub fn tunnel_body(resp: &HttpProxyResponse) -> (r: Vec<u8>)
    ensures
        r@ == codec::carried(resp.body),
{
    match &resp.body {
        Some(b) => match base64_decode(b.as_str()) {
            Some(v) => v,
            None => Vec::new(),
        },
        None => Vec::new(),
    }
}

/// How many messages are shown where nothing is said of it.
pub fn message_limit(limit: Option<i64>) -> (r: i64)
    ensures
        r == (match limit {
            Some(n) => n,
            None => http_protocol::DEFAULT_MESSAGE_LIMIT,
        }),
{
    match limit {
        Some(n) => n,
        None => http_protocol::DEFAULT_MESSAGE_LIMIT,
    }
}

/// Where a request goes.
#[derive(Debug)]
pub enum HubRoute {
    /// It is answered here.
    Here,
    /// It goes through the tunnel to the engine that has the instance.
    Tunnel { instance_id: String, engine_id: String },
}

/// Decides where a request goes: to the engine that has its instance, where this
/// engine is a host and another engine has it.
pub fn hub_route(host: Option<&HostState>, path: &str) -> (r: HubRoute)
    ensures
        match r {
            HubRoute::Tunnel { instance_id, engine_id } => {
                &&& host is Some
                &&& instance_in_path(path@) == Some(instance_id@)
                &&& host::engine_from(host->0.connections.values@, instance_id@, 0) is Some
                &&& engine_id@ == host->0.connections.values@[host::engine_from(
                    host->0.connections.values@,
                    instance_id@,
                    0,
                )->0].engine_id@
            },
            HubRoute::Here => match (host, instance_in_path(path@)) {
                (Some(h), Some(id)) => host::engine_from(h.connections.values@, id, 0) is None,
                _ => true,
            },
        },
{
    let h = match host {
        Some(h) => h,
        None => {
            return HubRoute::Here;
        },
    };
    let instance_id = match extract_instance_id_from_path(path) {
        Some(id) => id,
        None => {
            return HubRoute::Here;
        },
    };
    match h.find_instance_engine(instance_id.as_str()) {
        Some(engine_id) => HubRoute::Tunnel { instance_id, engine_id },
        None => HubRoute::Here,
    }
}

/// The status of an answer that came through the tunnel: a bad gateway where it is
/// none.
pub fn tunnel_status(status: u16) -> (r: u16)
    ensures
        r == (if 100 <= status <= 999 {
            status
        } else {
            502
        }),
{
    if 100 <= status && status <= 999 {
        status
    } else {
        502
    }
}

/// How an engine that becomes a host registers its own hooks with itself.
#[derive(Debug)]
pub struct SelfHooks {
    pub url: String,
    pub cookie: String,
    pub contacts_url: String,
    pub send_msg_relay_url: String,
}

/// The request by which a host registers its hooks with itself.
pub fn self_hooks(port: u16, cookie_name: &str, session_token: &str) -> (r: SelfHooks)
    ensures
        ({
            let here = "http://localhost:"@ + number::dec(port as nat);
            &&& r.url@ == here + "/api/hooks"@
            &&& r.contacts_url@ == here + "/api/hub/contacts/{instance_id}"@
            &&& r.send_msg_relay_url@ == here + "/api/hub/relay"@
            &&& r.cookie@ == cookie_name@ + "="@ + session_token@
        }),
{
    let mut here = "http://localhost:".to_string();
    push_dec(&mut here, port as u64);
    let mut url = here.clone();
    url.push_str("/api/hooks");
    let mut contacts_url = here.clone();
    contacts_url.push_str("/api/hub/contacts/{instance_id}");
    let mut send_msg_relay_url = here;
    send_msg_relay_url.push_str("/api/hub/relay");
    let mut cookie = cookie_name.to_string();
    cookie.push_str("=");
    cookie.push_str(session_token);
    SelfHooks { url, cookie, contacts_url, send_msg_relay_url }
}

} // verus!
