//! What the web interface hands on, lets in and shows.
use vstd::prelude::*;

use crate::api::auth;
use crate::api::auth::{handle_login_post, handle_logout, AuthDecision, AuthRequest, LoginAnswer};
use crate::api::http_protocol;
use crate::api::http_protocol::Header;
use crate::api::routes;
use crate::api::routes::{free_upload_name, handle_hub_ws, handle_proxy, ApiError, ProxyPlan};
use crate::api::state;
use crate::api::state::{
    build_instance_info, decide_delete, get_messages, DeleteDecision, DirEntry,
};
use crate::api::types::{FileInfo, InstanceInfo, MessagesResult};
use crate::chat;
use crate::chat::ChatHistory;
use crate::model::Message;
use crate::persist::settings::Settings;
use crate::text::bytes;
use crate::text::case;
use crate::text::number;
use crate::text::order;
use crate::text::parts;
use crate::text::path;
use crate::text::search;
use crate::text::space;

verus! {

/// A header that concerns nothing but the connection it came over.
pub open spec fn is_of_the_connection(name: Seq<char>) -> bool {
    ||| name == "connection"@
    ||| name == "keep-alive"@
    ||| name == "transfer-encoding"@
    ||| name == "te"@
    ||| name == "trailer"@
    ||| name == "host"@
    ||| name == "upgrade"@
}

/// The headers of a request are handed on in their order and unchanged, but for those
/// that concern nothing but the connection.
pub proof fn law_headers_are_handed_on(hs: Seq<Header>, n: int)
    requires
        0 <= n <= hs.len(),
    ensures
        http_protocol::passed_on(hs, n) == hs.take(n).filter(
            |h: Header| !is_of_the_connection(h.name@),
        ),
    decreases n,
{
    reveal(Seq::filter);
    if n > 0 {
        law_headers_are_handed_on(hs, n - 1);
        assert(hs.take(n).drop_last() =~= hs.take(n - 1));
    }
}

/// The usual methods are handed on, and any other is taken for one that only reads.
pub proof fn law_methods_are_handed_on(method: Seq<char>)
    ensures
        method == "GET"@ || method == "POST"@ || method == "PUT"@ || method == "DELETE"@ || method
            == "PATCH"@ || method == "HEAD"@ || method == "OPTIONS"@
            ==> http_protocol::passed_method(method) == method,
        http_protocol::passed_method(method) == method || http_protocol::passed_method(method)
            == "GET"@,
{
}

/// Files are shown as what their extensions say.
pub proof fn law_files_are_what_their_extensions_say()
    ensures
        http_protocol::content_type("html"@) == "text/html; charset=utf-8"@,
        http_protocol::content_type("htm"@) == "text/html; charset=utf-8"@,
        http_protocol::content_type("css"@) == "text/css; charset=utf-8"@,
        http_protocol::content_type("js"@) == "application/javascript; charset=utf-8"@,
        http_protocol::content_type("json"@) == "application/json; charset=utf-8"@,
        http_protocol::content_type("png"@) == "image/png"@,
        http_protocol::content_type("jpg"@) == "image/jpeg"@,
        http_protocol::content_type("jpeg"@) == "image/jpeg"@,
        http_protocol::content_type("gif"@) == "image/gif"@,
        http_protocol::content_type("svg"@) == "image/svg+xml"@,
        http_protocol::content_type("ico"@) == "image/x-icon"@,
        http_protocol::content_type("txt"@) == "text/plain; charset=utf-8"@,
        http_protocol::content_type("md"@) == "text/plain; charset=utf-8"@,
        http_protocol::content_type("pdf"@) == "application/pdf"@,
        http_protocol::content_type("zip"@) == "application/zip"@,
        http_protocol::content_type("wasm"@) == "application/wasm"@,
        http_protocol::content_type("mp3"@) == "audio/mpeg"@,
        http_protocol::content_type("mp4"@) == "video/mp4"@,
        http_protocol::content_type("webp"@) == "image/webp"@,
        http_protocol::content_type("webm"@) == "video/webm"@,
{
    reveal_strlit("html");
    reveal_strlit("htm");
    reveal_strlit("css");
    reveal_strlit("js");
    reveal_strlit("json");
    reveal_strlit("png");
    reveal_strlit("jpg");
    reveal_strlit("jpeg");
    reveal_strlit("gif");
    reveal_strlit("svg");
    reveal_strlit("ico");
    reveal_strlit("txt");
    reveal_strlit("md");
    reveal_strlit("pdf");
    reveal_strlit("zip");
    reveal_strlit("wasm");
    reveal_strlit("mp3");
    reveal_strlit("mp4");
    reveal_strlit("webp");
    reveal_strlit("webm");
    assert("html"@.len() == 4);
    assert("html"@[0] == 'h');
    assert("html"@[1] == 't');
    assert("html"@[2] == 'm');
    assert("html"@[3] == 'l');
    assert("htm"@.len() == 3);
    assert("htm"@[0] == 'h');
    assert("htm"@[1] == 't');
    assert("htm"@[2] == 'm');
    assert("css"@.len() == 3);
    assert("css"@[0] == 'c');
    assert("css"@[1] == 's');
    assert("css"@[2] == 's');
    assert("js"@.len() == 2);
    assert("js"@[0] == 'j');
    assert("js"@[1] == 's');
    assert("json"@.len() == 4);
    assert("json"@[0] == 'j');
    assert("json"@[1] == 's');
    assert("json"@[2] == 'o');
    assert("json"@[3] == 'n');
    assert("png"@.len() == 3);
    assert("png"@[0] == 'p');
    assert("png"@[1] == 'n');
    assert("png"@[2] == 'g');
    assert("jpg"@.len() == 3);
    assert("jpg"@[0] == 'j');
    assert("jpg"@[1] == 'p');
    assert("jpg"@[2] == 'g');
    assert("jpeg"@.len() == 4);
    assert("jpeg"@[0] == 'j');
    assert("jpeg"@[1] == 'p');
    assert("jpeg"@[2] == 'e');
    assert("jpeg"@[3] == 'g');
    assert("gif"@.len() == 3);
    assert("gif"@[0] == 'g');
    assert("gif"@[1] == 'i');
    assert("gif"@[2] == 'f');
    assert("svg"@.len() == 3);
    assert("svg"@[0] == 's');
    assert("svg"@[1] == 'v');
    assert("svg"@[2] == 'g');
    assert("ico"@.len() == 3);
    assert("ico"@[0] == 'i');
    assert("ico"@[1] == 'c');
    assert("ico"@[2] == 'o');
    assert("txt"@.len() == 3);
    assert("txt"@[0] == 't');
    assert("txt"@[1] == 'x');
    assert("txt"@[2] == 't');
    assert("md"@.len() == 2);
    assert("md"@[0] == 'm');
    assert("md"@[1] == 'd');
    assert("pdf"@.len() == 3);
    assert("pdf"@[0] == 'p');
    assert("pdf"@[1] == 'd');
    assert("pdf"@[2] == 'f');
    assert("zip"@.len() == 3);
    assert("zip"@[0] == 'z');
    assert("zip"@[1] == 'i');
    assert("zip"@[2] == 'p');
    assert("wasm"@.len() == 4);
    assert("wasm"@[0] == 'w');
    assert("wasm"@[1] == 'a');
    assert("wasm"@[2] == 's');
    assert("wasm"@[3] == 'm');
    assert("mp3"@.len() == 3);
    assert("mp3"@[0] == 'm');
    assert("mp3"@[1] == 'p');
    assert("mp3"@[2] == '3');
    assert("mp4"@.len() == 3);
    assert("mp4"@[0] == 'm');
    assert("mp4"@[1] == 'p');
    assert("mp4"@[2] == '4');
    assert("webp"@.len() == 4);
    assert("webp"@[0] == 'w');
    assert("webp"@[1] == 'e');
    assert("webp"@[2] == 'b');
    assert("webp"@[3] == 'p');
    assert("webm"@.len() == 4);
    assert("webm"@[0] == 'w');
    assert("webm"@[1] == 'e');
    assert("webm"@[2] == 'b');
    assert("webm"@[3] == 'm');
}

proof fn lemma_split_at(front: Seq<char>, mark: Seq<char>, back: Seq<char>)
    requires
        mark.len() == 1,
        !search::has_text(front, mark),
    ensures
        search::find_text(front + mark + back, mark) == Some(front.len() as int),
        search::find_text(front, mark) is None,
{
    let s = front + mark + back;
    let k = front.len() as int;
    assert(s.subrange(k, k + 1) =~= mark);
    assert(search::occurs_at(s, mark, k));
    search::lemma_find_iff_has(s, mark);
    search::lemma_find_iff_has(front, mark);
    search::lemma_find_from(s, mark, 0);
    let i = search::find_text(s, mark)->0;
    if i < k {
        assert(front.subrange(i, i + 1) =~= s.subrange(i, i + 1));
        assert(search::occurs_at(front, mark, i));
    }
}

proof fn lemma_no_slash(n: nat)
    ensures
        !search::has_text(number::dec(n), "/"@),
{
    reveal_strlit("/");
    number::lemma_dec_digits(n);
    assert forall|i: int| !search::occurs_at(number::dec(n), "/"@, i) by {
        if search::occurs_at(number::dec(n), "/"@, i) {
            assert(number::dec(n).subrange(i, i + 1)[0] == "/"@[0]);
            assert(number::is_digit(number::dec(n)[i]));
        }
    }
}

/// A proxied path leads to the port that it names and to the whole path behind it, and
/// ports below 1024 are not led to.
pub proof fn law_proxied_paths_lead_to_their_port(port: u16, rest: Seq<char>)
    ensures
        ({
            let target = http_protocol::proxy_target(number::dec(port as nat) + "/"@ + rest);
            &&& port >= 1024 ==> target == Some((port, "/"@ + rest))
            &&& port < 1024 ==> target is None
        }),
        port >= 1024 ==> http_protocol::proxy_target(number::dec(port as nat)) == Some(
            (port, "/"@),
        ),
{
    reveal_strlit("/");
    let d = number::dec(port as nat);
    lemma_no_slash(port as nat);
    lemma_split_at(d, "/"@, rest);
    let s = d + "/"@ + rest;
    assert(s.take(d.len() as int) =~= d);
    assert(s.skip(d.len() as int) =~= "/"@ + rest);
    number::law_parse_of_decimal(port as u64);
}

/// What is asked of the proxy is asked of the service at its port: at the same path,
/// with the same question, by the same method where it is a usual one.
pub proof fn law_the_proxy_asks_the_same(
    path: &str,
    query: Option<&str>,
    method: &str,
    headers: Vec<Header>,
    port: u16,
    rest: Seq<char>,
    r: Result<ProxyPlan, ApiError>,
)
    requires
        call_ensures(handle_proxy, (path, query, method, &headers), r),
        path@ == "/proxy/"@ + (number::dec(port as nat) + "/"@ + rest),
        port >= 1024,
    ensures
        match r {
            Ok(p) => {
                let there = "http://localhost:"@ + number::dec(port as nat) + ("/"@ + rest);
                &&& query is None ==> p.url@ == there
                &&& query is Some ==> p.url@ == there.push('?') + query->0@
                &&& p.headers@ == headers@.filter(|h: Header| !is_of_the_connection(h.name@))
                &&& method@ == "POST"@ ==> p.method@ == "POST"@
                &&& method@ == "DELETE"@ ==> p.method@ == "DELETE"@
                &&& method@ == "PUT"@ ==> p.method@ == "PUT"@
            },
            Err(_) => false,
        },
{
    law_proxied_paths_lead_to_their_port(port, rest);
    law_headers_are_handed_on(headers@, headers@.len() as int);
    assert(headers@.take(headers@.len() as int) =~= headers@);
    let back = number::dec(port as nat) + "/"@ + rest;
    assert(path@.skip("/proxy/"@.len() as int) =~= back);
    assert(path@.subrange(0, "/proxy/"@.len() as int) =~= "/proxy/"@);
}

/// The pages that ask for the password, that set the engine up and that everyone may see
/// are open; nothing else is.
pub proof fn law_few_paths_are_open(p: Seq<char>)
    ensures
        auth::is_open(p) <==> p == "/login"@ || p == "/login.html"@ || p == "/setup.html"@ || p
            == "/api/setup"@ || p == "/api/frontend-error"@ || p == "/error-reporter.js"@ || p
            == "/api/hub/ws"@ || search::has_prefix(p, "/public/"@),
{
}

/// Before the engine is set up, who asks for anything that is not open is sent to set it
/// up; what is open is let in at all times.
pub proof fn law_setting_up_comes_first(q: AuthRequest<'_>)
    ensures
        auth::is_open(q.path@) ==> auth::decided(q) == AuthDecision::Pass,
        q.skip_auth ==> auth::decided(q) == AuthDecision::Pass,
        !q.skip_auth && !auth::is_open(q.path@) && !q.setup_completed ==> auth::decided(q)
            == AuthDecision::Setup,
        q.setup_completed && (q.default_secret || q.loopback) ==> auth::decided(q)
            == AuthDecision::Pass,
        auth::decided(q) == AuthDecision::Setup ==> !q.setup_completed,
{
}

/// Who gives the right password gets a cookie by which they are let in from then on; who
/// gives a wrong one gets none.
pub proof fn law_the_password_opens_the_door(
    password: &str,
    secret: &str,
    name: &str,
    token: &str,
    r: LoginAnswer,
    q: AuthRequest<'_>,
)
    requires
        call_ensures(handle_login_post, (password, secret, name, token), r),
        !search::has_text(name@, ";"@),
        !search::has_text(token@, ";"@),
        name@.len() > 0 ==> !space::is_space(name@[0]),
        token@.len() > 0 ==> !space::is_space(token@.last()),
        q.cookie_name@ == name@,
        q.session_token@ == token@,
        q.setup_completed,
    ensures
        r.set_cookie is Some <==> space::trimmed(password@) == secret@,
        r.set_cookie is Some && q.cookies is Some && q.cookies->0@ == r.set_cookie->0@
            ==> auth::decided(q) == AuthDecision::Pass,
        r.set_cookie is None ==> search::has_text(r.location@, "error"@),
{
    http_protocol::law_sessions_are_recognised(name@, token@);
    reveal_strlit("/login?error=1");
    reveal_strlit("error");
    assert("/login?error=1"@.subrange(7, 12) =~= "error"@);
    assert(search::occurs_at("/login?error=1"@, "error"@, 7));
}

/// Who leaves has their cookie emptied at once.
pub proof fn law_leaving_empties_the_cookie(name: &str, r: LoginAnswer)
    requires
        call_ensures(handle_logout, (name,), r),
    ensures
        r.set_cookie is Some,
        search::has_prefix(r.set_cookie->0@, name@ + "=;"@),
        search::has_suffix(r.set_cookie->0@, "Max-Age=0"@),
{
    reveal_strlit("=; Path=/; HttpOnly; Max-Age=0");
    reveal_strlit("=;");
    reveal_strlit("Max-Age=0");
    let c = r.set_cookie->0@;
    let end = "=; Path=/; HttpOnly; Max-Age=0"@;
    assert(end.len() == 30);
    assert(c.subrange(0, (name@.len() + 2) as int) =~= name@ + "=;"@);
    assert(c.subrange(c.len() - 9, c.len() as int) =~= "Max-Age=0"@);
}

/// Of a long key only the first four and the last four characters are shown.
pub proof fn law_keys_are_hidden(key: Seq<char>)
    requires
        vstd::utf8::is_ascii_chars(key),
    ensures
        key.len() > 8 ==> http_protocol::masked(key) == key.subrange(0, 4) + "..."@ + key.subrange(
            key.len() - 4,
            key.len() as int,
        ),
        key.len() <= 8 ==> http_protocol::masked(key) == key,
{
    bytes::lemma_ascii_bytes(key);
    if key.len() > 8 {
        bytes::lemma_ascii_at_byte(key, 4, 0);
        bytes::lemma_ascii_at_byte(key, key.len() - 4, 0);
        assert(key.take(4) =~= key.subrange(0, 4));
        assert(key.skip(key.len() - 4) =~= key.subrange(key.len() - 4, key.len() as int));
    }
}

/// A path of an instance concerns that instance, whatever follows.
pub proof fn law_paths_concern_their_instance(id: Seq<char>, rest: Seq<char>)
    requires
        id.len() > 0,
        !search::has_text(id, "/"@),
    ensures
        routes::instance_in_path("/api/instances/"@ + (id + "/"@ + rest)) == Some(id),
        routes::instance_in_path("/api/instances/"@ + id) == Some(id),
        routes::instance_in_path("/serve/"@ + (id + "/"@ + rest)) == Some(id),
        routes::instance_in_path("/public/"@ + (id + "/"@ + rest)) == Some(id),
{
    reveal_strlit("/");
    reveal_strlit("/api/instances/");
    reveal_strlit("/serve/");
    reveal_strlit("/public/");
    let back = id + "/"@ + rest;
    lemma_split_at(id, "/"@, rest);
    assert(back.take(id.len() as int) =~= id);
    lemma_behind("/api/instances/"@, back);
    lemma_behind("/api/instances/"@, id);
    lemma_behind("/serve/"@, back);
    lemma_behind("/public/"@, back);
    assert("/api/instances/"@[1] == 'a');
    assert("/serve/"@[1] == 's');
    assert("/public/"@[1] == 'p');
    lemma_starts_otherwise("/serve/"@ + back, "/api/instances/"@);
    lemma_starts_otherwise("/public/"@ + back, "/api/instances/"@);
    lemma_starts_otherwise("/public/"@ + back, "/serve/"@);
}

proof fn lemma_behind(front: Seq<char>, back: Seq<char>)
    ensures
        search::has_prefix(front + back, front),
        (front + back).skip(front.len() as int) == back,
{
    assert((front + back).subrange(0, front.len() as int) =~= front);
    assert((front + back).skip(front.len() as int) =~= back);
}

proof fn lemma_starts_otherwise(s: Seq<char>, prefix: Seq<char>)
    requires
        prefix.len() > 1,
        s.len() > 1,
        s[1] != prefix[1],
    ensures
        !search::has_prefix(s, prefix),
{
    if search::has_prefix(s, prefix) {
        assert(s.subrange(0, prefix.len() as int)[1] == s[1]);
    }
}

/// A page is as long as it is asked to be, within its bounds.
pub proof fn law_pages_stay_within_bounds(n: i64, min: i64, max: i64)
    requires
        min <= max,
    ensures
        min <= state::clamped(n, min, max) <= max,
        min <= n <= max ==> state::clamped(n, min, max) == n,
        n < min ==> state::clamped(n, min, max) == min,
        n > max ==> state::clamped(n, min, max) == max,
{
}

/// Of too many messages the first ones are shown, in their order.
pub proof fn law_pages_start_at_the_front(ms: Seq<Message>, limit: i64, i: int)
    requires
        0 <= limit,
        0 <= i < ms.len(),
    ensures
        i < limit ==> i < state::limited(ms, limit).len() && state::limited(ms, limit)[i] == ms[i],
        state::limited(ms, limit).len() <= limit,
{
}

/// What lies in a directory lies below it, and not merely beside it under a longer name.
pub proof fn law_only_what_is_below_lies_in(dir: Seq<char>, name: Seq<char>)
    requires
        dir.len() > 0,
        dir.last() != '/',
    ensures
        state::lies_in(dir, dir),
        state::lies_in(dir.push('/') + name, dir),
        name.len() > 0 && name[0] != '/' ==> !state::lies_in(dir + name, dir),
{
    reveal_strlit("/");
    let below = path::joined_path(dir, Seq::empty());
    assert(dir.subrange(dir.len() - 1, dir.len() as int)[0] == dir.last());
    assert("/"@[0] == '/');
    assert(below =~= dir.push('/'));
    let s = dir.push('/') + name;
    assert(s.subrange(0, below.len() as int) =~= below);
    let t = dir + name;
    if name.len() > 0 && name[0] != '/' {
        assert(t.len() > dir.len());
        if search::has_prefix(t, below) {
            assert(t.subrange(0, below.len() as int)[dir.len() as int] == t[dir.len() as int]);
            assert(t[dir.len() as int] == name[0]);
        }
    }
}

/// The engine of another machine is taken in only with the token that was given out.
pub proof fn law_only_the_token_lets_engines_in(
    join_token: Option<&str>,
    token: Option<String>,
    engine_id: Option<String>,
    r: Result<String, ApiError>,
)
    requires
        call_ensures(handle_hub_ws, (join_token, token, engine_id), r),
    ensures
        token is Some && join_token is Some ==> (r is Ok <==> token->0@ == join_token->0@),
        join_token is None ==> r is Err,
        r is Ok && engine_id is Some ==> r->Ok_0@ == engine_id->0@,
        r is Err ==> r->Err_0.status == 400 || r->Err_0.status == 401,
{
}

/// The address of a host is taken as it is given, with a scheme in front where it has
/// none.
pub proof fn law_hosts_are_addressed(host: Seq<char>, port: nat)
    ensures
        search::has_suffix(routes::host_address(Some(host), port), host),
        search::has_prefix(host, "http://"@) || search::has_prefix(host, "https://"@)
            ==> routes::host_address(Some(host), port) == host,
        search::has_prefix(routes::host_address(Some(host), port), "http"@),
        search::has_suffix(routes::host_address(None, port), number::dec(port)),
{
    reveal_strlit("http://");
    reveal_strlit("https://");
    reveal_strlit("http");
    let a = routes::host_address(Some(host), port);
    assert(a.subrange(a.len() - host.len(), a.len() as int) =~= host);
    let b = routes::host_address(None, port);
    let d = number::dec(port);
    assert(b.subrange(b.len() - d.len(), b.len() as int) =~= d);
    if search::has_prefix(a, "https://"@) {
        assert(a.subrange(0, 4) =~= a.subrange(0, 8).subrange(0, 4));
        assert(a.subrange(0, 4) =~= "http"@);
    } else {
        assert(a.subrange(0, 7) =~= "http://"@);
        assert(a.subrange(0, 4) =~= a.subrange(0, 7).subrange(0, 4));
        assert(a.subrange(0, 4) =~= "http"@);
    }
}

/// The first page is shown where none is asked for, and else the page that is.
pub proof fn law_pages_are_shown_by_name(name: Seq<char>)
    requires
        name.len() > 0,
        name[0] != '/',
        name != "index"@,
    ensures
        routes::page_of("/"@ + name) == name,
        routes::page_of("/"@) == "index.html"@,
        routes::page_of("/index"@) == "index.html"@,
{
    reveal_strlit("/");
    reveal_strlit("/index");
    reveal_strlit("index");
    let p = "/"@ + name;
    assert(p.skip(1) =~= name);
    assert(routes::without_slashes(p) == routes::without_slashes(name));
    assert("/"@.skip(1) =~= Seq::empty());
    assert(routes::without_slashes("/"@) == routes::without_slashes("/"@.skip(1)));
    assert("/index"@.skip(1) =~= "index"@);
    assert("index"@[0] == 'i');
    assert("/index"@[0] == '/');
    assert(routes::without_slashes("index"@) == "index"@);
    assert(routes::without_slashes("/index"@) == routes::without_slashes("index"@));
}

/// A name for an upload is free, and the name that was asked for wherever that is free.
pub proof fn law_uploads_get_free_names(taken: Vec<String>, name: &str, r: String)
    requires
        taken@.len() < u32::MAX,
        call_ensures(free_upload_name, (&taken, name), r),
    ensures
        forall|i: int| 0 <= i < taken@.len() ==> (#[trigger] taken@[i])@ != r@,
        (forall|i: int| 0 <= i < taken@.len() ==> (#[trigger] taken@[i])@ != name@) ==> r@ == name@,
{
    let all = search::views(taken@);
    let k = choose|k: nat| #[trigger]
        routes::is_first_free(k, all, name@) && r@ == routes::upload_candidate(name@, k);
    assert forall|i: int| 0 <= i < taken@.len() implies (#[trigger] taken@[i])@ != r@ by {
        assert(all[i] == taken@[i]@);
    }
    if forall|i: int| 0 <= i < taken@.len() ==> (#[trigger] taken@[i])@ != name@ {
        if k > 0 {
            assert(all.contains(routes::upload_candidate(name@, 0)));
            let i = choose|i: int| 0 <= i < all.len() && all[i] == name@;
            assert(taken@[i]@ == name@);
        }
    }
}

/// A further name for an upload keeps the extension and what stands before it.
pub proof fn law_further_names_keep_the_extension(
    stem: Seq<char>,
    ext: Seq<char>,
    tries: nat,
)
    requires
        tries > 0,
        !search::has_text(ext, "."@),
    ensures
        routes::upload_candidate(stem + "."@ + ext, tries) == stem + "_"@ + number::dec(tries) + (
        "."@ + ext),
        routes::upload_candidate(stem + "."@ + ext, 0) == stem + "."@ + ext,
{
    reveal_strlit(".");
    let s = stem + "."@ + ext;
    let k = stem.len() as int;
    assert(s.subrange(k, k + 1) =~= "."@);
    assert(search::occurs_at(s, "."@, k));
    assert(s.skip(k + 1) =~= ext);
    crate::external::laws::lemma_last_dot(s, k, ext, s.len() - 1);
    assert(s.take(k) =~= stem);
    assert(s.skip(k) =~= "."@ + ext);
}

/// What follows a message is shown from the next one on, and what precedes one up to the
/// one before it, each with its whole text, never more than a page.
pub proof fn law_pages_show_the_messages(
    chat: ChatHistory,
    before: Option<i64>,
    after: Option<i64>,
    limit: i64,
    min: i64,
    max: i64,
    r: MessagesResult,
    i: int,
)
    requires
        chat.wf(),
        chat.messages@.len() <= i64::MAX,
        0 <= min <= max,
        call_ensures(get_messages, (&chat, before, after, limit, min, max), r),
        0 <= i < r.messages@.len(),
    ensures
        r.messages@.len() <= max,
        exists|k: int|
            0 <= k < chat.messages@.len() && (#[trigger] chat.messages@[k]).id == r.messages@[i].id
                && chat.messages@[k].content@ == r.messages@[i].content@
                && chat.messages@[k].role@ == r.messages@[i].role@
                && chat.messages@[k].timestamp@ == r.messages@[i].timestamp@,
        after is Some ==> r.messages@[i].id > after->0,
        after is None && before is Some && before->0 > 0 ==> r.messages@[i].id < before->0,
{
    let n = state::clamped(limit, min, max);
    let all = chat.messages@;
    match after {
        Some(a) => {
            let f = |m: Message| m.id > a;
            let picked = chat::all_picked(all, f);
            let shown = state::limited(picked, n);
            assert(shown[i] == picked[i]);
            lemma_picked_from(all, all.len() as int, f, i);
            let k = choose|k: int|
                0 <= k < all.len() && (#[trigger] all[k]) == picked[i] && f(all[k]);
            assert(all[k].id == r.messages@[i].id);
        },
        None => {
            let b = match before {
                Some(b) => b,
                None => 0,
            };
            let f = |m: Message| m.id < b;
            let picked = if b <= 0 {
                all
            } else {
                chat::all_picked(all, f)
            };
            let shown = chat::last_of(picked, n as int);
            let j = picked.len() - shown.len() + i;
            assert(shown[i] == picked[j]);
            if b > 0 {
                lemma_picked_from(all, all.len() as int, f, j);
                let k = choose|k: int|
                    0 <= k < all.len() && (#[trigger] all[k]) == picked[j] && f(all[k]);
                assert(all[k].id == r.messages@[i].id);
            } else {
                assert(all[j].id == r.messages@[i].id);
            }
        },
    }
}

proof fn lemma_picked_from(all: Seq<Message>, n: int, f: spec_fn(Message) -> bool, j: int)
    requires
        0 <= n <= all.len(),
        0 <= j < chat::picked(all, n, f).len(),
    ensures
        exists|k: int|
            0 <= k < n && (#[trigger] all[k]) == chat::picked(all, n, f)[j] && f(all[k]),
    decreases n,
{
    let before = chat::picked(all, n - 1, f);
    let now = chat::picked(all, n, f);
    if j < before.len() {
        lemma_picked_from(all, n - 1, f, j);
        let k = choose|k: int| 0 <= k < n - 1 && (#[trigger] all[k]) == before[j] && f(all[k]);
        assert(all[k] == now[j]);
    } else {
        assert(all[n - 1] == now[j] && f(all[n - 1]));
    }
}

/// Of a directory everything is listed that is not hidden.
pub proof fn law_all_but_hidden_files_are_listed(es: Seq<DirEntry>, n: int)
    requires
        0 <= n <= es.len(),
    ensures
        state::visible(es, n) == es.take(n).filter(|e: DirEntry| !e.hidden),
    decreases n,
{
    reveal(Seq::filter);
    if n > 0 {
        law_all_but_hidden_files_are_listed(es, n - 1);
        assert(es.take(n).drop_last() =~= es.take(n - 1));
    }
}

/// Directories come before files, and within each the names are in order.
pub proof fn law_directories_come_first(a: FileInfo, b: FileInfo)
    ensures
        a.is_dir && !b.is_dir ==> state::file_before(state::file_key(a), state::file_key(b)),
        !a.is_dir && b.is_dir ==> !state::file_before(state::file_key(a), state::file_key(b)),
        a.is_dir == b.is_dir ==> (state::file_before(state::file_key(a), state::file_key(b))
            <==> order::comes_before(
            case::lowercase_text(a.name@),
            case::lowercase_text(b.name@),
        )),
{
}

/// Nothing outside of the workspace is removed, nor the workspace itself.
pub proof fn law_only_what_is_inside_is_removed(
    path: &str,
    target: &str,
    workspace: &str,
    is_dir: bool,
    r: Result<DeleteDecision, String>,
)
    requires
        call_ensures(decide_delete, (path, target, workspace, is_dir), r),
    ensures
        r is Ok ==> state::lies_in(target@, workspace@) && target@ != workspace@,
        r is Ok ==> (r->Ok_0 is Directory <==> is_dir),
        path@.len() > 0 && state::lies_in(target@, workspace@) && target@ != workspace@ ==> r is Ok,
{
}

/// Where the answer of a proxied service leads to its own root, it leads back through the
/// proxy; other headers come back as they are, but for those of the connection.
pub proof fn law_answers_lead_back(name: Seq<char>, value: Seq<char>, lower: Seq<char>, prefix: Seq<char>)
    ensures
        name == "location"@ && search::has_prefix(value, "/"@) && !search::has_prefix(value, prefix)
            ==> http_protocol::proxied_header(name, value, lower, prefix) == Some(
            Some(prefix + value),
        ),
        name == "location"@ && !search::has_prefix(value, "/"@) ==> http_protocol::proxied_header(
            name,
            value,
            lower,
            prefix,
        ) == Some(Some(value)),
        name != "location"@ && name != "set-cookie"@ && !is_of_the_connection(name)
            ==> http_protocol::proxied_header(name, value, lower, prefix) == Some(Some(value)),
        name == "connection"@ || name == "keep-alive"@ || name == "transfer-encoding"@ || name
            == "te"@ || name == "trailer"@ ==> http_protocol::proxied_header(
            name,
            value,
            lower,
            prefix,
        ) == Some(None::<Seq<char>>),
{
    reveal_strlit("location");
    reveal_strlit("set-cookie");
    reveal_strlit("connection");
    reveal_strlit("keep-alive");
    reveal_strlit("transfer-encoding");
    reveal_strlit("te");
    reveal_strlit("trailer");
    assert("location"@.len() == 8);
    assert("set-cookie"@.len() == 10 && "set-cookie"@[0] == 's');
    assert("connection"@.len() == 10 && "connection"@[0] == 'c');
    assert("keep-alive"@.len() == 10 && "keep-alive"@[0] == 'k');
    assert("transfer-encoding"@.len() == 17);
    assert("te"@.len() == 2);
    assert("trailer"@.len() == 7);
}

/// An instance is shown under its name, or under its identifier where it has none, with
/// its colour and its avatar.
pub proof fn law_instances_are_shown_by_name(
    id: &str,
    s: Settings,
    last_active: Option<i64>,
    r: InstanceInfo,
)
    requires
        call_ensures(build_instance_info, (id, Some(&s), last_active), r),
    ensures
        r.id@ == id@,
        s.name is Some && s.name->0@.len() > 0 ==> r.name@ == s.name->0@,
        s.name is None ==> r.name@ == id@,
        s.color is Some ==> r.color@ == s.color->0@,
        s.avatar is Some ==> r.avatar@ == s.avatar->0@,
{
}

/// The path of a cookie is put behind the prefix, and nothing else of the cookie is
/// touched.
pub proof fn law_cookie_paths_are_put_behind_the_prefix(
    cookie: Seq<char>,
    prefix: Seq<char>,
    i: int,
)
    requires
        search::find_text(case::ascii_lowered(cookie), "path=/"@) == Some(i),
        !search::has_prefix(cookie.skip(i + 5), prefix),
    ensures
        http_protocol::moved_cookie(cookie, prefix) == cookie.take(i + 5) + prefix + cookie.skip(
            i + 5,
        ),
{
    reveal_strlit("path=/");
    let lower = case::ascii_lowered(cookie);
    search::lemma_find_from(lower, "path=/"@, 0);
    assert(lower.len() == cookie.len());
    let start = i + 5;
    search::lemma_find_from(cookie, ";"@, start);
    let end = match search::find_from(cookie, ";"@, start) {
        Some(e) => e,
        None => cookie.len() as int,
    };
    let path = cookie.subrange(start, end);
    if search::has_prefix(path, prefix) {
        assert(cookie.skip(start).subrange(0, prefix.len() as int) =~= path.subrange(
            0,
            prefix.len() as int,
        ));
    }
    assert(cookie.take(start) + (prefix + path) + cookie.skip(end) =~= cookie.take(start) + prefix
        + cookie.skip(start));
}

/// A cookie without a path stays as it is.
pub proof fn law_cookies_without_a_path_stay(cookie: Seq<char>, prefix: Seq<char>)
    requires
        !search::has_text(case::ascii_lowered(cookie), "path=/"@),
    ensures
        http_protocol::moved_cookie(cookie, prefix) == cookie,
{
    search::lemma_find_iff_has(case::ascii_lowered(cookie), "path=/"@);
}

} // verus!
