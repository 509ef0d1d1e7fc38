//! The rules of HTTP that the engine keeps: media types, headers that are passed
//! on, paths behind the proxy, and session cookies.
use vstd::prelude::*;

use crate::text::bytes;
use crate::text::bytes::{byte_len, find_byte, width};
use crate::text::case;
use crate::text::case::to_lower;
use crate::text::chars::{same_text, slice_text, to_chars};
use crate::text::number;
use crate::text::number::{parse_u16, push_dec};
use crate::text::search;
use crate::text::search::{find_chars, split, starts_with, strip_prefix};
use crate::text::space;
use crate::text::space::trim;

verus! {

/// The media type that files with an extension have.
pub open spec fn content_type(ext: Seq<char>) -> Seq<char> {
    if ext == "html"@ || ext == "htm"@ {
        "text/html; charset=utf-8"@
    } else if ext == "css"@ {
        "text/css; charset=utf-8"@
    } else if ext == "js"@ {
        "application/javascript; charset=utf-8"@
    } else if ext == "json"@ {
        "application/json; charset=utf-8"@
    } else if ext == "png"@ {
        "image/png"@
    } else if ext == "jpg"@ || ext == "jpeg"@ {
        "image/jpeg"@
    } else if ext == "gif"@ {
        "image/gif"@
    } else if ext == "svg"@ {
        "image/svg+xml"@
    } else if ext == "ico"@ {
        "image/x-icon"@
    } else if ext == "txt"@ || ext == "md"@ {
        "text/plain; charset=utf-8"@
    } else if ext == "pdf"@ {
        "application/pdf"@
    } else if ext == "zip"@ {
        "application/zip"@
    } else if ext == "wasm"@ {
        "application/wasm"@
    } else if ext == "mp3"@ {
        "audio/mpeg"@
    } else if ext == "mp4"@ {
        "video/mp4"@
    } else if ext == "webp"@ {
        "image/webp"@
    } else if ext == "webm"@ {
        "video/webm"@
    } else {
        "application/octet-stream"@
    }
}

/// The media type that files with an extension have.
pub fn content_type_for_extension(ext: &str) -> (r: &'static str)
    ensures
        r@ == content_type(ext@),
{
    if same_text(ext, "html") || same_text(ext, "htm") {
        "text/html; charset=utf-8"
    } else if same_text(ext, "css") {
        "text/css; charset=utf-8"
    } else if same_text(ext, "js") {
        "application/javascript; charset=utf-8"
    } else if same_text(ext, "json") {
        "application/json; charset=utf-8"
    } else if same_text(ext, "png") {
        "image/png"
    } else if same_text(ext, "jpg") || same_text(ext, "jpeg") {
        "image/jpeg"
    } else if same_text(ext, "gif") {
        "image/gif"
    } else if same_text(ext, "svg") {
        "image/svg+xml"
    } else if same_text(ext, "ico") {
        "image/x-icon"
    } else if same_text(ext, "txt") || same_text(ext, "md") {
        "text/plain; charset=utf-8"
    } else if same_text(ext, "pdf") {
        "application/pdf"
    } else if same_text(ext, "zip") {
        "application/zip"
    } else if same_text(ext, "wasm") {
        "application/wasm"
    } else if same_text(ext, "mp3") {
        "audio/mpeg"
    } else if same_text(ext, "mp4") {
        "video/mp4"
    } else if same_text(ext, "webp") {
        "image/webp"
    } else if same_text(ext, "webm") {
        "video/webm"
    } else {
        "application/octet-stream"
    }
}

/// Headers of a response that concern one connection only.
pub open spec fn response_hop(name: Seq<char>) -> bool {
    name == "connection"@ || name == "keep-alive"@ || name == "transfer-encoding"@ || name == "te"@
        || name == "trailer"@
}

/// Headers of a request that concern one connection only.
pub open spec fn request_hop(name: Seq<char>) -> bool {
    response_hop(name) || name == "host"@ || name == "upgrade"@
}

/// Whether a header of a request is not passed on.
pub fn is_hop_by_hop_header(name: &str) -> (r: bool)
    ensures
        r == request_hop(name@),
{
    is_response_hop_by_hop(name) || same_text(name, "host") || same_text(name, "upgrade")
}

/// Whether a header of a response is not passed on.
pub fn is_response_hop_by_hop(name: &str) -> (r: bool)
    ensures
        r == response_hop(name@),
{
    same_text(name, "connection") || same_text(name, "keep-alive") || same_text(
        name,
        "transfer-encoding",
    ) || same_text(name, "te") || same_text(name, "trailer")
}

/// The method that a request is passed on with.
pub open spec fn passed_method(method: Seq<char>) -> Seq<char> {
    if method == "POST"@ || method == "PUT"@ || method == "DELETE"@ || method == "PATCH"@ || method
        == "HEAD"@ || method == "OPTIONS"@ {
        method
    } else {
        "GET"@
    }
}

/// The method that a request is passed on with: an unknown one becomes `GET`.
pub fn to_reqwest_method(method: &str) -> (r: &'static str)
    ensures
        r@ == passed_method(method@),
{
    if same_text(method, "POST") {
        "POST"
    } else if same_text(method, "PUT") {
        "PUT"
    } else if same_text(method, "DELETE") {
        "DELETE"
    } else if same_text(method, "PATCH") {
        "PATCH"
    } else if same_text(method, "HEAD") {
        "HEAD"
    } else if same_text(method, "OPTIONS") {
        "OPTIONS"
    } else {
        "GET"
    }
}

/// A header.
#[derive(Debug)]
pub struct Header {
    pub name: String,
    pub value: String,
}

impl Clone for Header {
    fn clone(&self) -> (r: Self)
        ensures
            r == *self,
    {
        Header { name: self.name.clone(), value: self.value.clone() }
    }
}

/// The headers among the first `n` that are passed on.
pub open spec fn passed_on(hs: Seq<Header>, n: int) -> Seq<Header>
    decreases n,
{
    if n <= 0 || n > hs.len() {
        Seq::empty()
    } else if request_hop(hs[n - 1].name@) {
        passed_on(hs, n - 1)
    } else {
        passed_on(hs, n - 1).push(hs[n - 1])
    }
}

/// The headers of a request that are passed on.
pub fn forward_request_headers(headers: &Vec<Header>) -> (r: Vec<Header>)
    ensures
        r@ == passed_on(headers@, headers@.len() as int),
{
    let mut out: Vec<Header> = Vec::new();
    let mut i: usize = 0;
    while i < headers.len()
        invariant
            i <= headers@.len(),
            out@ == passed_on(headers@, i as int),
        decreases headers@.len() - i,
    {
        if !is_hop_by_hop_header(headers[i].name.as_str()) {
            out.push(headers[i].clone());
        }
        i = i + 1;
    }
    out
}

pub const PROXY_PATH_PREFIX: &'static str = "/proxy/";

/// The smallest port that the proxy leads to.
pub const PROXY_PORT_MIN: u16 = 1024;

/// What lies below this directory is open to everyone.
pub const PUBLIC_DIR_PREFIX: &'static str = "apps/";

/// A cookie whose path, from character `start` on, is put behind a prefix, unless
/// it is there already.
pub open spec fn with_path_behind(cookie: Seq<char>, start: int, prefix: Seq<char>) -> Seq<char> {
    let end = match search::find_from(cookie, ";"@, start) {
        Some(i) => i,
        None => cookie.len() as int,
    };
    let path = cookie.subrange(start, end);
    if search::has_prefix(path, prefix) {
        cookie
    } else {
        cookie.take(start) + (prefix + path) + cookie.skip(end)
    }
}

/// A cookie with its path put behind a prefix, where `lower` is the cookie in lower
/// case. The path stands behind the first `path=` that a slash follows; as many
/// bytes lead up to it in the cookie as in `lower`. Where no character of the
/// cookie starts there, there is none.
pub open spec fn rewritten_cookie(
    cookie: Seq<char>,
    lower: Seq<char>,
    prefix: Seq<char>,
) -> Option<Seq<char>> {
    match search::find_text(lower, "path=/"@) {
        Some(i) => match bytes::at_byte(cookie, bytes::text_bytes(lower.take(i)) as int + 5) {
            Some(start) => Some(with_path_behind(cookie, start, prefix)),
            None => None,
        },
        None => Some(cookie),
    }
}

fn bytes_of(v: &Vec<char>, n: usize) -> (r: Option<usize>)
    requires
        n <= v@.len(),
    ensures
        match r {
            Some(b) => b == bytes::text_bytes(v@.take(n as int)) && b <= usize::MAX - 5,
            None => bytes::text_bytes(v@.take(n as int)) > usize::MAX - 5,
        },
{
    let mut b: usize = 0;
    let mut i: usize = 0;
    assert(v@.take(0) =~= Seq::<char>::empty());
    while i < n
        invariant
            i <= n <= v@.len(),
            b == bytes::text_bytes(v@.take(i as int)),
            b <= usize::MAX - 5,
        decreases n - i,
    {
        let w: usize = width(v[i]);
        proof {
            assert(v@.take(i + 1) =~= v@.take(i as int).push(v@[i as int]));
            bytes::lemma_text_bytes_push(v@.take(i as int), v@[i as int]);
            bytes::lemma_text_bytes_take(v@, i + 1, n as int);
        }
        if b > usize::MAX - 5 - w {
            return None;
        }
        b = b + w;
        i = i + 1;
    }
    Some(b)
}

/// A cookie with its path put behind a prefix, where `lower` is the cookie in lower
/// case. There is none where `lower` is so different that the path cannot be
/// found again in the cookie.
pub fn rewrite_lowered(cookie: &str, lower: &str, prefix: &str) -> (r: Option<String>)
    ensures
        match r {
            Some(s) => rewritten_cookie(cookie@, lower@, prefix@) == Some(s@),
            None => rewritten_cookie(cookie@, lower@, prefix@) is None,
        },
{
    let c = to_chars(cookie);
    let l = to_chars(lower);
    let p = to_chars("path=/");
    let total: usize = byte_len(cookie);
    match find_chars(&l, &p, 0) {
        Some(i) => {
            let b = match bytes_of(&l, i) {
                Some(b) => b,
                None => {
                    proof {
                        assert(cookie@.skip(0) =~= cookie@);
                        lemma_no_char_that_far(
                            cookie@,
                            bytes::text_bytes(lower@.take(i as int)) as int + 5,
                            0,
                        );
                    }
                    return None;
                },
            };
            match find_byte(&c, b + 5) {
                Some(start) => {
                    let semi = to_chars(";");
                    let n: usize = c.len();
                    let end: usize = match find_chars(&c, &semi, start) {
                        Some(k) => k,
                        None => n,
                    };
                    let path = slice_text(&c, start, end);
                    if starts_with(path.as_str(), prefix) {
                        Some(cookie.to_string())
                    } else {
                        let mut s = slice_text(&c, 0, start);
                        assert(s@ =~= cookie@.take(start as int));
                        let ghost head = s@;
                        s.push_str(prefix);
                        s.push_str(path.as_str());
                        let rest = slice_text(&c, end, n);
                        assert(rest@ =~= cookie@.skip(end as int));
                        s.push_str(rest.as_str());
                        assert(s@ =~= head + (prefix@ + path@) + rest@);
                        Some(s)
                    }
                },
                None => None,
            }
        },
        None => Some(cookie.to_string()),
    }
}

/// No character starts behind the last byte.
proof fn lemma_no_char_that_far(s: Seq<char>, n: int, k: int)
    requires
        0 <= k <= s.len(),
        n > bytes::text_bytes(s.skip(k)),
    ensures
        bytes::at_byte_from(s, n, k) is None,
    decreases s.len() - k,
{
    if k < s.len() {
        let a = s.subrange(k, k + 1);
        assert(s.skip(k) =~= a + s.skip(k + 1));
        bytes::lemma_text_bytes_concat(a, s.skip(k + 1));
        assert(a =~= Seq::<char>::empty().push(s[k]));
        bytes::lemma_text_bytes_push(Seq::empty(), s[k]);
        lemma_no_char_that_far(s, n - bytes::char_bytes(s[k]), k + 1);
    }
}

/// A cookie of ASCII characters with its path put behind a prefix: there is always
/// one.
pub open spec fn moved_cookie(cookie: Seq<char>, prefix: Seq<char>) -> Seq<char> {
    match search::find_text(case::ascii_lowered(cookie), "path=/"@) {
        Some(i) => with_path_behind(cookie, i + 5, prefix),
        None => cookie,
    }
}

proof fn lemma_ascii_cookie(cookie: Seq<char>, prefix: Seq<char>)
    requires
        vstd::utf8::is_ascii_chars(cookie),
    ensures
        rewritten_cookie(cookie, case::ascii_lowered(cookie), prefix) == Some(
            moved_cookie(cookie, prefix),
        ),
{
    reveal_strlit("path=/");
    let lower = case::ascii_lowered(cookie);
    search::lemma_find_from(lower, "path=/"@, 0);
    if let Some(i) = search::find_text(lower, "path=/"@) {
        let head = lower.take(i);
        assert(vstd::utf8::is_ascii_chars(head)) by {
            assert forall|k: int| 0 <= k < head.len() implies '\0' <= #[trigger] head[k]
                <= '\u{7f}' by {
                assert('\0' <= cookie[k] <= '\u{7f}');
                assert(head[k] == case::ascii_lower(cookie[k]));
            }
        }
        bytes::lemma_ascii_bytes(head);
        bytes::lemma_ascii_at_byte(cookie, i + 5, 0);
    }
}

/// A cookie with its path put behind the prefix of the proxy, unless it is there
/// already.
pub fn rewrite_cookie_path(cookie: &str, proxy_prefix: &str) -> (r: String)
    requires
        vstd::utf8::is_ascii_chars(cookie@) || rewritten_cookie(
            cookie@,
            case::lowercase_text(cookie@),
            proxy_prefix@,
        ) is Some,
    ensures
        rewritten_cookie(cookie@, case::lowercase_text(cookie@), proxy_prefix@) == Some(r@),
        vstd::utf8::is_ascii_chars(cookie@) ==> r@ == moved_cookie(cookie@, proxy_prefix@),
{
    let lower = to_lower(cookie);
    proof {
        if vstd::utf8::is_ascii_chars(cookie@) {
            lemma_ascii_cookie(cookie@, proxy_prefix@);
        }
    }
    match rewrite_lowered(cookie, lower.as_str(), proxy_prefix) {
        Some(s) => s,
        None => cookie.to_string(),
    }
}

/// A cookie with its path put behind the prefix of the proxy, or nothing where its
/// lower case is so different that the path cannot be found again.
pub fn try_rewrite_cookie_path(cookie: &str, proxy_prefix: &str) -> (r: Option<String>)
    ensures
        match r {
            Some(s) => rewritten_cookie(
                cookie@,
                case::lowercase_text(cookie@),
                proxy_prefix@,
            ) == Some(s@),
            None => rewritten_cookie(
                cookie@,
                case::lowercase_text(cookie@),
                proxy_prefix@,
            ) is None,
        },
        vstd::utf8::is_ascii_chars(cookie@) ==> (r matches Some(s) && s@ == moved_cookie(
            cookie@,
            proxy_prefix@,
        )),
{
    let lower = to_lower(cookie);
    proof {
        if vstd::utf8::is_ascii_chars(cookie@) {
            lemma_ascii_cookie(cookie@, proxy_prefix@);
        }
    }
    if rewrite_lowered(cookie, lower.as_str(), proxy_prefix).is_some() {
        Some(rewrite_cookie_path(cookie, proxy_prefix))
    } else {
        None
    }
}

/// A cookie whose path has been put behind the prefix of the proxy is not changed
/// when it passes again.
pub proof fn law_cookie_paths_are_moved_once(cookie: Seq<char>, prefix: Seq<char>)
    requires
        vstd::utf8::is_ascii_chars(cookie),
        vstd::utf8::is_ascii_chars(prefix),
        search::has_prefix(prefix, "/"@),
        !search::has_text(prefix, ";"@),
    ensures
        vstd::utf8::is_ascii_chars(moved_cookie(cookie, prefix)),
        moved_cookie(moved_cookie(cookie, prefix), prefix) == moved_cookie(cookie, prefix),
{
    reveal_strlit("path=/");
    reveal_strlit("/");
    reveal_strlit(";");
    let mark = "path=/"@;
    let lower = case::ascii_lowered(cookie);
    search::lemma_find_from(lower, mark, 0);
    if let Some(i) = search::find_text(lower, mark) {
        let start = i + 5;
        search::lemma_find_from(cookie, ";"@, start);
        let end = match search::find_from(cookie, ";"@, start) {
            Some(k) => k,
            None => cookie.len() as int,
        };
        let path = cookie.subrange(start, end);
        if !search::has_prefix(path, prefix) {
            let head = cookie.take(start);
            let moved = head + (prefix + path) + cookie.skip(end);
            assert(moved == moved_cookie(cookie, prefix));
            assert forall|k: int| 0 <= k < moved.len() implies '\0' <= #[trigger] moved[k]
                <= '\u{7f}' by {
                let p = prefix.len() as int;
                if k < start {
                    assert(moved[k] == cookie[k]);
                } else if k < start + p {
                    assert(moved[k] == prefix[k - start]);
                } else {
                    assert(moved[k] == cookie[k - p]);
                }
            }
            let again = case::ascii_lowered(moved);
            assert(prefix.subrange(0, 1)[0] == prefix[0]);
            assert(moved[start] == '/');
            assert forall|k: int| 0 <= k < start implies again[k] == lower[k] by {
                assert(moved[k] == cookie[k]);
            }
            assert(again.subrange(i, i + 6) =~= mark) by {
                assert forall|x: int| 0 <= x < 6 implies again[i + x] == mark[x] by {
                    assert(lower.subrange(i, i + 6)[x] == lower[i + x]);
                    if x == 5 {
                        assert(again[start] == case::ascii_lower(moved[start]));
                    }
                }
            }
            assert forall|j: int| 0 <= j < i implies !search::occurs_at(again, mark, j) by {
                if search::occurs_at(again, mark, j) {
                    assert(lower.subrange(j, j + 6) =~= again.subrange(j, j + 6));
                    assert(search::occurs_at(lower, mark, j));
                }
            }
            search::lemma_find_is_first(again, mark, i);
            search::lemma_find_from(moved, ";"@, start);
            let stop = match search::find_from(moved, ";"@, start) {
                Some(k) => k,
                None => moved.len() as int,
            };
            if stop < start + prefix.len() {
                assert(search::occurs_at(moved, ";"@, stop));
                assert(moved.subrange(stop, stop + 1)[0] == moved[stop]);
                assert(moved[stop] == prefix[stop - start]);
                assert(prefix.subrange(stop - start, stop - start + 1) =~= ";"@);
                assert(search::occurs_at(prefix, ";"@, stop - start));
            }
            let found = moved.subrange(start, stop);
            assert(found.subrange(0, prefix.len() as int) =~= prefix);
            assert(search::has_prefix(found, prefix));
        }
    }
}

pub const API_KEY_MASK_PREFIX_LEN: usize = 4;

pub const API_KEY_MASK_SUFFIX_LEN: usize = 4;

pub const API_KEY_MASK_MIN_LEN: usize = 8;

pub const API_KEY_FIELD_NAME: &'static str = "api_key";

/// The start and the end of a key, with dots for what is between them.
pub open spec fn masked(s: Seq<char>) -> Seq<char> {
    let n = bytes::text_bytes(s);
    if n > 8 {
        s.take(bytes::at_byte(s, 4)->0) + "..."@ + s.skip(bytes::at_byte(s, n - 4)->0)
    } else {
        s
    }
}

/// A key of which only the start and the end are shown, where it is long enough.
pub fn mask_api_key(s: &str) -> (r: String)
    requires
        bytes::text_bytes(s@) > 8 ==> bytes::at_byte(s@, 4) is Some && bytes::at_byte(
            s@,
            bytes::text_bytes(s@) - 4,
        ) is Some,
    ensures
        r@ == masked(s@),
{
    let total: usize = byte_len(s);
    if total > API_KEY_MASK_MIN_LEN {
        let v = to_chars(s);
        let n: usize = v.len();
        match (find_byte(&v, API_KEY_MASK_PREFIX_LEN), find_byte(
            &v,
            total - API_KEY_MASK_SUFFIX_LEN,
        )) {
            (Some(i), Some(j)) => {
                let mut out = slice_text(&v, 0, i);
                assert(out@ =~= s@.take(i as int));
                out.push_str("...");
                let tail = slice_text(&v, j, n);
                assert(tail@ =~= s@.skip(j as int));
                out.push_str(tail.as_str());
                out
            },
            _ => s.to_string(),
        }
    } else {
        s.to_string()
    }
}

/// So many messages are shown where nothing else is asked for.
pub const DEFAULT_MESSAGE_LIMIT: i64 = 50;

/// The port and the path that the rest of a proxied path names.
pub open spec fn proxy_target(rest: Seq<char>) -> Option<(u16, Seq<char>)> {
    let (port, path) = match search::find_text(rest, "/"@) {
        Some(i) => (rest.take(i), rest.skip(i)),
        None => (rest, "/"@),
    };
    match number::u16_of(port) {
        Some(p) => if p >= PROXY_PORT_MIN {
            Some((p, path))
        } else {
            None
        },
        None => None,
    }
}

/// The port and the path that the rest of a proxied path names; nothing where it is
/// no port that the proxy leads to.
pub fn parse_proxy_target(rest: &str) -> (r: Option<(u16, String)>)
    ensures
        match r {
            Some((p, path)) => proxy_target(rest@) == Some((p, path@)),
            None => proxy_target(rest@) is None,
        },
{
    let v = to_chars(rest);
    let slash = to_chars("/");
    let n: usize = v.len();
    let (port, path) = match find_chars(&v, &slash, 0) {
        Some(i) => {
            let a = slice_text(&v, 0, i);
            let b = slice_text(&v, i, n);
            assert(a@ =~= rest@.take(i as int));
            assert(b@ =~= rest@.skip(i as int));
            (a, b)
        },
        None => (rest.to_string(), "/".to_string()),
    };
    match parse_u16(port.as_str()) {
        Some(p) => if p >= PROXY_PORT_MIN {
            Some((p, path))
        } else {
            None
        },
        None => None,
    }
}

pub open spec fn str_view(s: Option<&str>) -> Option<Seq<char>> {
    match s {
        Some(t) => Some(t@),
        None => None,
    }
}

/// A path with a query behind it.
pub open spec fn with_query(url: Seq<char>, query: Option<Seq<char>>) -> Seq<char> {
    match query {
        Some(q) => url.push('?') + q,
        None => url,
    }
}

/// The address that a proxied request goes to.
pub fn build_proxy_url(port: u16, path: &str, query: Option<&str>) -> (r: String)
    ensures
        r@ == with_query(
            "http://localhost:"@ + number::dec(port as nat) + path@,
            str_view(query),
        ),
{
    let mut url = "http://localhost:".to_string();
    push_dec(&mut url, port as u64);
    url.push_str(path);
    if let Some(q) = query {
        url.push('?');
        url.push_str(q);
    }
    url
}

/// The prefix of the paths that lead to a port.
pub fn build_proxy_prefix(port: u16) -> (r: String)
    ensures
        r@ == "/proxy/"@ + number::dec(port as nat),
{
    let mut s = PROXY_PATH_PREFIX.to_string();
    push_dec(&mut s, port as u64);
    s
}

/// Where a redirection leads to, seen from before the proxy.
pub open spec fn proxied_location(value: Seq<char>, prefix: Seq<char>) -> Seq<char> {
    if search::has_prefix(value, "/"@) && !search::has_prefix(value, prefix) {
        prefix + value
    } else {
        value
    }
}

/// What becomes of a header of a response: `None` where it cannot be told, and no
/// value where it is not passed on.
pub open spec fn proxied_header(
    name_lower: Seq<char>,
    value: Seq<char>,
    value_lower: Seq<char>,
    prefix: Seq<char>,
) -> Option<Option<Seq<char>>> {
    if name_lower == "location"@ {
        Some(Some(proxied_location(value, prefix)))
    } else if name_lower == "set-cookie"@ {
        match rewritten_cookie(value, value_lower, prefix) {
            Some(c) => Some(Some(c)),
            None => None,
        }
    } else if response_hop(name_lower) {
        Some(None)
    } else {
        Some(Some(value))
    }
}

pub open spec fn opt_text(s: Option<String>) -> Option<Seq<char>> {
    match s {
        Some(t) => Some(t@),
        None => None,
    }
}

/// What becomes of a header of a response, where `name_lower` is its name in lower
/// case and `value_lower` its value; nothing at all where its value is a cookie
/// whose path cannot be found again.
pub fn process_lowered_header(
    name_lower: &str,
    value: &str,
    value_lower: &str,
    proxy_prefix: &str,
) -> (r: Option<Option<String>>)
    ensures
        (match r {
            Some(v) => Some(opt_text(v)),
            None => None,
        }) == proxied_header(name_lower@, value@, value_lower@, proxy_prefix@),
{
    if same_text(name_lower, "location") {
        if starts_with(value, "/") && !starts_with(value, proxy_prefix) {
            let mut s = proxy_prefix.to_string();
            s.push_str(value);
            Some(Some(s))
        } else {
            Some(Some(value.to_string()))
        }
    } else if same_text(name_lower, "set-cookie") {
        match rewrite_lowered(value, value_lower, proxy_prefix) {
            Some(c) => Some(Some(c)),
            None => None,
        }
    } else if is_response_hop_by_hop(name_lower) {
        Some(None)
    } else {
        Some(Some(value.to_string()))
    }
}

/// What becomes of a header of a response on its way through the proxy: paths are
/// put behind its prefix, and headers that concern one connection only are not
/// passed on.
pub fn process_proxy_response_header(name: &str, value: &str, proxy_prefix: &str) -> (r: Option<
    String,
>)
    requires
        proxied_header(
            case::lowercase_text(name@),
            value@,
            case::lowercase_text(value@),
            proxy_prefix@,
        ) is Some,
    ensures
        proxied_header(
            case::lowercase_text(name@),
            value@,
            case::lowercase_text(value@),
            proxy_prefix@,
        ) == Some(opt_text(r)),
{
    let name_lower = to_lower(name);
    let value_lower = to_lower(value);
    match process_lowered_header(
        name_lower.as_str(),
        value,
        value_lower.as_str(),
        proxy_prefix,
    ) {
        Some(v) => v,
        None => None,
    }
}

/// What becomes of a header of a response on its way through the proxy; nothing at
/// all where that cannot be told.
pub fn try_process_proxy_response_header(name: &str, value: &str, proxy_prefix: &str) -> (r: Option<
    Option<String>,
>)
    ensures
        (match r {
            Some(v) => Some(opt_text(v)),
            None => None,
        }) == proxied_header(
            case::lowercase_text(name@),
            value@,
            case::lowercase_text(value@),
            proxy_prefix@,
        ),
{
    let name_lower = to_lower(name);
    let value_lower = to_lower(value);
    if process_lowered_header(
        name_lower.as_str(),
        value,
        value_lower.as_str(),
        proxy_prefix,
    ).is_some() {
        Some(process_proxy_response_header(name, value, proxy_prefix))
    } else {
        None
    }
}

/// A redirection that has passed the proxy once is not changed when it passes
/// again.
pub proof fn law_locations_are_moved_once(value: Seq<char>, prefix: Seq<char>)
    ensures
        proxied_location(proxied_location(value, prefix), prefix) == proxied_location(
            value,
            prefix,
        ),
{
    if search::has_prefix(value, "/"@) && !search::has_prefix(value, prefix) {
        let moved = prefix + value;
        assert(moved.subrange(0, prefix.len() as int) =~= prefix);
    }
}

pub const SESSION_COOKIE_PREFIX: &'static str = "alice_session_";

/// The name of the session cookie of an engine.
pub fn build_session_cookie_name(id: &str) -> (r: String)
    ensures
        r@ == "alice_session_"@ + id@,
{
    let mut s = SESSION_COOKIE_PREFIX.to_string();
    s.push_str(id);
    s
}

pub open spec fn session_cookie(name: Seq<char>, token: Seq<char>) -> Seq<char> {
    name + "="@ + token + "; Path=/; HttpOnly; SameSite=Strict; Max-Age=604800"@
}

/// The header that starts a session of a week.
pub fn build_session_cookie(name: &str, token: &str) -> (r: String)
    ensures
        r@ == session_cookie(name@, token@),
{
    let mut s = name.to_string();
    s.push_str("=");
    s.push_str(token);
    s.push_str("; Path=/; HttpOnly; SameSite=Strict; Max-Age=604800");
    s
}

/// The header that ends a session.
pub fn build_clear_cookie(name: &str) -> (r: String)
    ensures
        r@ == name@ + "=; Path=/; HttpOnly; Max-Age=0"@,
{
    let mut s = name.to_string();
    s.push_str("=; Path=/; HttpOnly; Max-Age=0");
    s
}

/// The first cookie from the `i`th on that starts with a text, without it.
pub open spec fn token_from(parts: Seq<Seq<char>>, prefix: Seq<char>, i: int) -> Option<Seq<char>>
    decreases parts.len() - i,
{
    if i < 0 || i >= parts.len() {
        None
    } else {
        let cookie = space::trimmed(parts[i]);
        if search::has_prefix(cookie, prefix) {
            Some(cookie.skip(prefix.len() as int))
        } else {
            token_from(parts, prefix, i + 1)
        }
    }
}

/// The value of a cookie among others.
pub open spec fn session_token_of(cookies: Seq<char>, name: Seq<char>) -> Option<Seq<char>> {
    token_from(search::split_text(cookies, ";"@), name + "="@, 0)
}

/// The value of a cookie among others.
pub fn extract_session_token(cookies: &str, cookie_name: &str) -> (r: Option<String>)
    ensures
        match r {
            Some(t) => session_token_of(cookies@, cookie_name@) == Some(t@),
            None => session_token_of(cookies@, cookie_name@) is None,
        },
{
    let mut prefix = cookie_name.to_string();
    prefix.push_str("=");
    proof {
        reveal_strlit(";");
    }
    let parts = split(cookies, ";");
    let ghost all = search::views(parts@);
    let mut i: usize = 0;
    while i < parts.len()
        invariant
            i <= parts@.len(),
            all == search::views(parts@),
            all == search::split_text(cookies@, ";"@),
            prefix@ == cookie_name@ + "="@,
            token_from(all, prefix@, 0) == token_from(all, prefix@, i as int),
        decreases parts@.len() - i,
    {
        assert(all[i as int] == parts@[i as int]@);
        let cookie = trim(parts[i].as_str());
        if let Some(value) = strip_prefix(cookie.as_str(), prefix.as_str()) {
            return Some(value);
        }
        i = i + 1;
    }
    None
}

/// The session token that the engine hands out is the one that it finds when the
/// cookie comes back, whatever it is: it must only hold no semicolon, and not end in
/// white space.
pub proof fn law_sessions_are_recognised(name: Seq<char>, token: Seq<char>)
    requires
        !search::has_text(name, ";"@),
        !search::has_text(token, ";"@),
        name.len() > 0 ==> !space::is_space(name[0]),
        token.len() > 0 ==> !space::is_space(token.last()),
    ensures
        session_token_of(session_cookie(name, token), name) == Some(token),
        session_token_of(name + "="@ + token, name) == Some(token),
{
    reveal_strlit(";");
    reveal_strlit("=");
    reveal_strlit("; Path=/; HttpOnly; SameSite=Strict; Max-Age=604800");
    let tail = "; Path=/; HttpOnly; SameSite=Strict; Max-Age=604800"@;
    let head = name + "="@ + token;
    let whole = head + tail;
    assert(whole == session_cookie(name, token));
    assert forall|j: int| 0 <= j < head.len() implies !search::occurs_at(whole, ";"@, j)
        && !search::occurs_at(head, ";"@, j) by {
        if search::occurs_at(whole, ";"@, j) || search::occurs_at(head, ";"@, j) {
            if search::occurs_at(whole, ";"@, j) {
                assert(whole.subrange(j, j + 1)[0] == whole[j]);
            } else {
                assert(head.subrange(j, j + 1)[0] == head[j]);
            }
            assert(head[j] == ';');
            if j < name.len() {
                assert(name.subrange(j, j + 1) =~= ";"@);
                assert(search::occurs_at(name, ";"@, j));
            } else if j > name.len() {
                let k = j - name.len() - 1;
                assert(token[k] == ';');
                assert(token.subrange(k, k + 1) =~= ";"@);
                assert(search::occurs_at(token, ";"@, k));
            }
        }
    }
    assert(whole.subrange(head.len() as int, head.len() as int + 1) =~= ";"@);
    search::lemma_find_is_first(whole, ";"@, head.len() as int);
    let parts = search::split_text(whole, ";"@);
    assert(whole.take(head.len() as int) =~= head);
    assert(parts[0] == head);
    search::lemma_find_from(head, ";"@, 0);
    let single = search::split_text(head, ";"@);
    if search::find_text(head, ";"@) is Some {
        let k = search::find_text(head, ";"@)->0;
        assert(search::occurs_at(head, ";"@, k));
    }
    assert(single == seq![head]);
    assert(!space::is_space('='));
    space::lemma_skip_space(head, 0);
    assert(head[0] == (if name.len() > 0 {
        name[0]
    } else {
        '='
    }));
    assert(space::skip_space(head, 0) == 0);
    assert(space::trimmed_start(head) =~= head);
    assert(head.last() == (if token.len() > 0 {
        token.last()
    } else {
        '='
    }));
    assert(space::back_space(head, head.len() as int) == head.len());
    assert(space::trimmed(head) =~= head);
    let prefix = name + "="@;
    assert(head.subrange(0, prefix.len() as int) =~= prefix);
    assert(head.skip(prefix.len() as int) =~= token);
}

proof fn lemma_no_token(parts: Seq<Seq<char>>, prefix: Seq<char>, i: int)
    requires
        0 <= i <= parts.len(),
    ensures
        token_from(parts, prefix, i) is None <==> forall|k: int|
            i <= k < parts.len() ==> !search::has_prefix(
                space::trimmed(#[trigger] parts[k]),
                prefix,
            ),
    decreases parts.len() - i,
{
    if i < parts.len() {
        lemma_no_token(parts, prefix, i + 1);
        assert(parts[i] == parts[i]);
    }
}

proof fn lemma_token_behind(
    parts: Seq<Seq<char>>,
    more: Seq<Seq<char>>,
    prefix: Seq<char>,
    i: int,
)
    requires
        0 <= i <= parts.len(),
        forall|k: int|
            i <= k < parts.len() ==> !search::has_prefix(
                space::trimmed(#[trigger] parts[k]),
                prefix,
            ),
    ensures
        token_from(parts + more, prefix, i) == token_from(
            parts + more,
            prefix,
            parts.len() as int,
        ),
    decreases parts.len() - i,
{
    if i < parts.len() {
        assert((parts + more)[i] == parts[i]);
        lemma_token_behind(parts, more, prefix, i + 1);
    }
}

/// The parts of two texts with a semicolon between them.
proof fn lemma_split_at_semicolon(a: Seq<char>, b: Seq<char>)
    ensures
        search::split_text(a + ";"@ + b, ";"@) == search::split_text(a, ";"@)
            + search::split_text(b, ";"@),
    decreases a.len(),
{
    reveal_strlit(";");
    let whole = a + ";"@ + b;
    search::lemma_find_from(a, ";"@, 0);
    match search::find_text(a, ";"@) {
        Some(i) => {
            assert forall|j: int| 0 <= j <= i implies search::occurs_at(whole, ";"@, j)
                == search::occurs_at(a, ";"@, j) by {
                assert(whole.subrange(j, j + 1) =~= a.subrange(j, j + 1));
            }
            search::lemma_find_is_first(whole, ";"@, i);
            let rest = a.skip(i + 1);
            lemma_split_at_semicolon(rest, b);
            assert(whole.take(i) =~= a.take(i));
            assert(whole.skip(i + 1) =~= rest + ";"@ + b);
            assert(seq![a.take(i)] + (search::split_text(rest, ";"@) + search::split_text(
                b,
                ";"@,
            )) =~= (seq![a.take(i)] + search::split_text(rest, ";"@)) + search::split_text(
                b,
                ";"@,
            ));
        },
        None => {
            let n = a.len() as int;
            assert(whole.subrange(n, n + 1) =~= ";"@);
            assert forall|j: int| 0 <= j < n implies !search::occurs_at(whole, ";"@, j) by {
                if search::occurs_at(whole, ";"@, j) {
                    assert(a.subrange(j, j + 1) =~= whole.subrange(j, j + 1));
                    assert(search::occurs_at(a, ";"@, j));
                }
            }
            search::lemma_find_is_first(whole, ";"@, n);
            assert(whole.take(n) =~= a);
            assert(whole.skip(n + 1) =~= b);
        },
    }
}

/// No session is found among cookies exactly where none of them has the name.
pub proof fn law_sessions_have_their_name(cookies: Seq<char>, name: Seq<char>)
    ensures
        session_token_of(cookies, name) is None <==> forall|k: int|
            0 <= k < search::split_text(cookies, ";"@).len() ==> !search::has_prefix(
                space::trimmed(#[trigger] search::split_text(cookies, ";"@)[k]),
                name + "="@,
            ),
{
    lemma_no_token(search::split_text(cookies, ";"@), name + "="@, 0);
}

/// The session token is found behind other cookies, none of which has the name.
pub proof fn law_sessions_are_found_behind_others(
    others: Seq<char>,
    name: Seq<char>,
    token: Seq<char>,
)
    requires
        !search::has_text(name, ";"@),
        !search::has_text(token, ";"@),
        name.len() > 0 ==> !space::is_space(name[0]),
        token.len() > 0 ==> !space::is_space(token.last()),
        session_token_of(others, name) is None,
    ensures
        session_token_of(others + "; "@ + name + "="@ + token, name) == Some(token),
{
    reveal_strlit(";");
    reveal_strlit("; ");
    reveal_strlit("=");
    let head = name + "="@ + token;
    let last = seq![' '] + head;
    let whole = others + "; "@ + name + "="@ + token;
    let prefix = name + "="@;
    let parts = search::split_text(others, ";"@);
    assert(whole =~= others + ";"@ + last);
    lemma_split_at_semicolon(others, last);
    search::lemma_find_from(last, ";"@, 0);
    if search::find_text(last, ";"@) is Some {
        let k = search::find_text(last, ";"@)->0;
        assert(last.subrange(k, k + 1)[0] == last[k]);
        if 1 <= k < 1 + name.len() {
            assert(name.subrange(k - 1, k) =~= ";"@);
            assert(search::occurs_at(name, ";"@, k - 1));
        } else if k > 1 + name.len() {
            let j = k - 2 - name.len();
            assert(token.subrange(j, j + 1) =~= ";"@);
            assert(search::occurs_at(token, ";"@, j));
        }
    }
    assert(search::split_text(last, ";"@) == seq![last]);
    law_sessions_have_their_name(others, name);
    lemma_token_behind(parts, seq![last], prefix, 0);
    assert((parts + seq![last])[parts.len() as int] == last);
    assert(head[0] == (if name.len() > 0 {
        name[0]
    } else {
        '='
    }));
    assert(last[0] == ' ' && last[1] == head[0]);
    assert(space::skip_space(last, 1) == 1);
    assert(space::skip_space(last, 0) == 1);
    assert(space::trimmed_start(last) =~= head);
    assert(head.last() == (if token.len() > 0 {
        token.last()
    } else {
        '='
    }));
    assert(space::back_space(head, head.len() as int) == head.len());
    assert(space::trimmed(last) =~= head);
    assert(head.subrange(0, prefix.len() as int) =~= prefix);
    assert(head.skip(prefix.len() as int) =~= token);
}

/// The files that are shown without a session.
pub const SETUP_PAGE_FILE: &'static str = "/setup.html";

pub const LOGIN_PATH: &'static str = "/login";

pub const LOGIN_ERROR_PATH: &'static str = "/login?error=1";

pub const LOGIN_PAGE_FILE: &'static str = "/login.html";

pub const ROOT_PATH: &'static str = "/";

} // verus!
