//! Passing requests on to another engine.
use vstd::prelude::*;

use crate::api::http_protocol;
use crate::api::http_protocol::{
    is_hop_by_hop_header, is_response_hop_by_hop, to_reqwest_method, Header,
};
use crate::text::case;
use crate::text::case::to_lower;
use crate::text::chars::{same_text, to_chars};

verus! {

/// A request to another engine.
#[derive(Debug)]
pub struct EngineRequest {
    pub url: String,
    pub method: &'static str,
    pub headers: Vec<Header>,
    pub cookie: String,
}

/// The text `cookie`, whatever the case of its letters.
pub open spec fn is_cookie(name: Seq<char>) -> bool {
    name.map_values(|c: char| case::ascii_lower(c)) == "cookie"@
}

/// The headers among the first `n` that are passed on to another engine.
pub open spec fn sent_headers(hs: Seq<Header>, n: int) -> Seq<Header>
    decreases n,
{
    if n <= 0 || n > hs.len() {
        Seq::empty()
    } else if http_protocol::request_hop(hs[n - 1].name@) || is_cookie(hs[n - 1].name@) {
        sent_headers(hs, n - 1)
    } else {
        sent_headers(hs, n - 1).push(hs[n - 1])
    }
}

/// The headers of an answer among the first `n` that are passed back: cookies of
/// the other engine are kept back.
pub open spec fn returned_headers(hs: Seq<Header>, n: int) -> Seq<Header>
    decreases n,
{
    if n <= 0 || n > hs.len() {
        Seq::empty()
    } else {
        let lower = case::lowercase_text(hs[n - 1].name@);
        if http_protocol::response_hop(lower) || lower == "set-cookie"@ {
            returned_headers(hs, n - 1)
        } else {
            returned_headers(hs, n - 1).push(hs[n - 1])
        }
    }
}

/// A character in ASCII lower case.
pub fn lower_char(c: char) -> (r: char)
    ensures
        r == case::ascii_lower(c),
{
    match c {
        'A' => 'a',
        'B' => 'b',
        'C' => 'c',
        'D' => 'd',
        'E' => 'e',
        'F' => 'f',
        'G' => 'g',
        'H' => 'h',
        'I' => 'i',
        'J' => 'j',
        'K' => 'k',
        'L' => 'l',
        'M' => 'm',
        'N' => 'n',
        'O' => 'o',
        'P' => 'p',
        'Q' => 'q',
        'R' => 'r',
        'S' => 's',
        'T' => 't',
        'U' => 'u',
        'V' => 'v',
        'W' => 'w',
        'X' => 'x',
        'Y' => 'y',
        'Z' => 'z',
        _ => c,
    }
}

fn names_cookie(name: &str) -> (r: bool)
    ensures
        r == is_cookie(name@),
{
    let v = to_chars(name);
    let mut s = String::new();
    let mut i: usize = 0;
    let ghost lower = v@.map_values(|c: char| case::ascii_lower(c));
    assert(lower.take(0) =~= Seq::<char>::empty());
    while i < v.len()
        invariant
            i <= v@.len(),
            lower == v@.map_values(|c: char| case::ascii_lower(c)),
            s@ == lower.take(i as int),
        decreases v@.len() - i,
    {
        s.push(lower_char(v[i]));
        i = i + 1;
        assert(lower.take(i as int) =~= lower.take(i - 1).push(lower[i - 1]));
    }
    assert(lower.take(i as int) =~= lower);
    same_text(s.as_str(), "cookie")
}

/// The request to another engine that a request stands for: it goes to the same
/// path there, with the cookie for that engine in place of its own.
pub fn proxy_to_engine(
    endpoint: &str,
    auth_cookie: &str,
    method: &str,
    path: &str,
    query: Option<&str>,
    headers: &Vec<Header>,
) -> (r: EngineRequest)
    ensures
        r.url@ == http_protocol::with_query(
            endpoint@ + path@,
            http_protocol::str_view(query),
        ),
        r.method@ == http_protocol::passed_method(method@),
        r.headers@ == sent_headers(headers@, headers@.len() as int),
        r.cookie@ == auth_cookie@,
{
    let mut url = endpoint.to_string();
    url.push_str(path);
    if let Some(q) = query {
        url.push('?');
        url.push_str(q);
    }
    let mut sent: Vec<Header> = Vec::new();
    let mut i: usize = 0;
    while i < headers.len()
        invariant
            i <= headers@.len(),
            sent@ == sent_headers(headers@, i as int),
        decreases headers@.len() - i,
    {
        let name = headers[i].name.as_str();
        if !is_hop_by_hop_header(name) && !names_cookie(name) {
            sent.push(headers[i].clone());
        }
        i = i + 1;
    }
    EngineRequest {
        url,
        method: to_reqwest_method(method),
        headers: sent,
        cookie: auth_cookie.to_string(),
    }
}

/// The headers of an answer of another engine that are passed back.
pub fn returned(headers: &Vec<Header>) -> (r: Vec<Header>)
    ensures
        r@ == returned_headers(headers@, headers@.len() as int),
{
    let mut out: Vec<Header> = Vec::new();
    let mut i: usize = 0;
    while i < headers.len()
        invariant
            i <= headers@.len(),
            out@ == returned_headers(headers@, i as int),
        decreases headers@.len() - i,
    {
        let lower = to_lower(headers[i].name.as_str());
        if !is_response_hop_by_hop(lower.as_str()) && !same_text(lower.as_str(), "set-cookie") {
            out.push(headers[i].clone());
        }
        i = i + 1;
    }
    out
}

/// What is said where another engine did not answer.
pub fn proxy_error(error: &str) -> (r: String)
    ensures
        r@ == "Hub proxy error: "@ + error@,
{
    let mut s = "Hub proxy error: ".to_string();
    s.push_str(error);
    s
}

proof fn lemma_sent_has_no_cookie(hs: Seq<Header>, n: int)
    requires
        0 <= n <= hs.len(),
    ensures
        forall|i: int|
            0 <= i < sent_headers(hs, n).len() ==> !is_cookie(
                (#[trigger] sent_headers(hs, n)[i]).name@,
            ),
    decreases n,
{
    if n > 0 {
        lemma_sent_has_no_cookie(hs, n - 1);
        let before = sent_headers(hs, n - 1);
        let after = sent_headers(hs, n);
        assert forall|i: int| 0 <= i < after.len() implies !is_cookie(
            (#[trigger] after[i]).name@,
        ) by {
            if i < before.len() {
                assert(after[i] == before[i]);
            }
        }
    }
}

/// The cookies of a client never get to another engine.
pub proof fn law_cookies_stay_here(hs: Seq<Header>, i: int)
    requires
        0 <= i < sent_headers(hs, hs.len() as int).len(),
    ensures
        !is_cookie(sent_headers(hs, hs.len() as int)[i].name@),
{
    lemma_sent_has_no_cookie(hs, hs.len() as int);
}

} // verus!
