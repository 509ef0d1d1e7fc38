//! Who may use the engine over HTTP.
use vstd::prelude::*;

use crate::api::http_protocol;
use crate::api::http_protocol::{
    build_clear_cookie, build_session_cookie, extract_session_token, LOGIN_ERROR_PATH, LOGIN_PATH,
    ROOT_PATH,
};
use crate::codec;
use crate::codec::{hex_encode, sha256};
use crate::persist::settings;
use crate::persist::settings::Settings;
use crate::text::chars::same_text;
use crate::text::search;
use crate::text::search::starts_with;
use crate::text::space;
use crate::text::space::trim;

verus! {

/// What decides whether a request is let in.
#[derive(Debug)]
pub struct AuthRequest<'a> {
    /// Whether everyone is let in.
    pub skip_auth: bool,
    pub path: &'a str,
    /// Whether the engine was set up.
    pub setup_completed: bool,
    /// Whether no password was set.
    pub default_secret: bool,
    /// Whether the request comes from the same machine.
    pub loopback: bool,
    pub cookies: Option<&'a str>,
    pub cookie_name: &'a str,
    pub session_token: &'a str,
}

/// What becomes of a request.
#[derive(Debug, Clone, Copy, PartialEq, Eq, Structural)]
pub enum AuthDecision {
    /// It is let in.
    Pass,
    /// It is sent to the page that sets the engine up.
    Setup,
    /// It is sent to the page that asks for the password.
    Login,
}

/// The paths that everyone may see.
pub open spec fn is_open(path: Seq<char>) -> bool {
    ||| path == "/login"@
    ||| path == "/api/frontend-error"@
    ||| path == "/api/setup"@
    ||| path == "/login.html"@
    ||| path == "/setup.html"@
    ||| path == "/error-reporter.js"@
    ||| path == "/api/hub/ws"@
    ||| search::has_prefix(path, "/public/"@)
}

/// A request that carries the token of the session.
pub open spec fn has_session(q: AuthRequest<'_>) -> bool {
    match q.cookies {
        Some(c) => http_protocol::session_token_of(c@, q.cookie_name@) == Some(q.session_token@),
        None => false,
    }
}

pub open spec fn decided(q: AuthRequest<'_>) -> AuthDecision {
    if q.skip_auth || is_open(q.path@) {
        AuthDecision::Pass
    } else if !q.setup_completed {
        AuthDecision::Setup
    } else if q.default_secret || q.loopback || has_session(q) {
        AuthDecision::Pass
    } else {
        AuthDecision::Login
    }
}

fn open_path(path: &str) -> (r: bool)
    ensures
        r == is_open(path@),
{
    same_text(path, LOGIN_PATH) || same_text(path, "/api/frontend-error") || same_text(
        path,
        "/api/setup",
    ) || same_text(path, "/login.html") || same_text(path, "/setup.html") || same_text(
        path,
        "/error-reporter.js",
    ) || same_text(path, "/api/hub/ws") || starts_with(path, "/public/")
}

/// Decides what becomes of a request.
pub fn check_auth(q: &AuthRequest<'_>) -> (r: AuthDecision)
    ensures
        r == decided(*q),
{
    if q.skip_auth || open_path(q.path) {
        return AuthDecision::Pass;
    }
    if !q.setup_completed {
        return AuthDecision::Setup;
    }
    if q.default_secret || q.loopback {
        return AuthDecision::Pass;
    }
    if let Some(cookies) = q.cookies {
        if let Some(token) = extract_session_token(cookies, q.cookie_name) {
            if same_text(token.as_str(), q.session_token) {
                return AuthDecision::Pass;
            }
        }
    }
    AuthDecision::Login
}

/// An engine that is set up and has a password lets nobody from elsewhere in to
/// what is not open to everyone, but those who carry the token of the session; and
/// these it lets in.
pub proof fn law_only_sessions_are_let_in(q: AuthRequest<'_>)
    requires
        !q.skip_auth,
        q.setup_completed,
        !q.default_secret,
        !q.loopback,
        !is_open(q.path@),
    ensures
        decided(q) == AuthDecision::Pass <==> has_session(q),
        decided(q) != AuthDecision::Setup,
{
}

/// The answer to a password: a header that sets a cookie, or none, and where to go.
#[derive(Debug)]
pub struct LoginAnswer {
    pub set_cookie: Option<String>,
    pub location: &'static str,
}

/// Answers a password: the right one starts a session.
pub fn handle_login_post(
    password: &str,
    auth_secret: &str,
    cookie_name: &str,
    session_token: &str,
) -> (r: LoginAnswer)
    ensures
        if space::trimmed(password@) == auth_secret@ {
            &&& r.set_cookie is Some
            &&& r.set_cookie->0@ == http_protocol::session_cookie(cookie_name@, session_token@)
            &&& r.location@ == "/"@
        } else {
            r.set_cookie is None && r.location@ == "/login?error=1"@
        },
{
    let given = trim(password);
    if same_text(given.as_str(), auth_secret) {
        LoginAnswer {
            set_cookie: Some(build_session_cookie(cookie_name, session_token)),
            location: ROOT_PATH,
        }
    } else {
        LoginAnswer { set_cookie: None, location: LOGIN_ERROR_PATH }
    }
}

/// Ends a session.
pub fn handle_logout(cookie_name: &str) -> (r: LoginAnswer)
    ensures
        r.set_cookie is Some,
        r.set_cookie->0@ == cookie_name@ + "=; Path=/; HttpOnly; Max-Age=0"@,
        r.location@ == "/login"@,
{
    LoginAnswer { set_cookie: Some(build_clear_cookie(cookie_name)), location: LOGIN_PATH }
}

/// The token of the sessions of an engine with a password: the hexadecimal digest
/// of the password.
pub open spec fn session_digest(auth_secret: Seq<char>) -> Seq<char> {
    codec::hex_text(codec::sha256_digest(vstd::utf8::encode_utf8(auth_secret)))
}

/// The token of the sessions of an engine with a password.
pub fn compute_session_token(auth_secret: &str) -> (r: String)
    ensures
        r@ == session_digest(auth_secret@),
{
    let digest = sha256(auth_secret.as_bytes());
    hex_encode(digest.as_slice())
}

/// The token of the sessions of an engine; none where it has no password.
pub fn engine_session_token(auth_secret: &str) -> (r: String)
    ensures
        r@ == (if auth_secret@.len() == 0 {
            Seq::empty()
        } else {
            session_digest(auth_secret@)
        }),
{
    if auth_secret.is_empty() {
        String::new()
    } else {
        compute_session_token(auth_secret)
    }
}

/// The settings that the first set-up brings: a key and a model, all else open.
pub fn setup_settings(api_key: String, model: String) -> (r: Settings)
    ensures
        r == (Settings {
            api_key: Some(api_key),
            model: Some(model),
            ..settings::nothing_set()
        }),
{
    let mut s = Settings::default();
    s.api_key = Some(api_key);
    s.model = Some(model);
    s
}

} // verus!
