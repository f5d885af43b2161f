//! Request authentication: cookie lookup, CSRF origin check, session check
//! and the decision the authentication middleware takes for each request.

use vstd::prelude::*;

use crate::auth::{secure_compare, sha256_hex, sha256_hex_spec, COOKIE_NAME};
use crate::text::{
    chars_eq, chars_of, copy_range, find_char, has_prefix, index_of, lemma_index_of, starts_with,
    string_of, trim, trimmed,
};

verus! {

/// The value of the first cookie named by `key` (`name=`) in a `Cookie`
/// header: the header is split at each `;`, each part is trimmed, and the
/// first part that begins with `key` gives the rest of that part.
pub open spec fn cookie_lookup(rest: Seq<char>, key: Seq<char>) -> Option<Seq<char>>
    decreases rest.len(),
{
    let i = index_of(rest, ';');
    let part = trim(rest.subrange(0, i as int));
    proof {
        lemma_index_of(rest, ';');
    }
    if starts_with(part, key) {
        Some(part.subrange(key.len() as int, part.len() as int))
    } else if i < rest.len() {
        cookie_lookup(rest.subrange(i as int + 1, rest.len() as int), key)
    } else {
        None
    }
}

/// What `get_cookie_value` returns for a header value and a cookie name.
pub open spec fn cookie_value_spec(cookie_header: Option<&str>, name: Seq<char>) -> Option<
    Seq<char>,
> {
    match cookie_header {
        Some(h) => cookie_lookup(h@, name + "="@),
        None => None,
    }
}

/// The value of the cookie `name` in a `Cookie` header (its value as text, if
/// the request has the header).
pub fn get_cookie_value(cookie_header: Option<&str>, name: &str) -> (r: Option<String>)
    ensures
        match r {
            Some(v) => cookie_value_spec(cookie_header, name@) == Some(v@),
            None => cookie_value_spec(cookie_header, name@) is None,
        },
{
    let header = match cookie_header {
        Some(h) => h,
        None => return None,
    };
    let cs = chars_of(header);
    let mut key = chars_of(name);
    key.push('=');
    assert(key@ =~= name@ + "="@) by {
        reveal_strlit("=");
    }
    let n = cs.len();
    let mut start: usize = 0;
    assert(cs@.subrange(0, n as int) =~= cs@);
    loop
        invariant
            n == cs@.len(),
            cs@ == header@,
            cookie_header == Some(header),
            key@ == name@ + "="@,
            start <= n,
            cookie_lookup(cs@, key@) == cookie_lookup(cs@.subrange(start as int, n as int), key@),
        decreases n - start,
    {
        let i = find_char(cs.as_slice(), start, ';');
        let ghost rest = cs@.subrange(start as int, n as int);
        assert(rest.subrange(0, i - start) =~= cs@.subrange(start as int, i as int));
        let part = trimmed(copy_range(cs.as_slice(), start, i).as_slice());
        assert(index_of(rest, ';') == i - start);
        assert(part@ == trim(rest.subrange(0, index_of(rest, ';') as int)));
        if has_prefix(part.as_slice(), key.as_slice()) {
            let v = copy_range(part.as_slice(), key.len(), part.len());
            assert(cookie_lookup(rest, key@) == Some(v@));
            return Some(string_of(v.as_slice()));
        }
        if i < n {
            assert(rest.subrange(i - start + 1, rest.len() as int) =~= cs@.subrange(
                i + 1,
                n as int,
            ));
            start = i + 1;
        } else {
            assert(cookie_lookup(rest, key@) is None);
            return None;
        }
    }
}

/// `s` with a leading `http://` or `https://` removed; `None` without one.
pub open spec fn strip_scheme(s: Seq<char>) -> Option<Seq<char>> {
    if starts_with(s, "http://"@) {
        Some(s.subrange("http://"@.len() as int, s.len() as int))
    } else if starts_with(s, "https://"@) {
        Some(s.subrange("https://"@.len() as int, s.len() as int))
    } else {
        None
    }
}

fn strip_scheme_chars(s: &[char]) -> (r: Option<Vec<char>>)
    ensures
        match r {
            Some(v) => strip_scheme(s@) == Some(v@),
            None => strip_scheme(s@) is None,
        },
{
    let http = chars_of("http://");
    if has_prefix(s, http.as_slice()) {
        return Some(copy_range(s, http.len(), s.len()));
    }
    let https = chars_of("https://");
    if has_prefix(s, https.as_slice()) {
        return Some(copy_range(s, https.len(), s.len()));
    }
    None
}

/// `p` is a prefix of `s`, for a literal `p`.
fn starts_with_str(s: &[char], p: &str) -> (r: bool)
    ensures
        r == starts_with(s@, p@),
{
    has_prefix(s, chars_of(p).as_slice())
}

/// `s` equals the literal `p`.
fn equals_str(s: &[char], p: &str) -> (r: bool)
    ensures
        r == (s@ == p@),
{
    chars_eq(s, chars_of(p).as_slice())
}


/// What the authentication middleware reads of a request, as plain values.
#[derive(Debug, Clone)]
pub struct RequestInfo {
    /// The method, as text (`GET`, `POST`, ...).
    pub method: String,
    /// The URI path.
    pub path: String,
    /// An `x-api-key` header is present.
    pub has_api_key: bool,
    /// The `host` header, where present and readable as text.
    pub host: Option<String>,
    /// The `origin` header, where present and readable as text.
    pub origin: Option<String>,
    /// The `referer` header, where present and readable as text.
    pub referer: Option<String>,
    /// The `cookie` header, where present and readable as text.
    pub cookie_header: Option<String>,
}

pub open spec fn opt_view(o: Option<String>) -> Option<Seq<char>> {
    match o {
        Some(s) => Some(s@),
        None => None,
    }
}

/// The host part of a URL after its scheme: the text before the first `/`.
pub open spec fn host_part(after_scheme: Seq<char>) -> Seq<char> {
    after_scheme.subrange(0, index_of(after_scheme, '/') as int)
}

/// The CSRF check: safe methods pass; API-key uploads pass; otherwise an
/// `Origin` must name the request's host, or failing that a `Referer` must;
/// a request with neither passes.
pub open spec fn csrf_ok(
    method: Seq<char>,
    path: Seq<char>,
    has_api_key: bool,
    host: Option<Seq<char>>,
    origin: Option<Seq<char>>,
    referer: Option<Seq<char>>,
) -> bool {
    let host_text = match host {
        Some(h) => h,
        None => ""@,
    };
    if method == "GET"@ || method == "HEAD"@ || method == "OPTIONS"@ {
        true
    } else if starts_with(path, "/api/upload"@) && has_api_key {
        true
    } else {
        match origin {
            Some(o) => match strip_scheme(o) {
                Some(origin_host) => origin_host == host_text,
                None => false,
            },
            None => match referer {
                Some(r) => match strip_scheme(r) {
                    Some(after) => host_part(after) == host_text,
                    None => false,
                },
                None => true,
            },
        }
    }
}

/// CSRF check: for state-changing requests, verify that Origin/Referer
/// matches the host.
pub fn check_csrf(request: &RequestInfo) -> (r: bool)
    ensures
        r == csrf_ok(
            request.method@,
            request.path@,
            request.has_api_key,
            opt_view(request.host),
            opt_view(request.origin),
            opt_view(request.referer),
        ),
{
    let method = chars_of(request.method.as_str());
    if equals_str(method.as_slice(), "GET") || equals_str(method.as_slice(), "HEAD")
        || equals_str(method.as_slice(), "OPTIONS") {
        return true;
    }
    let path = chars_of(request.path.as_str());
    // API-key uploads (PicGo) carry no browser origin.
    if starts_with_str(path.as_slice(), "/api/upload") && request.has_api_key {
        return true;
    }
    let host = match &request.host {
        Some(h) => chars_of(h.as_str()),
        None => chars_of(""),
    };
    if let Some(origin) = &request.origin {
        let o = chars_of(origin.as_str());
        return match strip_scheme_chars(o.as_slice()) {
            Some(origin_host) => chars_eq(origin_host.as_slice(), host.as_slice()),
            None => false,
        };
    }
    if let Some(referer) = &request.referer {
        let rf = chars_of(referer.as_str());
        return match strip_scheme_chars(rf.as_slice()) {
            Some(after) => {
                let end = find_char(after.as_slice(), 0, '/');
                assert(after@.subrange(0, after@.len() as int) =~= after@);
                let referer_host = copy_range(after.as_slice(), 0, end);
                chars_eq(referer_host.as_slice(), host.as_slice())
            },
            None => false,
        };
    }
    true
}

/// The session check: with a stored session token, the cookie must equal it;
/// otherwise (legacy plaintext password) the cookie must equal the hex
/// SHA-256 of the password, or the password itself.
pub open spec fn session_valid(
    session: Option<Seq<char>>,
    active_pwd: Seq<char>,
    session_token: Option<Seq<char>>,
) -> bool {
    match session {
        None => false,
        Some(s) => match session_token {
            Some(t) if t.len() > 0 => s == t,
            _ => s == sha256_hex_spec(active_pwd) || s == active_pwd,
        },
    }
}

pub open spec fn opt_str_view(o: Option<&str>) -> Option<Seq<char>> {
    match o {
        Some(s) => Some(s@),
        None => None,
    }
}

/// Check if a session cookie is valid against the active password.
/// Supports both hashed (argon2, with a stored session token) and plaintext
/// passwords.
pub fn check_session(session: Option<&str>, active_pwd: &str, session_token: Option<&str>) -> (r:
    bool)
    ensures
        r == session_valid(opt_str_view(session), active_pwd@, opt_str_view(session_token)),
{
    let session = match session {
        Some(s) => s,
        None => return false,
    };
    // A stored session token (argon2 password) is checked alone.
    if let Some(token) = session_token {
        if !token.is_empty() {
            return secure_compare(session, token);
        }
    }
    // Legacy: the password is plaintext and the cookie is its sha256.
    let token = sha256_hex(active_pwd);
    secure_compare(session, token.as_str()) || secure_compare(session, active_pwd)
}

/// The active password from its stored setting: trimmed, and absent when empty.
pub open spec fn configured_password_spec(setting: Option<&str>) -> Option<Seq<char>> {
    match setting {
        Some(v) => if trim(v@).len() > 0 {
            Some(trim(v@))
        } else {
            None
        },
        None => None,
    }
}

pub fn configured_password(setting: Option<&str>) -> (r: Option<String>)
    ensures
        opt_view(r) == configured_password_spec(setting),
{
    match setting {
        Some(v) => {
            let t = trimmed(chars_of(v).as_slice());
            if t.len() > 0 {
                Some(string_of(t.as_slice()))
            } else {
                None
            }
        },
        None => None,
    }
}


/// Where the middleware redirects a request.
#[derive(Debug, Clone, Copy, PartialEq, Eq, Structural)]
pub enum RedirectTarget {
    /// `/welcome`, the first-boot page that sets the password.
    Welcome,
    /// `/`.
    Home,
    /// `/login`.
    Login,
}

impl RedirectTarget {
    pub open spec fn location_spec(self) -> Seq<char> {
        match self {
            RedirectTarget::Welcome => "/welcome"@,
            RedirectTarget::Home => "/"@,
            RedirectTarget::Login => "/login"@,
        }
    }

    /// The path of the redirect.
    pub fn location(&self) -> (r: &'static str)
        ensures
            r@ == self.location_spec(),
    {
        match self {
            RedirectTarget::Welcome => "/welcome",
            RedirectTarget::Home => "/",
            RedirectTarget::Login => "/login",
        }
    }
}

/// What the middleware does with a request.
#[derive(Debug, Clone, Copy, PartialEq, Eq, Structural)]
pub enum AuthAction {
    /// 403 with code `csrf_failed`.
    CsrfRejected,
    /// Hand the request on.
    Proceed,
    /// A temporary redirect.
    Redirect(RedirectTarget),
    /// 401 with code `login_required`.
    Unauthorized,
}

/// Static files and downloads: always public.
pub open spec fn is_static_public(path: Seq<char>) -> bool {
    starts_with(path, "/static"@) || starts_with(path, "/d"@) || starts_with(path, "/favicon.ico"@)
}

/// Paths reachable while no password is set: the setup pages and APIs.
pub open spec fn is_open_before_setup(path: Seq<char>) -> bool {
    starts_with(path, "/welcome"@) || starts_with(path, "/settings"@) || starts_with(
        path,
        "/api/set-password"@,
    ) || starts_with(path, "/api/auth/"@) || starts_with(path, "/api/verify/"@) || starts_with(
        path,
        "/api/app-config"@,
    )
}

/// API paths reachable without a session once a password is set: login,
/// logout and verification links.
pub open spec fn is_public_api(path: Seq<char>) -> bool {
    starts_with(path, "/api/auth/login"@) || starts_with(path, "/api/auth/logout"@) || starts_with(
        path,
        "/api/verify/"@,
    )
}

/// The health check, public by design: `GET /api/health`.
pub open spec fn is_health_check(method: Seq<char>, path: Seq<char>) -> bool {
    method == "GET"@ && path == "/api/health"@
}

/// Pages that need a session once a password is set.
pub open spec fn is_protected_page(path: Seq<char>) -> bool {
    path == "/"@ || path == "/image_hosting"@ || path == "/files"@ || path == "/settings"@
}

/// The session cookie's value in a `Cookie` header.
pub open spec fn session_cookie_of(cookie_header: Option<Seq<char>>) -> Option<Seq<char>> {
    match cookie_header {
        Some(h) => cookie_lookup(h, COOKIE_NAME@ + "="@),
        None => None,
    }
}

/// The decision taken before the password settings are read: CSRF failures
/// are rejected and static paths proceed.
pub open spec fn early_decision_spec(request: RequestInfo) -> Option<AuthAction> {
    if !csrf_ok(
        request.method@,
        request.path@,
        request.has_api_key,
        opt_view(request.host),
        opt_view(request.origin),
        opt_view(request.referer),
    ) {
        Some(AuthAction::CsrfRejected)
    } else if is_static_public(request.path@) {
        Some(AuthAction::Proceed)
    } else {
        None
    }
}

/// The middleware's decision for a request, given the active password (if
/// any) and the stored session token (if any).
pub open spec fn auth_decision_spec(
    request: RequestInfo,
    active_password: Option<Seq<char>>,
    session_token: Option<Seq<char>>,
) -> AuthAction {
    let path = request.path@;
    match early_decision_spec(request) {
        Some(a) => a,
        None => match active_password {
            None => if is_open_before_setup(path) || is_health_check(request.method@, path) {
                AuthAction::Proceed
            } else {
                AuthAction::Redirect(RedirectTarget::Welcome)
            },
            Some(pwd) => {
                let is_auth = session_valid(
                    session_cookie_of(opt_view(request.cookie_header)),
                    pwd,
                    session_token,
                );
                if path == "/welcome"@ {
                    AuthAction::Redirect(RedirectTarget::Home)
                } else if is_public_api(path) || is_health_check(request.method@, path) {
                    AuthAction::Proceed
                } else if starts_with(path, "/api/"@) {
                    if starts_with(path, "/api/upload"@) && request.has_api_key {
                        AuthAction::Proceed
                    } else if is_auth {
                        AuthAction::Proceed
                    } else {
                        AuthAction::Unauthorized
                    }
                } else if is_protected_page(path) {
                    if is_auth {
                        AuthAction::Proceed
                    } else {
                        AuthAction::Redirect(RedirectTarget::Login)
                    }
                } else if path == "/login"@ || path == "/pwd"@ {
                    if is_auth {
                        AuthAction::Redirect(RedirectTarget::Home)
                    } else {
                        AuthAction::Proceed
                    }
                } else {
                    AuthAction::Proceed
                }
            },
        },
    }
}

/// The part of the decision that needs no password settings: `Some` for a
/// CSRF failure or a static path, `None` when the settings are needed.
pub fn early_decision(request: &RequestInfo) -> (r: Option<AuthAction>)
    ensures
        r == early_decision_spec(*request),
{
    if !check_csrf(request) {
        return Some(AuthAction::CsrfRejected);
    }
    let path = chars_of(request.path.as_str());
    if starts_with_str(path.as_slice(), "/static") || starts_with_str(path.as_slice(), "/d")
        || starts_with_str(path.as_slice(), "/favicon.ico") {
        return Some(AuthAction::Proceed);
    }
    None
}

/// The session check for a request against the active password.
fn request_session_valid(request: &RequestInfo, active_pwd: &str, session_token: Option<&str>) -> (r:
    bool)
    ensures
        r == session_valid(
            session_cookie_of(opt_view(request.cookie_header)),
            active_pwd@,
            opt_str_view(session_token),
        ),
{
    let header = match &request.cookie_header {
        Some(h) => Some(h.as_str()),
        None => None,
    };
    let session = get_cookie_value(header, COOKIE_NAME);
    let s = match &session {
        Some(v) => Some(v.as_str()),
        None => None,
    };
    check_session(s, active_pwd, session_token)
}

/// The authentication middleware's decision for a request.
pub fn auth_decision(
    request: &RequestInfo,
    active_password: Option<&str>,
    session_token: Option<&str>,
) -> (r: AuthAction)
    ensures
        r == auth_decision_spec(*request, opt_str_view(active_password), opt_str_view(session_token)),
{
    if let Some(a) = early_decision(request) {
        return a;
    }
    let path = chars_of(request.path.as_str());
    let p = path.as_slice();
    // The health check (`GET /api/health`) is public by design.
    let health = equals_str(chars_of(request.method.as_str()).as_slice(), "GET") && equals_str(
        p,
        "/api/health",
    );
    match active_password {
        None => {
            if starts_with_str(p, "/welcome") || starts_with_str(p, "/settings") || starts_with_str(
                p,
                "/api/set-password",
            ) || starts_with_str(p, "/api/auth/") || starts_with_str(p, "/api/verify/")
                || starts_with_str(p, "/api/app-config") || health {
                AuthAction::Proceed
            } else {
                AuthAction::Redirect(RedirectTarget::Welcome)
            }
        },
        Some(pwd) => {
            if equals_str(p, "/welcome") {
                return AuthAction::Redirect(RedirectTarget::Home);
            }
            if starts_with_str(p, "/api/auth/login") || starts_with_str(p, "/api/auth/logout")
                || starts_with_str(p, "/api/verify/") || health {
                return AuthAction::Proceed;
            }
            if starts_with_str(p, "/api/") {
                if starts_with_str(p, "/api/upload") && request.has_api_key {
                    return AuthAction::Proceed;
                }
                if request_session_valid(request, pwd, session_token) {
                    return AuthAction::Proceed;
                }
                return AuthAction::Unauthorized;
            }
            let is_protected_page = equals_str(p, "/") || equals_str(p, "/image_hosting")
                || equals_str(p, "/files") || equals_str(p, "/settings");
            let is_auth = request_session_valid(request, pwd, session_token);
            if is_protected_page {
                if !is_auth {
                    return AuthAction::Redirect(RedirectTarget::Login);
                }
                return AuthAction::Proceed;
            }
            if equals_str(p, "/login") || equals_str(p, "/pwd") {
                if is_auth {
                    return AuthAction::Redirect(RedirectTarget::Home);
                }
                return AuthAction::Proceed;
            }
            if starts_with_str(p, "/share/") {
                return AuthAction::Proceed;
            }
            AuthAction::Proceed
        },
    }
}

} // verus!
