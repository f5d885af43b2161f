//! Properties of the library that span its functions.

use vstd::prelude::*;
use vstd::utf8::encode_utf8;

use crate::auth::{
    configured, is_hashed_spec, is_session_token, lemma_hex_lower, password_matches, presented,
    session_cookie, upload_verdict, CookieConfig, UploadVerdict, COOKIE_NAME,
};
use crate::middleware::auth::{
    auth_decision_spec, cookie_lookup, csrf_ok, early_decision_spec, is_health_check,
    is_protected_page, is_public_api, is_static_public, opt_view, session_cookie_of, session_valid, AuthAction,
    RedirectTarget, RequestInfo,
};
use crate::outside::{argon2_accepts, hex_lower};
use crate::routes::api_auth::{login_accepted, login_cookie};
use crate::text::{index_of, is_ws, lemma_index_of, starts_with, trim, trim_end, trim_start};

verus! {

/// Upload access: with neither an API key nor a password configured every
/// upload is allowed; otherwise an upload is allowed exactly when it presents
/// a configured credential (the matching API key, or a session cookie equal
/// to the password). Nothing else, such as a `Referer`, grants access.
pub proof fn lemma_upload_needs_credential(
    cookie_value: Option<&str>,
    picgo_api_key: Option<&str>,
    pass_word: Option<&str>,
    submitted_key: Option<&str>,
)
    ensures
        (upload_verdict(cookie_value, picgo_api_key, pass_word, submitted_key)
            == UploadVerdict::Allowed) <==> ((!configured(picgo_api_key) && !configured(pass_word))
            || (configured(picgo_api_key) && presented(submitted_key, picgo_api_key)) || (
        configured(pass_word) && presented(cookie_value, pass_word))),
{
}

/// A password verifies against the hash that hashing it produced: such a
/// hash is recognised as hashed, and the automatic check accepts the password.
pub proof fn lemma_hashed_password_verifies(password: Seq<char>, hash: Seq<char>)
    requires
        argon2_accepts(encode_utf8(password), hash),
        starts_with(hash, "$argon2id$"@),
    ensures
        is_hashed_spec(hash),
        password_matches(password, hash),
{
    reveal_strlit("$argon2id$");
    reveal_strlit("$argon2");
    assert(hash.subrange(0, 7) =~= "$argon2"@) by {
        assert forall|i: int| 0 <= i < 7 implies hash.subrange(0, 7)[i] == "$argon2"@[i] by {
            assert(hash.subrange(0, 7)[i] == hash.subrange(0, 10)[i]);
        }
    }
}

/// The decision taken before the password settings are read is the final
/// one, whatever the settings turn out to be.
pub proof fn lemma_early_decision_is_final(
    request: RequestInfo,
    active_password: Option<Seq<char>>,
    session_token: Option<Seq<char>>,
)
    requires
        early_decision_spec(request) is Some,
    ensures
        auth_decision_spec(request, active_password, session_token) == early_decision_spec(
            request,
        )->0,
{
}

/// Safe methods (`GET`, `HEAD`, `OPTIONS`) always pass the CSRF check.
pub proof fn lemma_safe_methods_pass_csrf(
    method: Seq<char>,
    path: Seq<char>,
    has_api_key: bool,
    host: Option<Seq<char>>,
    origin: Option<Seq<char>>,
    referer: Option<Seq<char>>,
)
    requires
        method == "GET"@ || method == "HEAD"@ || method == "OPTIONS"@,
    ensures
        csrf_ok(method, path, has_api_key, host, origin, referer),
{
}


/// The `name=value` pair at the head of a `Set-Cookie` value: what a browser
/// sends back in its `Cookie` header.
pub open spec fn cookie_pair(set_cookie: Seq<char>) -> Seq<char> {
    set_cookie.subrange(0, index_of(set_cookie, ';') as int)
}

proof fn lemma_index_of_at(s: Seq<char>, c: char, i: int)
    requires
        0 <= i <= s.len(),
        forall|k: int| 0 <= k < i ==> s[k] != c,
        i < s.len() ==> s[i] == c,
    ensures
        index_of(s, c) == i,
{
    lemma_index_of(s, c);
}

/// A session cookie reads back: the `name=value` pair of a cookie that
/// `build_cookie` wrote for `value`, sent back as the `Cookie` header, gives
/// `value` to the middleware's cookie lookup, provided `value` holds no `;`
/// and does not end in whitespace.
pub proof fn lemma_session_cookie_roundtrip(value: Seq<char>, secure: bool, max_age: u32)
    requires
        forall|k: int| 0 <= k < value.len() ==> value[k] != ';',
        value.len() > 0 ==> !is_ws(value.last()),
    ensures
        session_cookie_of(Some(cookie_pair(session_cookie(value, secure, max_age)))) == Some(
            value,
        ),
{
    reveal_strlit("tgstate_session");
    reveal_strlit("=");
    reveal_strlit("; HttpOnly; SameSite=Strict; Path=/; Max-Age=");
    let key = COOKIE_NAME@ + "="@;
    assert(key.len() == 16);
    let n = 16 + value.len();
    let c = session_cookie(value, secure, max_age);
    let rest = "; HttpOnly; SameSite=Strict; Path=/; Max-Age="@;
    let pair = key + value;
    assert(c.subrange(0, n as int) =~= pair);
    assert(c[n as int] == ';') by {
        assert(c[n as int] == rest[0]);
    }
    assert forall|k: int| 0 <= k < n implies pair[k] != ';' by {
        if k >= 16 {
            assert(pair[k] == value[k - 16]);
        }
    }
    assert forall|k: int| 0 <= k < n implies c[k] != ';' by {
        assert(c[k] == pair[k]);
    }
    lemma_index_of_at(c, ';', n as int);
    assert(cookie_pair(c) == pair);
    lemma_index_of_at(pair, ';', n as int);
    assert(pair.subrange(0, n as int) =~= pair);
    assert(!is_ws(pair[0]));
    assert(trim_start(pair) == pair);
    if value.len() > 0 {
        assert(pair.last() == value.last());
    } else {
        assert(pair.last() == '=');
    }
    assert(!is_ws(pair.last()));
    assert(trim_end(pair) == pair);
    assert(starts_with(pair, key)) by {
        assert(pair.subrange(0, 16) =~= key);
    }
    assert(pair.subrange(16, n as int) =~= value);
    assert(cookie_lookup(pair, key) == Some(value));
}

proof fn lemma_token_cookie_reads_back(token: Seq<char>, is_https: bool, config: CookieConfig)
    requires
        is_session_token(token),
    ensures
        session_cookie_of(Some(cookie_pair(login_cookie(token, is_https, config)))) == Some(token),
        token.len() > 0,
{
    let b = choose|b: Seq<u8>| b.len() == 32 && token == hex_lower(b);
    lemma_hex_lower(b);
    assert forall|k: int| 0 <= k < token.len() implies token[k] != ';' by {
        assert('0' <= token[k] <= '9' || 'a' <= token[k] <= 'f');
    }
    assert('0' <= token[token.len() - 1] <= '9' || 'a' <= token[token.len() - 1] <= 'f');
    lemma_session_cookie_roundtrip(token, is_https || config.secure_override, config.max_age_secs);
}

/// The session cookie set by a successful login opens a session: once its
/// session token is stored, the cookie that the browser sends back passes
/// the middleware's session check, whatever the password (plaintext or
/// Argon2 hash).
pub proof fn lemma_login_cookie_opens_session(
    session_token: Seq<char>,
    is_https: bool,
    config: CookieConfig,
    active_pwd: Seq<char>,
)
    requires
        is_session_token(session_token),
    ensures
        session_valid(
            session_cookie_of(Some(cookie_pair(login_cookie(session_token, is_https, config)))),
            active_pwd,
            Some(session_token),
        ),
{
    lemma_token_cookie_reads_back(session_token, is_https, config);
}

/// Logging in again ends earlier sessions: once a new session token is
/// stored, the cookie of an earlier login with another token no longer
/// passes the session check.
pub proof fn lemma_new_login_ends_old_session(
    old_token: Seq<char>,
    new_token: Seq<char>,
    is_https: bool,
    config: CookieConfig,
    active_pwd: Seq<char>,
)
    requires
        is_session_token(old_token),
        is_session_token(new_token),
        old_token != new_token,
    ensures
        !session_valid(
            session_cookie_of(Some(cookie_pair(login_cookie(old_token, is_https, config)))),
            active_pwd,
            Some(new_token),
        ),
{
    lemma_token_cookie_reads_back(old_token, is_https, config);
    lemma_token_cookie_reads_back(new_token, is_https, config);
}

proof fn lemma_prefix_clash(s: Seq<char>, p: Seq<char>, q: Seq<char>, i: int)
    requires
        starts_with(s, p),
        0 <= i < p.len(),
        i < q.len(),
        p[i] != q[i],
    ensures
        !starts_with(s, q),
        s != q,
{
    assert(s.subrange(0, p.len() as int)[i] == s[i]);
    if starts_with(s, q) {
        assert(s.subrange(0, q.len() as int)[i] == s[i]);
    }
    if s == q {
        assert(s[i] == q[i]);
    }
}

/// Downloads and static files are public: a request for a path under `/d`,
/// `/static` or `/favicon.ico` that passes the CSRF check is handed on,
/// whatever the password settings and cookies.
pub proof fn lemma_downloads_are_public(
    request: RequestInfo,
    active_password: Option<Seq<char>>,
    session_token: Option<Seq<char>>,
)
    requires
        csrf_ok(
            request.method@,
            request.path@,
            request.has_api_key,
            opt_view(request.host),
            opt_view(request.origin),
            opt_view(request.referer),
        ),
        starts_with(request.path@, "/d"@) || starts_with(request.path@, "/static"@)
            || starts_with(request.path@, "/favicon.ico"@),
    ensures
        auth_decision_spec(request, active_password, session_token) == AuthAction::Proceed,
{
}

/// Share pages are public once a password is set: a request for a path under
/// `/share/` that passes the CSRF check is handed on without a session.
pub proof fn lemma_share_pages_are_public(
    request: RequestInfo,
    active_password: Seq<char>,
    session_token: Option<Seq<char>>,
)
    requires
        csrf_ok(
            request.method@,
            request.path@,
            request.has_api_key,
            opt_view(request.host),
            opt_view(request.origin),
            opt_view(request.referer),
        ),
        starts_with(request.path@, "/share/"@),
    ensures
        auth_decision_spec(request, Some(active_password), session_token) == AuthAction::Proceed,
{
    let path = request.path@;
    let share = "/share/"@;
    reveal_strlit("/share/");
    reveal_strlit("/static");
    reveal_strlit("/d");
    reveal_strlit("/favicon.ico");
    reveal_strlit("/welcome");
    reveal_strlit("/api/auth/login");
    reveal_strlit("/api/auth/logout");
    reveal_strlit("/api/verify/");
    reveal_strlit("/api/health");
    reveal_strlit("/api/");
    reveal_strlit("/");
    reveal_strlit("/image_hosting");
    reveal_strlit("/files");
    reveal_strlit("/settings");
    reveal_strlit("/login");
    reveal_strlit("/pwd");
    assert(share[1] == 's' && share[2] == 'h');
    assert("/static"@[2] == 't');
    assert("/settings"@[2] == 'e');
    lemma_prefix_clash(path, share, "/static"@, 2);
    lemma_prefix_clash(path, share, "/d"@, 1);
    lemma_prefix_clash(path, share, "/favicon.ico"@, 1);
    lemma_prefix_clash(path, share, "/welcome"@, 1);
    lemma_prefix_clash(path, share, "/api/auth/login"@, 1);
    lemma_prefix_clash(path, share, "/api/auth/logout"@, 1);
    lemma_prefix_clash(path, share, "/api/verify/"@, 1);
    lemma_prefix_clash(path, share, "/api/health"@, 1);
    lemma_prefix_clash(path, share, "/api/"@, 1);
    lemma_prefix_clash(path, share, "/image_hosting"@, 1);
    lemma_prefix_clash(path, share, "/files"@, 1);
    lemma_prefix_clash(path, share, "/settings"@, 2);
    lemma_prefix_clash(path, share, "/login"@, 1);
    lemma_prefix_clash(path, share, "/pwd"@, 1);
    assert(path != "/"@);
}


/// Access control once a password is set: a request for a protected page,
/// or for an API path other than the public ones (login, logout,
/// verification links, `GET /api/health`) and key-bearing uploads, is never handed on
/// without a valid session cookie.
pub proof fn lemma_protected_needs_session(
    request: RequestInfo,
    active_password: Seq<char>,
    session_token: Option<Seq<char>>,
)
    requires
        is_protected_page(request.path@) || (starts_with(request.path@, "/api/"@) && !is_public_api(
            request.path@,
        ) && !is_health_check(request.method@, request.path@) && !(starts_with(
            request.path@,
            "/api/upload"@,
        ) && request.has_api_key)),
        !session_valid(
            session_cookie_of(opt_view(request.cookie_header)),
            active_password,
            session_token,
        ),
    ensures
        auth_decision_spec(request, Some(active_password), session_token) != AuthAction::Proceed,
{
    let path = request.path@;
    reveal_strlit("/static");
    reveal_strlit("/d");
    reveal_strlit("/favicon.ico");
    reveal_strlit("/welcome");
    reveal_strlit("/api/");
    reveal_strlit("/");
    reveal_strlit("/image_hosting");
    reveal_strlit("/files");
    reveal_strlit("/settings");
    reveal_strlit("/api/auth/login");
    reveal_strlit("/api/auth/logout");
    reveal_strlit("/api/verify/");
    reveal_strlit("/api/health");
    assert("/static"@[1] == 's' && "/d"@[1] == 'd' && "/favicon.ico"@[1] == 'f');
    assert("/welcome"@[1] == 'w' && "/api/"@[1] == 'a');
    if starts_with(path, "/api/"@) {
        lemma_prefix_clash(path, "/api/"@, "/static"@, 1);
        lemma_prefix_clash(path, "/api/"@, "/d"@, 1);
        lemma_prefix_clash(path, "/api/"@, "/favicon.ico"@, 1);
        lemma_prefix_clash(path, "/api/"@, "/welcome"@, 1);
        assert("/image_hosting"@[1] == 'i' && "/files"@[1] == 'f' && "/settings"@[1] == 's');
        lemma_prefix_clash(path, "/api/"@, "/image_hosting"@, 1);
        lemma_prefix_clash(path, "/api/"@, "/files"@, 1);
        lemma_prefix_clash(path, "/api/"@, "/settings"@, 1);
        assert(path != "/"@);
        assert(!is_static_public(path));
    } else if path == "/"@ {
        assert(!is_static_public(path));
    } else {
        let page = if path == "/image_hosting"@ {
            "/image_hosting"@
        } else if path == "/files"@ {
            "/files"@
        } else {
            "/settings"@
        };
        assert(path == page);
        assert(starts_with(path, page)) by {
            assert(path.subrange(0, path.len() as int) =~= path);
        }
        assert("/image_hosting"@[1] == 'i' && "/files"@[1] == 'f' && "/settings"@[1] == 's');
        assert("/files"@[2] == 'i' && "/favicon.ico"@[2] == 'a');
        assert("/settings"@[2] == 'e' && "/static"@[2] == 't');
        if path == "/image_hosting"@ {
            lemma_prefix_clash(path, page, "/static"@, 1);
            lemma_prefix_clash(path, page, "/d"@, 1);
            lemma_prefix_clash(path, page, "/favicon.ico"@, 1);
            lemma_prefix_clash(path, page, "/welcome"@, 1);
            lemma_prefix_clash(path, page, "/api/"@, 1);
            lemma_prefix_clash(path, page, "/api/auth/login"@, 1);
            lemma_prefix_clash(path, page, "/api/auth/logout"@, 1);
            lemma_prefix_clash(path, page, "/api/verify/"@, 1);
            lemma_prefix_clash(path, page, "/api/health"@, 1);
        } else if path == "/files"@ {
            lemma_prefix_clash(path, page, "/static"@, 1);
            lemma_prefix_clash(path, page, "/d"@, 1);
            lemma_prefix_clash(path, page, "/favicon.ico"@, 2);
            lemma_prefix_clash(path, page, "/welcome"@, 1);
            lemma_prefix_clash(path, page, "/api/"@, 1);
            lemma_prefix_clash(path, page, "/api/auth/login"@, 1);
            lemma_prefix_clash(path, page, "/api/auth/logout"@, 1);
            lemma_prefix_clash(path, page, "/api/verify/"@, 1);
            lemma_prefix_clash(path, page, "/api/health"@, 1);
        } else {
            lemma_prefix_clash(path, page, "/static"@, 2);
            lemma_prefix_clash(path, page, "/d"@, 1);
            lemma_prefix_clash(path, page, "/favicon.ico"@, 1);
            lemma_prefix_clash(path, page, "/welcome"@, 1);
            lemma_prefix_clash(path, page, "/api/"@, 1);
            lemma_prefix_clash(path, page, "/api/auth/login"@, 1);
            lemma_prefix_clash(path, page, "/api/auth/logout"@, 1);
            lemma_prefix_clash(path, page, "/api/verify/"@, 1);
            lemma_prefix_clash(path, page, "/api/health"@, 1);
        }
        assert(!is_static_public(path));
    }
}


/// The health check is public by design: `GET /api/health` is handed on
/// whatever the password settings and cookies.
pub proof fn lemma_health_check_is_public(
    request: RequestInfo,
    active_password: Option<Seq<char>>,
    session_token: Option<Seq<char>>,
)
    requires
        is_health_check(request.method@, request.path@),
    ensures
        auth_decision_spec(request, active_password, session_token) == AuthAction::Proceed,
{
    let path = request.path@;
    let health = "/api/health"@;
    reveal_strlit("/api/health");
    reveal_strlit("/static");
    reveal_strlit("/d");
    reveal_strlit("/favicon.ico");
    reveal_strlit("/welcome");
    assert(health[1] == 'a' && "/static"@[1] == 's' && "/d"@[1] == 'd');
    assert("/favicon.ico"@[1] == 'f' && "/welcome"@[1] == 'w');
    assert(starts_with(path, health)) by {
        assert(path.subrange(0, path.len() as int) =~= path);
    }
    lemma_prefix_clash(path, health, "/static"@, 1);
    lemma_prefix_clash(path, health, "/d"@, 1);
    lemma_prefix_clash(path, health, "/favicon.ico"@, 1);
    lemma_prefix_clash(path, health, "/welcome"@, 1);
}


/// Facts about the four protected page paths, from their text alone.
proof fn lemma_page_path_facts(path: Seq<char>)
    requires
        path == "/"@ || path == "/image_hosting"@ || path == "/files"@ || path == "/settings"@,
    ensures
        !is_static_public(path),
        path != "/welcome"@,
        path != "/login"@,
        path != "/pwd"@,
        path != "/api/health"@,
        !is_public_api(path),
        !starts_with(path, "/api/"@),
{
    reveal_strlit("/static");
    reveal_strlit("/d");
    reveal_strlit("/favicon.ico");
    reveal_strlit("/welcome");
    reveal_strlit("/login");
    reveal_strlit("/pwd");
    reveal_strlit("/api/");
    reveal_strlit("/api/auth/login");
    reveal_strlit("/api/auth/logout");
    reveal_strlit("/api/verify/");
    reveal_strlit("/api/health");
    reveal_strlit("/");
    reveal_strlit("/image_hosting");
    reveal_strlit("/files");
    reveal_strlit("/settings");
    if path == "/"@ {
        assert(path.len() == 1);
    } else {
        let page = path;
        assert(starts_with(path, page)) by {
            assert(path.subrange(0, path.len() as int) =~= path);
        }
        assert("/static"@[1] == 's' && "/d"@[1] == 'd' && "/favicon.ico"@[1] == 'f');
        assert("/welcome"@[1] == 'w' && "/api/"@[1] == 'a' && "/login"@[1] == 'l');
        assert("/pwd"@[1] == 'p' && "/api/health"@[1] == 'a' && "/api/verify/"@[1] == 'a');
        assert("/api/auth/login"@[1] == 'a' && "/api/auth/logout"@[1] == 'a');
        assert("/favicon.ico"@[2] == 'a' && "/static"@[2] == 't');
        if path == "/image_hosting"@ {
            assert(page[1] == 'i');
            lemma_prefix_clash(path, page, "/static"@, 1);
            lemma_prefix_clash(path, page, "/favicon.ico"@, 1);
        } else if path == "/files"@ {
            assert(page[1] == 'f' && page[2] == 'i');
            lemma_prefix_clash(path, page, "/static"@, 1);
            lemma_prefix_clash(path, page, "/favicon.ico"@, 2);
        } else {
            assert(page[1] == 's' && page[2] == 'e');
            lemma_prefix_clash(path, page, "/static"@, 2);
            lemma_prefix_clash(path, page, "/favicon.ico"@, 1);
        }
        lemma_prefix_clash(path, page, "/d"@, 1);
        lemma_prefix_clash(path, page, "/welcome"@, 1);
        lemma_prefix_clash(path, page, "/login"@, 1);
        lemma_prefix_clash(path, page, "/pwd"@, 1);
        lemma_prefix_clash(path, page, "/api/"@, 1);
        lemma_prefix_clash(path, page, "/api/health"@, 1);
        lemma_prefix_clash(path, page, "/api/auth/login"@, 1);
        lemma_prefix_clash(path, page, "/api/auth/logout"@, 1);
        lemma_prefix_clash(path, page, "/api/verify/"@, 1);
    }
}

/// Once a password is set, a visit to a protected page (`/`,
/// `/image_hosting`, `/files`, `/settings`) that passes the CSRF check but
/// carries no valid session is redirected to `/login`.
pub proof fn lemma_unauthenticated_pages_go_to_login(
    request: RequestInfo,
    active_password: Seq<char>,
    session_token: Option<Seq<char>>,
)
    requires
        csrf_ok(
            request.method@,
            request.path@,
            request.has_api_key,
            opt_view(request.host),
            opt_view(request.origin),
            opt_view(request.referer),
        ),
        request.path@ == "/"@ || request.path@ == "/image_hosting"@ || request.path@ == "/files"@
            || request.path@ == "/settings"@,
        !session_valid(
            session_cookie_of(opt_view(request.cookie_header)),
            active_password,
            session_token,
        ),
    ensures
        auth_decision_spec(request, Some(active_password), session_token) == AuthAction::Redirect(
            RedirectTarget::Login,
        ),
{
    lemma_page_path_facts(request.path@);
}

/// Once a password is set, a valid session opens everything: a request that
/// passes the CSRF check and carries a session cookie that the session check
/// accepts is handed on, whatever its method, for every path but `/welcome`,
/// `/login` and `/pwd` (which send a logged-in user home).
pub proof fn lemma_valid_session_proceeds(
    request: RequestInfo,
    active_password: Seq<char>,
    session_token: Option<Seq<char>>,
)
    requires
        csrf_ok(
            request.method@,
            request.path@,
            request.has_api_key,
            opt_view(request.host),
            opt_view(request.origin),
            opt_view(request.referer),
        ),
        session_valid(
            session_cookie_of(opt_view(request.cookie_header)),
            active_password,
            session_token,
        ),
        request.path@ != "/welcome"@,
        request.path@ != "/login"@,
        request.path@ != "/pwd"@,
    ensures
        auth_decision_spec(request, Some(active_password), session_token) == AuthAction::Proceed,
{
}

/// A same-origin request passes the CSRF check: an `Origin` of `http://` or
/// `https://` followed by exactly the `Host` header's text (a name, or an
/// address with a port such as `1.2.3.4:8000`) is accepted, whatever the
/// method, path and `Referer`.
pub proof fn lemma_same_origin_passes_csrf(
    method: Seq<char>,
    path: Seq<char>,
    has_api_key: bool,
    host: Seq<char>,
    referer: Option<Seq<char>>,
)
    ensures
        csrf_ok(method, path, has_api_key, Some(host), Some("http://"@ + host), referer),
        csrf_ok(method, path, has_api_key, Some(host), Some("https://"@ + host), referer),
{
    reveal_strlit("http://");
    reveal_strlit("https://");
    let a = "http://"@ + host;
    let b = "https://"@ + host;
    assert(a.subrange(0, 7) =~= "http://"@);
    assert(a.subrange(7, a.len() as int) =~= host);
    assert(b.subrange(0, 8) =~= "https://"@);
    assert(b.subrange(8, b.len() as int) =~= host);
    assert(b[4] == 's' && "http://"@[4] == ':');
    assert(!starts_with(b, "http://"@)) by {
        if starts_with(b, "http://"@) {
            assert(b.subrange(0, 7)[4] == b[4]);
        }
    }
}

/// Without an `Origin`, a `Referer` of `http://` or `https://`, then exactly
/// the `Host` header's text (holding no `/`), then a path, passes the CSRF
/// check.
pub proof fn lemma_same_origin_referer_passes_csrf(
    method: Seq<char>,
    path: Seq<char>,
    has_api_key: bool,
    host: Seq<char>,
    rest: Seq<char>,
)
    requires
        forall|k: int| 0 <= k < host.len() ==> host[k] != '/',
    ensures
        csrf_ok(method, path, has_api_key, Some(host), None, Some("http://"@ + host + "/"@ + rest)),
        csrf_ok(method, path, has_api_key, Some(host), None, Some("https://"@ + host + "/"@ + rest)),
{
    reveal_strlit("http://");
    reveal_strlit("https://");
    reveal_strlit("/");
    let after = host + "/"@ + rest;
    assert forall|k: int| 0 <= k < host.len() implies after[k] != '/' by {
        assert(after[k] == host[k]);
    }
    assert(after[host.len() as int] == '/');
    lemma_index_of_at(after, '/', host.len() as int);
    assert(after.subrange(0, host.len() as int) =~= host);
    let a = "http://"@ + after;
    let b = "https://"@ + after;
    assert(a.subrange(0, 7) =~= "http://"@);
    assert(a.subrange(7, a.len() as int) =~= after);
    assert(a =~= "http://"@ + host + "/"@ + rest);
    assert(b.subrange(0, 8) =~= "https://"@);
    assert(b.subrange(8, b.len() as int) =~= after);
    assert(b =~= "https://"@ + host + "/"@ + rest);
    assert(b[4] == 's' && "http://"@[4] == ':');
    assert(!starts_with(b, "http://"@)) by {
        if starts_with(b, "http://"@) {
            assert(b.subrange(0, 7)[4] == b[4]);
        }
    }
}

/// A plaintext stored password (one not beginning with `$argon2`) matches
/// exactly the identical input, whatever characters it holds (non-ASCII,
/// spaces, emoji).
pub proof fn lemma_plaintext_password_matches_itself(input: Seq<char>, stored: Seq<char>)
    requires
        !starts_with(stored, "$argon2"@),
    ensures
        password_matches(stored, stored),
        password_matches(input, stored) <==> input == stored,
{
}

/// A stored Argon2 hash matches exactly the inputs whose UTF-8 bytes Argon2
/// accepts against it.
pub proof fn lemma_hashed_password_matches(input: Seq<char>, stored: Seq<char>)
    requires
        starts_with(stored, "$argon2"@),
    ensures
        password_matches(input, stored) <==> argon2_accepts(encode_utf8(input), stored),
{
}

/// Login compares the submitted password with the stored one after trimming
/// both and nothing else: the same password (up to surrounding whitespace)
/// logs in against a plaintext stored password, and against a stored Argon2
/// hash exactly the trimmed inputs that Argon2 accepts do.
pub proof fn lemma_login_accepts_the_password(input: Seq<char>, stored: Seq<char>)
    ensures
        !starts_with(trim(stored), "$argon2"@) ==> (login_accepted(Some(stored), input) <==> trim(
            input,
        ) == trim(stored)),
        starts_with(trim(stored), "$argon2"@) ==> (login_accepted(Some(stored), input)
            <==> argon2_accepts(encode_utf8(trim(input)), trim(stored))),
        login_accepted(Some(stored), stored) || starts_with(trim(stored), "$argon2"@),
        !login_accepted(None, input),
{
}

} // verus!
