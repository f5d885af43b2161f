//! The login and logout endpoints' logic.

use vstd::prelude::*;

use crate::auth::{
    build_cookie, generate_session_token, is_session_token, password_matches, session_cookie,
    verify_password_auto, CookieConfig,
};
use crate::text::{chars_eq, chars_of, string_of, trim, trimmed};

verus! {

/// The body of a login request.
#[derive(Debug)]
pub struct LoginRequest {
    password: String,
}

impl View for LoginRequest {
    type V = Seq<char>;

    /// The submitted password.
    closed spec fn view(&self) -> Seq<char> {
        self.password@
    }
}

impl LoginRequest {
    pub fn new(password: String) -> (r: LoginRequest)
        ensures
            r@ == password@,
    {
        LoginRequest { password }
    }

    /// The submitted password.
    pub fn password(&self) -> (r: &str)
        ensures
            r@ == self@,
    {
        self.password.as_str()
    }
}

/// The request came through a proxy that terminated HTTPS: its
/// `x-forwarded-proto` header reads `https`.
pub fn is_https(forwarded_proto: Option<&str>) -> (r: bool)
    ensures
        r == (forwarded_proto matches Some(v) && v@ == "https"@),
{
    match forwarded_proto {
        Some(v) => chars_eq(chars_of(v).as_slice(), chars_of("https").as_slice()),
        None => false,
    }
}

/// The answer to a login request.
#[derive(Debug)]
pub enum LoginOutcome {
    /// 200: `session_token` becomes the stored session token, and the
    /// response sets `cookie`, which carries it.
    Success { cookie: String, session_token: String },
    /// 401, wrong password (or no password is set).
    Failure,
}

/// A login succeeds when a password is set and the trimmed input matches the
/// trimmed stored value (Argon2 hash or plaintext).
pub open spec fn login_accepted(active_password: Option<Seq<char>>, input: Seq<char>) -> bool {
    active_password matches Some(p) && password_matches(trim(input), trim(p))
}

/// The session cookie that a successful login sets: its value is the new
/// session token.
pub open spec fn login_cookie(session_token: Seq<char>, is_https: bool, config: CookieConfig) -> Seq<
    char,
> {
    session_cookie(session_token, is_https || config.secure_override, config.max_age_secs)
}

/// Whether the submitted password opens a session.
pub fn password_accepted(request: &LoginRequest, active_password: Option<&str>) -> (r: bool)
    ensures
        r == login_accepted(crate::middleware::auth::opt_str_view(active_password), request@),
{
    match active_password {
        Some(pwd) => {
            let input = string_of(trimmed(chars_of(request.password()).as_slice()).as_slice());
            let stored = string_of(trimmed(chars_of(pwd).as_slice()).as_slice());
            verify_password_auto(input.as_str(), stored.as_str())
        },
        None => false,
    }
}

/// The answer to an accepted login, given its new session token.
pub fn login_success(session_token: String, is_https: bool, config: &CookieConfig) -> (r:
    LoginOutcome)
    ensures
        r matches LoginOutcome::Success { cookie, session_token: t } && t@ == session_token@
            && cookie@ == login_cookie(session_token@, is_https, *config),
{
    let cookie = build_cookie(session_token.as_str(), is_https, config);
    LoginOutcome::Success { cookie, session_token }
}

/// The login handler's answer, given the active password (if one is set).
/// An accepted login draws a fresh random session token, which replaces the
/// stored one, so earlier sessions end; the cookie carries the token and so
/// cannot be computed from the password.
pub fn login_outcome(
    request: &LoginRequest,
    active_password: Option<&str>,
    is_https: bool,
    config: &CookieConfig,
) -> (r: LoginOutcome)
    ensures
        match r {
            LoginOutcome::Success { cookie, session_token } => login_accepted(
                crate::middleware::auth::opt_str_view(active_password),
                request@,
            ) && is_session_token(session_token@) && cookie@ == login_cookie(
                session_token@,
                is_https,
                *config,
            ),
            LoginOutcome::Failure => !login_accepted(
                crate::middleware::auth::opt_str_view(active_password),
                request@,
            ),
        },
{
    if password_accepted(request, active_password) {
        let token = generate_session_token();
        login_success(token, is_https, config)
    } else {
        LoginOutcome::Failure
    }
}

} // verus!
