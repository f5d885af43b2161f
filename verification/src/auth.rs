//! Password hashing and checking, session tokens, cookies and upload access.

use vstd::prelude::*;
use vstd::utf8::encode_utf8;

use crate::constants;
use crate::outside::{
    argon2_accepts, argon2_hash, argon2_verify, hex_encode, hex_lower, phc_error_text,
    random_bytes_32, random_salt_bytes, sha256, sha256_digest,
};
use crate::text::{
    ascii_lowercase, chars_eq, chars_of, has_prefix, lower, parse_u32, parse_u32_chars,
    starts_with, trim, trimmed, u32_to_decimal, decimal,
};

verus! {

/// Name of the session cookie.
pub const COOKIE_NAME: &'static str = "tgstate_session";

/// Lower-case hex of the SHA-256 digest of the UTF-8 bytes of `input`.
pub open spec fn sha256_hex_spec(input: Seq<char>) -> Seq<char> {
    hex_lower(sha256(encode_utf8(input)))
}

/// Hex-encoded SHA-256 digest of a string's UTF-8 bytes.
pub fn sha256_hex(input: &str) -> (r: String)
    ensures
        r@ == sha256_hex_spec(input@),
        r@.len() == 64,
        is_lower_hex(r@),
{
    let digest = sha256_digest(input.as_bytes());
    proof {
        lemma_hex_lower(digest@);
    }
    hex_encode(digest.as_slice())
}


/// Constant-time string comparison: whether the two strings are equal.
///
/// The bytes are compared by accumulating `x ^ y` with `|` over the whole
/// length, so the time taken depends on the length only.
pub fn secure_compare(a: &str, b: &str) -> (r: bool)
    ensures
        r == (a@ == b@),
{
    let ab = a.as_bytes();
    let bb = b.as_bytes();
    proof {
        vstd::utf8::encode_utf8_decode_utf8(a@);
        vstd::utf8::encode_utf8_decode_utf8(b@);
    }
    if ab.len() != bb.len() {
        return false;
    }
    let n = ab.len();
    let mut acc: u8 = 0;
    let mut i: usize = 0;
    while i < n
        invariant
            n == ab@.len(),
            n == bb@.len(),
            i <= n,
            (acc == 0) == (forall|k: int| 0 <= k < i ==> ab@[k] == bb@[k]),
        decreases n - i,
    {
        let x = ab[i];
        let y = bb[i];
        let next = acc | (x ^ y);
        assert((next == 0) == (acc == 0 && x == y)) by (bit_vector)
            requires
                next == acc | (x ^ y),
        ;
        acc = next;
        i = i + 1;
    }
    if acc == 0 {
        assert(ab@ =~= bb@);
    }
    acc == 0
}

/// Which of its three answers the upload check gives.
#[derive(Debug, Clone, Copy, PartialEq, Eq, Structural)]
pub enum UploadVerdict {
    Allowed,
    InvalidApiKey,
    LoginRequired,
}

/// A configured secret: present and not empty.
pub open spec fn configured(secret: Option<&str>) -> bool {
    secret matches Some(s) && s@.len() > 0
}

/// A submitted credential equal to the configured one.
pub open spec fn presented(submitted: Option<&str>, secret: Option<&str>) -> bool {
    submitted matches Some(given) && secret matches Some(s) && given@ == s@
}

/// The upload check: open when neither an API key nor a password is set;
/// with only a key, the submitted key must match it; with only a password,
/// the session cookie must match it; with both, either one suffices.
pub open spec fn upload_verdict(
    cookie_value: Option<&str>,
    picgo_api_key: Option<&str>,
    pass_word: Option<&str>,
    submitted_key: Option<&str>,
) -> UploadVerdict {
    let has_picgo = configured(picgo_api_key);
    let has_pwd = configured(pass_word);
    if !has_picgo && !has_pwd {
        UploadVerdict::Allowed
    } else if has_picgo && !has_pwd {
        if presented(submitted_key, picgo_api_key) {
            UploadVerdict::Allowed
        } else {
            UploadVerdict::InvalidApiKey
        }
    } else if !has_picgo && has_pwd {
        if presented(cookie_value, pass_word) {
            UploadVerdict::Allowed
        } else {
            UploadVerdict::LoginRequired
        }
    } else if presented(cookie_value, pass_word) || presented(submitted_key, picgo_api_key) {
        UploadVerdict::Allowed
    } else {
        UploadVerdict::LoginRequired
    }
}

/// The result that `ensure_upload_auth` gives for a verdict.
pub open spec fn upload_result_matches(
    r: Result<(), (u16, &'static str, &'static str)>,
    v: UploadVerdict,
) -> bool {
    match v {
        UploadVerdict::Allowed => r is Ok,
        UploadVerdict::InvalidApiKey => r matches Err((status, message, code)) && status == 401
            && message@ == "无效的 API 密钥"@ && code@ == "invalid_api_key"@,
        UploadVerdict::LoginRequired => r matches Err((status, message, code)) && status == 401
            && message@ == "需要网页登录"@ && code@ == "login_required"@,
    }
}

/// Check upload auth. Returns `Ok(())` if allowed, `Err((status, message, code))` if not.
///
/// `_has_referer` is kept in the signature for call-site compatibility but grants
/// no access on its own: a matching session cookie or submitted key is always
/// required when an API key or password is configured.
pub fn ensure_upload_auth(
    _has_referer: bool,
    cookie_value: Option<&str>,
    picgo_api_key: Option<&str>,
    pass_word: Option<&str>,
    submitted_key: Option<&str>,
) -> (r: Result<(), (u16, &'static str, &'static str)>)
    ensures
        upload_result_matches(r, upload_verdict(cookie_value, picgo_api_key, pass_word, submitted_key)),
{
    let has_picgo = match picgo_api_key {
        Some(k) => !k.is_empty(),
        None => false,
    };
    let has_pwd = match pass_word {
        Some(p) => !p.is_empty(),
        None => false,
    };

    // Neither set: allow all.
    if !has_picgo && !has_pwd {
        return Ok(());
    }

    // Only the API key set: require a matching submitted key.
    if has_picgo && !has_pwd {
        if let Some(key) = submitted_key {
            if secure_compare(key, picgo_api_key.unwrap()) {
                return Ok(());
            }
        }
        return Err((401, "无效的 API 密钥", "invalid_api_key"));
    }

    // Only the password set: require a matching session cookie.
    if !has_picgo && has_pwd {
        if let Some(cookie) = cookie_value {
            if secure_compare(cookie, pass_word.unwrap()) {
                return Ok(());
            }
        }
        return Err((401, "需要网页登录", "login_required"));
    }

    // Both set: accept either a valid session cookie or a valid submitted key.
    if let Some(cookie) = cookie_value {
        if secure_compare(cookie, pass_word.unwrap()) {
            return Ok(());
        }
    }
    if let Some(key) = submitted_key {
        if secure_compare(key, picgo_api_key.unwrap()) {
            return Ok(());
        }
    }
    Err((401, "需要网页登录", "login_required"))
}


/// Lower-case hexadecimal text: every character is one of `0-9a-f`.
pub open spec fn is_lower_hex(s: Seq<char>) -> bool {
    forall|i: int| 0 <= i < s.len() ==> ('0' <= #[trigger] s[i] <= '9' || 'a' <= s[i] <= 'f')
}

pub proof fn lemma_hex_lower(bytes: Seq<u8>)
    ensures
        hex_lower(bytes).len() == 2 * bytes.len(),
        is_lower_hex(hex_lower(bytes)),
    decreases bytes.len(),
{
    if bytes.len() > 0 {
        lemma_hex_lower(bytes.drop_first());
        let h = hex_lower(bytes);
        let t = hex_lower(bytes.drop_first());
        assert(h =~= seq![crate::outside::hex_digit(bytes[0] / 16), crate::outside::hex_digit(bytes[0] % 16)] + t);
        assert forall|i: int| 0 <= i < h.len() implies ('0' <= #[trigger] h[i] <= '9' || 'a' <= h[i] <= 'f') by {
            if i >= 2 {
                assert(h[i] == t[i - 2]);
            }
        }
    }
}

/// A session token: the lower-case hex text of 32 bytes.
pub open spec fn is_session_token(s: Seq<char>) -> bool {
    exists|b: Seq<u8>| b.len() == 32 && s == hex_lower(b)
}

/// The session token for the given 32 random bytes: their lower-case hex text.
pub fn session_token_from_bytes(bytes: &[u8]) -> (r: String)
    requires
        bytes@.len() == 32,
    ensures
        r@ == hex_lower(bytes@),
        is_session_token(r@),
        r@.len() == 64,
        is_lower_hex(r@),
{
    proof {
        lemma_hex_lower(bytes@);
    }
    hex_encode(bytes)
}

/// Generate a cryptographically random session token (32 bytes, hex-encoded
/// to 64 characters).
///
/// This is the value stored as the session token and set as the session
/// cookie. Because the token is independent of the password, cookies cannot
/// be predicted from the password.
pub fn generate_session_token() -> (r: String)
    ensures
        is_session_token(r@),
        r@.len() == 64,
        is_lower_hex(r@),
{
    let bytes = random_bytes_32();
    session_token_from_bytes(bytes.as_slice())
}

/// A stored password value is an Argon2 PHC string (rather than plaintext).
pub open spec fn is_hashed_spec(stored: Seq<char>) -> bool {
    starts_with(stored, "$argon2"@)
}

/// Check if a stored value is an argon2 hash (vs plaintext).
pub fn is_hashed(stored: &str) -> (r: bool)
    ensures
        r == is_hashed_spec(stored@),
{
    has_prefix(chars_of(stored).as_slice(), chars_of("$argon2").as_slice())
}

/// Hash a password using argon2 with a fresh random 16-byte salt.
/// It succeeds for every password of at most 0xFFFF_FFFF bytes.
pub fn hash_password(password: &str) -> (r: Result<String, String>)
    ensures
        r matches Ok(h) ==> argon2_accepts(encode_utf8(password@), h@) && starts_with(
            h@,
            "$argon2id$"@,
        ),
        encode_utf8(password@).len() <= 0xFFFF_FFFF ==> r is Ok,
{
    let salt = random_salt_bytes();
    match argon2_hash(password.as_bytes(), salt.as_slice()) {
        Ok(h) => Ok(h),
        Err(e) => Err(phc_error_text(&e)),
    }
}

/// Verify a password against an argon2 hash; a hash that does not parse
/// accepts nothing.
pub fn verify_password(password: &str, hash: &str) -> (r: bool)
    ensures
        r == argon2_accepts(encode_utf8(password@), hash@),
        !starts_with(hash@, "$"@) ==> !r,
{
    argon2_verify(password.as_bytes(), hash)
}

/// Password check against a stored value that is either an Argon2 hash or
/// plaintext.
pub open spec fn password_matches(input: Seq<char>, stored: Seq<char>) -> bool {
    if is_hashed_spec(stored) {
        argon2_accepts(encode_utf8(input), stored)
    } else {
        input == stored
    }
}

/// Verify password: auto-detect hashed vs plaintext.
pub fn verify_password_auto(input: &str, stored: &str) -> (r: bool)
    ensures
        r == password_matches(input@, stored@),
{
    if is_hashed(stored) {
        verify_password(input, stored)
    } else {
        secure_compare(input, stored)
    }
}


/// A truthy setting: after trimming and lower-casing, one of `1`, `true`, `yes`, `on`.
pub open spec fn truthy(s: Seq<char>) -> bool {
    let t = lower(trim(s));
    t == "1"@ || t == "true"@ || t == "yes"@ || t == "on"@
}

pub fn parse_truthy(s: &str) -> (r: bool)
    ensures
        r == truthy(s@),
{
    let cs = chars_of(s);
    let t = ascii_lowercase(trimmed(cs.as_slice()).as_slice());
    chars_eq(t.as_slice(), chars_of("1").as_slice()) || chars_eq(
        t.as_slice(),
        chars_of("true").as_slice(),
    ) || chars_eq(t.as_slice(), chars_of("yes").as_slice()) || chars_eq(
        t.as_slice(),
        chars_of("on").as_slice(),
    )
}

/// The session cookie's settings, read once from the environment.
#[derive(Debug, Clone, Copy)]
pub struct CookieConfig {
    /// Always mark the cookie `Secure` (the `COOKIE_SECURE` override).
    pub secure_override: bool,
    /// The cookie's `Max-Age` in seconds (`SESSION_MAX_AGE_SECS`).
    pub max_age_secs: u32,
}

/// The `Secure` override from the value of `COOKIE_SECURE`, if set.
pub open spec fn secure_override_from(cookie_secure: Option<&str>) -> bool {
    match cookie_secure {
        Some(v) => truthy(v@),
        None => false,
    }
}

/// The `Max-Age` from the value of `SESSION_MAX_AGE_SECS`, if set: a positive
/// `u32` after trimming, else the default of 24 hours.
pub open spec fn max_age_from(session_max_age: Option<&str>) -> u32 {
    match session_max_age {
        Some(v) => match parse_u32(trim(v@)) {
            Some(n) => if n > 0 {
                n
            } else {
                constants::SESSION_MAX_AGE_SECS
            },
            None => constants::SESSION_MAX_AGE_SECS,
        },
        None => constants::SESSION_MAX_AGE_SECS,
    }
}

impl CookieConfig {
    /// The settings from the values of the `COOKIE_SECURE` and
    /// `SESSION_MAX_AGE_SECS` environment variables (`None` where unset).
    pub fn from_env_values(cookie_secure: Option<&str>, session_max_age: Option<&str>) -> (c:
        CookieConfig)
        ensures
            c.secure_override == secure_override_from(cookie_secure),
            c.max_age_secs == max_age_from(session_max_age),
            c.max_age_secs > 0,
    {
        let secure_override = match cookie_secure {
            Some(v) => parse_truthy(v),
            None => false,
        };
        let max_age_secs = match session_max_age {
            Some(v) => {
                let t = trimmed(chars_of(v).as_slice());
                match parse_u32_chars(t.as_slice()) {
                    Some(n) => if n > 0 {
                        n
                    } else {
                        constants::SESSION_MAX_AGE_SECS
                    },
                    None => constants::SESSION_MAX_AGE_SECS,
                }
            },
            None => constants::SESSION_MAX_AGE_SECS,
        };
        CookieConfig { secure_override, max_age_secs }
    }
}

/// The `Set-Cookie` value for a session cookie.
pub open spec fn session_cookie(value: Seq<char>, secure: bool, max_age: u32) -> Seq<char> {
    COOKIE_NAME@ + "="@ + value + "; HttpOnly; SameSite=Strict; Path=/; Max-Age="@ + decimal(
        max_age as nat,
    ) + if secure {
        "; Secure"@
    } else {
        ""@
    }
}

/// Build a session cookie string with security flags.
///
/// It is marked `Secure` when the request came over HTTPS or the
/// configuration forces it; its `Max-Age` is the configured one.
pub fn build_cookie(value: &str, is_https: bool, config: &CookieConfig) -> (r: String)
    ensures
        r@ == session_cookie(value@, is_https || config.secure_override, config.max_age_secs),
{
    let secure = is_https || config.secure_override;
    let mut r = String::from_str(COOKIE_NAME);
    r.append("=");
    r.append(value);
    r.append("; HttpOnly; SameSite=Strict; Path=/; Max-Age=");
    let digits = u32_to_decimal(config.max_age_secs);
    let ghost before = r@;
    let mut i: usize = 0;
    while i < digits.len()
        invariant
            i <= digits@.len(),
            r@ == before + digits@.subrange(0, i as int),
        decreases digits@.len() - i,
    {
        r.push(digits[i]);
        i = i + 1;
    }
    assert(digits@.subrange(0, digits@.len() as int) =~= digits@);
    if secure {
        r.append("; Secure");
    } else {
        r.append("");
    }
    r
}

/// The `Set-Cookie` value that clears the session.
pub open spec fn clear_cookie() -> Seq<char> {
    COOKIE_NAME@ + "=; HttpOnly; SameSite=Strict; Path=/; Max-Age=0"@
}

/// Build a cookie that clears the session.
pub fn build_clear_cookie() -> (r: String)
    ensures
        r@ == clear_cookie(),
{
    let mut r = String::from_str(COOKIE_NAME);
    r.append("=; HttpOnly; SameSite=Strict; Path=/; Max-Age=0");
    r
}

} // verus!
