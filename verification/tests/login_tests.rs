use tgstate::auth::{build_cookie, hash_password, sha256_hex, CookieConfig};
use tgstate::middleware::auth::{auth_decision, AuthAction, RequestInfo};
use tgstate::routes::api_auth::{
    is_https, login_outcome, login_success, password_accepted, LoginOutcome, LoginRequest,
};

fn config() -> CookieConfig {
    CookieConfig::from_env_values(None, None)
}

#[test]
fn login_request_holds_password() {
    let r = LoginRequest::new("  pw ".to_string());
    assert_eq!(r.password(), "  pw ");
}

#[test]
fn is_https_only_for_https() {
    assert!(is_https(Some("https")));
    assert!(!is_https(Some("http")));
    assert!(!is_https(Some("HTTPS")));
    assert!(!is_https(None));
}

#[test]
fn login_with_plaintext_password() {
    let r = LoginRequest::new(" pw\n".to_string());
    match login_outcome(&r, Some("  pw "), false, &config()) {
        LoginOutcome::Success { cookie, session_token } => {
            assert_eq!(session_token.len(), 64);
            assert!(session_token.chars().all(|c| c.is_ascii_digit() || ('a'..='f').contains(&c)));
            assert_eq!(cookie, build_cookie(&session_token, false, &config()));
            assert_eq!(
                cookie,
                format!(
                    "tgstate_session={}; HttpOnly; SameSite=Strict; Path=/; Max-Age=86400",
                    session_token
                )
            );
            // The cookie is not computable from the password.
            assert_ne!(session_token, sha256_hex("pw"));
        }
        LoginOutcome::Failure => panic!("expected success"),
    }
}

#[test]
fn login_success_carries_token() {
    match login_success("tok".to_string(), true, &config()) {
        LoginOutcome::Success { cookie, session_token } => {
            assert_eq!(session_token, "tok");
            assert_eq!(
                cookie,
                "tgstate_session=tok; HttpOnly; SameSite=Strict; Path=/; Max-Age=86400; Secure"
            );
        }
        LoginOutcome::Failure => panic!("expected success"),
    }
}

#[test]
fn password_accepted_cases() {
    assert!(password_accepted(&LoginRequest::new(" pw ".to_string()), Some("pw\t")));
    assert!(!password_accepted(&LoginRequest::new("pw".to_string()), Some("p w")));
    assert!(!password_accepted(&LoginRequest::new("pw".to_string()), None));
}

#[test]
fn login_sets_secure_cookie_over_https() {
    let r = LoginRequest::new("pw".to_string());
    match login_outcome(&r, Some("pw"), true, &config()) {
        LoginOutcome::Success { cookie, .. } => assert!(cookie.ends_with("; Secure")),
        LoginOutcome::Failure => panic!("expected success"),
    }
}

#[test]
fn login_failures() {
    let r = LoginRequest::new("wrong".to_string());
    assert!(matches!(login_outcome(&r, Some("pw"), false, &config()), LoginOutcome::Failure));
    assert!(matches!(login_outcome(&r, None, false, &config()), LoginOutcome::Failure));
    let empty = LoginRequest::new(String::new());
    assert!(matches!(login_outcome(&empty, None, false, &config()), LoginOutcome::Failure));
}

#[test]
fn login_with_hashed_password() {
    let h = hash_password("s3cret").expect("hashing succeeds");
    let r = LoginRequest::new("s3cret ".to_string());
    assert!(matches!(
        login_outcome(&r, Some(&h), false, &config()),
        LoginOutcome::Success { .. }
    ));
    let bad = LoginRequest::new("s3cre".to_string());
    assert!(matches!(login_outcome(&bad, Some(&h), false, &config()), LoginOutcome::Failure));
}

fn api_request(cookie_header: String) -> RequestInfo {
    RequestInfo {
        method: "GET".to_string(),
        path: "/api/files".to_string(),
        has_api_key: false,
        host: None,
        origin: None,
        referer: None,
        cookie_header: Some(cookie_header),
    }
}

fn login(password: &str, stored: &str) -> (String, String) {
    let r = LoginRequest::new(password.to_string());
    match login_outcome(&r, Some(stored), true, &config()) {
        LoginOutcome::Success { cookie, session_token } => {
            (cookie.split(';').next().unwrap().to_string(), session_token)
        }
        LoginOutcome::Failure => panic!("expected success"),
    }
}

#[test]
fn login_cookie_opens_a_session() {
    let (pair, token) = login("pw", "pw");
    let request = api_request(format!("other=1; {}", pair));
    assert_eq!(auth_decision(&request, Some("pw"), Some(&token)), AuthAction::Proceed);
    // The same works with an Argon2-hashed stored password.
    let h = hash_password("pw").expect("hashing succeeds");
    let (pair, token) = login("pw", &h);
    assert_eq!(auth_decision(&api_request(pair), Some(&h), Some(&token)), AuthAction::Proceed);
}

#[test]
fn new_login_ends_old_session() {
    let (old_pair, _old_token) = login("pw", "pw");
    let (new_pair, new_token) = login("pw", "pw");
    assert_eq!(
        auth_decision(&api_request(old_pair), Some("pw"), Some(&new_token)),
        AuthAction::Unauthorized
    );
    assert_eq!(
        auth_decision(&api_request(new_pair), Some("pw"), Some(&new_token)),
        AuthAction::Proceed
    );
}
