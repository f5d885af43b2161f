use tgstate::auth::sha256_hex;
use tgstate::middleware::auth::{
    auth_decision, check_csrf, check_session, configured_password, early_decision,
    get_cookie_value, AuthAction, RedirectTarget, RequestInfo,
};

fn req(method: &str, path: &str) -> RequestInfo {
    RequestInfo {
        method: method.to_string(),
        path: path.to_string(),
        has_api_key: false,
        host: Some("example.com".to_string()),
        origin: None,
        referer: None,
        cookie_header: None,
    }
}

fn with_cookie(mut r: RequestInfo, cookie: &str) -> RequestInfo {
    r.cookie_header = Some(cookie.to_string());
    r
}

#[test]
fn cookie_value_found_among_others() {
    assert_eq!(
        get_cookie_value(Some("a=1; tgstate_session=xyz; b=2"), "tgstate_session"),
        Some("xyz".to_string())
    );
    assert_eq!(
        get_cookie_value(Some("  tgstate_session=v1 ;tgstate_session=v2"), "tgstate_session"),
        Some("v1".to_string())
    );
    assert_eq!(get_cookie_value(Some("tgstate_session="), "tgstate_session"), Some(String::new()));
    assert_eq!(get_cookie_value(Some("a=1;b=2"), "tgstate_session"), None);
    assert_eq!(get_cookie_value(Some("xtgstate_session=1"), "tgstate_session"), None);
    assert_eq!(get_cookie_value(Some(""), "tgstate_session"), None);
    assert_eq!(get_cookie_value(None, "tgstate_session"), None);
    assert_eq!(get_cookie_value(Some("a=1;;b=x=y"), "b"), Some("x=y".to_string()));
}

#[test]
fn csrf_safe_methods_pass() {
    for m in ["GET", "HEAD", "OPTIONS"] {
        let mut r = req(m, "/api/files");
        r.origin = Some("http://evil.test".to_string());
        assert!(check_csrf(&r));
    }
}

#[test]
fn csrf_origin_must_match_host() {
    let mut r = req("POST", "/api/files");
    r.origin = Some("https://example.com".to_string());
    assert!(check_csrf(&r));
    r.origin = Some("http://example.com".to_string());
    assert!(check_csrf(&r));
    r.origin = Some("https://evil.test".to_string());
    assert!(!check_csrf(&r));
    r.origin = Some("example.com".to_string());
    assert!(!check_csrf(&r));
    // The origin decides even when a matching referer is present.
    r.origin = Some("https://evil.test".to_string());
    r.referer = Some("https://example.com/page".to_string());
    assert!(!check_csrf(&r));
}

#[test]
fn csrf_referer_host_must_match() {
    let mut r = req("DELETE", "/api/files/1");
    r.referer = Some("https://example.com/files?x=1".to_string());
    assert!(check_csrf(&r));
    r.referer = Some("http://example.com".to_string());
    assert!(check_csrf(&r));
    r.referer = Some("https://example.com.evil.test/".to_string());
    assert!(!check_csrf(&r));
    r.referer = Some("ftp://example.com/".to_string());
    assert!(!check_csrf(&r));
}

#[test]
fn csrf_without_origin_or_referer_passes() {
    let r = req("POST", "/api/files");
    assert!(check_csrf(&r));
    let mut r = req("POST", "/api/files");
    r.host = None;
    r.origin = Some("http://".to_string());
    assert!(check_csrf(&r));
    r.origin = Some("http://x".to_string());
    assert!(!check_csrf(&r));
}

#[test]
fn csrf_skipped_for_api_key_uploads() {
    let mut r = req("POST", "/api/upload");
    r.origin = Some("https://evil.test".to_string());
    assert!(!check_csrf(&r));
    r.has_api_key = true;
    assert!(check_csrf(&r));
    let mut r = req("POST", "/api/files");
    r.origin = Some("https://evil.test".to_string());
    r.has_api_key = true;
    assert!(!check_csrf(&r));
}

#[test]
fn session_with_stored_token() {
    assert!(check_session(Some("tok"), "pw", Some("tok")));
    assert!(!check_session(Some("pw"), "pw", Some("tok")));
    let legacy = sha256_hex("pw");
    assert!(!check_session(Some(&legacy), "pw", Some("tok")));
    assert!(!check_session(None, "pw", Some("tok")));
}

#[test]
fn session_legacy_plaintext() {
    let legacy = sha256_hex("pw");
    assert!(check_session(Some(&legacy), "pw", None));
    assert!(check_session(Some(&legacy), "pw", Some("")));
    assert!(check_session(Some("pw"), "pw", None));
    assert!(!check_session(Some("other"), "pw", None));
    assert!(!check_session(None, "pw", None));
}

#[test]
fn configured_password_trims() {
    assert_eq!(configured_password(Some("  pw \n")), Some("pw".to_string()));
    assert_eq!(configured_password(Some("   ")), None);
    assert_eq!(configured_password(Some("")), None);
    assert_eq!(configured_password(None), None);
}

#[test]
fn redirect_locations() {
    assert_eq!(RedirectTarget::Welcome.location(), "/welcome");
    assert_eq!(RedirectTarget::Home.location(), "/");
    assert_eq!(RedirectTarget::Login.location(), "/login");
}

#[test]
fn early_decision_cases() {
    let mut r = req("POST", "/api/files");
    r.origin = Some("https://evil.test".to_string());
    assert_eq!(early_decision(&r), Some(AuthAction::CsrfRejected));
    assert_eq!(early_decision(&req("GET", "/d/abc123")), Some(AuthAction::Proceed));
    assert_eq!(early_decision(&req("GET", "/static/app.js")), Some(AuthAction::Proceed));
    assert_eq!(early_decision(&req("GET", "/favicon.ico")), Some(AuthAction::Proceed));
    assert_eq!(early_decision(&req("GET", "/files")), None);
}

#[test]
fn decisions_before_setup() {
    for p in ["/welcome", "/settings", "/api/set-password", "/api/auth/login", "/api/verify/x", "/api/app-config"] {
        assert_eq!(auth_decision(&req("GET", p), None, None), AuthAction::Proceed, "{}", p);
    }
    for p in ["/", "/files", "/api/files", "/login", "/share/abc"] {
        assert_eq!(
            auth_decision(&req("GET", p), None, None),
            AuthAction::Redirect(RedirectTarget::Welcome),
            "{}",
            p
        );
    }
}

#[test]
fn decisions_with_password() {
    let pw = Some("pw");
    let good = format!("tgstate_session={}", sha256_hex("pw"));
    assert_eq!(
        auth_decision(&req("GET", "/welcome"), pw, None),
        AuthAction::Redirect(RedirectTarget::Home)
    );
    assert_eq!(auth_decision(&req("POST", "/api/auth/login"), pw, None), AuthAction::Proceed);
    assert_eq!(auth_decision(&req("GET", "/api/files"), pw, None), AuthAction::Unauthorized);
    assert_eq!(
        auth_decision(&with_cookie(req("GET", "/api/files"), &good), pw, None),
        AuthAction::Proceed
    );
    let mut upload = req("POST", "/api/upload");
    assert_eq!(auth_decision(&upload, pw, None), AuthAction::Unauthorized);
    upload.has_api_key = true;
    assert_eq!(auth_decision(&upload, pw, None), AuthAction::Proceed);
    assert_eq!(
        auth_decision(&req("GET", "/files"), pw, None),
        AuthAction::Redirect(RedirectTarget::Login)
    );
    assert_eq!(auth_decision(&with_cookie(req("GET", "/"), &good), pw, None), AuthAction::Proceed);
    assert_eq!(auth_decision(&req("GET", "/login"), pw, None), AuthAction::Proceed);
    assert_eq!(
        auth_decision(&with_cookie(req("GET", "/login"), &good), pw, None),
        AuthAction::Redirect(RedirectTarget::Home)
    );
    assert_eq!(auth_decision(&req("GET", "/share/abc"), pw, None), AuthAction::Proceed);
    assert_eq!(auth_decision(&req("GET", "/other"), pw, None), AuthAction::Proceed);
    assert_eq!(auth_decision(&req("GET", "/d/abc"), pw, None), AuthAction::Proceed);
}

#[test]
fn health_check_is_public() {
    assert_eq!(auth_decision(&req("GET", "/api/health"), Some("pw"), None), AuthAction::Proceed);
    assert_eq!(auth_decision(&req("GET", "/api/health"), None, None), AuthAction::Proceed);
    assert_eq!(
        auth_decision(&req("GET", "/api/health"), Some("pw"), Some("tok")),
        AuthAction::Proceed
    );
}

#[test]
fn only_get_of_the_exact_health_path_is_public() {
    assert_eq!(
        auth_decision(&req("GET", "/api/healthz"), Some("pw"), Some("tok")),
        AuthAction::Unauthorized
    );
    assert_eq!(auth_decision(&req("POST", "/api/health"), Some("pw"), None), AuthAction::Unauthorized);
    assert_eq!(auth_decision(&req("HEAD", "/api/health"), Some("pw"), None), AuthAction::Unauthorized);
    assert_eq!(
        auth_decision(&req("POST", "/api/health"), None, None),
        AuthAction::Redirect(RedirectTarget::Welcome)
    );
    assert_eq!(
        auth_decision(&req("GET", "/api/health/x"), None, None),
        AuthAction::Redirect(RedirectTarget::Welcome)
    );
}

#[test]
fn protected_paths_need_a_session() {
    for p in ["/", "/image_hosting", "/files", "/settings", "/api/files", "/api/upload", "/api/set-password"] {
        assert_ne!(auth_decision(&req("GET", p), Some("pw"), Some("tok")), AuthAction::Proceed, "{}", p);
        let r = with_cookie(req("GET", p), "tgstate_session=tok");
        assert_eq!(auth_decision(&r, Some("pw"), Some("tok")), AuthAction::Proceed, "{}", p);
    }
}

#[test]
fn decisions_with_session_token() {
    let pw = Some("$argon2id$v=19$m=19456,t=2,p=1$c2FsdA$aGFzaA");
    let r = with_cookie(req("GET", "/api/files"), "tgstate_session=tok123");
    assert_eq!(auth_decision(&r, pw, Some("tok123")), AuthAction::Proceed);
    assert_eq!(auth_decision(&r, pw, Some("other")), AuthAction::Unauthorized);
}

#[test]
fn early_decision_is_final_for_any_settings() {
    let mut rejected = req("POST", "/api/files");
    rejected.origin = Some("https://evil.test".to_string());
    let requests = [rejected, req("GET", "/d/abc"), req("GET", "/static/x.css")];
    for r in requests.iter() {
        let early = early_decision(r).expect("decided early");
        for pw in [None, Some("pw")] {
            for tok in [None, Some("tok")] {
                assert_eq!(auth_decision(r, pw, tok), early);
            }
        }
    }
}

#[test]
fn written_cookie_reads_back() {
    let config = tgstate::auth::CookieConfig::from_env_values(Some("1"), Some("10"));
    for value in ["abc", "", "0123456789abcdef", "a b"] {
        let cookie = tgstate::auth::build_cookie(value, true, &config);
        let pair = cookie.split(';').next().unwrap();
        assert_eq!(get_cookie_value(Some(pair), "tgstate_session"), Some(value.to_string()));
    }
}
