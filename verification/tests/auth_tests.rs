use tgstate::auth::{
    build_clear_cookie, build_cookie, ensure_upload_auth, generate_session_token, hash_password,
    is_hashed, parse_truthy, secure_compare, session_token_from_bytes, sha256_hex,
    verify_password, verify_password_auto, CookieConfig, COOKIE_NAME,
};

#[test]
fn password_only_api_request_without_session_is_rejected() {
    let result = ensure_upload_auth(false, None, None, Some("hashed"), None);
    match result {
        Err((401, _, "login_required")) => {}
        other => panic!("expected login_required rejection, got {:?}", other),
    }
}

#[test]
fn password_only_request_with_matching_session_is_allowed() {
    let result = ensure_upload_auth(false, Some("hashed"), None, Some("hashed"), None);
    assert_eq!(result, Ok(()));
}

#[test]
fn password_set_referer_only_request_is_rejected() {
    // Referer alone must not grant upload access when a password is configured.
    let result = ensure_upload_auth(true, None, None, Some("hashed"), None);
    match result {
        Err((401, _, "login_required")) => {}
        other => panic!("expected login_required rejection, got {:?}", other),
    }
}

#[test]
fn picgo_only_referer_only_request_is_rejected() {
    // Referer alone must not grant upload access when only a PicGo key is configured.
    let result = ensure_upload_auth(true, None, Some("secret"), None, None);
    match result {
        Err((401, _, "invalid_api_key")) => {}
        other => panic!("expected invalid_api_key rejection, got {:?}", other),
    }
}

#[test]
fn generate_session_token_is_64_hex_chars() {
    let t = generate_session_token();
    assert_eq!(t.len(), 64);
    assert!(t.chars().all(|c| c.is_ascii_hexdigit()));
    // Two calls should differ with overwhelming probability.
    assert_ne!(t, generate_session_token());
}

#[test]
fn session_token_is_lower_hex_of_its_bytes() {
    let bytes: Vec<u8> = (0u8..32).collect();
    assert_eq!(
        session_token_from_bytes(&bytes),
        "000102030405060708090a0b0c0d0e0f101112131415161718191a1b1c1d1e1f"
    );
    let high = [0xabu8; 32];
    assert_eq!(session_token_from_bytes(&high), "ab".repeat(32));
}

#[test]
fn generated_tokens_are_lower_case() {
    let t = generate_session_token();
    assert!(t.chars().all(|c| c.is_ascii_digit() || ('a'..='f').contains(&c)));
}

#[test]
fn sha256_hex_known_digests() {
    assert_eq!(
        sha256_hex("abc"),
        "ba7816bf8f01cfea414140de5dae2223b00361a396177a9cb410ff61f20015ad"
    );
    assert_eq!(
        sha256_hex(""),
        "e3b0c44298fc1c149afbf4c8996fb92427ae41e4649b934ca495991b7852b855"
    );
    assert_eq!(
        sha256_hex("日本"),
        "cf2abf0c5be326cb922a70f8163f91079c4d9aa8655c60ead89ad545c9de2e92"
    );
}

#[test]
fn secure_compare_is_equality() {
    assert!(secure_compare("", ""));
    assert!(secure_compare("hashed", "hashed"));
    assert!(!secure_compare("hashed", "hashee"));
    assert!(!secure_compare("hash", "hashed"));
    assert!(!secure_compare("é", "e"));
    assert!(secure_compare("日本", "日本"));
    assert!(!secure_compare("日本", "日木"));
}

#[test]
fn parse_truthy_values() {
    for v in ["1", "true", "yes", "on", " TRUE ", "Yes", "\tOn\n", "oN"] {
        assert!(parse_truthy(v), "{:?}", v);
    }
    for v in ["", "0", "false", "no", "off", "y", "t rue", "2", "truee"] {
        assert!(!parse_truthy(v), "{:?}", v);
    }
}

#[test]
fn cookie_config_defaults() {
    let c = CookieConfig::from_env_values(None, None);
    assert!(!c.secure_override);
    assert_eq!(c.max_age_secs, 86400);
}

#[test]
fn cookie_config_overrides() {
    let c = CookieConfig::from_env_values(Some(" yes "), Some(" 3600 "));
    assert!(c.secure_override);
    assert_eq!(c.max_age_secs, 3600);
    assert_eq!(CookieConfig::from_env_values(Some("0"), Some("+5")).max_age_secs, 5);
    assert!(!CookieConfig::from_env_values(Some("0"), None).secure_override);
    assert_eq!(
        CookieConfig::from_env_values(None, Some("4294967295")).max_age_secs,
        4294967295
    );
}

#[test]
fn cookie_config_rejects_bad_max_age() {
    for v in ["0", "", "abc", "-1", "+", "4294967296", "12a", "1 2", "99999999999999999999"] {
        assert_eq!(
            CookieConfig::from_env_values(None, Some(v)).max_age_secs,
            86400,
            "{:?}",
            v
        );
    }
}

#[test]
fn build_cookie_exact() {
    let plain = CookieConfig::from_env_values(None, None);
    assert_eq!(
        build_cookie("abc", false, &plain),
        "tgstate_session=abc; HttpOnly; SameSite=Strict; Path=/; Max-Age=86400"
    );
    assert_eq!(
        build_cookie("abc", true, &plain),
        "tgstate_session=abc; HttpOnly; SameSite=Strict; Path=/; Max-Age=86400; Secure"
    );
    let forced = CookieConfig::from_env_values(Some("on"), Some("60"));
    assert_eq!(
        build_cookie("", false, &forced),
        "tgstate_session=; HttpOnly; SameSite=Strict; Path=/; Max-Age=60; Secure"
    );
    let zero = CookieConfig { secure_override: false, max_age_secs: 0 };
    assert_eq!(
        build_cookie("v", false, &zero),
        "tgstate_session=v; HttpOnly; SameSite=Strict; Path=/; Max-Age=0"
    );
    let max = CookieConfig { secure_override: false, max_age_secs: u32::MAX };
    assert!(build_cookie("v", false, &max).ends_with("Max-Age=4294967295"));
}

#[test]
fn build_clear_cookie_exact() {
    assert_eq!(
        build_clear_cookie(),
        "tgstate_session=; HttpOnly; SameSite=Strict; Path=/; Max-Age=0"
    );
    assert_eq!(COOKIE_NAME, "tgstate_session");
}

#[test]
fn is_hashed_detects_argon2_prefix() {
    assert!(is_hashed("$argon2id$v=19$m=19456,t=2,p=1$abc$def"));
    assert!(is_hashed("$argon2"));
    assert!(!is_hashed("$argon"));
    assert!(!is_hashed("argon2"));
    assert!(!is_hashed("plaintext"));
}

#[test]
fn hash_then_verify_round_trip() {
    let h = hash_password("correct horse").expect("hashing succeeds");
    assert!(h.starts_with("$argon2id$"));
    assert!(is_hashed(&h));
    assert!(verify_password("correct horse", &h));
    assert!(!verify_password("wrong horse", &h));
    assert!(verify_password_auto("correct horse", &h));
    assert!(!verify_password_auto("correct horse ", &h));
    // Salts are random: two hashes of one password differ.
    let h2 = hash_password("correct horse").expect("hashing succeeds");
    assert_ne!(h, h2);
    assert!(verify_password("correct horse", &h2));
}

#[test]
fn hash_password_succeeds_for_ordinary_passwords() {
    for p in ["", "a", "日本語のパスワード", &"x".repeat(10_000)] {
        let h = hash_password(p).expect("hashing succeeds");
        assert!(verify_password(p, &h));
    }
}

#[test]
fn verify_password_rejects_unparsable_hash() {
    assert!(!verify_password("x", "not a hash"));
    assert!(!verify_password("x", ""));
    assert!(!verify_password("x", "$argon2id$garbage"));
    assert!(!verify_password("hashed", "hashed"));
}

#[test]
fn verify_password_auto_plaintext() {
    assert!(verify_password_auto("pw", "pw"));
    assert!(!verify_password_auto("pw", "pw2"));
    assert!(!verify_password_auto("pw", "PW"));
    // A stored value that looks hashed but does not parse accepts nothing.
    assert!(!verify_password_auto("$argon2x", "$argon2x"));
}

#[test]
fn upload_open_when_nothing_configured() {
    assert_eq!(ensure_upload_auth(false, None, None, None, None), Ok(()));
    assert_eq!(ensure_upload_auth(false, None, Some(""), Some(""), None), Ok(()));
}

#[test]
fn upload_with_key_only() {
    assert_eq!(ensure_upload_auth(false, None, Some("k"), None, Some("k")), Ok(()));
    assert_eq!(
        ensure_upload_auth(false, Some("k"), Some("k"), None, Some("x")),
        Err((401, "无效的 API 密钥", "invalid_api_key"))
    );
    assert_eq!(
        ensure_upload_auth(false, None, Some("k"), Some(""), None),
        Err((401, "无效的 API 密钥", "invalid_api_key"))
    );
}

#[test]
fn upload_with_both_configured() {
    assert_eq!(ensure_upload_auth(false, Some("p"), Some("k"), Some("p"), None), Ok(()));
    assert_eq!(ensure_upload_auth(false, None, Some("k"), Some("p"), Some("k")), Ok(()));
    assert_eq!(
        ensure_upload_auth(true, Some("k"), Some("k"), Some("p"), Some("p")),
        Err((401, "需要网页登录", "login_required"))
    );
}
