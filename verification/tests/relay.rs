use termy::relay::api::auth::login_rate_key;
use termy::relay::api::devices::{devices_rate_key, pairing_create_rate_key, register_code_rate_key, register_ip_rate_key};
use termy::relay::api::devices::{deletion_outcome, revocation_outcome};
use termy::relay::health::{health_request, health_verdict};
use termy::relay::accounts::{check_new_password, validate_login};
use termy::relay::auth::{access_token_user, access_claims, bearer_token, client_ip};
use termy::relay::config::{check_relay_url, decode_secret, parse_access_token_ttl};
use termy::relay::crypto::{
    digest_secret, digests_match, generate_device_token, generate_pairing_code, hash_password,
    verify_password,
};
use termy::relay::error::{AppError, ErrorCode};
use termy::relay::ratelimit::{limits, Limit, RateLimiter};

#[test]
fn the_documented_default_is_accepted() {
    assert_eq!(parse_access_token_ttl("900").unwrap(), 900);
}

#[test]
fn twelve_hours_is_accepted() {
    assert_eq!(parse_access_token_ttl("43200").unwrap(), 43_200);
}

#[test]
fn surrounding_whitespace_is_tolerated() {
    assert_eq!(parse_access_token_ttl(" 43200\n").unwrap(), 43_200);
}

#[test]
fn a_ttl_shorter_than_a_minute_is_rejected() {
    assert!(parse_access_token_ttl("30").is_err());
}

#[test]
fn a_ttl_longer_than_a_day_is_rejected() {
    assert!(parse_access_token_ttl("86401").is_err());
}

#[test]
fn a_non_numeric_value_is_rejected() {
    assert!(parse_access_token_ttl("12h").is_err());
}

#[test]
fn the_ttl_bounds_are_inclusive() {
    assert_eq!(parse_access_token_ttl("60").unwrap(), 60);
    assert_eq!(parse_access_token_ttl("86400").unwrap(), 86_400);
    assert_eq!(parse_access_token_ttl("+900").unwrap(), 900);
    assert!(parse_access_token_ttl("-900").is_err());
    assert!(parse_access_token_ttl("").is_err());
    assert!(parse_access_token_ttl("99999999999999999999").is_err());
}

#[test]
fn secrets_must_be_long_enough_base64() {
    let key = "A".repeat(43);
    assert_eq!(decode_secret("JWT_SECRET", &key).unwrap().len(), 32);
    assert!(decode_secret("JWT_SECRET", "c2hvcnQ").is_err());
    assert!(decode_secret("JWT_SECRET", "not base64 at all!").is_err());
}

#[test]
fn the_relay_url_must_use_tls() {
    assert!(check_relay_url("wss://relay.example.com").is_ok());
    assert!(check_relay_url("ws://relay.example.com").is_err());
}

#[test]
fn generated_secrets_have_the_documented_shape() {
    let code = generate_pairing_code();
    assert_eq!(code.len(), 27, "160 bits is 27 unpadded Base64URL chars");
    assert!(code
        .chars()
        .all(|c| c.is_ascii_alphanumeric() || c == '-' || c == '_'));

    let token = generate_device_token();
    assert_eq!(token.len(), 43, "256 bits is 43 unpadded Base64URL chars");
    assert!(token
        .chars()
        .all(|c| c.is_ascii_alphanumeric() || c == '-' || c == '_'));
}

#[test]
fn generated_secrets_do_not_repeat() {
    let mut seen = std::collections::HashSet::new();
    for _ in 0..256 {
        assert!(
            seen.insert(generate_pairing_code()),
            "pairing code repeated"
        );
    }
}

#[test]
fn digest_is_deterministic_and_pepper_dependent() {
    let pepper_a = b"pepper-a-at-least-32-bytes-long!!";
    let pepper_b = b"pepper-b-at-least-32-bytes-long!!";

    let d1 = digest_secret(pepper_a, "secret");
    let d2 = digest_secret(pepper_a, "secret");
    let d3 = digest_secret(pepper_b, "secret");
    let d4 = digest_secret(pepper_a, "secreT");

    assert_eq!(d1, d2);
    assert_ne!(d1, d3, "a different pepper must produce a different digest");
    assert_ne!(d1, d4);
    assert_eq!(d1.len(), 32);
    assert!(digests_match(&d1, &d2));
    assert!(!digests_match(&d1, &d3));
}

#[test]
fn the_digest_is_hmac_sha256() {
    // RFC 4231, test case 2.
    let d = digest_secret(b"Jefe", "what do ya want for nothing?");
    let hex: String = d.iter().map(|b| format!("{b:02x}")).collect();
    assert_eq!(
        hex,
        "5bdcc146bf60754e6a042426089575c75a003f089d2739839dec58b964ec3843"
    );
}

#[test]
fn password_round_trip() {
    let phc = hash_password("correct horse battery staple").unwrap();
    assert!(verify_password(&phc, "correct horse battery staple"));
    assert!(!verify_password(&phc, "Correct horse battery staple"));
    assert!(!verify_password(&phc, ""));
}

#[test]
fn password_hashes_are_salted() {
    let a = hash_password("same password").unwrap();
    let b = hash_password("same password").unwrap();
    assert_ne!(
        a, b,
        "identical passwords must not produce identical hashes"
    );
}

#[test]
fn malformed_stored_hash_does_not_match() {
    assert!(!verify_password("not-a-phc-string", "anything"));
    assert!(!verify_password("", "anything"));
}

#[test]
fn login_rules() {
    assert!(validate_login("alice").is_ok());
    assert!(validate_login("alice@example.com").is_ok());
    assert!(validate_login("").is_err());
    assert!(validate_login("has space").is_err());
    assert!(validate_login("has\ttab").is_err());
    assert!(validate_login("has\nnewline").is_err());
    assert!(validate_login(&"x".repeat(255)).is_err());
    assert!(validate_login(&"x".repeat(254)).is_ok());
}

#[test]
fn new_passwords_have_a_minimum_length() {
    assert!(check_new_password("short").is_err());
    assert!(check_new_password("long enough password").is_ok());
}

#[test]
fn allows_up_to_the_limit_then_rejects() {
    let mut limiter = RateLimiter::new();
    let limit = Limit::new(3, 60, 42);

    for _ in 0..3 {
        assert!(limiter.check("alice", limit).is_ok());
    }

    let err = limiter.check("alice", limit).unwrap_err();
    assert_eq!(err.status, 429);
    assert_eq!(err.retry_after, Some(42));
}

#[test]
fn keys_are_independent() {
    let mut limiter = RateLimiter::new();
    let limit = Limit::new(1, 60, 1);

    assert!(limiter.check("alice", limit).is_ok());
    assert!(limiter.check("alice", limit).is_err());
    assert!(limiter.check("bob", limit).is_ok());
}

#[test]
fn window_resets() {
    let mut limiter = RateLimiter::new();
    let limit = Limit::new(1, 0, 1);

    assert!(limiter.check("alice", limit).is_ok());
    assert!(limiter.check("alice", limit).is_ok());
}

#[test]
fn documented_thresholds_match_the_spec() {
    assert_eq!((limits::login().max, limits::login().window_secs), (5, 60));
    assert_eq!(limits::login().retry_after_secs, 60);
    assert_eq!(
        (
            limits::create_pairing_code().max,
            limits::create_pairing_code().window_secs
        ),
        (10, 3600)
    );
    assert_eq!(
        (
            limits::register_by_ip().max,
            limits::register_by_ip().window_secs
        ),
        (10, 60)
    );
    assert_eq!(
        (
            limits::register_by_code().max,
            limits::register_by_code().window_secs
        ),
        (5, 3600)
    );
    assert_eq!(
        (
            limits::list_devices().max,
            limits::list_devices().window_secs
        ),
        (60, 60)
    );
    assert_eq!(
        (limits::ws_upgrade().max, limits::ws_upgrade().window_secs),
        (30, 60)
    );
}

#[test]
fn sweeps_stale_buckets() {
    let mut limiter = RateLimiter::new();
    let limit = Limit::new(1, 0, 1);
    for i in 0..5000 {
        let _ = limiter.check(&format!("key-{i}"), limit);
    }
    assert!(
        limiter.len() <= 4097,
        "stale buckets should be swept, got {}",
        limiter.len()
    );
}

#[test]
fn the_clock_is_supplied_explicitly_when_needed() {
    let mut limiter = RateLimiter::new();
    let limit = Limit::new(2, 10, 7);
    let second: u128 = 1_000_000_000;
    assert!(limiter.check_at("k", limit, 0).is_ok());
    assert!(limiter.check_at("k", limit, 5 * second).is_ok());
    assert!(limiter.check_at("k", limit, 9 * second).is_err());
    // Ten seconds after the window opened, it starts afresh.
    assert!(limiter.check_at("k", limit, 10 * second).is_ok());
}

#[test]
fn error_constructors_carry_status_and_code() {
    let e = AppError::rate_limited(9);
    assert_eq!(e.status, 429);
    assert_eq!(e.code, ErrorCode::RateLimited);
    assert_eq!(e.retry_after, Some(9));
    let e = AppError::internal("db down");
    assert_eq!(e.status, 500);
    assert_eq!(e.message, "Internal server error");
    assert_eq!(e.describe(), "Internal server error (db down)");
    assert_eq!(AppError::unauthorized().code.as_str(), "AUTH_EXPIRED");
}

#[test]
fn access_claims_add_the_lifetime() {
    let c = access_claims("u".to_string(), 1_000, 900);
    assert_eq!((c.iat, c.exp), (1_000, 1_900));
    assert_eq!(c.sub, "u");
}

#[test]
fn a_token_subject_must_be_a_uuid() {
    let id = uuid::Uuid::new_v4();
    assert_eq!(access_token_user(&id.to_string()).unwrap(), id.as_u128());
    assert_eq!(access_token_user("not-a-uuid").unwrap_err().status, 401);
}

#[test]
fn the_bearer_scheme_is_required() {
    assert_eq!(bearer_token("Bearer  abc \t").as_deref(), Some("abc"));
    assert_eq!(bearer_token("bearer abc"), None);
    assert_eq!(bearer_token("Basic abc"), None);
}

#[test]
fn the_client_address_prefers_the_forwarded_header() {
    assert_eq!(client_ip(Some(" 10.0.0.1 , 10.0.0.2"), Some("127.0.0.1".to_string())).0, "10.0.0.1");
    assert_eq!(client_ip(Some(" , x"), Some("127.0.0.1".to_string())).0, "127.0.0.1");
    assert_eq!(client_ip(None, None).0, "unknown");
}

#[test]
fn rate_limit_keys_follow_the_documented_scheme() {
    assert_eq!(login_rate_key("alice", "10.0.0.1"), "login:alice:10.0.0.1");
    assert_eq!(pairing_create_rate_key("u"), "pairing-create:u");
    assert_eq!(register_ip_rate_key("1.2.3.4"), "register-ip:1.2.3.4");
    assert_eq!(register_code_rate_key(&[0x0a, 0xff]), "register-code:0aff");
    assert_eq!(devices_rate_key("u"), "devices:u");
}

#[test]
fn ownership_answers_do_not_confirm_foreign_ids() {
    assert!(revocation_outcome(true).is_ok());
    assert_eq!(revocation_outcome(false).unwrap_err().status, 404);
    assert!(deletion_outcome(true, true).is_ok());
    assert_eq!(deletion_outcome(false, true).unwrap_err().status, 403);
    assert_eq!(deletion_outcome(false, false).unwrap_err().message, "Device not found");
}

#[test]
fn the_health_probe_reads_the_status_line() {
    assert_eq!(
        health_request("127.0.0.1:8080"),
        "GET /health HTTP/1.1\r\nHost: 127.0.0.1:8080\r\nConnection: close\r\n\r\n"
    );
    assert!(health_verdict("HTTP/1.1 200 OK\r\n\r\nok").is_ok());
    assert_eq!(
        health_verdict("HTTP/1.1 503 Service Unavailable\r\nx").unwrap_err(),
        "relay is not healthy: HTTP/1.1 503 Service Unavailable"
    );
    assert_eq!(health_verdict("").unwrap_err(), "relay is not healthy: no response");
}

#[test]
fn quotas_refuse_at_the_maximum() {
    assert!(termy::relay::api::devices::check_device_quota(31).is_ok());
    assert_eq!(termy::relay::api::devices::check_device_quota(32).unwrap_err().status, 409);
    assert!(termy::relay::api::devices::check_pairing_code_quota(15).is_ok());
    assert_eq!(termy::relay::api::devices::check_pairing_code_quota(16).unwrap_err().status, 409);
}

#[test]
fn secrets_may_use_the_url_safe_alphabet_and_padding() {
    let url_safe = format!("{}A", "-".repeat(42));
    let bytes = decode_secret("TERMY_PEPPER", &url_safe).unwrap();
    assert_eq!(bytes.len(), 32);
    assert_eq!(bytes[0], 0xfb);
    let padded = format!("{}=", "A".repeat(43));
    assert_eq!(decode_secret("TERMY_PEPPER", &padded).unwrap(), vec![0u8; 32]);
    match decode_secret("TERMY_PEPPER", "c2VjcmV0") {
        Err(e) => assert_eq!(e.describe(), "configuration error: TERMY_PEPPER decodes to 6 bytes, at least 32 are required"),
        Ok(_) => panic!("a short secret must be refused"),
    }
}

#[test]
fn a_sweep_past_the_threshold_leaves_other_keys_decisions_alone() {
    let mut limiter = RateLimiter::new();
    let limit = Limit::new(1, 60, 1);
    // Fill past the sweep threshold with keys whose windows are still open.
    for i in 0..4097u32 {
        assert!(limiter.check_at(&format!("k{i}"), limit, 0).is_ok());
    }
    // `k0` is still refused after checks of other keys trigger a sweep.
    assert!(limiter.check_at("fresh", limit, 1_000).is_ok());
    assert!(limiter.check_at("k0", limit, 2_000).is_err());
    // Once every window has closed, the sweep drops the stale buckets and
    // the other key starts a new window as if it had never been seen.
    let later: u128 = 61_000_000_000;
    assert!(limiter.check_at("another", limit, later).is_ok());
    assert!(limiter.check_at("k1", limit, later).is_ok());
}
