use axum_backend::auth::authenticate;
use axum_backend::errors::{AuthenticationError, EncodingError};
use axum_backend::roles::Roles;
use axum_backend::session::{
    clock_seconds, examine, CookieDirective, RawClaims, SameSitePolicy, SessionClaims,
    SessionConfig, TokenClaims, DEFAULT_TTL_SECONDS, SESSION_COOKIE,
};
use std::collections::BTreeMap;

const NOW: usize = 1_700_000_000;

fn config() -> SessionConfig {
    SessionConfig {
        secret: "top secret".to_string(),
        ttl_seconds: DEFAULT_TTL_SECONDS,
        same_site: SameSitePolicy::Lax,
    }
}

fn sign(claims: &BTreeMap<&str, serde_json::Value>, secret: &str) -> String {
    jsonwebtoken::encode(
        &jsonwebtoken::Header::default(),
        claims,
        &jsonwebtoken::EncodingKey::from_secret(secret.as_bytes()),
    )
    .unwrap()
}

fn flip_one_signature_byte(token: &str) -> String {
    let mut bytes = token.as_bytes().to_vec();
    let first = token.rfind('.').unwrap() + 1;
    bytes[first] = if bytes[first] == b'A' { b'B' } else { b'A' };
    String::from_utf8(bytes).unwrap()
}

#[test]
fn token_round_trip_keeps_subject_and_role() {
    let config = config();
    let grant = config.issue(42, Roles::Admin, NOW).unwrap();
    let claims = config.decode(&grant.token, NOW).unwrap();
    assert_eq!(claims.subject, 42);
    assert_eq!(claims.role, Roles::Admin);
    assert_eq!(claims.issued_at, NOW);
    assert_eq!(claims.expires_at, NOW + 3600);
}

#[test]
fn token_is_good_up_to_its_expiry() {
    let config = config();
    let grant = config.issue(42, Roles::Admin, NOW).unwrap();
    assert!(config.decode(&grant.token, NOW + 1).is_ok());
    assert!(config.decode(&grant.token, NOW + 3600).is_ok());
}

#[test]
fn token_is_expired_after_its_life() {
    let config = config();
    let grant = config.issue(42, Roles::Admin, NOW).unwrap();
    assert_eq!(
        config.decode(&grant.token, NOW + 3601),
        Err(AuthenticationError::ExpiredToken)
    );
    assert_eq!(
        config.decode(&grant.token, NOW + 86_400),
        Err(AuthenticationError::ExpiredToken)
    );
}

#[test]
fn token_with_a_flipped_signature_byte_is_invalid() {
    let config = config();
    let grant = config.issue(42, Roles::Admin, NOW).unwrap();
    let forged = flip_one_signature_byte(&grant.token);
    assert_ne!(forged, grant.token);
    assert_eq!(config.decode(&forged, NOW), Err(AuthenticationError::InvalidToken));
}

#[test]
fn token_with_a_changed_claim_is_invalid() {
    let config = config();
    let grant = config.issue(42, Roles::Basic, NOW).unwrap();
    let other = config.issue(42, Roles::Admin, NOW).unwrap();
    let signature = grant.token.rsplit('.').next().unwrap();
    let mut parts: Vec<&str> = other.token.split('.').collect();
    parts[2] = signature;
    let forged = parts.join(".");
    assert_eq!(config.decode(&forged, NOW), Err(AuthenticationError::InvalidToken));
}

#[test]
fn token_under_another_secret_is_invalid() {
    let grant = config().issue(42, Roles::Admin, NOW).unwrap();
    let other = SessionConfig { secret: "another".to_string(), ..config() };
    assert_eq!(other.decode(&grant.token, NOW), Err(AuthenticationError::InvalidToken));
}

#[test]
fn text_that_is_no_token_is_invalid() {
    let config = config();
    assert_eq!(config.decode("", NOW), Err(AuthenticationError::InvalidToken));
    assert_eq!(config.decode("a.b.c", NOW), Err(AuthenticationError::InvalidToken));
    assert_eq!(config.decode("not a token", NOW), Err(AuthenticationError::InvalidToken));
}

#[test]
fn encode_differs_from_the_claims_and_depends_on_the_secret() {
    let config = config();
    let claims = SessionClaims::issue(42, Roles::Admin, NOW, 3600);
    let token = config.encode(&claims).unwrap();
    assert_eq!(token.split('.').count(), 3);
    assert_ne!(token, claims.to_wire().sub);
    assert_eq!(config.encode(&claims), Ok(token.clone()));
    let other = SessionConfig { secret: "another".to_string(), ..config.clone() };
    assert_ne!(other.encode(&claims), Ok::<String, EncodingError>(token));
}

#[test]
fn token_carries_the_four_claims_on_the_wire() {
    let config = config();
    let grant = config.issue(42, Roles::Moderator, NOW).unwrap();
    let mut validation = jsonwebtoken::Validation::default();
    validation.validate_exp = false;
    let data = jsonwebtoken::decode::<serde_json::Value>(
        &grant.token,
        &jsonwebtoken::DecodingKey::from_secret("top secret".as_bytes()),
        &validation,
    )
    .unwrap();
    assert_eq!(data.claims.get("sub").and_then(|v| v.as_str()), Some("42"));
    assert_eq!(data.claims.get("role").and_then(|v| v.as_u64()), Some(1));
    assert_eq!(data.claims.get("iat").and_then(|v| v.as_u64()), Some(NOW as u64));
    assert_eq!(data.claims.get("exp").and_then(|v| v.as_u64()), Some(NOW as u64 + 3600));
}

#[test]
fn token_without_a_role_claim_is_invalid() {
    let mut claims = BTreeMap::new();
    claims.insert("sub", serde_json::Value::from("42"));
    claims.insert("iat", serde_json::Value::from(NOW));
    claims.insert("exp", serde_json::Value::from(NOW + 60));
    let token = sign(&claims, "top secret");
    assert_eq!(config().decode(&token, NOW), Err(AuthenticationError::InvalidToken));
}

#[test]
fn token_with_a_subject_that_is_no_number_is_invalid() {
    let mut claims = BTreeMap::new();
    claims.insert("sub", serde_json::Value::from("ann"));
    claims.insert("role", serde_json::Value::from(0));
    claims.insert("iat", serde_json::Value::from(NOW));
    claims.insert("exp", serde_json::Value::from(NOW + 60));
    let token = sign(&claims, "top secret");
    assert_eq!(config().decode(&token, NOW), Err(AuthenticationError::InvalidToken));
}

#[test]
fn token_with_a_role_outside_the_hierarchy_is_invalid() {
    let mut claims = BTreeMap::new();
    claims.insert("sub", serde_json::Value::from("42"));
    claims.insert("role", serde_json::Value::from(3));
    claims.insert("iat", serde_json::Value::from(NOW));
    claims.insert("exp", serde_json::Value::from(NOW + 60));
    let token = sign(&claims, "top secret");
    assert_eq!(config().decode(&token, NOW), Err(AuthenticationError::InvalidToken));
}

#[test]
fn sound_token_from_elsewhere_is_admitted() {
    let mut claims = BTreeMap::new();
    claims.insert("sub", serde_json::Value::from("-7"));
    claims.insert("role", serde_json::Value::from(2));
    claims.insert("iat", serde_json::Value::from(NOW));
    claims.insert("exp", serde_json::Value::from(NOW + 60));
    claims.insert("extra", serde_json::Value::from("ignored"));
    let token = sign(&claims, "top secret");
    assert_eq!(
        config().decode(&token, NOW + 60),
        Ok(SessionClaims { subject: -7, role: Roles::Admin, issued_at: NOW, expires_at: NOW + 60 })
    );
    assert_eq!(config().decode(&token, NOW + 61), Err(AuthenticationError::ExpiredToken));
}

#[test]
fn a_request_without_token_is_not_logged_in() {
    assert_eq!(authenticate(&config(), None, NOW), Err(AuthenticationError::MissingToken));
}

#[test]
fn a_request_with_token_is_judged_by_the_token() {
    let config = config();
    let grant = config.issue(5, Roles::Basic, NOW).unwrap();
    assert_eq!(
        authenticate(&config, Some(&grant.token), NOW + 10),
        Ok(SessionClaims { subject: 5, role: Roles::Basic, issued_at: NOW, expires_at: NOW + 3600 })
    );
    assert_eq!(
        authenticate(&config, Some(&grant.token), NOW + 4000),
        Err(AuthenticationError::ExpiredToken)
    );
    assert_eq!(
        authenticate(&config, Some("garbage"), NOW),
        Err(AuthenticationError::InvalidToken)
    );
}

#[test]
fn examine_goes_through_every_verdict() {
    let raw = |sub: Option<&str>, role: Option<u64>, iat: Option<u64>, exp: Option<u64>| RawClaims {
        sub: sub.map(|s| s.to_string()),
        role,
        iat,
        exp,
    };
    assert_eq!(examine(None, 10), Err(AuthenticationError::InvalidToken));
    assert_eq!(
        examine(Some(raw(Some("42"), Some(2), Some(5), Some(10))), 10),
        Ok(SessionClaims { subject: 42, role: Roles::Admin, issued_at: 5, expires_at: 10 })
    );
    assert_eq!(
        examine(Some(raw(Some("42"), Some(2), Some(5), Some(10))), 11),
        Err(AuthenticationError::ExpiredToken)
    );
    assert_eq!(
        examine(Some(raw(None, Some(2), Some(5), Some(10))), 10),
        Err(AuthenticationError::InvalidToken)
    );
    assert_eq!(
        examine(Some(raw(Some("42"), None, Some(5), Some(10))), 10),
        Err(AuthenticationError::InvalidToken)
    );
    assert_eq!(
        examine(Some(raw(Some("42"), Some(2), None, Some(10))), 10),
        Err(AuthenticationError::InvalidToken)
    );
    assert_eq!(
        examine(Some(raw(Some("42"), Some(2), Some(5), None)), 10),
        Err(AuthenticationError::InvalidToken)
    );
    assert_eq!(
        examine(Some(raw(Some("x"), Some(2), Some(5), Some(10))), 10),
        Err(AuthenticationError::InvalidToken)
    );
    assert_eq!(
        examine(Some(raw(Some("42"), Some(9), Some(5), Some(10))), 10),
        Err(AuthenticationError::InvalidToken)
    );
    assert_eq!(
        examine(Some(raw(Some("x"), Some(2), Some(5), Some(1))), 10),
        Err(AuthenticationError::InvalidToken)
    );
}

#[test]
fn issued_claims_expire_one_life_later() {
    assert_eq!(
        SessionClaims::issue(42, Roles::Admin, 1000, 3600),
        SessionClaims { subject: 42, role: Roles::Admin, issued_at: 1000, expires_at: 4600 }
    );
    assert_eq!(SessionClaims::issue(1, Roles::Basic, 1000, 0).expires_at, 1000);
    assert_eq!(SessionClaims::issue(1, Roles::Basic, usize::MAX - 5, 60).expires_at, usize::MAX);
}

#[test]
fn expiry_itself_is_inside_the_life() {
    let claims = SessionClaims::issue(1, Roles::Basic, 1000, 60);
    assert!(!claims.is_expired(1000));
    assert!(!claims.is_expired(1060));
    assert!(claims.is_expired(1061));
}

#[test]
fn wire_claims_write_subject_as_text_and_role_as_ordinal() {
    let claims = SessionClaims { subject: 42, role: Roles::Admin, issued_at: 7, expires_at: 9 };
    assert_eq!(
        claims.to_wire(),
        TokenClaims { sub: "42".to_string(), role: 2, iat: 7, exp: 9 }
    );
    let negative = SessionClaims { subject: -3, role: Roles::Basic, issued_at: 0, expires_at: 0 };
    assert_eq!(negative.to_wire().sub, "-3");
}

#[test]
fn wire_claims_read_back_as_they_were_written() {
    for subject in [0, 42, -3, i32::MAX, i32::MIN] {
        for role in [Roles::Basic, Roles::Moderator, Roles::Admin] {
            let claims = SessionClaims { subject, role, issued_at: 7, expires_at: 9 };
            assert_eq!(claims.to_wire().to_session(), Some(claims));
        }
    }
}

#[test]
fn raw_claims_need_every_claim() {
    let full = RawClaims { sub: Some("1".to_string()), role: Some(0), iat: Some(2), exp: Some(3) };
    assert_eq!(
        full.to_claims(),
        Some(TokenClaims { sub: "1".to_string(), role: 0, iat: 2, exp: 3 })
    );
    let partial = RawClaims { sub: Some("1".to_string()), role: Some(0), iat: None, exp: Some(3) };
    assert_eq!(partial.to_claims(), None);
}

#[test]
fn delivery_cookie_lives_as_long_as_the_token() {
    let config = config();
    let grant = config.issue(42, Roles::Admin, NOW).unwrap();
    assert_eq!(
        grant.cookie,
        CookieDirective {
            name: "token".to_string(),
            value: grant.token.clone(),
            path: "/".to_string(),
            max_age: 3600,
            http_only: true,
            same_site: SameSitePolicy::Lax,
        }
    );
    assert_eq!(SESSION_COOKIE, "token");
    assert_eq!(config.delivery("abc"), config.grant(Some("abc".to_string())).unwrap().cookie);
}

#[test]
fn a_token_that_could_not_be_signed_gives_no_grant() {
    assert_eq!(config().grant(None), Err(EncodingError::TokenSignatureInvalid));
    let grant = config().grant(Some("abc".to_string())).unwrap();
    assert_eq!(grant.token, "abc");
    assert_eq!(grant.cookie.value, "abc");
}

#[test]
fn delivery_cookie_is_written_as_a_header_value() {
    let config = config();
    assert_eq!(
        config.delivery("abc").header_value(),
        "token=abc; HttpOnly; SameSite=Lax; Path=/; Max-Age=3600"
    );
    let strict = SessionConfig { same_site: SameSitePolicy::Strict, ttl_seconds: 60, ..config };
    assert_eq!(
        strict.delivery("abc").header_value(),
        "token=abc; HttpOnly; SameSite=Strict; Path=/; Max-Age=60"
    );
}

#[test]
fn unrestricted_cookie_is_marked_secure() {
    let open = SessionConfig { same_site: SameSitePolicy::Unrestricted, ..config() };
    assert_eq!(
        open.delivery("abc").header_value(),
        "token=abc; HttpOnly; SameSite=None; Secure; Path=/; Max-Age=3600"
    );
}

#[test]
fn cookie_without_http_only_omits_the_flag() {
    let cookie = CookieDirective {
        name: "n".to_string(),
        value: "v".to_string(),
        path: "/p".to_string(),
        max_age: -5,
        http_only: false,
        same_site: SameSitePolicy::Lax,
    };
    assert_eq!(cookie.header_value(), "n=v; SameSite=Lax; Path=/p; Max-Age=-5");
}

#[test]
fn sign_out_cookie_has_no_life_left() {
    let cookie = config().discard();
    assert_eq!(
        cookie,
        CookieDirective {
            name: "token".to_string(),
            value: String::new(),
            path: "/".to_string(),
            max_age: 0,
            http_only: true,
            same_site: SameSitePolicy::Lax,
        }
    );
    assert_eq!(cookie.header_value(), "token=; HttpOnly; SameSite=Lax; Path=/; Max-Age=0");
}

#[test]
fn sign_out_does_not_revoke_the_token() {
    let config = config();
    let grant = config.issue(42, Roles::Admin, NOW).unwrap();
    let _ = config.discard();
    assert!(config.decode(&grant.token, NOW + 1).is_ok());
}

#[test]
fn clock_readings_before_the_epoch_count_as_the_epoch() {
    assert_eq!(clock_seconds(-1), 0);
    assert_eq!(clock_seconds(i64::MIN), 0);
    assert_eq!(clock_seconds(0), 0);
    assert_eq!(clock_seconds(1_700_000_000), 1_700_000_000);
}
