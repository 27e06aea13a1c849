use std::time::{SystemTime, UNIX_EPOCH};

use user_auth::credential::{hash_password, hash_then_verify, verify_password};
use user_auth::handler::{login, register, LoginResponse, RegisterResponse};
use user_auth::store::UserStore;
use user_auth::token::{claims_accepted_at, issue_token, make_claims};
use user_auth::validate::{LoginRequest, UserRequest};
use user_auth::TOKEN_LIFETIME_SECS;

#[test]
fn hash_verify_round_trip() {
    let password = "secret1".to_string();
    let hash = hash_password(&password).expect("hashing should succeed");
    assert_ne!(hash, password);
    assert_eq!(hash.chars().count(), 60);
    assert_eq!(verify_password(&password, &hash), Ok(true));
    assert_eq!(verify_password(&"wrong".to_string(), &hash), Ok(false));
    assert_eq!(hash_then_verify(&password), Ok(true));
}

#[test]
fn verify_malformed_hash_errors() {
    let r = verify_password(&"secret1".to_string(), &"not-a-bcrypt-hash".to_string());
    assert!(r.is_err());
}

#[test]
fn claims_carry_exact_expiry() {
    let now: u64 = 1_700_000_000;
    let c = make_claims(&"alice123".to_string(), now);
    assert_eq!(c.sub, "alice123");
    assert_eq!(c.iat, now);
    assert_eq!(c.exp, now + TOKEN_LIFETIME_SECS);
    assert!(claims_accepted_at(&c, now));
    assert!(claims_accepted_at(&c, now + TOKEN_LIFETIME_SECS - 1));
    assert!(!claims_accepted_at(&c, now + TOKEN_LIFETIME_SECS));
}

#[test]
fn issued_token_decodes_to_the_claims() {
    let now = SystemTime::now().duration_since(UNIX_EPOCH).unwrap().as_secs();
    let secret = "test_signing_secret".to_string();
    let token = issue_token(&"alice123".to_string(), now, &secret).expect("signing should succeed");
    assert!(!token.is_empty());

    let validation = jsonwebtoken::Validation::new(jsonwebtoken::Algorithm::HS256);
    let decoded = jsonwebtoken::decode::<serde_json::Value>(
        &token,
        &jsonwebtoken::DecodingKey::from_secret(secret.as_bytes()),
        &validation,
    )
    .expect("token should verify under the issuing secret");
    assert_eq!(decoded.claims["sub"].as_str(), Some("alice123"));
    assert_eq!(decoded.claims["iat"].as_u64(), Some(now));
    assert_eq!(decoded.claims["exp"].as_u64(), Some(now + TOKEN_LIFETIME_SECS));

    let other_key = jsonwebtoken::DecodingKey::from_secret(b"some_other_secret");
    assert!(jsonwebtoken::decode::<serde_json::Value>(&token, &other_key, &validation).is_err());
}

#[test]
fn login_token_is_bound_to_the_user() {
    let mut store = UserStore::new();
    let secret = "test_signing_secret".to_string();
    let now = SystemTime::now().duration_since(UNIX_EPOCH).unwrap().as_secs();

    let req = UserRequest {
        username: "erin5".to_string(),
        password: "secret1".to_string(),
        email_address: None,
    };
    assert!(matches!(register(&mut store, &req, now), RegisterResponse::Created(_)));

    let l = login(
        &store,
        &LoginRequest { username: "erin5".to_string(), password: "secret1".to_string() },
        now,
        &secret,
    );
    let token = match l {
        LoginResponse::LoggedIn(t) => t,
        other => panic!("expected LoggedIn, got {:?}", other),
    };
    let validation = jsonwebtoken::Validation::new(jsonwebtoken::Algorithm::HS256);
    let decoded = jsonwebtoken::decode::<serde_json::Value>(
        &token,
        &jsonwebtoken::DecodingKey::from_secret(secret.as_bytes()),
        &validation,
    )
    .expect("token should verify under the issuing secret");
    assert_eq!(decoded.claims["sub"].as_str(), Some("erin5"));
}
