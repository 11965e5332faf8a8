use auth_service::auth::{generate_auth_token, now_seconds, validate_token};
use auth_service::password_hash::{compute_password_hash, verify_password_hash, PasswordHashError};
use auth_service::{
    BannedTokenStore, Claims, Email, HashsetBannedTokenStore, TokenCodec, TokenError,
    TokenValidationError,
};

fn codec() -> TokenCodec {
    TokenCodec::new("secret-for-tests".to_string())
}

#[test]
fn test_generate_auth_token() {
    let email = Email::parse("test@example.com".to_owned()).unwrap();
    let now = now_seconds();
    let result = generate_auth_token(&email, &codec(), now).unwrap();
    assert_eq!(result.split('.').count(), 3);
}

#[test]
fn test_validate_token_with_valid_token() {
    let email = Email::parse("test@example.com".to_owned()).unwrap();
    let codec = codec();
    let now = now_seconds();
    let token = generate_auth_token(&email, &codec, now).unwrap();
    let banned_token_store = HashsetBannedTokenStore::default();
    let result = validate_token(&token, &banned_token_store, &codec, now_seconds())
        .ok()
        .expect("issue validating token");
    assert_eq!(result.sub, "test@example.com");
    let exp = now_seconds() + 9 * 60;
    assert!(result.exp > exp as usize);
}

#[test]
fn test_validate_token_with_invalid_token() {
    let token = "invalid_token".to_owned();
    let banned_token_store = HashsetBannedTokenStore::default();
    let result = validate_token(&token, &banned_token_store, &codec(), now_seconds());
    assert!(result.is_err());
}

#[test]
fn token_expires_after_its_time_to_live() {
    let email = Email::parse("test@example.com".to_owned()).unwrap();
    let codec = codec();
    let token = generate_auth_token(&email, &codec, 1_000).unwrap();
    let claims = codec.verify(&token, 1_000).ok().unwrap();
    assert_eq!(claims.sub, "test@example.com");
    assert_eq!(claims.exp, 1_600);
    assert!(codec.verify(&token, 1_599).is_ok());
    assert!(matches!(codec.verify(&token, 1_600), Err(TokenValidationError::InvalidToken)));
}

#[test]
fn issued_token_round_trips() {
    let codec = codec();
    let claims = Claims { sub: "a@b.com".to_string(), exp: 2_000_000_000 };
    let token = codec.issue(&claims).ok().unwrap();
    let back = codec.verify(&token, 1_900_000_000).ok().unwrap();
    assert_eq!(back.sub, claims.sub);
    assert_eq!(back.exp, claims.exp);
}

#[test]
fn token_is_deterministic_for_equal_claims() {
    let codec = codec();
    let claims = Claims { sub: "a@b.com".to_string(), exp: 5_000 };
    let a = codec.issue(&claims).ok().unwrap();
    let b = codec.issue(&claims.clone()).ok().unwrap();
    assert_eq!(a, b);
}

#[test]
fn token_signed_with_another_secret_is_refused() {
    let email = Email::parse("test@example.com".to_owned()).unwrap();
    let token = generate_auth_token(&email, &codec(), 1_000).unwrap();
    let other = TokenCodec::new("another-secret".to_string());
    assert!(matches!(other.verify(&token, 1_000), Err(TokenValidationError::InvalidToken)));
}

#[test]
fn tampered_token_is_refused() {
    let email = Email::parse("test@example.com".to_owned()).unwrap();
    let codec = codec();
    let token = generate_auth_token(&email, &codec, 1_000).unwrap();
    let mut parts: Vec<String> = token.split('.').map(|s| s.to_string()).collect();
    let other = generate_auth_token(
        &Email::parse("evil@example.com".to_owned()).unwrap(),
        &codec,
        1_000,
    )
    .unwrap();
    parts[1] = other.split('.').nth(1).unwrap().to_string();
    let forged = parts.join(".");
    assert!(matches!(codec.verify(&forged, 1_000), Err(TokenValidationError::InvalidToken)));
}

#[test]
fn banned_token_is_refused_before_decoding() {
    let email = Email::parse("test@example.com".to_owned()).unwrap();
    let codec = codec();
    let token = generate_auth_token(&email, &codec, 1_000).unwrap();
    let mut store = HashsetBannedTokenStore::default();
    store.add_token(token.clone(), 1_600).unwrap();
    assert!(codec.verify(&token, 1_100).is_ok());
    assert!(matches!(
        validate_token(&token, &store, &codec, 1_100),
        Err(TokenValidationError::BannedToken)
    ));
}

#[test]
fn expiry_that_overflows_is_refused() {
    let email = Email::parse("test@example.com".to_owned()).unwrap();
    let res = generate_auth_token(&email, &codec(), u64::MAX - 10);
    assert!(matches!(res, Err(TokenError::ExpiryOutOfRange)));
}

#[test]
fn password_hash_verifies_only_its_password() {
    let hash = compute_password_hash("password123".to_string()).unwrap();
    assert!(hash.starts_with("$argon2id$"));
    assert_eq!(verify_password_hash(hash.clone(), "password123".to_string()), Ok(()));
    assert_eq!(
        verify_password_hash(hash.clone(), "password124".to_string()),
        Err(PasswordHashError::Mismatch)
    );
    let other = compute_password_hash("password123".to_string()).unwrap();
    assert_ne!(hash, other);
}

#[test]
fn malformed_password_hash_is_a_mismatch() {
    assert_eq!(
        verify_password_hash("not a hash".to_string(), "password123".to_string()),
        Err(PasswordHashError::Mismatch)
    );
}
