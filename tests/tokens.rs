use phone_auth::handlers::{verify_jwt_token, AuthError, Error};
use phone_auth::request::VerifyToken;
use phone_auth::token::{decode_jwt, sign_jwt, verify_jwt};

const KEY: &str = "top-secret";

#[test]
fn signed_token_verifies_right_away() {
    let t = sign_jwt("id1", "123", 3600, KEY, 1_000);
    assert!(verify_jwt(&t, KEY, 1_000));
    assert!(verify_jwt(&t, KEY, 4_599));
}

#[test]
fn token_expires_and_stays_expired() {
    let t = sign_jwt("id1", "123", 3600, KEY, 1_000);
    assert!(!verify_jwt(&t, KEY, 4_600));
    assert!(!verify_jwt(&t, KEY, 4_601));
    assert!(!verify_jwt(&t, KEY, 1_000_000));
}

#[test]
fn token_with_other_key_is_rejected() {
    let t = sign_jwt("id1", "123", 3600, KEY, 1_000);
    assert!(!verify_jwt(&t, "another-key", 1_000));
}

#[test]
fn mutated_token_is_rejected() {
    let t = sign_jwt("id1", "123", 3600, KEY, 1_000);
    let mut bytes = t.clone().into_bytes();
    let mid = bytes.len() / 2;
    bytes[mid] = if bytes[mid] == b'A' { b'B' } else { b'A' };
    let mutated = String::from_utf8(bytes).unwrap();
    assert!(!verify_jwt(&mutated, KEY, 1_000));
    assert!(!verify_jwt("not.a.token", KEY, 1_000));
    assert!(!verify_jwt("", KEY, 1_000));
    let truncated = &t[..t.len() - 1];
    assert!(!verify_jwt(truncated, KEY, 1_000));
}

#[test]
fn decoded_claim_carries_identity_and_expiry() {
    let t = sign_jwt("id1", "123", 60, KEY, 1_000);
    let c = decode_jwt(&t, KEY, 1_000).unwrap();
    assert_eq!(c.id, "id1");
    assert_eq!(c.phone, "123");
    assert_eq!(c.expiration, 1_060);
    assert!(decode_jwt(&t, KEY, 1_060).is_none());
}

#[test]
fn verify_token_is_idempotent() {
    let t = VerifyToken(sign_jwt("id1", "123", 60, KEY, 1_000));
    let first = verify_jwt_token(&t, KEY, 1_010);
    assert_eq!(first, Ok(()));
    for _ in 0..5 {
        assert_eq!(verify_jwt_token(&t, KEY, 1_010), first);
    }
    let bad = VerifyToken("garbage".to_string());
    assert_eq!(verify_jwt_token(&bad, KEY, 1_010), Err(Error::AuthError(AuthError::InvalidCredentials)));
    assert_eq!(verify_jwt_token(&bad, KEY, 1_010), Err(Error::AuthError(AuthError::InvalidCredentials)));
}
