use phone_auth::handlers::{auth, sign_up, verify_jwt_token, AuthConfig, AuthError, Error};
use phone_auth::hasher::hash_password;
use phone_auth::lockout::RetryPolicy;
use phone_auth::model::{AccountInsert, AccountQuery, AccountUpdate};
use phone_auth::request::{SignIn, SignUp, VerifyToken};
use phone_auth::store::{MemoryStore, StoreError, Storer};
use phone_auth::token::verify_jwt;

fn config() -> AuthConfig {
    AuthConfig {
        jwt_key: "signing-key".to_string(),
        token_validity: 7 * 24 * 3600,
        policy: RetryPolicy { retry_limit: 3, retry_interval: 60 },
    }
}

fn by_phone(p: &str) -> AccountQuery {
    AccountQuery { id: None, phone: Some(p.to_string()) }
}

fn sign_in(phone: &str, password: &str) -> SignIn {
    SignIn { phone: phone.to_string(), password: password.to_string() }
}

#[test]
fn sign_up_stores_hash_of_password_and_stored_salt() {
    let mut store = MemoryStore::new();
    let cfg = config();
    let req = SignUp { phone: "555".to_string(), password: "secret".to_string() };
    let (id, token) = sign_up(&mut store, &req, &cfg, 1_000).unwrap();
    let acct = store.get_account(by_phone("555")).unwrap();
    assert_eq!(acct.id, id);
    assert_eq!(acct.id.len(), 32);
    assert_eq!(acct.salt.len(), 16);
    assert_eq!(acct.password, hash_password("secret", &acct.salt));
    assert_eq!(acct.login_error_count, 0);
    assert_eq!(acct.create_at, 1_000);
    assert!(verify_jwt(&token, &cfg.jwt_key, 1_000));
    assert_eq!(verify_jwt_token(&VerifyToken(token), &cfg.jwt_key, 1_001), Ok(()));
}

#[test]
fn sign_up_with_taken_phone_fails() {
    let mut store = MemoryStore::new();
    let cfg = config();
    let req = SignUp { phone: "555".to_string(), password: "secret".to_string() };
    assert!(sign_up(&mut store, &req, &cfg, 1_000).is_ok());
    assert_eq!(sign_up(&mut store, &req, &cfg, 1_001), Err(Error::DBError(StoreError::InternalError)));
}

#[test]
fn sign_in_unknown_phone_is_invalid_credentials() {
    let mut store = MemoryStore::new();
    assert_eq!(auth(&mut store, &sign_in("000", "x"), &config(), 1_000), Err(Error::AuthError(AuthError::InvalidCredentials)));
}

#[test]
fn sign_in_with_right_password_succeeds() {
    let mut store = MemoryStore::new();
    let cfg = config();
    let req = SignUp { phone: "123".to_string(), password: "right".to_string() };
    sign_up(&mut store, &req, &cfg, 1_000).unwrap();
    let token = auth(&mut store, &sign_in("123", "right"), &cfg, 2_000).unwrap();
    assert!(verify_jwt(&token, &cfg.jwt_key, 2_000));
    let acct = store.get_account(by_phone("123")).unwrap();
    assert_eq!(acct.last_login_at, Some(2_000));
    assert_eq!(acct.login_error_count, 0);
}

#[test]
fn lockout_then_recovery_after_interval() {
    let cfg = config();
    let mut store = MemoryStore::new();
    let req = SignUp { phone: "123".to_string(), password: "right".to_string() };
    sign_up(&mut store, &req, &cfg, 0).unwrap();
    let t = 1_000;
    for _ in 0..3 {
        assert_eq!(auth(&mut store, &sign_in("123", "wrong"), &cfg, t), Err(Error::AuthError(AuthError::InvalidCredentials)));
    }
    let acct = store.get_account(by_phone("123")).unwrap();
    assert_eq!(acct.login_error_count, 3);
    assert_eq!(acct.last_error_at, Some(t));

    let mut early = MemoryStore::new();
    let mut late = MemoryStore::new();
    for s in [&mut early, &mut late] {
        s.insert_account(AccountInsert {
            id: acct.id.clone(),
            phone: acct.phone.clone(),
            password: acct.password.clone(),
            salt: acct.salt.clone(),
            create_at: acct.create_at,
        })
        .unwrap();
        s.update_account(
            by_phone("123"),
            AccountUpdate { password: None, login_error_count: Some(3), last_login_at: None, last_error_at: Some(t) },
        )
        .unwrap();
    }

    assert_eq!(auth(&mut early, &sign_in("123", "right"), &cfg, t + 1), Err(Error::AuthError(AuthError::TooManyAttempts)));
    let locked = early.get_account(by_phone("123")).unwrap();
    assert_eq!(locked.login_error_count, 3);
    assert_eq!(locked.last_login_at, None);

    let token = auth(&mut late, &sign_in("123", "right"), &cfg, t + 61).unwrap();
    assert!(verify_jwt(&token, &cfg.jwt_key, t + 61));
    let after = late.get_account(by_phone("123")).unwrap();
    assert_eq!(after.login_error_count, 0);
    assert_eq!(after.last_login_at, Some(t + 61));
}

#[test]
fn failure_after_reset_counts_from_zero() {
    let cfg = config();
    let mut store = MemoryStore::new();
    let req = SignUp { phone: "123".to_string(), password: "right".to_string() };
    sign_up(&mut store, &req, &cfg, 0).unwrap();
    for _ in 0..3 {
        let _ = auth(&mut store, &sign_in("123", "wrong"), &cfg, 1_000);
    }
    assert_eq!(auth(&mut store, &sign_in("123", "wrong"), &cfg, 1_061), Err(Error::AuthError(AuthError::InvalidCredentials)));
    let acct = store.get_account(by_phone("123")).unwrap();
    assert_eq!(acct.login_error_count, 1);
    assert_eq!(acct.last_error_at, Some(1_061));
}

#[test]
fn memory_store_queries_and_updates() {
    let mut store = MemoryStore::new();
    assert_eq!(store.get_account(by_phone("1")).err(), Some(StoreError::NotFoundError));
    for (id, phone) in [("a", "1"), ("b", "2")] {
        let ins = AccountInsert {
            id: id.to_string(),
            phone: phone.to_string(),
            password: "P".to_string(),
            salt: "S".to_string(),
            create_at: 5,
        };
        assert_eq!(store.insert_account(ins), Ok(1));
    }
    let q = AccountQuery { id: Some("b".to_string()), phone: Some("1".to_string()) };
    assert_eq!(store.get_account(q).err(), Some(StoreError::NotFoundError));
    let u = AccountUpdate { password: Some("Q".to_string()), login_error_count: None, last_login_at: Some(9), last_error_at: None };
    assert_eq!(store.update_account(by_phone("2"), u), Ok(1));
    let b = store.get_account(AccountQuery { id: Some("b".to_string()), phone: None }).unwrap();
    assert_eq!(b.password, "Q");
    assert_eq!(b.last_login_at, Some(9));
    let a = store.get_account(by_phone("1")).unwrap();
    assert_eq!(a.password, "P");
    assert_eq!(a.last_login_at, None);
}
