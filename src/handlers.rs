use vstd::prelude::*;
use crate::hasher::{
    generate_salt, hash_password, is_alphanumeric_ascii, password_digest, password_matches, verify_password, SALT_LEN,
};
use crate::lockout::{
    check_before_attempt, failure_update, lockout_decision, on_failure, on_reset, on_success, reset_update,
    success_update, LockoutDecision, RetryPolicy,
};
use crate::model::{phone_query, Account, AccountInsert, AccountQuery, updated_accounts};
use crate::request::{SignIn, SignUp, VerifyToken};
use crate::store::{StoreError, Storer};
use crate::token::{sign_jwt, signed_by, token_accepted, verify_jwt};

verus! {

/// Why a login attempt was refused.
#[derive(Debug, Clone, Copy, PartialEq, Eq, Structural)]
pub enum AuthError {
    TooManyAttempts,
    InvalidCredentials,
}

/// The errors of sign-up, sign-in and token checks.
#[derive(Debug, Clone, Copy, PartialEq, Eq, Structural)]
pub enum Error {
    DBError(StoreError),
    AuthError(AuthError),
}

/// Process-wide settings, fixed at startup.
pub struct AuthConfig {
    pub jwt_key: String,
    /// Token validity in seconds.
    pub token_validity: i64,
    pub policy: RetryPolicy,
}

/// Relies on uuid's `Uuid::new_v4` rendered in the simple format: 32 hex
/// digits, random.
#[verifier::external_body]
fn new_account_id() -> (r: String)
    ensures
        r@.len() == 32,
{
    uuid::Uuid::new_v4().simple().to_string()
}

/// A freshly created account for `phone` and `password`, created at `now`.
pub open spec fn is_new_account(a: Account, phone: Seq<char>, password: Seq<char>, now: i64) -> bool {
    &&& a.id@.len() == 32
    &&& a.phone@ == phone
    &&& a.salt@.len() == SALT_LEN
    &&& forall|i: int| 0 <= i < a.salt@.len() ==> is_alphanumeric_ascii(#[trigger] a.salt@[i])
    &&& a.password@.len() == 64
    &&& a.password@ == password_digest(password, a.salt@)
    &&& a.login_error_count == 0
    &&& a.last_login_at is None
    &&& a.last_error_at is None
    &&& a.create_at == now
    &&& a.update_at is None
}

/// Creates an account for `info.phone` and signs a token for it. Returns
/// the new account's id and the token.
pub fn sign_up<S: Storer>(store: &mut S, info: &SignUp, config: &AuthConfig, now: i64) -> (r: Result<
    (String, String),
    Error,
>)
    requires
        old(store).wf(),
        i64::MIN <= now + config.token_validity <= i64::MAX,
    ensures
        final(store).wf(),
        r matches Err(e) ==> e is DBError,
        r matches Err(Error::DBError(_)) ==> final(store).accounts() == old(store).accounts(),
        old(store).accounts().contains_key(info.phone@) ==> r matches Err(Error::DBError(_)),
        old(store).infallible() && !old(store).accounts().contains_key(info.phone@) ==> r is Ok,
        r is Ok ==> {
            &&& !old(store).accounts().contains_key(info.phone@)
            &&& final(store).accounts() == old(store).accounts().insert(
                info.phone@,
                final(store).accounts()[info.phone@],
            )
            &&& is_new_account(final(store).accounts()[info.phone@], info.phone@, info.password@, now)
        },
        r matches Ok((id, token)) ==> {
            &&& final(store).accounts()[info.phone@].id@ == id@
            &&& signed_by(token@, config.jwt_key@, id@, info.phone@, (now + config.token_validity) as i64)
        },
{
    let salt = generate_salt();
    let password = hash_password(info.password.as_str(), salt.as_str());
    let id = new_account_id();
    let acct = AccountInsert {
        id: id.clone(),
        phone: info.phone.clone(),
        password,
        salt,
        create_at: now,
    };
    match store.insert_account(acct) {
        Ok(_) => {},
        Err(e) => return Err(Error::DBError(e)),
    }
    let token = sign_jwt(id.as_str(), info.phone.as_str(), config.token_validity, config.jwt_key.as_str(), now);
    Ok((id, token))
}

/// What a sign-in attempt comes to when the store does not fail.
#[derive(Debug, Clone, Copy, PartialEq, Eq, Structural)]
pub enum SignInOutcome {
    NoAccount,
    Locked,
    WrongPassword,
    Accepted,
}

pub open spec fn sign_in_outcome(
    accounts: Map<Seq<char>, Account>,
    phone: Seq<char>,
    password: Seq<char>,
    policy: RetryPolicy,
    now: i64,
) -> SignInOutcome {
    if !accounts.contains_key(phone) {
        SignInOutcome::NoAccount
    } else {
        let a = accounts[phone];
        if lockout_decision(a.login_error_count, a.last_error_at, policy, now) == LockoutDecision::Locked {
            SignInOutcome::Locked
        } else if password_matches(password, a.password@, a.salt@) {
            SignInOutcome::Accepted
        } else {
            SignInOutcome::WrongPassword
        }
    }
}

/// The accounts after a sign-in attempt that the store did not fail: a
/// stale failure count is reset first, then the failure or the success is
/// recorded; a locked or unknown account is left alone.
pub open spec fn sign_in_accounts(
    accounts: Map<Seq<char>, Account>,
    phone: String,
    password: Seq<char>,
    policy: RetryPolicy,
    now: i64,
) -> Map<Seq<char>, Account> {
    let q = phone_query(phone);
    let a = accounts[phone@];
    let d = lockout_decision(a.login_error_count, a.last_error_at, policy, now);
    let after_reset = if d == LockoutDecision::ProceedAfterReset {
        updated_accounts(accounts, q, on_reset())
    } else {
        accounts
    };
    let count = if d == LockoutDecision::ProceedAfterReset {
        0i32
    } else {
        a.login_error_count
    };
    match sign_in_outcome(accounts, phone@, password, policy, now) {
        SignInOutcome::Accepted => updated_accounts(after_reset, q, on_success(now)),
        SignInOutcome::WrongPassword => updated_accounts(after_reset, q, on_failure(count, now)),
        _ => accounts,
    }
}

/// Applies the lockout policy to `acct` before its password is looked at,
/// persisting the reset of a stale failure count.
fn check_error_count<S: Storer>(store: &mut S, acct: &mut Account, policy: &RetryPolicy, now: i64) -> (r: Result<(), Error>)
    requires
        old(store).wf(),
    ensures
        final(store).wf(),
        lockout_decision(old(acct).login_error_count, old(acct).last_error_at, *policy, now)
            == LockoutDecision::Locked ==> r == Err::<(), Error>(Error::AuthError(AuthError::TooManyAttempts)),
        lockout_decision(old(acct).login_error_count, old(acct).last_error_at, *policy, now)
            == LockoutDecision::Proceed ==> r is Ok,
        old(store).infallible() && r is Err ==> r == Err::<(), Error>(Error::AuthError(AuthError::TooManyAttempts)),
        final(store).infallible() == old(store).infallible(),
        lockout_decision(old(acct).login_error_count, old(acct).last_error_at, *policy, now)
            == LockoutDecision::ProceedAfterReset ==> r is Ok || r matches Err(Error::DBError(_)),
        r is Ok && lockout_decision(old(acct).login_error_count, old(acct).last_error_at, *policy, now)
            == LockoutDecision::ProceedAfterReset ==> {
            &&& final(store).accounts() == updated_accounts(old(store).accounts(), phone_query(old(acct).phone), on_reset())
            &&& *final(acct) == (Account { login_error_count: 0, ..*old(acct) })
        },
        !(r is Ok && lockout_decision(old(acct).login_error_count, old(acct).last_error_at, *policy, now)
            == LockoutDecision::ProceedAfterReset) ==> {
            &&& final(store).accounts() == old(store).accounts()
            &&& *final(acct) == *old(acct)
        },
{
    match check_before_attempt(acct, policy, now) {
        LockoutDecision::Proceed => Ok(()),
        LockoutDecision::Locked => Err(Error::AuthError(AuthError::TooManyAttempts)),
        LockoutDecision::ProceedAfterReset => {
            match store.update_account(AccountQuery::by_phone(&acct.phone), reset_update()) {
                Ok(_) => {
                    acct.login_error_count = 0;
                    Ok(())
                },
                Err(e) => Err(Error::DBError(e)),
            }
        },
    }
}

/// Compares `pass` with the stored digest of `acct`, recording a failure
/// at `now` on a mismatch.
fn check_password<S: Storer>(store: &mut S, acct: &Account, pass: &str, now: i64) -> (r: Result<(), Error>)
    requires
        old(store).wf(),
    ensures
        final(store).wf(),
        old(store).infallible() ==> !(r matches Err(Error::DBError(_))),
        final(store).infallible() == old(store).infallible(),
        password_matches(pass@, acct.password@, acct.salt@) ==> r is Ok && final(store).accounts()
            == old(store).accounts(),
        !password_matches(pass@, acct.password@, acct.salt@) ==> {
            ||| (r == Err::<(), Error>(Error::AuthError(AuthError::InvalidCredentials)) && final(store).accounts()
                == updated_accounts(old(store).accounts(), phone_query(acct.phone), on_failure(acct.login_error_count, now)))
            ||| (r matches Err(Error::DBError(_)) && final(store).accounts() == old(store).accounts())
        },
{
    if verify_password(pass, acct.password.as_str(), acct.salt.as_str()) {
        return Ok(());
    }
    match store.update_account(AccountQuery::by_phone(&acct.phone), failure_update(acct, now)) {
        Ok(_) => Err(Error::AuthError(AuthError::InvalidCredentials)),
        Err(e) => Err(Error::DBError(e)),
    }
}

/// Signs in with a phone and password at `now`: the lockout policy is
/// applied first, then the password is checked, and on success a token is
/// signed for the account.
pub fn auth<S: Storer>(store: &mut S, req: &SignIn, config: &AuthConfig, now: i64) -> (r: Result<String, Error>)
    requires
        old(store).wf(),
        i64::MIN <= now + config.token_validity <= i64::MAX,
    ensures
        final(store).wf(),
        old(store).infallible() ==> !(r matches Err(Error::DBError(_))),
        !(r matches Err(Error::DBError(_))) ==> final(store).accounts() == sign_in_accounts(
            old(store).accounts(),
            req.phone,
            req.password@,
            config.policy,
            now,
        ),
        !(r matches Err(Error::DBError(_))) ==> match sign_in_outcome(
            old(store).accounts(),
            req.phone@,
            req.password@,
            config.policy,
            now,
        ) {
            SignInOutcome::NoAccount => r == Err::<String, Error>(Error::AuthError(AuthError::InvalidCredentials)),
            SignInOutcome::Locked => r == Err::<String, Error>(Error::AuthError(AuthError::TooManyAttempts)),
            SignInOutcome::WrongPassword => r == Err::<String, Error>(Error::AuthError(AuthError::InvalidCredentials)),
            SignInOutcome::Accepted => r is Ok,
        },
        r matches Err(Error::DBError(_)) ==> final(store).accounts() == old(store).accounts()
            || final(store).accounts() == updated_accounts(old(store).accounts(), phone_query(req.phone), on_reset()),
        r matches Ok(token) ==> signed_by(
            token@,
            config.jwt_key@,
            old(store).accounts()[req.phone@].id@,
            req.phone@,
            (now + config.token_validity) as i64,
        ),
{
    let ghost accounts = store.accounts();
    let mut acct = match store.get_account(AccountQuery::by_phone(&req.phone)) {
        Ok(a) => a,
        Err(e) => {
            if e == StoreError::NotFoundError {
                return Err(Error::AuthError(AuthError::InvalidCredentials));
            } else {
                return Err(Error::DBError(e));
            }
        },
    };
    assert(acct == accounts[req.phone@]);
    match check_error_count(store, &mut acct, &config.policy, now) {
        Ok(()) => {},
        Err(e) => return Err(e),
    }
    match check_password(store, &acct, req.password.as_str(), now) {
        Ok(()) => {},
        Err(e) => return Err(e),
    }
    match store.update_account(AccountQuery::by_phone(&acct.phone), success_update(now)) {
        Ok(_) => {},
        Err(e) => return Err(Error::DBError(e)),
    }
    Ok(sign_jwt(acct.id.as_str(), acct.phone.as_str(), config.token_validity, config.jwt_key.as_str(), now))
}

/// Accepts a token that is authentic under `key` and unexpired at `now`.
/// The answer depends on the token, the key and the time alone.
pub fn verify_jwt_token(token: &VerifyToken, key: &str, now: i64) -> (r: Result<(), Error>)
    ensures
        r is Ok <==> token_accepted(token.0@, key@, now),
        r is Err ==> r == Err::<(), Error>(Error::AuthError(AuthError::InvalidCredentials)),
{
    if verify_jwt(token.0.as_str(), key, now) {
        Ok(())
    } else {
        Err(Error::AuthError(AuthError::InvalidCredentials))
    }
}

/// The password given at sign-up verifies against the account that sign-up
/// stores.
pub proof fn lemma_sign_up_password_verifies(a: Account, phone: Seq<char>, password: Seq<char>, now: i64)
    requires
        is_new_account(a, phone, password, now),
    ensures
        password_matches(password, a.password@, a.salt@),
{
}

/// The failure-tracking invariant of an account: the count stays within
/// the limit, and a positive count comes with a failure time.
pub open spec fn counters_sound(a: Account, policy: RetryPolicy) -> bool {
    &&& 0 <= a.login_error_count <= policy.retry_limit
    &&& a.login_error_count > 0 ==> a.last_error_at is Some
}

/// `b` is `a` with at most its failure and login tracking changed.
pub open spec fn same_identity(a: Account, b: Account) -> bool {
    &&& b.id == a.id
    &&& b.phone == a.phone
    &&& b.password == a.password
    &&& b.salt == a.salt
    &&& b.create_at == a.create_at
    &&& b.update_at == a.update_at
}

/// A sign-in attempt, whether it completes or the store fails after the
/// reset, keeps every account: its identity, digest, salt and creation
/// time stay, its failure count becomes 0, 1, the old count or one more,
/// and sound failure counters stay sound.
pub proof fn lemma_sign_in_keeps_accounts(
    accounts: Map<Seq<char>, Account>,
    phone: String,
    password: Seq<char>,
    policy: RetryPolicy,
    now: i64,
    k: Seq<char>,
)
    requires
        accounts.contains_key(k),
        forall|j: Seq<char>| #[trigger] accounts.contains_key(j) ==> accounts[j].phone@ == j,
        policy.retry_limit >= 1,
    ensures
        ({
            let a = accounts[k];
            let after = sign_in_accounts(accounts, phone, password, policy, now);
            let reset = updated_accounts(accounts, phone_query(phone), on_reset());
            &&& after.contains_key(k) && reset.contains_key(k)
            &&& same_identity(a, after[k]) && same_identity(a, reset[k])
            &&& after[k].login_error_count == 0 || after[k].login_error_count == 1
                || after[k].login_error_count == a.login_error_count
                || after[k].login_error_count == a.login_error_count + 1
            &&& counters_sound(a, policy) ==> counters_sound(after[k], policy) && counters_sound(reset[k], policy)
        }),
{
    let q = phone_query(phone);
    let a = accounts[k];
    if q.matches(a) {
        assert(k == phone@);
    }
    let d = lockout_decision(a.login_error_count, a.last_error_at, policy, now);
    let after_reset = if d == LockoutDecision::ProceedAfterReset {
        updated_accounts(accounts, q, on_reset())
    } else {
        accounts
    };
    assert(after_reset.contains_key(k));
    assert(same_identity(a, after_reset[k]));
}

} // verus!
