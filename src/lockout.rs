use vstd::prelude::*;
use crate::model::{Account, AccountUpdate};

verus! {

/// The lockout configuration: how many consecutive failures are allowed,
/// and the cool-down (seconds) after the last failure.
pub struct RetryPolicy {
    pub retry_limit: i32,
    pub retry_interval: i64,
}

/// What the lockout policy says of a login attempt.
#[derive(Debug, Clone, Copy, PartialEq, Eq, Structural)]
pub enum LockoutDecision {
    Proceed,
    /// The cool-down has passed: reset the failure count, then proceed.
    ProceedAfterReset,
    /// Reject without checking the password.
    Locked,
}

pub open spec fn lockout_decision(
    count: i32,
    last_error_at: Option<i64>,
    policy: RetryPolicy,
    now: i64,
) -> LockoutDecision {
    if count < policy.retry_limit {
        LockoutDecision::Proceed
    } else {
        match last_error_at {
            Some(t) => if now - t <= policy.retry_interval {
                LockoutDecision::Locked
            } else {
                LockoutDecision::ProceedAfterReset
            },
            None => LockoutDecision::ProceedAfterReset,
        }
    }
}

/// Decides, from an account's failure counters, whether an attempt at `now`
/// may go on. An account at the limit with no recorded failure time has no
/// cool-down to wait for and is reset.
pub fn check_before_attempt(acct: &Account, policy: &RetryPolicy, now: i64) -> (r: LockoutDecision)
    ensures
        r == lockout_decision(acct.login_error_count, acct.last_error_at, *policy, now),
{
    if acct.login_error_count < policy.retry_limit {
        LockoutDecision::Proceed
    } else {
        match acct.last_error_at {
            Some(t) => {
                if (now as i128) - (t as i128) <= policy.retry_interval as i128 {
                    LockoutDecision::Locked
                } else {
                    LockoutDecision::ProceedAfterReset
                }
            },
            None => LockoutDecision::ProceedAfterReset,
        }
    }
}

/// The failure count after one more failure; it stops at `i32::MAX`.
pub open spec fn next_error_count(count: i32) -> i32 {
    if count < i32::MAX {
        (count + 1) as i32
    } else {
        count
    }
}

pub open spec fn on_failure(count: i32, now: i64) -> AccountUpdate {
    AccountUpdate {
        password: None,
        login_error_count: Some(next_error_count(count)),
        last_login_at: None,
        last_error_at: Some(now),
    }
}

pub open spec fn on_success(now: i64) -> AccountUpdate {
    AccountUpdate { password: None, login_error_count: Some(0), last_login_at: Some(now), last_error_at: None }
}

pub open spec fn on_reset() -> AccountUpdate {
    AccountUpdate { password: None, login_error_count: Some(0), last_login_at: None, last_error_at: None }
}

/// The update that records a failed password check at `now`.
pub fn failure_update(acct: &Account, now: i64) -> (r: AccountUpdate)
    ensures
        r == on_failure(acct.login_error_count, now),
{
    let count = if acct.login_error_count < i32::MAX {
        acct.login_error_count + 1
    } else {
        acct.login_error_count
    };
    AccountUpdate { password: None, login_error_count: Some(count), last_login_at: None, last_error_at: Some(now) }
}

/// The update that records a successful login at `now`.
pub fn success_update(now: i64) -> (r: AccountUpdate)
    ensures
        r == on_success(now),
{
    AccountUpdate { password: None, login_error_count: Some(0), last_login_at: Some(now), last_error_at: None }
}

/// The update that clears the failure count once the cool-down has passed.
pub fn reset_update() -> (r: AccountUpdate)
    ensures
        r == on_reset(),
{
    AccountUpdate { password: None, login_error_count: Some(0), last_login_at: None, last_error_at: None }
}

} // verus!
