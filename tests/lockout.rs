use phone_auth::lockout::{check_before_attempt, failure_update, reset_update, success_update, LockoutDecision, RetryPolicy};
use phone_auth::model::Account;

fn account(count: i32, last_error_at: Option<i64>) -> Account {
    Account {
        id: "id".to_string(),
        phone: "123".to_string(),
        password: "H".to_string(),
        salt: "S".to_string(),
        login_error_count: count,
        last_login_at: None,
        last_error_at,
        create_at: 0,
        update_at: None,
    }
}

const POLICY: RetryPolicy = RetryPolicy { retry_limit: 3, retry_interval: 60 };

#[test]
fn below_limit_proceeds() {
    assert_eq!(check_before_attempt(&account(2, Some(100)), &POLICY, 101), LockoutDecision::Proceed);
    assert_eq!(check_before_attempt(&account(0, None), &POLICY, 101), LockoutDecision::Proceed);
}

#[test]
fn at_limit_within_interval_is_locked() {
    assert_eq!(check_before_attempt(&account(3, Some(100)), &POLICY, 101), LockoutDecision::Locked);
    assert_eq!(check_before_attempt(&account(3, Some(100)), &POLICY, 160), LockoutDecision::Locked);
    assert_eq!(check_before_attempt(&account(5, Some(100)), &POLICY, 100), LockoutDecision::Locked);
}

#[test]
fn at_limit_after_interval_resets() {
    assert_eq!(check_before_attempt(&account(3, Some(100)), &POLICY, 161), LockoutDecision::ProceedAfterReset);
    assert_eq!(check_before_attempt(&account(3, None), &POLICY, 161), LockoutDecision::ProceedAfterReset);
}

#[test]
fn extreme_times_do_not_overflow() {
    assert_eq!(check_before_attempt(&account(3, Some(i64::MIN)), &POLICY, i64::MAX), LockoutDecision::ProceedAfterReset);
    assert_eq!(check_before_attempt(&account(3, Some(i64::MAX)), &POLICY, i64::MIN), LockoutDecision::Locked);
}

#[test]
fn updates_record_failure_success_and_reset() {
    let f = failure_update(&account(2, None), 500);
    assert_eq!(f.login_error_count, Some(3));
    assert_eq!(f.last_error_at, Some(500));
    assert_eq!(f.last_login_at, None);
    assert!(f.password.is_none());
    let m = failure_update(&account(i32::MAX, None), 500);
    assert_eq!(m.login_error_count, Some(i32::MAX));
    let s = success_update(700);
    assert_eq!(s.login_error_count, Some(0));
    assert_eq!(s.last_login_at, Some(700));
    assert_eq!(s.last_error_at, None);
    let r = reset_update();
    assert_eq!(r.login_error_count, Some(0));
    assert_eq!(r.last_login_at, None);
    assert_eq!(r.last_error_at, None);
}
