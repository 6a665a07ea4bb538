//! Tests of the retry orchestrator: exactly one stale-token cycle.

use std::cell::Cell;

use roblox_api::error::RobloxError;
use roblox_api::retry::run_with_retry;
use roblox_api::session::SessionContext;

#[test]
fn stale_then_success_returns_success_and_rotates_token() {
    let mut session = SessionContext::new("cookie".to_string());
    session.set_xcsrf("old-token".to_string());
    let calls: Cell<u32> = Cell::new(0);
    let seen_first: Cell<bool> = Cell::new(false);

    let (result, attempts) = run_with_retry(&mut session, |token: String| {
        let n = calls.get();
        calls.set(n + 1);
        if n == 0 {
            seen_first.set(token == "old-token");
            Err(RobloxError::InvalidXcsrf("fresh-token".to_string()))
        } else {
            Ok(42u64)
        }
    });

    assert!(seen_first.get());
    assert_eq!(result, Ok(42));
    assert_eq!(attempts, 2);
    assert_eq!(calls.get(), 2);
    assert_eq!(session.xcsrf(), "fresh-token");
    assert_eq!(session.cookie_string(), ".ROBLOSECURITY=cookie");
}

#[test]
fn two_stale_signals_stop_after_two_attempts() {
    let mut session = SessionContext::new("cookie".to_string());
    let calls: Cell<u32> = Cell::new(0);

    let (result, attempts): (Result<(), RobloxError>, u8) =
        run_with_retry(&mut session, |_token: String| {
            let n = calls.get();
            calls.set(n + 1);
            if n == 0 {
                Err(RobloxError::InvalidXcsrf("first-fresh".to_string()))
            } else {
                Err(RobloxError::InvalidXcsrf("second-fresh".to_string()))
            }
        });

    assert_eq!(
        result,
        Err(RobloxError::InvalidXcsrf("second-fresh".to_string()))
    );
    assert_eq!(attempts, 2);
    assert_eq!(calls.get(), 2);
    // The second stale signal propagates as-is: only the first one rotated
    // the session's token.
    assert_eq!(session.xcsrf(), "first-fresh");
}

#[test]
fn immediate_success_makes_one_attempt() {
    let mut session = SessionContext::new("cookie".to_string());
    session.set_xcsrf("tok".to_string());
    let calls: Cell<u32> = Cell::new(0);

    let (result, attempts) = run_with_retry(&mut session, |_token: String| {
        calls.set(calls.get() + 1);
        Ok(7u64)
    });

    assert_eq!(result, Ok(7));
    assert_eq!(attempts, 1);
    assert_eq!(calls.get(), 1);
    assert_eq!(session.xcsrf(), "tok");
}

#[test]
fn other_errors_propagate_without_retry() {
    let mut session = SessionContext::new("cookie".to_string());
    session.set_xcsrf("tok".to_string());
    let calls: Cell<u32> = Cell::new(0);

    let (result, attempts): (Result<(), RobloxError>, u8) =
        run_with_retry(&mut session, |_token: String| {
            calls.set(calls.get() + 1);
            Err(RobloxError::TooManyRequests)
        });

    assert_eq!(result, Err(RobloxError::TooManyRequests));
    assert_eq!(attempts, 1);
    assert_eq!(calls.get(), 1);
    assert_eq!(session.xcsrf(), "tok");
}
