//! The retry orchestrator: resolves exactly one stale-token cycle.
//!
//! A mutating call whose anti-forgery token the remote service rejects comes
//! back as [`RobloxError::InvalidXcsrf`] carrying a fresh token.  The
//! orchestrator writes that token into the session and repeats the operation
//! exactly once; whatever the second attempt produces is returned as is,
//! a second stale-token signal included.  Every other first outcome is
//! returned untouched.  No unbounded retry loop exists in the library.

use vstd::prelude::*;

use crate::error::RobloxError;
use crate::session::SessionContext;

verus! {

/// The fresh token of a stale-token outcome, and `None` for every other
/// outcome, success included.
pub open spec fn spec_stale_token<T>(outcome: Result<T, RobloxError>) -> Option<Seq<char>> {
    match outcome {
        Err(RobloxError::InvalidXcsrf(fresh)) => Some(fresh@),
        _ => None,
    }
}

/// Holds when `outcome` is a possible result of running `operation` with a
/// token whose text is `token`.
pub open spec fn spec_attempt<T, F: Fn(String) -> Result<T, RobloxError>>(
    operation: F,
    token: Seq<char>,
    outcome: Result<T, RobloxError>,
) -> bool {
    exists|arg: String| arg@ == token && #[trigger] call_ensures(operation, (arg,), outcome)
}

/// Runs `operation` on the session's current token; on a stale-token outcome
/// writes the fresh token into the session and runs `operation` exactly once
/// more.  Returns the outcome that stands, and how many attempts were made.
///
/// The contract carries the single-retry law: some first attempt on the old
/// token took place; when it signalled a stale token, the session's token
/// equals the fresh token of that signal, exactly two attempts were made, and
/// the returned outcome is one of the second attempt, whatever it is; when it
/// did not, the outcome is that first outcome, the token is unchanged, and
/// exactly one attempt was made.
pub fn run_with_retry<T, F: Fn(String) -> Result<T, RobloxError>>(
    session: &mut SessionContext,
    operation: F,
) -> (out: (Result<T, RobloxError>, u8))
    requires
        forall|arg: String| #[trigger] call_requires(operation, (arg,)),
    ensures
        final(session)@.credential == old(session)@.credential,
        (exists|first: Result<T, RobloxError>|
            {
                &&& #[trigger] spec_attempt(operation, old(session)@.xcsrf, first)
                &&& match spec_stale_token(first) {
                    Some(fresh) => {
                        &&& final(session)@.xcsrf == fresh
                        &&& out.1 == 2
                        &&& spec_attempt(operation, fresh, out.0)
                    },
                    None => {
                        &&& out.0 == first
                        &&& out.1 == 1
                        &&& final(session)@.xcsrf == old(session)@.xcsrf
                    },
                }
            }),
{
    let token = session.xcsrf();
    let ghost first_arg: String = token;
    let first = operation(token);
    let ghost first_outcome: Result<T, RobloxError> = first;
    match first {
        Err(RobloxError::InvalidXcsrf(fresh)) => {
            session.set_xcsrf(fresh);
            let retry_token = session.xcsrf();
            let ghost retry_arg: String = retry_token;
            let second = operation(retry_token);
            proof {
                assert(spec_attempt(operation, old(session)@.xcsrf, first_outcome)) by {
                    assert(call_ensures(operation, (first_arg,), first_outcome));
                }
                assert(spec_attempt(operation, session@.xcsrf, second)) by {
                    assert(call_ensures(operation, (retry_arg,), second));
                }
            }
            (second, 2)
        },
        other => {
            proof {
                assert(spec_attempt(operation, old(session)@.xcsrf, first_outcome)) by {
                    assert(call_ensures(operation, (first_arg,), first_outcome));
                }
            }
            (other, 1)
        },
    }
}

} // verus!
