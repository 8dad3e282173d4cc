//! Sessions: the claims a session token carries, and how a request's
//! session cookie decides whether the request is served.
use crate::types::{Auth, AuthError};
use vstd::prelude::*;

verus! {

/// How long a session lasts, in seconds.
pub const SESSION_SECS: u64 = 2400000;

/// The status with which a request that must carry a session is refused.
pub const BAD_REQUEST: u16 = 400;

/// The claims of a session for `channel` opened at `now` (seconds since
/// the Unix epoch): it expires `SESSION_SECS` later.
pub fn session_claims(channel: String, now: u64) -> (r: Auth)
    requires
        now + SESSION_SECS <= u64::MAX,
    ensures
        r.channel@ == channel@,
        r.exp == now + SESSION_SECS,
{
    Auth { channel, exp: now + SESSION_SECS }
}

/// What becomes of a request by the session it carries.
#[derive(Debug, PartialEq, Eq)]
pub enum AuthOutcome {
    /// Pass the request on to the next route that does not need a session.
    Forward,
    /// Refuse the request with this status.
    Failure(u16, AuthError),
    /// Serve the request for this session.
    Success(Auth),
}

/// Decides a request by its session: `claims` holds what its session cookie
/// decodes to, `None` when there is no cookie or it does not decode.
/// `no_forward` is whether the request carries the `NoForward` header.
pub fn auth_outcome(no_forward: bool, claims: Option<Auth>) -> (r: AuthOutcome)
    ensures
        match claims {
            Some(a) => r == AuthOutcome::Success(a),
            None => if no_forward {
                r == AuthOutcome::Failure(BAD_REQUEST, AuthError::Missing)
            } else {
                r == AuthOutcome::Forward
            },
        },
{
    match claims {
        Some(a) => AuthOutcome::Success(a),
        None => if no_forward {
            AuthOutcome::Failure(BAD_REQUEST, AuthError::Missing)
        } else {
            AuthOutcome::Forward
        },
    }
}

} // verus!
