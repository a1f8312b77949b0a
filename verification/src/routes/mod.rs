//! What the service does for each kind of request, without the transport.

use crate::db::user::{find_by_token, User};
use crate::state::State;
use vstd::prelude::*;

pub mod api;
pub mod catchers;
pub mod download;
pub mod medal;
pub mod upload;
pub mod youtube;

verus! {

/// The status of a request that asks what cannot be done.
pub const BAD_REQUEST: u16 = 400;

/// The status of a request from an account that may not make it.
pub const FORBIDDEN: u16 = 403;

/// The status of a request that announces more bytes than are accepted.
pub const PAYLOAD_TOO_LARGE: u16 = 413;

/// The status of a request that failed on the service's side.
pub const INTERNAL_SERVER_ERROR: u16 = 500;

/// The status of a request for what is not there.
pub const NOT_FOUND: u16 = 404;

/// The status of a request from nobody the service knows.
pub const UNAUTHORIZED: u16 = 401;

/// An account that proved who it is by its token.
pub struct TokenAuth(pub User);

/// Why a request could not be told to come from an account.
#[derive(Clone, Copy, Debug, PartialEq, Eq, Structural)]
pub enum AuthError {
    Missing,
    Invalid,
    ServerError,
}

impl TokenAuth {
    /// Tells which account a request comes from, by the token it carries:
    /// a request without a token is turned down as missing one, a token
    /// that belongs to nobody as invalid, both with the status for nobody
    /// known.
    pub fn from_request(state: &State, token: Option<&str>) -> (outcome: Result<
        TokenAuth,
        (u16, AuthError),
    >)
        ensures
            match token {
                None => outcome == Err::<TokenAuth, (u16, AuthError)>(
                    (UNAUTHORIZED, AuthError::Missing),
                ),
                Some(token) => match find_by_token(state.user_db@, token@) {
                    Some(user) => outcome is Ok && outcome->Ok_0.0@ == user,
                    None => outcome == Err::<TokenAuth, (u16, AuthError)>(
                        (UNAUTHORIZED, AuthError::Invalid),
                    ),
                },
            },
    {
        match token {
            Some(token) => match state.user_db.get(token) {
                Some(user) => Ok(TokenAuth(user)),
                None => Err((UNAUTHORIZED, AuthError::Invalid)),
            },
            None => Err((UNAUTHORIZED, AuthError::Missing)),
        }
    }
}

/// The limit on requests for pages and for the progress of uploads.
pub struct BaseRateLimitGuard;

/// The limit on requests that store or fetch something.
pub struct RateLimitGuard;

/// The limit on requests that are costly or that guess at tokens.
pub struct StrictRateLimitGuard;

impl BaseRateLimitGuard {
    /// Requests let through per minute.
    pub fn quota() -> (per_minute: u32)
        ensures
            per_minute == 70,
    {
        70
    }
}

impl RateLimitGuard {
    /// Requests let through per minute.
    pub fn quota() -> (per_minute: u32)
        ensures
            per_minute == 10,
    {
        10
    }
}

impl StrictRateLimitGuard {
    /// Requests let through per minute.
    pub fn quota() -> (per_minute: u32)
        ensures
            per_minute == 2,
    {
        2
    }
}

} // verus!
