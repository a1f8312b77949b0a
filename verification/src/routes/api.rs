//! Telling who asks.

use crate::db::user::{find_by_token, User};
use crate::routes::UNAUTHORIZED;
use crate::state::State;
use vstd::prelude::*;

verus! {

/// A request to be told one's role.
pub struct AuthorizeRequest {
    pub token: String,
}

/// The role of the account that asked, as the number it is stored as.
pub struct AuthorizeResponse {
    pub role: u8,
}

/// The account that a token belongs to; the status for nobody known where
/// it belongs to none.
pub fn check_auth(state: &State, token: &str) -> (answer: Result<User, u16>)
    ensures
        match find_by_token(state.user_db@, token@) {
            Some(user) => answer is Ok && answer->Ok_0@ == user,
            None => answer == Err::<User, u16>(UNAUTHORIZED),
        },
{
    match state.user_db.get(token) {
        Some(user) => Ok(user),
        None => Err(UNAUTHORIZED),
    }
}

/// Tells the account behind a token its role.
pub fn authorize(state: &State, data: &AuthorizeRequest) -> (answer: Result<
    AuthorizeResponse,
    u16,
>)
    ensures
        match find_by_token(state.user_db@, data.token@) {
            Some(user) => answer is Ok && answer->Ok_0.role == user.kind,
            None => answer is Err && answer->Err_0 == UNAUTHORIZED,
        },
{
    match check_auth(state, data.token.as_str()) {
        Ok(user) => Ok(AuthorizeResponse { role: user.kind }),
        Err(status) => Err(status),
    }
}

} // verus!
