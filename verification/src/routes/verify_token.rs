//! Token verification for collaborating services: pure delegation to the
//! token service; mutates nothing.

use vstd::prelude::*;
use crate::app_state::AppState;
use crate::domain::data_stores::{BannedTokenStore, TwoFACodeStore, UserStore};
use crate::domain::error::AuthAPIError;
use crate::token::token_valid;

verus! {

pub struct VerifyTokenRequest {
    pub token: String,
}

/// Accepts exactly the requests whose body parsed and whose token is
/// valid right now; a body that did not parse is reported apart from an
/// invalid token.
pub fn verify_token<U: UserStore, B: BannedTokenStore, T: TwoFACodeStore>(
    state: &AppState<U, B, T>,
    request: Option<&VerifyTokenRequest>,
    now: u64,
) -> (r: Result<(), AuthAPIError>)
    ensures
        match r {
            Ok(()) => match request {
                Some(req) => token_valid(
                    state.token_service.secret,
                    state.banned_token_store.banned(),
                    req.token@,
                    now,
                ),
                None => false,
            },
            Err(e) => match e {
                AuthAPIError::MalformedInput => request is None,
                AuthAPIError::InvalidToken => match request {
                    Some(req) => !token_valid(
                        state.token_service.secret,
                        state.banned_token_store.banned(),
                        req.token@,
                        now,
                    ),
                    None => false,
                },
                _ => false,
            },
        },
{
    match request {
        Some(payload) => {
            match state.token_service.verify(payload.token.as_str(), &state.banned_token_store, now) {
                Ok(_claims) => Ok(()),
                Err(_) => Err(AuthAPIError::InvalidToken),
            }
        },
        None => Err(AuthAPIError::MalformedInput),
    }
}

} // verus!
