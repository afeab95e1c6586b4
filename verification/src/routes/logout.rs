//! Logout: verify the presented token, then revoke it. A missing token
//! and an invalid one fail differently; revoking never removes entries.

use vstd::prelude::*;
use crate::app_state::AppState;
use crate::domain::data_stores::{BannedTokenStore, TwoFACodeStore, UserStore};
use crate::domain::error::AuthAPIError;
use crate::token::token_valid;

verus! {

/// Revokes a verified token. Succeeds exactly when a token is presented
/// and is valid (well formed, unexpired, not yet revoked), adding it to
/// the revocation set; every failure leaves all stores unchanged.
pub fn logout<U: UserStore, B: BannedTokenStore, T: TwoFACodeStore>(
    state: &mut AppState<U, B, T>,
    token: Option<&str>,
    now: u64,
) -> (r: Result<(), AuthAPIError>)
    ensures
        final(state).user_store.users() == old(state).user_store.users(),
        final(state).two_fa_code_store.codes() == old(state).two_fa_code_store.codes(),
        final(state).token_service == old(state).token_service,
        match r {
            Ok(()) => match token {
                Some(t) => token_valid(
                    old(state).token_service.secret,
                    old(state).banned_token_store.banned(),
                    t@,
                    now,
                ) && final(state).banned_token_store.banned() == old(
                    state,
                ).banned_token_store.banned().insert(t@),
                None => false,
            },
            Err(e) => final(state).banned_token_store.banned() == old(
                state,
            ).banned_token_store.banned() && match e {
                AuthAPIError::MissingToken => token is None,
                AuthAPIError::InvalidToken => match token {
                    Some(t) => !token_valid(
                        old(state).token_service.secret,
                        old(state).banned_token_store.banned(),
                        t@,
                        now,
                    ),
                    None => false,
                },
                _ => false,
            },
        },
{
    let t = match token {
        Some(t) => t,
        None => {
            return Err(AuthAPIError::MissingToken);
        },
    };
    match state.token_service.verify(t, &state.banned_token_store, now) {
        Ok(_claims) => {},
        Err(_) => {
            return Err(AuthAPIError::InvalidToken);
        },
    }
    state.banned_token_store.store_token(t);
    Ok(())
}

/// Revocation is idempotent and safe: once a token is in the revocation
/// set it is no longer valid, so a second logout with it fails as
/// invalid, and revoking it again would change nothing.
pub proof fn lemma_logout_idempotent(secret: u64, banned: Set<Seq<char>>, t: Seq<char>, now: u64)
    ensures
        !token_valid(secret, banned.insert(t), t, now),
        banned.insert(t).insert(t) == banned.insert(t),
{
    assert(banned.insert(t).insert(t) =~= banned.insert(t));
}

} // verus!
