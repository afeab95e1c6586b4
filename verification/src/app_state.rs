//! The long-lived state every operation works on: the three stores and
//! the token service, owned explicitly and injected at construction.

use vstd::prelude::*;
use crate::domain::data_stores::{BannedTokenStore, TwoFACodeStore, UserStore};
use crate::token::TokenService;

verus! {

/// The orchestrator's state: one credential store, one revocation store,
/// one pending-challenge store, and the token service. Polymorphic over
/// the store interfaces so any conforming store can back it.
pub struct AppState<U: UserStore, B: BannedTokenStore, T: TwoFACodeStore> {
    pub user_store: U,
    pub banned_token_store: B,
    pub two_fa_code_store: T,
    pub token_service: TokenService,
}

impl<U: UserStore, B: BannedTokenStore, T: TwoFACodeStore> AppState<U, B, T> {
    pub fn new(user_store: U, banned_token_store: B, two_fa_code_store: T, token_service: TokenService) -> (r:
        AppState<U, B, T>)
        ensures
            r.user_store == user_store,
            r.banned_token_store == banned_token_store,
            r.two_fa_code_store == two_fa_code_store,
            r.token_service == token_service,
    {
        AppState { user_store, banned_token_store, two_fa_code_store, token_service }
    }
}

} // verus!
