//! Core of a credential-authentication service: validated value objects
//! (email, password, challenge id, one-time code), in-memory credential,
//! revocation and challenge stores, a token service that issues and checks
//! bearer tokens, and the operations that compose them (signup, login,
//! two-factor verification, logout, token verification).

use vstd::prelude::*;

pub mod app_state;
pub mod decimal;
pub mod domain;
pub mod protected;
pub mod routes;
pub mod services;
pub mod table;
pub mod text;
pub mod token;

verus! {

/// Body shape of every error reply: `{"error": "<message>"}`.
pub struct ErrorResponse {
    pub error: String,
}

} // verus!
