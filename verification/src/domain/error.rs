//! The orchestrator's outcome taxonomy and its mapping to transport
//! status codes and client-visible messages.

use vstd::prelude::*;
use crate::ErrorResponse;

verus! {

/// Every failure an operation can report. Store-level detail is
/// deliberately coalesced (an unknown email and a wrong password both
/// surface as `IncorrectCredentials`) so that responses never reveal
/// whether an account exists.
#[derive(Debug, Clone, Copy, PartialEq, Eq, Structural)]
pub enum AuthAPIError {
    UserAlreadyExists,
    InvalidCredentials,
    UnexpectedError,
    IncorrectCredentials,
    MissingToken,
    InvalidToken,
    MalformedInput,
}

impl AuthAPIError {
    /// The HTTP status the boundary layer sends for this error.
    pub open spec fn spec_status(&self) -> u16 {
        match self {
            AuthAPIError::UserAlreadyExists => 409,
            AuthAPIError::InvalidCredentials => 400,
            AuthAPIError::UnexpectedError => 500,
            AuthAPIError::IncorrectCredentials => 401,
            AuthAPIError::MissingToken => 400,
            AuthAPIError::InvalidToken => 401,
            AuthAPIError::MalformedInput => 422,
        }
    }

    /// The client-visible message for this error.
    pub open spec fn spec_message(&self) -> Seq<char> {
        match self {
            AuthAPIError::UserAlreadyExists => "User already exists"@,
            AuthAPIError::InvalidCredentials => "Invalid credentials"@,
            AuthAPIError::UnexpectedError => "Unexpected error"@,
            AuthAPIError::IncorrectCredentials => "Unauthorized error"@,
            AuthAPIError::MissingToken => "Missing Token"@,
            AuthAPIError::InvalidToken => "Invalid Token"@,
            AuthAPIError::MalformedInput => "Malformed input"@,
        }
    }

    pub fn status_code(&self) -> (r: u16)
        ensures
            r == self.spec_status(),
    {
        match self {
            AuthAPIError::UserAlreadyExists => 409,
            AuthAPIError::InvalidCredentials => 400,
            AuthAPIError::UnexpectedError => 500,
            AuthAPIError::IncorrectCredentials => 401,
            AuthAPIError::MissingToken => 400,
            AuthAPIError::InvalidToken => 401,
            AuthAPIError::MalformedInput => 422,
        }
    }

    pub fn error_message(&self) -> (r: String)
        ensures
            r@ == self.spec_message(),
    {
        match self {
            AuthAPIError::UserAlreadyExists => String::from_str("User already exists"),
            AuthAPIError::InvalidCredentials => String::from_str("Invalid credentials"),
            AuthAPIError::UnexpectedError => String::from_str("Unexpected error"),
            AuthAPIError::IncorrectCredentials => String::from_str("Unauthorized error"),
            AuthAPIError::MissingToken => String::from_str("Missing Token"),
            AuthAPIError::InvalidToken => String::from_str("Invalid Token"),
            AuthAPIError::MalformedInput => String::from_str("Malformed input"),
        }
    }

    /// The full reply the boundary layer sends: status plus error body.
    pub fn response_parts(&self) -> (r: (u16, ErrorResponse))
        ensures
            r.0 == self.spec_status(),
            r.1.error@ == self.spec_message(),
    {
        (self.status_code(), ErrorResponse { error: self.error_message() })
    }
}

} // verus!
