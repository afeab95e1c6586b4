//! Second-factor verification: look up the pending challenge for the
//! email, compare both the attempt id and the code, and on a full match
//! consume the challenge and issue a token exactly as a direct login
//! would. A mismatch leaves the challenge in place for a retry.

use vstd::prelude::*;
use crate::app_state::AppState;
use crate::decimal::all_dec_digits;
use crate::domain::data_stores::{
    is_uuid, BannedTokenStore, ChallengeModel, LoginAttemptId, TwoFACode, TwoFACodeStore,
    UserStore,
};
use crate::domain::email::{spec_valid_email, Email};
use crate::domain::error::AuthAPIError;
use crate::routes::login::LoginResponse;
use crate::token::{spec_token, TOKEN_TTL_SECONDS};

verus! {

pub struct Verify2FARequest {
    pub email: String,
    pub login_attempt_id: String,
    pub two_fa_code: String,
}

/// When a submitted pair answers the pending challenge: one is pending
/// for the email, and both the attempt id and the code agree with it.
pub open spec fn challenge_matches(
    codes: Map<Seq<char>, ChallengeModel>,
    email: Seq<char>,
    id: Seq<char>,
    code: Seq<char>,
) -> bool {
    codes.dom().contains(email) && codes[email].id == id && codes[email].code == code
}

/// Whether the submitted fields are even well formed: an email, a UUID,
/// six digits.
pub open spec fn challenge_fields_ok(email: Seq<char>, id: Seq<char>, code: Seq<char>) -> bool {
    spec_valid_email(email) && is_uuid(id) && code.len() == 6 && all_dec_digits(code)
}

/// Verifies a submitted second factor. Succeeds exactly when the fields
/// are well formed and answer the pending challenge; then the challenge
/// is consumed and the answer carries a fresh token. A mismatch or a
/// missing challenge answers as unauthorized and leaves every store
/// unchanged, so the challenge stays answerable until replaced.
pub fn verify_2fa<U: UserStore, B: BannedTokenStore, T: TwoFACodeStore>(
    state: &mut AppState<U, B, T>,
    request: &Verify2FARequest,
    now: u64,
) -> (r: Result<LoginResponse, AuthAPIError>)
    requires
        now <= u64::MAX - TOKEN_TTL_SECONDS,
    ensures
        final(state).user_store.users() == old(state).user_store.users(),
        final(state).banned_token_store.banned() == old(state).banned_token_store.banned(),
        final(state).token_service == old(state).token_service,
        match r {
            Ok(resp) => challenge_fields_ok(
                request.email@,
                request.login_attempt_id@,
                request.two_fa_code@,
            ) && challenge_matches(
                old(state).two_fa_code_store.codes(),
                request.email@,
                request.login_attempt_id@,
                request.two_fa_code@,
            ) && final(state).two_fa_code_store.codes() == old(
                state,
            ).two_fa_code_store.codes().remove(request.email@) && match resp {
                LoginResponse::RegularAuth { token, message } => token@ == spec_token(
                    old(state).token_service.secret,
                    request.email@,
                    (now + TOKEN_TTL_SECONDS) as u64,
                ) && message@ == "Logged in successfully"@,
                _ => false,
            },
            Err(e) => final(state).two_fa_code_store.codes() == old(
                state,
            ).two_fa_code_store.codes() && match e {
                AuthAPIError::InvalidCredentials => !challenge_fields_ok(
                    request.email@,
                    request.login_attempt_id@,
                    request.two_fa_code@,
                ),
                AuthAPIError::IncorrectCredentials => challenge_fields_ok(
                    request.email@,
                    request.login_attempt_id@,
                    request.two_fa_code@,
                ) && !challenge_matches(
                    old(state).two_fa_code_store.codes(),
                    request.email@,
                    request.login_attempt_id@,
                    request.two_fa_code@,
                ),
                _ => false,
            },
        },
{
    let email = match Email::parse(request.email.as_str()) {
        Ok(mail) => mail,
        Err(_msg) => {
            return Err(AuthAPIError::InvalidCredentials);
        },
    };
    let submitted_id = match LoginAttemptId::parse(request.login_attempt_id.clone()) {
        Ok(id) => id,
        Err(_msg) => {
            return Err(AuthAPIError::InvalidCredentials);
        },
    };
    let submitted_code = match TwoFACode::parse(request.two_fa_code.clone()) {
        Ok(code) => code,
        Err(_msg) => {
            return Err(AuthAPIError::InvalidCredentials);
        },
    };
    let (stored_id, stored_code) = match state.two_fa_code_store.get_code(&email) {
        Ok(pair) => pair,
        Err(_) => {
            return Err(AuthAPIError::IncorrectCredentials);
        },
    };
    if !(stored_id == submitted_id && stored_code == submitted_code) {
        return Err(AuthAPIError::IncorrectCredentials);
    }
    match state.two_fa_code_store.remove_code(&email) {
        Ok(()) => {},
        Err(_) => {
            return Err(AuthAPIError::UnexpectedError);
        },
    }
    let token = state.token_service.issue(&email, now);
    Ok(LoginResponse::RegularAuth { token, message: String::from_str("Logged in successfully") })
}

/// The life of a pending challenge: the issued id and code answer it; a
/// wrong code does not, and the challenge stays; and once a later login
/// replaces it with a different pair, the first pair no longer answers.
pub proof fn lemma_challenge_lifecycle(
    codes: Map<Seq<char>, ChallengeModel>,
    email: Seq<char>,
    first: ChallengeModel,
    second: ChallengeModel,
    wrong_code: Seq<char>,
)
    requires
        wrong_code != first.code,
        second != first,
    ensures
        challenge_matches(codes.insert(email, first), email, first.id, first.code),
        !challenge_matches(codes.insert(email, first), email, first.id, wrong_code),
        !challenge_matches(
            codes.insert(email, first).insert(email, second),
            email,
            first.id,
            first.code,
        ),
{
}

} // verus!
