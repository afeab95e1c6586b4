//! Login: validate the fields, check the credentials, then either issue
//! a token at once or open a second-factor challenge whose code goes out
//! through the delivery channel, never to the client.

use vstd::prelude::*;
use crate::app_state::AppState;
use crate::decimal::all_dec_digits;
use crate::domain::data_stores::{
    is_uuid, BannedTokenStore, ChallengeModel, LoginAttemptId, TwoFACode, TwoFACodeStore,
    UserStore, UserStoreError,
};
use crate::domain::email::{spec_valid_email, Email};
use crate::domain::error::AuthAPIError;
use crate::domain::password::{spec_valid_password, Password};
use crate::domain::user::UserModel;
use crate::token::{spec_token, TokenService, TOKEN_TTL_SECONDS};

verus! {

pub struct LoginRequest {
    pub email: String,
    pub password: String,
}

/// What a successful login answers: a bearer token at once, or a
/// challenge reference when a second factor is required. The challenge
/// code itself is never part of the answer.
#[derive(Debug)]
pub enum LoginResponse {
    TwoFactorAuth { message: String, login_attempt_id: String },
    RegularAuth { token: String, message: String },
}

/// An instruction to the out-of-band delivery channel: send this code to
/// this address. Produced alongside a two-factor answer; the boundary
/// layer performs the delivery.
#[derive(Debug)]
pub struct CodeDelivery {
    pub recipient: Email,
    pub code: TwoFACode,
}

/// When the credential check passes: the email is registered with
/// exactly this password.
pub open spec fn login_credentials_ok(
    users: Map<Seq<char>, UserModel>,
    email: Seq<char>,
    password: Seq<char>,
) -> bool {
    users.dom().contains(email) && users[email].password == password
}

/// The second-factor branch: draw a fresh attempt id and code, record
/// them (replacing any pending challenge for this email), and hand the
/// code to the delivery channel.
fn handle_2fa<T: TwoFACodeStore>(store: &mut T, email: &Email) -> (r: Result<
    (LoginResponse, CodeDelivery),
    AuthAPIError,
>)
    ensures
        match r {
            Ok((resp, delivery)) => match resp {
                LoginResponse::TwoFactorAuth { message, login_attempt_id } => message@
                    == "2FA required"@ && is_uuid(login_attempt_id@) && delivery.recipient@
                    == email@ && delivery.code@.len() == 6 && all_dec_digits(delivery.code@)
                    && final(store).codes() == old(store).codes().insert(
                    email@,
                    ChallengeModel { id: login_attempt_id@, code: delivery.code@ },
                ),
                _ => false,
            },
            Err(_) => false,
        },
{
    let login_attempt_id = LoginAttemptId::default();
    let two_fa_code = TwoFACode::default();
    match store.add_code(email.clone(), login_attempt_id.clone(), two_fa_code.clone()) {
        Ok(()) => {},
        Err(_) => {
            return Err(AuthAPIError::UnexpectedError);
        },
    }
    let response = LoginResponse::TwoFactorAuth {
        message: String::from_str("2FA required"),
        login_attempt_id: login_attempt_id.as_ref().to_owned(),
    };
    let delivery = CodeDelivery { recipient: email.clone(), code: two_fa_code };
    Ok((response, delivery))
}

/// The direct branch: issue a token bound to the email.
fn handle_no_2fa(token_service: &TokenService, email: &Email, now: u64) -> (r: LoginResponse)
    requires
        now <= u64::MAX - TOKEN_TTL_SECONDS,
    ensures
        match r {
            LoginResponse::RegularAuth { token, message } => token@ == spec_token(
                token_service.secret,
                email@,
                (now + TOKEN_TTL_SECONDS) as u64,
            ) && message@ == "Logged in successfully"@,
            _ => false,
        },
{
    let token = token_service.issue(email, now);
    LoginResponse::RegularAuth { token, message: String::from_str("Logged in successfully") }
}

/// Checks the fields and the credentials, then branches on the user's
/// second-factor flag: without it, the answer carries a fresh token;
/// with it, a fresh challenge is recorded and its code goes only to the
/// delivery channel, the client receiving the attempt id. Failures leave
/// every store unchanged; an unknown email and a wrong password answer
/// alike.
pub fn login<U: UserStore, B: BannedTokenStore, T: TwoFACodeStore>(
    state: &mut AppState<U, B, T>,
    request: &LoginRequest,
    now: u64,
) -> (r: Result<(LoginResponse, Option<CodeDelivery>), AuthAPIError>)
    requires
        now <= u64::MAX - TOKEN_TTL_SECONDS,
    ensures
        final(state).user_store.users() == old(state).user_store.users(),
        final(state).banned_token_store.banned() == old(state).banned_token_store.banned(),
        final(state).token_service == old(state).token_service,
        match r {
            Ok((resp, delivery)) => {
                &&& login_credentials_ok(
                    old(state).user_store.users(),
                    request.email@,
                    request.password@,
                )
                &&& match resp {
                    LoginResponse::RegularAuth { token, message } => {
                        &&& !old(state).user_store.users()[request.email@].requires_2fa
                        &&& token@ == spec_token(
                            old(state).token_service.secret,
                            request.email@,
                            (now + TOKEN_TTL_SECONDS) as u64,
                        )
                        &&& message@ == "Logged in successfully"@
                        &&& delivery is None
                        &&& final(state).two_fa_code_store.codes() == old(
                            state,
                        ).two_fa_code_store.codes()
                    },
                    LoginResponse::TwoFactorAuth { message, login_attempt_id } => {
                        &&& old(state).user_store.users()[request.email@].requires_2fa
                        &&& message@ == "2FA required"@
                        &&& is_uuid(login_attempt_id@)
                        &&& match delivery {
                            Some(d) => {
                                &&& d.recipient@ == request.email@
                                &&& d.code@.len() == 6
                                &&& all_dec_digits(d.code@)
                                &&& final(state).two_fa_code_store.codes() == old(
                                    state,
                                ).two_fa_code_store.codes().insert(
                                    request.email@,
                                    ChallengeModel { id: login_attempt_id@, code: d.code@ },
                                )
                            },
                            None => false,
                        }
                    },
                }
            },
            Err(e) => {
                &&& final(state).two_fa_code_store.codes() == old(
                    state,
                ).two_fa_code_store.codes()
                &&& match e {
                    AuthAPIError::InvalidCredentials => !(spec_valid_email(request.email@)
                        && spec_valid_password(request.password@)),
                    AuthAPIError::IncorrectCredentials => {
                        &&& spec_valid_email(request.email@)
                        &&& spec_valid_password(request.password@)
                        &&& !login_credentials_ok(
                            old(state).user_store.users(),
                            request.email@,
                            request.password@,
                        )
                    },
                    _ => false,
                }
            },
        },
{
    let email = match Email::parse(request.email.as_str()) {
        Ok(mail) => mail,
        Err(_msg) => {
            return Err(AuthAPIError::InvalidCredentials);
        },
    };
    let password = match Password::parse(request.password.as_str()) {
        Ok(pass) => pass,
        Err(_msg) => {
            return Err(AuthAPIError::InvalidCredentials);
        },
    };
    match state.user_store.validate_user(&email, &password) {
        Ok(()) => {},
        Err(UserStoreError::InvalidCredentials) | Err(UserStoreError::UserNotFound) => {
            return Err(AuthAPIError::IncorrectCredentials);
        },
        Err(_) => {
            return Err(AuthAPIError::UnexpectedError);
        },
    }
    let user = match state.user_store.get_user(&email) {
        Ok(u) => u,
        Err(_) => {
            return Err(AuthAPIError::IncorrectCredentials);
        },
    };
    if user.requires_2fa {
        match handle_2fa(&mut state.two_fa_code_store, &email) {
            Ok((resp, delivery)) => Ok((resp, Some(delivery))),
            Err(e) => Err(e),
        }
    } else {
        Ok((handle_no_2fa(&state.token_service, &email, now), None))
    }
}

} // verus!
