//! Signup: validate the fields, then refuse an existing email, then
//! insert. Validation comes first, so malformed input never reaches the
//! store.

use vstd::prelude::*;
use crate::app_state::AppState;
use crate::domain::data_stores::{BannedTokenStore, TwoFACodeStore, UserStore, UserStoreError};
use crate::domain::email::{spec_valid_email, Email};
use crate::domain::error::AuthAPIError;
use crate::domain::password::{spec_valid_password, Password};
use crate::domain::user::{User, UserModel};

verus! {

pub struct SignupRequest {
    pub email: String,
    pub password: String,
    pub requires_2fa: bool,
}

#[derive(Debug, PartialEq, Eq)]
pub struct SignupResponse {
    pub message: String,
}

/// When signup succeeds: both fields are well formed and the email is
/// not yet registered.
pub open spec fn signup_accepted(
    users: Map<Seq<char>, UserModel>,
    email: Seq<char>,
    password: Seq<char>,
) -> bool {
    spec_valid_email(email) && spec_valid_password(password) && !users.dom().contains(email)
}

/// Registers a new user. Succeeds exactly when both fields are well
/// formed and the email is free, inserting the new record; any failure
/// leaves every store unchanged.
pub fn signup<U: UserStore, B: BannedTokenStore, T: TwoFACodeStore>(
    state: &mut AppState<U, B, T>,
    request: &SignupRequest,
) -> (r: Result<SignupResponse, AuthAPIError>)
    ensures
        final(state).banned_token_store.banned() == old(state).banned_token_store.banned(),
        final(state).two_fa_code_store.codes() == old(state).two_fa_code_store.codes(),
        final(state).token_service == old(state).token_service,
        match r {
            Ok(resp) => signup_accepted(
                old(state).user_store.users(),
                request.email@,
                request.password@,
            ) && resp.message@ == "User created successfully!"@ && final(state).user_store.users()
                == old(state).user_store.users().insert(
                request.email@,
                UserModel {
                    email: request.email@,
                    password: request.password@,
                    requires_2fa: request.requires_2fa,
                },
            ),
            Err(e) => final(state).user_store.users() == old(state).user_store.users() && match e {
                AuthAPIError::InvalidCredentials => !(spec_valid_email(request.email@)
                    && spec_valid_password(request.password@)),
                AuthAPIError::UserAlreadyExists => spec_valid_email(request.email@)
                    && spec_valid_password(request.password@) && old(
                    state,
                ).user_store.users().dom().contains(request.email@),
                _ => false,
            },
        },
{
    let email = match Email::parse(request.email.as_str()) {
        Ok(mail) => mail,
        Err(_msg) => {
            return Err(AuthAPIError::InvalidCredentials);
        },
    };
    let password = match Password::parse(request.password.as_str()) {
        Ok(pass) => pass,
        Err(_msg) => {
            return Err(AuthAPIError::InvalidCredentials);
        },
    };
    let user = User::new(email, password, request.requires_2fa);
    match state.user_store.get_user(&user.email) {
        Ok(_) => {
            return Err(AuthAPIError::UserAlreadyExists);
        },
        Err(UserStoreError::UserNotFound) => {},
        Err(_) => {
            return Err(AuthAPIError::UnexpectedError);
        },
    }
    match state.user_store.add_user(user) {
        Ok(_) => Ok(SignupResponse { message: String::from_str("User created successfully!") }),
        Err(_) => Err(AuthAPIError::UnexpectedError),
    }
}

/// For any well-formed email and password not yet registered: signup is
/// accepted; immediately afterwards the same credentials pass the login
/// check; and a second signup of the same email is refused as already
/// registered.
pub proof fn lemma_signup_then_login(
    users: Map<Seq<char>, UserModel>,
    email: Seq<char>,
    password: Seq<char>,
    requires_2fa: bool,
)
    requires
        spec_valid_email(email),
        spec_valid_password(password),
        !users.dom().contains(email),
    ensures
        signup_accepted(users, email, password),
        crate::routes::login::login_credentials_ok(
            users.insert(email, UserModel { email, password, requires_2fa }),
            email,
            password,
        ),
        !signup_accepted(
            users.insert(email, UserModel { email, password, requires_2fa }),
            email,
            password,
        ),
{
}

} // verus!
