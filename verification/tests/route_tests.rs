use auth_service::app_state::AppState;
use auth_service::domain::data_stores::TwoFACodeStore;
use auth_service::domain::email::Email;
use auth_service::domain::error::AuthAPIError;
use auth_service::protected::protected_route_decision;
use auth_service::routes::login::{login, LoginRequest, LoginResponse};
use auth_service::routes::logout::logout;
use auth_service::routes::signup::{signup, SignupRequest, SignupResponse};
use auth_service::routes::verify_2fa::{verify_2fa, Verify2FARequest};
use auth_service::routes::verify_token::{verify_token, VerifyTokenRequest};
use auth_service::services::hashmap_two_fa_code_store::HashmapTwoFACodeStore;
use auth_service::services::hashmap_user_store::HashmapUserStore;
use auth_service::services::hashset_banned_token_store::HashsetBannedTokenStore;
use auth_service::token::TokenService;

type TestState = AppState<HashmapUserStore, HashsetBannedTokenStore, HashmapTwoFACodeStore>;

const NOW: u64 = 1_700_000_000;

fn new_state() -> TestState {
    AppState::new(
        HashmapUserStore::default(),
        HashsetBannedTokenStore::new(),
        HashmapTwoFACodeStore::default(),
        TokenService::new(42),
    )
}

fn signup_req(email: &str, password: &str, requires_2fa: bool) -> SignupRequest {
    SignupRequest {
        email: email.to_string(),
        password: password.to_string(),
        requires_2fa,
    }
}

fn login_req(email: &str, password: &str) -> LoginRequest {
    LoginRequest { email: email.to_string(), password: password.to_string() }
}

#[test]
fn should_return_201_if_valid_input() {
    let mut state = new_state();
    let response = signup(&mut state, &signup_req("a@b.com", "password123", false))
        .expect("Expected signup to succeed");
    assert_eq!(response, SignupResponse { message: "User created successfully!".to_string() });
}

#[test]
fn signup_should_return_400_if_invalid_input() {
    let mut state = new_state();
    for (email, password) in
        [("wrongemail.com", "password123"), ("user@domain", "short"), ("", "password123")]
    {
        let result = signup(&mut state, &signup_req(email, password, false));
        let err = result.expect_err("Expected signup to be refused");
        let (status, body) = err.response_parts();
        assert_eq!(status, 400);
        assert_eq!(body.error, "Invalid credentials");
    }
}

#[test]
fn should_return_409_if_email_already_exists() {
    let mut state = new_state();
    signup(&mut state, &signup_req("a@b.com", "password123", false)).expect("first signup");
    let err = signup(&mut state, &signup_req("a@b.com", "password123", false))
        .expect_err("second signup must be refused");
    assert_eq!(err, AuthAPIError::UserAlreadyExists);
    let (status, body) = err.response_parts();
    assert_eq!(status, 409);
    assert_eq!(body.error, "User already exists");
}

#[test]
fn login_should_return_400_if_invalid_input() {
    let mut state = new_state();
    let err = login(&mut state, &login_req("invalidemail.com", "password123"), NOW)
        .expect_err("Expected 400 Bad Request for invalid input");
    assert_eq!(err.response_parts().0, 400);
    let err2 = login(&mut state, &login_req("a@b.com", "short"), NOW)
        .expect_err("Expected 400 Bad Request for short password");
    assert_eq!(err2.response_parts().0, 400);
}

#[test]
fn should_return_401_if_incorrect_credentials() {
    let mut state = new_state();
    signup(&mut state, &signup_req("correct_user@example.com", "secret123", false))
        .expect("signup");
    let err = login(&mut state, &login_req("correct_user@example.com", "wrongpassword"), NOW)
        .expect_err("Expected 401 Unauthorized for incorrect credentials.");
    assert_eq!(err, AuthAPIError::IncorrectCredentials);
    assert_eq!(err.response_parts().0, 401);
    let err2 = login(&mut state, &login_req("unknown@example.com", "secret123"), NOW)
        .expect_err("Expected 401 for an unknown email");
    assert_eq!(err2, AuthAPIError::IncorrectCredentials);
}

#[test]
fn should_return_200_if_valid_credentials_and_2fa_disabled() {
    let mut state = new_state();
    signup(&mut state, &signup_req("a@b.com", "password123", false)).expect("signup");
    let (response, delivery) =
        login(&mut state, &login_req("a@b.com", "password123"), NOW).expect("login");
    assert!(delivery.is_none());
    match response {
        LoginResponse::RegularAuth { token, message } => {
            assert!(!token.is_empty());
            assert_eq!(message, "Logged in successfully");
        },
        LoginResponse::TwoFactorAuth { .. } => panic!("No auth cookie found"),
    }
}

#[test]
fn should_return_206_if_valid_credentials_and_2fa_enabled() {
    let mut state = new_state();
    signup(&mut state, &signup_req("a@b.com", "password123", true)).expect("signup");
    let (response, delivery) =
        login(&mut state, &login_req("a@b.com", "password123"), NOW).expect("login");
    let delivery = delivery.expect("a challenge code must go to the delivery channel");
    match response {
        LoginResponse::TwoFactorAuth { message, login_attempt_id } => {
            assert_eq!(message, "2FA required");
            assert!(!login_attempt_id.is_empty());
            let email = Email::parse("a@b.com").unwrap();
            let (stored_id, stored_code) =
                state.two_fa_code_store.get_code(&email).expect("challenge must be stored");
            assert_eq!(stored_id.as_ref(), login_attempt_id);
            assert_eq!(stored_code.as_ref(), delivery.code.as_ref());
            assert!(!stored_code.as_ref().is_empty());
        },
        LoginResponse::RegularAuth { .. } => panic!("2FA login must not return a token"),
    }
}

fn login_token(state: &mut TestState, email: &str, password: &str) -> String {
    match login(state, &login_req(email, password), NOW).expect("login") {
        (LoginResponse::RegularAuth { token, .. }, _) => token,
        _ => panic!("expected a direct login"),
    }
}

#[test]
fn should_return_400_if_jwt_cookie_missing() {
    let mut state = new_state();
    let err = logout(&mut state, None, NOW).expect_err("Should return 400 if JWT cookie is missing");
    assert_eq!(err, AuthAPIError::MissingToken);
    assert_eq!(err.response_parts().0, 400);
}

#[test]
fn logout_should_return_401_if_invalid_token() {
    let mut state = new_state();
    let err = logout(&mut state, Some("invalid"), NOW)
        .expect_err("Should return 401 if token is invalid");
    assert_eq!(err, AuthAPIError::InvalidToken);
    assert_eq!(err.response_parts().0, 401);
}

#[test]
fn should_return_200_if_valid_jwt_cookie() {
    let mut state = new_state();
    signup(&mut state, &signup_req("a@b.com", "password123", false)).expect("signup");
    let token = login_token(&mut state, "a@b.com", "password123");
    assert!(!token.is_empty(), "JWT cookie should be present after login");
    logout(&mut state, Some(token.as_str()), NOW).expect("Should return 200 with valid JWT");
}

#[test]
fn should_return_400_if_logout_called_twice_in_a_row() {
    let mut state = new_state();
    signup(&mut state, &signup_req("a@b.com", "password123", false)).expect("signup");
    let token = login_token(&mut state, "a@b.com", "password123");
    logout(&mut state, Some(token.as_str()), NOW).expect("Should return 200 with valid JWT");
    // The first logout removed the cookie, so the second request carries none.
    let err = logout(&mut state, None, NOW)
        .expect_err("Should return 400 for logout twice in a row");
    assert_eq!(err.response_parts().0, 400);
}

#[test]
fn logout_with_already_banned_token_is_rejected_and_harmless() {
    let mut state = new_state();
    signup(&mut state, &signup_req("a@b.com", "password123", false)).expect("signup");
    let token = login_token(&mut state, "a@b.com", "password123");
    logout(&mut state, Some(token.as_str()), NOW).expect("first logout");
    let err = logout(&mut state, Some(token.as_str()), NOW)
        .expect_err("second logout with the banned token must fail");
    assert_eq!(err, AuthAPIError::InvalidToken);
    // The state is still consistent: another user can log in and out.
    signup(&mut state, &signup_req("c@d.com", "password123", false)).expect("signup");
    let token2 = login_token(&mut state, "c@d.com", "password123");
    logout(&mut state, Some(token2.as_str()), NOW).expect("logout after the failed retry");
}

#[test]
fn should_return_200_valid_token() {
    let mut state = new_state();
    signup(&mut state, &signup_req("a@b.com", "password123", false)).expect("signup");
    let token = login_token(&mut state, "a@b.com", "password123");
    let request = VerifyTokenRequest { token };
    verify_token(&state, Some(&request), NOW).expect("Expected 200 for a valid token");
}

#[test]
fn verify_token_should_return_401_if_invalid_token() {
    let state = new_state();
    let request = VerifyTokenRequest { token: "this_token_is_invalid".to_string() };
    let err = verify_token(&state, Some(&request), NOW).expect_err("invalid token must fail");
    assert_eq!(err, AuthAPIError::InvalidToken);
    assert_eq!(err.response_parts().0, 401);
}

#[test]
fn should_return_401_if_banned_token() {
    let mut state = new_state();
    signup(&mut state, &signup_req("a@b.com", "password123", false)).expect("signup");
    let token = login_token(&mut state, "a@b.com", "password123");
    let request = VerifyTokenRequest { token: token.clone() };
    verify_token(&state, Some(&request), NOW).expect("Expected 200 for a valid token");
    logout(&mut state, Some(token.as_str()), NOW).expect("logout");
    let err = verify_token(&state, Some(&request), NOW)
        .expect_err("Should return 401 for a banned token");
    assert_eq!(err.response_parts().0, 401);
}

#[test]
fn verify_token_should_return_422_if_malformed_input() {
    let state = new_state();
    let err = verify_token(&state, None, NOW)
        .expect_err("Expected 422 (Unprocessable Entity) for malformed input");
    assert_eq!(err, AuthAPIError::MalformedInput);
    assert_eq!(err.response_parts().0, 422);
}

#[test]
fn verify_token_rejects_an_expired_token() {
    let mut state = new_state();
    signup(&mut state, &signup_req("a@b.com", "password123", false)).expect("signup");
    let token = login_token(&mut state, "a@b.com", "password123");
    let request = VerifyTokenRequest { token };
    verify_token(&state, Some(&request), NOW + 600).expect("still valid at the expiry instant");
    let err = verify_token(&state, Some(&request), NOW + 601)
        .expect_err("expired token must fail");
    assert_eq!(err, AuthAPIError::InvalidToken);
}

#[test]
fn verify_token_rejects_a_tampered_token() {
    let mut state = new_state();
    signup(&mut state, &signup_req("a@b.com", "password123", false)).expect("signup");
    let token = login_token(&mut state, "a@b.com", "password123");
    let mut tampered: Vec<char> = token.chars().collect();
    tampered[0] = if tampered[0] == '0' { '1' } else { '0' };
    let request = VerifyTokenRequest { token: tampered.into_iter().collect() };
    let err = verify_token(&state, Some(&request), NOW).expect_err("tampered token must fail");
    assert_eq!(err, AuthAPIError::InvalidToken);
}

fn wrong_code_for(code: &str) -> String {
    if code == "000000" { "111111".to_string() } else { "000000".to_string() }
}

#[test]
fn verify_2fa_full_flow() {
    let mut state = new_state();
    signup(&mut state, &signup_req("a@b.com", "password123", true)).expect("signup");
    let (response, delivery) =
        login(&mut state, &login_req("a@b.com", "password123"), NOW).expect("login");
    let delivery = delivery.expect("delivery");
    let login_attempt_id = match response {
        LoginResponse::TwoFactorAuth { login_attempt_id, .. } => login_attempt_id,
        _ => panic!("expected a two-factor answer"),
    };

    // A wrong 6-digit code is refused and the challenge stays answerable.
    let wrong = Verify2FARequest {
        email: "a@b.com".to_string(),
        login_attempt_id: login_attempt_id.clone(),
        two_fa_code: wrong_code_for(delivery.code.as_ref()),
    };
    let err = verify_2fa(&mut state, &wrong, NOW).expect_err("wrong code must be refused");
    assert_eq!(err, AuthAPIError::IncorrectCredentials);
    assert_eq!(err.response_parts().0, 401);

    // The right pair answers the challenge and yields a working token.
    let right = Verify2FARequest {
        email: "a@b.com".to_string(),
        login_attempt_id,
        two_fa_code: delivery.code.as_ref().to_string(),
    };
    let response = verify_2fa(&mut state, &right, NOW).expect("correct code must verify");
    let token = match response {
        LoginResponse::RegularAuth { token, .. } => token,
        _ => panic!("expected a token after verification"),
    };
    assert!(!token.is_empty());
    let request = VerifyTokenRequest { token };
    verify_token(&state, Some(&request), NOW).expect("token from 2FA must verify");

    // The challenge was consumed: the same pair no longer answers.
    let err = verify_2fa(&mut state, &right, NOW).expect_err("challenge must be single-use");
    assert_eq!(err, AuthAPIError::IncorrectCredentials);
}

#[test]
fn verify_2fa_rejects_malformed_fields() {
    let mut state = new_state();
    let bad = Verify2FARequest {
        email: "no-at-sign".to_string(),
        login_attempt_id: "550e8400-e29b-41d4-a716-446655440000".to_string(),
        two_fa_code: "123456".to_string(),
    };
    assert_eq!(verify_2fa(&mut state, &bad, NOW).unwrap_err(), AuthAPIError::InvalidCredentials);
    let bad_id = Verify2FARequest {
        email: "a@b.com".to_string(),
        login_attempt_id: "not-a-uuid".to_string(),
        two_fa_code: "123456".to_string(),
    };
    assert_eq!(
        verify_2fa(&mut state, &bad_id, NOW).unwrap_err(),
        AuthAPIError::InvalidCredentials
    );
    let bad_code = Verify2FARequest {
        email: "a@b.com".to_string(),
        login_attempt_id: "550e8400-e29b-41d4-a716-446655440000".to_string(),
        two_fa_code: "12x456".to_string(),
    };
    assert_eq!(
        verify_2fa(&mut state, &bad_code, NOW).unwrap_err(),
        AuthAPIError::InvalidCredentials
    );
}

#[test]
fn a_second_login_overwrites_the_pending_challenge() {
    let mut state = new_state();
    signup(&mut state, &signup_req("a@b.com", "password123", true)).expect("signup");
    let (first_response, first_delivery) =
        login(&mut state, &login_req("a@b.com", "password123"), NOW).expect("first login");
    let first_id = match first_response {
        LoginResponse::TwoFactorAuth { login_attempt_id, .. } => login_attempt_id,
        _ => panic!("expected a two-factor answer"),
    };
    let first_code = first_delivery.expect("delivery").code;

    login(&mut state, &login_req("a@b.com", "password123"), NOW).expect("second login");

    // The first challenge no longer answers (fresh ids differ).
    let stale = Verify2FARequest {
        email: "a@b.com".to_string(),
        login_attempt_id: first_id,
        two_fa_code: first_code.as_ref().to_string(),
    };
    let err = verify_2fa(&mut state, &stale, NOW)
        .expect_err("the overwritten challenge must not verify");
    assert_eq!(err, AuthAPIError::IncorrectCredentials);
}

#[test]
fn error_responses_match_the_transport_table() {
    let cases = [
        (AuthAPIError::UserAlreadyExists, 409, "User already exists"),
        (AuthAPIError::InvalidCredentials, 400, "Invalid credentials"),
        (AuthAPIError::UnexpectedError, 500, "Unexpected error"),
        (AuthAPIError::IncorrectCredentials, 401, "Unauthorized error"),
        (AuthAPIError::MissingToken, 400, "Missing Token"),
        (AuthAPIError::InvalidToken, 401, "Invalid Token"),
        (AuthAPIError::MalformedInput, 422, "Malformed input"),
    ];
    for (error, status, message) in cases {
        let (code, body) = error.response_parts();
        assert_eq!(code, status);
        assert_eq!(body.error, message);
    }
}

#[test]
fn protected_route_decision_follows_the_verify_status() {
    let ok = protected_route_decision(200).expect("200 passes through");
    assert_eq!(ok.img_url, "https://i.ibb.co/YP90j68/Light-Live-Bootcamp-Certificate.png");
    assert_eq!(protected_route_decision(401).unwrap_err(), 401);
    assert_eq!(protected_route_decision(400).unwrap_err(), 401);
    assert_eq!(protected_route_decision(500).unwrap_err(), 500);
    assert_eq!(protected_route_decision(404).unwrap_err(), 500);
}
