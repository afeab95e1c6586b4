use auth_service::domain::data_stores::{LoginAttemptId, TwoFACode};
use auth_service::domain::email::Email;
use auth_service::domain::password::Password;

#[test]
fn valid_email() {
    let email_str = "testexample@test.com";
    let email = Email::parse(email_str).expect("Expected a valid email");
    assert_eq!(email.as_ref(), email_str);
}

#[test]
fn invalid_email() {
    let email_str = "shouldfailemailinvalid.com";
    let result = Email::parse(email_str);
    assert!(result.is_err(), "Expected an error for missing '@'");
}

#[test]
fn invalid_email_empty_string() {
    let email_str = "";
    let result = Email::parse(email_str);
    assert!(result.is_err(), "Expected an error for empty string");
}

#[test]
fn valid_password() {
    let password_str = "senha123456";
    let password = Password::parse(password_str).expect("Expected a valid password");
    assert_eq!(password.as_ref(), password_str);
}

#[test]
fn invalid_password() {
    let password_str = "123456";
    let result = Password::parse(password_str);
    assert!(result.is_err(), "Expected an error for password with len < 8");
}

#[test]
fn invalid_empty_password() {
    let password_str = "";
    let result = Password::parse(password_str);
    assert!(result.is_err(), "Expected an error for empty password");
}

#[test]
fn email_parse_keeps_exact_string() {
    let email_str = "a@b.com";
    let email = Email::parse(email_str).expect("Expected a valid email");
    assert_eq!(email.as_ref(), email_str);
    assert!(Email::parse("@").is_ok());
    assert!(Email::parse("no-at-sign").is_err());
}

#[test]
fn password_error_message_names_the_password() {
    let result = Password::parse("short");
    assert_eq!(
        result.unwrap_err(),
        "`short` is not a valid password: must be at least 8 characters long"
    );
}

#[test]
fn two_fa_code_parse_accepts_six_digits() {
    let code = TwoFACode::parse("123456".to_string()).expect("Expected a valid code");
    assert_eq!(code.as_ref(), "123456");
}

#[test]
fn two_fa_code_parse_rejects_bad_codes() {
    assert!(TwoFACode::parse("12345".to_string()).is_err());
    assert!(TwoFACode::parse("1234567".to_string()).is_err());
    assert!(TwoFACode::parse("12345a".to_string()).is_err());
    assert!(TwoFACode::parse("".to_string()).is_err());
    assert_eq!(
        TwoFACode::parse("abc".to_string()).unwrap_err(),
        "Invalid 2FA code: must be exactly 6 digits."
    );
}

#[test]
fn two_fa_code_default_is_six_digits() {
    let code = TwoFACode::default();
    let text = code.as_ref();
    assert_eq!(text.len(), 6);
    assert!(text.chars().all(|c| c.is_ascii_digit()));
}

#[test]
fn login_attempt_id_parse_accepts_uuid_text() {
    let id_str = "550e8400-e29b-41d4-a716-446655440000";
    let id = LoginAttemptId::parse(id_str.to_string()).expect("Expected a valid attempt id");
    assert_eq!(id.as_ref(), id_str);
}

#[test]
fn login_attempt_id_parse_rejects_other_text() {
    let result = LoginAttemptId::parse("not-a-uuid".to_string());
    assert_eq!(result.unwrap_err(), "Invalid UUID");
    assert!(LoginAttemptId::parse("".to_string()).is_err());
}

#[test]
fn login_attempt_id_default_round_trips() {
    let id = LoginAttemptId::default();
    assert_eq!(id.as_ref().len(), 36);
    let reparsed = LoginAttemptId::parse(id.as_ref().to_string()).expect("fresh id must parse");
    assert_eq!(reparsed, id);
}
