use auth_service::domain::data_stores::{
    BannedTokenStore, LoginAttemptId, TwoFACode, TwoFACodeStore, TwoFACodeStoreError, UserStore,
    UserStoreError,
};
use auth_service::domain::email::Email;
use auth_service::domain::password::Password;
use auth_service::domain::user::User;
use auth_service::services::hashmap_two_fa_code_store::HashmapTwoFACodeStore;
use auth_service::services::hashmap_user_store::HashmapUserStore;
use auth_service::services::hashset_banned_token_store::HashsetBannedTokenStore;

fn make_user(email_str: &str, password_str: &str) -> User {
    let email = Email::parse(email_str).unwrap();
    let password = Password::parse(password_str).unwrap();
    User { email, password, requires_2fa: false }
}

#[test]
fn test_store_and_check_token() {
    let mut store = HashsetBannedTokenStore::new();
    let token = "test_token_123";

    assert_eq!(store.is_banned(token), false);

    store.store_token(token);

    assert_eq!(store.is_banned(token), true);
}

#[test]
fn test_add_and_get() {
    let mut store = HashmapTwoFACodeStore::default();

    let email = Email::parse("test@example.com").expect("Invalid email");
    let login_attempt_id = LoginAttemptId::default();
    let two_fa_code = TwoFACode::default();

    store
        .add_code(email.clone(), login_attempt_id.clone(), two_fa_code.clone())
        .expect("Failed to add 2FA code");

    let (la_id, code) = store.get_code(&email).expect("Code not found");
    assert_eq!(la_id, login_attempt_id);
    assert_eq!(code, two_fa_code);
}

#[test]
fn test_remove_code() {
    let mut store = HashmapTwoFACodeStore::default();

    let email = Email::parse("remove@example.com").expect("Invalid email");
    let login_attempt_id = LoginAttemptId::default();
    let two_fa_code = TwoFACode::default();

    store
        .add_code(email.clone(), login_attempt_id, two_fa_code)
        .expect("Failed to add 2FA code");

    store.remove_code(&email).expect("Failed to remove 2FA code");

    let result = store.get_code(&email);
    assert!(matches!(result, Err(TwoFACodeStoreError::LoginAttemptIdNotFound)));
}

#[test]
fn test_add_user() {
    let mut store = HashmapUserStore::default();

    let user = make_user("test@example.com", "secretpassword");

    let result = store.add_user(user.clone());

    assert!(result.is_ok(), "We expected success to add a new user");

    let result2 = store.add_user(user);
    assert_eq!(
        result2,
        Err(UserStoreError::UserAlreadyExists),
        "we expected UserAlreadyExistis when adding the same user twice"
    );
}

#[test]
fn test_get_user() {
    let mut store = HashmapUserStore::default();

    let user = make_user("test@example.com", "secretpassword");
    store.add_user(user.clone()).expect("Failed to add the user");

    let email_ok = Email::parse("test@example.com").unwrap();
    let user_existed = store.get_user(&email_ok);

    assert!(user_existed.is_ok(), "We expected success to get the user");

    assert_eq!(
        user_existed.as_ref().unwrap().email.as_ref(),
        "test@example.com",
        "The email of the user is not correct"
    );

    let email_none = Email::parse("emailnotexistedtodayandnever@nevercreated.com.br").unwrap();
    let user_non_existed = store.get_user(&email_none);
    assert!(
        matches!(user_non_existed, Err(UserStoreError::UserNotFound)),
        "we expected this email emailnotexistedtodayandnever@nevercreated.com.br did not exist"
    );
}

#[test]
fn test_validate_user() {
    let mut store = HashmapUserStore::default();

    let user = make_user("test@example.com", "secretpassword");
    store.add_user(user.clone()).expect("Failed to add the user");

    let email_ok = Email::parse("test@example.com").unwrap();
    let password_ok = Password::parse("secretpassword").unwrap();
    let validation = store.validate_user(&email_ok, &password_ok);
    assert!(validation.is_ok(), "Validation was not approved");

    let wrong_password = Password::parse("wrongpassword").unwrap();
    let validation2 = store.validate_user(&email_ok, &wrong_password);
    assert_eq!(
        validation2,
        Err(UserStoreError::InvalidCredentials),
        "Expected wrong password"
    );

    let email_none = Email::parse("emailnotvalid@example.com").unwrap();
    let pass_any = Password::parse("anypassword").unwrap();
    let validation3 = store.validate_user(&email_none, &pass_any);
    assert_eq!(
        validation3,
        Err(UserStoreError::UserNotFound),
        "Expected user not found"
    );
}

#[test]
fn overwriting_a_challenge_invalidates_the_first() {
    let mut store = HashmapTwoFACodeStore::default();
    let email = Email::parse("twice@example.com").expect("Invalid email");

    let first_id = LoginAttemptId::default();
    let first_code = TwoFACode::default();
    store
        .add_code(email.clone(), first_id.clone(), first_code)
        .expect("Failed to add 2FA code");

    let second_id = LoginAttemptId::default();
    let second_code = TwoFACode::default();
    store
        .add_code(email.clone(), second_id.clone(), second_code)
        .expect("Failed to add 2FA code");

    let (stored_id, _stored_code) = store.get_code(&email).expect("Code not found");
    assert_eq!(stored_id, second_id);
    assert_ne!(stored_id, first_id);
}
