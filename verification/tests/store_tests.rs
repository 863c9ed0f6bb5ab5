use auth_service::email::Email;
use auth_service::errors::TwoFACodeStoreError;
use auth_service::errors::UserStoreError;
use auth_service::hashmap_two_fa_code_store::HashMapTwoFACodeStore;
use auth_service::hashmap_user_store::HashMapUserStore;
use auth_service::hashset_banned_token_store::HashSetBannedTokenStore;
use auth_service::password::Password;
use auth_service::stores::BannedTokenStore;
use auth_service::stores::TwoFACodeStore;
use auth_service::stores::UserStore;
use auth_service::stores::get_key;
use auth_service::two_fa::LoginAttemptId;
use auth_service::two_fa::TwoFACode;
use auth_service::user::User;

#[test]
fn add_user() {
    let mut user_store = HashMapUserStore::default();
    let user = User::new(
        Email::parse("test@test.com".to_owned()).unwrap(),
        Password::parse("password".to_owned()).unwrap(),
        false,
    );

    // Test adding a new user
    let result = user_store.add_user(user.clone());
    assert!(result.is_ok());

    // Test adding an existing user
    let result = user_store.add_user(user);
    assert_eq!(result, Err(UserStoreError::UserAlreadyExists));
}

#[test]
fn get_user() {
    let mut user_store = HashMapUserStore::default();
    let email = Email::parse("test@test.com".to_string()).unwrap();
    let user = User::new(email, Password::parse("password".to_owned()).unwrap(), false);
    user_store.add_user(user.clone()).unwrap();

    // Test getting a user that exists
    let result = user_store.get_user(&user.email);
    assert!(result.is_ok());

    // Test getting a user that doesn't exist
    let result = user_store.get_user(&Email::parse("nonexistant@test.com".to_owned()).unwrap());
    assert!(result.is_err());
}

#[test]
fn validate_user() {
    let mut user_store = HashMapUserStore::default();
    let email = Email::parse("test@test.com".to_owned()).unwrap();
    let password = Password::parse("password".to_owned()).unwrap();
    let user = User::new(email.clone(), password.clone(), false);
    user_store.add_user(user.clone()).unwrap();

    // Test validating a user with the correct password
    let result = user_store.validate_user(&email, &password);
    assert!(result.is_ok());

    // Test validating a user with the wrong password
    let wrong_password = Password::parse("wrong_password".to_owned()).unwrap();
    let result = user_store.validate_user(&email, &wrong_password);
    assert_eq!(result, Err(UserStoreError::InvalidCredentials));

    // Test validating a user that doesn't exist
    let result = user_store
        .validate_user(&Email::parse("nonexistant@test.com".to_owned()).unwrap(), &password);
    assert_eq!(result, Err(UserStoreError::UserNotFound));
}

#[test]
fn add_banned_token() {
    let mut banned_token_store = HashSetBannedTokenStore::default();

    // Test adding a new banned token
    let token = "token".to_owned();

    let result = banned_token_store.add_banned_token(token.clone());

    assert!(result.is_ok());
    assert!(banned_token_store.is_banned(&token).unwrap());
}

#[test]
fn is_banned() {
    let mut banned_token_store = HashSetBannedTokenStore::default();
    let token = "token".to_owned();
    banned_token_store.add_banned_token(token.clone()).unwrap();

    let result = banned_token_store.is_banned(&token);

    assert!(result.unwrap());
}

#[test]
fn is_banned_reports_unknown_tokens_as_not_banned() {
    let banned_token_store = HashSetBannedTokenStore::default();

    let result = banned_token_store.is_banned("token");

    assert!(!result.unwrap());
}

#[test]
fn test_add_code() {
    let mut store = HashMapTwoFACodeStore::default();
    let email = Email::parse("test@test.com".to_owned()).unwrap();
    let login_attempt_id = LoginAttemptId::default();
    let code = TwoFACode::default();

    let result = store.add_code(email.clone(), login_attempt_id.clone(), code);

    assert_eq!(result, Ok(()));
    assert_eq!(store.get_code(&email).unwrap(), (login_attempt_id, code));
}

#[test]
fn test_remove_code() {
    let mut store = HashMapTwoFACodeStore::default();
    let email = Email::parse("test@example.com".to_owned()).unwrap();
    let login_attempt_id = LoginAttemptId::default();
    let code = TwoFACode::default();

    store
        .add_code(email.clone(), login_attempt_id.clone(), code)
        .unwrap();

    let result = store.remove_code(&email);

    assert!(result.is_ok());
    assert_eq!(
        store.get_code(&email),
        Err(TwoFACodeStoreError::LoginAttemptIdNotFound)
    );
}

#[test]
fn test_get_code() {
    let mut store = HashMapTwoFACodeStore::default();
    let email = Email::parse("test@example.com".to_owned()).unwrap();
    let login_attempt_id = LoginAttemptId::default();
    let code = TwoFACode::default();
    store
        .add_code(email.clone(), login_attempt_id.clone(), code)
        .unwrap();

    let result = store.get_code(&email);

    assert!(result.is_ok());
    assert_eq!(result.unwrap(), (login_attempt_id, code));
}

#[test]
fn test_get_code_not_found() {
    let store = HashMapTwoFACodeStore::default();
    let email = Email::parse("test@example.com".to_owned()).unwrap();

    let result = store.get_code(&email);

    assert!(result.is_err());
    assert_eq!(
        result.unwrap_err(),
        TwoFACodeStoreError::LoginAttemptIdNotFound
    );
}

#[test]
fn a_second_challenge_replaces_the_first() {
    let mut store = HashMapTwoFACodeStore::default();
    let email = Email::parse("test@example.com".to_owned()).unwrap();
    let first_id = LoginAttemptId::default();
    let first_code = TwoFACode::default();
    let second_id = LoginAttemptId::default();
    let second_code = TwoFACode::default();

    store.add_code(email.clone(), first_id, first_code).unwrap();
    store
        .add_code(email.clone(), second_id.clone(), second_code)
        .unwrap();

    assert_eq!(store.get_code(&email).unwrap(), (second_id, second_code));
}

#[test]
fn get_key_prefixes_the_token() {
    assert_eq!(get_key("token"), "banned_token:token".to_owned());
}
