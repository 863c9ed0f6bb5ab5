use auth_service::email::Email;
use auth_service::password::Password;

#[test]
fn empty_string_is_rejected() {
    let email = Email::parse("".to_string());
    assert!(email.is_err());
}

#[test]
fn mail_missing_at_symbol_is_rejected() {
    let email = Email::parse("test.com".to_string());
    assert!(email.is_err());
}

#[test]
fn mail_missing_domain_is_rejected() {
    let email = Email::parse("test@".to_string());
    assert!(email.is_err());
}

#[test]
fn mail_missing_address_is_rejected() {
    let email = Email::parse("@test.com".to_string());
    assert!(email.is_err());
}

#[test]
fn mail_with_at_symbol_and_domain_is_accepted() {
    let email = Email::parse("test@test.com".to_string());
    assert!(email.is_ok());
}

#[test]
fn password_shorter_than_8_characters_is_rejected() {
    let password = Password::parse("1234567".to_string());
    assert_eq!(
        password,
        Err("Password must be at least 8 characters long".to_string())
    );
}

#[test]
fn password_8_characters_long_is_accepted() {
    let password = Password::parse("12345678".to_string());
    assert!(password.is_ok());
}

#[test]
fn email_error_carries_the_input() {
    let email = Email::parse("not-an-address".to_string());
    assert_eq!(email, Err("not-an-address is not a valid email".to_string()));
}

#[test]
fn email_with_two_at_symbols_is_rejected() {
    let email = Email::parse("a@b@c.com".to_string());
    assert!(email.is_err());
}

#[test]
fn email_without_dot_in_domain_is_rejected() {
    let email = Email::parse("test@test".to_string());
    assert!(email.is_err());
}

#[test]
fn email_as_ref_returns_the_input() {
    let email = Email::parse("test@test.com".to_string()).unwrap();
    assert_eq!(email.as_ref(), "test@test.com");
}
