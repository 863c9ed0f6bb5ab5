use auth_service::errors::AuthAPIError;
use auth_service::flows::LoginRequest;
use auth_service::flows::LoginResponse;
use auth_service::flows::SignupRequest;
use auth_service::flows::Verify2FARequest;
use auth_service::flows::login;
use auth_service::flows::logout;
use auth_service::flows::signup;
use auth_service::flows::verify_2fa;
use auth_service::flows::verify_token;
use auth_service::hashmap_two_fa_code_store::HashMapTwoFACodeStore;
use auth_service::hashmap_user_store::HashMapUserStore;
use auth_service::hashset_banned_token_store::HashSetBannedTokenStore;
use auth_service::two_fa::LoginAttemptId;
use auth_service::two_fa::TwoFACode;

fn key() -> Vec<u8> {
    b"test-signing-secret".to_vec()
}

fn signup_request(email: &str, password: &str, requires_2fa: bool) -> SignupRequest {
    SignupRequest {
        email: email.to_owned(),
        password: password.to_owned(),
        requires_2fa,
    }
}

fn login_request(email: &str, password: &str) -> LoginRequest {
    LoginRequest {
        email: email.to_owned(),
        password: password.to_owned(),
    }
}

#[test]
fn signup_then_login_yields_a_verifiable_cookie() {
    let mut users = HashMapUserStore::default();
    let mut two_fa = HashMapTwoFACodeStore::default();
    let banned = HashSetBannedTokenStore::default();
    let key = key();

    let response = signup(&mut users, signup_request("a@example.com", "password123", false));
    assert_eq!(response.unwrap().message, "User created successfully!");

    let outcome = login(&users, &mut two_fa, login_request("a@example.com", "password123"), 1000, &key);
    let token = match outcome.unwrap() {
        LoginResponse::RegularAuth { token } => token,
        LoginResponse::TwoFactorAuth { .. } => panic!("no 2FA expected"),
    };

    // The freshly issued token passes verify-token before its expiry,
    // which lies TOKEN_TTL_SECONDS = 600 seconds after issuance.
    let result = verify_token(&banned, Some(token.clone()), 1100, &key);
    assert_eq!(result, Ok(()));
    let result = verify_token(&banned, Some(token.clone()), 1599, &key);
    assert_eq!(result, Ok(()));

    // But not from the expiry instant on.
    let result = verify_token(&banned, Some(token.clone()), 1600, &key);
    assert_eq!(result, Err(AuthAPIError::InvalidToken));
    let result = verify_token(&banned, Some(token), 2000, &key);
    assert_eq!(result, Err(AuthAPIError::InvalidToken));
}

#[test]
fn login_failures_are_indistinguishable() {
    let mut users = HashMapUserStore::default();
    let mut two_fa = HashMapTwoFACodeStore::default();
    let key = key();

    signup(&mut users, signup_request("a@example.com", "password123", false)).unwrap();

    let wrong_password =
        login(&users, &mut two_fa, login_request("a@example.com", "wrongpass"), 1000, &key);
    let unknown_email =
        login(&users, &mut two_fa, login_request("unknown@example.com", "password123"), 1000, &key);

    // Wrong password and unknown email collapse to the same generic failure.
    assert!(matches!(wrong_password, Err(AuthAPIError::IncorrectCredentials)));
    assert!(matches!(unknown_email, Err(AuthAPIError::IncorrectCredentials)));
}

#[test]
fn duplicate_signup_is_rejected() {
    let mut users = HashMapUserStore::default();

    signup(&mut users, signup_request("a@example.com", "password123", false)).unwrap();
    let second = signup(&mut users, signup_request("a@example.com", "otherpass99", true));

    assert!(matches!(second, Err(AuthAPIError::UserAlreadyExists)));
}

#[test]
fn malformed_signup_input_is_rejected() {
    let mut users = HashMapUserStore::default();

    let bad_email = signup(&mut users, signup_request("not-an-email", "password123", false));
    assert!(matches!(bad_email, Err(AuthAPIError::InvalidCredentials)));

    let bad_password = signup(&mut users, signup_request("a@example.com", "short", false));
    assert!(matches!(bad_password, Err(AuthAPIError::InvalidCredentials)));
}

#[test]
fn two_factor_login_withholds_the_cookie_until_verification() {
    let mut users = HashMapUserStore::default();
    let mut two_fa = HashMapTwoFACodeStore::default();
    let banned = HashSetBannedTokenStore::default();
    let key = key();

    signup(&mut users, signup_request("b@example.com", "password123", true)).unwrap();

    let outcome = login(&users, &mut two_fa, login_request("b@example.com", "password123"), 1000, &key);
    let (attempt_id, code) = match outcome.unwrap() {
        LoginResponse::TwoFactorAuth { login_attempt_id, code_for_notifier } => {
            (login_attempt_id, code_for_notifier)
        },
        LoginResponse::RegularAuth { .. } => panic!("2FA expected"),
    };

    // Completing the challenge with the exact id and code issues the cookie.
    let token = verify_2fa(
        &mut two_fa,
        Verify2FARequest {
            email: "b@example.com".to_owned(),
            login_attempt_id: attempt_id.as_ref().to_owned(),
            two_fa_code: code.value().to_string(),
        },
        1000,
        &key,
    )
    .unwrap();
    assert_eq!(verify_token(&banned, Some(token), 1100, &key), Ok(()));

    // Replaying the consumed challenge fails.
    let replay = verify_2fa(
        &mut two_fa,
        Verify2FARequest {
            email: "b@example.com".to_owned(),
            login_attempt_id: attempt_id.as_ref().to_owned(),
            two_fa_code: code.value().to_string(),
        },
        1000,
        &key,
    );
    assert!(matches!(replay, Err(AuthAPIError::IncorrectCredentials)));
}

#[test]
fn wrong_code_or_id_fails_verification() {
    let mut users = HashMapUserStore::default();
    let mut two_fa = HashMapTwoFACodeStore::default();
    let key = key();

    signup(&mut users, signup_request("b@example.com", "password123", true)).unwrap();
    let outcome = login(&users, &mut two_fa, login_request("b@example.com", "password123"), 1000, &key);
    let (attempt_id, code) = match outcome.unwrap() {
        LoginResponse::TwoFactorAuth { login_attempt_id, code_for_notifier } => {
            (login_attempt_id, code_for_notifier)
        },
        LoginResponse::RegularAuth { .. } => panic!("2FA expected"),
    };

    let wrong_code = if code.value() == 100000 { 100001 } else { code.value() - 1 };
    let result = verify_2fa(
        &mut two_fa,
        Verify2FARequest {
            email: "b@example.com".to_owned(),
            login_attempt_id: attempt_id.as_ref().to_owned(),
            two_fa_code: wrong_code.to_string(),
        },
        1000,
        &key,
    );
    assert!(matches!(result, Err(AuthAPIError::IncorrectCredentials)));

    let result = verify_2fa(
        &mut two_fa,
        Verify2FARequest {
            email: "b@example.com".to_owned(),
            login_attempt_id: "00000000-0000-4000-8000-000000000000".to_owned(),
            two_fa_code: code.value().to_string(),
        },
        1000,
        &key,
    );
    assert!(matches!(result, Err(AuthAPIError::IncorrectCredentials)));
}

#[test]
fn a_second_login_supersedes_the_first_challenge() {
    let mut users = HashMapUserStore::default();
    let mut two_fa = HashMapTwoFACodeStore::default();
    let key = key();

    signup(&mut users, signup_request("b@example.com", "password123", true)).unwrap();

    let first = login(&users, &mut two_fa, login_request("b@example.com", "password123"), 1000, &key);
    let (first_id, first_code) = match first.unwrap() {
        LoginResponse::TwoFactorAuth { login_attempt_id, code_for_notifier } => {
            (login_attempt_id, code_for_notifier)
        },
        LoginResponse::RegularAuth { .. } => panic!("2FA expected"),
    };

    let second = login(&users, &mut two_fa, login_request("b@example.com", "password123"), 1000, &key);
    let (second_id, second_code) = match second.unwrap() {
        LoginResponse::TwoFactorAuth { login_attempt_id, code_for_notifier } => {
            (login_attempt_id, code_for_notifier)
        },
        LoginResponse::RegularAuth { .. } => panic!("2FA expected"),
    };
    assert_ne!(first_id.as_ref(), second_id.as_ref());

    // The superseded pair no longer verifies.
    let stale = verify_2fa(
        &mut two_fa,
        Verify2FARequest {
            email: "b@example.com".to_owned(),
            login_attempt_id: first_id.as_ref().to_owned(),
            two_fa_code: first_code.value().to_string(),
        },
        1000,
        &key,
    );
    if first_code.value() != second_code.value() || first_id != second_id {
        assert!(matches!(stale, Err(AuthAPIError::IncorrectCredentials)));
    }

    // The fresh pair does.
    let fresh = verify_2fa(
        &mut two_fa,
        Verify2FARequest {
            email: "b@example.com".to_owned(),
            login_attempt_id: second_id.as_ref().to_owned(),
            two_fa_code: second_code.value().to_string(),
        },
        1000,
        &key,
    );
    assert!(fresh.is_ok());
}

#[test]
fn logout_revokes_the_token_before_its_expiry() {
    let mut users = HashMapUserStore::default();
    let mut two_fa = HashMapTwoFACodeStore::default();
    let mut banned = HashSetBannedTokenStore::default();
    let key = key();

    signup(&mut users, signup_request("a@example.com", "password123", false)).unwrap();
    let outcome = login(&users, &mut two_fa, login_request("a@example.com", "password123"), 1000, &key);
    let token = match outcome.unwrap() {
        LoginResponse::RegularAuth { token } => token,
        LoginResponse::TwoFactorAuth { .. } => panic!("no 2FA expected"),
    };

    assert_eq!(verify_token(&banned, Some(token.clone()), 1100, &key), Ok(()));

    assert_eq!(logout(&mut banned, Some(token.clone()), 1100, &key), Ok(()));

    // Immediately rejected, long before the natural expiry.
    assert_eq!(
        verify_token(&banned, Some(token), 1101, &key),
        Err(AuthAPIError::InvalidToken)
    );
}

#[test]
fn missing_and_malformed_tokens_are_rejected() {
    let mut banned = HashSetBannedTokenStore::default();
    let key = key();

    assert_eq!(verify_token(&banned, None, 1000, &key), Err(AuthAPIError::MissingToken));
    assert_eq!(logout(&mut banned, None, 1000, &key), Err(AuthAPIError::MissingToken));
    assert_eq!(
        verify_token(&banned, Some("garbage".to_owned()), 1000, &key),
        Err(AuthAPIError::InvalidToken)
    );
    assert_eq!(
        logout(&mut banned, Some("garbage".to_owned()), 1000, &key),
        Err(AuthAPIError::InvalidToken)
    );
}

#[test]
fn a_tampered_or_foreign_token_is_rejected() {
    let mut users = HashMapUserStore::default();
    let mut two_fa = HashMapTwoFACodeStore::default();
    let banned = HashSetBannedTokenStore::default();
    let key = key();

    signup(&mut users, signup_request("a@example.com", "password123", false)).unwrap();
    let outcome = login(&users, &mut two_fa, login_request("a@example.com", "password123"), 1000, &key);
    let token = match outcome.unwrap() {
        LoginResponse::RegularAuth { token } => token,
        LoginResponse::TwoFactorAuth { .. } => panic!("no 2FA expected"),
    };

    // Changing the subject invalidates the signature.
    let tampered = format!("{}x", token);
    assert_eq!(
        verify_token(&banned, Some(tampered), 1100, &key),
        Err(AuthAPIError::InvalidToken)
    );

    // A token signed under another key is rejected under this one.
    let other_key = b"some-other-secret".to_vec();
    assert_eq!(
        verify_token(&banned, Some(token), 1100, &other_key),
        Err(AuthAPIError::InvalidToken)
    );
}

#[test]
fn minted_challenge_values_have_the_documented_shape() {
    let id = LoginAttemptId::default();
    assert_eq!(id.as_ref().len(), 36);

    let code = TwoFACode::default();
    assert!((100000..=999999).contains(&code.value()));
}
