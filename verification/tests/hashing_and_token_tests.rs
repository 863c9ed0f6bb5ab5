use auth_service::errors::AuthAPIError;
use auth_service::hashing::compute_password_hash;
use auth_service::hashing::verify_password_hash;
use auth_service::hex::hex_of_bytes;
use auth_service::hex::parse_hex16;
use auth_service::hex::u64_to_hex;

#[test]
fn computed_hashes_verify_their_own_password_only() {
    let hash = compute_password_hash("password123").unwrap();

    // The encoded output is a real hash, not the plaintext handed in.
    assert_ne!(hash, "password123");
    assert!(verify_password_hash(&hash, "password123"));
    assert!(!verify_password_hash(&hash, "wrongpass1"));
}

#[test]
fn two_hashes_of_one_password_differ_by_salt_but_both_verify() {
    let first = compute_password_hash("password123").unwrap();
    let second = compute_password_hash("password123").unwrap();

    assert_ne!(first, second);
    assert!(verify_password_hash(&first, "password123"));
    assert!(verify_password_hash(&second, "password123"));
}

#[test]
fn a_malformed_hash_verifies_nothing() {
    assert!(!verify_password_hash("not-an-encoded-hash", "password123"));
}

#[test]
fn hex_encoding_round_trips() {
    assert_eq!(u64_to_hex(0), "0000000000000000");
    assert_eq!(u64_to_hex(0xdeadbeef), "00000000deadbeef");
    assert_eq!(parse_hex16("00000000deadbeef"), Some(0xdeadbeef));
    assert_eq!(parse_hex16(&u64_to_hex(u64::MAX)), Some(u64::MAX));
    assert_eq!(parse_hex16("00000000deadbee"), None);
    assert_eq!(parse_hex16("z0000000deadbeef"), None);
}

#[test]
fn hex_of_bytes_writes_two_digits_per_byte() {
    assert_eq!(hex_of_bytes(&vec![0x00, 0x0f, 0xa5]), "000fa5");
}

#[test]
fn error_responses_match_the_http_surface() {
    assert_eq!(
        AuthAPIError::UserAlreadyExists.status_and_message(),
        (409, "User already exists".to_owned())
    );
    assert_eq!(
        AuthAPIError::InvalidCredentials.status_and_message(),
        (400, "Invalid credentials".to_owned())
    );
    assert_eq!(
        AuthAPIError::IncorrectCredentials.status_and_message(),
        (401, "Incorrect credentials".to_owned())
    );
    assert_eq!(
        AuthAPIError::MissingToken.status_and_message(),
        (400, "Missing auth token".to_owned())
    );
    assert_eq!(
        AuthAPIError::InvalidToken.status_and_message(),
        (401, "Invalid auth token".to_owned())
    );
    assert_eq!(
        AuthAPIError::UnexpectedError.status_and_message(),
        (500, "Unexpected error".to_owned())
    );
}
