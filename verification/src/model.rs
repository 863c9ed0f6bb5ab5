use vstd::prelude::*;
use crate::email::is_valid_email;
use crate::errors::AuthAPIError;
use crate::password::is_valid_password;
use crate::token::TOKEN_TTL_SECONDS;
use crate::token::spec_validate_token;
use crate::token::token_of;
use crate::two_fa::two_fa_code_val;

verus! {

/// A result with its success payload dropped, for comparing an executable
/// outcome against the model.
pub open spec fn outcome_of<T>(r: Result<T, AuthAPIError>) -> Result<(), AuthAPIError> {
    match r {
        Ok(_) => Ok(()),
        Err(e) => Err(e),
    }
}

/// A token result seen through its view, for comparing an executable outcome
/// against the model.
pub open spec fn token_outcome_of(r: Result<String, AuthAPIError>) -> Result<
    Seq<char>,
    AuthAPIError,
> {
    match r {
        Ok(t) => Ok(t@),
        Err(e) => Err(e),
    }
}

/// An optional token string seen through its view.
pub open spec fn option_token_view(token: Option<String>) -> Option<Seq<char>> {
    match token {
        Option::None => Option::None,
        Option::Some(t) => Option::Some(t@),
    }
}

/// What signup decides over the credential store's contents: reject
/// malformed input, reject a duplicate email, otherwise persist the new user
/// under some stored credential `stored_cred` (which backend hashing
/// chooses).  Returns the outcome and the store's new contents.
pub open spec fn spec_signup(
    users: Map<Seq<char>, (Seq<char>, bool)>,
    email: Seq<char>,
    password: Seq<char>,
    requires_2fa: bool,
    stored_cred: Seq<char>,
) -> (Result<(), AuthAPIError>, Map<Seq<char>, (Seq<char>, bool)>) {
    if !is_valid_email(email) || !is_valid_password(password) {
        (Err(AuthAPIError::InvalidCredentials), users)
    } else if users.contains_key(email) {
        (Err(AuthAPIError::UserAlreadyExists), users)
    } else {
        (Ok(()), users.insert(email, (stored_cred, requires_2fa)))
    }
}

/// What verify-2fa decides over the challenge store's contents: reject a
/// malformed email; fail on an absent challenge; succeed exactly when both
/// the attempt id and the code match the most recently issued challenge for
/// that email, consuming the challenge and issuing the session token; any
/// mismatch fails and leaves the challenge in place.
pub open spec fn spec_verify_2fa(
    codes: Map<Seq<char>, (Seq<char>, u32)>,
    email: Seq<char>,
    attempt_id: Seq<char>,
    code: Seq<char>,
    now: u64,
    key: Seq<u8>,
) -> (Result<Seq<char>, AuthAPIError>, Map<Seq<char>, (Seq<char>, u32)>) {
    if !is_valid_email(email) {
        (Err(AuthAPIError::InvalidCredentials), codes)
    } else if !codes.contains_key(email) {
        (Err(AuthAPIError::IncorrectCredentials), codes)
    } else if codes[email].0 == attempt_id && two_fa_code_val(code) == Some(
        codes[email].1 as int,
    ) {
        (Ok(token_of(email, (now + TOKEN_TTL_SECONDS) as u64, key)), codes.remove(email))
    } else {
        (Err(AuthAPIError::IncorrectCredentials), codes)
    }
}

/// What logout decides over the revocation set: a missing token is reported
/// as such; a token that fails signature, expiry or shape checks is
/// rejected; a valid token is recorded as revoked.
pub open spec fn spec_logout(
    banned: Set<Seq<char>>,
    token: Option<Seq<char>>,
    now: u64,
    key: Seq<u8>,
) -> (Result<(), AuthAPIError>, Set<Seq<char>>) {
    match token {
        Option::None => (Err(AuthAPIError::MissingToken), banned),
        Option::Some(t) => match spec_validate_token(t, now, key) {
            Option::None => (Err(AuthAPIError::InvalidToken), banned),
            Option::Some(_) => (Ok(()), banned.insert(t)),
        },
    }
}

/// What verify-token decides: a token is accepted exactly when it is
/// present, passes signature, expiry and shape checks, and is not in the
/// revocation set; no further detail is exposed.
pub open spec fn spec_verify_token(
    banned: Set<Seq<char>>,
    token: Option<Seq<char>>,
    now: u64,
    key: Seq<u8>,
) -> Result<(), AuthAPIError> {
    match token {
        Option::None => Err(AuthAPIError::MissingToken),
        Option::Some(t) => match spec_validate_token(t, now, key) {
            Option::None => Err(AuthAPIError::InvalidToken),
            Option::Some(_) => if banned.contains(t) {
                Err(AuthAPIError::InvalidToken)
            } else {
                Ok(())
            },
        },
    }
}

} // verus!
