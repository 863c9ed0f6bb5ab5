use vstd::prelude::*;
use crate::email::is_valid_email;
use crate::errors::AuthAPIError;
use crate::model::spec_logout;
use crate::model::spec_signup;
use crate::model::spec_verify_2fa;
use crate::model::spec_verify_token;
use crate::password::is_valid_password;
use crate::token::TOKEN_TTL_SECONDS;
use crate::token::lemma_validate_issued_token;
use crate::token::token_of;
use crate::two_fa::two_fa_code_val;

verus! {

/// Signing up twice with the same email fails: after a successful signup,
/// a second signup for that email — with any valid password and flag, and
/// whatever credential the backend would store — is rejected with
/// `UserAlreadyExists` and leaves the store unchanged.
pub proof fn lemma_signup_then_duplicate_fails(
    users: Map<Seq<char>, (Seq<char>, bool)>,
    email: Seq<char>,
    p1: Seq<char>,
    f1: bool,
    c1: Seq<char>,
    p2: Seq<char>,
    f2: bool,
    c2: Seq<char>,
)
    requires
        spec_signup(users, email, p1, f1, c1).0 is Ok,
        is_valid_password(p2),
    ensures
        spec_signup(spec_signup(users, email, p1, f1, c1).1, email, p2, f2, c2) == (
            Err::<(), AuthAPIError>(AuthAPIError::UserAlreadyExists),
            spec_signup(users, email, p1, f1, c1).1,
        ),
{
}

/// A session token issued at login or verify-2fa is accepted by
/// verify-token until its expiry, as long as it has not been revoked.
pub proof fn lemma_issued_token_accepted(
    email: Seq<char>,
    now: u64,
    later: u64,
    key: Seq<u8>,
    banned: Set<Seq<char>>,
)
    requires
        is_valid_email(email),
        now + TOKEN_TTL_SECONDS <= u64::MAX,
        later < now + TOKEN_TTL_SECONDS,
        !banned.contains(token_of(email, (now + TOKEN_TTL_SECONDS) as u64, key)),
    ensures
        spec_verify_token(
            banned,
            Some(token_of(email, (now + TOKEN_TTL_SECONDS) as u64, key)),
            later,
            key,
        ) == Ok::<(), AuthAPIError>(()),
{
    lemma_validate_issued_token(email, (now + TOKEN_TTL_SECONDS) as u64, later, key);
}

/// verify-2fa succeeds exactly when both the attempt id and the code match
/// the most recently issued challenge for that email.
pub proof fn lemma_verify_2fa_exact_match(
    codes: Map<Seq<char>, (Seq<char>, u32)>,
    email: Seq<char>,
    attempt_id: Seq<char>,
    code: Seq<char>,
    now: u64,
    key: Seq<u8>,
)
    requires
        is_valid_email(email),
    ensures
        spec_verify_2fa(codes, email, attempt_id, code, now, key).0 is Ok <==> codes.contains_key(
            email,
        ) && codes[email].0 == attempt_id && two_fa_code_val(code) == Some(codes[email].1 as int),
{
}

/// A challenge is one-time use: after a successful verify-2fa, a second
/// attempt for the same email fails — with any id and code — because the
/// challenge was consumed.
pub proof fn lemma_verify_2fa_single_use(
    codes: Map<Seq<char>, (Seq<char>, u32)>,
    email: Seq<char>,
    attempt_id: Seq<char>,
    code: Seq<char>,
    attempt_id2: Seq<char>,
    code2: Seq<char>,
    now: u64,
    later: u64,
    key: Seq<u8>,
)
    requires
        spec_verify_2fa(codes, email, attempt_id, code, now, key).0 is Ok,
    ensures
        spec_verify_2fa(
            spec_verify_2fa(codes, email, attempt_id, code, now, key).1,
            email,
            attempt_id2,
            code2,
            later,
            key,
        ) == (
            Err::<Seq<char>, AuthAPIError>(AuthAPIError::IncorrectCredentials),
            spec_verify_2fa(codes, email, attempt_id, code, now, key).1,
        ),
{
}

/// Issuing a new challenge for an email supersedes the old one: after the
/// store holds the fresh (id, code) pair, verification with anything other
/// than exactly that pair fails.
pub proof fn lemma_new_challenge_supersedes(
    codes: Map<Seq<char>, (Seq<char>, u32)>,
    email: Seq<char>,
    new_id: Seq<char>,
    new_code: u32,
    attempt_id: Seq<char>,
    code: Seq<char>,
    now: u64,
    key: Seq<u8>,
)
    requires
        is_valid_email(email),
        attempt_id != new_id || two_fa_code_val(code) != Some(new_code as int),
    ensures
        spec_verify_2fa(
            codes.insert(email, (new_id, new_code)),
            email,
            attempt_id,
            code,
            now,
            key,
        ) == (
            Err::<Seq<char>, AuthAPIError>(AuthAPIError::IncorrectCredentials),
            codes.insert(email, (new_id, new_code)),
        ),
{
}

/// A two-factor login response carries no usable session credential: any
/// string shorter than the 80 header characters of a real token — the
/// 36-character attempt id in particular — is rejected by verify-token, so
/// no credential can be extracted from that response before verify-2fa
/// completes.
pub proof fn lemma_short_string_is_no_token(
    banned: Set<Seq<char>>,
    s: Seq<char>,
    now: u64,
    key: Seq<u8>,
)
    requires
        s.len() < 80,
    ensures
        spec_verify_token(banned, Some(s), now, key) == Err::<(), AuthAPIError>(
            AuthAPIError::InvalidToken,
        ),
{
}

/// After logout, the revoked token fails verify-token at every later time,
/// even though it may not have reached its natural expiry.
pub proof fn lemma_logout_revokes(
    banned: Set<Seq<char>>,
    token: Seq<char>,
    now: u64,
    later: u64,
    key: Seq<u8>,
)
    requires
        spec_logout(banned, Some(token), now, key).0 is Ok,
    ensures
        spec_verify_token(
            spec_logout(banned, Some(token), now, key).1,
            Some(token),
            later,
            key,
        ) == Err::<(), AuthAPIError>(AuthAPIError::InvalidToken),
{
}

/// Once a token's original expiry has passed, verify-token rejects it
/// whatever the revocation set holds — so its revocation record has become
/// irrelevant and may be purged.
pub proof fn lemma_expired_token_rejected(
    email: Seq<char>,
    exp: u64,
    now: u64,
    key: Seq<u8>,
    banned1: Set<Seq<char>>,
    banned2: Set<Seq<char>>,
)
    requires
        now >= exp,
    ensures
        spec_verify_token(banned1, Some(token_of(email, exp, key)), now, key) == Err::<
            (),
            AuthAPIError,
        >(AuthAPIError::InvalidToken),
        spec_verify_token(banned1, Some(token_of(email, exp, key)), now, key) == spec_verify_token(
            banned2,
            Some(token_of(email, exp, key)),
            now,
            key,
        ),
{
    lemma_validate_issued_token(email, exp, now, key);
}

} // verus!
