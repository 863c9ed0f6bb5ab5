use vstd::prelude::*;
use argon2::PasswordHasher;
use argon2::PasswordVerifier;

verus! {

/// Whether argon2's verifier accepts `candidate` against the encoded hash
/// string `hash`.  The outcome is a function of the two strings alone: the
/// verifier re-derives everything else (algorithm, parameters, salt) from the
/// encoded hash.  A malformed hash string verifies nothing.
pub uninterp spec fn verifies_against(hash: Seq<char>, candidate: Seq<char>) -> bool;

/// One-way transform from plaintext to a storable, self-contained encoded
/// hash: a memory-hard, salted algorithm with fixed cost parameters and a
/// fresh random salt per call, the salt embedded in the encoded output.
///
/// Relies on `argon2::Argon2::hash_password` (Argon2id, version 0x13,
/// m=15000, t=2, p=1): the encoded result embeds salt and parameters, so the
/// matching verifier, which recomputes the hash with exactly those, accepts
/// the password that was hashed.  With these fixed, valid parameters and a
/// freshly generated 16-byte salt, the only input hashing rejects is a
/// password longer than 2^32 - 1 bytes; a character occupies at most four
/// bytes, so success is owed below a quarter of that many characters.
#[verifier::external_body]
pub fn compute_password_hash(password: &str) -> (r: Option<String>)
    ensures
        r matches Some(h) ==> verifies_against(h@, password@),
        password@.len() <= 0x3fffffff ==> r is Some,
{
    let salt = argon2::password_hash::SaltString::generate(&mut rand::thread_rng());
    let params = match argon2::Params::new(15000, 2, 1, None) {
        Ok(p) => p,
        Err(_) => return None,
    };
    let hasher = argon2::Argon2::new(argon2::Algorithm::Argon2id, argon2::Version::V0x13, params);
    match hasher.hash_password(password.as_bytes(), &salt) {
        Ok(h) => Some(h.to_string()),
        Err(_) => None,
    }
}

/// Verifies a password candidate against a stored encoded hash.
///
/// Relies on `argon2::PasswordHash::new` (parsing the encoded form) and
/// `argon2::Argon2::verify_password` (recomputing with the embedded salt and
/// parameters and comparing in constant time): the outcome is deterministic
/// in the hash string and the candidate.
#[verifier::external_body]
pub fn verify_password_hash(expected_password_hash: &str, password_candidate: &str) -> (r: bool)
    ensures
        r == verifies_against(expected_password_hash@, password_candidate@),
{
    match argon2::PasswordHash::new(expected_password_hash) {
        Ok(parsed) => argon2::Argon2::default()
            .verify_password(password_candidate.as_bytes(), &parsed)
            .is_ok(),
        Err(_) => false,
    }
}

} // verus!
