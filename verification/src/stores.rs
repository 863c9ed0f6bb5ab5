use vstd::prelude::*;
use crate::email::Email;
use crate::errors::BannedTokenStoreError;
use crate::errors::TwoFACodeStoreError;
use crate::errors::UserStoreError;
use crate::password::Password;
use crate::two_fa::LoginAttemptId;
use crate::two_fa::TwoFACode;
use crate::user::User;

verus! {

/// The credential store capability: the durable identity of record, mapping
/// an email to a stored credential and the two-factor requirement flag.
/// Backends are pluggable; a backend is chosen once at process configuration
/// time and injected.  A backend may fail with `UnexpectedError` at any
/// call; every other outcome is pinned below.
pub trait UserStore {
    /// The users of record: email to (stored credential, requires-2fa flag).
    /// The default is a placeholder; every backend overrides it.
    open spec fn users(&self) -> Map<Seq<char>, (Seq<char>, bool)> {
        Map::empty()
    }

    /// What it means for a stored credential to match a presented password.
    /// Each backend fixes this: equality of the stored plaintext for the
    /// in-memory store, hash verification for a hashed backend.
    /// The default is a placeholder; every backend overrides it.
    open spec fn cred_matches(cred: Seq<char>, password: Seq<char>) -> bool {
        false
    }

    /// Adds a user of record; a duplicate email is rejected at the
    /// persistence boundary.  A failed addition leaves the store unchanged.
    fn add_user(&mut self, user: User) -> (r: Result<(), UserStoreError>)
        ensures
            r is Ok ==> !old(self).users().contains_key(user.email@) && (exists|c: Seq<char>|
                #![auto]
                Self::cred_matches(c, user.password@) && final(self).users() == old(
                    self,
                ).users().insert(user.email@, (c, user.requires_2fa))),
            r matches Err(UserStoreError::UserAlreadyExists) ==> old(self).users().contains_key(
                user.email@,
            ),
            r is Err ==> final(self).users() == old(self).users(),
    ;

    /// Looks up the user of record for `email`.  The returned user carries
    /// the stored credential in its password field.
    fn get_user(&self, email: &Email) -> (r: Result<User, UserStoreError>)
        ensures
            r matches Ok(u) ==> self.users().contains_key(email@) && u.email@ == email@
                && self.users()[email@] == (u.password@, u.requires_2fa),
            r matches Err(UserStoreError::UserNotFound) ==> !self.users().contains_key(email@),
    ;

    /// Checks a presented password against the stored credential for
    /// `email`.
    fn validate_user(&self, email: &Email, password: &Password) -> (r: Result<
        (),
        UserStoreError,
    >)
        ensures
            r is Ok ==> self.users().contains_key(email@) && Self::cred_matches(
                self.users()[email@].0,
                password@,
            ),
            r matches Err(UserStoreError::UserNotFound) ==> !self.users().contains_key(email@),
            r matches Err(UserStoreError::InvalidCredentials) ==> self.users().contains_key(email@)
                && !Self::cred_matches(self.users()[email@].0, password@),
    ;
}

/// The revocation store capability: the set of currently banned session
/// tokens.  A backend may fail with `UnexpectedError` at any call; a failed
/// addition leaves the store unchanged.
pub trait BannedTokenStore {
    /// The tokens currently recorded as revoked.
    /// The default is a placeholder; every backend overrides it.
    open spec fn banned(&self) -> Set<Seq<char>> {
        Set::empty()
    }

    /// Records `token` as revoked.
    fn add_banned_token(&mut self, token: String) -> (r: Result<(), BannedTokenStoreError>)
        ensures
            r is Ok ==> final(self).banned() == old(self).banned().insert(token@),
            r is Err ==> final(self).banned() == old(self).banned(),
    ;

    /// Whether `token` is currently recorded as revoked.
    fn is_banned(&self, token: &str) -> (r: Result<bool, BannedTokenStoreError>)
        ensures
            r matches Ok(b) ==> b == self.banned().contains(token@),
    ;
}

/// The two-factor challenge store capability: at most one outstanding
/// challenge per email.  A backend may fail with `UnexpectedError` at any
/// call; a failed mutation leaves the store unchanged.
pub trait TwoFACodeStore {
    /// The outstanding challenges: email to (attempt id, code).
    /// The default is a placeholder; every backend overrides it.
    open spec fn codes(&self) -> Map<Seq<char>, (Seq<char>, u32)> {
        Map::empty()
    }

    /// Stores the challenge for `email`, unconditionally superseding any
    /// prior one for that email.
    fn add_code(&mut self, email: Email, login_attempt_id: LoginAttemptId, code: TwoFACode) -> (r:
        Result<(), TwoFACodeStoreError>)
        ensures
            r is Ok ==> final(self).codes() == old(self).codes().insert(
                email@,
                (login_attempt_id@, code@),
            ),
            r is Err ==> final(self).codes() == old(self).codes(),
    ;

    /// Discards the outstanding challenge for `email`, reporting
    /// `LoginAttemptIdNotFound` if there is none.
    fn remove_code(&mut self, email: &Email) -> (r: Result<(), TwoFACodeStoreError>)
        ensures
            r is Ok ==> old(self).codes().contains_key(email@) && final(self).codes() == old(
                self,
            ).codes().remove(email@),
            r matches Err(TwoFACodeStoreError::LoginAttemptIdNotFound) ==> !old(
                self,
            ).codes().contains_key(email@),
            r is Err ==> final(self).codes() == old(self).codes(),
    ;

    /// The outstanding challenge for `email`, reporting
    /// `LoginAttemptIdNotFound` if there is none.
    fn get_code(&self, email: &Email) -> (r: Result<
        (LoginAttemptId, TwoFACode),
        TwoFACodeStoreError,
    >)
        ensures
            r matches Ok(p) ==> self.codes().contains_key(email@) && self.codes()[email@] == (
                p.0@,
                p.1@,
            ),
            r matches Err(TwoFACodeStoreError::LoginAttemptIdNotFound) ==> !self.codes().contains_key(
                email@,
            ),
    ;
}

/// The storage key under which a TTL-keyed external cache records a banned
/// token: the token string behind a fixed prefix, so revocation entries
/// cannot collide with other keys in the cache.
pub fn get_key(token: &str) -> (r: String)
    ensures
        r@ == "banned_token:"@ + token@,
{
    let mut key = String::from_str("banned_token:");
    key.append(token);
    key
}

} // verus!
