use vstd::prelude::*;
use crate::email::Email;
use crate::password::Password;

verus! {

/// A user of record: identity key, stored credential, and whether logging in
/// requires the two-factor step.  For an in-memory store the credential is
/// the validated password itself; for a hashed backend it is the encoded
/// password hash.
#[derive(Debug)]
pub struct User {
    pub email: Email,
    pub password: Password,
    pub requires_2fa: bool,
}

impl User {
    pub fn new(email: Email, password: Password, requires_2fa: bool) -> (r: User)
        ensures
            r.email == email,
            r.password == password,
            r.requires_2fa == requires_2fa,
    {
        User { email, password, requires_2fa }
    }
}

impl Clone for User {
    fn clone(&self) -> (r: Self)
        ensures
            r == *self,
    {
        User {
            email: self.email.clone(),
            password: self.password.clone(),
            requires_2fa: self.requires_2fa,
        }
    }
}

} // verus!
