use vstd::prelude::*;

verus! {

/// A validated plaintext password, used only transiently at signup and login;
/// it is never persisted or logged in this form.
#[derive(Debug)]
pub struct Password(String);

/// The only shape rule on passwords: at least 8 characters.
pub open spec fn is_valid_password(s: Seq<char>) -> bool {
    s.len() >= 8
}

impl Password {
    /// Validates `s` as a password: rejects length < 8.
    pub fn parse(s: String) -> (r: Result<Password, String>)
        ensures
            r matches Ok(p) ==> is_valid_password(s@) && p@ == s@,
            r is Err ==> !is_valid_password(s@),
            r matches Err(m) ==> m@ == "Password must be at least 8 characters long"@,
    {
        if s.as_str().unicode_len() < 8 {
            Err(String::from_str("Password must be at least 8 characters long"))
        } else {
            Ok(Password(s))
        }
    }

    /// The password as a string slice.
    pub fn as_ref(&self) -> (r: &str)
        ensures
            r@ == self@,
    {
        self.0.as_str()
    }
}

impl View for Password {
    type V = Seq<char>;

    closed spec fn view(&self) -> Seq<char> {
        self.0@
    }
}

impl Clone for Password {
    fn clone(&self) -> (r: Self)
        ensures
            r == *self,
    {
        Password(self.0.clone())
    }
}

impl PartialEq for Password {
    fn eq(&self, other: &Self) -> (r: bool) {
        self.0 == other.0
    }
}

impl vstd::std_specs::cmp::PartialEqSpecImpl for Password {
    open spec fn obeys_eq_spec() -> bool {
        true
    }

    open spec fn eq_spec(&self, other: &Self) -> bool {
        self@ == other@
    }
}

} // verus!
