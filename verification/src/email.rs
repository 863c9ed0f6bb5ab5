use vstd::prelude::*;

verus! {

/// A normalized, syntactically validated e-mail address.  It is the stable
/// identity key for a user and for an outstanding two-factor challenge, and
/// is immutable once constructed.
#[derive(Debug)]
pub struct Email(String);

/// Position `i` splits `s` into a valid address: a non-empty local part, a
/// unique `'@'`, and a non-empty domain that contains at least one `'.'`.
pub open spec fn is_email_split_at(s: Seq<char>, i: int) -> bool {
    &&& 0 < i
    &&& i + 1 < s.len()
    &&& s[i] == '@'
    &&& (forall|j: int| 0 <= j < s.len() && j != i ==> s[j] != '@')
    &&& (exists|k: int| i < k < s.len() && s[k] == '.')
}

/// Syntactic validity of an address: non-empty local and domain parts
/// separated by exactly one `'@'`, the domain containing at least one `'.'`.
pub open spec fn is_valid_email(s: Seq<char>) -> bool {
    exists|i: int| is_email_split_at(s, i)
}

impl Email {
    /// Validates `s` as an address.  The error carries the original input for
    /// diagnostics.
    pub fn parse(s: String) -> (r: Result<Email, String>)
        ensures
            r matches Ok(e) ==> is_valid_email(s@) && e@ == s@,
            r is Err ==> !is_valid_email(s@),
            r matches Err(m) ==> m@ == s@ + " is not a valid email"@,
    {
        let n = s.as_str().unicode_len();
        let mut at_pos: Option<usize> = None;
        let ghost mut extra_at: int = 0;
        let mut dup = false;
        let mut dot_after = false;
        let mut i: usize = 0;
        while i < n
            invariant
                i <= n,
                n == s@.len(),
                match at_pos {
                    Option::None => !dup && !dot_after && (forall|j: int|
                        0 <= j < i ==> s@[j] != '@'),
                    Option::Some(p) => {
                        &&& (p as int) < i
                        &&& s@[p as int] == '@'
                        &&& (!dup ==> forall|j: int| 0 <= j < i && j != p ==> s@[j] != '@')
                        &&& (dup ==> (p as int) < extra_at < i && s@[extra_at] == '@')
                        &&& (dot_after <==> exists|k: int| p < k < i && s@[k] == '.')
                    },
                },
            decreases n - i,
        {
            let c = s.as_str().get_char(i);
            if c == '@' {
                if at_pos.is_none() {
                    at_pos = Some(i);
                } else if !dup {
                    dup = true;
                    proof {
                        extra_at = i as int;
                    }
                }
            } else if c == '.' {
                if at_pos.is_some() {
                    dot_after = true;
                }
            }
            i = i + 1;
        }
        let ok = match at_pos {
            Some(p) => !dup && p > 0 && p + 1 < n && dot_after,
            None => false,
        };
        if ok {
            proof {
                let p = at_pos->Some_0 as int;
                assert(is_email_split_at(s@, p));
            }
            Ok(Email(s))
        } else {
            proof {
                assert forall|ix: int| !is_email_split_at(s@, ix) by {
                    if 0 <= ix < s@.len() && s@[ix] == '@' {
                        match at_pos {
                            Option::None => {
                                assert(false);
                            },
                            Option::Some(p) => {
                                if dup {
                                    // two distinct '@' positions defeat the uniqueness clause
                                    if ix != p {
                                        assert(s@[p as int] == '@');
                                    } else {
                                        assert(s@[extra_at] == '@');
                                    }
                                } else {
                                    assert(ix == p);
                                }
                            },
                        }
                    }
                }
            }
            Err(s.concat(" is not a valid email"))
        }
    }

    /// The address as a string slice.
    pub fn as_ref(&self) -> (r: &str)
        ensures
            r@ == self@,
    {
        self.0.as_str()
    }
}

impl View for Email {
    type V = Seq<char>;

    closed spec fn view(&self) -> Seq<char> {
        self.0@
    }
}

impl Clone for Email {
    fn clone(&self) -> (r: Self)
        ensures
            r == *self,
    {
        Email(self.0.clone())
    }
}

impl PartialEq for Email {
    fn eq(&self, other: &Self) -> (r: bool) {
        self.0 == other.0
    }
}

impl vstd::std_specs::cmp::PartialEqSpecImpl for Email {
    open spec fn obeys_eq_spec() -> bool {
        true
    }

    open spec fn eq_spec(&self, other: &Self) -> bool {
        self@ == other@
    }
}

} // verus!
