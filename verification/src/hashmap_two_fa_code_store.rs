use vstd::prelude::*;
use crate::email::Email;
use crate::errors::TwoFACodeStoreError;
use crate::stores::TwoFACodeStore;
use crate::two_fa::LoginAttemptId;
use crate::two_fa::TwoFACode;

verus! {

/// An in-memory two-factor challenge store: a volatile mapping from email to
/// the outstanding (attempt id, code) pair, suitable for development and
/// tests.
pub struct HashMapTwoFACodeStore {
    codes: Vec<(Email, LoginAttemptId, TwoFACode)>,
}

/// The challenges held by `s`: email to (attempt id, code); a later entry
/// for the same email wins.
pub open spec fn codes_map_of(s: Seq<(Email, LoginAttemptId, TwoFACode)>) -> Map<
    Seq<char>,
    (Seq<char>, u32),
>
    decreases s.len(),
{
    if s.len() == 0 {
        Map::empty()
    } else {
        codes_map_of(s.drop_last()).insert(s.last().0@, (s.last().1@, s.last().2@))
    }
}

proof fn lemma_codes_map_contains(s: Seq<(Email, LoginAttemptId, TwoFACode)>, e: Seq<char>)
    ensures
        codes_map_of(s).contains_key(e) <==> exists|i: int| 0 <= i < s.len() && s[i].0@ == e,
    decreases s.len(),
{
    if s.len() > 0 {
        lemma_codes_map_contains(s.drop_last(), e);
        if codes_map_of(s).contains_key(e) {
            if s.last().0@ != e {
                let i = choose|i: int| 0 <= i < s.len() - 1 && s.drop_last()[i].0@ == e;
                assert(s[i].0@ == e);
            }
        }
        if exists|i: int| 0 <= i < s.len() && s[i].0@ == e {
            let i = choose|i: int| 0 <= i < s.len() && s[i].0@ == e;
            if i < s.len() - 1 {
                assert(s.drop_last()[i].0@ == e);
            }
        }
    }
}

proof fn lemma_codes_map_last_match(s: Seq<(Email, LoginAttemptId, TwoFACode)>, i: int)
    requires
        0 <= i < s.len(),
        forall|j: int| i < j < s.len() ==> s[j].0@ != s[i].0@,
    ensures
        codes_map_of(s).contains_key(s[i].0@),
        codes_map_of(s)[s[i].0@] == (s[i].1@, s[i].2@),
    decreases s.len(),
{
    if i == s.len() - 1 {
    } else {
        assert(s.drop_last()[i] == s[i]);
        lemma_codes_map_last_match(s.drop_last(), i);
    }
}

/// The entries of `v` for every email but `email`, in order.
fn without_email(v: &Vec<(Email, LoginAttemptId, TwoFACode)>, email: &Email) -> (r: Vec<
    (Email, LoginAttemptId, TwoFACode),
>)
    ensures
        codes_map_of(r@) == codes_map_of(v@).remove(email@),
{
    let mut kept: Vec<(Email, LoginAttemptId, TwoFACode)> = Vec::new();
    let mut i: usize = 0;
    while i < v.len()
        invariant
            i <= v@.len(),
            codes_map_of(kept@) == codes_map_of(v@.take(i as int)).remove(email@),
        decreases v@.len() - i,
    {
        proof {
            assert(v@.take(i as int + 1).drop_last() =~= v@.take(i as int));
            assert(v@.take(i as int + 1).last() == v@[i as int]);
        }
        let t = &v[i];
        if !(t.0 == *email) {
            let copied = (t.0.clone(), t.1.clone(), t.2);
            proof {
                assert(kept@.push(copied).drop_last() =~= kept@);
            }
            kept.push(copied);
            proof {
                assert(codes_map_of(kept@) =~= codes_map_of(v@.take(i as int + 1)).remove(email@));
            }
        } else {
            proof {
                assert(codes_map_of(kept@) =~= codes_map_of(v@.take(i as int + 1)).remove(email@));
            }
        }
        i = i + 1;
    }
    proof {
        assert(v@.take(v@.len() as int) =~= v@);
    }
    kept
}

impl Default for HashMapTwoFACodeStore {
    /// An empty store.
    fn default() -> (r: Self)
        ensures
            r.codes() == Map::<Seq<char>, (Seq<char>, u32)>::empty(),
    {
        HashMapTwoFACodeStore { codes: Vec::new() }
    }
}

impl TwoFACodeStore for HashMapTwoFACodeStore {
    closed spec fn codes(&self) -> Map<Seq<char>, (Seq<char>, u32)> {
        codes_map_of(self.codes@)
    }

    fn add_code(&mut self, email: Email, login_attempt_id: LoginAttemptId, code: TwoFACode) -> (r:
        Result<(), TwoFACodeStoreError>)
        ensures
            r is Ok,
    {
        let ghost e = email@;
        let filtered = without_email(&self.codes, &email);
        self.codes = filtered;
        proof {
            assert(self.codes@.push((email, login_attempt_id, code)).drop_last()
                =~= self.codes@);
        }
        self.codes.push((email, login_attempt_id, code));
        proof {
            assert(codes_map_of(self.codes@) =~= codes_map_of(old(self).codes@).insert(
                e,
                (login_attempt_id@, code@),
            ));
        }
        Ok(())
    }

    fn remove_code(&mut self, email: &Email) -> (r: Result<(), TwoFACodeStoreError>)
        ensures
            r is Ok <==> old(self).codes().contains_key(email@),
            !old(self).codes().contains_key(email@) ==> r matches Err(
                TwoFACodeStoreError::LoginAttemptIdNotFound,
            ),
    {
        let mut i: usize = 0;
        let mut found = false;
        while i < self.codes.len() && !found
            invariant
                i <= self.codes@.len(),
                found ==> exists|j: int| 0 <= j < self.codes@.len() && self.codes@[j].0@
                    == email@,
                !found ==> forall|j: int| 0 <= j < i ==> self.codes@[j].0@ != email@,
            decreases self.codes@.len() - i + (if found { 0int } else { 1int }),
        {
            if self.codes[i].0 == *email {
                found = true;
            } else {
                i = i + 1;
            }
        }
        proof {
            lemma_codes_map_contains(self.codes@, email@);
        }
        if !found {
            return Err(TwoFACodeStoreError::LoginAttemptIdNotFound);
        }
        let filtered = without_email(&self.codes, email);
        self.codes = filtered;
        Ok(())
    }

    fn get_code(&self, email: &Email) -> (r: Result<
        (LoginAttemptId, TwoFACode),
        TwoFACodeStoreError,
    >)
        ensures
            r is Ok <==> self.codes().contains_key(email@),
            !self.codes().contains_key(email@) ==> r matches Err(
                TwoFACodeStoreError::LoginAttemptIdNotFound,
            ),
    {
        let mut i: usize = self.codes.len();
        while i > 0
            invariant
                i <= self.codes@.len(),
                forall|j: int| i <= j < self.codes@.len() ==> self.codes@[j].0@ != email@,
            decreases i,
        {
            i = i - 1;
            if self.codes[i].0 == *email {
                proof {
                    lemma_codes_map_last_match(self.codes@, i as int);
                }
                return Ok((self.codes[i].1.clone(), self.codes[i].2));
            }
        }
        proof {
            lemma_codes_map_contains(self.codes@, email@);
        }
        Err(TwoFACodeStoreError::LoginAttemptIdNotFound)
    }
}

} // verus!
