use vstd::prelude::*;
use crate::errors::BannedTokenStoreError;
use crate::stores::BannedTokenStore;

verus! {

/// An in-memory revocation store: a set of banned token strings.  It grows
/// without bound and never expires entries, so it is suitable for
/// development and tests only.
pub struct HashSetBannedTokenStore {
    banned_tokens: Vec<String>,
}

/// The set of token strings held by `s`.
pub open spec fn banned_set_of(s: Seq<String>) -> Set<Seq<char>>
    decreases s.len(),
{
    if s.len() == 0 {
        Set::empty()
    } else {
        banned_set_of(s.drop_last()).insert(s.last()@)
    }
}

proof fn lemma_banned_set_contains(s: Seq<String>, t: Seq<char>)
    ensures
        banned_set_of(s).contains(t) <==> exists|i: int| 0 <= i < s.len() && s[i]@ == t,
    decreases s.len(),
{
    if s.len() > 0 {
        lemma_banned_set_contains(s.drop_last(), t);
        if banned_set_of(s).contains(t) {
            if s.last()@ != t {
                let i = choose|i: int| 0 <= i < s.len() - 1 && s.drop_last()[i]@ == t;
                assert(s[i]@ == t);
            }
        }
        if exists|i: int| 0 <= i < s.len() && s[i]@ == t {
            let i = choose|i: int| 0 <= i < s.len() && s[i]@ == t;
            if i < s.len() - 1 {
                assert(s.drop_last()[i]@ == t);
            }
        }
    }
}

impl Default for HashSetBannedTokenStore {
    /// An empty store.
    fn default() -> (r: Self)
        ensures
            r.banned() == Set::<Seq<char>>::empty(),
    {
        HashSetBannedTokenStore { banned_tokens: Vec::new() }
    }
}

impl BannedTokenStore for HashSetBannedTokenStore {
    closed spec fn banned(&self) -> Set<Seq<char>> {
        banned_set_of(self.banned_tokens@)
    }

    fn add_banned_token(&mut self, token: String) -> (r: Result<(), BannedTokenStoreError>)
        ensures
            r is Ok,
    {
        proof {
            assert(old(self).banned_tokens@.push(token).drop_last() =~= old(self).banned_tokens@);
        }
        self.banned_tokens.push(token);
        Ok(())
    }

    fn is_banned(&self, token: &str) -> (r: Result<bool, BannedTokenStoreError>)
        ensures
            r is Ok,
    {
        let needle = token.to_owned();
        let mut i: usize = 0;
        while i < self.banned_tokens.len()
            invariant
                i <= self.banned_tokens@.len(),
                forall|j: int| 0 <= j < i ==> self.banned_tokens@[j]@ != token@,
                needle@ == token@,
            decreases self.banned_tokens@.len() - i,
        {
            if self.banned_tokens[i] == needle {
                proof {
                    lemma_banned_set_contains(self.banned_tokens@, token@);
                }
                return Ok(true);
            }
            i = i + 1;
        }
        proof {
            lemma_banned_set_contains(self.banned_tokens@, token@);
        }
        Ok(false)
    }
}

} // verus!
