use vstd::prelude::*;
use crate::email::Email;
use crate::errors::UserStoreError;
use crate::password::Password;
use crate::stores::UserStore;
use crate::user::User;

verus! {

/// An in-memory credential store: a volatile, process-lifetime mapping from
/// email to user of record, suitable for development and tests.  The stored
/// credential is the validated plaintext password itself, matched by
/// equality.
pub struct HashMapUserStore {
    users: Vec<User>,
}

/// The users of record held by `s`: email to (stored credential,
/// requires-2fa flag); a later entry for the same email wins.
pub open spec fn users_map_of(s: Seq<User>) -> Map<Seq<char>, (Seq<char>, bool)>
    decreases s.len(),
{
    if s.len() == 0 {
        Map::empty()
    } else {
        users_map_of(s.drop_last()).insert(
            s.last().email@,
            (s.last().password@, s.last().requires_2fa),
        )
    }
}

proof fn lemma_users_map_contains(s: Seq<User>, e: Seq<char>)
    ensures
        users_map_of(s).contains_key(e) <==> exists|i: int| 0 <= i < s.len() && s[i].email@ == e,
    decreases s.len(),
{
    if s.len() > 0 {
        lemma_users_map_contains(s.drop_last(), e);
        if users_map_of(s).contains_key(e) {
            if s.last().email@ != e {
                let i = choose|i: int| 0 <= i < s.len() - 1 && s.drop_last()[i].email@ == e;
                assert(s[i].email@ == e);
            }
        }
        if exists|i: int| 0 <= i < s.len() && s[i].email@ == e {
            let i = choose|i: int| 0 <= i < s.len() && s[i].email@ == e;
            if i < s.len() - 1 {
                assert(s.drop_last()[i].email@ == e);
            }
        }
    }
}

proof fn lemma_users_map_last_match(s: Seq<User>, i: int)
    requires
        0 <= i < s.len(),
        forall|j: int| i < j < s.len() ==> s[j].email@ != s[i].email@,
    ensures
        users_map_of(s).contains_key(s[i].email@),
        users_map_of(s)[s[i].email@] == (s[i].password@, s[i].requires_2fa),
    decreases s.len(),
{
    if i == s.len() - 1 {
    } else {
        assert(s.drop_last()[i] == s[i]);
        lemma_users_map_last_match(s.drop_last(), i);
    }
}

impl Default for HashMapUserStore {
    /// An empty store.
    fn default() -> (r: Self)
        ensures
            r.users() == Map::<Seq<char>, (Seq<char>, bool)>::empty(),
    {
        HashMapUserStore { users: Vec::new() }
    }
}

impl UserStore for HashMapUserStore {
    closed spec fn users(&self) -> Map<Seq<char>, (Seq<char>, bool)> {
        users_map_of(self.users@)
    }

    open spec fn cred_matches(cred: Seq<char>, password: Seq<char>) -> bool {
        cred == password
    }

    fn add_user(&mut self, user: User) -> (r: Result<(), UserStoreError>)
        ensures
            r is Ok <==> !old(self).users().contains_key(user.email@),
            old(self).users().contains_key(user.email@) ==> r matches Err(
                UserStoreError::UserAlreadyExists,
            ),
    {
        let mut i: usize = 0;
        while i < self.users.len()
            invariant
                i <= self.users@.len(),
                forall|j: int| 0 <= j < i ==> self.users@[j].email@ != user.email@,
            decreases self.users@.len() - i,
        {
            if self.users[i].email == user.email {
                proof {
                    lemma_users_map_contains(self.users@, user.email@);
                }
                return Err(UserStoreError::UserAlreadyExists);
            }
            i = i + 1;
        }
        proof {
            lemma_users_map_contains(self.users@, user.email@);
            assert(old(self).users@.push(user).drop_last() =~= old(self).users@);
        }
        let ghost cred = user.password@;
        self.users.push(user);
        proof {
            assert(Self::cred_matches(cred, cred));
        }
        Ok(())
    }

    fn get_user(&self, email: &Email) -> (r: Result<User, UserStoreError>)
        ensures
            r is Ok <==> self.users().contains_key(email@),
            !self.users().contains_key(email@) ==> r matches Err(UserStoreError::UserNotFound),
    {
        let mut i: usize = self.users.len();
        while i > 0
            invariant
                i <= self.users@.len(),
                forall|j: int| i <= j < self.users@.len() ==> self.users@[j].email@ != email@,
            decreases i,
        {
            i = i - 1;
            if self.users[i].email == *email {
                proof {
                    lemma_users_map_last_match(self.users@, i as int);
                }
                return Ok(self.users[i].clone());
            }
        }
        proof {
            lemma_users_map_contains(self.users@, email@);
        }
        Err(UserStoreError::UserNotFound)
    }

    fn validate_user(&self, email: &Email, password: &Password) -> (r: Result<
        (),
        UserStoreError,
    >)
        ensures
            r is Ok <==> self.users().contains_key(email@) && Self::cred_matches(
                self.users()[email@].0,
                password@,
            ),
            r matches Err(UserStoreError::InvalidCredentials) <==> self.users().contains_key(
                email@,
            ) && !Self::cred_matches(self.users()[email@].0, password@),
            r matches Err(UserStoreError::UserNotFound) <==> !self.users().contains_key(email@),
    {
        let mut i: usize = self.users.len();
        while i > 0
            invariant
                i <= self.users@.len(),
                forall|j: int| i <= j < self.users@.len() ==> self.users@[j].email@ != email@,
            decreases i,
        {
            i = i - 1;
            if self.users[i].email == *email {
                proof {
                    lemma_users_map_last_match(self.users@, i as int);
                }
                if self.users[i].password == *password {
                    return Ok(());
                } else {
                    return Err(UserStoreError::InvalidCredentials);
                }
            }
        }
        proof {
            lemma_users_map_contains(self.users@, email@);
        }
        Err(UserStoreError::UserNotFound)
    }
}

} // verus!
