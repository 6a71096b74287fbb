use vstd::prelude::*;

use super::assoc::{
    assoc_map, keys_distinct, lemma_assoc_contains, lemma_assoc_lookup, lemma_push_distinct,
};
use crate::domain::{Email, Password, User, UserModel, UserStore, UserStoreError};

verus! {

/// The users of the service, kept in memory, one per e-mail address.
pub struct HashMapUserStore {
    users: Vec<User>,
}

impl HashMapUserStore {
    /// The users as (address, user) pairs, in the order they were added.
    pub closed spec fn entries(&self) -> Seq<(Seq<char>, UserModel)> {
        self.users@.map_values(|u: User| (u@.email, u@))
    }

    /// The position of the user with this address, if there is one.
    fn find(&self, email: &Email) -> (r: Option<usize>)
        requires
            self.well_formed(),
        ensures
            match r {
                Some(i) => i < self.users@.len() && self.users@[i as int]@.email == email@
                    && self.users().contains_key(email@) && self.users()[email@]
                    == self.users@[i as int]@,
                None => !self.users().contains_key(email@),
            },
    {
        let mut i: usize = 0;
        while i < self.users.len()
            invariant
                i <= self.users@.len(),
                keys_distinct(self.entries()),
                forall|j: int| 0 <= j < i ==> self.users@[j]@.email != email@,
            decreases self.users@.len() - i,
        {
            if self.users[i].email().same_as(email) {
                proof {
                    assert(self.entries()[i as int] == (self.users@[i as int]@.email, self.users@[i as int]@));
                    lemma_assoc_lookup(self.entries(), i as int);
                }
                return Some(i);
            }
            i = i + 1;
        }
        proof {
            lemma_assoc_contains(self.entries(), email@);
            assert forall|j: int| 0 <= j < self.entries().len() implies self.entries()[j].0
                != email@ by {
                assert(self.entries()[j].0 == self.users@[j]@.email);
            }
        }
        None
    }
}

impl UserStore for HashMapUserStore {
    closed spec fn users(&self) -> Map<Seq<char>, UserModel> {
        assoc_map(self.entries())
    }

    closed spec fn well_formed(&self) -> bool {
        keys_distinct(self.entries())
    }

    fn add_user(&mut self, user: User) -> (r: Result<(), UserStoreError>) {
        match self.find(user.email()) {
            Some(_) => Err(UserStoreError::UserAlreadyExists),
            None => {
                let ghost old_entries = self.entries();
                let ghost key = user@.email;
                let ghost model = user@;
                proof {
                    lemma_assoc_contains(old_entries, key);
                    lemma_push_distinct(old_entries, (key, model));
                }
                self.users.push(user);
                assert(self.entries() =~= old_entries.push((key, model)));
                assert(self.entries().drop_last() =~= old_entries);
                Ok(())
            },
        }
    }

    fn get_user(&self, email: &Email) -> (r: Result<User, UserStoreError>) {
        match self.find(email) {
            Some(i) => Ok(self.users[i].duplicate()),
            None => Err(UserStoreError::UserNotFound),
        }
    }

    fn validate_user(&self, email: &Email, password: &Password) -> (r: Result<(), UserStoreError>) {
        match self.find(email) {
            None => Err(UserStoreError::UserNotFound),
            Some(i) => {
                if !self.users[i].validate(email, password) {
                    Err(UserStoreError::InvalidCredentials)
                } else {
                    Ok(())
                }
            },
        }
    }
}

impl HashMapUserStore {
    /// Every stored user is filed under its own e-mail address.
    pub proof fn law_users_filed_under_own_address(&self)
        requires
            self.well_formed(),
        ensures
            forall|k: Seq<char>| #[trigger]
                self.users().contains_key(k) ==> self.users()[k].email == k,
    {
        assert forall|k: Seq<char>| #[trigger] self.users().contains_key(k) implies self.users()[k].email
            == k by {
            lemma_assoc_contains(self.entries(), k);
            let i = choose|i: int| 0 <= i < self.entries().len() && self.entries()[i].0 == k;
            lemma_assoc_lookup(self.entries(), i);
        }
    }
}

impl Default for HashMapUserStore {
    /// An empty store.
    fn default() -> (r: HashMapUserStore)
        ensures
            r.well_formed(),
            r.users() == Map::<Seq<char>, UserModel>::empty(),
    {
        let r = HashMapUserStore { users: Vec::new() };
        assert(r.entries() =~= Seq::<(Seq<char>, UserModel)>::empty());
        r
    }
}

} // verus!
