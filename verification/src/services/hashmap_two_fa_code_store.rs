use vstd::prelude::*;

use super::assoc::{
    assoc_map, keys_distinct, lemma_assoc_contains, lemma_assoc_lookup, lemma_assoc_remove,
    lemma_assoc_update, lemma_push_distinct,
};
use crate::domain::{Email, LoginAttemptId, TwoFACode, TwoFACodeStore, TwoFACodeStoreError};

verus! {

/// The pending second factors, kept in memory, one per e-mail address.
pub struct HashmapTwoFACodeStore {
    codes: Vec<(Email, LoginAttemptId, TwoFACode)>,
}

/// The model of one stored entry: its address, then its attempt and code.
pub open spec fn code_entry(e: (Email, LoginAttemptId, TwoFACode)) -> (Seq<char>, (u128, Seq<char>)) {
    (e.0@, (e.1@, e.2@))
}

impl HashmapTwoFACodeStore {
    /// The entries as (address, (attempt, code)) pairs.
    pub closed spec fn entries(&self) -> Seq<(Seq<char>, (u128, Seq<char>))> {
        self.codes@.map_values(|e: (Email, LoginAttemptId, TwoFACode)| code_entry(e))
    }

    /// The position of the entry for this address, if there is one.
    fn find(&self, email: &Email) -> (r: Option<usize>)
        requires
            self.well_formed(),
        ensures
            match r {
                Some(i) => i < self.codes@.len() && self.codes@[i as int].0@ == email@
                    && self.codes().contains_key(email@) && self.codes()[email@] == code_entry(
                    self.codes@[i as int],
                ).1,
                None => !self.codes().contains_key(email@),
            },
    {
        let mut i: usize = 0;
        while i < self.codes.len()
            invariant
                i <= self.codes@.len(),
                keys_distinct(self.entries()),
                forall|j: int| 0 <= j < i ==> self.codes@[j].0@ != email@,
            decreases self.codes@.len() - i,
        {
            if self.codes[i].0.same_as(email) {
                proof {
                    assert(self.entries()[i as int] == code_entry(self.codes@[i as int]));
                    lemma_assoc_lookup(self.entries(), i as int);
                }
                return Some(i);
            }
            i = i + 1;
        }
        proof {
            lemma_assoc_contains(self.entries(), email@);
            assert forall|j: int| 0 <= j < self.entries().len() implies self.entries()[j].0
                != email@ by {
                assert(self.entries()[j] == code_entry(self.codes@[j]));
            }
        }
        None
    }
}

impl TwoFACodeStore for HashmapTwoFACodeStore {
    closed spec fn codes(&self) -> Map<Seq<char>, (u128, Seq<char>)> {
        assoc_map(self.entries())
    }

    closed spec fn well_formed(&self) -> bool {
        keys_distinct(self.entries())
    }

    fn add_code(&mut self, email: Email, login_attempt_id: LoginAttemptId, code: TwoFACode) -> (r:
        Result<(), TwoFACodeStoreError>) {
        let ghost old_entries = self.entries();
        let ghost entry = (email, login_attempt_id, code);
        match self.find(&email) {
            Some(i) => {
                proof {
                    assert(old_entries[i as int].0 == email@);
                    lemma_assoc_update(old_entries, i as int, code_entry(entry).1);
                }
                self.codes.set(i, (email, login_attempt_id, code));
                assert(self.entries() =~= old_entries.update(
                    i as int,
                    (old_entries[i as int].0, code_entry(entry).1),
                ));
            },
            None => {
                proof {
                    lemma_assoc_contains(old_entries, email@);
                    lemma_push_distinct(old_entries, code_entry(entry));
                }
                self.codes.push((email, login_attempt_id, code));
                assert(self.entries() =~= old_entries.push(code_entry(entry)));
                assert(self.entries().drop_last() =~= old_entries);
            },
        }
        Ok(())
    }

    fn remove_code(&mut self, email: &Email) -> (r: Result<(), TwoFACodeStoreError>) {
        let ghost old_entries = self.entries();
        match self.find(email) {
            Some(i) => {
                proof {
                    assert(old_entries[i as int].0 == email@);
                    lemma_assoc_remove(old_entries, i as int);
                }
                self.codes.remove(i);
                assert(self.entries() =~= old_entries.remove(i as int));
                Ok(())
            },
            None => {
                assert(assoc_map(old_entries).remove(email@) =~= assoc_map(old_entries));
                Err(TwoFACodeStoreError::LoginAttemptIdNotFound)
            },
        }
    }

    fn get_code(&self, email: &Email) -> (r: Result<(LoginAttemptId, TwoFACode), TwoFACodeStoreError>) {
        match self.find(email) {
            Some(i) => Ok((self.codes[i].1.duplicate(), self.codes[i].2.duplicate())),
            None => Err(TwoFACodeStoreError::LoginAttemptIdNotFound),
        }
    }
}

impl Default for HashmapTwoFACodeStore {
    /// An empty store.
    fn default() -> (r: HashmapTwoFACodeStore)
        ensures
            r.well_formed(),
            r.codes() == Map::<Seq<char>, (u128, Seq<char>)>::empty(),
    {
        let r = HashmapTwoFACodeStore { codes: Vec::new() };
        assert(r.entries() =~= Seq::<(Seq<char>, (u128, Seq<char>))>::empty());
        r
    }
}

} // verus!
