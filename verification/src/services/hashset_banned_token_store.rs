use vstd::prelude::*;

use crate::domain::{BannedTokenStore, TokenStoreError};

verus! {

/// The banned tokens, kept in memory, each once.
pub struct HashsetBannedTokenStore {
    tokens: Vec<String>,
}

impl HashsetBannedTokenStore {
    /// The banned tokens in the order they were banned.
    pub closed spec fn banned(&self) -> Seq<Seq<char>> {
        self.tokens@.map_values(|t: String| t@)
    }

    /// Whether the token is among those kept.
    fn holds(&self, token: &str) -> (b: bool)
        ensures
            b == self.banned().contains(token@),
    {
        let wanted = token.to_owned();
        let mut i: usize = 0;
        while i < self.tokens.len()
            invariant
                i <= self.tokens@.len(),
                wanted@ == token@,
                forall|j: int| 0 <= j < i ==> self.tokens@[j]@ != token@,
            decreases self.tokens@.len() - i,
        {
            if self.tokens[i] == wanted {
                assert(self.banned()[i as int] == token@);
                return true;
            }
            i = i + 1;
        }
        assert forall|j: int| 0 <= j < self.banned().len() implies self.banned()[j] != token@ by {
            assert(self.banned()[j] == self.tokens@[j]@);
        }
        false
    }
}

impl BannedTokenStore for HashsetBannedTokenStore {
    closed spec fn tokens(&self) -> Set<Seq<char>> {
        self.banned().to_set()
    }

    closed spec fn well_formed(&self) -> bool {
        self.banned().no_duplicates()
    }

    fn ban(&mut self, token: &str) -> (r: Result<(), TokenStoreError>) {
        if !self.holds(token) {
            let ghost old_banned = self.banned();
            self.tokens.push(token.to_owned());
            assert(self.banned() =~= old_banned.push(token@));
            proof {
                old_banned.lemma_push_to_set_commute(token@);
                assert forall|i: int, j: int|
                    0 <= i < self.banned().len() && 0 <= j < self.banned().len() && i != j
                    implies self.banned()[i] != self.banned()[j] by {
                    if i == old_banned.len() {
                        assert(self.banned()[j] == old_banned[j]);
                        assert(old_banned.contains(old_banned[j]));
                    } else if j == old_banned.len() {
                        assert(self.banned()[i] == old_banned[i]);
                        assert(old_banned.contains(old_banned[i]));
                    } else {
                        assert(self.banned()[i] == old_banned[i]);
                        assert(self.banned()[j] == old_banned[j]);
                    }
                }
            }
        } else {
            assert(self.tokens().insert(token@) =~= self.tokens());
        }
        Ok(())
    }

    fn is_banned(&self, token: &str) -> (r: Result<bool, TokenStoreError>) {
        Ok(self.holds(token))
    }
}

impl Default for HashsetBannedTokenStore {
    /// An empty store.
    fn default() -> (r: HashsetBannedTokenStore)
        ensures
            r.well_formed(),
            r.tokens() == Set::<Seq<char>>::empty(),
    {
        let r = HashsetBannedTokenStore { tokens: Vec::new() };
        assert(r.banned() =~= Seq::<Seq<char>>::empty());
        r
    }
}

} // verus!
