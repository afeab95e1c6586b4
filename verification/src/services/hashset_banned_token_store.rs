//! The in-memory revocation store: a grow-only collection of raw token
//! strings.

use vstd::prelude::*;
use crate::domain::data_stores::BannedTokenStore;
use crate::text::str_eq;

verus! {

/// The set image of a sequence of strings.
pub open spec fn token_set(s: Seq<String>) -> Set<Seq<char>>
    decreases s.len(),
{
    if s.len() == 0 {
        Set::empty()
    } else {
        token_set(s.drop_last()).insert(s.last()@)
    }
}

proof fn lemma_token_set_contains(s: Seq<String>, k: Seq<char>)
    ensures
        token_set(s).contains(k) <==> exists|i: int| 0 <= i < s.len() && (#[trigger] s[i])@ == k,
    decreases s.len(),
{
    if s.len() > 0 {
        lemma_token_set_contains(s.drop_last(), k);
        assert(s.last() == s[s.len() - 1]);
        assert forall|i: int| 0 <= i < s.drop_last().len() implies s.drop_last()[i] == s[i] by {}
        if token_set(s).contains(k) {
            if s.last()@ != k {
                let i = choose|i: int| 0 <= i < s.drop_last().len() && (#[trigger] s.drop_last()[i])@ == k;
                assert(s[i]@ == k);
            }
        }
        if exists|i: int| 0 <= i < s.len() && (#[trigger] s[i])@ == k {
            let i = choose|i: int| 0 <= i < s.len() && (#[trigger] s[i])@ == k;
            if i < s.len() - 1 {
                assert(s.drop_last()[i]@ == k);
            }
        }
    }
}

/// Volatile revocation store; entries are never removed.
pub struct HashsetBannedTokenStore {
    tokens: Vec<String>,
}

impl HashsetBannedTokenStore {
    /// An empty store.
    pub fn new() -> (r: HashsetBannedTokenStore)
        ensures
            r.banned() == Set::<Seq<char>>::empty(),
    {
        HashsetBannedTokenStore { tokens: Vec::new() }
    }
}

impl BannedTokenStore for HashsetBannedTokenStore {
    closed spec fn banned(&self) -> Set<Seq<char>> {
        token_set(self.tokens@)
    }

    fn store_token(&mut self, token: &str) {
        let owned = token.to_owned();
        self.tokens.push(owned);
        proof {
            assert(self.tokens@.drop_last() =~= old(self).tokens@);
        }
    }

    fn is_banned(&self, token: &str) -> (r: bool) {
        let n = self.tokens.len();
        let mut i: usize = 0;
        while i < n
            invariant
                n == self.tokens@.len(),
                i <= n,
                forall|j: int| 0 <= j < i ==> (#[trigger] self.tokens@[j])@ != token@,
            decreases n - i,
        {
            if str_eq(self.tokens[i].as_str(), token) {
                proof {
                    lemma_token_set_contains(self.tokens@, token@);
                }
                return true;
            }
            i = i + 1;
        }
        proof {
            lemma_token_set_contains(self.tokens@, token@);
        }
        false
    }
}

} // verus!
