//! An in-memory table keyed by email, the backing of the credential and
//! challenge stores: a vector of entries with pairwise-distinct keys,
//! viewed as a `Map` from the email's characters to the value's view.

use vstd::prelude::*;
use crate::domain::email::Email;

verus! {

/// The map image of an entry sequence, later entries winning.
pub open spec fn entries_map<V: View>(s: Seq<(Email, V)>) -> Map<Seq<char>, V::V>
    decreases s.len(),
{
    if s.len() == 0 {
        Map::empty()
    } else {
        entries_map(s.drop_last()).insert(s.last().0@, s.last().1@)
    }
}

/// No two entries share a key.
pub open spec fn unique_keys<V>(s: Seq<(Email, V)>) -> bool {
    forall|i: int, j: int|
        0 <= i < j < s.len() ==> (#[trigger] s[i]).0@ != (#[trigger] s[j]).0@
}

proof fn lemma_unique_drop_last<V: View>(s: Seq<(Email, V)>)
    requires
        unique_keys(s),
        s.len() > 0,
    ensures
        unique_keys(s.drop_last()),
{
    assert forall|i: int, j: int|
        0 <= i < j < s.drop_last().len() implies (#[trigger] s.drop_last()[i]).0@ != (
    #[trigger] s.drop_last()[j]).0@ by {
        assert(s.drop_last()[i] == s[i]);
        assert(s.drop_last()[j] == s[j]);
    }
}

/// A key that occurs in no entry is not in the map image.
proof fn lemma_entries_map_absent<V: View>(s: Seq<(Email, V)>, k: Seq<char>)
    requires
        forall|i: int| 0 <= i < s.len() ==> (#[trigger] s[i]).0@ != k,
    ensures
        !entries_map(s).dom().contains(k),
    decreases s.len(),
{
    if s.len() > 0 {
        assert forall|i: int|
            0 <= i < s.drop_last().len() implies (#[trigger] s.drop_last()[i]).0@ != k by {
            assert(s.drop_last()[i] == s[i]);
        }
        lemma_entries_map_absent(s.drop_last(), k);
        assert(s.last() == s[s.len() - 1]);
    }
}

/// With distinct keys, every entry is in the map image with its value.
proof fn lemma_entries_map_index<V: View>(s: Seq<(Email, V)>, i: int)
    requires
        unique_keys(s),
        0 <= i < s.len(),
    ensures
        entries_map(s).dom().contains(s[i].0@),
        entries_map(s)[s[i].0@] == s[i].1@,
    decreases s.len(),
{
    if i == s.len() - 1 {
        assert(s.last() == s[i]);
    } else {
        lemma_unique_drop_last(s);
        lemma_entries_map_index(s.drop_last(), i);
        assert(s.drop_last()[i] == s[i]);
        assert(s.last() == s[s.len() - 1]);
        assert(s[i].0@ != s[s.len() - 1].0@);
    }
}

/// Replacing the entry at `i` by one with the same key is `insert`.
proof fn lemma_entries_map_update<V: View>(s: Seq<(Email, V)>, i: int, p: (Email, V))
    requires
        unique_keys(s),
        0 <= i < s.len(),
        p.0@ == s[i].0@,
    ensures
        entries_map(s.update(i, p)) == entries_map(s).insert(p.0@, p.1@),
        unique_keys(s.update(i, p)),
    decreases s.len(),
{
    let t = s.update(i, p);
    let k = p.0@;
    assert forall|a: int, b: int|
        0 <= a < b < t.len() implies (#[trigger] t[a]).0@ != (#[trigger] t[b]).0@ by {
        assert(t[a].0@ == s[a].0@);
        assert(t[b].0@ == s[b].0@);
    }
    if i == s.len() - 1 {
        assert(t.drop_last() =~= s.drop_last());
        assert(t.last() == p);
        assert(s.last() == s[i]);
        assert(entries_map(t) =~= entries_map(s).insert(k, p.1@));
    } else {
        let d = s.drop_last();
        lemma_unique_drop_last(s);
        assert(d[i] == s[i]);
        lemma_entries_map_update(d, i, p);
        assert(t.drop_last() =~= d.update(i, p));
        assert(t.last() == s.last());
        assert(s.last() == s[s.len() - 1]);
        assert(s[i].0@ != s[s.len() - 1].0@);
        assert(entries_map(t) == entries_map(d).insert(k, p.1@).insert(
            s.last().0@,
            s.last().1@,
        ));
        assert(entries_map(t) =~= entries_map(s).insert(k, p.1@));
    }
}

/// Removing the entry at `i` is `remove` of its key.
proof fn lemma_entries_map_remove<V: View>(s: Seq<(Email, V)>, i: int)
    requires
        unique_keys(s),
        0 <= i < s.len(),
    ensures
        entries_map(s.remove(i)) == entries_map(s).remove(s[i].0@),
        unique_keys(s.remove(i)),
    decreases s.len(),
{
    let t = s.remove(i);
    let k = s[i].0@;
    assert forall|a: int, b: int|
        0 <= a < b < t.len() implies (#[trigger] t[a]).0@ != (#[trigger] t[b]).0@ by {
        let a0 = if a < i { a } else { a + 1 };
        let b0 = if b < i { b } else { b + 1 };
        assert(t[a] == s[a0]);
        assert(t[b] == s[b0]);
    }
    if i == s.len() - 1 {
        assert(t =~= s.drop_last());
        assert forall|j: int|
            0 <= j < s.drop_last().len() implies (#[trigger] s.drop_last()[j]).0@ != k by {
            assert(s.drop_last()[j] == s[j]);
            assert(s[j].0@ != s[s.len() - 1].0@);
        }
        lemma_entries_map_absent(s.drop_last(), k);
        assert(s.last() == s[i]);
        assert(entries_map(t) =~= entries_map(s).remove(k));
    } else {
        let d = s.drop_last();
        lemma_unique_drop_last(s);
        assert(d[i] == s[i]);
        lemma_entries_map_remove(d, i);
        assert(t.drop_last() =~= d.remove(i));
        assert(t.last() == s[s.len() - 1]) by {
            assert(t[t.len() - 1] == s[s.len() - 1]);
        }
        assert(s.last() == s[s.len() - 1]);
        assert(s[i].0@ != s[s.len() - 1].0@);
        assert(entries_map(t) == entries_map(d).remove(k).insert(s.last().0@, s.last().1@));
        assert(entries_map(t) =~= entries_map(s).remove(k));
    }
}

/// A vector-backed map from emails to values; at most one entry per
/// email.
pub struct EmailTable<V> {
    entries: Vec<(Email, V)>,
}

impl<V: View> View for EmailTable<V> {
    type V = Map<Seq<char>, V::V>;

    closed spec fn view(&self) -> Map<Seq<char>, V::V> {
        entries_map(self.entries@)
    }
}

impl<V> EmailTable<V> {
    #[verifier::type_invariant]
    spec fn inv(&self) -> bool {
        unique_keys(self.entries@)
    }
}

impl<V: View> EmailTable<V> {
    pub fn new() -> (r: EmailTable<V>)
        ensures
            r@ == Map::<Seq<char>, V::V>::empty(),
    {
        let r = EmailTable { entries: Vec::new() };
        proof {
            assert(r@ =~= Map::<Seq<char>, V::V>::empty());
        }
        r
    }

    fn find(&self, email: &Email) -> (r: Option<usize>)
        ensures
            match r {
                Some(i) => i < self.entries@.len() && self.entries@[i as int].0@ == email@,
                None => forall|j: int|
                    0 <= j < self.entries@.len() ==> (#[trigger] self.entries@[j]).0@ != email@,
            },
    {
        let n = self.entries.len();
        let mut i: usize = 0;
        while i < n
            invariant
                n == self.entries@.len(),
                i <= n,
                forall|j: int| 0 <= j < i ==> (#[trigger] self.entries@[j]).0@ != email@,
            decreases n - i,
        {
            if self.entries[i].0 == *email {
                return Some(i);
            }
            i = i + 1;
        }
        None
    }

    /// Pure lookup of the value stored under `email`.
    pub fn get(&self, email: &Email) -> (r: Option<&V>)
        ensures
            match r {
                Some(v) => self@.dom().contains(email@) && v@ == self@[email@],
                None => !self@.dom().contains(email@),
            },
    {
        proof {
            use_type_invariant(&*self);
        }
        match self.find(email) {
            Some(i) => {
                proof {
                    lemma_entries_map_index(self.entries@, i as int);
                }
                Some(&self.entries[i].1)
            },
            None => {
                proof {
                    lemma_entries_map_absent(self.entries@, email@);
                }
                None
            },
        }
    }

    /// Stores `value` under `email`, replacing any earlier value.
    pub fn insert(&mut self, email: Email, value: V)
        ensures
            final(self)@ == old(self)@.insert(email@, value@),
    {
        proof {
            use_type_invariant(&*self);
        }
        let found = self.find(&email);
        let mut entries: Vec<(Email, V)> = Vec::new();
        std::mem::swap(&mut self.entries, &mut entries);
        let ghost s = entries@;
        match found {
            Some(i) => {
                proof {
                    lemma_entries_map_update(s, i as int, (email, value));
                }
                entries[i] = (email, value);
            },
            None => {
                proof {
                    assert(s.push((email, value)).drop_last() =~= s);
                    assert forall|a: int, b: int|
                        0 <= a < b < s.push((email, value)).len() implies (#[trigger] s.push(
                        (email, value),
                    )[a]).0@ != (#[trigger] s.push((email, value))[b]).0@ by {
                        if b < s.len() {
                            assert(s.push((email, value))[a] == s[a]);
                            assert(s.push((email, value))[b] == s[b]);
                        } else {
                            assert(s.push((email, value))[a] == s[a]);
                            assert(s.push((email, value))[b] == (email, value));
                        }
                    }
                }
                entries.push((email, value));
            },
        }
        self.entries = entries;
    }

    /// Discards the entry stored under `email`, reporting whether there
    /// was one.
    pub fn remove(&mut self, email: &Email) -> (r: bool)
        ensures
            r == old(self)@.dom().contains(email@),
            final(self)@ == old(self)@.remove(email@),
    {
        proof {
            use_type_invariant(&*self);
        }
        let found = self.find(email);
        match found {
            Some(i) => {
                let mut entries: Vec<(Email, V)> = Vec::new();
                std::mem::swap(&mut self.entries, &mut entries);
                proof {
                    lemma_entries_map_index(entries@, i as int);
                    lemma_entries_map_remove(entries@, i as int);
                }
                entries.remove(i);
                self.entries = entries;
                true
            },
            None => {
                proof {
                    lemma_entries_map_absent(self.entries@, email@);
                    assert(self@.remove(email@) =~= self@);
                }
                false
            },
        }
    }
}

} // verus!
