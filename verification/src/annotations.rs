//! Annotation sets: string keys mapped to string values.

use vstd::prelude::*;

verus! {

/// The annotations of one cluster resource.
///
/// The entries are kept in insertion order, but the order carries no meaning:
/// the value of the type is the map from key to value that [`View`] gives.
/// No key occurs twice.
#[derive(Debug)]
pub struct Annotations {
    entries: Vec<(String, String)>,
}

/// Whether `entries` holds `key` at position `i`.
spec fn key_at(entries: Seq<(String, String)>, i: int, key: Seq<char>) -> bool {
    0 <= i < entries.len() && entries[i].0@ == key
}

impl View for Annotations {
    type V = Map<Seq<char>, Seq<char>>;

    closed spec fn view(&self) -> Map<Seq<char>, Seq<char>> {
        Map::new(
            |k: Seq<char>| exists|i: int| key_at(self.entries@, i, k),
            |k: Seq<char>| self.entries@[choose|i: int| key_at(self.entries@, i, k)].1@,
        )
    }
}

impl Annotations {
    #[verifier::type_invariant]
    spec fn keys_distinct(self) -> bool {
        forall|i: int, j: int|
            0 <= i < j < self.entries@.len() ==> self.entries@[i].0@ != self.entries@[j].0@
    }

    /// An annotation set without entries.
    pub fn new() -> (annotations: Self)
        ensures
            annotations@ == Map::<Seq<char>, Seq<char>>::empty(),
    {
        let annotations = Annotations { entries: Vec::new() };
        annotations
    }

    /// The number of entries.
    pub fn len(&self) -> (n: usize)
        ensures
            n == self@.dom().len(),
            self@.dom().finite(),
    {
        proof {
            use_type_invariant(self);
            self.lemma_dom_len();
        }
        self.entries.len()
    }

    proof fn lemma_dom_len(self)
        requires
            self.keys_distinct(),
        ensures
            self@.dom().finite(),
            self@.dom().len() == self.entries@.len(),
    {
        let keys = self.entries@.map_values(|e: (String, String)| e.0@);
        keys.unique_seq_to_set();
        assert(keys.to_set() =~= self@.dom()) by {
            assert forall|k: Seq<char>| keys.to_set().contains(k) implies self@.dom().contains(k) by {
                let i = choose|i: int| 0 <= i < keys.len() && keys[i] == k;
                assert(key_at(self.entries@, i, k));
            }
            assert forall|k: Seq<char>| self@.dom().contains(k) implies keys.to_set().contains(k) by {
                let i = choose|i: int| key_at(self.entries@, i, k);
                assert(keys[i] == k);
            }
        }
    }

    /// Stores `value` under `key` and returns the value that was stored there
    /// before, if there was one.
    pub fn insert(&mut self, key: String, value: String) -> (previous: Option<String>)
        ensures
            final(self)@ == old(self)@.insert(key@, value@),
            match previous {
                Some(p) => old(self)@.contains_key(key@) && old(self)@[key@] == p@,
                None => !old(self)@.contains_key(key@),
            },
    {
        proof {
            use_type_invariant(&*self);
        }
        let ghost before = self.entries@;
        let mut entries: Vec<(String, String)> = Vec::new();
        std::mem::swap(&mut self.entries, &mut entries);
        let mut i: usize = 0;
        while i < entries.len() && entries[i].0 != key
            invariant
                i <= entries@.len(),
                forall|j: int| 0 <= j < i ==> entries@[j].0@ != key@,
            decreases entries@.len() - i,
        {
            i += 1;
        }
        let previous = if i < entries.len() {
            let stored = entries[i].1.clone();
            entries.set(i, (key, value));
            Some(stored)
        } else {
            entries.push((key, value));
            None
        };
        proof {
            assert(previous is Some ==> key_at(before, i as int, key@));
            assert forall|j: int| 0 <= j < entries@.len() implies #[trigger] entries@[j].0@ == (if j == i {
                key@
            } else {
                before[j].0@
            }) by {}
        }
        std::mem::swap(&mut self.entries, &mut entries);
        proof {
            let after = self.entries@;
            assert(final(self)@ =~= old(self)@.insert(key@, value@)) by {
                assert forall|k: Seq<char>| old(self)@.contains_key(k) implies #[trigger] self@.contains_key(k) by {
                    let j = choose|j: int| key_at(before, j, k);
                    assert(key_at(after, j, k));
                }
                assert forall|k: Seq<char>| #[trigger] self@.contains_key(k) && k != key@ implies old(self)@.contains_key(k)
                    && self@[k] == old(self)@[k] by {
                    let j = choose|j: int| key_at(after, j, k);
                    assert(key_at(before, j, k));
                }
                assert(key_at(after, i as int, key@));
            }
        }
        previous
    }

    /// The value stored under `key`, if there is one.
    pub fn get(&self, key: &str) -> (value: Option<&String>)
        ensures
            match value {
                Some(v) => self@.contains_key(key@) && self@[key@] == v@,
                None => !self@.contains_key(key@),
            },
    {
        proof {
            use_type_invariant(self);
        }
        let wanted = key.to_owned();
        let mut i: usize = 0;
        while i < self.entries.len()
            invariant
                i <= self.entries@.len(),
                self.keys_distinct(),
                wanted@ == key@,
                forall|j: int| 0 <= j < i ==> self.entries@[j].0@ != key@,
            decreases self.entries@.len() - i,
        {
            if self.entries[i].0 == wanted {
                assert(key_at(self.entries@, i as int, key@));
                return Some(&self.entries[i].1);
            }
            i += 1;
        }
        None
    }
}

} // verus!
