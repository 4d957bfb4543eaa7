//! A map from texts to values that remembers the order in which its keys were first inserted.
use vstd::prelude::*;
use vstd::string::*;

verus! {

/// A map with string keys. Every key occurs once, and the keys keep the order of their first
/// insertion.
pub struct StringMap<V> {
    entries: Vec<(String, V)>,
}

/// Whether `entries` has an entry for `key`.
spec fn has_key<V>(entries: Seq<(String, V)>, key: Seq<char>) -> bool {
    exists|i: int| 0 <= i < entries.len() && (#[trigger] entries[i]).0@ == key
}

/// The value of the entry for `key`.
spec fn value_of<V>(entries: Seq<(String, V)>, key: Seq<char>) -> V {
    entries[choose|i: int| 0 <= i < entries.len() && (#[trigger] entries[i]).0@ == key].1
}

impl<V> View for StringMap<V> {
    type V = Map<Seq<char>, V>;

    closed spec fn view(&self) -> Map<Seq<char>, V> {
        Map::new(
            |key: Seq<char>| has_key(self.entries@, key),
            |key: Seq<char>| value_of(self.entries@, key),
        )
    }
}

impl<V> StringMap<V> {
    #[verifier::type_invariant]
    spec fn keys_are_distinct(self) -> bool {
        forall|i: int, j: int|
            0 <= i < j < self.entries@.len() ==> (#[trigger] self.entries@[i]).0@ != (
            #[trigger] self.entries@[j]).0@
    }

    /// The keys, in the order in which they were first inserted.
    pub closed spec fn keys(&self) -> Seq<Seq<char>> {
        self.entries@.map_values(|entry: (String, V)| entry.0@)
    }

    /// Whether the keys are distinct, and are exactly those that have a value.
    pub open spec fn keys_match_entries(&self) -> bool {
        &&& self.keys().no_duplicates()
        &&& forall|key: Seq<char>| #[trigger] self.keys().contains(key) <==> self@.contains_key(key)
    }

    proof fn lemma_keys_match_entries(self)
        requires
            self.keys_are_distinct(),
        ensures
            self.keys_match_entries(),
    {
        let entries = self.entries@;
        assert forall|i: int, j: int|
            0 <= i < self.keys().len() && 0 <= j < self.keys().len() && i
                != j implies self.keys()[i] != self.keys()[j] by {
            assert(self.keys()[i] == entries[i].0@);
            assert(self.keys()[j] == entries[j].0@);
        }
        assert forall|key: Seq<char>| #[trigger] self.keys().contains(key) == has_key(
            entries,
            key,
        ) by {
            if self.keys().contains(key) {
                let i = self.keys().index_of(key);
                assert(entries[i].0@ == key);
            }
            if has_key(entries, key) {
                let i = choose|i: int| 0 <= i < entries.len() && (#[trigger] entries[i]).0@ == key;
                assert(self.keys()[i] == key);
            }
        }
    }

    /// A map without entries.
    pub fn new() -> (map: Self)
        ensures
            map@ == Map::<Seq<char>, V>::empty(),
            map.keys() == Seq::<Seq<char>>::empty(),
    {
        let map = StringMap { entries: Vec::new() };
        assert(map@ =~= Map::<Seq<char>, V>::empty());
        assert(map.keys() =~= Seq::<Seq<char>>::empty());
        map
    }

    /// The number of entries.
    pub fn len(&self) -> (n: usize)
        ensures
            n == self.keys().len(),
            self.keys_match_entries(),
    {
        proof {
            use_type_invariant(self);
            self.lemma_keys_match_entries();
        }
        self.entries.len()
    }

    /// The key at a position.
    pub fn key_at(&self, i: usize) -> (key: &str)
        requires
            i < self.keys().len(),
        ensures
            key@ == self.keys()[i as int],
            self@.contains_key(key@),
    {
        assert(self.entries@[i as int].0@ == self.keys()[i as int]);
        self.entries[i].0.as_str()
    }

    /// The value at a position.
    pub fn value_at(&self, i: usize) -> (value: &V)
        requires
            i < self.keys().len(),
        ensures
            self@.contains_key(self.keys()[i as int]),
            *value == self@[self.keys()[i as int]],
    {
        proof {
            use_type_invariant(self);
            assert(self.entries@[i as int].0@ == self.keys()[i as int]);
        }
        &self.entries[i].1
    }

    /// The position of the entry for a key.
    fn position(&self, key: &str) -> (r: Option<usize>)
        ensures
            match r {
                Some(i) => i < self.entries@.len() && self.entries@[i as int].0@ == key@,
                None => !has_key(self.entries@, key@),
            },
    {
        let wanted = key.to_owned();
        let mut i: usize = 0;
        while i < self.entries.len()
            invariant
                i <= self.entries@.len(),
                wanted@ == key@,
                forall|k: int| 0 <= k < i ==> (#[trigger] self.entries@[k]).0@ != key@,
            decreases self.entries@.len() - i,
        {
            if self.entries[i].0 == wanted {
                return Some(i);
            }
            i = i + 1;
        }
        None
    }

    /// The value for a key, if the map has one.
    pub fn get(&self, key: &str) -> (r: Option<&V>)
        ensures
            match r {
                Some(value) => self@.contains_key(key@) && *value == self@[key@],
                None => !self@.contains_key(key@),
            },
    {
        proof {
            use_type_invariant(self);
        }
        match self.position(key) {
            Some(i) => Some(&self.entries[i].1),
            None => None,
        }
    }

    /// Sets the value for a key. A key that is already there keeps its place in the order.
    pub fn insert(&mut self, key: String, value: V)
        ensures
            final(self)@ == old(self)@.insert(key@, value),
            final(self).keys() == if old(self)@.contains_key(key@) {
                old(self).keys()
            } else {
                old(self).keys().push(key@)
            },
    {
        proof {
            use_type_invariant(&*self);
        }
        let found = self.position(key.as_str());
        let mut entries: Vec<(String, V)> = Vec::new();
        std::mem::swap(&mut entries, &mut self.entries);
        let ghost before = entries@;
        match found {
            Some(i) => {
                entries.set(i, (key, value));
            },
            None => {
                entries.push((key, value));
            },
        }
        self.entries = entries;
        proof {
            let after = entries@;
            let at = match found {
                Some(i) => i as int,
                None => before.len() as int,
            };
            assert(after[at] == (key, value));
            assert forall|k: Seq<char>| has_key(after, k) == (has_key(before, k) || k == key@) by {
                if has_key(before, k) {
                    let j = choose|j: int| 0 <= j < before.len() && (#[trigger] before[j]).0@ == k;
                    assert(after[j].0@ == k);
                }
                if has_key(after, k) && k != key@ {
                    let j = choose|j: int| 0 <= j < after.len() && (#[trigger] after[j]).0@ == k;
                    assert(before[j].0@ == k);
                }
            }
            assert forall|k: Seq<char>| has_key(before, k) && k != key@ implies value_of(after, k)
                == value_of(before, k) by {
                let j = choose|j: int| 0 <= j < before.len() && (#[trigger] before[j]).0@ == k;
                assert(after[j] == before[j]);
                let l = choose|l: int| 0 <= l < after.len() && (#[trigger] after[l]).0@ == k;
                assert(l == j);
            }
            let l = choose|l: int| 0 <= l < after.len() && (#[trigger] after[l]).0@ == key@;
            assert(l == at);
            assert(self@ =~= old(self)@.insert(key@, value));
        }
    }
}

impl<V: Clone> Clone for StringMap<V> {
    fn clone(&self) -> (copy: Self)
        ensures
            copy.keys() == self.keys(),
            copy@.dom() == self@.dom(),
            forall|key: Seq<char>| #[trigger] self@.contains_key(key) ==> cloned(self@[key], copy@[key]),
    {
        proof {
            use_type_invariant(self);
        }
        let mut entries: Vec<(String, V)> = Vec::new();
        let mut i: usize = 0;
        while i < self.entries.len()
            invariant
                i <= self.entries@.len(),
                entries@.len() == i,
                forall|k: int|
                    0 <= k < i ==> (#[trigger] entries@[k]).0@ == self.entries@[k].0@ && cloned(
                        self.entries@[k].1,
                        entries@[k].1,
                    ),
            decreases self.entries@.len() - i,
        {
            entries.push((self.entries[i].0.clone(), self.entries[i].1.clone()));
            i = i + 1;
        }
        let copy = StringMap { entries };
        proof {
            assert(copy.keys() =~= self.keys());
            assert forall|key: Seq<char>| has_key(copy.entries@, key) == has_key(
                self.entries@,
                key,
            ) by {
                if has_key(self.entries@, key) {
                    let j = choose|j: int|
                        0 <= j < self.entries@.len() && (#[trigger] self.entries@[j]).0@ == key;
                    assert(copy.entries@[j].0@ == key);
                }
                if has_key(copy.entries@, key) {
                    let j = choose|j: int|
                        0 <= j < copy.entries@.len() && (#[trigger] copy.entries@[j]).0@ == key;
                    assert(self.entries@[j].0@ == key);
                }
            }
            assert(copy@.dom() =~= self@.dom());
            assert forall|key: Seq<char>| #[trigger] self@.contains_key(key) implies cloned(
                self@[key],
                copy@[key],
            ) by {
                let j = choose|j: int|
                    0 <= j < self.entries@.len() && (#[trigger] self.entries@[j]).0@ == key;
                assert(copy.entries@[j].0@ == key);
                let l = choose|l: int|
                    0 <= l < copy.entries@.len() && (#[trigger] copy.entries@[l]).0@ == key;
                assert(self.entries@[l].0@ == key);
                assert(l == j);
            }
        }
        copy
    }
}

} // verus!
