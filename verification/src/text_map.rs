//! A mapping with text keys.
//!
//! vstd specifies `std::collections::HashMap` only for key types that are
//! known to obey its key model, and `String` is not among them; its own
//! `StringHashMap` cannot be walked. So the mapping is kept as a list of
//! entries in which no key occurs twice, and every operation is proved
//! against the `Map` that the list stands for.

use crate::text::same_text;
use vstd::prelude::*;

verus! {

/// Whether some entry of `entries` has the key `key`.
pub open spec fn has_key<V>(entries: Seq<(String, V)>, key: Seq<char>) -> bool {
    exists|i: int| 0 <= i < entries.len() && entries[i].0@ == key
}

/// The place of an entry of `entries` that has the key `key`.
pub open spec fn position<V>(entries: Seq<(String, V)>, key: Seq<char>) -> int {
    choose|i: int| 0 <= i < entries.len() && entries[i].0@ == key
}

/// No two entries of `entries` have the same key.
pub open spec fn distinct_keys<V>(entries: Seq<(String, V)>) -> bool {
    forall|i: int, j: int| 0 <= i < j < entries.len() ==> entries[i].0@ != entries[j].0@
}

/// The mapping that a list of entries with distinct keys stands for.
pub open spec fn mapping<V>(entries: Seq<(String, V)>) -> Map<Seq<char>, V> {
    Map::new(
        |key: Seq<char>| has_key(entries, key),
        |key: Seq<char>| entries[position(entries, key)].1,
    )
}

/// Every entry of a list with distinct keys is in the mapping the list
/// stands for, and the mapping has no other key.
pub proof fn lemma_mapping_entries<V>(entries: Seq<(String, V)>)
    requires
        distinct_keys(entries),
    ensures
        forall|i: int|
            0 <= i < entries.len() ==> mapping(entries).contains_key(#[trigger] entries[i].0@)
                && mapping(entries)[entries[i].0@] == entries[i].1,
        forall|key: Seq<char>| #[trigger]
            mapping(entries).contains_key(key) ==> has_key(entries, key),
{
    assert forall|i: int| 0 <= i < entries.len() implies mapping(entries).contains_key(
        #[trigger] entries[i].0@,
    ) && mapping(entries)[entries[i].0@] == entries[i].1 by {
        assert(has_key(entries, entries[i].0@));
        assert(position(entries, entries[i].0@) == i);
    }
}

/// A mapping from text keys to values, kept as a list of entries in which
/// no key occurs twice. Its view is the mapping from each key's characters
/// to its value.
#[derive(Debug)]
pub struct TextMap<V> {
    entries: Vec<(String, V)>,
}

impl<V> View for TextMap<V> {
    type V = Map<Seq<char>, V>;

    closed spec fn view(&self) -> Map<Seq<char>, V> {
        mapping(self.entries@)
    }
}

impl<V> TextMap<V> {
    #[verifier::type_invariant]
    spec fn keys_are_distinct(self) -> bool {
        distinct_keys(self.entries@)
    }

    /// The empty mapping.
    pub fn new() -> (m: Self)
        ensures
            m@ == Map::<Seq<char>, V>::empty(),
    {
        let m = TextMap { entries: Vec::new() };
        assert(m@ =~= Map::<Seq<char>, V>::empty());
        m
    }

    /// Whether the mapping has no key at all.
    pub fn is_empty(&self) -> (empty: bool)
        ensures
            empty == (self@ == Map::<Seq<char>, V>::empty()),
    {
        let empty = self.entries.len() == 0;
        proof {
            if empty {
                assert(self@ =~= Map::<Seq<char>, V>::empty());
            } else {
                assert(has_key(self.entries@, self.entries@[0].0@));
                assert(self@.contains_key(self.entries@[0].0@));
            }
        }
        empty
    }

    /// The place of `key` among the entries, if it is there.
    fn find(&self, key: &str) -> (place: Option<usize>)
        ensures
            match place {
                Some(i) => i < self.entries@.len() && self.entries@[i as int].0@ == key@,
                None => !has_key(self.entries@, key@),
            },
    {
        let mut i: usize = 0;
        while i < self.entries.len()
            invariant
                i <= self.entries@.len(),
                forall|j: int| 0 <= j < i ==> self.entries@[j].0@ != key@,
            decreases self.entries@.len() - i,
        {
            if same_text(self.entries[i].0.as_str(), key) {
                return Some(i);
            }
            i += 1;
        }
        None
    }

    /// Whether `key` has a value.
    pub fn contains_key(&self, key: &str) -> (found: bool)
        ensures
            found == self@.contains_key(key@),
    {
        self.find(key).is_some()
    }

    /// The value of `key`, if it has one.
    pub fn get(&self, key: &str) -> (value: Option<&V>)
        ensures
            match value {
                Some(v) => self@.contains_key(key@) && *v == self@[key@],
                None => !self@.contains_key(key@),
            },
    {
        match self.find(key) {
            Some(i) => {
                proof {
                    use_type_invariant(self);
                    assert(has_key(self.entries@, key@));
                    assert(position(self.entries@, key@) == i);
                }
                Some(&self.entries[i].1)
            },
            None => None,
        }
    }

    /// Gives `key` the value `value`, in place of any value it had.
    pub fn insert(&mut self, key: String, value: V)
        ensures
            final(self)@ == old(self)@.insert(key@, value),
    {
        proof {
            use_type_invariant(&*self);
        }
        let ghost before = self.entries@;
        let place = self.find(key.as_str());
        let mut entries: Vec<(String, V)> = Vec::new();
        core::mem::swap(&mut self.entries, &mut entries);
        match place {
            Some(i) => {
                entries.set(i, (key, value));
                proof {
                    let after = entries@;
                    assert forall|k: Seq<char>| has_key(after, k) == (has_key(before, k) || k == key@) by {
                        if has_key(before, k) {
                            let j = position(before, k);
                            assert(after[j].0@ == k);
                        }
                        if has_key(after, k) {
                            let j = position(after, k);
                            assert(before[j].0@ == k);
                        }
                    }
                    assert forall|k: Seq<char>| has_key(after, k) implies mapping(after)[k] == mapping(
                        before,
                    ).insert(key@, value)[k] by {
                        let j = position(after, k);
                        if k != key@ {
                            assert(before[j].0@ == k);
                            assert(position(before, k) == j);
                        } else {
                            assert(j == i);
                        }
                    }
                    assert(mapping(after) =~= mapping(before).insert(key@, value));
                }
            },
            None => {
                entries.push((key, value));
                proof {
                    let after = entries@;
                    let n = before.len() as int;
                    assert forall|k: Seq<char>| has_key(after, k) == (has_key(before, k) || k == key@) by {
                        if has_key(before, k) {
                            let j = position(before, k);
                            assert(after[j].0@ == k);
                        }
                        if k == key@ {
                            assert(after[n].0@ == k);
                        }
                        if has_key(after, k) {
                            let j = position(after, k);
                            if j < n {
                                assert(before[j].0@ == k);
                            }
                        }
                    }
                    assert forall|k: Seq<char>| has_key(after, k) implies mapping(after)[k] == mapping(
                        before,
                    ).insert(key@, value)[k] by {
                        let j = position(after, k);
                        if k != key@ {
                            assert(j < n);
                            assert(before[j].0@ == k);
                            assert(position(before, k) == j);
                        } else {
                            assert(j == n);
                        }
                    }
                    assert(mapping(after) =~= mapping(before).insert(key@, value));
                }
            },
        }
        self.entries = entries;
    }

    /// Takes `key` and its value out of the mapping and returns the value,
    /// if there was one.
    pub fn remove(&mut self, key: &str) -> (value: Option<V>)
        ensures
            final(self)@ == old(self)@.remove(key@),
            match value {
                Some(v) => old(self)@.contains_key(key@) && v == old(self)@[key@],
                None => !old(self)@.contains_key(key@),
            },
    {
        proof {
            use_type_invariant(&*self);
        }
        let ghost before = self.entries@;
        match self.find(key) {
            Some(i) => {
                let mut entries: Vec<(String, V)> = Vec::new();
                core::mem::swap(&mut self.entries, &mut entries);
                let entry = entries.remove(i);
                proof {
                    let after = entries@;
                    assert(has_key(before, key@));
                    assert(position(before, key@) == i);
                    assert forall|k: Seq<char>| has_key(after, k) == (has_key(before, k) && k != key@) by {
                        if has_key(before, k) && k != key@ {
                            let j = position(before, k);
                            if j < i {
                                assert(after[j].0@ == k);
                            } else {
                                assert(after[j - 1].0@ == k);
                            }
                        }
                        if has_key(after, k) {
                            let j = position(after, k);
                            if j < i {
                                assert(before[j].0@ == k);
                            } else {
                                assert(before[j + 1].0@ == k);
                            }
                        }
                    }
                    assert forall|k: Seq<char>| has_key(after, k) implies mapping(after)[k] == mapping(
                        before,
                    )[k] by {
                        let j = position(after, k);
                        if j < i {
                            assert(before[j].0@ == k);
                            assert(position(before, k) == j);
                        } else {
                            assert(before[j + 1].0@ == k);
                            assert(position(before, k) == j + 1);
                        }
                    }
                    assert(mapping(after) =~= mapping(before).remove(key@));
                }
                self.entries = entries;
                Some(entry.1)
            },
            None => {
                assert(mapping(before) =~= mapping(before).remove(key@));
                None
            },
        }
    }

    /// The entries of the mapping, each key once: every entry gives a
    /// key with its value, and every key has its entry.
    pub fn entries(&self) -> (list: &Vec<(String, V)>)
        ensures
            distinct_keys(list@),
            self@ == mapping(list@),
            forall|i: int|
                0 <= i < list@.len() ==> self@.contains_key(#[trigger] list@[i].0@)
                    && self@[list@[i].0@] == list@[i].1,
            forall|key: Seq<char>| #[trigger] self@.contains_key(key) ==> has_key(list@, key),
    {
        proof {
            use_type_invariant(self);
            lemma_mapping_entries(self.entries@);
        }
        &self.entries
    }
}

} // verus!
