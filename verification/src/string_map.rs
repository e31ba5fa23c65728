//! A map keyed by strings, kept as a list of entries with distinct keys.
//!
//! The runtime keeps several small maps keyed by app ids, client ids and window
//! labels; this one type holds them all, and its view is a [`Map`] from the
//! keys' characters to the values.

use vstd::prelude::*;

verus! {

broadcast use vstd::string::group_string_axioms;

/// The map a list of entries denotes: each key to the value of its last entry.
pub open spec fn map_of<V>(entries: Seq<(String, V)>) -> Map<Seq<char>, V>
    decreases entries.len(),
{
    if entries.len() == 0 {
        Map::empty()
    } else {
        map_of(entries.drop_last()).insert(entries.last().0@, entries.last().1)
    }
}

/// Whether no two entries share a key.
pub open spec fn distinct_keys<V>(entries: Seq<(String, V)>) -> bool {
    forall|i: int, j: int| 0 <= i < entries.len() && 0 <= j < entries.len() && i != j
        ==> #[trigger] entries[i].0@ != #[trigger] entries[j].0@
}

/// The keys of a map of entries are exactly the entries' keys.
pub proof fn lemma_map_of_dom<V>(entries: Seq<(String, V)>, k: Seq<char>)
    ensures
        map_of(entries).dom().contains(k) <==> exists|i: int| 0 <= i < entries.len() && #[trigger] entries[i].0@ == k,
    decreases entries.len(),
{
    if entries.len() > 0 {
        let d = entries.drop_last();
        lemma_map_of_dom(d, k);
        if map_of(entries).dom().contains(k) {
            if entries.last().0@ != k {
                let i = choose|i: int| 0 <= i < d.len() && #[trigger] d[i].0@ == k;
                assert(entries[i] == d[i]);
            } else {
                assert(entries[entries.len() - 1].0@ == k);
            }
        }
        if exists|i: int| 0 <= i < entries.len() && #[trigger] entries[i].0@ == k {
            let i = choose|i: int| 0 <= i < entries.len() && #[trigger] entries[i].0@ == k;
            if i < entries.len() - 1 {
                assert(d[i] == entries[i]);
            }
        }
    }
}

/// With distinct keys, the entry holding a key gives its value.
pub proof fn lemma_map_of_index<V>(entries: Seq<(String, V)>, i: int)
    requires
        distinct_keys(entries),
        0 <= i < entries.len(),
    ensures
        map_of(entries).dom().contains(entries[i].0@),
        map_of(entries)[entries[i].0@] == entries[i].1,
    decreases entries.len(),
{
    if i < entries.len() - 1 {
        let d = entries.drop_last();
        assert(d[i] == entries[i]);
        assert(distinct_keys(d)) by {
            assert forall|a: int, b: int| 0 <= a < d.len() && 0 <= b < d.len() && a != b
                implies #[trigger] d[a].0@ != #[trigger] d[b].0@ by {
                assert(d[a] == entries[a] && d[b] == entries[b]);
            }
        }
        lemma_map_of_index(d, i);
        assert(entries[entries.len() - 1].0@ != entries[i].0@);
    }
}

/// Replacing the value of an entry, with distinct keys, replaces it in the map.
pub proof fn lemma_map_of_update<V>(entries: Seq<(String, V)>, i: int, v: V)
    requires
        distinct_keys(entries),
        0 <= i < entries.len(),
    ensures
        map_of(entries.update(i, (entries[i].0, v))) == map_of(entries).insert(entries[i].0@, v),
    decreases entries.len(),
{
    let u = entries.update(i, (entries[i].0, v));
    let d = entries.drop_last();
    if i == entries.len() - 1 {
        assert(u.drop_last() =~= d);
        assert(map_of(u) =~= map_of(entries).insert(entries[i].0@, v));
    } else {
        assert(distinct_keys(d)) by {
            assert forall|a: int, b: int| 0 <= a < d.len() && 0 <= b < d.len() && a != b
                implies #[trigger] d[a].0@ != #[trigger] d[b].0@ by {
                assert(d[a] == entries[a] && d[b] == entries[b]);
            }
        }
        assert(d[i] == entries[i]);
        lemma_map_of_update(d, i, v);
        assert(u.drop_last() =~= d.update(i, (d[i].0, v)));
        assert(u.last() == entries.last());
        assert(entries[entries.len() - 1].0@ != entries[i].0@);
        assert(map_of(u) =~= map_of(entries).insert(entries[i].0@, v));
    }
}

/// Removing an entry, with distinct keys, removes its key from the map.
pub proof fn lemma_map_of_remove<V>(entries: Seq<(String, V)>, i: int)
    requires
        distinct_keys(entries),
        0 <= i < entries.len(),
    ensures
        map_of(entries.remove(i)) == map_of(entries).remove(entries[i].0@),
    decreases entries.len(),
{
    let r = entries.remove(i);
    let d = entries.drop_last();
    let k = entries[i].0@;
    if i == entries.len() - 1 {
        assert(r =~= d);
        // the last key occurs nowhere before
        assert(!map_of(d).dom().contains(k)) by {
            lemma_map_of_dom(d, k);
            if exists|j: int| 0 <= j < d.len() && #[trigger] d[j].0@ == k {
                let j = choose|j: int| 0 <= j < d.len() && #[trigger] d[j].0@ == k;
                assert(d[j] == entries[j]);
            }
        }
        assert(map_of(r) =~= map_of(entries).remove(k));
    } else {
        assert(distinct_keys(d)) by {
            assert forall|a: int, b: int| 0 <= a < d.len() && 0 <= b < d.len() && a != b
                implies #[trigger] d[a].0@ != #[trigger] d[b].0@ by {
                assert(d[a] == entries[a] && d[b] == entries[b]);
            }
        }
        assert(d[i] == entries[i]);
        lemma_map_of_remove(d, i);
        assert(r.drop_last() =~= d.remove(i));
        assert(r.last() == entries.last());
        assert(entries[entries.len() - 1].0@ != k);
        assert(map_of(r) =~= map_of(entries).remove(k));
    }
}

/// A map keyed by strings.
#[derive(Debug)]
pub struct StringMap<V> {
    pub entries: Vec<(String, V)>,
}

impl<T> View for StringMap<T> {
    type V = Map<Seq<char>, T>;

    /// The map from each key's characters to its value.
    open spec fn view(&self) -> Map<Seq<char>, T> {
        map_of(self.entries@)
    }
}

impl<V> StringMap<V> {
    /// Whether no two entries share a key.
    pub open spec fn well_formed(&self) -> bool {
        distinct_keys(self.entries@)
    }

    /// An empty map.
    pub fn new() -> (r: StringMap<V>)
        ensures
            r.well_formed(),
            r.view() == Map::<Seq<char>, V>::empty(),
    {
        StringMap { entries: Vec::new() }
    }

    /// The index of the entry for `key`, if there is one.
    pub fn find(&self, key: &str) -> (r: Option<usize>)
        requires
            self.well_formed(),
        ensures
            match r {
                Some(i) => i < self.entries@.len() && self.entries@[i as int].0@ == key@,
                None => forall|j: int| 0 <= j < self.entries@.len() ==> #[trigger] self.entries@[j].0@ != key@,
            },
            r is Some <==> self.view().dom().contains(key@),
    {
        let mut i: usize = 0;
        while i < self.entries.len()
            invariant
                0 <= i <= self.entries@.len(),
                forall|j: int| 0 <= j < i ==> #[trigger] self.entries@[j].0@ != key@,
            decreases self.entries@.len() - i,
        {
            if crate::text::str_equal(self.entries[i].0.as_str(), key) {
                proof {
                    lemma_map_of_dom(self.entries@, key@);
                }
                return Some(i);
            }
            i = i + 1;
        }
        proof {
            lemma_map_of_dom(self.entries@, key@);
        }
        None
    }

    /// The value for `key`, if there is one.
    pub fn get(&self, key: &str) -> (r: Option<&V>)
        requires
            self.well_formed(),
        ensures
            match r {
                Some(v) => self.view().dom().contains(key@) && self.view()[key@] == *v,
                None => !self.view().dom().contains(key@),
            },
    {
        match self.find(key) {
            Some(i) => {
                proof {
                    lemma_map_of_index(self.entries@, i as int);
                }
                Some(&self.entries[i].1)
            },
            None => None,
        }
    }

    /// Whether there is a value for `key`.
    pub fn contains_key(&self, key: &str) -> (r: bool)
        requires
            self.well_formed(),
        ensures
            r == self.view().dom().contains(key@),
    {
        self.find(key).is_some()
    }

    /// Set the value for `key`, replacing any value it had.
    pub fn insert(&mut self, key: String, value: V)
        requires
            old(self).well_formed(),
        ensures
            final(self).well_formed(),
            final(self).view() == old(self).view().insert(key@, value),
    {
        match self.find(key.as_str()) {
            Some(i) => {
                proof {
                    lemma_map_of_update(self.entries@, i as int, value);
                }
                let ghost before = self.entries@;
                let (k, _) = self.entries.remove(i);
                self.entries.insert(i, (k, value));
                proof {
                    assert(self.entries@ =~= before.update(i as int, (before[i as int].0, value)));
                    assert forall|a: int, b: int| 0 <= a < self.entries@.len() && 0 <= b < self.entries@.len() && a != b
                        implies #[trigger] self.entries@[a].0@ != #[trigger] self.entries@[b].0@ by {
                        assert(self.entries@[a].0 == before[a].0 && self.entries@[b].0 == before[b].0);
                    }
                }
            },
            None => {
                let ghost before = self.entries@;
                self.entries.push((key, value));
                proof {
                    assert(self.entries@.drop_last() =~= before);
                    assert forall|a: int, b: int| 0 <= a < self.entries@.len() && 0 <= b < self.entries@.len() && a != b
                        implies #[trigger] self.entries@[a].0@ != #[trigger] self.entries@[b].0@ by {
                        if a < before.len() && b < before.len() {
                            assert(self.entries@[a] == before[a] && self.entries@[b] == before[b]);
                        } else if a < before.len() {
                            assert(self.entries@[a] == before[a]);
                        } else {
                            assert(self.entries@[b] == before[b]);
                        }
                    }
                }
            },
        }
    }

    /// Remove the value for `key`, returning it if there was one.
    pub fn remove(&mut self, key: &str) -> (r: Option<V>)
        requires
            old(self).well_formed(),
        ensures
            final(self).well_formed(),
            final(self).view() == old(self).view().remove(key@),
            match r {
                Some(v) => old(self).view().dom().contains(key@) && old(self).view()[key@] == v,
                None => !old(self).view().dom().contains(key@),
            },
    {
        match self.find(key) {
            Some(i) => {
                let ghost before = self.entries@;
                proof {
                    lemma_map_of_remove(before, i as int);
                    lemma_map_of_index(before, i as int);
                }
                let (_, v) = self.entries.remove(i);
                proof {
                    assert(self.entries@ =~= before.remove(i as int));
                    assert forall|a: int, b: int| 0 <= a < self.entries@.len() && 0 <= b < self.entries@.len() && a != b
                        implies #[trigger] self.entries@[a].0@ != #[trigger] self.entries@[b].0@ by {
                        let a2 = if a < i { a } else { a + 1 };
                        let b2 = if b < i { b } else { b + 1 };
                        assert(self.entries@[a] == before[a2] && self.entries@[b] == before[b2]);
                    }
                }
                Some(v)
            },
            None => {
                proof {
                    assert(self.view() =~= self.view().remove(key@));
                }
                None
            },
        }
    }

    /// The number of keys.
    pub fn len(&self) -> (r: usize)
        requires
            self.well_formed(),
        ensures
            r == self.entries@.len(),
    {
        self.entries.len()
    }
}

} // verus!
