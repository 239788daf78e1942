//! A small keyed table with a mathematical view.
//!
//! The tables here hold a handful of entries — one per mouse button, per held
//! key, per outstanding run — so a vector of pairs is both the simplest and
//! the fastest representation. Keys are compared through [`MapKey`], whose
//! contract ties the executable comparison to the keys' views, and the table
//! never holds two entries whose keys have the same view.

use vstd::prelude::*;

verus! {

/// A key that can be compared in executable code exactly as its view is
/// compared in specifications.
pub trait MapKey: View + Sized {
    /// Whether the two keys have the same view.
    fn same(&self, other: &Self) -> (same: bool)
        ensures
            same == (self@ == other@),
    ;
}

impl MapKey for u16 {
    fn same(&self, other: &Self) -> (same: bool) {
        *self == *other
    }
}

/// A table of values by key, no two entries under the same key.
pub struct AssocMap<K: MapKey, V> {
    entries: Vec<(K, V)>,
}

impl<K: MapKey, V> AssocMap<K, V> {
    #[verifier::type_invariant]
    closed spec fn keys_unique(&self) -> bool {
        forall|i: int, j: int|
            0 <= i < j < self.entries@.len() ==> self.entries@[i].0@ != self.entries@[j].0@
    }

    /// The entries, in the order they were first inserted.
    pub closed spec fn entry_seq(&self) -> Seq<(K, V)> {
        self.entries@
    }

    /// An empty table.
    pub fn new() -> (map: Self)
        ensures
            map@ == Map::<K::V, V>::empty(),
            map.entry_seq() == Seq::<(K, V)>::empty(),
    {
        let map = AssocMap { entries: Vec::new() };
        assert(map@ =~= Map::<K::V, V>::empty());
        map
    }

    /// How many entries the table holds.
    pub fn len(&self) -> (n: usize)
        ensures
            n == self.entry_seq().len(),
    {
        self.entries.len()
    }

    /// Where `k` is stored, if anywhere.
    fn find(&self, k: &K) -> (index: Option<usize>)
        ensures
            index is Some <==> self@.contains_key(k@),
            index matches Some(i) ==> i < self.entries@.len() && self.entries@[i as int].0@ == k@
                && self.entries@[i as int].1 == self@[k@],
    {
        proof {
            use_type_invariant(self);
        }
        let mut i: usize = 0;
        while i < self.entries.len()
            invariant
                0 <= i <= self.entries@.len(),
                self.keys_unique(),
                forall|j: int| 0 <= j < i ==> self.entries@[j].0@ != k@,
            decreases self.entries@.len() - i,
        {
            if self.entries[i].0.same(k) {
                proof {
                    assert(self.entries@[i as int].0@ == k@);
                    let j = choose|j: int|
                        0 <= j < self.entries@.len() && self.entries@[j].0@ == k@;
                    if j < i {
                        assert(self.entries@[j].0@ != self.entries@[i as int].0@);
                    } else if j > i {
                        assert(self.entries@[i as int].0@ != self.entries@[j].0@);
                    }
                }
                return Some(i);
            }
            i = i + 1;
        }
        None
    }

    /// Whether some entry is stored under `k`.
    pub fn contains_key(&self, k: &K) -> (found: bool)
        ensures
            found == self@.contains_key(k@),
    {
        self.find(k).is_some()
    }

    /// The value stored under `k`, if any.
    pub fn get(&self, k: &K) -> (value: Option<&V>)
        ensures
            value is Some <==> self@.contains_key(k@),
            value matches Some(v) ==> *v == self@[k@],
    {
        match self.find(k) {
            Some(i) => Some(&self.entries[i].1),
            None => None,
        }
    }

    /// Store `v` under `k`, handing back what was stored there before.
    pub fn insert(&mut self, k: K, v: V) -> (previous: Option<V>)
        ensures
            final(self)@ == old(self)@.insert(k@, v),
            previous is Some <==> old(self)@.contains_key(k@),
            previous matches Some(p) ==> p == old(self)@[k@],
    {
        proof {
            use_type_invariant(&*self);
        }
        let ghost before = self.entries@;
        let ghost key = k@;
        let found = self.find(&k);
        let mut entries: Vec<(K, V)> = Vec::new();
        std::mem::swap(&mut entries, &mut self.entries);
        match found {
            Some(i) => {
                let (_old_key, old_value) = entries.remove(i);
                entries.insert(i, (k, v));
                let ghost after = entries@;
                assert(after == before.update(i as int, (k, v)));
                proof {
                    assert forall|a: int, b: int| 0 <= a < b < after.len() implies after[a].0@
                        != after[b].0@ by {
                        if a != i && b != i {
                            assert(after[a] == before[a] && after[b] == before[b]);
                        } else if a == i {
                            assert(after[b] == before[b]);
                        } else {
                            assert(after[a] == before[a]);
                        }
                    }
                }
                self.entries = entries;
                proof {
                    lemma_view_after_update(before, i as int, k, v, self@);
                }
                Some(old_value)
            },
            None => {
                entries.push((k, v));
                let ghost after = entries@;
                proof {
                    assert forall|a: int, b: int| 0 <= a < b < after.len() implies after[a].0@
                        != after[b].0@ by {
                        if b == before.len() {
                            assert(after[a] == before[a]);
                            assert(!(exists|j: int| 0 <= j < before.len() && before[j].0@ == key));
                        } else {
                            assert(after[a] == before[a] && after[b] == before[b]);
                        }
                    }
                }
                self.entries = entries;
                proof {
                    lemma_view_after_push(before, k, v, self@);
                }
                None
            },
        }
    }

    /// Take the entry under `k` out of the table.
    pub fn remove(&mut self, k: &K) -> (removed: Option<V>)
        ensures
            final(self)@ == old(self)@.remove(k@),
            removed is Some <==> old(self)@.contains_key(k@),
            removed matches Some(r) ==> r == old(self)@[k@],
    {
        proof {
            use_type_invariant(&*self);
        }
        let ghost before = self.entries@;
        let found = self.find(k);
        match found {
            Some(i) => {
                let mut entries: Vec<(K, V)> = Vec::new();
                std::mem::swap(&mut entries, &mut self.entries);
                let (_old_key, old_value) = entries.remove(i);
                let ghost after = entries@;
                assert(after == before.remove(i as int));
                proof {
                    assert forall|a: int, b: int| 0 <= a < b < after.len() implies after[a].0@
                        != after[b].0@ by {
                        let a0 = if a < i { a } else { a + 1 };
                        let b0 = if b < i { b } else { b + 1 };
                        assert(after[a] == before[a0] && after[b] == before[b0]);
                    }
                }
                self.entries = entries;
                proof {
                    lemma_view_after_remove(before, i as int, self@);
                }
                Some(old_value)
            },
            None => {
                assert(self@ =~= self@.remove(k@));
                None
            },
        }
    }

    /// Empty the table, handing back every entry in table order.
    pub fn take_all(&mut self) -> (entries: Vec<(K, V)>)
        ensures
            entries@ == old(self).entry_seq(),
            unique_keys(entries@),
            old(self)@ == entries_map(entries@),
            final(self)@ == Map::<K::V, V>::empty(),
            final(self).entry_seq() == Seq::<(K, V)>::empty(),
    {
        proof {
            use_type_invariant(&*self);
        }
        let mut entries: Vec<(K, V)> = Vec::new();
        std::mem::swap(&mut entries, &mut self.entries);
        assert(self@ =~= Map::<K::V, V>::empty());
        entries
    }

    /// The entry at position `i` in table order.
    pub fn entry_at(&self, i: usize) -> (entry: &(K, V))
        requires
            i < self.entry_seq().len(),
        ensures
            *entry == self.entry_seq()[i as int],
            self@.contains_key(entry.0@),
            self@[entry.0@] == entry.1,
    {
        proof {
            use_type_invariant(self);
            let k = self.entries@[i as int].0@;
            assert(self.entries@[i as int].0@ == k);
            let j = choose|j: int| 0 <= j < self.entries@.len() && self.entries@[j].0@ == k;
            assert(i == j);
        }
        &self.entries[i]
    }
}

impl<K: MapKey, V> View for AssocMap<K, V> {
    type V = Map<K::V, V>;

    closed spec fn view(&self) -> Map<K::V, V> {
        entries_map(self.entries@)
    }
}

/// The map a repeat-free list of entries describes.
pub open spec fn entries_map<K: View, V>(entries: Seq<(K, V)>) -> Map<K::V, V> {
    Map::new(
        |k: K::V| exists|i: int| 0 <= i < entries.len() && entries[i].0@ == k,
        |k: K::V| entries[choose|i: int| 0 <= i < entries.len() && entries[i].0@ == k].1,
    )
}

/// Keys of a list of entries, all distinct.
pub open spec fn unique_keys<K: View, V>(entries: Seq<(K, V)>) -> bool {
    forall|i: int, j: int| 0 <= i < j < entries.len() ==> entries[i].0@ != entries[j].0@
}

proof fn lemma_view_after_update<K: MapKey, V>(
    before: Seq<(K, V)>,
    i: int,
    k: K,
    v: V,
    after_view: Map<K::V, V>,
)
    requires
        0 <= i < before.len(),
        before[i].0@ == k@,
        unique_keys(before),
        unique_keys(before.update(i, (k, v))),
        after_view == entries_map(before.update(i, (k, v))),
    ensures
        after_view == entries_map(before).insert(k@, v),
{
    let after = before.update(i, (k, v));
    assert forall|key: K::V| #[trigger] after_view.contains_key(key) <==> entries_map(before).insert(
        k@,
        v,
    ).contains_key(key) by {
        if exists|j: int| 0 <= j < before.len() && before[j].0@ == key {
            let j = choose|j: int| 0 <= j < before.len() && before[j].0@ == key;
            if j != i {
                assert(after[j] == before[j]);
                assert(after[j].0@ == key);
            }
        }
        if key == k@ {
            assert(after[i] == (k, v));
        }
        if exists|j: int| 0 <= j < after.len() && after[j].0@ == key {
            let j = choose|j: int| 0 <= j < after.len() && after[j].0@ == key;
            if j != i {
                assert(after[j] == before[j]);
                assert(before[j].0@ == key);
            }
        }
    }
    assert forall|key: K::V| #[trigger] after_view.contains_key(key) implies after_view[key]
        == entries_map(before).insert(k@, v)[key] by {
        let j = choose|j: int| 0 <= j < after.len() && after[j].0@ == key;
        if key == k@ {
            assert(j == i);
        } else {
            assert(before[j].0@ == key);
            let j2 = choose|j2: int| 0 <= j2 < before.len() && before[j2].0@ == key;
            assert(j2 == j);
        }
    }
    assert(after_view =~= entries_map(before).insert(k@, v));
}

proof fn lemma_view_after_push<K: MapKey, V>(
    before: Seq<(K, V)>,
    k: K,
    v: V,
    after_view: Map<K::V, V>,
)
    requires
        unique_keys(before),
        unique_keys(before.push((k, v))),
        after_view == entries_map(before.push((k, v))),
    ensures
        after_view == entries_map(before).insert(k@, v),
{
    let after = before.push((k, v));
    assert forall|key: K::V| #[trigger] after_view.contains_key(key) <==> entries_map(before).insert(
        k@,
        v,
    ).contains_key(key) by {
        if exists|j: int| 0 <= j < before.len() && before[j].0@ == key {
            let j = choose|j: int| 0 <= j < before.len() && before[j].0@ == key;
            assert(after[j] == before[j]);
            assert(after[j].0@ == key);
        }
        if key == k@ {
            assert(after[before.len() as int].0@ == key);
        }
        if exists|j: int| 0 <= j < after.len() && after[j].0@ == key {
            let j = choose|j: int| 0 <= j < after.len() && after[j].0@ == key;
            if j < before.len() {
                assert(before[j].0@ == key);
            }
        }
    }
    assert forall|key: K::V| #[trigger] after_view.contains_key(key) implies after_view[key]
        == entries_map(before).insert(k@, v)[key] by {
        let j = choose|j: int| 0 <= j < after.len() && after[j].0@ == key;
        if key == k@ {
            assert(after[before.len() as int].0@ == key);
            if j < before.len() {
                assert(after[j] == before[j]);
            }
            assert(j == before.len());
        } else {
            assert(after[j] == before[j]);
            assert(before[j].0@ == key);
            let j2 = choose|j2: int| 0 <= j2 < before.len() && before[j2].0@ == key;
            assert(j2 == j);
        }
    }
    assert(after_view =~= entries_map(before).insert(k@, v));
}

proof fn lemma_view_after_remove<K: MapKey, V>(
    before: Seq<(K, V)>,
    i: int,
    after_view: Map<K::V, V>,
)
    requires
        0 <= i < before.len(),
        unique_keys(before),
        unique_keys(before.remove(i)),
        after_view == entries_map(before.remove(i)),
    ensures
        after_view == entries_map(before).remove(before[i].0@),
{
    let after = before.remove(i);
    let gone = before[i].0@;
    assert forall|key: K::V| #[trigger] after_view.contains_key(key) <==> entries_map(before).remove(
        gone,
    ).contains_key(key) by {
        if exists|j: int| 0 <= j < before.len() && before[j].0@ == key {
            let j = choose|j: int| 0 <= j < before.len() && before[j].0@ == key;
            if j < i {
                assert(after[j].0@ == key);
            } else if j > i {
                assert(after[j - 1].0@ == key);
            }
        }
        if exists|j: int| 0 <= j < after.len() && after[j].0@ == key {
            let j = choose|j: int| 0 <= j < after.len() && after[j].0@ == key;
            let j0 = if j < i { j } else { j + 1 };
            assert(before[j0].0@ == key);
        }
    }
    assert forall|key: K::V| #[trigger] after_view.contains_key(key) implies after_view[key]
        == entries_map(before).remove(gone)[key] by {
        let j = choose|j: int| 0 <= j < after.len() && after[j].0@ == key;
        let j0 = if j < i { j } else { j + 1 };
        assert(before[j0].0@ == key);
        let j2 = choose|j2: int| 0 <= j2 < before.len() && before[j2].0@ == key;
        assert(j2 == j0);
    }
    assert(after_view =~= entries_map(before).remove(gone));
}

} // verus!
