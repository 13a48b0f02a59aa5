//! A map keyed by strings, for the small registries of a session: requests in flight, live
//! connections, running scans.

use vstd::prelude::*;

use crate::text;

verus! {

/// A map from strings to values of any kind, kept in the order in which its keys first came.
pub struct StrMap<T> {
    entries: Vec<(String, T)>,
}

/// Whether no key occurs twice.
spec fn distinct<T>(entries: Seq<(String, T)>) -> bool {
    forall|i: int, j: int|
        0 <= i < j < entries.len() ==> (#[trigger] entries[i]).0@ != (#[trigger] entries[j]).0@
}

/// Whether `entries` holds the key `k`.
spec fn holds<T>(entries: Seq<(String, T)>, k: Seq<char>) -> bool {
    exists|i: int| 0 <= i < entries.len() && (#[trigger] entries[i]).0@ == k
}

/// A place at which `entries` holds the key `k`.
spec fn place<T>(entries: Seq<(String, T)>, k: Seq<char>) -> int {
    choose|i: int| 0 <= i < entries.len() && (#[trigger] entries[i]).0@ == k
}

/// The map that `entries` writes down.
spec fn map_of<T>(entries: Seq<(String, T)>) -> Map<Seq<char>, T> {
    Map::new(|k: Seq<char>| holds(entries, k), |k: Seq<char>| entries[place(entries, k)].1)
}

/// Whether `values` lists the values of `m`, one for each key.
pub open spec fn lists_values<T>(m: Map<Seq<char>, T>, values: Seq<T>) -> bool {
    exists|keys: Seq<Seq<char>>| #[trigger] lists_keys(m, keys) && values == keys.map_values(|k: Seq<char>| m[k])
}

/// Whether `keys` lists the keys of `m`, each of them once.
pub open spec fn lists_keys<T>(m: Map<Seq<char>, T>, keys: Seq<Seq<char>>) -> bool {
    &&& keys.no_duplicates()
    &&& forall|k: Seq<char>| m.contains_key(k) <==> keys.contains(k)
}

proof fn lemma_at<T>(entries: Seq<(String, T)>, i: int)
    requires
        distinct(entries),
        0 <= i < entries.len(),
    ensures
        place(entries, entries[i].0@) == i,
        map_of(entries).contains_key(entries[i].0@),
        map_of(entries)[entries[i].0@] == entries[i].1,
{
    let p = place(entries, entries[i].0@);
    assert(0 <= p < entries.len() && entries[p].0@ == entries[i].0@);
}

proof fn lemma_push<T>(entries: Seq<(String, T)>, entry: (String, T))
    requires
        distinct(entries),
        !holds(entries, entry.0@),
    ensures
        distinct(entries.push(entry)),
        map_of(entries.push(entry)) == map_of(entries).insert(entry.0@, entry.1),
{
    let after = entries.push(entry);
    assert forall|i: int, j: int| 0 <= i < j < after.len() implies (#[trigger] after[i]).0@ != (
    #[trigger] after[j]).0@ by {
        assert(entries[i].0@ != entry.0@);
    }
    assert forall|k: Seq<char>| #[trigger] holds(after, k) == (k == entry.0@ || holds(entries, k)) by {
        if holds(entries, k) {
            assert(after[place(entries, k)].0@ == k);
        }
        if k == entry.0@ {
            assert(after[entries.len() as int].0@ == k);
        }
        if holds(after, k) && k != entry.0@ {
            assert(entries[place(after, k)].0@ == k);
        }
    }
    assert forall|k: Seq<char>| #[trigger] map_of(after).contains_key(k) implies map_of(after)[k]
        == map_of(entries).insert(entry.0@, entry.1)[k] by {
        let p = place(after, k);
        lemma_at(after, p);
        if k != entry.0@ {
            lemma_at(entries, p);
        }
    }
    assert(map_of(after) =~= map_of(entries).insert(entry.0@, entry.1));
}

proof fn lemma_update<T>(entries: Seq<(String, T)>, i: int, entry: (String, T))
    requires
        distinct(entries),
        0 <= i < entries.len(),
        entries[i].0@ == entry.0@,
    ensures
        distinct(entries.update(i, entry)),
        map_of(entries.update(i, entry)) == map_of(entries).insert(entry.0@, entry.1),
{
    let after = entries.update(i, entry);
    assert forall|a: int, b: int| 0 <= a < b < after.len() implies (#[trigger] after[a]).0@ != (
    #[trigger] after[b]).0@ by {
        assert(entries[a].0@ != entries[b].0@);
    }
    assert forall|k: Seq<char>| #[trigger] holds(after, k) == holds(entries, k) by {
        if holds(entries, k) {
            assert(after[place(entries, k)].0@ == k);
        }
        if holds(after, k) {
            assert(entries[place(after, k)].0@ == k);
        }
    }
    lemma_at(entries, i);
    lemma_at(after, i);
    assert forall|k: Seq<char>| #[trigger] map_of(after).contains_key(k) implies map_of(after)[k]
        == map_of(entries).insert(entry.0@, entry.1)[k] by {
        let p = place(after, k);
        lemma_at(after, p);
        lemma_at(entries, p);
    }
    assert(map_of(after) =~= map_of(entries).insert(entry.0@, entry.1));
}

proof fn lemma_remove<T>(entries: Seq<(String, T)>, i: int)
    requires
        distinct(entries),
        0 <= i < entries.len(),
    ensures
        distinct(entries.remove(i)),
        map_of(entries.remove(i)) == map_of(entries).remove(entries[i].0@),
{
    let after = entries.remove(i);
    let gone = entries[i].0@;
    assert forall|a: int, b: int| 0 <= a < b < after.len() implies (#[trigger] after[a]).0@ != (
    #[trigger] after[b]).0@ by {
        let x = if a < i { a } else { a + 1 };
        let y = if b < i { b } else { b + 1 };
        assert(after[a] == entries[x] && after[b] == entries[y]);
    }
    assert forall|k: Seq<char>| #[trigger] holds(after, k) == (k != gone && holds(entries, k)) by {
        if holds(entries, k) && k != gone {
            let p = place(entries, k);
            let q = if p < i { p } else { p - 1 };
            assert(after[q] == entries[p]);
        }
        if holds(after, k) {
            let q = place(after, k);
            let p = if q < i { q } else { q + 1 };
            assert(after[q] == entries[p]);
            lemma_at(entries, p);
            lemma_at(entries, i);
        }
    }
    assert forall|k: Seq<char>| #[trigger] map_of(after).contains_key(k) implies map_of(after)[k]
        == map_of(entries)[k] by {
        let q = place(after, k);
        let p = if q < i { q } else { q + 1 };
        lemma_at(after, q);
        assert(after[q] == entries[p]);
        lemma_at(entries, p);
    }
    assert(map_of(after) =~= map_of(entries).remove(gone));
}

impl<T> View for StrMap<T> {
    type V = Map<Seq<char>, T>;

    closed spec fn view(&self) -> Map<Seq<char>, T> {
        map_of(self.entries@)
    }
}

impl<T> StrMap<T> {
    #[verifier::type_invariant]
    spec fn keys_differ(self) -> bool {
        distinct(self.entries@)
    }

    /// An empty map.
    pub fn new() -> (m: StrMap<T>)
        ensures
            m@ == Map::<Seq<char>, T>::empty(),
    {
        let m = StrMap { entries: Vec::new() };
        assert(map_of(m.entries@) =~= Map::<Seq<char>, T>::empty());
        m
    }

    /// Where `key` stands among the entries.
    fn find(&self, key: &str) -> (r: Option<usize>)
        ensures
            match r {
                Some(i) => i < self.entries@.len() && self.entries@[i as int].0@ == key@,
                None => !holds(self.entries@, key@),
            },
    {
        let mut i: usize = 0;
        while i < self.entries.len()
            invariant
                i <= self.entries@.len(),
                forall|j: int| 0 <= j < i ==> (#[trigger] self.entries@[j]).0@ != key@,
            decreases self.entries@.len() - i,
        {
            if text::same(self.entries[i].0.as_str(), key) {
                return Some(i);
            }
            i += 1;
        }
        None
    }

    /// Whether the map holds no key.
    pub fn is_empty(&self) -> (r: bool)
        ensures
            r == (self@ == Map::<Seq<char>, T>::empty()),
    {
        proof {
            use_type_invariant(self);
            if self.entries@.len() == 0 {
                assert(self@ =~= Map::<Seq<char>, T>::empty());
            } else {
                lemma_at(self.entries@, 0);
            }
        }
        self.entries.len() == 0
    }

    /// Whether the map holds `key`.
    pub fn contains(&self, key: &str) -> (r: bool)
        ensures
            r == self@.contains_key(key@),
    {
        self.find(key).is_some()
    }

    /// The value under `key`.
    pub fn get(&self, key: &str) -> (r: Option<&T>)
        ensures
            match r {
                Some(v) => self@.contains_key(key@) && *v == self@[key@],
                None => !self@.contains_key(key@),
            },
    {
        proof {
            use_type_invariant(self);
        }
        match self.find(key) {
            Some(i) => {
                proof {
                    lemma_at(self.entries@, i as int);
                }
                Some(&self.entries[i].1)
            },
            None => None,
        }
    }

    /// Puts `value` under `key` and hands back the value that it displaces.
    pub fn insert(&mut self, key: String, value: T) -> (displaced: Option<T>)
        ensures
            final(self)@ == old(self)@.insert(key@, value),
            match displaced {
                Some(v) => old(self)@.contains_key(key@) && v == old(self)@[key@],
                None => !old(self)@.contains_key(key@),
            },
    {
        proof {
            use_type_invariant(&*self);
        }
        let found = self.find(key.as_str());
        let ghost before = self.entries@;
        let mut entries: Vec<(String, T)> = Vec::new();
        std::mem::swap(&mut entries, &mut self.entries);
        match found {
            Some(i) => {
                let displaced = entries.remove(i);
                entries.insert(i, (key, value));
                proof {
                    lemma_at(before, i as int);
                    lemma_update(before, i as int, (key, value));
                    assert(entries@ =~= before.update(i as int, (key, value)));
                }
                self.entries = entries;
                Some(displaced.1)
            },
            None => {
                proof {
                    lemma_push(before, (key, value));
                }
                entries.push((key, value));
                self.entries = entries;
                None
            },
        }
    }

    /// Takes `key` out of the map, with its value.
    pub fn remove(&mut self, key: &str) -> (removed: Option<T>)
        ensures
            final(self)@ == old(self)@.remove(key@),
            match removed {
                Some(v) => old(self)@.contains_key(key@) && v == old(self)@[key@],
                None => !old(self)@.contains_key(key@),
            },
    {
        proof {
            use_type_invariant(&*self);
        }
        match self.find(key) {
            Some(i) => {
                let ghost before = self.entries@;
                let mut entries: Vec<(String, T)> = Vec::new();
                std::mem::swap(&mut entries, &mut self.entries);
                let removed = entries.remove(i);
                proof {
                    lemma_at(before, i as int);
                    lemma_remove(before, i as int);
                }
                self.entries = entries;
                Some(removed.1)
            },
            None => {
                assert(self@.remove(key@) =~= self@);
                None
            },
        }
    }

    /// Empties the map and hands back its values.
    pub fn drain(&mut self) -> (values: Vec<T>)
        ensures
            final(self)@ == Map::<Seq<char>, T>::empty(),
            lists_values(old(self)@, values@),
    {
        proof {
            use_type_invariant(&*self);
        }
        let ghost before = self.entries@;
        let ghost map = self@;
        let mut entries: Vec<(String, T)> = Vec::new();
        std::mem::swap(&mut entries, &mut self.entries);
        assert(self@ =~= Map::<Seq<char>, T>::empty());
        let mut values: Vec<T> = Vec::new();
        for entry in it: entries
            invariant
                it.seq() == before,
                values@ == before.take(it.index()).map_values(|e: (String, T)| e.1),
        {
            values.push(entry.1);
            assert(values@ =~= before.take(it.index() + 1).map_values(|e: (String, T)| e.1));
        }
        proof {
            let keys = before.map_values(|e: (String, T)| e.0@);
            assert forall|k: Seq<char>| map.contains_key(k) <==> keys.contains(k) by {
                if map.contains_key(k) {
                    assert(keys[place(before, k)] == k);
                }
                if keys.contains(k) {
                    let i = choose|i: int| 0 <= i < keys.len() && keys[i] == k;
                    lemma_at(before, i);
                }
            }
            assert forall|i: int, j: int| 0 <= i < keys.len() && 0 <= j < keys.len() && i != j implies keys[i] != keys[j] by {
                if i < j {
                    assert(before[i].0@ != before[j].0@);
                } else {
                    assert(before[j].0@ != before[i].0@);
                }
            }
            assert(lists_keys(map, keys));
            assert forall|i: int| 0 <= i < before.len() implies values@[i] == map[keys[i]] by {
                lemma_at(before, i);
            }
            assert(values@ =~= keys.map_values(|k: Seq<char>| map[k]));
        }
        values
    }
}

/// Whether `m` has `value` under some key.
pub open spec fn is_a_value<T>(m: Map<Seq<char>, T>, value: T) -> bool {
    exists|k: Seq<char>| #[trigger] m.contains_key(k) && m[k] == value
}

/// A listing of a map's values has the value of every key in it, has no other, and has as many as
/// there are keys.
pub proof fn a_listing_has_every_value<T>(m: Map<Seq<char>, T>, values: Seq<T>)
    requires
        lists_values(m, values),
    ensures
        forall|k: Seq<char>| #[trigger] m.contains_key(k) ==> values.contains(m[k]),
        forall|i: int| 0 <= i < values.len() ==> is_a_value(m, #[trigger] values[i]),
        values.len() == m.dom().len(),
        m.dom().finite(),
{
    let keys = choose|keys: Seq<Seq<char>>| #[trigger] lists_keys(m, keys) && values == keys.map_values(|k: Seq<char>| m[k]);
    assert forall|k: Seq<char>| #[trigger] m.contains_key(k) implies values.contains(m[k]) by {
        assert(keys.contains(k));
        let i = choose|i: int| 0 <= i < keys.len() && keys[i] == k;
        assert(values[i] == m[k]);
    }
    assert forall|i: int| 0 <= i < values.len() implies is_a_value(m, #[trigger] values[i]) by {
        assert(keys.contains(keys[i]));
        assert(m.contains_key(keys[i]) && m[keys[i]] == values[i]);
    }
    keys.unique_seq_to_set();
    assert(keys.to_set() =~= m.dom()) by {
        assert forall|k: Seq<char>| keys.to_set().contains(k) <==> m.dom().contains(k) by {
            assert(keys.contains(k) <==> m.contains_key(k));
        }
    }
}

} // verus!
