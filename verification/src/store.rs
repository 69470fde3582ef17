//! A keyed store of values, one per key.
//!
//! The store stands where the host offers a durable key-value space. It
//! keeps its entries in a vector in which no key occurs twice, and finds
//! them by comparing keys. Its view is the finite map from the keys, each
//! taken by its view, to the values.

use vstd::prelude::*;
use crate::identity::Identity;

verus! {

/// A key of a store: two keys can be compared, and are the same key where
/// their views are equal.
pub trait StoreKey: View + Sized {
    /// Whether `self` and `other` are the same key.
    fn same(&self, other: &Self) -> (eq: bool)
        ensures
            eq == (self@ == other@),
    ;
}

impl StoreKey for Identity {
    fn same(&self, other: &Self) -> (eq: bool) {
        *self == *other
    }
}

/// One entry of the store.
struct Entry<K, V> {
    key: K,
    value: V,
}

/// No key occurs in two entries of `s`.
spec fn distinct_keys<K: View, V>(s: Seq<Entry<K, V>>) -> bool {
    forall|i: int, j: int| 0 <= i < j < s.len() ==> s[i].key@ != s[j].key@
}

/// Some entry of `s` has the key `id`.
spec fn has_key<K: View, V>(s: Seq<Entry<K, V>>, id: K::V) -> bool {
    exists|i: int| 0 <= i < s.len() && #[trigger] s[i].key@ == id
}

/// The position of an entry of `s` with the key `id`.
spec fn position_of<K: View, V>(s: Seq<Entry<K, V>>, id: K::V) -> int {
    choose|i: int| 0 <= i < s.len() && #[trigger] s[i].key@ == id
}

/// The map that the entries of `s` stand for.
spec fn as_map<K: View, V>(s: Seq<Entry<K, V>>) -> Map<K::V, V> {
    Map::new(|id: K::V| has_key(s, id), |id: K::V| s[position_of(s, id)].value)
}

/// Where keys are distinct, the entry at `i` is the one the map holds for
/// its key.
proof fn lemma_entry_in_map<K: View, V>(s: Seq<Entry<K, V>>, i: int)
    requires
        distinct_keys(s),
        0 <= i < s.len(),
    ensures
        as_map(s).contains_key(s[i].key@),
        as_map(s)[s[i].key@] == s[i].value,
        position_of(s, s[i].key@) == i,
{
    let id = s[i].key@;
    assert(has_key(s, id));
    let p = position_of(s, id);
    assert(0 <= p < s.len() && s[p].key@ == id);
    if p < i {
        assert(s[p].key@ != s[i].key@);
    } else if i < p {
        assert(s[i].key@ != s[p].key@);
    }
}

/// Appending an entry under a key that has none inserts it into the map.
proof fn lemma_push_inserts<K: View, V>(s: Seq<Entry<K, V>>, e: Entry<K, V>)
    requires
        distinct_keys(s),
        !has_key(s, e.key@),
    ensures
        distinct_keys(s.push(e)),
        as_map(s.push(e)) == as_map(s).insert(e.key@, e.value),
{
    let t = s.push(e);
    assert forall|i: int, j: int| 0 <= i < j < t.len() implies t[i].key@ != t[j].key@ by {
        if j == s.len() {
            assert(s[i].key@ == t[i].key@);
            if t[i].key@ == e.key@ {
                assert(has_key(s, e.key@));
            }
        } else {
            assert(s[i].key@ != s[j].key@);
        }
    }
    assert forall|id: K::V| has_key(t, id) <==> (id == e.key@ || has_key(s, id)) by {
        if has_key(t, id) {
            let p = position_of(t, id);
            if p < s.len() {
                assert(s[p].key@ == id);
            }
        }
        if id == e.key@ {
            assert(t[s.len() as int].key@ == id);
        }
        if has_key(s, id) {
            let p = position_of(s, id);
            assert(t[p].key@ == id);
        }
    }
    assert forall|id: K::V| has_key(t, id) implies #[trigger] as_map(t)[id] == as_map(
        s,
    ).insert(e.key@, e.value)[id] by {
        let p = position_of(t, id);
        lemma_entry_in_map(t, p);
        if p < s.len() {
            assert(s[p].key@ == id);
            lemma_entry_in_map(s, p);
            assert(id != e.key@) by {
                if id == e.key@ {
                    assert(has_key(s, e.key@));
                }
            }
        }
    }
    assert(as_map(t) =~= as_map(s).insert(e.key@, e.value));
}

/// Replacing the value of the entry at `i` replaces it in the map.
proof fn lemma_update_inserts<K: View, V>(s: Seq<Entry<K, V>>, i: int, v: V)
    requires
        distinct_keys(s),
        0 <= i < s.len(),
    ensures
        distinct_keys(s.update(i, Entry { key: s[i].key, value: v })),
        as_map(s.update(i, Entry { key: s[i].key, value: v })) == as_map(s).insert(
            s[i].key@,
            v,
        ),
{
    let t = s.update(i, Entry { key: s[i].key, value: v });
    assert forall|a: int, b: int| 0 <= a < b < t.len() implies t[a].key@ != t[b].key@ by {
        assert(s[a].key@ != s[b].key@);
    }
    assert forall|id: K::V| has_key(t, id) <==> has_key(s, id) by {
        if has_key(t, id) {
            let p = position_of(t, id);
            assert(s[p].key@ == id);
        }
        if has_key(s, id) {
            let p = position_of(s, id);
            assert(t[p].key@ == id);
        }
    }
    lemma_entry_in_map(s, i);
    assert forall|id: K::V| has_key(t, id) implies #[trigger] as_map(t)[id] == as_map(
        s,
    ).insert(s[i].key@, v)[id] by {
        let p = position_of(t, id);
        lemma_entry_in_map(t, p);
        if p != i {
            assert(s[p].key@ == id);
            lemma_entry_in_map(s, p);
            if p < i {
                assert(s[p].key@ != s[i].key@);
            } else {
                assert(s[i].key@ != s[p].key@);
            }
        }
    }
    assert(as_map(t) =~= as_map(s).insert(s[i].key@, v));
}

/// Taking the entry at `i` out removes its key from the map.
proof fn lemma_remove_removes<K: View, V>(s: Seq<Entry<K, V>>, i: int)
    requires
        distinct_keys(s),
        0 <= i < s.len(),
    ensures
        distinct_keys(s.remove(i)),
        as_map(s.remove(i)) == as_map(s).remove(s[i].key@),
{
    let t = s.remove(i);
    let gone = s[i].key@;
    assert forall|a: int| 0 <= a < t.len() implies t[a] == s[if a < i { a } else { a + 1 }] by {}
    assert forall|a: int, b: int| 0 <= a < b < t.len() implies t[a].key@ != t[b].key@ by {
        let sa = if a < i { a } else { a + 1 };
        let sb = if b < i { b } else { b + 1 };
        assert(s[sa].key@ != s[sb].key@);
    }
    assert forall|id: K::V| has_key(t, id) <==> (id != gone && has_key(s, id)) by {
        if has_key(t, id) {
            let p = position_of(t, id);
            let sp = if p < i { p } else { p + 1 };
            assert(s[sp].key@ == id);
            if sp < i {
                assert(s[sp].key@ != s[i].key@);
            } else {
                assert(s[i].key@ != s[sp].key@);
            }
        }
        if id != gone && has_key(s, id) {
            let p = position_of(s, id);
            let tp = if p < i { p } else { p - 1 };
            assert(t[tp].key@ == id);
        }
    }
    assert forall|id: K::V| has_key(t, id) implies #[trigger] as_map(t)[id] == as_map(
        s,
    ).remove(gone)[id] by {
        let p = position_of(t, id);
        lemma_entry_in_map(t, p);
        let sp = if p < i { p } else { p + 1 };
        assert(s[sp].key@ == id);
        lemma_entry_in_map(s, sp);
    }
    assert(as_map(t) =~= as_map(s).remove(gone));
}

/// The map of a sequence with distinct keys has as many keys as the
/// sequence has entries.
proof fn lemma_map_size<K: View, V>(s: Seq<Entry<K, V>>)
    requires
        distinct_keys(s),
    ensures
        as_map(s).dom().finite(),
        as_map(s).dom().len() == s.len(),
    decreases s.len(),
{
    if s.len() == 0 {
        assert(as_map(s).dom() =~= Set::<K::V>::empty());
    } else {
        let init = s.drop_last();
        let e = s.last();
        assert forall|i: int, j: int| 0 <= i < j < init.len() implies init[i].key@
            != init[j].key@ by {
            assert(s[i].key@ != s[j].key@);
        }
        if has_key(init, e.key@) {
            let p = position_of(init, e.key@);
            assert(s[p].key@ != s[s.len() - 1].key@);
        }
        lemma_map_size(init);
        lemma_push_inserts(init, e);
        assert(init.push(e) =~= s);
        assert(as_map(s).dom() =~= as_map(init).dom().insert(e.key@));
        assert(!as_map(init).dom().contains(e.key@));
    }
}

/// A store of values, one per key.
pub struct KeyedStore<K: StoreKey, V> {
    entries: Vec<Entry<K, V>>,
}

/// A store of values, one per identity.
pub type IdentityMap<V> = KeyedStore<Identity, V>;

impl<K: StoreKey, V> KeyedStore<K, V> {
    /// No key occurs twice among the entries.
    pub closed spec fn inv(&self) -> bool {
        distinct_keys(self.entries@)
    }

    /// The map from each key to the value stored under it.
    pub closed spec fn view(&self) -> Map<K::V, V> {
        as_map(self.entries@)
    }

    /// The empty store.
    pub fn new() -> (m: Self)
        ensures
            m.inv(),
            m@ == Map::<K::V, V>::empty(),
    {
        let m = KeyedStore { entries: Vec::new() };
        assert(m@ =~= Map::<K::V, V>::empty());
        m
    }

    /// The position of the entry under `key`, if there is one.
    fn find(&self, key: &K) -> (r: Option<usize>)
        requires
            self.inv(),
        ensures
            match r {
                Some(i) => i < self.entries@.len() && self.entries@[i as int].key@ == key@,
                None => !has_key(self.entries@, key@),
            },
    {
        let mut i: usize = 0;
        while i < self.entries.len()
            invariant
                i <= self.entries@.len(),
                forall|k: int| 0 <= k < i ==> self.entries@[k].key@ != key@,
            decreases self.entries@.len() - i,
        {
            if self.entries[i].key.same(key) {
                return Some(i);
            }
            i += 1;
        }
        None
    }

    /// The number of keys that have a value.
    pub fn len(&self) -> (n: usize)
        requires
            self.inv(),
        ensures
            self@.dom().finite(),
            n == self@.dom().len(),
    {
        proof {
            lemma_map_size(self.entries@);
        }
        self.entries.len()
    }

    /// Whether `key` has a value.
    pub fn contains(&self, key: &K) -> (b: bool)
        requires
            self.inv(),
        ensures
            b == self@.contains_key(key@),
    {
        self.find(key).is_some()
    }

    /// The value under `key`, if there is one.
    pub fn get(&self, key: &K) -> (r: Option<&V>)
        requires
            self.inv(),
        ensures
            match r {
                Some(v) => self@.contains_key(key@) && *v == self@[key@],
                None => !self@.contains_key(key@),
            },
    {
        match self.find(key) {
            Some(i) => {
                proof {
                    lemma_entry_in_map(self.entries@, i as int);
                }
                Some(&self.entries[i].value)
            },
            None => None,
        }
    }

    /// Stores `value` under `key`, in place of the value it had, if any.
    pub fn insert(&mut self, key: K, value: V)
        requires
            old(self).inv(),
        ensures
            final(self).inv(),
            final(self)@ == old(self)@.insert(key@, value),
    {
        match self.find(&key) {
            Some(i) => {
                proof {
                    lemma_update_inserts(self.entries@, i as int, value);
                }
                self.entries[i].value = value;
                assert(self.entries@ =~= old(self).entries@.update(
                    i as int,
                    Entry { key: old(self).entries@[i as int].key, value: value },
                ));
            },
            None => {
                let e = Entry { key, value };
                proof {
                    lemma_push_inserts(self.entries@, e);
                }
                self.entries.push(e);
            },
        }
    }

    /// Takes the value under `key` out of the store, if there is one.
    pub fn remove(&mut self, key: &K) -> (r: Option<V>)
        requires
            old(self).inv(),
        ensures
            final(self).inv(),
            final(self)@ == old(self)@.remove(key@),
            match r {
                Some(v) => old(self)@.contains_key(key@) && v == old(self)@[key@],
                None => !old(self)@.contains_key(key@),
            },
    {
        match self.find(key) {
            Some(i) => {
                proof {
                    lemma_entry_in_map(self.entries@, i as int);
                    lemma_remove_removes(self.entries@, i as int);
                }
                let e = self.entries.remove(i);
                Some(e.value)
            },
            None => {
                assert(self@ =~= self@.remove(key@));
                None
            },
        }
    }
}

} // verus!
