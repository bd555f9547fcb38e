//! The registry of connections: a mapping from connection id to record that
//! keeps the order in which ids were first registered.

use vstd::prelude::*;
use vstd::string::*;
use crate::models::S3ConnectionWithSecret;
use crate::text::same_text;

verus! {

/// Whether some entry is registered under `key`.
pub open spec fn has_key<V>(entries: Seq<(Seq<char>, V)>, key: Seq<char>) -> bool {
    exists|i: int| 0 <= i < entries.len() && (#[trigger] entries[i]).0 == key
}

/// Where the entry under `key` stands.
pub open spec fn index_of<V>(entries: Seq<(Seq<char>, V)>, key: Seq<char>) -> int {
    choose|i: int| 0 <= i < entries.len() && (#[trigger] entries[i]).0 == key
}

/// The value registered under `key`.
pub open spec fn value_of<V>(entries: Seq<(Seq<char>, V)>, key: Seq<char>) -> V {
    entries[index_of(entries, key)].1
}

/// No key is registered twice.
pub open spec fn distinct_keys<V>(entries: Seq<(Seq<char>, V)>) -> bool {
    forall|i: int, j: int|
        0 <= i < j < entries.len() ==> (#[trigger] entries[i]).0 != (#[trigger] entries[j]).0
}

/// The entries after `value` is registered under `key`: a key that is
/// already there keeps its place and gets the new value, a new key goes to
/// the end.
pub open spec fn put<V>(entries: Seq<(Seq<char>, V)>, key: Seq<char>, value: V) -> Seq<
    (Seq<char>, V),
> {
    if has_key(entries, key) {
        entries.update(index_of(entries, key), (key, value))
    } else {
        entries.push((key, value))
    }
}

/// The entries after `key` is taken out, the others in their order.
pub open spec fn without<V>(entries: Seq<(Seq<char>, V)>, key: Seq<char>) -> Seq<(Seq<char>, V)> {
    if has_key(entries, key) {
        entries.remove(index_of(entries, key))
    } else {
        entries
    }
}

/// What a lookup under `key` gives.
pub open spec fn lookup<V>(entries: Seq<(Seq<char>, V)>, key: Seq<char>) -> Option<V> {
    if has_key(entries, key) {
        Some(value_of(entries, key))
    } else {
        None
    }
}

/// With distinct keys, the place of a key is the only place that holds it.
pub proof fn lemma_index_of<V>(entries: Seq<(Seq<char>, V)>, key: Seq<char>, i: int)
    requires
        distinct_keys(entries),
        0 <= i < entries.len(),
        entries[i].0 == key,
    ensures
        has_key(entries, key),
        index_of(entries, key) == i,
{
    let j = index_of(entries, key);
    if j != i {
        if j < i {
            assert(entries[j].0 != entries[i].0);
        } else {
            assert(entries[i].0 != entries[j].0);
        }
    }
}

/// Registering keeps the keys distinct; the key then holds the new value and
/// every other key holds what it held.
pub proof fn put_then_lookup<V>(
    entries: Seq<(Seq<char>, V)>,
    key: Seq<char>,
    value: V,
    other: Seq<char>,
)
    requires
        distinct_keys(entries),
    ensures
        distinct_keys(put(entries, key, value)),
        lookup(put(entries, key, value), key) == Some(value),
        other != key ==> lookup(put(entries, key, value), other) == lookup(entries, other),
{
    let after = put(entries, key, value);
    let at = if has_key(entries, key) {
        index_of(entries, key)
    } else {
        entries.len() as int
    };
    assert forall|i: int, j: int| 0 <= i < j < after.len() implies (#[trigger] after[i]).0
        != (#[trigger] after[j]).0 by {
        if j < entries.len() {
            assert(entries[i].0 != entries[j].0);
        } else {
            assert(entries[i].0 != key);
        }
    }
    assert(after[at].0 == key);
    lemma_index_of(after, key, at);
    if other != key {
        if has_key(entries, other) {
            let o = index_of(entries, other);
            assert(after[o].0 == other);
            lemma_index_of(after, other, o);
        } else if has_key(after, other) {
            let o = index_of(after, other);
            assert(entries[o].0 == other);
        }
    }
}

/// Where place `i` of a sequence stood before the entry at place `at` was
/// taken out.
spec fn place_before(i: int, at: int) -> int {
    if i < at {
        i
    } else {
        i + 1
    }
}

/// Taking a key out keeps the keys distinct; the key is then gone and every
/// other key holds what it held.
pub proof fn without_then_lookup<V>(entries: Seq<(Seq<char>, V)>, key: Seq<char>, other: Seq<char>)
    requires
        distinct_keys(entries),
    ensures
        distinct_keys(without(entries, key)),
        lookup(without(entries, key), key) == None::<V>,
        other != key ==> lookup(without(entries, key), other) == lookup(entries, other),
{
    let after = without(entries, key);
    if has_key(entries, key) {
        let at = index_of(entries, key);
        assert forall|i: int| 0 <= i < after.len() implies #[trigger] after[i]
            == entries[place_before(i, at)] by {}
        assert forall|i: int, j: int| 0 <= i < j < after.len() implies (#[trigger] after[i]).0
            != (#[trigger] after[j]).0 by {
            assert(entries[place_before(i, at)].0 != entries[place_before(j, at)].0);
        }
        if has_key(after, key) {
            let k = place_before(index_of(after, key), at);
            assert(entries[k].0 == key);
            lemma_index_of(entries, key, k);
        }
        if other != key {
            if has_key(entries, other) {
                let o = index_of(entries, other);
                let shifted = if o < at {
                    o
                } else {
                    o - 1
                };
                assert(after[shifted] == entries[o]);
                lemma_index_of(after, other, shifted);
            } else if has_key(after, other) {
                let o = place_before(index_of(after, other), at);
                assert(entries[o].0 == other);
            }
        }
    }
}

/// A mapping from text keys to values that remembers the order in which the
/// keys were first registered.
pub struct ConnectionMap<T: View> {
    entries: Vec<(String, T)>,
}

impl<T: View> ConnectionMap<T> {
    #[verifier::type_invariant]
    spec fn keys_are_distinct(self) -> bool {
        distinct_keys(self.entries())
    }

    /// The entries in the order of registration, each key with its value.
    pub closed spec fn entries(&self) -> Seq<(Seq<char>, T::V)> {
        Seq::new(self.entries@.len(), |i: int| (self.entries@[i].0@, self.entries@[i].1@))
    }

    /// A map without entries.
    pub fn new() -> (map: Self)
        ensures
            map.entries() == Seq::<(Seq<char>, T::V)>::empty(),
    {
        let map = ConnectionMap { entries: Vec::new() };
        assert(map.entries() =~= Seq::empty());
        map
    }

    /// How many keys are registered. No key is registered twice, whatever
    /// was done to the map.
    pub fn len(&self) -> (n: usize)
        ensures
            n == self.entries().len(),
            distinct_keys(self.entries()),
    {
        proof {
            use_type_invariant(self);
        }
        self.entries.len()
    }

    fn position(&self, key: &str) -> (at: Option<usize>)
        ensures
            match at {
                Some(i) => has_key(self.entries(), key@) && i == index_of(self.entries(), key@) && i
                    < self.entries@.len(),
                None => !has_key(self.entries(), key@),
            },
    {
        proof {
            use_type_invariant(self);
        }
        let mut i: usize = 0;
        while i < self.entries.len()
            invariant
                i <= self.entries@.len(),
                distinct_keys(self.entries()),
                forall|j: int| 0 <= j < i ==> (#[trigger] self.entries()[j]).0 != key@,
            decreases self.entries@.len() - i,
        {
            if same_text(self.entries[i].0.as_str(), key) {
                proof {
                    assert(self.entries()[i as int].0 == key@);
                    lemma_index_of(self.entries(), key@, i as int);
                }
                return Some(i);
            }
            i += 1;
        }
        None
    }

    /// Whether `key` is registered.
    pub fn contains_key(&self, key: &str) -> (found: bool)
        ensures
            found == has_key(self.entries(), key@),
    {
        self.position(key).is_some()
    }

    /// The value registered under `key`.
    pub fn get(&self, key: &str) -> (found: Option<&T>)
        ensures
            match found {
                Some(value) => lookup(self.entries(), key@) == Some(value@),
                None => lookup(self.entries(), key@) == None::<T::V>,
            },
    {
        match self.position(key) {
            Some(i) => {
                assert(self.entries()[i as int].1 == self.entries@[i as int].1@);
                Some(&self.entries[i].1)
            },
            None => None,
        }
    }

    /// The key and the value at place `i` of the registration order.
    pub fn entry_at(&self, i: usize) -> (entry: (&String, &T))
        requires
            i < self.entries().len(),
        ensures
            entry.0@ == self.entries()[i as int].0,
            entry.1@ == self.entries()[i as int].1,
    {
        (&self.entries[i].0, &self.entries[i].1)
    }

    /// Registers `value` under `key` and hands back what the key held.
    pub fn insert(&mut self, key: String, value: T) -> (previous: Option<T>)
        ensures
            final(self).entries() == put(old(self).entries(), key@, value@),
            match previous {
                Some(held) => lookup(old(self).entries(), key@) == Some(held@),
                None => lookup(old(self).entries(), key@) == None::<T::V>,
            },
    {
        proof {
            use_type_invariant(&*self);
            put_then_lookup(self.entries(), key@, value@, key@);
        }
        let ghost before = self.entries();
        match self.position(key.as_str()) {
            Some(i) => {
                let mut entries: Vec<(String, T)> = Vec::new();
                core::mem::swap(&mut entries, &mut self.entries);
                entries.push((key, value));
                let held = entries.swap_remove(i);
                assert(Seq::new(
                    entries@.len(),
                    |j: int| (entries@[j].0@, entries@[j].1@),
                ) =~= put(before, key@, value@));
                self.entries = entries;
                Some(held.1)
            },
            None => {
                let mut entries: Vec<(String, T)> = Vec::new();
                core::mem::swap(&mut entries, &mut self.entries);
                entries.push((key, value));
                assert(Seq::new(
                    entries@.len(),
                    |j: int| (entries@[j].0@, entries@[j].1@),
                ) =~= put(before, key@, value@));
                self.entries = entries;
                None
            },
        }
    }

    /// Hands the entries out in the order of registration.
    pub fn into_entries(self) -> (pairs: Vec<(String, T)>)
        ensures
            pairs@.len() == self.entries().len(),
            forall|i: int|
                0 <= i < pairs@.len() ==> (#[trigger] pairs@[i]).0@ == self.entries()[i].0
                    && pairs@[i].1@ == self.entries()[i].1,
            distinct_keys(self.entries()),
    {
        proof {
            use_type_invariant(&self);
        }
        self.entries
    }

    /// Takes `key` out and hands back what it held.
    pub fn remove(&mut self, key: &str) -> (removed: Option<T>)
        ensures
            final(self).entries() == without(old(self).entries(), key@),
            match removed {
                Some(held) => lookup(old(self).entries(), key@) == Some(held@),
                None => lookup(old(self).entries(), key@) == None::<T::V>,
            },
    {
        proof {
            use_type_invariant(&*self);
            without_then_lookup(self.entries(), key@, key@);
        }
        let ghost before = self.entries();
        match self.position(key) {
            Some(i) => {
                let mut entries: Vec<(String, T)> = Vec::new();
                core::mem::swap(&mut entries, &mut self.entries);
                let held = entries.remove(i);
                assert(Seq::new(
                    entries@.len(),
                    |j: int| (entries@[j].0@, entries@[j].1@),
                ) =~= without(before, key@));
                self.entries = entries;
                Some(held.1)
            },
            None => None,
        }
    }
}

/// The connections that are registered for use, each under its id.
pub struct AppState {
    pub connections: ConnectionMap<S3ConnectionWithSecret>,
}

impl Default for AppState {
    fn default() -> (state: Self)
        ensures
            state.connections.entries() == Seq::<
                (Seq<char>, crate::models::S3ConnectionWithSecretView),
            >::empty(),
    {
        AppState { connections: ConnectionMap::new() }
    }
}

} // verus!
