//! Maps keyed by interned identifiers.
//!
//! The database keys almost everything by the raw index of an
//! [`crate::IdString`] handle, so this map is keyed by `u64`.  It is a
//! thin layer over `std::collections::HashMap` whose contracts restate
//! the map operations over the abstract `Map<u64, V>` view.

use std::collections::HashMap;
use vstd::prelude::*;

verus! {

broadcast use vstd::std_specs::hash::group_hash_axioms;

/// A map from identifier indices to values.
#[derive(Debug, Clone, PartialEq)]
pub struct IdMap<V> {
    map: HashMap<u64, V>,
}

impl<V> View for IdMap<V> {
    type V = Map<u64, V>;

    /// The abstract map this container holds.
    closed spec fn view(&self) -> Map<u64, V> {
        self.map@
    }
}

impl<V> IdMap<V> {
    /// The empty map.
    pub fn new() -> (r: Self)
        ensures
            r@ == Map::<u64, V>::empty(),
    {
        IdMap { map: HashMap::new() }
    }

    /// The number of entries.
    pub fn len(&self) -> (r: usize)
        ensures
            r == self@.len(),
    {
        self.map.len()
    }

    /// Whether the map has no entries.
    pub fn is_empty(&self) -> (r: bool)
        ensures
            r == (self@ == Map::<u64, V>::empty()),
    {
        let e = self.map.is_empty();
        proof {
            if self@.len() == 0 {
                assert(self@ =~= Map::<u64, V>::empty());
            }
            if self@ == Map::<u64, V>::empty() {
                assert(self@.len() == 0);
            }
        }
        e
    }

    /// Whether `key` has an entry.
    pub fn contains_key(&self, key: u64) -> (r: bool)
        ensures
            r == self@.contains_key(key),
    {
        self.map.contains_key(&key)
    }

    /// The value stored under `key`, if any.
    pub fn get(&self, key: u64) -> (r: Option<&V>)
        ensures
            match r {
                Some(v) => self@.contains_key(key) && *v == self@[key],
                None => !self@.contains_key(key),
            },
    {
        self.map.get(&key)
    }

    /// Stores `value` under `key`, returning the value it displaces.
    pub fn insert(&mut self, key: u64, value: V) -> (r: Option<V>)
        ensures
            final(self)@ == old(self)@.insert(key, value),
            match r {
                Some(v) => old(self)@.contains_key(key) && v == old(self)@[key],
                None => !old(self)@.contains_key(key),
            },
    {
        self.map.insert(key, value)
    }

    /// Removes the entry under `key`, returning its value if there was
    /// one.
    pub fn remove(&mut self, key: u64) -> (r: Option<V>)
        ensures
            final(self)@ == old(self)@.remove(key),
            match r {
                Some(v) => old(self)@.contains_key(key) && v == old(self)@[key],
                None => !old(self)@.contains_key(key),
            },
    {
        self.map.remove(&key)
    }

    /// Removes every entry.
    pub fn clear(&mut self)
        ensures
            final(self)@ == Map::<u64, V>::empty(),
    {
        self.map.clear()
    }
}

impl<V> Default for IdMap<V> {
    /// The default map is empty.
    fn default() -> (r: Self)
        ensures
            r@ == Map::<u64, V>::empty(),
    {
        IdMap::new()
    }
}

} // verus!
