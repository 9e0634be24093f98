//! A table of values keyed by 128-bit ids (UUIDs by their bits), seen as a
//! map from id to value.

use vstd::prelude::*;
use std::collections::HashMap;
use vstd::std_specs::iter::IteratorSpec;

verus! {

broadcast use vstd::std_specs::hash::group_hash_axioms;

/// A table of values keyed by id.
#[derive(Debug)]
pub struct IdTable<V> {
    entries: HashMap<u128, V>,
}

impl<V> View for IdTable<V> {
    type V = Map<u128, V>;

    closed spec fn view(&self) -> Map<u128, V> {
        self.entries@
    }
}

impl<V> IdTable<V> {
    pub fn new() -> (r: Self)
        ensures
            r@ == Map::<u128, V>::empty(),
    {
        IdTable { entries: HashMap::new() }
    }

    pub fn contains(&self, key: u128) -> (r: bool)
        ensures
            r == self@.dom().contains(key),
    {
        self.entries.contains_key(&key)
    }

    pub fn get(&self, key: u128) -> (r: Option<&V>)
        ensures
            match r {
                Some(v) => self@.dom().contains(key) && self@[key] == *v,
                None => !self@.dom().contains(key),
            },
    {
        self.entries.get(&key)
    }

    /// Sets `key` to `value`, giving back the value it held.
    pub fn insert(&mut self, key: u128, value: V) -> (r: Option<V>)
        ensures
            final(self)@ == old(self)@.insert(key, value),
            match r {
                Some(v) => old(self)@.dom().contains(key) && old(self)@[key] == v,
                None => !old(self)@.dom().contains(key),
            },
    {
        self.entries.insert(key, value)
    }

    /// Takes `key` out, giving back the value it held.
    pub fn remove(&mut self, key: u128) -> (r: Option<V>)
        ensures
            final(self)@ == old(self)@.remove(key),
            match r {
                Some(v) => old(self)@.dom().contains(key) && old(self)@[key] == v,
                None => !old(self)@.dom().contains(key),
            },
    {
        self.entries.remove(&key)
    }

    /// The ids held, each once, in the order the map walks them.
    pub fn keys(&self) -> (r: Vec<u128>)
        ensures
            r@.no_duplicates(),
            r@.to_set() == self@.dom(),
    {
        let mut out: Vec<u128> = Vec::new();
        let ghost all = vstd::std_specs::hash::spec_keys_iter(&self.entries).remaining();
        for k in it: self.entries.keys()
            invariant
                it.seq() == all,
                out@ == all.take(it.index() as int).unref(),
        {
            out.push(*k);
        }
        assert(out@ =~= all.unref());
        out
    }
}

} // verus!
