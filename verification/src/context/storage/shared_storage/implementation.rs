use super::design::SharedStorage;
use std::collections::HashMap;
use vstd::prelude::*;

verus! {

broadcast use vstd::std_specs::hash::group_hash_axioms;

/// The in-memory table of slots behind a shared store.
pub struct SharedStorageImpl<V> {
    inner: HashMap<u64, Option<V>>,
}

impl<V> SharedStorageImpl<V> {
    /// Makes a store without slots.
    pub fn new() -> (store: Self)
        ensures
            store.slots() == Map::<u64, Option<V>>::empty(),
    {
        SharedStorageImpl { inner: HashMap::new() }
    }
}

impl<V> Default for SharedStorageImpl<V> {
    /// A store without slots.
    fn default() -> (store: Self)
        ensures
            store.slots() == Map::<u64, Option<V>>::empty(),
    {
        SharedStorageImpl::new()
    }
}

impl<V> SharedStorage<V> for SharedStorageImpl<V> {
    closed spec fn slots(&self) -> Map<u64, Option<V>> {
        self.inner@
    }

    fn get(&self, key: u64) -> (result: Option<&V>) {
        match self.inner.get(&key) {
            Some(slot) => slot.as_ref(),
            None => None,
        }
    }

    fn get_mut(&mut self, key: u64) -> (result: Option<&mut V>) {
        match self.inner.entry(key) {
            std::collections::hash_map::Entry::Occupied(entry) => entry.into_mut().as_mut(),
            std::collections::hash_map::Entry::Vacant(_) => None,
        }
    }

    fn insert(&mut self, key: u64, val: V) -> (result: Option<V>) {
        match self.inner.insert(key, Some(val)) {
            Some(held) => held,
            None => None,
        }
    }

    fn reserve(&mut self, key: u64) -> (won: bool) {
        if self.inner.contains_key(&key) {
            false
        } else {
            self.inner.insert(key, None);
            true
        }
    }

    fn fill(&mut self, key: u64, val: V) {
        self.inner.insert(key, Some(val));
    }

    fn insert_with_if_absent<E, F: FnOnce() -> Result<V, E>>(&mut self, key: u64, compute: F) -> (result:
        Result<(), E>) {
        if !self.reserve(key) {
            return Ok(());
        }
        let computed = compute();
        match computed {
            Ok(val) => {
                self.fill(key, val);
                Ok(())
            },
            Err(error) => Err(error),
        }
    }

    fn remove(&mut self, key: u64) -> (result: Option<V>) {
        match self.inner.remove(&key) {
            Some(held) => held,
            None => None,
        }
    }
}

} // verus!
