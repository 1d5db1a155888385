use vstd::prelude::*;

verus! {

/// How a merge policy wants the parent's entry to look afterwards.
#[derive(Debug)]
pub enum MergeResult<T> {
    /// Leave the parent's entry as it is, present or not.
    KeepParent,
    /// Put this value in the parent's entry, replacing what is there.
    ReplaceOrInsert(T),
    /// Take the entry out of the parent.
    Remove,
}

/// The merge policy of a storable type: how the values that sibling
/// branches left under one key are folded into the parent's entry.
pub trait Merge: Sized {
    /// Whether the policy, asked about the parent's value, if any, and the
    /// siblings' values in sibling order, may come back with `result`. A
    /// policy that says nothing about itself may decide anything.
    open spec fn merges(parent: Option<Self>, others: Seq<Self>, result: MergeResult<Self>) -> bool {
        true
    }

    /// Runs the policy. It is only ever asked about a key for which at least
    /// one sibling contributed a value.
    fn merge(parent: Option<&Self>, others: Vec<Self>) -> (result: MergeResult<Self>)
        requires
            others@.len() > 0,
        ensures
            Self::merges(
                match parent {
                    Some(p) => Some(*p),
                    None => None,
                },
                others@,
                result,
            ),
    ;
}

/// A keyed store owned by a single branch. Keys are stable tokens chosen by
/// the caller, one per kind of stored value; a store holds at most one value
/// per key and remembers which keys were touched since it was forked.
pub trait LocalStorage<V> {
    /// The live entries of the store.
    spec fn entries(&self) -> Map<u64, V>;

    /// The keys that were inserted, handed out mutably or removed since the
    /// store was created or forked.
    spec fn changed_keys(&self) -> Set<u64>;

    /// Looks up the value stored under `key`. The store is left untouched.
    fn get(&self, key: u64) -> (result: Option<&V>)
        ensures
            match result {
                Some(v) => self.entries().contains_key(key) && *v == self.entries()[key],
                None => !self.entries().contains_key(key),
            },
    ;

    /// Hands out the value stored under `key` for mutation and marks the key
    /// changed. An absent key leaves the store untouched.
    fn get_mut(&mut self, key: u64) -> (result: Option<&mut V>)
        ensures
            match result {
                Some(v) => {
                    &&& old(self).entries().contains_key(key)
                    &&& *v == old(self).entries()[key]
                    &&& final(self).entries() == old(self).entries().insert(key, *final(v))
                    &&& final(self).changed_keys() == old(self).changed_keys().insert(key)
                },
                None => {
                    &&& !old(self).entries().contains_key(key)
                    &&& final(self).entries() == old(self).entries()
                    &&& final(self).changed_keys() == old(self).changed_keys()
                },
            },
    ;

    /// Stores `val` under `key`, marks the key changed and returns the value
    /// that was there before.
    fn insert(&mut self, key: u64, val: V) -> (result: Option<V>)
        ensures
            final(self).entries() == old(self).entries().insert(key, val),
            final(self).changed_keys() == old(self).changed_keys().insert(key),
            result == old(self).entries().get(key),
    ;

    /// Takes the value stored under `key` out of the store. The key is marked
    /// changed only if there was a value to take.
    fn remove(&mut self, key: u64) -> (result: Option<V>)
        ensures
            final(self).entries() == old(self).entries().remove(key),
            result == old(self).entries().get(key),
            final(self).changed_keys() == if result is Some {
                old(self).changed_keys().insert(key)
            } else {
                old(self).changed_keys()
            },
    ;
}

} // verus!
