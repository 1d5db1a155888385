use vstd::prelude::*;

verus! {

/// A keyed store that all branches of a flow share. Keys are stable tokens
/// chosen by the caller, one per kind of stored value. Every key has at
/// most one slot; a slot is reserved before it is filled, so it may be
/// empty.
pub trait SharedStorage<V> {
    /// The slots of the store, each with the value it holds, if any.
    spec fn slots(&self) -> Map<u64, Option<V>>;

    /// The value stored under `key`: what its slot holds, if it has a slot
    /// and the slot is filled.
    open spec fn value(&self, key: u64) -> Option<V> {
        if self.slots().contains_key(key) {
            self.slots()[key]
        } else {
            None
        }
    }

    /// Looks up the value stored under `key`. The store is left untouched.
    fn get(&self, key: u64) -> (result: Option<&V>)
        ensures
            match result {
                Some(v) => self.value(key) == Some(*v),
                None => self.value(key) is None,
            },
    ;

    /// Hands out the value stored under `key` for mutation. Without a value
    /// under the key the store is left untouched.
    fn get_mut(&mut self, key: u64) -> (result: Option<&mut V>)
        ensures
            match result {
                Some(v) => {
                    &&& old(self).value(key) == Some(*v)
                    &&& final(self).slots() == old(self).slots().insert(key, Some(*final(v)))
                },
                None => {
                    &&& old(self).value(key) is None
                    &&& final(self).slots() == old(self).slots()
                },
            },
    ;

    /// Stores `val` under `key` and returns the value that it replaces, if
    /// there was one.
    fn insert(&mut self, key: u64, val: V) -> (result: Option<V>)
        ensures
            final(self).slots() == old(self).slots().insert(key, Some(val)),
            result == old(self).value(key),
    ;

    /// Claims the slot of `key` if the key has none. Whoever is told `true`
    /// has made the slot, which is empty, and is the one to fill it; whoever
    /// is told `false` found a slot, filled or not, and leaves it alone.
    fn reserve(&mut self, key: u64) -> (won: bool)
        ensures
            won == !old(self).slots().contains_key(key),
            final(self).slots() == if won {
                old(self).slots().insert(key, None)
            } else {
                old(self).slots()
            },
    ;

    /// Fills the slot of `key`, which the caller has reserved, with `val`.
    fn fill(&mut self, key: u64, val: V)
        requires
            old(self).slots().contains_key(key),
        ensures
            final(self).slots() == old(self).slots().insert(key, Some(val)),
    ;

    /// Stores under `key` what `compute` comes to, unless the key already
    /// has a slot. With a slot there, filled or only reserved, nothing
    /// happens: `compute` is not run and the store is left untouched. With
    /// none, the slot is reserved before `compute` runs; the value that
    /// `compute` gives fills it, and an error leaves it empty and is handed
    /// back.
    fn insert_with_if_absent<E, F: FnOnce() -> Result<V, E>>(&mut self, key: u64, compute: F) -> (result:
        Result<(), E>)
        requires
            !old(self).slots().contains_key(key) ==> compute.requires(()),
        ensures
            old(self).slots().contains_key(key) ==> result is Ok && final(self).slots() == old(
                self,
            ).slots(),
            !old(self).slots().contains_key(key) ==> exists|computed: Result<V, E>| #[trigger]
                compute.ensures((), computed) && (match computed {
                    Ok(val) => result is Ok && final(self).slots() == old(self).slots().insert(
                        key,
                        Some(val),
                    ),
                    Err(error) => result == Err::<(), E>(error) && final(self).slots() == old(
                        self,
                    ).slots().insert(key, None),
                }),
    ;

    /// Takes the slot of `key` out of the store and returns the value that
    /// it held, if any.
    fn remove(&mut self, key: u64) -> (result: Option<V>)
        ensures
            final(self).slots() == old(self).slots().remove(key),
            result == old(self).value(key),
    ;
}

} // verus!
