use super::design::{LocalStorage, Merge, MergeResult};
use crate::context::{Fork, Join, Update};
use std::collections::HashMap;
use std::collections::HashSet;
use vstd::prelude::*;
use vstd::std_specs::iter::IteratorSpec;

verus! {

broadcast use vstd::std_specs::hash::group_hash_axioms;

/// The in-memory branch-local store.
pub struct LocalStorageImpl<V> {
    inner: HashMap<u64, V>,
    changed: HashSet<u64>,
}

impl<V> LocalStorageImpl<V> {
    /// Makes an empty store with no key marked changed.
    pub fn new() -> (store: Self)
        ensures
            store.entries() == Map::<u64, V>::empty(),
            store.changed_keys() == Set::<u64>::empty(),
    {
        LocalStorageImpl { inner: HashMap::new(), changed: HashSet::new() }
    }
}

impl<V> Default for LocalStorageImpl<V> {
    /// An empty store with no key marked changed.
    fn default() -> (store: Self)
        ensures
            store.entries() == Map::<u64, V>::empty(),
            store.changed_keys() == Set::<u64>::empty(),
    {
        LocalStorageImpl::new()
    }
}

impl<V> LocalStorage<V> for LocalStorageImpl<V> {
    closed spec fn entries(&self) -> Map<u64, V> {
        self.inner@
    }

    closed spec fn changed_keys(&self) -> Set<u64> {
        self.changed@
    }

    fn get(&self, key: u64) -> (result: Option<&V>) {
        self.inner.get(&key)
    }

    fn get_mut(&mut self, key: u64) -> (result: Option<&mut V>) {
        match self.inner.entry(key) {
            std::collections::hash_map::Entry::Occupied(entry) => {
                self.changed.insert(key);
                Some(entry.into_mut())
            },
            std::collections::hash_map::Entry::Vacant(_) => None,
        }
    }

    fn insert(&mut self, key: u64, val: V) -> (result: Option<V>) {
        self.changed.insert(key);
        self.inner.insert(key, val)
    }

    fn remove(&mut self, key: u64) -> (result: Option<V>) {
        let taken = self.inner.remove(&key);
        if taken.is_some() {
            self.changed.insert(key);
        }
        taken
    }
}

/// Whether at least one of the sibling stores marked `key` changed.
pub open spec fn touched<V>(others: Seq<LocalStorageImpl<V>>, key: u64) -> bool {
    exists|i: int| 0 <= i < others.len() && (#[trigger] others[i]).changed_keys().contains(key)
}

/// The values that the siblings contribute for `key`, in sibling order. A
/// sibling contributes its value if it marked the key changed and still
/// holds a value under it; all other siblings contribute nothing.
pub open spec fn contributions<V>(others: Seq<LocalStorageImpl<V>>, key: u64) -> Seq<V>
    decreases others.len(),
{
    if others.len() == 0 {
        Seq::empty()
    } else {
        let earlier = contributions(others.drop_last(), key);
        let last = others.last();
        if last.changed_keys().contains(key) && last.entries().contains_key(key) {
            earlier.push(last.entries()[key])
        } else {
            earlier
        }
    }
}

/// What a decision of the merge policy makes of the parent's entry: the
/// value that the parent holds afterwards, if any, and whether the parent
/// marks the key changed.
pub open spec fn decided<V>(parent: Option<V>, decision: MergeResult<V>) -> (Option<V>, bool) {
    match decision {
        MergeResult::KeepParent => (parent, false),
        MergeResult::ReplaceOrInsert(val) => (Some(val), true),
        MergeResult::Remove => (None, parent is Some),
    }
}

/// Whether a key that siblings touched may end up holding `value`, marked
/// changed or not as `marked` says, given the value that the parent held
/// and the values that the siblings contributed, in sibling order.
///
/// - nothing in the parent, nothing contributed: nothing happens;
/// - nothing in the parent, one value contributed: that value goes in, and
///   the key is marked;
/// - a value in the parent, nothing contributed: the value is removed, and
///   the key is marked;
/// - otherwise the merge policy of the stored type decides.
pub open spec fn merged_entry<V: Merge>(
    parent: Option<V>,
    others: Seq<V>,
    value: Option<V>,
    marked: bool,
) -> bool {
    if parent is None && others.len() == 0 {
        value is None && !marked
    } else if parent is None && others.len() == 1 {
        value == Some(others[0]) && marked
    } else if others.len() == 0 {
        value is None && marked
    } else {
        exists|decision: MergeResult<V>| #[trigger]
            V::merges(parent, others, decision) && (value, marked) == decided(parent, decision)
    }
}

/// Whether `value` and `changed` are what the parent may hold under `key`,
/// and whether it may have the key marked changed, once it has absorbed
/// `others`. A key that no sibling touched stays as it was.
pub open spec fn joined_entry<V: Merge>(
    parent: LocalStorageImpl<V>,
    others: Seq<LocalStorageImpl<V>>,
    key: u64,
    value: Option<V>,
    changed: bool,
) -> bool {
    if touched(others, key) {
        exists|marked: bool| #[trigger]
            merged_entry(parent.entries().get(key), contributions(others, key), value, marked)
                && changed == (parent.changed_keys().contains(key) || marked)
    } else {
        value == parent.entries().get(key) && changed == parent.changed_keys().contains(key)
    }
}

impl<V: Clone> Fork for LocalStorageImpl<V> {
    /// A fork holds the same entries and starts with no key marked changed.
    open spec fn forks_into(self, child: Self) -> bool {
        &&& child.entries() == self.entries()
        &&& child.changed_keys() == Set::<u64>::empty()
    }

    fn fork(&self) -> (child: Self) {
        LocalStorageImpl { inner: self.inner.clone(), changed: HashSet::new() }
    }
}

/// Whether `key` is among the first `count` keys of `keys`.
spec fn seen(keys: Seq<&u64>, count: int, key: u64) -> bool {
    exists|j: int| 0 <= j < count && j < keys.len() && *(#[trigger] keys[j]) == key
}

/// Marks in `target` every key that `source` holds.
fn absorb_keys(target: &mut HashSet<u64>, source: &HashSet<u64>)
    ensures
        final(target)@ == old(target)@.union(source@),
{
    let ghost keys = vstd::std_specs::hash::spec_hash_keys_iter(source).remaining();
    for key in it: source.iter()
        invariant
            it.seq() == keys,
            keys.unref().to_set() == source@,
            forall|k: u64| #[trigger]
                target@.contains(k) <==> old(target)@.contains(k) || seen(keys, it.index(), k),
    {
        target.insert(*key);
    }
    assert forall|k: u64| seen(keys, keys.len() as int, k) <==> source@.contains(k) by {
        if seen(keys, keys.len() as int, k) {
            let j = choose|j: int| 0 <= j < keys.len() && *(#[trigger] keys[j]) == k;
            assert(keys.unref()[j] == k);
        }
    }
}

impl<V> Update for LocalStorageImpl<V> {
    /// The parent adopts the survivor's entries wholesale and keeps every
    /// change mark that either of the two carried.
    open spec fn updates_into(self, other: Self, after: Self) -> bool {
        &&& after.entries() == other.entries()
        &&& after.changed_keys() == self.changed_keys().union(other.changed_keys())
    }

    fn update_from(&mut self, other: Self) {
        absorb_keys(&mut self.changed, &other.changed);
        self.inner = other.inner;
    }
}

/// Two stores that carry the same change marks and agree on `key`.
spec fn agree_on<V>(a: LocalStorageImpl<V>, b: LocalStorageImpl<V>, key: u64) -> bool {
    &&& a.changed_keys() == b.changed_keys()
    &&& a.entries().get(key) == b.entries().get(key)
}

/// What the siblings contribute for a key depends only on their change
/// marks and on what they hold under that key.
proof fn lemma_contributions_agree<V>(
    a: Seq<LocalStorageImpl<V>>,
    b: Seq<LocalStorageImpl<V>>,
    key: u64,
)
    requires
        a.len() == b.len(),
        forall|i: int| 0 <= i < a.len() ==> agree_on(#[trigger] a[i], b[i], key),
    ensures
        contributions(a, key) == contributions(b, key),
        touched(a, key) == touched(b, key),
    decreases a.len(),
{
    if a.len() > 0 {
        lemma_contributions_agree(a.drop_last(), b.drop_last(), key);
    }
    if touched(b, key) {
        let i = choose|i: int| 0 <= i < b.len() && (#[trigger] b[i]).changed_keys().contains(key);
        assert(agree_on(a[i], b[i], key));
    }
}

/// Collects every key that at least one sibling marked changed.
fn gather_changed<V>(others: &Vec<LocalStorageImpl<V>>) -> (changed: HashSet<u64>)
    ensures
        forall|k: u64| #[trigger] changed@.contains(k) <==> touched(others@, k),
{
    let mut changed: HashSet<u64> = HashSet::new();
    let mut i: usize = 0;
    while i < others.len()
        invariant
            i <= others.len(),
            forall|k: u64| #[trigger]
                changed@.contains(k) <==> touched(others@.take(i as int), k),
        decreases others.len() - i,
    {
        absorb_keys(&mut changed, &others[i].changed);
        proof {
            let longer = others@.take(i + 1);
            assert forall|k: u64| #[trigger]
                changed@.contains(k) <==> touched(longer, k) by {
                if others[i as int].changed_keys().contains(k) {
                    assert(longer[i as int].changed_keys().contains(k));
                }
            }
        }
        i += 1;
    }
    assert(others@.take(others.len() as int) =~= others@);
    changed
}

/// Takes out of the siblings, in sibling order, the values that they
/// contribute for `key`. Nothing else about the siblings changes.
fn collect_contributions<V>(others: &mut Vec<LocalStorageImpl<V>>, key: u64) -> (items: Vec<V>)
    ensures
        items@ == contributions(old(others)@, key),
        final(others)@.len() == old(others)@.len(),
        forall|i: int, k: u64|
            0 <= i < old(others)@.len() && k != key ==> #[trigger] agree_on(
                final(others)@[i],
                old(others)@[i],
                k,
            ),
{
    let mut items: Vec<V> = Vec::new();
    let mut i: usize = 0;
    while i < others.len()
        invariant
            i <= others.len(),
            others@.len() == old(others)@.len(),
            items@ == contributions(old(others)@.take(i as int), key),
            forall|j: int| i <= j < others@.len() ==> others@[j] == old(others)@[j],
            forall|j: int, k: u64|
                0 <= j < others@.len() && k != key ==> #[trigger] agree_on(
                    others@[j],
                    old(others)@[j],
                    k,
                ),
        decreases others.len() - i,
    {
        assert(old(others)@.take(i + 1).drop_last() =~= old(others)@.take(i as int));
        if others[i].changed.contains(&key) {
            if let Some(val) = others[i].inner.remove(&key) {
                items.push(val);
            }
        }
        i += 1;
    }
    assert(old(others)@.take(others.len() as int) =~= old(others)@);
    items
}

impl<V: Merge> LocalStorageImpl<V> {
    /// Settles one touched key from the values that the siblings contributed
    /// for it, and says whether the key was marked changed on that account.
    fn absorb_entry(&mut self, key: u64, items: Vec<V>) -> (marked: bool)
        ensures
            merged_entry(
                old(self).entries().get(key),
                items@,
                final(self).entries().get(key),
                marked,
            ),
            forall|k: u64|
                k != key ==> (#[trigger] final(self).entries().get(k)) == old(self).entries().get(k),
            final(self).changed_keys() == if marked {
                old(self).changed_keys().insert(key)
            } else {
                old(self).changed_keys()
            },
    {
        let mut items = items;
        let parent_present = self.inner.contains_key(&key);
        if items.len() == 0 {
            if parent_present {
                self.inner.remove(&key);
                self.changed.insert(key);
            }
            return parent_present;
        }
        if !parent_present && items.len() == 1 {
            if let Some(only) = items.pop() {
                self.inner.insert(key, only);
                self.changed.insert(key);
            }
            return true;
        }
        let decision = V::merge(self.inner.get(&key), items);
        match decision {
            MergeResult::KeepParent => false,
            MergeResult::ReplaceOrInsert(val) => {
                self.inner.insert(key, val);
                self.changed.insert(key);
                true
            },
            MergeResult::Remove => {
                if self.inner.remove(&key).is_some() {
                    self.changed.insert(key);
                    true
                } else {
                    false
                }
            },
        }
    }
}

impl<V: Merge> Join for LocalStorageImpl<V> {
    /// Every key that some sibling marked changed is settled as
    /// [`merged_entry`] says from the parent's value and the siblings'
    /// contributions; every other key is left as it was.
    open spec fn joins_into(self, others: Seq<Self>, after: Self) -> bool {
        forall|key: u64| #[trigger]
            joined_entry(
                self,
                others,
                key,
                after.entries().get(key),
                after.changed_keys().contains(key),
            )
    }

    fn join(&mut self, others: Vec<Self>) {
        let mut others = others;
        let ghost before = *self;
        let ghost siblings = others@;
        let changed = gather_changed(&others);
        let ghost keys = vstd::std_specs::hash::spec_hash_keys_iter(&changed).remaining();
        for key in it: changed.iter()
            invariant
                it.seq() == keys,
                keys.no_duplicates(),
                keys.unref().to_set() == changed@,
                forall|k: u64| #[trigger] changed@.contains(k) <==> touched(siblings, k),
                others@.len() == siblings.len(),
                forall|i: int, k: u64|
                    0 <= i < siblings.len() && !seen(keys, it.index(), k) ==> #[trigger] agree_on(
                        others@[i],
                        siblings[i],
                        k,
                    ),
                forall|k: u64|
                    seen(keys, it.index(), k) ==> #[trigger] joined_entry(
                        before,
                        siblings,
                        k,
                        self.inner@.get(k),
                        self.changed@.contains(k),
                    ),
                forall|k: u64|
                    !seen(keys, it.index(), k) ==> {
                        &&& (#[trigger] self.inner@.get(k)) == before.inner@.get(k)
                        &&& self.changed@.contains(k) == before.changed@.contains(k)
                    },
        {
            let ghost index = it.index();
            let ghost earlier = *self;
            let ghost held = others@;
            proof {
                assert(changed@.contains(*key));
                lemma_contributions_agree(held, siblings, *key);
            }
            let items = collect_contributions(&mut others, *key);
            let marked = self.absorb_entry(*key, items);
            proof {
                assert forall|i: int, k: u64|
                    0 <= i < siblings.len() && !seen(keys, index + 1, k) implies #[trigger] agree_on(
                    others@[i],
                    siblings[i],
                    k,
                ) by {
                    assert(agree_on(others@[i], held[i], k));
                    assert(agree_on(held[i], siblings[i], k));
                }
                assert forall|k: u64| seen(keys, index + 1, k) implies #[trigger] joined_entry(
                    before,
                    siblings,
                    k,
                    self.inner@.get(k),
                    self.changed@.contains(k),
                ) by {
                    if k != *key {
                        assert(joined_entry(
                            before,
                            siblings,
                            k,
                            earlier.inner@.get(k),
                            earlier.changed@.contains(k),
                        ));
                    }
                }
            }
        }
        proof {
            let total = keys.len() as int;
            assert forall|k: u64| seen(keys, total, k) <==> touched(siblings, k) by {
                if seen(keys, total, k) {
                    let j = choose|j: int|
                        0 <= j < total && j < keys.len() && *(#[trigger] keys[j]) == k;
                    assert(keys.unref()[j] == k);
                    assert(keys.unref().to_set().contains(k));
                }
                if touched(siblings, k) {
                    assert(changed@.contains(k));
                }
            }
        }
    }
}

/// Siblings of which none both marked `key` changed and still holds a value
/// under it contribute nothing for the key.
pub proof fn lemma_nothing_contributed<V>(others: Seq<LocalStorageImpl<V>>, key: u64)
    requires
        forall|i: int|
            0 <= i < others.len() ==> !((#[trigger] others[i]).changed_keys().contains(key)
                && others[i].entries().contains_key(key)),
    ensures
        contributions(others, key) == Seq::<V>::empty(),
    decreases others.len(),
{
    if others.len() > 0 {
        lemma_nothing_contributed(others.drop_last(), key);
    }
}

/// What each of the siblings holds under `key`, in sibling order, for
/// siblings that all hold a value under it.
pub open spec fn held_values<V>(others: Seq<LocalStorageImpl<V>>, key: u64) -> Seq<V> {
    Seq::new(others.len(), |i: int| others[i].entries()[key])
}

/// Siblings that all marked `key` changed and all hold a value under it
/// contribute exactly their values, in sibling order.
pub proof fn lemma_everything_contributed<V>(others: Seq<LocalStorageImpl<V>>, key: u64)
    requires
        forall|i: int|
            0 <= i < others.len() ==> (#[trigger] others[i]).changed_keys().contains(key)
                && others[i].entries().contains_key(key),
    ensures
        contributions(others, key) == held_values(others, key),
    decreases others.len(),
{
    if others.len() > 0 {
        let earlier = others.drop_last();
        lemma_everything_contributed(earlier, key);
    } else {
    }
}

/// When two or more siblings each put a value under a key that the parent
/// does not hold, the merge policy is asked with no parent value and with
/// the siblings' values in sibling order, and what it decides is what the
/// parent holds afterwards.
pub proof fn lemma_contested_insert_goes_by_policy<V: Merge>(
    parent: LocalStorageImpl<V>,
    others: Seq<LocalStorageImpl<V>>,
    key: u64,
    after: LocalStorageImpl<V>,
)
    requires
        !parent.entries().contains_key(key),
        others.len() >= 2,
        forall|i: int|
            0 <= i < others.len() ==> (#[trigger] others[i]).changed_keys().contains(key)
                && others[i].entries().contains_key(key),
        parent.joins_into(others, after),
    ensures
        exists|decision: MergeResult<V>| #[trigger]
            V::merges(None, held_values(others, key), decision) && after.entries().get(key)
                == decided(None::<V>, decision).0,
{
    lemma_everything_contributed(others, key);
    assert(joined_entry(
        parent,
        others,
        key,
        after.entries().get(key),
        after.changed_keys().contains(key),
    ));
    let values = contributions(others, key);
    let marked = choose|marked: bool| #[trigger]
        merged_entry(parent.entries().get(key), values, after.entries().get(key), marked);
}

/// When exactly one sibling puts a value under a key that the parent does
/// not hold, that value goes into the parent as it is, the merge policy is
/// not asked, and the key is marked changed.
pub proof fn lemma_single_insert_goes_in<V: Merge>(
    parent: LocalStorageImpl<V>,
    others: Seq<LocalStorageImpl<V>>,
    key: u64,
    after: LocalStorageImpl<V>,
)
    requires
        !parent.entries().contains_key(key),
        touched(others, key),
        contributions(others, key).len() == 1,
        parent.joins_into(others, after),
    ensures
        after.entries().get(key) == Some(contributions(others, key)[0]),
        after.changed_keys().contains(key),
{
    assert(joined_entry(
        parent,
        others,
        key,
        after.entries().get(key),
        after.changed_keys().contains(key),
    ));
}

/// When every sibling that touched a key of the parent removed it, the key
/// is removed from the parent and marked changed. Siblings that left the
/// key alone have no say: they carry no change mark for it and so
/// contribute nothing, even though they still hold the parent's value.
pub proof fn lemma_removed_by_all_is_removed<V: Merge>(
    parent: LocalStorageImpl<V>,
    others: Seq<LocalStorageImpl<V>>,
    key: u64,
    after: LocalStorageImpl<V>,
)
    requires
        parent.entries().contains_key(key),
        touched(others, key),
        forall|i: int|
            0 <= i < others.len() && (#[trigger] others[i]).changed_keys().contains(key)
                ==> !others[i].entries().contains_key(key),
        parent.joins_into(others, after),
    ensures
        !after.entries().contains_key(key),
        after.changed_keys().contains(key),
{
    lemma_nothing_contributed(others, key);
    assert(joined_entry(
        parent,
        others,
        key,
        after.entries().get(key),
        after.changed_keys().contains(key),
    ));
}

/// A key that no sibling touched is exactly as it was in the parent.
pub proof fn lemma_untouched_key_is_kept<V: Merge>(
    parent: LocalStorageImpl<V>,
    others: Seq<LocalStorageImpl<V>>,
    key: u64,
    after: LocalStorageImpl<V>,
)
    requires
        !touched(others, key),
        parent.joins_into(others, after),
    ensures
        after.entries().get(key) == parent.entries().get(key),
        after.changed_keys().contains(key) == parent.changed_keys().contains(key),
{
    assert(joined_entry(
        parent,
        others,
        key,
        after.entries().get(key),
        after.changed_keys().contains(key),
    ));
}

} // verus!
