use node_flow::context::storage::local_storage::{
    LocalStorage, LocalStorageImpl, Merge, MergeResult,
};
use node_flow::context::{Fork, Join, Update};

const MY_VAL: u64 = 1;
const OTHER: u64 = 2;

#[derive(Debug, Clone, PartialEq, Eq)]
struct MyVal(String);

impl Merge for MyVal {
    fn merge(parent: Option<&Self>, others: Vec<Self>) -> MergeResult<Self> {
        let len = parent.map(|v| v.0.len()).unwrap_or_default()
            + others.iter().map(|v| v.0.len()).sum::<usize>();
        if len == 0 {
            return MergeResult::KeepParent;
        }
        let mut res = String::with_capacity(len);
        if let Some(v) = parent {
            res.push_str(&v.0);
        }
        for v in others {
            res.push_str(&v.0);
        }
        MergeResult::ReplaceOrInsert(MyVal(res))
    }
}

#[test]
fn implementation_works() {
    let mut s = LocalStorageImpl::new();
    s.insert(MY_VAL, MyVal("test".into()));
    let v = s.get(MY_VAL);
    assert!(v.is_some());
    assert_eq!(v.unwrap().0, "test".to_string());

    let v = s.get_mut(MY_VAL);
    assert!(v.is_some());
    assert_eq!(v.as_ref().unwrap().0, "test".to_string());
    *v.unwrap() = MyVal("hmm".into());

    let v = s.insert(MY_VAL, MyVal("jop".into()));
    assert!(v.is_some());
    assert_eq!(v.unwrap().0, "hmm".to_string());

    let v = s.remove(MY_VAL);
    assert!(v.is_some());
    assert_eq!(v.unwrap().0, "jop".to_string());
}

#[test]
fn implementation_test_merge() {
    let mut parent = LocalStorageImpl::new();
    let mut child1 = parent.fork();
    child1.insert(MY_VAL, MyVal("bbb".to_owned()));
    let mut child2 = parent.fork();
    child2.insert(MY_VAL, MyVal("ccc".to_owned()));
    let mut child3 = parent.fork();
    child3.insert(MY_VAL, MyVal("ddd".to_owned()));
    parent.join(vec![child1, child2, child3]);
    let mut child = parent.fork();
    child.insert(MY_VAL, MyVal("aaa".to_owned()));
    parent.join(vec![child]);

    let res = parent.get(MY_VAL);
    assert_eq!(res.unwrap().0, "bbbcccdddaaa".to_owned());
}

#[test]
fn join_of_three_inserts_concatenates_in_sibling_order() {
    let mut parent: LocalStorageImpl<MyVal> = LocalStorageImpl::new();
    let mut child1 = parent.fork();
    child1.insert(MY_VAL, MyVal("bbb".to_owned()));
    let mut child2 = parent.fork();
    child2.insert(MY_VAL, MyVal("ccc".to_owned()));
    let mut child3 = parent.fork();
    child3.insert(MY_VAL, MyVal("ddd".to_owned()));
    parent.join(vec![child1, child2, child3]);
    assert_eq!(parent.get(MY_VAL), Some(&MyVal("bbbcccddd".to_owned())));
    assert_eq!(parent.get(OTHER), None);
}

#[test]
fn storage_works() {
    let mut s = LocalStorageImpl::new();
    s.insert(MY_VAL, MyVal("test".into()));
    let v = s.get(MY_VAL);
    assert!(v.is_some());
    assert_eq!(v.unwrap().0, "test".to_string());

    let v = s.get_mut(MY_VAL);
    assert!(v.is_some());
    assert_eq!(v.as_ref().unwrap().0, "test".to_string());
    *v.unwrap() = MyVal("hmm".into());

    let v = s.insert(MY_VAL, MyVal("jop".into()));
    assert!(v.is_some());
    assert_eq!(v.unwrap().0, "hmm".to_string());

    let v = s.remove(MY_VAL);
    assert!(v.is_some());
    assert_eq!(v.unwrap().0, "jop".to_string());
}

#[test]
fn storage_test_merge() {
    let mut parent = LocalStorageImpl::new();
    let mut child1 = parent.fork();
    child1.insert(MY_VAL, MyVal("bbb".to_owned()));
    let mut child2 = parent.fork();
    child2.insert(MY_VAL, MyVal("ccc".to_owned()));
    let mut child3 = parent.fork();
    child3.insert(MY_VAL, MyVal("ddd".to_owned()));
    parent.join(vec![child1, child2, child3]);
    let mut child = parent.fork();
    child.insert(MY_VAL, MyVal("aaa".to_owned()));
    parent.join(vec![child]);

    let res = parent.get(MY_VAL);
    assert_eq!(res.unwrap().0, "bbbcccdddaaa".to_owned());
}

#[test]
fn absent_key_gives_nothing() {
    let mut s: LocalStorageImpl<MyVal> = LocalStorageImpl::new();
    assert_eq!(s.get(MY_VAL), None);
    assert_eq!(s.get_mut(MY_VAL), None);
    assert_eq!(s.remove(MY_VAL), None);
    assert_eq!(s.insert(MY_VAL, MyVal("a".to_owned())), None);
    assert_eq!(s.get(OTHER), None);
}

/// A value whose policy must never be asked.
#[derive(Debug, Clone, PartialEq, Eq)]
struct Silent(u8);

impl Merge for Silent {
    fn merge(_parent: Option<&Self>, _others: Vec<Self>) -> MergeResult<Self> {
        panic!("the merge policy was asked");
    }
}

#[test]
fn join_inserts_a_single_contribution_without_asking_the_policy() {
    let mut parent: LocalStorageImpl<Silent> = LocalStorageImpl::new();
    let child1 = parent.fork();
    let mut child2 = parent.fork();
    child2.insert(MY_VAL, Silent(4));
    let mut child3 = parent.fork();
    child3.insert(MY_VAL, Silent(5));
    child3.remove(MY_VAL);
    parent.join(vec![child1, child2, child3]);
    assert_eq!(parent.get(MY_VAL), Some(&Silent(4)));
}

#[test]
fn join_ignores_a_key_that_was_inserted_and_removed_again() {
    let mut parent: LocalStorageImpl<Silent> = LocalStorageImpl::new();
    let mut child = parent.fork();
    child.insert(MY_VAL, Silent(4));
    child.remove(MY_VAL);
    parent.join(vec![child]);
    assert_eq!(parent.get(MY_VAL), None);
}

#[test]
fn join_removes_a_key_that_every_touching_sibling_removed() {
    let mut parent: LocalStorageImpl<Silent> = LocalStorageImpl::new();
    parent.insert(MY_VAL, Silent(1));
    let mut child1 = parent.fork();
    child1.remove(MY_VAL);
    let mut child2 = parent.fork();
    child2.remove(MY_VAL);
    // the third sibling leaves the key alone and so has no say
    let child3 = parent.fork();
    assert_eq!(child3.get(MY_VAL), Some(&Silent(1)));
    parent.join(vec![child1, child2, child3]);
    assert_eq!(parent.get(MY_VAL), None);
}

#[test]
fn join_keeps_what_no_sibling_touched() {
    let mut parent: LocalStorageImpl<Silent> = LocalStorageImpl::new();
    parent.insert(MY_VAL, Silent(1));
    let mut child1 = parent.fork();
    child1.insert(OTHER, Silent(2));
    let child2 = parent.fork();
    parent.join(vec![child1, child2]);
    assert_eq!(parent.get(MY_VAL), Some(&Silent(1)));
    assert_eq!(parent.get(OTHER), Some(&Silent(2)));
}

#[test]
fn join_of_no_siblings_changes_nothing() {
    let mut parent: LocalStorageImpl<Silent> = LocalStorageImpl::new();
    parent.insert(MY_VAL, Silent(1));
    parent.join(vec![]);
    assert_eq!(parent.get(MY_VAL), Some(&Silent(1)));
}

#[test]
fn join_asks_the_policy_with_the_parent_value() {
    let mut parent = LocalStorageImpl::new();
    parent.insert(MY_VAL, MyVal("x".to_owned()));
    let mut child1 = parent.fork();
    child1.insert(MY_VAL, MyVal("y".to_owned()));
    let child2 = parent.fork();
    let mut child3 = parent.fork();
    if let Some(held) = child3.get_mut(MY_VAL) {
        held.0.push('z');
    }
    parent.join(vec![child1, child2, child3]);
    // the untouched sibling contributes nothing; the one that changed its
    // value in place contributes what it holds now
    assert_eq!(parent.get(MY_VAL), Some(&MyVal("xyxz".to_owned())));
}

/// A number whose policy goes by the sum of the siblings' numbers: a sum
/// of zero keeps the parent, an odd sum removes the entry, and an even sum
/// replaces it.
#[derive(Debug, Clone, PartialEq, Eq)]
struct Vote(u8);

impl Merge for Vote {
    fn merge(_parent: Option<&Self>, others: Vec<Self>) -> MergeResult<Self> {
        let sum: u8 = others.iter().map(|v| v.0).sum();
        if sum == 0 {
            MergeResult::KeepParent
        } else if sum % 2 == 1 {
            MergeResult::Remove
        } else {
            MergeResult::ReplaceOrInsert(Vote(sum))
        }
    }
}

fn voted(parent: Option<u8>, votes: &[u8]) -> Option<Vote> {
    let mut store: LocalStorageImpl<Vote> = LocalStorageImpl::new();
    if let Some(held) = parent {
        store.insert(MY_VAL, Vote(held));
    }
    let mut siblings = Vec::new();
    for vote in votes {
        let mut child = store.fork();
        child.insert(MY_VAL, Vote(*vote));
        siblings.push(child);
    }
    store.join(siblings);
    store.remove(MY_VAL)
}

#[test]
fn join_applies_what_the_policy_decides() {
    assert_eq!(voted(Some(9), &[0]), Some(Vote(9)));
    assert_eq!(voted(None, &[0, 0]), None);
    assert_eq!(voted(Some(9), &[1, 2]), None);
    assert_eq!(voted(None, &[1, 2]), None);
    assert_eq!(voted(Some(9), &[2, 2]), Some(Vote(4)));
    assert_eq!(voted(None, &[2, 4]), Some(Vote(6)));
    // a single contribution for a key the parent lacks goes in as it is
    assert_eq!(voted(None, &[3]), Some(Vote(3)));
}

#[test]
fn join_marks_what_it_changed_for_the_join_around_it() {
    let mut outer: LocalStorageImpl<MyVal> = LocalStorageImpl::new();
    outer.insert(MY_VAL, MyVal("o".to_owned()));
    let mut inner = outer.fork();
    let mut leaf = inner.fork();
    leaf.insert(MY_VAL, MyVal("l".to_owned()));
    inner.join(vec![leaf]);
    assert_eq!(inner.get(MY_VAL), Some(&MyVal("ol".to_owned())));
    // the inner store changed the key by joining, so the outer join sees
    // it as touched
    outer.join(vec![inner]);
    assert_eq!(outer.get(MY_VAL), Some(&MyVal("ool".to_owned())));
}

#[test]
fn join_leaves_alone_what_the_policy_kept() {
    let mut outer: LocalStorageImpl<Vote> = LocalStorageImpl::new();
    outer.insert(MY_VAL, Vote(7));
    let mut inner = outer.fork();
    let mut leaf = inner.fork();
    leaf.insert(MY_VAL, Vote(0));
    // the policy keeps the parent, so the inner store does not count as
    // having touched the key
    inner.join(vec![leaf]);
    let mut other = outer.fork();
    other.remove(MY_VAL);
    outer.join(vec![inner, other]);
    assert_eq!(outer.get(MY_VAL), None);
}

#[test]
fn update_from_adopts_the_entries_and_the_marks() {
    let mut outer: LocalStorageImpl<MyVal> = LocalStorageImpl::new();
    let mut parent = outer.fork();
    let mut child = parent.fork();
    child.insert(MY_VAL, MyVal("c".to_owned()));
    parent.update_from(child);
    assert_eq!(parent.get(MY_VAL), Some(&MyVal("c".to_owned())));
    outer.join(vec![parent]);
    assert_eq!(outer.get(MY_VAL), Some(&MyVal("c".to_owned())));
}

#[test]
fn fork_copies_the_entries_and_forgets_the_marks() {
    let mut parent: LocalStorageImpl<Silent> = LocalStorageImpl::new();
    parent.insert(MY_VAL, Silent(1));
    let child = parent.fork();
    assert_eq!(child.get(MY_VAL), Some(&Silent(1)));
    // the fork carries no mark for the key, so joining it changes nothing
    let mut grandparent: LocalStorageImpl<Silent> = LocalStorageImpl::new();
    grandparent.join(vec![child]);
    assert_eq!(grandparent.get(MY_VAL), None);
}
