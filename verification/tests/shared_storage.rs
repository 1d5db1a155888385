use node_flow::context::storage::shared_storage::{SharedStorage, SharedStorageImpl};

const MY_VAL: u64 = 1;

#[derive(Debug, Clone, PartialEq, Eq)]
struct MyVal(String);

#[test]
fn shared_storage_works() {
    let mut s = SharedStorageImpl::new();
    let _ = s.insert(MY_VAL, MyVal("test".into()));
    let v = s.get(MY_VAL);
    assert!(v.is_some());
    assert_eq!(v.unwrap().0, "test".to_string());

    let v = s.get_mut(MY_VAL);
    assert!(v.is_some());
    assert_eq!(v.as_ref().unwrap().0, "test".to_string());
    *v.unwrap() = MyVal("hmm".into());

    let v = s.insert(MY_VAL, MyVal("jop".into()));
    assert!(v.is_some());
    assert_eq!(v.unwrap().0, "hmm".to_string());

    let v = s.remove(MY_VAL);
    assert!(v.is_some());
    assert_eq!(v.unwrap().0, "jop".to_string());
}

#[test]
fn shared_storage_last_insert_stands() {
    let mut s = SharedStorageImpl::new();
    for text in ["bbb", "ccc", "ddd", "aaa"] {
        let _ = s.insert(MY_VAL, MyVal(text.to_owned()));
    }
    assert_eq!(s.get(MY_VAL).unwrap().0, "aaa".to_owned());
}

#[test]
fn insert_with_if_absent_runs_one_computation_for_two_callers() {
    let mut s: SharedStorageImpl<MyVal> = SharedStorageImpl::new();
    let mut runs = 0;
    let first: Result<(), ()> = s.insert_with_if_absent(MY_VAL, || {
        runs += 1;
        Ok(MyVal("first".to_owned()))
    });
    assert_eq!(first, Ok(()));
    let second: Result<(), ()> = s.insert_with_if_absent(MY_VAL, || {
        runs += 1;
        Ok(MyVal("second".to_owned()))
    });
    assert_eq!(second, Ok(()));
    assert_eq!(runs, 1);
    assert_eq!(s.get(MY_VAL), Some(&MyVal("first".to_owned())));
}

#[test]
fn reserve_is_won_by_one_caller_only() {
    let mut s: SharedStorageImpl<MyVal> = SharedStorageImpl::new();
    assert!(s.reserve(MY_VAL));
    assert!(!s.reserve(MY_VAL));
    // a reserved slot holds nothing until its owner fills it
    assert_eq!(s.get(MY_VAL), None);
    s.fill(MY_VAL, MyVal("mine".to_owned()));
    assert!(!s.reserve(MY_VAL));
    assert_eq!(s.get(MY_VAL), Some(&MyVal("mine".to_owned())));
}

#[test]
fn insert_with_if_absent_hands_the_error_back_and_keeps_the_slot() {
    let mut s: SharedStorageImpl<MyVal> = SharedStorageImpl::new();
    let failed: Result<(), &str> = s.insert_with_if_absent(MY_VAL, || Err("no"));
    assert_eq!(failed, Err("no"));
    assert_eq!(s.get(MY_VAL), None);
    // the slot is taken: a later caller stands back
    let later: Result<(), &str> =
        s.insert_with_if_absent(MY_VAL, || panic!("the computation was run"));
    assert_eq!(later, Ok(()));
    assert_eq!(s.get(MY_VAL), None);
    // a plain insert fills the empty slot and replaces nothing
    assert_eq!(s.insert(MY_VAL, MyVal("x".to_owned())), None);
}

#[test]
fn shared_storage_remove_takes_the_slot_away() {
    let mut s: SharedStorageImpl<MyVal> = SharedStorageImpl::new();
    assert_eq!(s.remove(MY_VAL), None);
    assert!(s.reserve(MY_VAL));
    assert_eq!(s.remove(MY_VAL), None);
    assert!(s.reserve(MY_VAL));
    assert_eq!(s.get_mut(MY_VAL), None);
}
