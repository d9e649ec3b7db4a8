use easy_captcha::ChallengeStore;

#[test]
fn interval_boundaries_inclusive() {
    // target 40.0 degrees, leeway 30.0 degrees, in millidegrees
    let mut store = ChallengeStore::new();
    store.insert("abcdefgh".to_string(), 10_000, 70_000);
    assert!(store.check(&"abcdefgh".to_string(), 40_000));
    assert!(store.check(&"abcdefgh".to_string(), 10_000));
    assert!(store.check(&"abcdefgh".to_string(), 70_000));
    assert!(!store.check(&"abcdefgh".to_string(), 9_999));
    assert!(!store.check(&"abcdefgh".to_string(), 70_001));
}

#[test]
fn unknown_identifier_is_false() {
    let mut store = ChallengeStore::new();
    store.insert("known".to_string(), -180_000, 180_000);
    assert!(!store.check(&"unknown".to_string(), 0));
    assert!(!store.check(&"KNOWN".to_string(), 0));
    assert!(!store.check(&"".to_string(), 0));
}

#[test]
fn empty_store_accepts_nothing() {
    let store = ChallengeStore::new();
    assert!(!store.check(&"anything".to_string(), 0));
    assert!(!store.check(&"anything".to_string(), i64::MIN));
    assert!(!store.check(&"anything".to_string(), i64::MAX));
}

#[test]
fn repeated_insert_last_write_wins() {
    let mut store = ChallengeStore::new();
    store.insert("dup".to_string(), 0, 1_000);
    store.insert("dup".to_string(), 50_000, 60_000);
    assert!(!store.check(&"dup".to_string(), 500));
    assert!(store.check(&"dup".to_string(), 55_000));
}

#[test]
fn lookup_reports_latest_interval() {
    let mut store = ChallengeStore::new();
    store.insert("a".to_string(), 1, 2);
    store.insert("b".to_string(), 3, 4);
    assert_eq!(store.lookup(&"a".to_string()), Some((1, 2)));
    assert_eq!(store.lookup(&"b".to_string()), Some((3, 4)));
    assert_eq!(store.lookup(&"c".to_string()), None);
}

#[test]
fn inspect_is_a_stable_copy() {
    let mut store = ChallengeStore::new();
    store.insert("one".to_string(), -5, 5);
    store.insert("two".to_string(), 10, 20);
    let mut copy = store.inspect();
    assert_eq!(copy.len(), 2);
    assert!(copy.contains(&("one".to_string(), (-5, 5))));
    assert!(copy.contains(&("two".to_string(), (10, 20))));
    // Mutating the copy must not touch the store.
    copy.clear();
    copy.push(("ghost".to_string(), (0, 0)));
    assert!(store.check(&"one".to_string(), 0));
    assert!(!store.check(&"ghost".to_string(), 0));
}
