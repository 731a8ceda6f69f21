use solve::cache::{LookupResult, Manager};

#[test]
fn test_manager() {
    // The single-flight and release discipline around a store, driven
    // synchronously: two loads of one key share one underlying load, and
    // the release value is surrendered exactly once, after the last
    // handle is gone.
    let mut manager: Manager<usize> = Manager::new(10);
    {
        let key = "key1".to_string();
        let first = manager.lookup(&key);
        assert!(matches!(first, LookupResult::StartLoad));
        let (handle1, evicted) = manager.complete_load_ok(&key, 111);
        assert!(evicted.is_none());
        let handle2 = match manager.lookup(&key) {
            LookupResult::Hit(h) => h,
            _ => panic!("expected a hit"),
        };
        assert_eq!(handle2, handle1);
        assert_eq!(*manager.value(handle1), 111);
        assert_eq!(*manager.value(handle2), 111);
        // Dropping the key from the cache keeps the value alive for the
        // outstanding handles.
        assert!(manager.remove(&key).is_none());
        assert!(manager.release(handle1).is_none());
        assert_eq!(manager.release(handle2), Some(111));
    }
    {
        let key = "key2".to_string();
        let first = manager.lookup(&key);
        assert!(matches!(first, LookupResult::StartLoad));
        // A second load of the same key joins the one in flight instead
        // of starting its own.
        let second = manager.lookup(&key);
        assert!(matches!(second, LookupResult::InFlight));
        let (handle1, evicted) = manager.complete_load_ok(&key, 222);
        assert!(evicted.is_none());
        let handle2 = match manager.lookup(&key) {
            LookupResult::Hit(h) => h,
            _ => panic!("expected a hit"),
        };
        assert_eq!(*manager.value(handle1), 222);
        assert_eq!(*manager.value(handle2), 222);
        assert!(manager.remove(&key).is_none());
        assert!(manager.release(handle1).is_none());
        assert_eq!(manager.release(handle2), Some(222));
    }
}

#[test]
fn failed_load_clears_flight_mark() {
    let mut manager: Manager<usize> = Manager::new(10);
    let key = "key1".to_string();
    assert!(matches!(manager.lookup(&key), LookupResult::StartLoad));
    manager.complete_load_err(&key);
    // The key can be tried again.
    assert!(matches!(manager.lookup(&key), LookupResult::StartLoad));
    let (h, _) = manager.complete_load_ok(&key, 5);
    assert_eq!(*manager.value(h), 5);
    assert!(manager.release(h).is_none());
    assert_eq!(manager.remove(&key), Some(5));
}

#[test]
fn eviction_frees_unreferenced_entry() {
    let mut manager: Manager<usize> = Manager::new(1);
    let key1 = "key1".to_string();
    let key2 = "key2".to_string();
    assert!(matches!(manager.lookup(&key1), LookupResult::StartLoad));
    let (h1, evicted) = manager.complete_load_ok(&key1, 111);
    assert!(evicted.is_none());
    // Give the first entry's only outside handle back: the cache alone
    // holds it now.
    assert!(manager.release(h1).is_none());
    // Loading a second key evicts the first from the bounded cache, and
    // its value comes back to be released.
    assert!(matches!(manager.lookup(&key2), LookupResult::StartLoad));
    let (h2, evicted) = manager.complete_load_ok(&key2, 222);
    // The displaced entry comes back under its own key, to be released.
    assert_eq!(evicted, Some(("key1".to_string(), 111)));
    assert_eq!(*manager.value(h2), 222);
    assert!(matches!(manager.lookup(&key1), LookupResult::StartLoad));
    manager.complete_load_err(&key1);
    assert!(manager.release(h2).is_none());
    assert_eq!(manager.remove(&key2), Some(222));
}

#[test]
fn cloned_handles_count() {
    let mut manager: Manager<usize> = Manager::new(4);
    let key = "key".to_string();
    assert!(matches!(manager.lookup(&key), LookupResult::StartLoad));
    let (h, _) = manager.complete_load_ok(&key, 9);
    assert!(manager.acquire(h));
    assert!(manager.remove(&key).is_none());
    assert!(manager.release(h).is_none());
    assert_eq!(manager.release(h), Some(9));
}
