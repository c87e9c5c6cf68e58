use render_core::secondary::SecondaryCache;

fn wait_millis(ms: u64) {
    let start = std::time::Instant::now();
    while start.elapsed() < std::time::Duration::from_millis(ms) {
        std::hint::spin_loop();
    }
}

#[test]
fn entry_present_before_ttl_elapses() {
    let mut cache = SecondaryCache::new(16, 60000);
    cache.insert(7, 42);
    assert_eq!(cache.get(7), Some(42));
    assert_eq!(cache.get(8), None);
}

#[test]
fn entry_absent_after_ttl_elapses() {
    let mut cache = SecondaryCache::new(16, 150);
    cache.insert(7, 42);
    assert_eq!(cache.get(7), Some(42));
    wait_millis(400);
    assert_eq!(cache.get(7), None);
}

#[test]
fn insert_replaces_earlier_value() {
    let mut cache = SecondaryCache::new(16, 60000);
    cache.insert(7, 42);
    cache.insert(7, 43);
    assert_eq!(cache.get(7), Some(43));
}

#[test]
fn bounded_cache_never_exceeds_capacity() {
    let mut cache = SecondaryCache::new(3, 60000);
    for k in 0..32u64 {
        cache.insert(k, k * 10);
        cache.run_pending_tasks();
        assert!(cache.entry_count() <= 3);
    }
    cache.run_pending_tasks();
    assert!(cache.entry_count() <= 3);
}

#[test]
fn longest_admitted_ttl_builds() {
    // The store accepts a time-to-live of exactly 1000 years — the
    // longest duration the contract admits.
    let mut cache = SecondaryCache::new(4, render_core::secondary::MAX_TTL_MILLIS);
    cache.insert(1, 2);
    assert_eq!(cache.get(1), Some(2));
}
