use ca_watch::throttle::{ThrottleCache, ThrottleKey, SUPPRESSION_WINDOW_MS};

fn key(thread: Option<i32>) -> ThrottleKey {
    ThrottleKey::new("7xKXtg2CW3ed1wGfNxGhqmuRqzNKc2nEkNMTRfwPQEz".to_string(), -100123, thread)
}

#[test]
fn window_is_five_minutes() {
    assert_eq!(SUPPRESSION_WINDOW_MS, 5 * 60 * 1000);
}

#[test]
fn unrecorded_key_not_suppressed() {
    let cache = ThrottleCache::new();
    assert!(!cache.should_suppress(&key(None), 0));
    assert_eq!(cache.last_sent(&key(None)), None);
}

#[test]
fn suppressed_until_window_passes() {
    let mut cache = ThrottleCache::new();
    let t = 1_700_000_000_000;
    cache.record(key(None), t);
    assert!(cache.should_suppress(&key(None), t));
    assert!(cache.should_suppress(&key(None), t + SUPPRESSION_WINDOW_MS - 1));
    assert!(!cache.should_suppress(&key(None), t + SUPPRESSION_WINDOW_MS));
    assert!(!cache.should_suppress(&key(None), t + 10 * SUPPRESSION_WINDOW_MS));
}

#[test]
fn threads_are_independent() {
    let mut cache = ThrottleCache::new();
    cache.record(key(None), 1000);
    assert!(cache.should_suppress(&key(None), 2000));
    assert!(!cache.should_suppress(&key(Some(0)), 2000));
    assert!(!cache.should_suppress(&key(Some(7)), 2000));
    cache.record(key(Some(7)), 1500);
    assert!(cache.should_suppress(&key(Some(7)), 2000));
    assert!(!cache.should_suppress(&key(Some(0)), 2000));
}

#[test]
fn conversations_are_independent() {
    let mut cache = ThrottleCache::new();
    cache.record(key(None), 1000);
    let elsewhere = ThrottleKey::new("7xKXtg2CW3ed1wGfNxGhqmuRqzNKc2nEkNMTRfwPQEz".to_string(), 42, None);
    assert!(!cache.should_suppress(&elsewhere, 1000));
}

#[test]
fn record_replaces_time() {
    let mut cache = ThrottleCache::new();
    cache.record(key(None), 1000);
    cache.record(key(None), 900_000);
    assert_eq!(cache.last_sent(&key(None)), Some(900_000));
    assert!(cache.should_suppress(&key(None), 1_000_000));
}

#[test]
fn extreme_times_do_not_overflow() {
    let mut cache = ThrottleCache::new();
    cache.record(key(None), i64::MIN);
    assert!(!cache.should_suppress(&key(None), i64::MAX));
    cache.record(key(None), i64::MAX);
    assert!(cache.should_suppress(&key(None), i64::MIN));
}
