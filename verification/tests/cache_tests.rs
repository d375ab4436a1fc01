use rustyspoty::cache::Cache;
use std::time::Duration;

#[test]
fn set_then_get_returns_the_value() {
    let mut cache: Cache<String> = Cache::new(Duration::from_secs(600));
    cache.set("k".to_string(), "v".to_string());
    assert_eq!(cache.get("k"), Some("v".to_string()));
    assert_eq!(cache.get("other"), None);
}

#[test]
fn get_on_an_empty_cache_finds_nothing() {
    let cache: Cache<u8> = Cache::new(Duration::from_secs(1));
    assert_eq!(cache.get("k"), None);
    assert_eq!(cache.get_at("k", 0), None);
}

#[test]
fn entry_is_visible_until_its_expiry() {
    let mut cache: Cache<u32> = Cache::new(Duration::from_nanos(100));
    cache.set_at("k".to_string(), 7, 1_000);
    assert_eq!(cache.get_at("k", 1_000), Some(7));
    assert_eq!(cache.get_at("k", 1_099), Some(7));
}

#[test]
fn entry_expires_after_ttl() {
    let mut cache: Cache<u32> = Cache::new(Duration::from_nanos(100));
    cache.set_at("k".to_string(), 7, 1_000);
    assert_eq!(cache.get_at("k", 1_100), None);
    assert_eq!(cache.get_at("k", 5_000), None);
    assert_eq!(cache.get_at("k", u128::MAX), None);
}

#[test]
fn ttl_is_counted_in_nanoseconds_of_the_duration() {
    let mut cache: Cache<u32> = Cache::new(Duration::from_secs(600));
    cache.set_at("k".to_string(), 1, 5);
    assert_eq!(cache.get_at("k", 600_000_000_004), Some(1));
    assert_eq!(cache.get_at("k", 600_000_000_005), None);
}

#[test]
fn zero_ttl_hides_every_entry() {
    let mut cache: Cache<u32> = Cache::new(Duration::from_secs(0));
    cache.set_at("k".to_string(), 7, 10);
    assert_eq!(cache.get_at("k", 10), None);
    cache.set("j".to_string(), 8);
    assert_eq!(cache.get("j"), None);
}

#[test]
fn set_overwrites_and_restamps() {
    let mut cache: Cache<&'static str> = Cache::new(Duration::from_nanos(10));
    cache.set_at("k".to_string(), "old", 0);
    cache.set_at("k".to_string(), "new", 8);
    assert_eq!(cache.get_at("k", 9), Some("new"));
    assert_eq!(cache.get_at("k", 17), Some("new"));
    assert_eq!(cache.get_at("k", 18), None);
}

#[test]
fn set_leaves_other_keys_alone() {
    let mut cache: Cache<u8> = Cache::new(Duration::from_nanos(10));
    cache.set_at("a".to_string(), 1, 0);
    cache.set_at("b".to_string(), 2, 5);
    assert_eq!(cache.get_at("a", 9), Some(1));
    assert_eq!(cache.get_at("a", 10), None);
    assert_eq!(cache.get_at("b", 10), Some(2));
}

#[test]
fn a_clock_near_its_end_does_not_overflow() {
    let mut cache: Cache<u8> = Cache::new(Duration::from_secs(600));
    cache.set_at("k".to_string(), 1, u128::MAX - 1);
    assert_eq!(cache.get_at("k", u128::MAX), Some(1));
    assert_eq!(cache.get_at("k", 0), Some(1));
}

#[test]
fn real_clock_entry_expires() {
    let mut cache: Cache<u8> = Cache::new(Duration::from_millis(30));
    cache.set("k".to_string(), 1);
    assert_eq!(cache.get("k"), Some(1));
    let deadline = cache.elapsed() + 60_000_000;
    while cache.elapsed() < deadline {}
    assert_eq!(cache.get("k"), None);
}
