use aoi::response::{decide, CacheDecision, ResponseCache, STALE_AFTER_SECS};

#[test]
fn missing_entry_is_rendered() {
    assert_eq!(decide(None, 10), CacheDecision::Render);
}

#[test]
fn second_request_is_served_from_cache() {
    let entry = ResponseCache::new(vec![1, 2, 3], 100);
    assert_eq!(decide(Some(&entry), 100), CacheDecision::Serve);
    assert_eq!(decide(Some(&entry), 100 + STALE_AFTER_SECS), CacheDecision::Serve);
    assert_eq!(entry.response, vec![1, 2, 3]);
}

#[test]
fn stale_entry_is_served_and_refreshed() {
    let stale = ResponseCache::new(vec![1], 100);
    assert_eq!(decide(Some(&stale), 161), CacheDecision::ServeAndRefresh);
    let refreshed = ResponseCache::new(vec![2], 161);
    assert_eq!(decide(Some(&refreshed), 170), CacheDecision::Serve);
    assert_eq!(refreshed.response, vec![2]);
}

#[test]
fn staleness_threshold() {
    let e = ResponseCache::new(vec![], 50);
    assert!(!e.is_stale(110));
    assert!(e.is_stale(111));
    assert!(!e.is_stale(10));
}

#[test]
fn entry_weight_is_byte_length() {
    assert_eq!(ResponseCache::new(vec![0; 1234], 0).weight(), 1234);
    assert_eq!(ResponseCache::new(vec![], 0).weight(), 0);
}
