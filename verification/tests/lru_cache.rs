//! Bounded-LRU cache tests: recency order, refresh, and eviction of the
//! least-recently-used entry once capacity is exceeded.

use aip::lru::LruCache;

#[test]
fn get_returns_cached_documents() {
    let mut cache = LruCache::new(4);
    cache.put("did:plc:a".to_string(), "doc-a".to_string());
    cache.put("did:plc:b".to_string(), "doc-b".to_string());
    assert_eq!(cache.get("did:plc:a").as_deref(), Some("doc-a"));
    assert_eq!(cache.get("did:plc:b").as_deref(), Some("doc-b"));
    assert_eq!(cache.get("did:plc:c"), None);
    assert_eq!(cache.len(), 2);
}

#[test]
fn full_cache_evicts_least_recently_used() {
    let mut cache = LruCache::new(2);
    cache.put("a".to_string(), "1".to_string());
    cache.put("b".to_string(), "2".to_string());
    // touch "a" so "b" becomes the least recently used
    assert!(cache.get("a").is_some());
    cache.put("c".to_string(), "3".to_string());
    assert_eq!(cache.len(), 2);
    assert_eq!(cache.get("b"), None);
    assert_eq!(cache.get("a").as_deref(), Some("1"));
    assert_eq!(cache.get("c").as_deref(), Some("3"));
}

#[test]
fn put_refreshes_an_existing_key_without_growing() {
    let mut cache = LruCache::new(2);
    cache.put("a".to_string(), "1".to_string());
    cache.put("b".to_string(), "2".to_string());
    cache.put("a".to_string(), "1bis".to_string());
    assert_eq!(cache.len(), 2);
    assert_eq!(cache.get("a").as_deref(), Some("1bis"));
    assert_eq!(cache.get("b").as_deref(), Some("2"));
    // refreshing "a" made it most recent, so "b" leaves next
    cache.put("a".to_string(), "1ter".to_string());
    cache.put("c".to_string(), "3".to_string());
    assert_eq!(cache.get("b"), None);
    assert_eq!(cache.get("a").as_deref(), Some("1ter"));
}
