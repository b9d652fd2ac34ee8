use api_gemini::client::Client;
use api_gemini::error::Error;
use api_gemini::retrieval_api::OptimizedSemanticRetrievalApi;
use api_gemini::retrieval_cache::AdaptiveLruCache;
use api_gemini::vector_index::FlatVectorIndex;

#[test]
fn written_values_are_read_back_and_counted() {
    let mut c: AdaptiveLruCache<Vec<u32>> = AdaptiveLruCache::new(4);
    c.put_at("a".to_string(), vec![1, 2], 10);
    assert_eq!(c.get_at("a", 11), Some(&vec![1, 2]));
    assert_eq!(c.get_at("b", 11), None);
    // A write counts as a miss, as does the failed lookup.
    assert_eq!(c.counts(), (1, 2, 1, 4, 256));
    c.put_at("a".to_string(), vec![3], 12);
    assert_eq!(c.get_at("a", 12), Some(&vec![3]));
    assert_eq!(c.cache.len(), 1);
    assert_eq!(c.access_order.len(), 2);
    assert_eq!(c.access_counter, 2);
}

#[test]
fn expired_entries_miss_and_are_dropped_on_write() {
    let mut c: AdaptiveLruCache<u8> = AdaptiveLruCache::with_ttl(4, 100);
    c.put_at("a".to_string(), 1, 1_000);
    assert_eq!(c.get_at("a", 1_100), Some(&1));
    assert_eq!(c.get_at("a", 1_101), None);
    assert_eq!(c.cache.len(), 1);
    c.put_at("b".to_string(), 2, 1_101);
    assert_eq!(c.cache.len(), 1);
    assert_eq!(c.cache[0].0, "b");
}

#[test]
fn full_cache_evicts_oldest_written_key_once() {
    let mut c: AdaptiveLruCache<u8> = AdaptiveLruCache::new(2);
    c.put_at("a".to_string(), 1, 0);
    c.put_at("b".to_string(), 2, 0);
    assert!(c.put_would_end(0));
    c.put_at("c".to_string(), 3, 0);
    assert_eq!(c.get_at("a", 0), None);
    assert_eq!(c.get_at("b", 0), Some(&2));
    assert_eq!(c.get_at("c", 0), Some(&3));
    // The record still names "a" first, and "a" is gone: a further write
    // into the full cache would never end.
    assert!(!c.put_would_end(0));
    // Writing "a" again would not be allowed either, but removing an entry
    // makes room.
    assert_eq!(c.remove("b"), Some(2));
    assert!(c.put_would_end(0));
    assert_eq!(c.access_order.len(), 2);
    assert!(c.access_order.iter().all(|(_, k)| k != "b"));
}

#[test]
fn zero_capacity_cache_takes_one_write() {
    let mut c: AdaptiveLruCache<u8> = AdaptiveLruCache::new(0);
    assert!(c.put_would_end(0));
    c.put_at("a".to_string(), 1, 0);
    assert_eq!(c.get_at("a", 0), Some(&1));
    assert!(!c.put_would_end(0));
}

#[test]
fn clearing_restarts_numbers_but_keeps_counts() {
    let mut c: AdaptiveLruCache<u8> = AdaptiveLruCache::new(3);
    c.put_at("a".to_string(), 1, 0);
    let _ = c.get_at("a", 0);
    assert_eq!(c.remove("zz"), None);
    c.clear();
    assert_eq!(c.counts(), (1, 1, 0, 3, 0));
    assert_eq!(c.access_counter, 0);
    assert!(c.cache.is_empty() && c.access_order.is_empty());
}

#[test]
fn vector_index_checks_dimensions_and_counts() {
    let mut index = FlatVectorIndex::new(3);
    match index.add_vector("a", vec![0, 0], None) {
        Err(Error::InvalidArgument(m)) => assert_eq!(m, "Vector dimension mismatch : expected 3, got 2"),
        other => panic!("unexpected {:?}", other),
    }
    assert!(index.add_vector("a", vec![1, 2, 3], None).is_ok());
    assert!(index.add_vector("b", vec![4, 5, 6], None).is_ok());
    assert!(index.add_vector("a", vec![7, 8, 9], None).is_ok());
    assert_eq!(index.vectors.len(), 2);
    assert_eq!(index.vectors[0].vector, vec![7, 8, 9]);
    assert_eq!(index.get_stats().vector_count, 2);
    assert_eq!(index.get_stats().memory_usage_bytes, 2 * (3 * 4 + 64));
    match index.check_query(4) {
        Err(Error::InvalidArgument(m)) => assert_eq!(m, "Query vector dimension mismatch : expected 3, got 4"),
        other => panic!("unexpected {:?}", other),
    }
    assert!(index.check_query(3).is_ok());
    assert_eq!(index.remove_vector("a").unwrap(), true);
    assert_eq!(index.remove_vector("a").unwrap(), false);
    assert_eq!(index.get_stats().vector_count, 1);
    index.record_search(42);
    assert_eq!(index.get_stats().total_searches, 1);
    assert!(index.optimize_at(99, 5).is_ok());
    assert_eq!(index.get_stats().last_optimized_at, Some(99));
}

#[test]
fn retrieval_api_sizes_its_caches() {
    let client = Client::new("k".to_string(), "https://example.com".to_string());
    let mut api = OptimizedSemanticRetrievalApi::new(&client, 7);
    assert_eq!(api.index.dimensions, 1536);
    assert_eq!(api.cache.capacity, 10_000);
    assert_eq!(api.embedding_cache.capacity, 5_000);
    assert_eq!(api.cache.ttl, Some(3_600_000_000_000));
    assert_eq!(api.get_metrics().last_updated, 7);
    api.embedding_cache.put_at("text".to_string(), vec![1, 2], 8);
    api.clear_caches();
    assert!(api.embedding_cache.cache.is_empty());
    assert_eq!(api.get_cache_counts().1, (0, 1, 0, 5_000, 0));
    assert!(api.optimize_index(9, 3).is_ok());
    assert_eq!(api.get_index_stats().unwrap().build_time_ms, 3);
}
