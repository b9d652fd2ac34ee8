use api_gemini::config::SyncStatus;
use api_gemini::config_sync::{ConfigCacheEntry, ConfigSyncCache};
use api_gemini::dynamic_config::DynamicConfig;

fn config_with_retries(n: u32) -> DynamicConfig {
    let mut c = DynamicConfig::new();
    c.retry_attempts = n;
    c
}

#[test]
fn cached_configs_are_read_back_within_their_lifetime() {
    let mut cache = ConfigSyncCache::new(100, 10);
    cache.cache_config_at("a".to_string(), config_with_retries(7), 1_000);
    let got = cache.get_cached_config_at("a", 1_100).unwrap();
    assert_eq!(got.retry_attempts, 7);
    assert_eq!(cache.entries[0].1.access_count, 1);
    assert_eq!(cache.entries[0].1.last_accessed, 1_100);
    // Past the time to live the entry is not handed out but stays until cleanup.
    assert!(cache.get_cached_config_at("a", 1_101).is_none());
    assert_eq!(cache.cache_stats_at(1_101), (1, 1));
    assert_eq!(cache.cleanup_cache_at(1_101), 1);
    assert!(cache.entries.is_empty());
    assert!(cache.get_cached_config_at("missing", 0).is_none());
}

#[test]
fn full_cache_drops_least_recently_used_entry() {
    let mut cache = ConfigSyncCache::new(1_000_000, 2);
    cache.cache_config_at("a".to_string(), config_with_retries(1), 10);
    cache.cache_config_at("b".to_string(), config_with_retries(2), 20);
    assert!(cache.get_cached_config_at("a", 30).is_some());
    cache.cache_config_at("c".to_string(), config_with_retries(3), 40);
    assert_eq!(cache.entries.len(), 2);
    assert!(cache.get_cached_config_at("b", 50).is_none());
    assert_eq!(cache.get_cached_config_at("a", 50).unwrap().retry_attempts, 1);
    assert_eq!(cache.get_cached_config_at("c", 50).unwrap().retry_attempts, 3);
}

#[test]
fn ties_in_last_use_go_to_the_smallest_key() {
    let mut cache = ConfigSyncCache::new(1_000_000, 2);
    cache.cache_config_at("zeta".to_string(), config_with_retries(1), 10);
    cache.cache_config_at("alpha".to_string(), config_with_retries(2), 10);
    cache.cache_config_at("mid".to_string(), config_with_retries(3), 20);
    let keys: Vec<&str> = cache.entries.iter().map(|(k, _)| k.as_str()).collect();
    assert_eq!(keys, vec!["zeta", "mid"]);
}

#[test]
fn expired_entries_make_room_first_and_keys_are_replaced() {
    let mut cache = ConfigSyncCache::new(50, 2);
    cache.cache_config_at("old".to_string(), config_with_retries(1), 0);
    cache.cache_config_at("k".to_string(), config_with_retries(2), 40);
    cache.cache_config_at("new".to_string(), config_with_retries(3), 60);
    let keys: Vec<&str> = cache.entries.iter().map(|(k, _)| k.as_str()).collect();
    assert_eq!(keys, vec!["k", "new"]);
    cache.cache_config_at("k".to_string(), config_with_retries(9), 70);
    assert_eq!(cache.get_cached_config_at("k", 70).unwrap().retry_attempts, 9);
}

#[test]
fn entries_and_status() {
    let mut e = ConfigCacheEntry::new_at(config_with_retries(4), 5);
    assert!(!e.is_expired(10, 15));
    assert!(e.is_expired(10, 16));
    assert!(!e.is_expired(10, 1));
    e.mark_accessed(9);
    assert_eq!(e.access_count, 1);
    assert_eq!(e.last_accessed, 9);
    let mut cache = ConfigSyncCache::new(1, 1);
    assert_eq!(*cache.sync_status(), SyncStatus::Synchronized);
    cache.update_sync_status(SyncStatus::Failed("x".to_string()));
    assert_eq!(*cache.sync_status(), SyncStatus::Failed("x".to_string()));
}
