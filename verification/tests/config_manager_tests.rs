use api_gemini::config::{ConfigChangeType, ConfigManagerOptions};
use api_gemini::config_manager::{ConfigManager, ConfigUpdate};
use api_gemini::dynamic_config::DynamicConfig;
use api_gemini::error::Error;
use api_gemini::versioning::EntryStamp;

fn stamp(t: u128, size: usize) -> EntryStamp {
    EntryStamp { timestamp: t, config_hash: 7, size_bytes: size }
}

fn config_with_retries(n: u32) -> DynamicConfig {
    let mut c = DynamicConfig::new();
    c.retry_attempts = n;
    c
}

fn options(notify: bool, caching: bool, max_entries: usize, interval: Option<u128>) -> ConfigManagerOptions {
    ConfigManagerOptions {
        max_history_entries: max_entries,
        max_history_memory_bytes: 0,
        enable_change_notifications: notify,
        enable_validation_caching: caching,
        cleanup_interval: interval,
    }
}

#[test]
fn manager_starts_with_version_zero() {
    let m = ConfigManager::with_options_at(config_with_retries(3), options(true, false, 10, None), stamp(1, 40), 5);
    assert_eq!(m.history().len(), 1);
    assert_eq!(m.history()[0].version_id, "v0");
    assert_eq!(m.history()[0].change_type, ConfigChangeType::Update);
    assert_eq!(m.current().retry_attempts, 3);
    assert_eq!(m.metrics().history_entries, 1);
    assert_eq!(m.metrics().history_memory_bytes, 40);
    assert_eq!(m.metrics().total_updates, 0);
    assert_eq!(m.last_cleanup, 5);
}

#[test]
fn update_records_version_and_announces_it() {
    let mut m = ConfigManager::with_options_at(config_with_retries(3), options(true, false, 10, None), stamp(1, 40), 0);
    let event = m.apply_update(m.update(config_with_retries(4)), 250, stamp(2, 50), 99, 10).unwrap().unwrap();
    assert_eq!(event.version_id, "v2");
    assert_eq!(event.change_type, ConfigChangeType::Update);
    assert_eq!(event.timestamp, 99);
    assert_eq!(event.new_config.retry_attempts, 4);
    assert_eq!(event.previous_config.unwrap().retry_attempts, 4);
    assert_eq!(m.current().retry_attempts, 4);
    assert_eq!(m.history().len(), 2);
    assert_eq!(m.history()[1].version_id, "v1");
    assert_eq!(m.history()[1].size_bytes, 50);
    let metrics = m.metrics();
    assert_eq!(metrics.total_updates, 1);
    assert_eq!(metrics.change_events_sent, 1);
    // The first update sets the average time.
    assert_eq!(metrics.avg_update_time_us, 250);
    assert_eq!(metrics.history_entries, 2);
    assert_eq!(metrics.history_memory_bytes, 90);
}

#[test]
fn update_without_notifications_sends_no_event() {
    let mut m = ConfigManager::with_options_at(config_with_retries(3), options(false, false, 10, None), stamp(1, 40), 0);
    assert!(m.apply_update(m.update(config_with_retries(5)), 10, stamp(2, 50), 99, 10).unwrap().is_none());
    assert_eq!(m.metrics().change_events_sent, 0);
    assert_eq!(m.current().retry_attempts, 5);
}

#[test]
fn invalid_update_is_refused_and_counted() {
    let mut m = ConfigManager::with_options_at(config_with_retries(3), options(true, false, 10, None), stamp(1, 40), 0);
    let mut bad = DynamicConfig::new();
    bad.timeout = 0;
    match m.apply_update(m.update(bad), 10, stamp(2, 50), 99, 10) {
        Err(Error::ConfigurationError(msg)) => assert_eq!(msg, "Timeout cannot be zero"),
        other => panic!("unexpected {:?}", other),
    }
    assert_eq!(m.metrics().failed_updates, 1);
    assert_eq!(m.metrics().total_updates, 0);
    assert_eq!(m.history().len(), 1);
    assert_eq!(m.current().retry_attempts, 3);
}

#[test]
fn validation_cache_never_skips_the_check() {
    let mut m = ConfigManager::with_options_at(config_with_retries(3), options(false, true, 10, None), stamp(1, 40), 0);
    // A matching cached hash does not let an invalid configuration through:
    // it is refused and the failure counted.
    let mut unchecked = DynamicConfig::new();
    unchecked.timeout = 0;
    unchecked.validation_hash = Some(42);
    let update = m.update(unchecked);
    assert!(m.apply_update_with_hash(update, Some(42), 1, stamp(2, 5), 3, 4).is_err());
    assert_eq!(m.metrics().failed_updates, 1);
    assert_eq!(m.history().len(), 1);
    // Without a match the configuration is checked and the hash recorded.
    let update = m.update(config_with_retries(6));
    assert!(m.apply_update_with_hash(update, Some(9), 1, stamp(3, 5), 3, 4).is_ok());
    assert_eq!(m.current().validation_hash, Some(9));
    assert_eq!(m.history()[1].config.validation_hash, Some(9));
}

#[test]
fn config_update_validates_with_cache() {
    let current = DynamicConfig::new();
    let mut update = ConfigUpdate::new(&current, config_with_retries(2));
    assert!(update.validate().is_ok());
    assert!(update.validate_with_cache().is_ok());
    let h = update.new_config.validation_hash.unwrap();
    assert_eq!(h, config_with_retries(2).compute_hash());
    assert_eq!(update.previous_config.retry_attempts, current.retry_attempts);
    let mut cached_bad = DynamicConfig::new();
    cached_bad.retry_attempts = 51;
    cached_bad.validation_hash = Some(cached_bad.compute_hash());
    let mut update = ConfigUpdate::new(&current, cached_bad);
    assert!(update.validate_with_cache().is_err());
    let mut bad = DynamicConfig::new();
    bad.retry_attempts = 51;
    let update = ConfigUpdate::new(&current, bad);
    match update.apply() {
        Err(Error::ConfigurationError(msg)) => assert_eq!(msg, "Retry attempts cannot exceed 50"),
        other => panic!("unexpected {:?}", other),
    }
}

#[test]
fn validation_hash_is_computed_once() {
    let mut c = config_with_retries(4);
    let h = c.get_validation_hash();
    assert_eq!(c.validation_hash, Some(h));
    assert_eq!(c.get_validation_hash(), h);
    c.validation_hash = Some(h.wrapping_add(1));
    assert_eq!(c.get_validation_hash(), h.wrapping_add(1));
    // The cached key takes no part in the hash.
    assert_eq!(c.compute_hash(), h);
    assert!(!c.has_changes(&config_with_retries(4)));
    assert!(c.has_changes(&config_with_retries(5)));
}

#[test]
fn rollback_restores_previous_version() {
    let mut m = ConfigManager::with_options_at(config_with_retries(1), options(true, false, 10, None), stamp(1, 10), 0);
    m.apply_update(m.update(config_with_retries(2)), 10, stamp(2, 10), 5, 1).unwrap();
    let event = m.rollback(10, stamp(3, 10), 7, 2).unwrap().unwrap();
    assert_eq!(m.current().retry_attempts, 1);
    assert_eq!(event.change_type, ConfigChangeType::Rollback);
    assert_eq!(m.metrics().rollback_operations, 1);
    assert_eq!(m.history().len(), 3);
    assert_eq!(m.history()[2].change_type, ConfigChangeType::Rollback);
}

#[test]
fn rollback_without_previous_version_is_refused() {
    let mut m = ConfigManager::with_options_at(config_with_retries(1), options(true, false, 10, None), stamp(1, 10), 0);
    match m.rollback(10, stamp(3, 10), 7, 2) {
        Err(Error::ConfigurationError(msg)) => assert_eq!(msg, "No previous configuration to rollback to"),
        other => panic!("unexpected {:?}", other),
    }
    assert_eq!(m.metrics().rollback_operations, 0);
}

#[test]
fn rollback_to_named_version() {
    let mut m = ConfigManager::with_options_at(config_with_retries(1), options(false, false, 10, None), stamp(1, 10), 0);
    m.apply_update(m.update(config_with_retries(2)), 10, stamp(2, 10), 5, 1).unwrap();
    m.apply_update(m.update(config_with_retries(3)), 10, stamp(3, 10), 5, 1).unwrap();
    m.rollback_to_version("v1", 10, stamp(4, 10), 6, 2).unwrap();
    assert_eq!(m.current().retry_attempts, 2);
    assert_eq!(m.history()[3].change_type, ConfigChangeType::VersionRestore);
    match m.rollback_to_version("v9", 10, stamp(5, 10), 6, 2) {
        Err(Error::ConfigurationError(msg)) => assert_eq!(msg, "Configuration version 'v9' not found"),
        other => panic!("unexpected {:?}", other),
    }
}

#[test]
fn history_is_bounded_and_cleaned_when_due() {
    let mut m = ConfigManager::with_options_at(config_with_retries(1), options(false, false, 2, Some(100)), stamp(1, 10), 0);
    m.apply_update(m.update(config_with_retries(2)), 10, stamp(2, 10), 5, 10).unwrap();
    m.apply_update(m.update(config_with_retries(3)), 10, stamp(3, 10), 5, 20).unwrap();
    // The entry limit drops the oldest entry before each addition.
    assert_eq!(m.history().len(), 2);
    assert_eq!(m.history()[1].version_id, "v2");
    assert_eq!(m.last_cleanup, 0);
    m.cleanup_if_needed(150);
    assert_eq!(m.last_cleanup, 150);
    assert_eq!(m.history().len(), 2);
    m.reset_metrics();
    assert_eq!(m.metrics().total_updates, 0);
    assert_eq!(m.metrics().history_entries, 2);
}

#[test]
fn compression_records_smaller_differences() {
    let mut m = ConfigManager::with_options_at(config_with_retries(1), options(false, false, 10, None), stamp(1, 100), 0);
    m.apply_update(m.update(config_with_retries(2)), 10, stamp(2, 100), 5, 1).unwrap();
    m.apply_update(m.update(config_with_retries(3)), 10, stamp(3, 100), 5, 1).unwrap();
    // Entry 1's difference is smaller than its configuration, entry 2's is not.
    let sizes = vec![0usize, 30, 150];
    let (_, total, footprint) = m.history_with_compression_stats(&sizes);
    assert_eq!((total, footprint), (300, 300));
    assert_eq!(m.compress_history(&sizes).unwrap(), 70);
    assert!(m.history()[0].delta.is_none());
    let delta = m.history()[1].delta.as_ref().unwrap();
    assert_eq!(delta.changed_fields.retry_attempts, Some(2));
    assert!(delta.changed_fields.timeout.is_none());
    assert!(m.history()[2].delta.is_none());
    assert_eq!(m.history()[1].effective_memory_footprint(30), 30);
    assert_eq!(m.history()[2].effective_memory_footprint(150), 100);
    assert_eq!(m.metrics().history_memory_bytes, 230);
    assert_eq!(m.metrics().history_entries, 3);
    let (_, total, footprint) = m.history_with_compression_stats(&sizes);
    assert_eq!((total, footprint), (300, 230));
    // A second pass finds nothing more to compress.
    assert_eq!(m.compress_history(&sizes).unwrap(), 0);
}

#[test]
fn rollback_after_update_restores_previous_configuration() {
    let mut m = ConfigManager::with_options_at(config_with_retries(8), options(false, false, 10, None), stamp(1, 10), 0);
    m.apply_update(m.update(config_with_retries(9)), 10, stamp(2, 10), 5, 1).unwrap();
    let h = m.history();
    assert_eq!(h[h.len() - 2].config.retry_attempts, 8);
    m.rollback(10, stamp(3, 10), 7, 2).unwrap();
    assert_eq!(m.current().retry_attempts, 8);
}

#[test]
fn rollback_to_invalid_configuration_is_refused_but_counted() {
    let mut initial = DynamicConfig::new();
    initial.timeout = 0;
    let mut m = ConfigManager::with_options_at(initial, options(false, false, 10, None), stamp(1, 10), 0);
    m.apply_update(m.update(config_with_retries(2)), 10, stamp(2, 10), 5, 1).unwrap();
    match m.rollback(10, stamp(3, 10), 7, 2) {
        Err(Error::ConfigurationError(msg)) => assert_eq!(msg, "Timeout cannot be zero"),
        other => panic!("unexpected {:?}", other),
    }
    assert_eq!(m.metrics().rollback_operations, 1);
    assert_eq!(m.metrics().total_updates, 1);
    assert_eq!(m.history().len(), 2);
    assert_eq!(m.current().retry_attempts, 2);
}
