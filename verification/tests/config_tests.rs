use api_gemini::config::{
    ConfigChangeType, ConfigHealthFinding, ConfigHealthStatus, ConfigManagerOptions, ConfigMetrics,
    EnvironmentConfigSource, FileConfigSource, HotReloadMetrics,
};
use api_gemini::config_history::{add_to_history, cleanup_history};
use api_gemini::config_sources::{parse_bool, parse_u32, parse_u64, RemoteConfigSource, RemotePollState};
use api_gemini::dynamic_config::{DynamicConfig, DynamicConfigBuilder, F64_TWO_BITS};
use api_gemini::error::Error;
use api_gemini::hot_reload::{
    check_can_start, load_and_merge_configs, reload_outcome, DebounceState, ReloadOutcome, WatchAction, WatchEvent,
};
use api_gemini::versioning::{ConfigDelta, ConfigHistoryEntry, EntryStamp};

fn config_message(r: &Result<DynamicConfig, Error>) -> String {
    match r {
        Err(Error::ConfigurationError(m)) => m.clone(),
        _ => panic!("expected a configuration error"),
    }
}

fn tag_value(c: &DynamicConfig, key: &str) -> Option<String> {
    c.tags.iter().find(|(k, _)| k == key).map(|(_, v)| v.clone())
}

#[test]
fn dynamic_config_defaults() {
    let c = DynamicConfig::new();
    assert_eq!(c.timeout, 30_000_000_000);
    assert_eq!(c.retry_attempts, 3);
    assert_eq!(c.base_url, "https://generativelanguage.googleapis.com");
    assert!(c.enable_jitter);
    assert_eq!(c.max_retry_delay, 30_000_000_000);
    assert_eq!(c.base_retry_delay, 100_000_000);
    assert_eq!(c.backoff_multiplier, 2.0f64.to_bits());
    assert_eq!(c.backoff_multiplier, F64_TWO_BITS);
    assert_eq!(c.source_priority, Some(50));
    assert!(c.tags.is_empty());
    assert_eq!(c.validation_hash, None);
}

#[test]
fn dynamic_config_builder_accepts_valid_settings() {
    let c = DynamicConfigBuilder::new()
        .timeout(60_000_000_000)
        .retry_attempts(5)
        .base_url("https://example.com".to_string())
        .enable_jitter(false)
        .backoff_multiplier(1.5f64.to_bits())
        .source_priority(80)
        .tag("env".to_string(), "prod".to_string())
        .build()
        .unwrap();
    assert_eq!(c.timeout, 60_000_000_000);
    assert_eq!(c.retry_attempts, 5);
    assert_eq!(c.base_url, "https://example.com");
    assert!(!c.enable_jitter);
    assert_eq!(c.source_priority, Some(80));
    assert_eq!(tag_value(&c, "env"), Some("prod".to_string()));
}

#[test]
fn dynamic_config_builder_rejects_each_problem() {
    let r = DynamicConfigBuilder::new().timeout(0).build();
    assert_eq!(config_message(&r), "Timeout cannot be zero");
    let r = DynamicConfigBuilder::new().timeout(601_000_000_000).build();
    assert_eq!(config_message(&r), "Timeout cannot exceed 10 minutes");
    let r = DynamicConfigBuilder::new().timeout(600_000_000_001).build();
    assert_eq!(config_message(&r), "Timeout cannot exceed 10 minutes");
    let r = DynamicConfigBuilder::new().timeout(600_000_000_000).build();
    assert!(r.is_ok());
    let r = DynamicConfigBuilder::new().retry_attempts(51).build();
    assert_eq!(config_message(&r), "Retry attempts cannot exceed 50");
    let r = DynamicConfigBuilder::new().backoff_multiplier((-0.5f64).to_bits()).build();
    assert_eq!(config_message(&r), "Backoff multiplier must be between 0 and 10");
    let r = DynamicConfigBuilder::new().backoff_multiplier(10.5f64.to_bits()).build();
    assert_eq!(config_message(&r), "Backoff multiplier must be between 0 and 10");
    let r = DynamicConfigBuilder::new().backoff_multiplier(f64::NAN.to_bits()).build();
    assert_eq!(config_message(&r), "Backoff multiplier must be between 0 and 10");
    let r = DynamicConfigBuilder::new().backoff_multiplier((-0.0f64).to_bits()).build();
    assert!(r.is_ok());
    let r = DynamicConfigBuilder::new().backoff_multiplier(10.0f64.to_bits()).build();
    assert!(r.is_ok());
    let r = DynamicConfigBuilder::new().base_url(String::new()).build();
    assert_eq!(config_message(&r), "Base URL cannot be empty");
    let r = DynamicConfigBuilder::new().source_priority(101).build();
    assert_eq!(config_message(&r), "Source priority cannot exceed 100");
    let r = DynamicConfigBuilder::new().tag(String::new(), "v".to_string()).build();
    assert_eq!(config_message(&r), "Configuration tag keys cannot be empty");
    let long_key = "k".repeat(256);
    let r = DynamicConfigBuilder::new().tag(long_key.clone(), "v".to_string()).build();
    assert_eq!(config_message(&r), format!("Configuration tag key '{long_key}' exceeds maximum length of 255"));
    let r = DynamicConfigBuilder::new().tag("key".to_string(), "v".repeat(1025)).build();
    assert_eq!(config_message(&r), "Configuration tag value for key 'key' exceeds maximum length of 1024");
    let mut b = DynamicConfigBuilder::new();
    for i in 0..51 {
        b = b.tag(format!("k{i}"), "v".to_string());
    }
    assert_eq!(config_message(&b.build()), "Configuration cannot have more than 50 tags");
}

#[test]
fn tag_lengths_count_bytes() {
    let key = "é".repeat(128);
    assert_eq!(key.chars().count(), 128);
    let r = DynamicConfigBuilder::new().tag(key, "v".to_string()).build();
    assert!(config_message(&r).starts_with("Configuration tag key '"));
}

#[test]
fn tag_replaces_same_key() {
    let b = DynamicConfigBuilder::new()
        .tag("a".to_string(), "1".to_string())
        .tag("a".to_string(), "2".to_string());
    assert_eq!(b.config.tags.len(), 1);
    assert_eq!(tag_value(&b.config, "a"), Some("2".to_string()));
}

#[test]
fn merge_prefers_higher_priority_fields_and_keeps_both_tags() {
    let low = DynamicConfigBuilder::new()
        .retry_attempts(1)
        .source_priority(10)
        .tag("shared".to_string(), "low".to_string())
        .tag("only_low".to_string(), "x".to_string())
        .build()
        .unwrap();
    let high = DynamicConfigBuilder::new()
        .retry_attempts(9)
        .source_priority(90)
        .tag("shared".to_string(), "high".to_string())
        .build()
        .unwrap();
    let merged = low.merge_with(&high);
    assert_eq!(merged.retry_attempts, 9);
    assert_eq!(merged.source_priority, Some(90));
    assert_eq!(tag_value(&merged, "shared"), Some("high".to_string()));
    assert_eq!(tag_value(&merged, "only_low"), Some("x".to_string()));
    let merged_other_way = high.merge_with(&low);
    assert_eq!(merged_other_way.retry_attempts, 9);
    assert_eq!(tag_value(&merged_other_way, "shared"), Some("high".to_string()));
}

#[test]
fn merge_tie_keeps_self() {
    let a = DynamicConfigBuilder::new().retry_attempts(1).source_priority(50).build().unwrap();
    let b = DynamicConfigBuilder::new().retry_attempts(2).source_priority(50).build().unwrap();
    assert_eq!(a.merge_with(&b).retry_attempts, 1);
    assert_eq!(b.merge_with(&a).retry_attempts, 2);
}

#[test]
fn delta_round_trip_restores_target() {
    let a = DynamicConfigBuilder::new()
        .tag("keep".to_string(), "1".to_string())
        .tag("change".to_string(), "old".to_string())
        .tag("drop".to_string(), "x".to_string())
        .build()
        .unwrap();
    let mut b = DynamicConfigBuilder::new()
        .timeout(45_000_000_000)
        .base_url("https://other.example".to_string())
        .backoff_multiplier(3.0f64.to_bits())
        .source_priority(70)
        .tag("keep".to_string(), "1".to_string())
        .tag("change".to_string(), "new".to_string())
        .tag("add".to_string(), "y".to_string())
        .build()
        .unwrap();
    b.validation_hash = Some(42);
    let delta = ConfigDelta::create_delta(&a, &b);
    assert_eq!(delta.changed_fields.timeout, Some(45_000_000_000));
    assert_eq!(delta.changed_fields.retry_attempts, None);
    assert_eq!(delta.changed_fields.base_url.as_deref(), Some("https://other.example"));
    assert_eq!(delta.changed_fields.source_priority, Some(Some(70)));
    assert_eq!(delta.tag_changes.len(), 3);
    assert!(delta.added_fields.is_empty());
    assert!(delta.removed_fields.is_empty());
    let r = delta.apply_delta(&a).unwrap();
    assert_eq!(r.timeout, b.timeout);
    assert_eq!(r.base_url, b.base_url);
    assert_eq!(r.backoff_multiplier, b.backoff_multiplier);
    assert_eq!(r.source_priority, b.source_priority);
    assert_eq!(r.validation_hash, None);
    assert_eq!(tag_value(&r, "keep"), Some("1".to_string()));
    assert_eq!(tag_value(&r, "change"), Some("new".to_string()));
    assert_eq!(tag_value(&r, "add"), Some("y".to_string()));
    assert_eq!(tag_value(&r, "drop"), None);
    assert_eq!(r.tags.len(), 3);
}

#[test]
fn delta_of_same_config_is_empty() {
    let a = DynamicConfigBuilder::new().tag("k".to_string(), "v".to_string()).build().unwrap();
    let d = ConfigDelta::create_delta(&a, &a);
    assert_eq!(d.changed_fields.timeout, None);
    assert_eq!(d.changed_fields.backoff_multiplier, None);
    assert!(d.tag_changes.is_empty());
}

#[test]
fn delta_treats_nan_multiplier_as_changed_and_zeros_as_equal() {
    let mut a = DynamicConfig::new();
    a.backoff_multiplier = f64::NAN.to_bits();
    let d = ConfigDelta::create_delta(&a, &a);
    assert_eq!(d.changed_fields.backoff_multiplier, Some(f64::NAN.to_bits()));
    let pz = DynamicConfigBuilder::new().backoff_multiplier(0.0f64.to_bits()).build().unwrap();
    let nz = DynamicConfigBuilder::new().backoff_multiplier((-0.0f64).to_bits()).build().unwrap();
    assert_eq!(ConfigDelta::create_delta(&pz, &nz).changed_fields.backoff_multiplier, None);
}

#[test]
fn history_entry_reconstructs_from_delta() {
    let a = DynamicConfigBuilder::new().build().unwrap();
    let b = DynamicConfigBuilder::new().retry_attempts(7).build().unwrap();
    let stamp = EntryStamp { timestamp: 5, config_hash: 9, size_bytes: 100 };
    let entry = ConfigHistoryEntry::from_config_with_delta(
        b.duplicate(),
        ConfigChangeType::Update,
        "v1".to_string(),
        Some(&a),
        Some("me".to_string()),
        None,
        stamp,
    );
    assert!(entry.can_compress());
    assert_eq!(entry.reconstruct_config(&a).unwrap().retry_attempts, 7);
    let plain = ConfigHistoryEntry::from_config(b, ConfigChangeType::Rollback, "v2".to_string(), stamp);
    assert!(!plain.can_compress());
    assert_eq!(plain.size_bytes, 100);
    assert_eq!(plain.reconstruct_config(&a).unwrap().retry_attempts, 7);
}

fn options(max_entries: usize, max_bytes: usize) -> ConfigManagerOptions {
    let mut o = ConfigManagerOptions::default_options();
    o.max_history_entries = max_entries;
    o.max_history_memory_bytes = max_bytes;
    o
}

fn stamp(size: usize) -> EntryStamp {
    EntryStamp { timestamp: 0, config_hash: 0, size_bytes: size }
}

#[test]
fn add_to_history_numbers_versions_and_bounds_entries() {
    let mut history: Vec<ConfigHistoryEntry> = Vec::new();
    let mut metrics = ConfigMetrics::new();
    let o = options(3, 0);
    for _ in 0..5 {
        add_to_history(&mut history, DynamicConfig::new(), ConfigChangeType::Update, stamp(10), &o, &mut metrics);
    }
    let ids: Vec<&str> = history.iter().map(|e| e.version_id.as_str()).collect();
    assert_eq!(ids, vec!["v2", "v3", "v3"]);
    assert_eq!(history.len(), 3);
    assert_eq!(history.last().unwrap().version_id, "v3");
    assert_eq!(metrics.history_entries, 3);
    assert_eq!(metrics.history_memory_bytes, 30);
}

#[test]
fn add_to_history_over_memory_keeps_one_old_entry() {
    let mut history: Vec<ConfigHistoryEntry> = Vec::new();
    let mut metrics = ConfigMetrics::new();
    let o = options(0, 25);
    add_to_history(&mut history, DynamicConfig::new(), ConfigChangeType::Update, stamp(10), &o, &mut metrics);
    add_to_history(&mut history, DynamicConfig::new(), ConfigChangeType::Update, stamp(10), &o, &mut metrics);
    add_to_history(&mut history, DynamicConfig::new(), ConfigChangeType::Update, stamp(10), &o, &mut metrics);
    assert_eq!(history.len(), 2);
    assert_eq!(history[1].version_id, "v2");
    assert_eq!(metrics.history_memory_bytes, 20);
}

#[test]
fn add_to_history_with_limit_one_keeps_two() {
    let mut history: Vec<ConfigHistoryEntry> = Vec::new();
    let mut metrics = ConfigMetrics::new();
    let o = options(1, 0);
    for _ in 0..4 {
        add_to_history(&mut history, DynamicConfig::new(), ConfigChangeType::Update, stamp(1), &o, &mut metrics);
    }
    assert_eq!(history.len(), 2);
}

#[test]
fn cleanup_history_drops_oldest_until_within_limits() {
    let mut history: Vec<ConfigHistoryEntry> = Vec::new();
    let mut metrics = ConfigMetrics::new();
    let unlimited = options(0, 0);
    for size in [5usize, 6, 7, 8] {
        add_to_history(&mut history, DynamicConfig::new(), ConfigChangeType::Update, stamp(size), &unlimited, &mut metrics);
    }
    let before = metrics;
    let tight = options(0, 16);
    cleanup_history(&mut history, &tight, &mut metrics);
    let sizes: Vec<usize> = history.iter().map(|e| e.size_bytes).collect();
    assert_eq!(sizes, vec![7, 8]);
    assert_eq!(metrics.history_entries, 2);
    assert_eq!(metrics.history_memory_bytes, 15);
    assert_eq!(metrics.total_updates, before.total_updates);
    let mut m2 = metrics;
    cleanup_history(&mut history, &options(0, 7), &mut m2);
    assert_eq!(history.len(), 1);
    assert_eq!(m2.history_memory_bytes, 8);
}

#[test]
fn config_metrics_averages_and_health() {
    let mut m = ConfigMetrics::new();
    m.record_update(1000);
    assert_eq!(m.total_updates, 1);
    assert_eq!(m.avg_update_time_us, 1000);
    m.record_update(1000);
    assert_eq!(m.avg_update_time_us, 1000);
    m.record_update(2000);
    assert_eq!(m.avg_update_time_us, 1100);
    m.record_failed_update();
    let (issues, warnings) = m.health_findings();
    assert_eq!(issues, vec![ConfigHealthFinding::HighErrorRate]);
    assert!(warnings.is_empty());
    let mut m = ConfigMetrics::new();
    for _ in 0..10 {
        m.record_update(0);
    }
    m.record_failed_update();
    let (issues, warnings) = m.health_findings();
    assert!(issues.is_empty());
    assert_eq!(warnings, vec![ConfigHealthFinding::ElevatedErrorRate]);
    m.record_rollback();
    m.record_rollback();
    m.record_rollback();
    let (_, warnings) = m.health_findings();
    assert_eq!(
        warnings,
        vec![ConfigHealthFinding::ElevatedErrorRate, ConfigHealthFinding::HighRollbackRate { rollbacks: 3, updates: 10 }]
    );
    m.reset();
    assert_eq!(m.total_updates, 0);
    assert_eq!(m.failed_updates, 0);
}

#[test]
fn config_metrics_cache_findings() {
    let mut m = ConfigMetrics::new();
    for _ in 0..5 {
        m.record_cache_hit();
    }
    for _ in 0..6 {
        m.record_cache_miss();
    }
    let (issues, _) = m.health_findings();
    assert_eq!(issues, vec![ConfigHealthFinding::LowCacheHitRatio]);
    for _ in 0..5 {
        m.record_cache_hit();
    }
    let (issues, warnings) = m.health_findings();
    assert!(issues.is_empty());
    assert_eq!(warnings, vec![ConfigHealthFinding::SuboptimalCacheHitRatio]);
}

#[test]
fn health_status_collects_messages() {
    let s = ConfigHealthStatus::from_messages(vec!["a".to_string()], vec!["b".to_string()]);
    assert!(!s.is_healthy());
    assert_eq!(s.get_all_messages(), vec!["a".to_string(), "b".to_string()]);
    let s = ConfigHealthStatus::from_messages(Vec::new(), vec!["w".to_string()]);
    assert!(!s.is_healthy());
    assert_eq!(s.get_all_messages(), vec!["w".to_string()]);
    let s = ConfigHealthStatus::from_messages(Vec::new(), Vec::new());
    assert!(s.is_healthy());
    assert!(s.get_all_messages().is_empty());
}

#[test]
fn sources_identify_themselves() {
    let f = FileConfigSource::new("config.json", 40);
    assert_eq!(f.source_id(), "file:config.json");
    assert_eq!(f.priority(), 40);
    let e = EnvironmentConfigSource::new("GEMINI".to_string(), 75);
    assert_eq!(e.source_id(), "env:GEMINI");
    assert_eq!(e.variable_name("TIMEOUT_SECONDS"), "GEMINI_TIMEOUT_SECONDS");
    let r = RemoteConfigSource::new("https://cfg.example".to_string(), 60);
    assert_eq!(r.source_id(), "remote:https://cfg.example");
    assert_eq!(r.poll_interval, 60_000_000_000);
    assert!(r.supports_watching());
}

#[test]
fn environment_source_builds_configuration() {
    let e = EnvironmentConfigSource::new("APP".to_string(), 75);
    let c = e
        .load_config_from_values(Some("45"), Some("+4"), Some("https://env.example".to_string()), Some("false"))
        .unwrap();
    assert_eq!(c.timeout, 45_000_000_000);
    assert_eq!(c.retry_attempts, 4);
    assert_eq!(c.base_url, "https://env.example");
    assert!(!c.enable_jitter);
    assert_eq!(c.source_priority, Some(75));
    assert_eq!(tag_value(&c, "source"), Some("environment".to_string()));
    assert_eq!(tag_value(&c, "prefix"), Some("APP".to_string()));
    let c = e.load_config_from_values(Some("abc"), Some("-1"), None, Some("TRUE")).unwrap();
    assert_eq!(c.timeout, 30_000_000_000);
    assert_eq!(c.retry_attempts, 3);
    assert!(c.enable_jitter);
    let r = e.load_config_from_values(Some("0"), None, None, None);
    assert_eq!(config_message(&r), "Timeout cannot be zero");
    let r = e.load_config_from_values(None, Some("99"), None, None);
    assert_eq!(config_message(&r), "Retry attempts cannot exceed 50");
    let hi = EnvironmentConfigSource::new("P".to_string(), 150);
    let r = hi.load_config_from_values(None, None, None, None);
    assert_eq!(config_message(&r), "Source priority cannot exceed 100");
}

#[test]
fn parsing_matches_std() {
    for s in ["0", "42", "+7", "-1", "", "+", "1 ", " 1", "18446744073709551615", "18446744073709551616", "4294967296", "12a"] {
        assert_eq!(parse_u64(s), s.parse::<u64>().ok(), "u64 {s:?}");
        assert_eq!(parse_u32(s), s.parse::<u32>().ok(), "u32 {s:?}");
    }
    for s in ["true", "false", "True", "", "1", "false "] {
        assert_eq!(parse_bool(s), s.parse::<bool>().ok(), "bool {s:?}");
    }
}

#[test]
fn remote_source_annotates_and_polls() {
    let r = RemoteConfigSource::new("https://cfg.example".to_string(), 60)
        .with_auth_header("Authorization".to_string(), "a".to_string())
        .with_auth_header("Authorization".to_string(), "b".to_string());
    assert_eq!(r.auth_headers.len(), 1);
    assert_eq!(r.auth_headers[0].1, "b");
    let c = r.annotate_fetched(DynamicConfig::new());
    assert_eq!(c.source_priority, Some(60));
    assert_eq!(tag_value(&c, "source"), Some("remote".to_string()));
    assert_eq!(tag_value(&c, "endpoint"), Some("https://cfg.example".to_string()));
    let ev = r.fetch_error_event("timeout");
    assert_eq!(ev.error.as_deref(), Some("Failed to fetch remote config : timeout"));
    let mut poll = RemotePollState::new();
    assert!(poll.on_fetched(1));
    assert!(!poll.on_fetched(1));
    assert!(poll.on_fetched(2));
}

#[test]
fn debounce_reloads_once_after_quiet_period() {
    let d = 2_000;
    let mut s = DebounceState::new(0);
    assert_eq!(s.on_event(WatchEvent::Timeout, 5_000, d), WatchAction::Wait);
    assert_eq!(s.on_event(WatchEvent::SourceEvent, 10_000, d), WatchAction::Wait);
    assert_eq!(s.on_event(WatchEvent::Timeout, 11_000, d), WatchAction::Wait);
    assert_eq!(s.on_event(WatchEvent::Timeout, 12_000, d), WatchAction::Reload);
    assert_eq!(s.on_event(WatchEvent::Timeout, 20_000, d), WatchAction::Wait);
    assert_eq!(s.on_event(WatchEvent::ChannelClosed, 21_000, d), WatchAction::Stop);
}

#[test]
fn reload_outcomes_and_metrics() {
    assert_eq!(reload_outcome(false, true, true), ReloadOutcome::Failed);
    assert_eq!(reload_outcome(true, false, true), ReloadOutcome::Applied);
    assert_eq!(reload_outcome(true, true, true), ReloadOutcome::Applied);
    assert_eq!(reload_outcome(true, true, false), ReloadOutcome::Unchanged);
    let mut m = HotReloadMetrics::new();
    assert!(!m.is_active());
    m.record_start();
    assert!(m.is_active());
    m.record_reload_attempt_at(77);
    assert_eq!(m.last_reload_time, Some(77));
    m.record_outcome(ReloadOutcome::Applied);
    m.record_outcome(ReloadOutcome::Unchanged);
    m.record_outcome(ReloadOutcome::Failed);
    assert_eq!((m.successful_reloads, m.no_change_reloads, m.failed_reloads), (1, 1, 1));
    m.record_stop();
    assert!(!m.is_active());
}

#[test]
fn hot_reload_start_and_merge() {
    assert!(check_can_start(false).is_ok());
    assert!(matches!(check_can_start(true), Err(Error::ConfigurationError(m)) if m == "Hot-reloading is already active"));
    let c = load_and_merge_configs(Vec::new()).unwrap();
    assert_eq!(c.timeout, 30_000_000_000);
    assert_eq!(c.retry_attempts, 3);
    assert_eq!(c.source_priority, Some(50));
}

#[test]
fn hot_reload_merges_sources_by_priority() {
    let high = DynamicConfigBuilder::new()
        .timeout(10_000_000_000)
        .source_priority(70)
        .tag("a".to_string(), "x".to_string())
        .build()
        .unwrap();
    let mid = DynamicConfigBuilder::new()
        .retry_attempts(7)
        .source_priority(60)
        .tag("a".to_string(), "y".to_string())
        .tag("b".to_string(), "z".to_string())
        .build()
        .unwrap();
    // Given in either order, the source of priority 10 is merged last.
    let c = load_and_merge_configs(vec![(high.duplicate(), 10), (mid.duplicate(), 5)]).unwrap();
    assert_eq!(c.timeout, 10_000_000_000);
    assert_eq!(c.retry_attempts, 3);
    assert_eq!(c.source_priority, Some(70));
    assert_eq!(tag_value(&c, "a"), Some("x".to_string()));
    assert_eq!(tag_value(&c, "b"), Some("z".to_string()));
    let d = load_and_merge_configs(vec![(mid, 5), (high, 10)]).unwrap();
    assert_eq!(d.timeout, 10_000_000_000);
    assert_eq!(d.source_priority, Some(70));
    assert_eq!(tag_value(&d, "a"), Some("x".to_string()));
    assert_eq!(tag_value(&d, "b"), Some("z".to_string()));
}

#[test]
fn hot_reload_any_source_beats_the_default() {
    // The default lies lowest whatever its own priority: a source at
    // priority 10 whose configuration has its own priority 20 (below the
    // default's 50) supplies every field but the tags.
    let low = DynamicConfigBuilder::new()
        .retry_attempts(9)
        .source_priority(20)
        .tag("k".to_string(), "v".to_string())
        .build()
        .unwrap();
    let c = load_and_merge_configs(vec![(low, 10)]).unwrap();
    assert_eq!(c.retry_attempts, 9);
    assert_eq!(c.source_priority, Some(20));
    assert_eq!(tag_value(&c, "k"), Some("v".to_string()));
    // Between sources, the source priority decides, not the configuration's own.
    let a = DynamicConfigBuilder::new().retry_attempts(1).source_priority(90).build().unwrap();
    let b = DynamicConfigBuilder::new().retry_attempts(2).source_priority(5).build().unwrap();
    let d = load_and_merge_configs(vec![(a, 1), (b, 2)]).unwrap();
    assert_eq!(d.retry_attempts, 2);
    assert_eq!(d.source_priority, Some(5));
}

#[test]
fn equal_configs_report_no_change() {
    let a = DynamicConfigBuilder::new()
        .tag("x".to_string(), "1".to_string())
        .tag("y".to_string(), "2".to_string())
        .build()
        .unwrap();
    let b = DynamicConfigBuilder::new()
        .tag("y".to_string(), "2".to_string())
        .tag("x".to_string(), "1".to_string())
        .build()
        .unwrap();
    assert_eq!(a.compute_hash(), b.compute_hash());
    assert!(!a.has_changes(&b));
    let c = DynamicConfigBuilder::new()
        .tag("x".to_string(), "1".to_string())
        .tag("y".to_string(), "3".to_string())
        .build()
        .unwrap();
    assert!(a.has_changes(&c));
    let d = DynamicConfigBuilder::new()
        .retry_attempts(4)
        .tag("x".to_string(), "1".to_string())
        .tag("y".to_string(), "2".to_string())
        .build()
        .unwrap();
    assert!(a.has_changes(&d));
}

#[test]
fn manager_options_defaults() {
    let o = ConfigManagerOptions::default_options();
    assert_eq!(o.max_history_entries, 1000);
    assert_eq!(o.max_history_memory_bytes, 10 * 1024 * 1024);
    assert_eq!(o.cleanup_interval, Some(3_600_000_000_000));
}

#[test]
fn a_delta_to_a_non_finite_multiplier_cannot_be_applied() {
    let a = DynamicConfig::new();
    let mut b = DynamicConfig::new();
    b.backoff_multiplier = f64::INFINITY.to_bits();
    let delta = ConfigDelta::create_delta(&a, &b);
    match delta.apply_delta(&a) {
        Err(Error::DeserializationError(m)) => assert_eq!(m, "invalid type: null, expected f64"),
        _ => panic!("an infinite multiplier is written as null and cannot be read back"),
    }
    let mut c = DynamicConfig::new();
    c.backoff_multiplier = f64::NAN.to_bits();
    assert!(ConfigDelta::create_delta(&a, &c).apply_delta(&a).is_err());
    let mut d = DynamicConfig::new();
    d.backoff_multiplier = 3.5f64.to_bits();
    assert_eq!(ConfigDelta::create_delta(&a, &d).apply_delta(&a).unwrap().backoff_multiplier, 3.5f64.to_bits());
}

#[test]
fn unique_tag_keys_are_detected() {
    let a = DynamicConfigBuilder::new().tag("x".to_string(), "1".to_string()).build().unwrap();
    assert!(a.has_unique_tags());
    let mut b = a.duplicate();
    b.tags.push(("x".to_string(), "2".to_string()));
    assert!(!b.has_unique_tags());
    assert!(DynamicConfig::new().has_unique_tags());
}
