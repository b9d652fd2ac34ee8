//! Configuration management bookkeeping: update metrics and their health
//! evaluation, hot-reload counters, synchronisation status and the
//! identities of configuration sources.

use std::sync::Arc;
use vstd::prelude::*;
use crate::text::{owned, concat2};

verus! {

/// Counter increment with wrap-around, as `fetch_add` performs it.
pub open spec fn wrap_inc(x: u64) -> u64 {
    if x == u64::MAX { 0 } else { (x + 1) as u64 }
}

fn inc(x: u64) -> (r: u64)
    ensures
        r == wrap_inc(x),
{
    x.wrapping_add(1)
}

/// Metrics of configuration management.
#[derive(Debug, Clone, Copy)]
pub struct ConfigMetrics {
    /// Configuration updates.
    pub total_updates: u64,
    /// Validation cache hits.
    pub validation_cache_hits: u64,
    /// Validation cache misses.
    pub validation_cache_misses: u64,
    /// Change events sent.
    pub change_events_sent: u64,
    /// Rollbacks performed.
    pub rollback_operations: u64,
    /// History entries stored.
    pub history_entries: usize,
    /// Memory used by the history, in bytes.
    pub history_memory_bytes: usize,
    /// Average update processing time, in microseconds.
    pub avg_update_time_us: u64,
    /// Failed updates.
    pub failed_updates: u64,
}

/// The average after a sample: the first sample sets it; each later one
/// keeps 90% of the previous average and adds 10% of the sample, rounded
/// down.
pub open spec fn next_avg_time(avg: u64, sample: u64, first: bool) -> u64 {
    if first { sample } else { ((9 * avg + sample) / 10) as u64 }
}

/// Metrics with every counter at zero.
pub open spec fn zero_config_metrics() -> ConfigMetrics {
    ConfigMetrics {
        total_updates: 0,
        validation_cache_hits: 0,
        validation_cache_misses: 0,
        change_events_sent: 0,
        rollback_operations: 0,
        history_entries: 0,
        history_memory_bytes: 0,
        avg_update_time_us: 0,
        failed_updates: 0,
    }
}

/// A finding of the health evaluation of configuration management.
#[derive(Debug, Clone, Copy, PartialEq, Eq, Structural)]
pub enum ConfigHealthFinding {
    /// Error rate above 10%.
    HighErrorRate,
    /// Error rate above 5%.
    ElevatedErrorRate,
    /// Cache hit ratio below 50% over more than 10 lookups.
    LowCacheHitRatio,
    /// Cache hit ratio below 80% over more than 10 lookups.
    SuboptimalCacheHitRatio,
    /// Average update time above the limit (5 ms for an issue, 2 ms for a warning).
    SlowUpdates {
        /// The average update time, in microseconds.
        avg_update_time_us: u64,
    },
    /// History memory above 10 MiB.
    HighMemoryUsage {
        /// The memory used, in bytes.
        bytes: usize,
    },
    /// More rollbacks than a quarter of the updates.
    HighRollbackRate {
        /// Rollbacks performed.
        rollbacks: u64,
        /// Updates performed.
        updates: u64,
    },
}

/// The issues that metrics `m` show, in the order error rate, cache, update time.
pub open spec fn config_issues(m: ConfigMetrics) -> Seq<ConfigHealthFinding> {
    let lookups = m.validation_cache_hits + m.validation_cache_misses;
    let a = if m.total_updates > 0 && 10 * m.failed_updates > m.total_updates { seq![ConfigHealthFinding::HighErrorRate] } else { seq![] };
    let b = if lookups > 10 && 2 * m.validation_cache_hits < lookups { seq![ConfigHealthFinding::LowCacheHitRatio] } else { seq![] };
    let c = if m.avg_update_time_us > 5000 { seq![ConfigHealthFinding::SlowUpdates { avg_update_time_us: m.avg_update_time_us }] } else { seq![] };
    a + b + c
}

/// The warnings that metrics `m` show, in the order error rate, cache,
/// update time, memory, rollbacks.
pub open spec fn config_warnings(m: ConfigMetrics) -> Seq<ConfigHealthFinding> {
    let lookups = m.validation_cache_hits + m.validation_cache_misses;
    let a = if m.total_updates > 0 && !(10 * m.failed_updates > m.total_updates) && 20 * m.failed_updates > m.total_updates {
        seq![ConfigHealthFinding::ElevatedErrorRate]
    } else {
        seq![]
    };
    let b = if lookups > 10 && !(2 * m.validation_cache_hits < lookups) && 5 * m.validation_cache_hits < 4 * lookups {
        seq![ConfigHealthFinding::SuboptimalCacheHitRatio]
    } else {
        seq![]
    };
    let c = if m.avg_update_time_us <= 5000 && m.avg_update_time_us > 2000 {
        seq![ConfigHealthFinding::SlowUpdates { avg_update_time_us: m.avg_update_time_us }]
    } else {
        seq![]
    };
    let d = if m.history_memory_bytes > 10485760 { seq![ConfigHealthFinding::HighMemoryUsage { bytes: m.history_memory_bytes }] } else { seq![] };
    let e = if m.rollback_operations > m.total_updates / 4 {
        seq![ConfigHealthFinding::HighRollbackRate { rollbacks: m.rollback_operations, updates: m.total_updates }]
    } else {
        seq![]
    };
    a + b + c + d + e
}

impl ConfigMetrics {
    /// Metrics with every counter at zero.
    pub fn new() -> (r: Self)
        ensures
            r == zero_config_metrics(),
    {
        ConfigMetrics {
            total_updates: 0,
            validation_cache_hits: 0,
            validation_cache_misses: 0,
            change_events_sent: 0,
            rollback_operations: 0,
            history_entries: 0,
            history_memory_bytes: 0,
            avg_update_time_us: 0,
            failed_updates: 0,
        }
    }

    /// Records a successful update that took `duration_us` microseconds: the
    /// first update since the counters started sets the average time.
    pub fn record_update(&mut self, duration_us: u64)
        ensures
            *final(self) == (ConfigMetrics {
                total_updates: wrap_inc(old(self).total_updates),
                avg_update_time_us: next_avg_time(old(self).avg_update_time_us, duration_us, old(self).total_updates == 0),
                ..*old(self)
            }),
    {
        let first = self.total_updates == 0;
        self.total_updates = inc(self.total_updates);
        self.update_avg_time(duration_us, first);
    }

    /// Records a failed update.
    pub fn record_failed_update(&mut self)
        ensures
            *final(self) == (ConfigMetrics { failed_updates: wrap_inc(old(self).failed_updates), ..*old(self) }),
    {
        self.failed_updates = inc(self.failed_updates);
    }

    /// Records a validation cache hit.
    pub fn record_cache_hit(&mut self)
        ensures
            *final(self) == (ConfigMetrics { validation_cache_hits: wrap_inc(old(self).validation_cache_hits), ..*old(self) }),
    {
        self.validation_cache_hits = inc(self.validation_cache_hits);
    }

    /// Records a validation cache miss.
    pub fn record_cache_miss(&mut self)
        ensures
            *final(self) == (ConfigMetrics { validation_cache_misses: wrap_inc(old(self).validation_cache_misses), ..*old(self) }),
    {
        self.validation_cache_misses = inc(self.validation_cache_misses);
    }

    /// Records a change event.
    pub fn record_change_event(&mut self)
        ensures
            *final(self) == (ConfigMetrics { change_events_sent: wrap_inc(old(self).change_events_sent), ..*old(self) }),
    {
        self.change_events_sent = inc(self.change_events_sent);
    }

    /// Records a rollback.
    pub fn record_rollback(&mut self)
        ensures
            *final(self) == (ConfigMetrics { rollback_operations: wrap_inc(old(self).rollback_operations), ..*old(self) }),
    {
        self.rollback_operations = inc(self.rollback_operations);
    }

    /// Stores the history size and memory use.
    pub fn update_history_stats(&mut self, entry_count: usize, total_bytes: usize)
        ensures
            *final(self) == (ConfigMetrics { history_entries: entry_count, history_memory_bytes: total_bytes, ..*old(self) }),
    {
        self.history_entries = entry_count;
        self.history_memory_bytes = total_bytes;
    }

    /// Folds a sample into the running average of update times; `first`
    /// tells that it is the first sample, which sets the average.
    fn update_avg_time(&mut self, new_time_us: u64, first: bool)
        ensures
            *final(self) == (ConfigMetrics {
                avg_update_time_us: next_avg_time(old(self).avg_update_time_us, new_time_us, first),
                ..*old(self)
            }),
    {
        if first {
            self.avg_update_time_us = new_time_us;
        } else {
            let s: u128 = 9 * (self.avg_update_time_us as u128) + (new_time_us as u128);
            self.avg_update_time_us = (s / 10) as u64;
        }
    }

    /// Resets every counter; the history figures describe current state and stay.
    pub fn reset(&mut self)
        ensures
            *final(self) == (ConfigMetrics {
                history_entries: old(self).history_entries,
                history_memory_bytes: old(self).history_memory_bytes,
                ..zero_config_metrics()
            }),
    {
        self.total_updates = 0;
        self.validation_cache_hits = 0;
        self.validation_cache_misses = 0;
        self.change_events_sent = 0;
        self.rollback_operations = 0;
        self.avg_update_time_us = 0;
        self.failed_updates = 0;
    }

    /// Evaluates the metrics: issues (error rate above 10%, cache hit ratio
    /// below 50% over more than 10 lookups, updates slower than 5 ms) and
    /// warnings (error rate above 5%, hit ratio below 80%, updates slower
    /// than 2 ms, history above 10 MiB, rollbacks above a quarter of the
    /// updates).
    pub fn health_findings(&self) -> (r: (Vec<ConfigHealthFinding>, Vec<ConfigHealthFinding>))
        ensures
            r.0@ == config_issues(*self),
            r.1@ == config_warnings(*self),
    {
        let mut issues = Vec::new();
        let mut warnings = Vec::new();
        let total = self.total_updates as u128;
        let failed = self.failed_updates as u128;
        let hits = self.validation_cache_hits as u128;
        let lookups = hits + self.validation_cache_misses as u128;
        if total > 0 && 10 * failed > total {
            issues.push(ConfigHealthFinding::HighErrorRate);
        } else if total > 0 && 20 * failed > total {
            warnings.push(ConfigHealthFinding::ElevatedErrorRate);
        }
        if lookups > 10 && 2 * hits < lookups {
            issues.push(ConfigHealthFinding::LowCacheHitRatio);
        } else if lookups > 10 && 5 * hits < 4 * lookups {
            warnings.push(ConfigHealthFinding::SuboptimalCacheHitRatio);
        }
        if self.avg_update_time_us > 5000 {
            issues.push(ConfigHealthFinding::SlowUpdates { avg_update_time_us: self.avg_update_time_us });
        } else if self.avg_update_time_us > 2000 {
            warnings.push(ConfigHealthFinding::SlowUpdates { avg_update_time_us: self.avg_update_time_us });
        }
        if self.history_memory_bytes > 10485760 {
            warnings.push(ConfigHealthFinding::HighMemoryUsage { bytes: self.history_memory_bytes });
        }
        if self.rollback_operations > self.total_updates / 4 {
            warnings.push(ConfigHealthFinding::HighRollbackRate { rollbacks: self.rollback_operations, updates: self.total_updates });
        }
        proof {
            assert(issues@ =~= config_issues(*self));
            assert(warnings@ =~= config_warnings(*self));
        }
        (issues, warnings)
    }
}

impl Default for ConfigMetrics {
    /// See [`ConfigMetrics::new`].
    fn default() -> (r: Self)
        ensures
            r == zero_config_metrics(),
    {
        ConfigMetrics::new()
    }
}

/// Health status of configuration management.
#[derive(Debug, Clone)]
pub enum ConfigHealthStatus {
    /// No issues and no warnings.
    Healthy,
    /// Warnings only.
    Degraded {
        /// The warnings.
        warnings: Vec<String>,
    },
    /// At least one issue.
    Unhealthy {
        /// The issues.
        issues: Vec<String>,
        /// The warnings.
        warnings: Vec<String>,
    },
}

/// The texts of a list of strings.
pub open spec fn texts(v: Seq<String>) -> Seq<Seq<char>> {
    v.map_values(|s: String| s@)
}

fn copy_strings(v: &Vec<String>) -> (r: Vec<String>)
    ensures
        texts(r@) == texts(v@),
{
    let mut out: Vec<String> = Vec::new();
    let mut i: usize = 0;
    while i < v.len()
        invariant
            i <= v@.len(),
            texts(out@) == texts(v@.subrange(0, i as int)),
        decreases v@.len() - i,
    {
        let ghost before = out@;
        out.push(v[i].clone());
        proof {
            assert(texts(out@) =~= texts(before).push(v@[i as int]@));
            assert(texts(v@.subrange(0, i + 1)) =~= texts(v@.subrange(0, i as int)).push(v@[i as int]@));
        }
        i = i + 1;
    }
    proof {
        assert(v@.subrange(0, v@.len() as int) =~= v@);
    }
    out
}

impl ConfigHealthStatus {
    /// The status for the given issue and warning messages: unhealthy when
    /// there are issues, degraded when there are only warnings.
    pub fn from_messages(issues: Vec<String>, warnings: Vec<String>) -> (r: Self)
        ensures
            issues@.len() > 0 ==> (r matches ConfigHealthStatus::Unhealthy { issues: i, warnings: w } && i == issues && w == warnings),
            issues@.len() == 0 && warnings@.len() > 0 ==> (r matches ConfigHealthStatus::Degraded { warnings: w } && w == warnings),
            issues@.len() == 0 && warnings@.len() == 0 ==> r is Healthy,
    {
        if issues.len() > 0 {
            ConfigHealthStatus::Unhealthy { issues, warnings }
        } else if warnings.len() > 0 {
            ConfigHealthStatus::Degraded { warnings }
        } else {
            ConfigHealthStatus::Healthy
        }
    }

    /// Whether the status is healthy.
    pub fn is_healthy(&self) -> (r: bool)
        ensures
            r == (self is Healthy),
    {
        match self {
            ConfigHealthStatus::Healthy => true,
            _ => false,
        }
    }

    /// All messages: the issues, then the warnings.
    pub fn get_all_messages(&self) -> (r: Vec<String>)
        ensures
            texts(r@) == match self {
                ConfigHealthStatus::Healthy => Seq::<Seq<char>>::empty(),
                ConfigHealthStatus::Degraded { warnings } => texts(warnings@),
                ConfigHealthStatus::Unhealthy { issues, warnings } => texts(issues@) + texts(warnings@),
            },
    {
        match self {
            ConfigHealthStatus::Healthy => {
                let r: Vec<String> = Vec::new();
                assert(texts(r@) =~= Seq::<Seq<char>>::empty());
                r
            },
            ConfigHealthStatus::Degraded { warnings } => copy_strings(warnings),
            ConfigHealthStatus::Unhealthy { issues, warnings } => {
                let mut messages = copy_strings(issues);
                let mut more = copy_strings(warnings);
                let ghost a = messages@;
                messages.append(&mut more);
                proof {
                    assert(texts(messages@) =~= texts(a) + texts(warnings@));
                }
                messages
            },
        }
    }
}

/// Options of a configuration manager. The cleanup interval is in nanoseconds.
#[derive(Debug, Clone, Copy)]
pub struct ConfigManagerOptions {
    /// Maximum history entries kept (0 = unlimited).
    pub max_history_entries: usize,
    /// Maximum history memory in bytes (0 = unlimited).
    pub max_history_memory_bytes: usize,
    /// Whether to send change notifications.
    pub enable_change_notifications: bool,
    /// Whether to cache validations.
    pub enable_validation_caching: bool,
    /// Interval of automatic history cleanup.
    pub cleanup_interval: Option<u128>,
}

impl ConfigManagerOptions {
    /// The default: 1000 entries, 10 MiB, notifications and caching on,
    /// cleanup every hour.
    pub fn default_options() -> (r: Self)
        ensures
            r.max_history_entries == 1000,
            r.max_history_memory_bytes == 10485760,
            r.enable_change_notifications,
            r.enable_validation_caching,
            r.cleanup_interval == Some(3_600_000_000_000u128),
    {
        ConfigManagerOptions {
            max_history_entries: 1000,
            max_history_memory_bytes: 10485760,
            enable_change_notifications: true,
            enable_validation_caching: true,
            cleanup_interval: Some(crate::time::from_secs(3600)),
        }
    }
}

impl Default for ConfigManagerOptions {
    /// See [`ConfigManagerOptions::default_options`].
    fn default() -> (r: Self)
        ensures
            r.max_history_entries == 1000,
            r.max_history_memory_bytes == 10485760,
            r.enable_change_notifications,
            r.enable_validation_caching,
            r.cleanup_interval == Some(3_600_000_000_000u128),
    {
        ConfigManagerOptions::default_options()
    }
}

/// Synchronisation status of a configuration.
#[derive(Debug, Clone, PartialEq, Eq)]
pub enum SyncStatus {
    /// Synchronised.
    Synchronized,
    /// Pending synchronisation.
    Pending,
    /// Synchronisation failed.
    Failed(String),
    /// Being synchronised.
    InProgress,
}

/// Handle of a configuration change listener.
#[derive(Debug)]
pub struct ConfigChangeListener {
    /// Reference-counted handle for the listener's lifetime.
    pub handle: Arc<()>,
}

impl ConfigChangeListener {
    /// A new listener handle.
    pub fn new() -> (r: Self)
    {
        ConfigChangeListener { handle: Arc::new(()) }
    }
}

/// Kind of configuration change.
#[derive(Debug, Clone, Copy, PartialEq, Eq, Structural)]
pub enum ConfigChangeType {
    /// The configuration was updated.
    Update,
    /// The configuration was rolled back.
    Rollback,
    /// The configuration was loaded from a file.
    FileLoad,
    /// The configuration was restored from a version.
    VersionRestore,
}

/// Kind of configuration source event.
#[derive(Debug, Clone, Copy, PartialEq, Eq, Structural)]
pub enum ConfigSourceEventType {
    /// The configuration changed and was loaded.
    ConfigChanged,
    /// The source changed but could not be loaded.
    LoadError,
    /// The source became unavailable.
    SourceUnavailable,
    /// The source became available again.
    SourceAvailable,
}

/// A configuration file source.
#[derive(Debug, Clone)]
pub struct FileConfigSource {
    /// Path of the configuration file, as displayed.
    pub file_path: String,
    /// Priority of the source (higher wins).
    pub priority: u8,
    /// Identifier of the source.
    pub source_id: String,
}

impl FileConfigSource {
    /// A source for the file at `file_path`, identified as `file:<path>`.
    pub fn new(file_path: &str, priority: u8) -> (r: Self)
        ensures
            r.file_path@ == file_path@,
            r.priority == priority,
            r.source_id@ == "file:"@ + file_path@,
    {
        proof { reveal_strlit("file:"); }
        FileConfigSource { file_path: owned(file_path), priority, source_id: concat2("file:", file_path) }
    }

    /// The source identifier.
    pub fn source_id(&self) -> (r: &str)
        ensures
            r@ == self.source_id@,
    {
        self.source_id.as_str()
    }

    /// The source priority.
    pub fn priority(&self) -> (r: u8)
        ensures
            r == self.priority,
    {
        self.priority
    }
}

/// A configuration source reading environment variables.
#[derive(Debug, Clone)]
pub struct EnvironmentConfigSource {
    /// Prefix of the variables.
    pub prefix: String,
    /// Priority of the source (higher wins).
    pub priority: u8,
    /// Identifier of the source.
    pub source_id: String,
}

impl EnvironmentConfigSource {
    /// A source for variables starting with `prefix`, identified as `env:<prefix>`.
    pub fn new(prefix: String, priority: u8) -> (r: Self)
        ensures
            r.prefix@ == prefix@,
            r.priority == priority,
            r.source_id@ == "env:"@ + prefix@,
    {
        proof { reveal_strlit("env:"); }
        let source_id = concat2("env:", prefix.as_str());
        EnvironmentConfigSource { prefix, priority, source_id }
    }

    /// The source identifier.
    pub fn source_id(&self) -> (r: &str)
        ensures
            r@ == self.source_id@,
    {
        self.source_id.as_str()
    }

    /// The source priority.
    pub fn priority(&self) -> (r: u8)
        ensures
            r == self.priority,
    {
        self.priority
    }
}

/// Counters of hot reloading. The last reload time is in nanoseconds since
/// the Unix epoch.
#[derive(Debug, Clone, Copy)]
pub struct HotReloadMetrics {
    /// Times hot reloading was started.
    pub starts: u64,
    /// Times hot reloading was stopped.
    pub stops: u64,
    /// Reload attempts.
    pub reload_attempts: u64,
    /// Successful reloads.
    pub successful_reloads: u64,
    /// Failed reloads.
    pub failed_reloads: u64,
    /// Reloads that found no change.
    pub no_change_reloads: u64,
    /// Time of the last reload attempt.
    pub last_reload_time: Option<u128>,
}

impl HotReloadMetrics {
    /// Counters at zero, no reload yet.
    pub fn new() -> (r: Self)
        ensures
            r.starts == 0 && r.stops == 0 && r.reload_attempts == 0,
            r.successful_reloads == 0 && r.failed_reloads == 0 && r.no_change_reloads == 0,
            r.last_reload_time is None,
    {
        HotReloadMetrics {
            starts: 0,
            stops: 0,
            reload_attempts: 0,
            successful_reloads: 0,
            failed_reloads: 0,
            no_change_reloads: 0,
            last_reload_time: None,
        }
    }

    /// Records a start.
    pub fn record_start(&mut self)
        ensures
            *final(self) == (HotReloadMetrics { starts: wrap_inc(old(self).starts), ..*old(self) }),
    {
        self.starts = inc(self.starts);
    }

    /// Records a stop.
    pub fn record_stop(&mut self)
        ensures
            *final(self) == (HotReloadMetrics { stops: wrap_inc(old(self).stops), ..*old(self) }),
    {
        self.stops = inc(self.stops);
    }

    /// Records a reload attempt at time `now`.
    pub fn record_reload_attempt_at(&mut self, now: u128)
        ensures
            *final(self) == (HotReloadMetrics { reload_attempts: wrap_inc(old(self).reload_attempts), last_reload_time: Some(now), ..*old(self) }),
    {
        self.reload_attempts = inc(self.reload_attempts);
        self.last_reload_time = Some(now);
    }

    /// Records a reload attempt at the current time.
    pub fn record_reload_attempt(&mut self)
        ensures
            final(self).last_reload_time is Some,
            *final(self) == (HotReloadMetrics {
                reload_attempts: wrap_inc(old(self).reload_attempts),
                last_reload_time: final(self).last_reload_time,
                ..*old(self)
            }),
    {
        let now = crate::clock::now_nanos();
        self.record_reload_attempt_at(now);
    }

    /// Records a successful reload.
    pub fn record_successful_reload(&mut self)
        ensures
            *final(self) == (HotReloadMetrics { successful_reloads: wrap_inc(old(self).successful_reloads), ..*old(self) }),
    {
        self.successful_reloads = inc(self.successful_reloads);
    }

    /// Records a failed reload.
    pub fn record_failed_reload(&mut self)
        ensures
            *final(self) == (HotReloadMetrics { failed_reloads: wrap_inc(old(self).failed_reloads), ..*old(self) }),
    {
        self.failed_reloads = inc(self.failed_reloads);
    }

    /// Records a reload that found no change.
    pub fn record_no_change_reload(&mut self)
        ensures
            *final(self) == (HotReloadMetrics { no_change_reloads: wrap_inc(old(self).no_change_reloads), ..*old(self) }),
    {
        self.no_change_reloads = inc(self.no_change_reloads);
    }

    /// Hot reloading is active when it was started more often than stopped.
    pub fn is_active(&self) -> (r: bool)
        ensures
            r == (self.starts > self.stops),
    {
        self.starts > self.stops
    }
}

impl Default for HotReloadMetrics {
    /// See [`HotReloadMetrics::new`].
    fn default() -> (r: Self)
        ensures
            r.starts == 0 && r.stops == 0 && r.reload_attempts == 0,
            r.successful_reloads == 0 && r.failed_reloads == 0 && r.no_change_reloads == 0,
            r.last_reload_time is None,
    {
        HotReloadMetrics::new()
    }
}

/// Starting hot reloading makes it active when starts and stops were
/// balanced, and a stop after that start makes it inactive again (absent
/// counter wrap-around).
pub proof fn law_hot_reload_start_stop(m: HotReloadMetrics)
    requires
        m.starts == m.stops,
        m.starts < u64::MAX,
    ensures
        (HotReloadMetrics { starts: wrap_inc(m.starts), ..m }).starts > (HotReloadMetrics { starts: wrap_inc(m.starts), ..m }).stops,
        ({
            let started = HotReloadMetrics { starts: wrap_inc(m.starts), ..m };
            let stopped = HotReloadMetrics { stops: wrap_inc(started.stops), ..started };
            !(stopped.starts > stopped.stops)
        }),
{
}

proof fn lemma_concat_contains<A>(a: Seq<A>, b: Seq<A>, x: A)
    ensures
        (a + b).contains(x) <==> (a.contains(x) || b.contains(x)),
{
    if (a + b).contains(x) {
        let k = choose|k: int| 0 <= k < (a + b).len() && (a + b)[k] == x;
        if k < a.len() {
            assert(a[k] == x);
        } else {
            assert(b[k - a.len()] == x);
        }
    }
    if a.contains(x) {
        let k = choose|k: int| 0 <= k < a.len() && a[k] == x;
        assert((a + b)[k] == x);
    }
    if b.contains(x) {
        let k = choose|k: int| 0 <= k < b.len() && b[k] == x;
        assert((a + b)[a.len() + k] == x);
    }
}

proof fn lemma_one_contains<A>(v: A, x: A)
    ensures
        seq![v].contains(x) <==> x == v,
        !Seq::<A>::empty().contains(x),
{
    if seq![v].contains(x) {
        let k = choose|k: int| 0 <= k < seq![v].len() && seq![v][k] == x;
        assert(k == 0);
    }
    if x == v {
        assert(seq![v][0] == x);
    }
}

/// How metrics are judged. An issue (unhealthy) is: more than 10% of the
/// updates failed; fewer than half of more than 10 cache lookups hit; or
/// updates take more than 5 ms on average. A warning (degraded) is: more
/// than 5% but at most 10% of the updates failed; at least half but fewer
/// than 80% of more than 10 lookups hit; updates take more than 2 ms but
/// at most 5 ms on average; the history holds more than 10 MiB; or there
/// were more rollbacks than a quarter of the updates. Slow updates are an
/// issue or a warning, never both.
pub proof fn law_health_thresholds(m: ConfigMetrics)
    ensures
        config_issues(m).contains(ConfigHealthFinding::HighErrorRate)
            <==> (m.total_updates > 0 && 10 * m.failed_updates > m.total_updates),
        config_issues(m).contains(ConfigHealthFinding::LowCacheHitRatio)
            <==> (m.validation_cache_hits + m.validation_cache_misses > 10
                && 2 * m.validation_cache_hits < m.validation_cache_hits + m.validation_cache_misses),
        config_issues(m).contains(ConfigHealthFinding::SlowUpdates { avg_update_time_us: m.avg_update_time_us })
            <==> m.avg_update_time_us > 5000,
        config_warnings(m).contains(ConfigHealthFinding::ElevatedErrorRate)
            <==> (m.total_updates > 0 && 10 * m.failed_updates <= m.total_updates && 20 * m.failed_updates > m.total_updates),
        config_warnings(m).contains(ConfigHealthFinding::SuboptimalCacheHitRatio)
            <==> (m.validation_cache_hits + m.validation_cache_misses > 10
                && 2 * m.validation_cache_hits >= m.validation_cache_hits + m.validation_cache_misses
                && 5 * m.validation_cache_hits < 4 * (m.validation_cache_hits + m.validation_cache_misses)),
        config_warnings(m).contains(ConfigHealthFinding::SlowUpdates { avg_update_time_us: m.avg_update_time_us })
            <==> (2000 < m.avg_update_time_us && m.avg_update_time_us <= 5000),
        config_warnings(m).contains(ConfigHealthFinding::HighMemoryUsage { bytes: m.history_memory_bytes })
            <==> m.history_memory_bytes > 10 * 1024 * 1024,
        config_warnings(m).contains(ConfigHealthFinding::HighRollbackRate {
            rollbacks: m.rollback_operations,
            updates: m.total_updates,
        }) <==> m.rollback_operations > m.total_updates / 4,
        !config_issues(m).contains(ConfigHealthFinding::ElevatedErrorRate),
        !config_issues(m).contains(ConfigHealthFinding::SuboptimalCacheHitRatio),
        !config_warnings(m).contains(ConfigHealthFinding::HighErrorRate),
        !config_warnings(m).contains(ConfigHealthFinding::LowCacheHitRatio),
        !(config_issues(m).contains(ConfigHealthFinding::SlowUpdates { avg_update_time_us: m.avg_update_time_us })
            && config_warnings(m).contains(ConfigHealthFinding::SlowUpdates { avg_update_time_us: m.avg_update_time_us })),
        forall|x: ConfigHealthFinding| #[trigger] config_issues(m).contains(x) ==> (x == ConfigHealthFinding::HighErrorRate
            || x == ConfigHealthFinding::LowCacheHitRatio
            || x == ConfigHealthFinding::SlowUpdates { avg_update_time_us: m.avg_update_time_us }),
        forall|x: ConfigHealthFinding| #[trigger] config_warnings(m).contains(x) ==> (x == ConfigHealthFinding::ElevatedErrorRate
            || x == ConfigHealthFinding::SuboptimalCacheHitRatio
            || x == ConfigHealthFinding::SlowUpdates { avg_update_time_us: m.avg_update_time_us }
            || x == ConfigHealthFinding::HighMemoryUsage { bytes: m.history_memory_bytes }
            || x == ConfigHealthFinding::HighRollbackRate { rollbacks: m.rollback_operations, updates: m.total_updates }),
        config_issues(m).len() == (if m.total_updates > 0 && 10 * m.failed_updates > m.total_updates { 1int } else { 0 })
            + (if m.validation_cache_hits + m.validation_cache_misses > 10
                && 2 * m.validation_cache_hits < m.validation_cache_hits + m.validation_cache_misses { 1int } else { 0 })
            + (if m.avg_update_time_us > 5000 { 1int } else { 0 }),
        config_warnings(m).len() == (if m.total_updates > 0 && 10 * m.failed_updates <= m.total_updates
                && 20 * m.failed_updates > m.total_updates { 1int } else { 0 })
            + (if m.validation_cache_hits + m.validation_cache_misses > 10
                && 2 * m.validation_cache_hits >= m.validation_cache_hits + m.validation_cache_misses
                && 5 * m.validation_cache_hits < 4 * (m.validation_cache_hits + m.validation_cache_misses) { 1int } else { 0 })
            + (if 2000 < m.avg_update_time_us && m.avg_update_time_us <= 5000 { 1int } else { 0 })
            + (if m.history_memory_bytes > 10 * 1024 * 1024 { 1int } else { 0 })
            + (if m.rollback_operations > m.total_updates / 4 { 1int } else { 0 }),
{
    let lookups = m.validation_cache_hits + m.validation_cache_misses;
    let ia = if m.total_updates > 0 && 10 * m.failed_updates > m.total_updates { seq![ConfigHealthFinding::HighErrorRate] } else { seq![] };
    let ib = if lookups > 10 && 2 * m.validation_cache_hits < lookups { seq![ConfigHealthFinding::LowCacheHitRatio] } else { seq![] };
    let ic = if m.avg_update_time_us > 5000 { seq![ConfigHealthFinding::SlowUpdates { avg_update_time_us: m.avg_update_time_us }] } else { seq![] };
    assert(config_issues(m) == ia + ib + ic);
    let wa = if m.total_updates > 0 && !(10 * m.failed_updates > m.total_updates) && 20 * m.failed_updates > m.total_updates {
        seq![ConfigHealthFinding::ElevatedErrorRate]
    } else {
        seq![]
    };
    let wb = if lookups > 10 && !(2 * m.validation_cache_hits < lookups) && 5 * m.validation_cache_hits < 4 * lookups {
        seq![ConfigHealthFinding::SuboptimalCacheHitRatio]
    } else {
        seq![]
    };
    let wc = if m.avg_update_time_us <= 5000 && m.avg_update_time_us > 2000 {
        seq![ConfigHealthFinding::SlowUpdates { avg_update_time_us: m.avg_update_time_us }]
    } else {
        seq![]
    };
    let wd = if m.history_memory_bytes > 10485760 { seq![ConfigHealthFinding::HighMemoryUsage { bytes: m.history_memory_bytes }] } else { seq![] };
    let we = if m.rollback_operations > m.total_updates / 4 {
        seq![ConfigHealthFinding::HighRollbackRate { rollbacks: m.rollback_operations, updates: m.total_updates }]
    } else {
        seq![]
    };
    assert(config_warnings(m) == wa + wb + wc + wd + we);
    assert forall|x: ConfigHealthFinding| #[trigger] config_issues(m).contains(x) implies (x == ConfigHealthFinding::HighErrorRate
        || x == ConfigHealthFinding::LowCacheHitRatio
        || x == ConfigHealthFinding::SlowUpdates { avg_update_time_us: m.avg_update_time_us }) by {
        membership(m, ia, ib, ic, wa, wb, wc, wd, we, x);
        lemma_one_contains(ConfigHealthFinding::HighErrorRate, x);
        lemma_one_contains(ConfigHealthFinding::LowCacheHitRatio, x);
        lemma_one_contains(ConfigHealthFinding::SlowUpdates { avg_update_time_us: m.avg_update_time_us }, x);
    }
    assert forall|x: ConfigHealthFinding| #[trigger] config_warnings(m).contains(x) implies (x == ConfigHealthFinding::ElevatedErrorRate
        || x == ConfigHealthFinding::SuboptimalCacheHitRatio
        || x == ConfigHealthFinding::SlowUpdates { avg_update_time_us: m.avg_update_time_us }
        || x == ConfigHealthFinding::HighMemoryUsage { bytes: m.history_memory_bytes }
        || x == ConfigHealthFinding::HighRollbackRate { rollbacks: m.rollback_operations, updates: m.total_updates }) by {
        membership(m, ia, ib, ic, wa, wb, wc, wd, we, x);
        lemma_one_contains(ConfigHealthFinding::ElevatedErrorRate, x);
        lemma_one_contains(ConfigHealthFinding::SuboptimalCacheHitRatio, x);
        lemma_one_contains(ConfigHealthFinding::SlowUpdates { avg_update_time_us: m.avg_update_time_us }, x);
        lemma_one_contains(ConfigHealthFinding::HighMemoryUsage { bytes: m.history_memory_bytes }, x);
        lemma_one_contains(ConfigHealthFinding::HighRollbackRate { rollbacks: m.rollback_operations, updates: m.total_updates }, x);
    }
    membership(m, ia, ib, ic, wa, wb, wc, wd, we, ConfigHealthFinding::HighErrorRate);
    membership(m, ia, ib, ic, wa, wb, wc, wd, we, ConfigHealthFinding::LowCacheHitRatio);
    membership(m, ia, ib, ic, wa, wb, wc, wd, we, ConfigHealthFinding::SlowUpdates { avg_update_time_us: m.avg_update_time_us });
    membership(m, ia, ib, ic, wa, wb, wc, wd, we, ConfigHealthFinding::ElevatedErrorRate);
    membership(m, ia, ib, ic, wa, wb, wc, wd, we, ConfigHealthFinding::SuboptimalCacheHitRatio);
    membership(m, ia, ib, ic, wa, wb, wc, wd, we, ConfigHealthFinding::HighMemoryUsage { bytes: m.history_memory_bytes });
    membership(m, ia, ib, ic, wa, wb, wc, wd, we, ConfigHealthFinding::HighRollbackRate {
        rollbacks: m.rollback_operations,
        updates: m.total_updates,
    });
    lemma_one_contains(ConfigHealthFinding::HighErrorRate, ConfigHealthFinding::HighErrorRate);
    lemma_one_contains(ConfigHealthFinding::LowCacheHitRatio, ConfigHealthFinding::LowCacheHitRatio);
    lemma_one_contains(ConfigHealthFinding::ElevatedErrorRate, ConfigHealthFinding::ElevatedErrorRate);
    lemma_one_contains(ConfigHealthFinding::SuboptimalCacheHitRatio, ConfigHealthFinding::SuboptimalCacheHitRatio);
    let su = ConfigHealthFinding::SlowUpdates { avg_update_time_us: m.avg_update_time_us };
    lemma_one_contains(su, su);
    let hm = ConfigHealthFinding::HighMemoryUsage { bytes: m.history_memory_bytes };
    lemma_one_contains(hm, hm);
    let hr = ConfigHealthFinding::HighRollbackRate { rollbacks: m.rollback_operations, updates: m.total_updates };
    lemma_one_contains(hr, hr);
    lemma_one_contains(ConfigHealthFinding::HighErrorRate, ConfigHealthFinding::ElevatedErrorRate);
    lemma_one_contains(ConfigHealthFinding::HighErrorRate, ConfigHealthFinding::SuboptimalCacheHitRatio);
    lemma_one_contains(ConfigHealthFinding::LowCacheHitRatio, ConfigHealthFinding::ElevatedErrorRate);
    lemma_one_contains(ConfigHealthFinding::LowCacheHitRatio, ConfigHealthFinding::SuboptimalCacheHitRatio);
    lemma_one_contains(su, ConfigHealthFinding::ElevatedErrorRate);
    lemma_one_contains(su, ConfigHealthFinding::SuboptimalCacheHitRatio);
    lemma_one_contains(ConfigHealthFinding::ElevatedErrorRate, ConfigHealthFinding::HighErrorRate);
    lemma_one_contains(ConfigHealthFinding::ElevatedErrorRate, ConfigHealthFinding::LowCacheHitRatio);
    lemma_one_contains(ConfigHealthFinding::SuboptimalCacheHitRatio, ConfigHealthFinding::HighErrorRate);
    lemma_one_contains(ConfigHealthFinding::SuboptimalCacheHitRatio, ConfigHealthFinding::LowCacheHitRatio);
    lemma_one_contains(su, ConfigHealthFinding::HighErrorRate);
    lemma_one_contains(su, ConfigHealthFinding::LowCacheHitRatio);
    lemma_one_contains(hm, ConfigHealthFinding::HighErrorRate);
    lemma_one_contains(hm, ConfigHealthFinding::LowCacheHitRatio);
    lemma_one_contains(hr, ConfigHealthFinding::HighErrorRate);
    lemma_one_contains(hr, ConfigHealthFinding::LowCacheHitRatio);
    lemma_one_contains(ConfigHealthFinding::HighErrorRate, su);
    lemma_one_contains(ConfigHealthFinding::LowCacheHitRatio, su);
    lemma_one_contains(ConfigHealthFinding::ElevatedErrorRate, su);
    lemma_one_contains(ConfigHealthFinding::SuboptimalCacheHitRatio, su);
    lemma_one_contains(hm, su);
    lemma_one_contains(hr, su);
}

proof fn membership(
    m: ConfigMetrics,
    ia: Seq<ConfigHealthFinding>,
    ib: Seq<ConfigHealthFinding>,
    ic: Seq<ConfigHealthFinding>,
    wa: Seq<ConfigHealthFinding>,
    wb: Seq<ConfigHealthFinding>,
    wc: Seq<ConfigHealthFinding>,
    wd: Seq<ConfigHealthFinding>,
    we: Seq<ConfigHealthFinding>,
    x: ConfigHealthFinding,
)
    requires
        config_issues(m) == ia + ib + ic,
        config_warnings(m) == wa + wb + wc + wd + we,
    ensures
        config_issues(m).contains(x) <==> (ia.contains(x) || ib.contains(x) || ic.contains(x)),
        config_warnings(m).contains(x) <==> (wa.contains(x) || wb.contains(x) || wc.contains(x) || wd.contains(x) || we.contains(x)),
{
    lemma_concat_contains(ia, ib, x);
    lemma_concat_contains(ia + ib, ic, x);
    lemma_concat_contains(wa, wb, x);
    lemma_concat_contains(wa + wb, wc, x);
    lemma_concat_contains(wa + wb + wc, wd, x);
    lemma_concat_contains(wa + wb + wc + wd, we, x);
}

/// The average update time: the first sample sets it; each later sample
/// moves it a tenth of the way towards the sample (rounded down), so it
/// stays between the previous average and the sample.
pub proof fn law_average_update_time(avg: u64, sample: u64, first: bool)
    ensures
        first ==> next_avg_time(avg, sample, first) == sample,
        !first ==> 10 * next_avg_time(avg, sample, first) <= 9 * avg + sample < 10 * next_avg_time(avg, sample, first) + 10,
        !first ==> (avg <= sample ==> avg <= next_avg_time(avg, sample, first) <= sample),
        !first ==> (sample <= avg ==> sample <= next_avg_time(avg, sample, first) <= avg),
{
}

} // verus!
