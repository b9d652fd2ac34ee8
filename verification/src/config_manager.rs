//! A configuration manager: the configuration in force, the versioned
//! history of the configurations applied, and the update metrics. Updates
//! are validated, recorded in the history, announced through a change
//! event, and followed by a periodic history cleanup. Rollbacks restore an
//! earlier version, validated too. The history can be compressed by
//! recording differences between versions.
//!
//! What is measured outside (durations, clock readings, the serialised
//! size and hash of a configuration) comes in as arguments; the change
//! events go back out for delivery to listeners.

use vstd::prelude::*;
use crate::config::{ConfigChangeType, ConfigManagerOptions, ConfigMetrics, next_avg_time, wrap_inc};
use crate::config_history::{
    add_to_history, cleanup_history, cleaned, history_after_add, lemma_add_bytes, lemma_cleaned_bytes, total_size,
    version_label,
};
use crate::dynamic_config::{DynamicConfig, DynamicConfigView, dynamic_config_problem, validate_dynamic_config};
use crate::error::Error;
use crate::text::{concat2, concat3, text_eq, u64_to_decimal};
use crate::versioning::{ConfigChangeEvent, ConfigDelta, ConfigHistoryEntry, EntryStamp};

verus! {

/// Manages the configuration of a client.
#[derive(Debug)]
pub struct ConfigManager {
    /// The configuration in force.
    pub current: DynamicConfig,
    /// The versions applied, oldest first.
    pub history: Vec<ConfigHistoryEntry>,
    /// Options.
    pub options: ConfigManagerOptions,
    /// Metrics.
    pub metrics: ConfigMetrics,
    /// When the history was last cleaned up.
    pub last_cleanup: u128,
}

/// The outcome of validating `config`, whose problem is `problem`, given
/// the hash of its contents when validation caching is on: a configuration
/// with a problem is refused; an accepted one caches its hash when caching
/// is on.
pub open spec fn validated(config: DynamicConfigView, problem: Option<Seq<char>>, current_hash: Option<u64>)
    -> Result<DynamicConfigView, Seq<char>>
{
    match problem {
        Some(m) => Err(m),
        None => match current_hash {
            Some(h) => Ok(DynamicConfigView { validation_hash: Some(h), ..config }),
            None => Ok(config),
        },
    }
}

/// Time from `earlier` to `now`; zero when `now` is earlier.
pub open spec fn since(earlier: u128, now: u128) -> int {
    if now >= earlier { now - earlier } else { 0 }
}

/// Whether the periodic cleanup is due at `now`.
pub open spec fn cleanup_due(options: ConfigManagerOptions, last_cleanup: u128, now: u128) -> bool {
    options.cleanup_interval matches Some(iv) && since(last_cleanup, now) >= iv
}

/// The message of a rollback to a version that the history does not hold.
pub open spec fn version_not_found_message(id: Seq<char>) -> Seq<char> {
    "Configuration version '"@ + id + "' not found"@
}

/// The message of a rollback without a previous version.
pub open spec fn no_previous_message() -> Seq<char> {
    "No previous configuration to rollback to"@
}

/// The position of the first history entry with version `id`, if any.
pub open spec fn version_position(h: Seq<ConfigHistoryEntry>, id: Seq<char>) -> int
    decreases h.len(),
{
    if h.len() == 0 {
        -1
    } else {
        let i = version_position(h.drop_last(), id);
        if i >= 0 { i } else if h.last().version_id@ == id { h.len() - 1 } else { -1 }
    }
}

proof fn lemma_version_position(h: Seq<ConfigHistoryEntry>, id: Seq<char>)
    ensures
        -1 <= version_position(h, id) < h.len(),
        version_position(h, id) >= 0 ==> h[version_position(h, id)].version_id@ == id,
        version_position(h, id) >= 0 ==> forall|j: int| 0 <= j < version_position(h, id) ==> h[j].version_id@ != id,
        version_position(h, id) < 0 ==> forall|j: int| 0 <= j < h.len() ==> h[j].version_id@ != id,
    decreases h.len(),
{
    if h.len() > 0 {
        lemma_version_position(h.drop_last(), id);
        assert forall|j: int| 0 <= j < h.len() - 1 implies h.drop_last()[j] == h[j] by {}
    }
}

/// An update of the configuration in progress: the configuration proposed
/// and the one in force when the update began.
#[derive(Debug)]
pub struct ConfigUpdate {
    /// The configuration proposed.
    pub new_config: DynamicConfig,
    /// The configuration in force when the update began.
    pub previous_config: DynamicConfig,
}

impl ConfigUpdate {
    /// An update from `current` to `new_config`.
    pub fn new(current: &DynamicConfig, new_config: DynamicConfig) -> (r: Self)
        ensures
            r.new_config == new_config,
            r.previous_config@ == current@,
            r.previous_config.tags@ == current.tags@,
    {
        ConfigUpdate { new_config, previous_config: current.duplicate() }
    }

    /// Checks the proposed configuration.
    pub fn validate(&self) -> (r: Result<(), Error>)
        ensures
            r is Ok <==> dynamic_config_problem(self.new_config) is None,
            dynamic_config_problem(self.new_config) matches Some(m)
                ==> crate::error::is_config_error(r, m),
    {
        validate_dynamic_config(&self.new_config)
    }

    /// Checks the proposed configuration; a successful check caches
    /// `current_hash`, the hash of its contents, as its validation key.
    pub fn validate_with_hash(&mut self, current_hash: u64) -> (r: Result<(), Error>)
        ensures
            final(self).previous_config == old(self).previous_config,
            final(self).new_config.tags@ == old(self).new_config.tags@,
            r is Ok <==> dynamic_config_problem(old(self).new_config) is None,
            dynamic_config_problem(old(self).new_config) matches Some(m) ==> crate::error::is_config_error(r, m),
            r is Ok ==> final(self).new_config@ == (DynamicConfigView { validation_hash: Some(current_hash), ..old(self).new_config@ }),
            r is Err ==> final(self).new_config == old(self).new_config,
    {
        let r = validate_dynamic_config(&self.new_config);
        if r.is_ok() {
            self.new_config.validation_hash = Some(current_hash);
        }
        r
    }

    /// Checks the proposed configuration; a successful check caches the
    /// hash of its contents (see [`crate::dynamic_config::config_hash_of`])
    /// as its validation key.
    pub fn validate_with_cache(&mut self) -> (r: Result<(), Error>)
        ensures
            final(self).previous_config == old(self).previous_config,
            final(self).new_config.tags@ == old(self).new_config.tags@,
            r is Ok <==> dynamic_config_problem(old(self).new_config) is None,
            dynamic_config_problem(old(self).new_config) matches Some(m) ==> crate::error::is_config_error(r, m),
            r is Ok ==> final(self).new_config@ == (DynamicConfigView {
                validation_hash: Some(crate::dynamic_config::config_hash_of(old(self).new_config)),
                ..old(self).new_config@
            }),
            r is Err ==> final(self).new_config == old(self).new_config,
    {
        let h = self.new_config.compute_hash();
        self.validate_with_hash(h)
    }

    /// Checks the proposed configuration and hands it over to be put in
    /// force.
    pub fn apply(self) -> (r: Result<DynamicConfig, Error>)
        ensures
            r is Ok <==> dynamic_config_problem(self.new_config) is None,
            dynamic_config_problem(self.new_config) matches Some(m) ==> crate::error::is_config_error(r, m),
            r matches Ok(c) ==> c == self.new_config,
    {
        match self.validate() {
            Ok(()) => Ok(self.new_config),
            Err(e) => Err(e),
        }
    }
}

impl ConfigManager {
    /// Well-formedness: the configurations are well formed, the history
    /// bytes fit a `usize`, and the newest version recorded is the
    /// configuration in force.
    pub open spec fn wf(&self) -> bool {
        &&& self.current.wf()
        &&& self.history@.len() > 0
        &&& self.history@.last().config@ == self.current@
        &&& total_size(self.history@) <= usize::MAX
        &&& forall|i: int| 0 <= i < self.history@.len() ==> (#[trigger] self.history@[i]).config.wf()
    }

    /// A manager for the configuration `current`, whose history starts with
    /// version `v0` of it, measured as `stamp`, at time `now`.
    pub fn with_options_at(current: DynamicConfig, options: ConfigManagerOptions, stamp: EntryStamp, now: u128) -> (r: Self)
        requires
            current.wf(),
        ensures
            r.wf(),
            r.current@ == current@,
            r.options == options,
            r.history@.len() == 1,
            r.history@[0].version_id@ == "v0"@,
            r.history@[0].config@ == current@,
            r.history@[0].change_type == ConfigChangeType::Update,
            r.history@[0].size_bytes == stamp.size_bytes,
            r.metrics == (ConfigMetrics { history_entries: 1, history_memory_bytes: stamp.size_bytes, ..crate::config::zero_config_metrics() }),
            r.last_cleanup == now,
    {
        proof { reveal_strlit("v0"); }
        let copy = current.duplicate();
        let entry = ConfigHistoryEntry::from_config(copy, ConfigChangeType::Update, crate::text::owned("v0"), stamp);
        let mut metrics = ConfigMetrics::new();
        metrics.update_history_stats(1, stamp.size_bytes);
        let mut history = Vec::new();
        history.push(entry);
        proof {
            assert(history@.drop_last() =~= Seq::<ConfigHistoryEntry>::empty());
            reveal_with_fuel(total_size, 2);
            assert(total_size(history@) == stamp.size_bytes);
        }
        ConfigManager { current, history, options, metrics, last_cleanup: now }
    }

    /// A copy of the configuration in force.
    pub fn current(&self) -> (r: DynamicConfig)
        ensures
            r@ == self.current@,
            r.tags@ == self.current.tags@,
    {
        self.current.duplicate()
    }

    /// The versions applied, oldest first.
    pub fn history(&self) -> (r: &Vec<ConfigHistoryEntry>)
        ensures
            r@ == self.history@,
    {
        &self.history
    }

    /// The metrics.
    pub fn metrics(&self) -> (r: ConfigMetrics)
        ensures
            r == self.metrics,
    {
        self.metrics
    }

    /// The options.
    pub fn options(&self) -> (r: &ConfigManagerOptions)
        ensures
            *r == self.options,
    {
        &self.options
    }

    /// Resets the update counters.
    pub fn reset_metrics(&mut self)
        ensures
            final(self).metrics == (ConfigMetrics {
                history_entries: old(self).metrics.history_entries,
                history_memory_bytes: old(self).metrics.history_memory_bytes,
                ..crate::config::zero_config_metrics()
            }),
            final(self).current == old(self).current,
            final(self).history == old(self).history,
            final(self).options == old(self).options,
            final(self).last_cleanup == old(self).last_cleanup,
    {
        self.metrics.reset();
    }

    /// Cleans the history up when the cleanup interval has passed since the
    /// last cleanup, and restarts the interval.
    pub fn cleanup_if_needed(&mut self, now: u128)
        requires
            old(self).wf(),
        ensures
            final(self).wf(),
            final(self).current == old(self).current,
            final(self).options == old(self).options,
            final(self).metrics.total_updates == old(self).metrics.total_updates,
            final(self).metrics.failed_updates == old(self).metrics.failed_updates,
            final(self).metrics.avg_update_time_us == old(self).metrics.avg_update_time_us,
            final(self).metrics.rollback_operations == old(self).metrics.rollback_operations,
            final(self).metrics.change_events_sent == old(self).metrics.change_events_sent,
            cleanup_due(old(self).options, old(self).last_cleanup, now) ==> {
                &&& final(self).last_cleanup == now
                &&& final(self).history@ == cleaned(old(self).history@, old(self).options.max_history_entries, old(self).options.max_history_memory_bytes)
            },
            !cleanup_due(old(self).options, old(self).last_cleanup, now) ==> {
                &&& final(self).last_cleanup == old(self).last_cleanup
                &&& final(self).history == old(self).history
                &&& final(self).metrics == old(self).metrics
            },
    {
        if let Some(interval) = self.options.cleanup_interval {
            let elapsed = if now >= self.last_cleanup { now - self.last_cleanup } else { 0 };
            if elapsed >= interval {
                self.last_cleanup = now;
                let ghost h0 = self.history@;
                cleanup_history(&mut self.history, &self.options, &mut self.metrics);
                proof {
                    lemma_cleaned_bytes(h0, self.options.max_history_entries, self.options.max_history_memory_bytes);
                    crate::config_history::law_cleaned_within_limits(h0, self.options.max_history_entries, self.options.max_history_memory_bytes);
                    let n = choose|n: int| 0 <= n <= h0.len()
                        && cleaned(h0, self.options.max_history_entries, self.options.max_history_memory_bytes) == h0.skip(n);
                    assert forall|i: int| 0 <= i < self.history@.len() implies (#[trigger] self.history@[i]).config.wf() by {
                        assert(self.history@[i] == h0[i + n]);
                    }
                }
            }
        }
    }

    /// Records `config` as the new version in force, of kind `change_type`,
    /// and builds the change event when notifications are on.
    fn record_change(
        &mut self,
        config: DynamicConfig,
        change_type: ConfigChangeType,
        duration_us: u64,
        stamp: EntryStamp,
        event_time: u128,
        now: u128,
    ) -> (r: Option<ConfigChangeEvent>)
        requires
            old(self).wf(),
            config.wf(),
            total_size(old(self).history@) + stamp.size_bytes <= usize::MAX,
        ensures
            final(self).wf(),
            final(self).current@ == config@,
            final(self).options == old(self).options,
            applied_change(*old(self), *final(self), config@, change_type, duration_us, stamp, event_time, now, r),
    {
        let ghost before = *self;
        let ghost h0 = self.history@;
        self.current = config.duplicate();
        self.metrics.record_update(duration_us);
        add_to_history(&mut self.history, config, change_type, stamp, &self.options, &mut self.metrics);
        let ghost h1 = self.history@;
        proof {
            lemma_add_bytes(h0, h1.last(), self.options);
            crate::config_history::law_add_keeps_newest(h0, h1.last(), self.options);
            assert forall|i: int| 0 <= i < h1.len() implies (#[trigger] h1[i]).config.wf() by {
                if i < h1.len() - 1 {
                    let d = h0.len() - (h1.len() - 1);
                    assert(h1[i] == h0.skip(d)[i]);
                    assert(h0.skip(d)[i] == h0[i + d]);
                }
            }
        }
        let event = if self.options.enable_change_notifications {
            let n = self.history.len();
            proof { reveal_strlit("v"); }
            let version_id = concat2("v", u64_to_decimal(n as u64).as_str());
            let previous_config = Some(self.history[n - 1].config.duplicate());
            let new_config = self.current.duplicate();
            self.metrics.record_change_event();
            Some(ConfigChangeEvent { version_id, change_type, timestamp: event_time, previous_config, new_config })
        } else {
            None
        };
        self.cleanup_if_needed(now);
        proof {
            assert(is_added_entry(h1.last(), h0.len(), config@, change_type, stamp));
            assert(change_effect(before, *self, h1.last(), config@, change_type, duration_us, event_time, now, event));
        }
        event
    }

    /// Starts an update from the configuration in force to `new_config`.
    pub fn update(&self, new_config: DynamicConfig) -> (r: ConfigUpdate)
        ensures
            r.new_config == new_config,
            r.previous_config@ == self.current@,
    {
        ConfigUpdate::new(&self.current, new_config)
    }

    /// Applies `config_update`, which took `duration_us`, given the hash of
    /// the proposed configuration when validation caching is on (see
    /// [`validated`]): a refused configuration leaves the manager as it was
    /// but for a counted failure; an accepted one is put in force and
    /// recorded (see [`applied_change`]).
    pub fn apply_update_with_hash(
        &mut self,
        config_update: ConfigUpdate,
        current_hash: Option<u64>,
        duration_us: u64,
        stamp: EntryStamp,
        event_time: u128,
        now: u128,
    ) -> (r: Result<Option<ConfigChangeEvent>, Error>)
        requires
            old(self).wf(),
            config_update.new_config.wf(),
            total_size(old(self).history@) + stamp.size_bytes <= usize::MAX,
        ensures
            final(self).wf(),
            update_outcome(*old(self), *final(self), config_update.new_config@,
                dynamic_config_problem(config_update.new_config), current_hash, duration_us, stamp, event_time, now, r),
    {
        let mut config_update = config_update;
        let ghost proposed = config_update.new_config;
        let check = match current_hash {
            Some(h) => config_update.validate_with_hash(h),
            None => config_update.validate(),
        };
        match check {
            Err(e) => {
                self.metrics.record_failed_update();
                Err(e)
            },
            Ok(()) => {
                proof {
                    assert(dynamic_config_problem(config_update.new_config) == dynamic_config_problem(proposed));
                }
                match config_update.apply() {
                    Err(e) => Err(e),
                    Ok(config) => {
                        let event = self.record_change(config, ConfigChangeType::Update, duration_us, stamp, event_time, now);
                        Ok(event)
                    },
                }
            },
        }
    }

    /// Applies `config_update`: like [`ConfigManager::apply_update_with_hash`],
    /// with the hash of the proposed configuration computed when validation
    /// caching is on.
    pub fn apply_update(&mut self, config_update: ConfigUpdate, duration_us: u64, stamp: EntryStamp, event_time: u128, now: u128)
        -> (r: Result<Option<ConfigChangeEvent>, Error>)
        requires
            old(self).wf(),
            config_update.new_config.wf(),
            total_size(old(self).history@) + stamp.size_bytes <= usize::MAX,
        ensures
            final(self).wf(),
            update_outcome(
                *old(self), *final(self), config_update.new_config@, dynamic_config_problem(config_update.new_config),
                if old(self).options.enable_validation_caching {
                    Some(crate::dynamic_config::config_hash_of(config_update.new_config))
                } else {
                    None
                }, duration_us, stamp, event_time, now, r),
    {
        let hash = if self.options.enable_validation_caching { Some(config_update.new_config.compute_hash()) } else { None };
        let ghost before = *self;
        let ghost v = config_update.new_config@;
        let ghost p = dynamic_config_problem(config_update.new_config);
        let r = self.apply_update_with_hash(config_update, hash, duration_us, stamp, event_time, now);
        assert(update_outcome(before, *self, v, p, hash, duration_us, stamp, event_time, now, r));
        r
    }

    /// The history, the bytes of its configurations, and the bytes it takes
    /// with the differences it records (see [`footprint_sum`]); `delta_bytes`
    /// gives, for each entry, the bytes of its difference.
    pub fn history_with_compression_stats(&self, delta_bytes: &Vec<usize>) -> (r: (&Vec<ConfigHistoryEntry>, usize, usize))
        requires
            self.wf(),
            delta_bytes@.len() == self.history@.len(),
            footprint_sum(self.history@, delta_bytes@, self.history@.len() as int) <= usize::MAX,
        ensures
            r.0@ == self.history@,
            r.1 == total_size(self.history@),
            r.2 == footprint_sum(self.history@, delta_bytes@, self.history@.len() as int),
    {
        let total = crate::config_history::sum_sizes(&self.history);
        let mut compressed: usize = 0;
        let mut i: usize = 0;
        while i < self.history.len()
            invariant
                i <= self.history@.len(),
                delta_bytes@.len() == self.history@.len(),
                compressed == footprint_sum(self.history@, delta_bytes@, i as int),
                footprint_sum(self.history@, delta_bytes@, self.history@.len() as int) <= usize::MAX,
            decreases self.history@.len() - i,
        {
            proof { lemma_footprint_prefix(self.history@, delta_bytes@, i as int + 1, self.history@.len() as int); }
            compressed = compressed + self.history[i].effective_memory_footprint(delta_bytes[i]);
            i = i + 1;
        }
        (&self.history, total, compressed)
    }

    /// Compresses the history: every entry but the first that records no
    /// difference gets the difference from the entry before it, when that
    /// difference, of `delta_bytes[i]` bytes (measured outside), is smaller
    /// than its configuration (see [`compressed_entry`]). The history
    /// metrics then count the bytes the history takes; the bytes saved are
    /// returned (see [`savings`]).
    pub fn compress_history(&mut self, delta_bytes: &Vec<usize>) -> (r: Result<usize, Error>)
        requires
            old(self).wf(),
            delta_bytes@.len() == old(self).history@.len(),
            footprint_sum(old(self).history@, delta_bytes@, old(self).history@.len() as int) <= usize::MAX,
        ensures
            final(self).wf(),
            final(self).history@.len() == old(self).history@.len(),
            forall|i: int| 0 <= i < old(self).history@.len()
                ==> #[trigger] compressed_entry(old(self).history@, delta_bytes@, i, final(self).history@[i]),
            r == Ok::<usize, Error>(savings(old(self).history@, delta_bytes@, old(self).history@.len() as int) as usize),
            final(self).metrics == (ConfigMetrics {
                history_entries: old(self).history@.len() as usize,
                history_memory_bytes: footprint_sum(final(self).history@, delta_bytes@, old(self).history@.len() as int) as usize,
                ..old(self).metrics
            }),
            final(self).current == old(self).current,
            final(self).options == old(self).options,
            final(self).last_cleanup == old(self).last_cleanup,
    {
        let ghost h0 = self.history@;
        let ghost sizes = delta_bytes@;
        let n = self.history.len();
        let mut saved: usize = 0;
        let mut i: usize = 1;
        proof {
            lemma_savings_bound(h0, sizes, n as int);
            assert(savings(h0, sizes, 0) == 0);
            if n > 0 {
                assert(savings(h0, sizes, 1) == 0);
            }
        }
        while i < n
            invariant
                1 <= i,
                n == h0.len(),
                sizes.len() == h0.len(),
                delta_bytes@ == sizes,
                self.history@.len() == n,
                forall|j: int| 0 <= j < i && j < n ==> #[trigger] compressed_entry(h0, sizes, j, self.history@[j]),
                forall|j: int| i <= j < n ==> #[trigger] self.history@[j] == h0[j],
                saved == savings(h0, sizes, if i <= n { i as int } else { n as int }),
                footprint_sum(h0, sizes, n as int) <= usize::MAX,
                savings(h0, sizes, n as int) <= footprint_sum(h0, sizes, n as int),
                forall|j: int| 0 <= j < n ==> (#[trigger] h0[j]).config.wf(),
                self.current == old(self).current,
                self.options == old(self).options,
                self.last_cleanup == old(self).last_cleanup,
                self.metrics == old(self).metrics,
            decreases n - i,
        {
            proof {
                lemma_savings_prefix(h0, sizes, i as int + 1, n as int);
                assert(compressed_entry(h0, sizes, i - 1, self.history@[i - 1]));
            }
            if self.history[i].delta.is_none() {
                let original_size = self.history[i].size_bytes;
                let compressed_size = delta_bytes[i];
                if compressed_size < original_size {
                    let delta = ConfigDelta::create_delta(&self.history[i - 1].config, &self.history[i].config);
                    saved = saved + (original_size - compressed_size);
                    let ghost prior = self.history@;
                    let mut entry = self.history.remove(i);
                    entry.delta = Some(delta);
                    self.history.insert(i, entry);
                    proof {
                        assert(self.history@ =~= prior.update(i as int, entry));
                        assert(compressed_entry(h0, sizes, i as int, self.history@[i as int]));
                        assert forall|j: int| 0 <= j < i && j < n implies #[trigger] compressed_entry(h0, sizes, j, self.history@[j]) by {
                            assert(self.history@[j] == prior[j]);
                        }
                        assert forall|j: int| i < j < n implies #[trigger] self.history@[j] == h0[j] by {
                            assert(self.history@[j] == prior[j]);
                        }
                    }
                }
            }
            i = i + 1;
        }
        let ghost h1 = self.history@;
        proof {
            if n == 0 {
                assert(h1.len() == 0);
            }
            assert forall|j: int| 0 <= j < n implies #[trigger] compressed_entry(h0, sizes, j, h1[j]) by {
                if j >= i {
                    assert(h1[j] == h0[j]);
                }
            }
            lemma_footprint_shrinks(h0, h1, sizes, n as int);
            assert forall|j: int| 0 <= j < n implies (#[trigger] h1[j]).size_bytes == h0[j].size_bytes by {
                assert(compressed_entry(h0, sizes, j, h1[j]));
            }
            lemma_total_size_same_sizes(h0, h1);
            assert forall|j: int| 0 <= j < h1.len() implies (#[trigger] h1[j]).config.wf() by {
                assert(compressed_entry(h0, sizes, j, h1[j]));
            }
            assert(compressed_entry(h0, sizes, n - 1, h1[n - 1]));
        }
        let (_, _, total_memory) = self.history_with_compression_stats(delta_bytes);
        self.metrics.update_history_stats(n, total_memory);
        Ok(saved)
    }

    fn version_index(&self, version_id: &str) -> (r: Option<usize>)
        ensures
            r matches Some(i) ==> i == version_position(self.history@, version_id@) && i < self.history@.len(),
            r is None ==> version_position(self.history@, version_id@) < 0,
    {
        let ghost h = self.history@;
        let mut i: usize = 0;
        while i < self.history.len()
            invariant
                i <= h.len(),
                h == self.history@,
                forall|j: int| 0 <= j < i ==> h[j].version_id@ != version_id@,
            decreases h.len() - i,
        {
            if text_eq(self.history[i].version_id.as_str(), version_id) {
                proof {
                    lemma_version_position(h, version_id@);
                    let p = version_position(h, version_id@);
                    if p < 0 {
                        assert(h[i as int].version_id@ != version_id@);
                    } else if p < i {
                        assert(h[p].version_id@ != version_id@);
                    } else if p > i {
                        assert(h[i as int].version_id@ != version_id@);
                    }
                }
                return Some(i);
            }
            i = i + 1;
        }
        proof { lemma_version_position(h, version_id@); }
        None
    }

    /// Puts `target` in force as a restore of kind `change_type`, the
    /// rollback being counted already: see [`restore_outcome`].
    fn restore(
        &mut self,
        target: DynamicConfig,
        change_type: ConfigChangeType,
        duration_us: u64,
        stamp: EntryStamp,
        event_time: u128,
        now: u128,
    ) -> (r: Result<Option<ConfigChangeEvent>, Error>)
        requires
            old(self).wf(),
            target.wf(),
            total_size(old(self).history@) + stamp.size_bytes <= usize::MAX,
        ensures
            final(self).wf(),
            restore_outcome(*old(self), *final(self), target, change_type, duration_us, stamp, event_time, now, r),
    {
        match validate_dynamic_config(&target) {
            Err(e) => Err(e),
            Ok(()) => {
                let event = self.record_change(target, change_type, duration_us, stamp, event_time, now);
                Ok(event)
            },
        }
    }

    /// Restores the configuration of version `version_id` as a version
    /// restore: the rollback is counted, then the configuration is checked
    /// and, when it passes, put in force and recorded (see
    /// [`restore_outcome`]). Refused when the history has no such version.
    pub fn rollback_to_version(
        &mut self,
        version_id: &str,
        duration_us: u64,
        stamp: EntryStamp,
        event_time: u128,
        now: u128,
    ) -> (r: Result<Option<ConfigChangeEvent>, Error>)
        requires
            old(self).wf(),
            total_size(old(self).history@) + stamp.size_bytes <= usize::MAX,
        ensures
            final(self).wf(),
            final(self).options == old(self).options,
            ({
                let p = version_position(old(self).history@, version_id@);
                if p < 0 {
                    &&& r matches Err(e) && crate::error::is_config_error(Err::<(), Error>(e), version_not_found_message(version_id@))
                    &&& *final(self) == *old(self)
                } else {
                    restore_outcome(rollback_counted(*old(self)), *final(self), old(self).history@[p].config,
                        ConfigChangeType::VersionRestore, duration_us, stamp, event_time, now, r)
                }
            }),
    {
        match self.version_index(version_id) {
            None => {
                proof {
                    reveal_strlit("Configuration version '");
                    reveal_strlit("' not found");
                }
                Err(Error::ConfigurationError(concat3("Configuration version '", version_id, "' not found")))
            },
            Some(i) => {
                let target = self.history[i].config.duplicate();
                self.metrics.record_rollback();
                self.restore(target, ConfigChangeType::VersionRestore, duration_us, stamp, event_time, now)
            },
        }
    }

    /// Restores the configuration of the version before the newest as a
    /// rollback: the rollback is counted, then the configuration is checked
    /// and, when it passes, put in force and recorded (see
    /// [`restore_outcome`]). Refused when the history holds fewer than two
    /// versions.
    pub fn rollback(&mut self, duration_us: u64, stamp: EntryStamp, event_time: u128, now: u128)
        -> (r: Result<Option<ConfigChangeEvent>, Error>)
        requires
            old(self).wf(),
            total_size(old(self).history@) + stamp.size_bytes <= usize::MAX,
        ensures
            final(self).wf(),
            final(self).options == old(self).options,
            old(self).history@.len() < 2 ==> {
                &&& r matches Err(e) && crate::error::is_config_error(Err::<(), Error>(e), no_previous_message())
                &&& *final(self) == *old(self)
            },
            old(self).history@.len() >= 2 ==> restore_outcome(rollback_counted(*old(self)), *final(self),
                old(self).history@[old(self).history@.len() - 2].config, ConfigChangeType::Rollback,
                duration_us, stamp, event_time, now, r),
    {
        let n = self.history.len();
        if n < 2 {
            proof { reveal_strlit("No previous configuration to rollback to"); }
            return Err(Error::ConfigurationError(crate::text::owned("No previous configuration to rollback to")));
        }
        let target = self.history[n - 2].config.duplicate();
        self.metrics.record_rollback();
        self.restore(target, ConfigChangeType::Rollback, duration_us, stamp, event_time, now)
    }
}

/// The outcome of an update: see [`validated`] and [`applied_change`].
pub open spec fn update_outcome(
    before: ConfigManager,
    after: ConfigManager,
    config: DynamicConfigView,
    problem: Option<Seq<char>>,
    current_hash: Option<u64>,
    duration_us: u64,
    stamp: EntryStamp,
    event_time: u128,
    now: u128,
    r: Result<Option<ConfigChangeEvent>, Error>,
) -> bool {
    match validated(config, problem, current_hash) {
        Err(msg) => {
            &&& r matches Err(e) && crate::error::is_config_error(Err::<(), Error>(e), msg)
            &&& after.metrics == (ConfigMetrics { failed_updates: wrap_inc(before.metrics.failed_updates), ..before.metrics })
            &&& after.current == before.current
            &&& after.history == before.history
            &&& after.options == before.options
            &&& after.last_cleanup == before.last_cleanup
        },
        Ok(v) => r matches Ok(event)
            && applied_change(before, after, v, ConfigChangeType::Update, duration_us, stamp, event_time, now, event),
    }
}

/// A manager with one more rollback counted.
pub open spec fn rollback_counted(m: ConfigManager) -> ConfigManager {
    ConfigManager { metrics: ConfigMetrics { rollback_operations: wrap_inc(m.metrics.rollback_operations), ..m.metrics }, ..m }
}

/// The outcome of restoring `target` as a change of kind `change_type`:
/// a configuration with a problem is refused with its message and nothing
/// changes; one without is put in force and recorded (see
/// [`applied_change`]).
pub open spec fn restore_outcome(
    before: ConfigManager,
    after: ConfigManager,
    target: DynamicConfig,
    change_type: ConfigChangeType,
    duration_us: u64,
    stamp: EntryStamp,
    event_time: u128,
    now: u128,
    r: Result<Option<ConfigChangeEvent>, Error>,
) -> bool {
    match dynamic_config_problem(target) {
        Some(m) => crate::error::is_config_error(r, m) && after == before,
        None => r matches Ok(event)
            && applied_change(before, after, target@, change_type, duration_us, stamp, event_time, now, event),
    }
}

/// Whether `e` is the entry that recording a change to `config` of kind
/// `change_type`, measured as `stamp`, adds to a history of `len` entries:
/// version `v` and `len`, no difference.
pub open spec fn is_added_entry(
    e: ConfigHistoryEntry,
    len: nat,
    config: DynamicConfigView,
    change_type: ConfigChangeType,
    stamp: EntryStamp,
) -> bool {
    &&& e.version_id@ == version_label(len)
    &&& e.config@ == config
    &&& e.config.wf()
    &&& e.change_type == change_type
    &&& e.timestamp == stamp.timestamp
    &&& e.config_hash == stamp.config_hash
    &&& e.size_bytes == stamp.size_bytes
    &&& e.delta is None
}

/// What recording a change to `config` of kind `change_type` does, from
/// manager `before` to manager `after` with event `event`: the update is
/// counted with its duration, the configuration enters the history as a
/// new entry (see [`is_added_entry`] and [`history_after_add`]); when
/// notifications are on, an event announces the version numbered by the
/// entries after the addition, with the newest history entry as the
/// previous configuration, and is counted; then the periodic cleanup runs
/// when due (see [`ConfigManager::cleanup_if_needed`]).
pub open spec fn applied_change(
    before: ConfigManager,
    after: ConfigManager,
    config: DynamicConfigView,
    change_type: ConfigChangeType,
    duration_us: u64,
    stamp: EntryStamp,
    event_time: u128,
    now: u128,
    event: Option<ConfigChangeEvent>,
) -> bool {
    exists|e: ConfigHistoryEntry|
        #[trigger] is_added_entry(e, before.history@.len(), config, change_type, stamp)
            && change_effect(before, after, e, config, change_type, duration_us, event_time, now, event)
}

/// What recording a change does once `entry` is the entry it adds: see
/// [`applied_change`].
pub open spec fn change_effect(
    before: ConfigManager,
    after: ConfigManager,
    entry: ConfigHistoryEntry,
    config: DynamicConfigView,
    change_type: ConfigChangeType,
    duration_us: u64,
    event_time: u128,
    now: u128,
    event: Option<ConfigChangeEvent>,
) -> bool {
    let added = history_after_add(before.history@, entry, before.options);
    &&& after.current@ == config
    &&& after.options == before.options
    &&& (if cleanup_due(before.options, before.last_cleanup, now) {
        after.history@ == cleaned(added, before.options.max_history_entries, before.options.max_history_memory_bytes)
            && after.last_cleanup == now
    } else {
        after.history@ == added && after.last_cleanup == before.last_cleanup
    })
    &&& after.metrics.total_updates == wrap_inc(before.metrics.total_updates)
    &&& after.metrics.avg_update_time_us == next_avg_time(before.metrics.avg_update_time_us, duration_us, before.metrics.total_updates == 0)
    &&& after.metrics.failed_updates == before.metrics.failed_updates
    &&& after.metrics.rollback_operations == before.metrics.rollback_operations
    &&& after.metrics.change_events_sent == if before.options.enable_change_notifications {
        wrap_inc(before.metrics.change_events_sent)
    } else {
        before.metrics.change_events_sent
    }
    &&& (before.options.enable_change_notifications <==> event is Some)
    &&& (event matches Some(e) ==> {
        &&& e.version_id@ == version_label(added.len())
        &&& e.change_type == change_type
        &&& e.timestamp == event_time
        &&& e.new_config@ == config
        &&& e.previous_config matches Some(p) && p@ == config
    })
}

/// A rollback right after a successful update restores the configuration
/// that was in force before the update: whenever the history still holds
/// two versions after the update, the version before the newest, which
/// [`ConfigManager::rollback`] restores when it passes validation, is that
/// configuration.
pub proof fn law_rollback_after_update_restores(
    before: ConfigManager,
    after: ConfigManager,
    config: DynamicConfigView,
    duration_us: u64,
    stamp: EntryStamp,
    event_time: u128,
    now: u128,
    event: Option<ConfigChangeEvent>,
)
    requires
        before.wf(),
        applied_change(before, after, config, ConfigChangeType::Update, duration_us, stamp, event_time, now, event),
        after.history@.len() >= 2,
    ensures
        after.history@[after.history@.len() - 2].config@ == before.current@,
{
    let h0 = before.history@;
    let o = before.options;
    let e = choose|e: ConfigHistoryEntry|
        #[trigger] is_added_entry(e, h0.len(), config, ConfigChangeType::Update, stamp)
            && change_effect(before, after, e, config, ConfigChangeType::Update, duration_us, event_time, now, event);
    let d = crate::config_history::drop_before_add(h0.len() as int, crate::config_history::over_memory(h0, e.size_bytes as int, o.max_history_memory_bytes), o.max_history_entries);
    let added = history_after_add(h0, e, o);
    assert(added == h0.skip(d).push(e));
    assert(added[added.len() - 2] == h0.last());
    if cleanup_due(o, before.last_cleanup, now) {
        crate::config_history::law_cleaned_within_limits(added, o.max_history_entries, o.max_history_memory_bytes);
        let n = choose|n: int| 0 <= n <= added.len()
            && cleaned(added, o.max_history_entries, o.max_history_memory_bytes) == added.skip(n);
        let h1 = after.history@;
        assert(h1 == added.skip(n));
        assert(h1[h1.len() - 2] == added[added.len() - 2]);
    }
}

/// The bytes the first `n` entries of `h` take: an entry that records a
/// difference counts the bytes of its difference, `delta_bytes[i]`; any
/// other counts the bytes of its configuration.
pub open spec fn footprint_sum(h: Seq<ConfigHistoryEntry>, delta_bytes: Seq<usize>, n: int) -> int
    decreases n,
{
    if n <= 0 {
        0
    } else {
        footprint_sum(h, delta_bytes, n - 1) + (if h[n - 1].delta is Some {
            delta_bytes[n - 1] as int
        } else {
            h[n - 1].size_bytes as int
        })
    }
}

/// Whether entry `i` of `h` gets a difference when the history is
/// compressed: it is not the first, it records none yet, and its difference
/// (of `delta_bytes[i]` bytes) is smaller than its configuration.
pub open spec fn compressible(h: Seq<ConfigHistoryEntry>, delta_bytes: Seq<usize>, i: int) -> bool {
    1 <= i && h[i].delta is None && delta_bytes[i] < h[i].size_bytes
}

/// Whether `e` is entry `i` of `h` after compression: a compressible entry
/// records the difference from the entry before it and is otherwise kept;
/// any other entry is kept as it was.
pub open spec fn compressed_entry(h: Seq<ConfigHistoryEntry>, delta_bytes: Seq<usize>, i: int, e: ConfigHistoryEntry) -> bool {
    if compressible(h, delta_bytes, i) {
        &&& e == (ConfigHistoryEntry { delta: e.delta, ..h[i] })
        &&& e.delta matches Some(d) && d.wf() && d@ == crate::versioning::delta_between(h[i - 1].config@, h[i].config@)
    } else {
        e == h[i]
    }
}

/// The bytes saved by compressing the first `n` entries of `h`: for each
/// compressible entry, its bytes less those of its difference.
pub open spec fn savings(h: Seq<ConfigHistoryEntry>, delta_bytes: Seq<usize>, n: int) -> int
    decreases n,
{
    if n <= 0 {
        0
    } else {
        savings(h, delta_bytes, n - 1) + (if compressible(h, delta_bytes, n - 1) {
            h[n - 1].size_bytes - delta_bytes[n - 1]
        } else {
            0
        })
    }
}

proof fn lemma_footprint_prefix(h: Seq<ConfigHistoryEntry>, delta_bytes: Seq<usize>, a: int, b: int)
    requires
        0 <= a <= b,
    ensures
        0 <= footprint_sum(h, delta_bytes, a) <= footprint_sum(h, delta_bytes, b),
    decreases b,
{
    if a < b {
        lemma_footprint_prefix(h, delta_bytes, a, b - 1);
    } else if b > 0 {
        lemma_footprint_prefix(h, delta_bytes, 0, b - 1);
    }
}

proof fn lemma_savings_prefix(h: Seq<ConfigHistoryEntry>, delta_bytes: Seq<usize>, a: int, b: int)
    requires
        0 <= a <= b,
    ensures
        0 <= savings(h, delta_bytes, a) <= savings(h, delta_bytes, b),
    decreases b,
{
    if a < b {
        lemma_savings_prefix(h, delta_bytes, a, b - 1);
    } else if b > 0 {
        lemma_savings_prefix(h, delta_bytes, 0, b - 1);
    }
}

proof fn lemma_savings_bound(h: Seq<ConfigHistoryEntry>, delta_bytes: Seq<usize>, n: int)
    requires
        0 <= n <= h.len(),
        delta_bytes.len() == h.len(),
    ensures
        savings(h, delta_bytes, n) <= footprint_sum(h, delta_bytes, n),
    decreases n,
{
    if n > 0 {
        lemma_savings_bound(h, delta_bytes, n - 1);
    }
}

proof fn lemma_footprint_shrinks(h0: Seq<ConfigHistoryEntry>, h1: Seq<ConfigHistoryEntry>, delta_bytes: Seq<usize>, n: int)
    requires
        0 <= n <= h0.len(),
        n <= h1.len(),
        delta_bytes.len() == h0.len(),
        forall|j: int| 0 <= j < n ==> #[trigger] compressed_entry(h0, delta_bytes, j, h1[j]),
    ensures
        footprint_sum(h1, delta_bytes, n) <= footprint_sum(h0, delta_bytes, n),
    decreases n,
{
    if n > 0 {
        lemma_footprint_shrinks(h0, h1, delta_bytes, n - 1);
        assert(compressed_entry(h0, delta_bytes, n - 1, h1[n - 1]));
    }
}

proof fn lemma_total_size_same_sizes(h0: Seq<ConfigHistoryEntry>, h1: Seq<ConfigHistoryEntry>)
    requires
        h0.len() == h1.len(),
        forall|j: int| 0 <= j < h0.len() ==> (#[trigger] h1[j]).size_bytes == h0[j].size_bytes,
    ensures
        total_size(h0) == total_size(h1),
    decreases h0.len(),
{
    if h0.len() > 0 {
        assert forall|j: int| 0 <= j < h0.len() - 1 implies (#[trigger] h1.drop_last()[j]).size_bytes
            == h0.drop_last()[j].size_bytes by {
            assert(h1.drop_last()[j] == h1[j]);
            assert(h0.drop_last()[j] == h0[j]);
        }
        lemma_total_size_same_sizes(h0.drop_last(), h1.drop_last());
        assert(h1[h1.len() - 1].size_bytes == h0[h0.len() - 1].size_bytes);
    }
}

} // verus!
