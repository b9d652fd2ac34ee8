//! Versions of the dynamic configuration: the difference between two
//! configurations, and how a difference is applied.
//!
//! A difference names each changed field with its new value, and each tag
//! that was added, changed (with its new value) or removed (with none).

use vstd::prelude::*;
use crate::config::ConfigChangeType;
use crate::dynamic_config::{DynamicConfig, DynamicConfigView};
use crate::float_bits::{f64_eq, f64_is_finite, f64_is_nan, f64_is_zero, f64_bits_eq, f64_bits_is_finite};
use crate::error::Error;
use crate::pairs::{unique_keys, has_key, pairs_map, get_pair, find_key, insert_pair, remove_pair, lemma_pairs_map_at, lemma_pairs_map_push};
use crate::text::text_eq;

verus! {

/// The fields of a configuration that a difference changes, each with its
/// new value.
#[derive(Debug)]
pub struct ChangedFields {
    /// New request timeout.
    pub timeout: Option<u128>,
    /// New maximum retry attempts.
    pub retry_attempts: Option<u32>,
    /// New base URL.
    pub base_url: Option<String>,
    /// New jitter setting.
    pub enable_jitter: Option<bool>,
    /// New longest retry delay.
    pub max_retry_delay: Option<u128>,
    /// New base retry delay.
    pub base_retry_delay: Option<u128>,
    /// New backoff multiplier (binary64 bit pattern).
    pub backoff_multiplier: Option<u64>,
    /// New source priority.
    pub source_priority: Option<Option<u8>>,
}

/// Changed fields with texts as character sequences.
pub struct ChangedFieldsView {
    /// New request timeout.
    pub timeout: Option<u128>,
    /// New maximum retry attempts.
    pub retry_attempts: Option<u32>,
    /// New base URL.
    pub base_url: Option<Seq<char>>,
    /// New jitter setting.
    pub enable_jitter: Option<bool>,
    /// New longest retry delay.
    pub max_retry_delay: Option<u128>,
    /// New base retry delay.
    pub base_retry_delay: Option<u128>,
    /// New backoff multiplier.
    pub backoff_multiplier: Option<u64>,
    /// New source priority.
    pub source_priority: Option<Option<u8>>,
}

impl View for ChangedFields {
    type V = ChangedFieldsView;

    open spec fn view(&self) -> ChangedFieldsView {
        ChangedFieldsView {
            timeout: self.timeout,
            retry_attempts: self.retry_attempts,
            base_url: self.base_url.deep_view(),
            enable_jitter: self.enable_jitter,
            max_retry_delay: self.max_retry_delay,
            base_retry_delay: self.base_retry_delay,
            backoff_multiplier: self.backoff_multiplier,
            source_priority: self.source_priority,
        }
    }
}

/// The difference between two configurations.
#[derive(Debug)]
pub struct ConfigDelta {
    /// Fields that changed.
    pub changed_fields: ChangedFields,
    /// Fields that were added, by name.
    pub added_fields: Vec<(String, serde_json::Value)>,
    /// Fields that were removed, by name.
    pub removed_fields: Vec<String>,
    /// Tag changes, each key at most once: a new value, or none for a removed tag.
    pub tag_changes: Vec<(String, Option<String>)>,
}

/// A difference with texts as character sequences and tag changes as a map.
pub struct ConfigDeltaView {
    /// Fields that changed.
    pub changed_fields: ChangedFieldsView,
    /// Names of added fields.
    pub added_fields: Seq<Seq<char>>,
    /// Names of removed fields.
    pub removed_fields: Seq<Seq<char>>,
    /// Tag changes.
    pub tag_changes: Map<Seq<char>, Option<Seq<char>>>,
}

impl View for ConfigDelta {
    type V = ConfigDeltaView;

    open spec fn view(&self) -> ConfigDeltaView {
        ConfigDeltaView {
            changed_fields: self.changed_fields@,
            added_fields: self.added_fields@.map_values(|p: (String, serde_json::Value)| p.0@),
            removed_fields: self.removed_fields@.map_values(|s: String| s@),
            tag_changes: pairs_map(self.tag_changes@),
        }
    }
}

/// The fields in which `b` differs from `a`, with the values of `b`. The
/// backoff multiplier counts as changed unless the two numbers are equal, so
/// a NaN always counts as changed.
pub open spec fn changed_between(a: DynamicConfigView, b: DynamicConfigView) -> ChangedFieldsView {
    ChangedFieldsView {
        timeout: if a.timeout != b.timeout { Some(b.timeout) } else { None },
        retry_attempts: if a.retry_attempts != b.retry_attempts { Some(b.retry_attempts) } else { None },
        base_url: if a.base_url != b.base_url { Some(b.base_url) } else { None },
        enable_jitter: if a.enable_jitter != b.enable_jitter { Some(b.enable_jitter) } else { None },
        max_retry_delay: if a.max_retry_delay != b.max_retry_delay { Some(b.max_retry_delay) } else { None },
        base_retry_delay: if a.base_retry_delay != b.base_retry_delay { Some(b.base_retry_delay) } else { None },
        backoff_multiplier: if !f64_eq(a.backoff_multiplier, b.backoff_multiplier) {
            Some(b.backoff_multiplier)
        } else {
            None
        },
        source_priority: if a.source_priority != b.source_priority { Some(b.source_priority) } else { None },
    }
}

/// Whether the tag `k` differs between the tag maps `a` and `b`.
pub open spec fn tag_differs(a: Map<Seq<char>, Seq<char>>, b: Map<Seq<char>, Seq<char>>, k: Seq<char>) -> bool {
    if a.contains_key(k) {
        !b.contains_key(k) || a[k] != b[k]
    } else {
        b.contains_key(k)
    }
}

/// The tag changes that lead from `a` to `b`.
pub open spec fn tag_changes_between(a: Map<Seq<char>, Seq<char>>, b: Map<Seq<char>, Seq<char>>) -> Map<Seq<char>, Option<Seq<char>>> {
    Map::new(
        |k: Seq<char>| tag_differs(a, b, k),
        |k: Seq<char>| if b.contains_key(k) { Some(b[k]) } else { None },
    )
}

/// The difference that leads from `a` to `b`.
pub open spec fn delta_between(a: DynamicConfigView, b: DynamicConfigView) -> ConfigDeltaView {
    ConfigDeltaView {
        changed_fields: changed_between(a, b),
        added_fields: Seq::empty(),
        removed_fields: Seq::empty(),
        tag_changes: tag_changes_between(a.tags, b.tags),
    }
}

/// The tags after applying the tag changes to `base`.
pub open spec fn tags_after(base: Map<Seq<char>, Seq<char>>, changes: Map<Seq<char>, Option<Seq<char>>>) -> Map<Seq<char>, Seq<char>> {
    Map::new(
        |k: Seq<char>| if changes.contains_key(k) { changes[k] is Some } else { base.contains_key(k) },
        |k: Seq<char>| if changes.contains_key(k) {
            match changes[k] {
                Some(v) => v,
                None => base[k],
            }
        } else {
            base[k]
        },
    )
}

/// The value that a change leaves in a field.
pub open spec fn changed_or<T>(change: Option<T>, base: T) -> T {
    match change {
        Some(v) => v,
        None => base,
    }
}

/// The configuration after applying a difference to `base`; the cached
/// validation key is dropped. Added and removed fields are not applied.
pub open spec fn applied(d: ConfigDeltaView, base: DynamicConfigView) -> DynamicConfigView {
    DynamicConfigView {
        timeout: changed_or(d.changed_fields.timeout, base.timeout),
        retry_attempts: changed_or(d.changed_fields.retry_attempts, base.retry_attempts),
        base_url: changed_or(d.changed_fields.base_url, base.base_url),
        enable_jitter: changed_or(d.changed_fields.enable_jitter, base.enable_jitter),
        max_retry_delay: changed_or(d.changed_fields.max_retry_delay, base.max_retry_delay),
        base_retry_delay: changed_or(d.changed_fields.base_retry_delay, base.base_retry_delay),
        backoff_multiplier: changed_or(d.changed_fields.backoff_multiplier, base.backoff_multiplier),
        source_priority: changed_or(d.changed_fields.source_priority, base.source_priority),
        tags: tags_after(base.tags, d.tag_changes),
        validation_hash: None,
    }
}

/// The keys of a list of pairs.
pub open spec fn key_set<V: DeepView>(v: Seq<(String, V)>) -> Set<Seq<char>> {
    Set::new(|k: Seq<char>| has_key(v, k))
}

proof fn lemma_key_set_step<V: DeepView>(v: Seq<(String, V)>, i: int)
    requires
        0 <= i < v.len(),
    ensures
        key_set(v.take(i + 1)) == key_set(v.take(i)).insert(v[i].0@),
{
    let a = v.take(i + 1);
    let b = v.take(i);
    assert forall|q: Seq<char>| #[trigger] key_set(a).contains(q) <==> key_set(b).insert(v[i].0@).contains(q) by {
        if has_key(a, q) {
            let w = choose|w: int| 0 <= w < a.len() && a[w].0@ == q;
            if w < i {
                assert(b[w] == a[w]);
            }
        }
        if has_key(b, q) {
            let w = choose|w: int| 0 <= w < b.len() && b[w].0@ == q;
            assert(a[w] == b[w]);
        }
        if q == v[i].0@ {
            assert(a[i] == v[i]);
        }
    }
    assert(key_set(a) =~= key_set(b).insert(v[i].0@));
}

proof fn lemma_unique_prefix<V: DeepView>(v: Seq<(String, V)>, n: int)
    requires
        unique_keys(v),
        0 <= n <= v.len(),
    ensures
        unique_keys(v.take(n)),
{
    let t = v.take(n);
    assert forall|i: int, j: int| 0 <= i < t.len() && 0 <= j < t.len() && i != j implies t[i].0@ != t[j].0@ by {
        assert(t[i] == v[i]);
        assert(t[j] == v[j]);
    }
}

impl ConfigDelta {
    /// Well-formedness: no tag key occurs twice.
    pub open spec fn wf(&self) -> bool {
        unique_keys(self.tag_changes@)
    }

    /// The difference that leads from `old_config` to `new_config`.
    pub fn create_delta(old_config: &DynamicConfig, new_config: &DynamicConfig) -> (r: ConfigDelta)
        requires
            old_config.wf(),
            new_config.wf(),
        ensures
            r.wf(),
            r@ == delta_between(old_config@, new_config@),
    {
        let changed_fields = ChangedFields {
            timeout: if old_config.timeout != new_config.timeout { Some(new_config.timeout) } else { None },
            retry_attempts: if old_config.retry_attempts != new_config.retry_attempts {
                Some(new_config.retry_attempts)
            } else {
                None
            },
            base_url: if !text_eq(old_config.base_url.as_str(), new_config.base_url.as_str()) {
                Some(new_config.base_url.clone())
            } else {
                None
            },
            enable_jitter: if old_config.enable_jitter != new_config.enable_jitter {
                Some(new_config.enable_jitter)
            } else {
                None
            },
            max_retry_delay: if old_config.max_retry_delay != new_config.max_retry_delay {
                Some(new_config.max_retry_delay)
            } else {
                None
            },
            base_retry_delay: if old_config.base_retry_delay != new_config.base_retry_delay {
                Some(new_config.base_retry_delay)
            } else {
                None
            },
            backoff_multiplier: if !f64_bits_eq(old_config.backoff_multiplier, new_config.backoff_multiplier) {
                Some(new_config.backoff_multiplier)
            } else {
                None
            },
            source_priority: if !same_priority(old_config.source_priority, new_config.source_priority) {
                Some(new_config.source_priority)
            } else {
                None
            },
        };
        let tag_changes = tag_changes_of(&old_config.tags, &new_config.tags);
        let r = ConfigDelta {
            changed_fields,
            added_fields: Vec::new(),
            removed_fields: Vec::new(),
            tag_changes,
        };
        proof {
            assert(r@.added_fields =~= Seq::<Seq<char>>::empty());
            assert(r@.removed_fields =~= Seq::<Seq<char>>::empty());
        }
        r
    }

    /// The configuration after applying this difference to `base_config`.
    /// A difference is recorded as JSON, where a backoff multiplier that is
    /// not a finite number (an infinity or a NaN) is written as `null`;
    /// such a change cannot be read back and the difference is refused (see
    /// [`unreadable_delta`]).
    pub fn apply_delta(&self, base_config: &DynamicConfig) -> (r: Result<DynamicConfig, Error>)
        requires
            self.wf(),
            base_config.wf(),
        ensures
            r is Err <==> unreadable_delta(self@),
            r matches Err(e) ==> (e matches Error::DeserializationError(m) && m@ == null_multiplier_message()),
            r matches Ok(c) ==> c.wf() && c@ == applied(self@, base_config@),
    {
        if let Some(m) = self.changed_fields.backoff_multiplier {
            if !f64_bits_is_finite(m) {
                proof { reveal_strlit("invalid type: null, expected f64"); }
                return Err(Error::DeserializationError(crate::text::owned("invalid type: null, expected f64")));
            }
        }
        let mut c = base_config.duplicate();
        let changes = &self.changed_fields;
        if let Some(t) = changes.timeout {
            c.timeout = t;
        }
        if let Some(n) = changes.retry_attempts {
            c.retry_attempts = n;
        }
        match &changes.base_url {
            Some(u) => { c.base_url = u.clone(); },
            None => {},
        }
        if let Some(j) = changes.enable_jitter {
            c.enable_jitter = j;
        }
        if let Some(d) = changes.max_retry_delay {
            c.max_retry_delay = d;
        }
        if let Some(d) = changes.base_retry_delay {
            c.base_retry_delay = d;
        }
        if let Some(m) = changes.backoff_multiplier {
            c.backoff_multiplier = m;
        }
        if let Some(p) = changes.source_priority {
            c.source_priority = p;
        }
        apply_tag_changes(&mut c.tags, &self.tag_changes);
        c.validation_hash = None;
        Ok(c)
    }
}

/// Whether a difference cannot be read back from its JSON record: it
/// changes the backoff multiplier to an infinity or a NaN, which JSON
/// records as `null`.
pub open spec fn unreadable_delta(d: ConfigDeltaView) -> bool {
    d.changed_fields.backoff_multiplier matches Some(m) && !f64_is_finite(m)
}

/// The message of reading a `null` backoff multiplier.
pub open spec fn null_multiplier_message() -> Seq<char> {
    "invalid type: null, expected f64"@
}

fn same_priority(a: Option<u8>, b: Option<u8>) -> (r: bool)
    ensures
        r == (a == b),
{
    match (a, b) {
        (Some(x), Some(y)) => x == y,
        (None, None) => true,
        _ => false,
    }
}

/// The tag changes that lead from the tags `old` to the tags `new`: first
/// the tags of `old` in their order, then the tags only `new` has.
fn tag_changes_of(old: &Vec<(String, String)>, new: &Vec<(String, String)>) -> (r: Vec<(String, Option<String>)>)
    requires
        unique_keys(old@),
        unique_keys(new@),
    ensures
        unique_keys(r@),
        pairs_map(r@) == tag_changes_between(pairs_map(old@), pairs_map(new@)),
{
    let ghost a = pairs_map(old@);
    let ghost b = pairs_map(new@);
    let ghost full = tag_changes_between(a, b);
    let mut r: Vec<(String, Option<String>)> = Vec::new();
    let mut i: usize = 0;
    proof {
        assert(key_set(old@.take(0)) =~= Set::<Seq<char>>::empty());
        assert(pairs_map(r@) =~= full.restrict(Set::<Seq<char>>::empty()));
    }
    while i < old.len()
        invariant
            i <= old@.len(),
            unique_keys(old@),
            unique_keys(new@),
            a == pairs_map(old@),
            b == pairs_map(new@),
            full == tag_changes_between(a, b),
            unique_keys(r@),
            pairs_map(r@) == full.restrict(key_set(old@.take(i as int))),
        decreases old@.len() - i,
    {
        let ghost k = old@[i as int].0@;
        proof {
            lemma_pairs_map_at(old@, i as int);
            lemma_key_set_step(old@, i as int);
        }
        let ghost before = pairs_map(r@);
        match get_pair(new, old[i].0.as_str()) {
            Some(nv) => {
                if !text_eq(old[i].1.as_str(), nv.as_str()) {
                    insert_pair(&mut r, old[i].0.clone(), Some(nv.clone()));
                    proof {
                        assert(pairs_map(r@) =~= full.restrict(key_set(old@.take(i + 1))));
                    }
                } else {
                    proof {
                        assert(!full.contains_key(k));
                        assert(pairs_map(r@) =~= full.restrict(key_set(old@.take(i + 1))));
                    }
                }
            },
            None => {
                insert_pair(&mut r, old[i].0.clone(), None);
                proof {
                    assert(pairs_map(r@) =~= full.restrict(key_set(old@.take(i + 1))));
                }
            },
        }
        i = i + 1;
    }
    proof {
        assert(old@.take(old@.len() as int) =~= old@);
        assert(key_set(new@.take(0)) =~= Set::<Seq<char>>::empty());
        assert(key_set(old@).union(key_set(new@.take(0))) =~= key_set(old@));
    }
    let mut j: usize = 0;
    while j < new.len()
        invariant
            j <= new@.len(),
            unique_keys(old@),
            unique_keys(new@),
            a == pairs_map(old@),
            b == pairs_map(new@),
            full == tag_changes_between(a, b),
            unique_keys(r@),
            pairs_map(r@) == full.restrict(key_set(old@).union(key_set(new@.take(j as int)))),
        decreases new@.len() - j,
    {
        let ghost k = new@[j as int].0@;
        proof {
            lemma_pairs_map_at(new@, j as int);
            lemma_key_set_step(new@, j as int);
        }
        match find_key(old, new[j].0.as_str()) {
            Some(w) => {
                proof {
                    assert(key_set(old@).contains(k));
                    assert(key_set(old@).union(key_set(new@.take(j + 1)))
                        =~= key_set(old@).union(key_set(new@.take(j as int))));
                }
            },
            None => {
                insert_pair(&mut r, new[j].0.clone(), Some(new[j].1.clone()));
                proof {
                    assert(!a.contains_key(k));
                    assert(pairs_map(r@) =~= full.restrict(key_set(old@).union(key_set(new@.take(j + 1)))));
                }
            },
        }
        j = j + 1;
    }
    proof {
        assert(new@.take(new@.len() as int) =~= new@);
        assert(full.restrict(key_set(old@).union(key_set(new@))) =~= full);
    }
    r
}

/// Applies tag changes in order: a value stores the tag, none removes it.
fn apply_tag_changes(tags: &mut Vec<(String, String)>, changes: &Vec<(String, Option<String>)>)
    requires
        unique_keys(old(tags)@),
        unique_keys(changes@),
    ensures
        unique_keys(final(tags)@),
        pairs_map(final(tags)@) == tags_after(pairs_map(old(tags)@), pairs_map(changes@)),
{
    let ghost base = pairs_map(tags@);
    let mut i: usize = 0;
    proof {
        assert(pairs_map(changes@.take(0)) =~= Map::<Seq<char>, Option<Seq<char>>>::empty());
        assert(tags_after(base, Map::empty()) =~= base);
    }
    while i < changes.len()
        invariant
            i <= changes@.len(),
            unique_keys(changes@),
            unique_keys(tags@),
            pairs_map(tags@) == tags_after(base, pairs_map(changes@.take(i as int))),
        decreases changes@.len() - i,
    {
        proof {
            lemma_unique_prefix(changes@, i + 1);
            assert(changes@.take(i + 1) =~= changes@.take(i as int).push(changes@[i as int]));
            lemma_pairs_map_push(changes@.take(i as int), changes@[i as int]);
        }
        match &changes[i].1 {
            Some(v) => {
                insert_pair(tags, changes[i].0.clone(), v.clone());
            },
            None => {
                remove_pair(tags, changes[i].0.as_str());
            },
        }
        proof {
            assert(pairs_map(tags@) =~= tags_after(base, pairs_map(changes@.take(i + 1))));
        }
        i = i + 1;
    }
    proof { assert(changes@.take(changes@.len() as int) =~= changes@); }
}

/// A configuration change, as sent to listeners. The time counts
/// nanoseconds from the Unix epoch.
#[derive(Debug)]
pub struct ConfigChangeEvent {
    /// Version identifier of the new configuration.
    pub version_id: String,
    /// Kind of change.
    pub change_type: ConfigChangeType,
    /// When the change happened.
    pub timestamp: u128,
    /// The configuration before the change, if any.
    pub previous_config: Option<DynamicConfig>,
    /// The configuration after the change.
    pub new_config: DynamicConfig,
}

/// What is measured of a configuration outside the library when it enters
/// the history: the time (nanoseconds from the Unix epoch), its hash and the
/// size of its serialised form in bytes.
#[derive(Debug, Clone, Copy)]
pub struct EntryStamp {
    /// When the entry was made.
    pub timestamp: u128,
    /// Hash of the configuration.
    pub config_hash: u64,
    /// Size of the serialised configuration.
    pub size_bytes: usize,
}

/// One version in the configuration history.
#[derive(Debug)]
pub struct ConfigHistoryEntry {
    /// Version identifier.
    pub version_id: String,
    /// The configuration of this version.
    pub config: DynamicConfig,
    /// When this version was made (nanoseconds from the Unix epoch).
    pub timestamp: u128,
    /// Kind of change that made this version.
    pub change_type: ConfigChangeType,
    /// Hash of the configuration.
    pub config_hash: u64,
    /// Size of the serialised configuration, in bytes.
    pub size_bytes: usize,
    /// Difference from the previous version, if recorded.
    pub delta: Option<ConfigDelta>,
    /// Who made this version.
    pub created_by: Option<String>,
    /// Description of the change.
    pub description: Option<String>,
}

impl ConfigHistoryEntry {
    /// Well-formedness: the configuration and the difference are well formed.
    pub open spec fn wf(&self) -> bool {
        &&& self.config.wf()
        &&& (self.delta matches Some(d) ==> d.wf())
    }

    /// A history entry for `config`, without difference or attribution.
    pub fn from_config(config: DynamicConfig, change_type: ConfigChangeType, version_id: String, stamp: EntryStamp) -> (r: Self)
        ensures
            r.version_id == version_id,
            r.config == config,
            r.timestamp == stamp.timestamp,
            r.change_type == change_type,
            r.config_hash == stamp.config_hash,
            r.size_bytes == stamp.size_bytes,
            r.delta is None,
            r.created_by is None,
            r.description is None,
    {
        ConfigHistoryEntry {
            version_id,
            config,
            timestamp: stamp.timestamp,
            change_type,
            config_hash: stamp.config_hash,
            size_bytes: stamp.size_bytes,
            delta: None,
            created_by: None,
            description: None,
        }
    }

    /// A history entry for `config` that records its difference from the
    /// previous configuration, when there is one.
    pub fn from_config_with_delta(
        config: DynamicConfig,
        change_type: ConfigChangeType,
        version_id: String,
        previous_config: Option<&DynamicConfig>,
        created_by: Option<String>,
        description: Option<String>,
        stamp: EntryStamp,
    ) -> (r: Self)
        requires
            config.wf(),
            previous_config matches Some(p) ==> p.wf(),
        ensures
            r.wf(),
            r.version_id == version_id,
            r.config == config,
            r.timestamp == stamp.timestamp,
            r.change_type == change_type,
            r.config_hash == stamp.config_hash,
            r.size_bytes == stamp.size_bytes,
            previous_config is None <==> r.delta is None,
            previous_config matches Some(p) ==> (r.delta matches Some(d) && d@ == delta_between(p@, config@)),
            r.created_by == created_by,
            r.description == description,
    {
        let delta = match previous_config {
            Some(prev) => Some(ConfigDelta::create_delta(prev, &config)),
            None => None,
        };
        ConfigHistoryEntry {
            version_id,
            config,
            timestamp: stamp.timestamp,
            change_type,
            config_hash: stamp.config_hash,
            size_bytes: stamp.size_bytes,
            delta,
            created_by,
            description,
        }
    }

    /// The bytes this entry takes: those of its difference when it records
    /// one (`delta_bytes`, the length of the difference's serialised form,
    /// measured outside), else those of its configuration.
    pub fn effective_memory_footprint(&self, delta_bytes: usize) -> (r: usize)
        ensures
            r == (if self.delta is Some { delta_bytes } else { self.size_bytes }),
    {
        if self.delta.is_some() { delta_bytes } else { self.size_bytes }
    }

    /// Whether this entry records a difference.
    pub fn can_compress(&self) -> (r: bool)
        ensures
            r == self.delta is Some,
    {
        self.delta.is_some()
    }

    /// The configuration of this entry: the recorded difference applied to
    /// `base_config`, or else the stored configuration.
    pub fn reconstruct_config(&self, base_config: &DynamicConfig) -> (r: Result<DynamicConfig, Error>)
        requires
            self.wf(),
            base_config.wf(),
        ensures
            r is Err <==> (self.delta matches Some(d) && unreadable_delta(d@)),
            r matches Err(e) ==> (e matches Error::DeserializationError(m) && m@ == null_multiplier_message()),
            r matches Ok(c) ==> c.wf(),
            r matches Ok(c) ==> (self.delta matches Some(d) ==> c@ == applied(d@, base_config@)),
            r matches Ok(c) ==> (self.delta is None ==> c@ == self.config@),
    {
        match &self.delta {
            Some(d) => d.apply_delta(base_config),
            None => Ok(self.config.duplicate()),
        }
    }
}

/// Applying to `a` the difference that leads from `a` to `b` gives `b`, but
/// that the cached validation key is dropped and that a zero backoff
/// multiplier keeps the sign it had in `a`; when the backoff multiplier of
/// `b` is a finite number, the difference can be read back, so
/// [`ConfigDelta::apply_delta`] succeeds.
pub proof fn law_delta_round_trip(a: DynamicConfigView, b: DynamicConfigView)
    ensures
        f64_is_finite(b.backoff_multiplier) ==> !unreadable_delta(delta_between(a, b)),
        applied(delta_between(a, b), a) == (DynamicConfigView {
            backoff_multiplier: applied(delta_between(a, b), a).backoff_multiplier,
            validation_hash: None,
            ..b
        }),
        applied(delta_between(a, b), a).backoff_multiplier == b.backoff_multiplier
            || (f64_is_zero(a.backoff_multiplier) && f64_is_zero(b.backoff_multiplier)),
{
    let r = applied(delta_between(a, b), a);
    assert(r.tags =~= b.tags);
}

/// The difference between a configuration and itself changes nothing,
/// unless its backoff multiplier is a NaN, which never equals itself.
pub proof fn law_delta_of_same_is_empty(a: DynamicConfigView)
    requires
        !f64_is_nan(a.backoff_multiplier),
    ensures
        delta_between(a, a).changed_fields == (ChangedFieldsView {
            timeout: None,
            retry_attempts: None,
            base_url: None,
            enable_jitter: None,
            max_retry_delay: None,
            base_retry_delay: None,
            backoff_multiplier: None,
            source_priority: None,
        }),
        delta_between(a, a).tag_changes == Map::<Seq<char>, Option<Seq<char>>>::empty(),
{
    assert(delta_between(a, a).tag_changes =~= Map::<Seq<char>, Option<Seq<char>>>::empty());
}

} // verus!
