//! Configuration of the client that can be replaced at run time, with its
//! validating builder and priority-based merging.
//!
//! Durations are in nanoseconds. The backoff multiplier is a binary64 number
//! held as its bit pattern (see [`crate::float_bits`]). Tags are kept as a
//! list of key/value pairs in which no key occurs twice.

use vstd::prelude::*;
use crate::error::Error;
use crate::float_bits::{f64_is_nan, f64_lt, f64_bits_is_nan, f64_bits_lt};
use crate::pairs::{unique_keys, has_key, pairs_map, insert_pair, lemma_pairs_map_at, lemma_pairs_map_push, lemma_pairs_map_remove};
use crate::text::{owned, concat3, decimal, u64_to_decimal, u128_to_decimal};

verus! {

/// Nanoseconds in a second.
pub const NANOS_PER_SECOND: u128 = 1_000_000_000;

/// Longest accepted timeout, in whole seconds.
pub const MAX_TIMEOUT_SECONDS: u128 = 600;

/// Largest accepted number of retry attempts.
pub const MAX_RETRY_ATTEMPTS: u32 = 50;

/// Largest accepted source priority.
pub const MAX_SOURCE_PRIORITY: u8 = 100;

/// Longest accepted tag key, in UTF-8 bytes.
pub const MAX_TAG_KEY_BYTES: usize = 255;

/// Longest accepted tag value, in UTF-8 bytes.
pub const MAX_TAG_VALUE_BYTES: usize = 1024;

/// Largest accepted number of tags.
pub const MAX_TAGS: usize = 50;

/// Bit pattern of the binary64 number 0.0.
pub const F64_ZERO_BITS: u64 = 0;

/// Bit pattern of the binary64 number 2.0.
pub const F64_TWO_BITS: u64 = 0x4000_0000_0000_0000;

/// Bit pattern of the binary64 number 10.0.
pub const F64_TEN_BITS: u64 = 0x4024_0000_0000_0000;

/// The hash that std's `DefaultHasher`, freshly made by `new`, gives after
/// taking the UTF-8 bytes of `s` and nothing else.
pub uninterp spec fn text_hash(s: Seq<char>) -> u64;

/// Hashes the bytes of `s` with a fresh `DefaultHasher` (std
/// `DefaultHasher::new`, `Hasher::write`, `Hasher::finish`). The contract
/// names the result: std documents that every hasher `new` makes is the
/// same, and `write` takes the bytes alone, with no length or other prefix,
/// so the result is a function of the text (for a given build of std, whose
/// algorithm the documentation leaves open).
#[verifier::external_body]
pub(crate) fn hash_text(s: &str) -> (r: u64)
    ensures
        r == text_hash(s@),
{
    let mut hasher = std::collections::hash_map::DefaultHasher::new();
    std::hash::Hasher::write(&mut hasher, s.as_bytes());
    std::hash::Hasher::finish(&hasher)
}

/// The text hashed for one tag.
pub open spec fn tag_text(k: Seq<char>, v: Seq<char>) -> Seq<char> {
    k + "="@ + v
}

/// The sum of the hashes of the tags.
pub open spec fn tag_digest(t: Seq<(String, String)>) -> int
    decreases t.len(),
{
    if t.len() == 0 { 0 } else { tag_digest(t.drop_last()) + text_hash(tag_text(t.last().0@, t.last().1@)) }
}

/// `1` or `0`.
pub open spec fn flag_text(b: bool) -> Seq<char> {
    if b { "1"@ } else { "0"@ }
}

/// A priority in decimal, `-` for none.
pub open spec fn priority_text(p: Option<u8>) -> Seq<char> {
    match p {
        Some(x) => decimal(x as nat),
        None => "-"@,
    }
}

/// The text hashed for a configuration: its fields but the cached
/// validation key, in declaration order and separated by `;`, and then the
/// digest of its tags.
pub open spec fn hash_input(v: DynamicConfigView, digest: u64) -> Seq<char> {
    decimal(v.timeout as nat) + ";"@ + decimal(v.retry_attempts as nat) + ";"@ + v.base_url + ";"@
        + flag_text(v.enable_jitter) + ";"@ + decimal(v.max_retry_delay as nat) + ";"@
        + decimal(v.base_retry_delay as nat) + ";"@ + decimal(v.backoff_multiplier as nat) + ";"@
        + priority_text(v.source_priority) + ";"@ + decimal(digest as nat)
}

/// The hash of a configuration: see [`DynamicConfig::compute_hash`].
pub open spec fn config_hash_of(c: DynamicConfig) -> u64 {
    text_hash(hash_input(c@, (tag_digest(c.tags@) % 0x1_0000_0000_0000_0000) as u64))
}

/// Whether two configurations hold the same values, their cached
/// validation keys aside.
pub open spec fn same_content(a: DynamicConfigView, b: DynamicConfigView) -> bool {
    DynamicConfigView { validation_hash: None, ..a } == DynamicConfigView { validation_hash: None, ..b }
}

proof fn lemma_tag_digest_nonneg(t: Seq<(String, String)>)
    ensures
        tag_digest(t) >= 0,
    decreases t.len(),
{
    if t.len() > 0 {
        lemma_tag_digest_nonneg(t.drop_last());
    }
}

proof fn lemma_tag_digest_remove(t: Seq<(String, String)>, j: int)
    requires
        0 <= j < t.len(),
    ensures
        tag_digest(t) == tag_digest(t.remove(j)) + text_hash(tag_text(t[j].0@, t[j].1@)),
    decreases t.len(),
{
    if j == t.len() - 1 {
        assert(t.remove(j) =~= t.drop_last());
    } else {
        lemma_tag_digest_remove(t.drop_last(), j);
        assert(t.remove(j).drop_last() =~= t.drop_last().remove(j));
        assert(t.remove(j).last() == t.last());
    }
}

proof fn lemma_tag_digest_same_map(t1: Seq<(String, String)>, t2: Seq<(String, String)>)
    requires
        unique_keys(t1),
        unique_keys(t2),
        pairs_map(t1) == pairs_map(t2),
    ensures
        tag_digest(t1) == tag_digest(t2),
    decreases t1.len(),
{
    if t1.len() == 0 {
        if t2.len() > 0 {
            lemma_pairs_map_at(t2, 0);
            assert(!has_key(t1, t2[0].0@));
        }
    } else {
        let n = t1.len() - 1;
        let k = t1[n].0@;
        lemma_pairs_map_at(t1, n);
        assert(has_key(t2, k));
        let j = choose|j: int| 0 <= j < t2.len() && t2[j].0@ == k;
        lemma_pairs_map_at(t2, j);
        lemma_pairs_map_remove(t1, n);
        lemma_pairs_map_remove(t2, j);
        assert(t1.remove(n) =~= t1.drop_last());
        lemma_tag_digest_same_map(t1.drop_last(), t2.remove(j));
        lemma_tag_digest_remove(t2, j);
    }
}

/// Configurations that hold the same values, their cached validation keys
/// aside, hash equally, whatever the order of their tags.
pub proof fn law_equal_configs_hash_equally(a: DynamicConfig, b: DynamicConfig)
    requires
        a.wf(),
        b.wf(),
        same_content(a@, b@),
    ensures
        config_hash_of(a) == config_hash_of(b),
{
    assert(a@.tags == b@.tags);
    lemma_tag_digest_same_map(a.tags@, b.tags@);
    assert(hash_input(a@, (tag_digest(a.tags@) % 0x1_0000_0000_0000_0000) as u64)
        == hash_input(b@, (tag_digest(b.tags@) % 0x1_0000_0000_0000_0000) as u64));
}

/// Dynamic configuration that can be updated at run time.
#[derive(Debug)]
pub struct DynamicConfig {
    /// Request timeout.
    pub timeout: u128,
    /// Maximum retry attempts.
    pub retry_attempts: u32,
    /// Base URL of API requests.
    pub base_url: String,
    /// Whether retry backoff is jittered.
    pub enable_jitter: bool,
    /// Longest delay between retries.
    pub max_retry_delay: u128,
    /// Base delay of retry backoff.
    pub base_retry_delay: u128,
    /// Backoff multiplier, as a binary64 bit pattern.
    pub backoff_multiplier: u64,
    /// Priority of the configuration source (higher wins).
    pub source_priority: Option<u8>,
    /// Tags for categorisation, each key at most once.
    pub tags: Vec<(String, String)>,
    /// Cached validation key.
    pub validation_hash: Option<u64>,
}

/// A dynamic configuration with texts as character sequences and tags as a
/// map.
pub struct DynamicConfigView {
    /// Request timeout.
    pub timeout: u128,
    /// Maximum retry attempts.
    pub retry_attempts: u32,
    /// Base URL of API requests.
    pub base_url: Seq<char>,
    /// Whether retry backoff is jittered.
    pub enable_jitter: bool,
    /// Longest delay between retries.
    pub max_retry_delay: u128,
    /// Base delay of retry backoff.
    pub base_retry_delay: u128,
    /// Backoff multiplier, as a binary64 bit pattern.
    pub backoff_multiplier: u64,
    /// Priority of the configuration source.
    pub source_priority: Option<u8>,
    /// Tags.
    pub tags: Map<Seq<char>, Seq<char>>,
    /// Cached validation key.
    pub validation_hash: Option<u64>,
}

impl View for DynamicConfig {
    type V = DynamicConfigView;

    open spec fn view(&self) -> DynamicConfigView {
        DynamicConfigView {
            timeout: self.timeout,
            retry_attempts: self.retry_attempts,
            base_url: self.base_url@,
            enable_jitter: self.enable_jitter,
            max_retry_delay: self.max_retry_delay,
            base_retry_delay: self.base_retry_delay,
            backoff_multiplier: self.backoff_multiplier,
            source_priority: self.source_priority,
            tags: pairs_map(self.tags@),
            validation_hash: self.validation_hash,
        }
    }
}

/// The default configuration: 30 s timeout, 3 retries, the public Gemini
/// endpoint, jitter on, 30 s longest and 100 ms base retry delay, backoff
/// multiplier 2, priority 50, no tags, nothing cached.
pub open spec fn default_dynamic_config() -> DynamicConfigView {
    DynamicConfigView {
        timeout: 30_000_000_000,
        retry_attempts: 3,
        base_url: "https://generativelanguage.googleapis.com"@,
        enable_jitter: true,
        max_retry_delay: 30_000_000_000,
        base_retry_delay: 100_000_000,
        backoff_multiplier: F64_TWO_BITS,
        source_priority: Some(50),
        tags: Map::empty(),
        validation_hash: None,
    }
}

/// The length in UTF-8 bytes of a text, as `str::len` reports it.
pub open spec fn byte_len(s: Seq<char>) -> usize {
    vstd::utf8::encode_utf8(s).len() as usize
}

/// What is wrong with one tag, if anything.
pub open spec fn tag_problem(key: Seq<char>, value: Seq<char>) -> Option<Seq<char>> {
    if key.len() == 0 {
        Some("Configuration tag keys cannot be empty"@)
    } else if byte_len(key) > MAX_TAG_KEY_BYTES {
        Some("Configuration tag key '"@ + key + "' exceeds maximum length of 255"@)
    } else if byte_len(value) > MAX_TAG_VALUE_BYTES {
        Some("Configuration tag value for key '"@ + key + "' exceeds maximum length of 1024"@)
    } else {
        None
    }
}

/// What is wrong with the first bad tag of the list, if any.
pub open spec fn tags_problem(tags: Seq<(String, String)>) -> Option<Seq<char>>
    decreases tags.len(),
{
    if tags.len() == 0 {
        None
    } else {
        match tags_problem(tags.drop_last()) {
            Some(m) => Some(m),
            None => tag_problem(tags.last().0@, tags.last().1@),
        }
    }
}

/// What is wrong with the fields of a configuration other than its tags,
/// checked in order: the timeout is neither zero nor longer than ten
/// minutes, at most 50 retries, a backoff multiplier between 0 and 10 (a NaN
/// is no number between them), a base URL, a priority of at most 100.
pub open spec fn fields_problem(v: DynamicConfigView) -> Option<Seq<char>> {
    if v.timeout == 0 {
        Some("Timeout cannot be zero"@)
    } else if v.timeout > MAX_TIMEOUT_SECONDS * NANOS_PER_SECOND {
        Some("Timeout cannot exceed 10 minutes"@)
    } else if v.retry_attempts > MAX_RETRY_ATTEMPTS {
        Some("Retry attempts cannot exceed 50"@)
    } else if f64_is_nan(v.backoff_multiplier) || f64_lt(v.backoff_multiplier, F64_ZERO_BITS)
        || f64_lt(F64_TEN_BITS, v.backoff_multiplier) {
        Some("Backoff multiplier must be between 0 and 10"@)
    } else if v.base_url.len() == 0 {
        Some("Base URL cannot be empty"@)
    } else if v.source_priority matches Some(p) && p > MAX_SOURCE_PRIORITY {
        Some("Source priority cannot exceed 100"@)
    } else {
        None
    }
}

/// What is wrong with a configuration: its fields, then its tags (the
/// first bad tag, then too many tags).
pub open spec fn dynamic_config_problem(c: DynamicConfig) -> Option<Seq<char>> {
    if fields_problem(c@) is Some {
        fields_problem(c@)
    } else {
        tag_list_problem(c.tags@)
    }
}

/// What is wrong with a list of tags: the first bad tag, else too many tags.
pub open spec fn tag_list_problem(tags: Seq<(String, String)>) -> Option<Seq<char>> {
    if tags_problem(tags) is Some {
        tags_problem(tags)
    } else if tags.len() > MAX_TAGS {
        Some("Configuration cannot have more than 50 tags"@)
    } else {
        None
    }
}

/// Whether a tag is acceptable: a non-empty key of at most 255 UTF-8 bytes
/// and a value of at most 1024.
pub open spec fn acceptable_tag(key: Seq<char>, value: Seq<char>) -> bool {
    key.len() > 0 && byte_len(key) <= 255 && byte_len(value) <= 1024
}

/// The rules of a configuration: a configuration is accepted exactly when
/// its timeout is more than zero and at most ten minutes, it has at most 50
/// retries, its backoff multiplier is a number from 0 to 10 (not a NaN),
/// its base URL is not empty, its priority, if any, is at most 100, every
/// tag is acceptable and it has at most 50 tags.
pub proof fn law_config_rules(c: DynamicConfig)
    ensures
        dynamic_config_problem(c) is None <==> {
            &&& 0 < c.timeout <= 600_000_000_000
            &&& c.retry_attempts <= 50
            &&& !f64_is_nan(c.backoff_multiplier)
            &&& !f64_lt(c.backoff_multiplier, 0)
            &&& !f64_lt(0x4024_0000_0000_0000, c.backoff_multiplier)
            &&& c.base_url@.len() > 0
            &&& (c.source_priority matches Some(p) ==> p <= 100)
            &&& forall|i: int| 0 <= i < c.tags@.len() ==> acceptable_tag((#[trigger] c.tags@[i]).0@, c.tags@[i].1@)
            &&& c.tags@.len() <= 50
        },
{
    lemma_tags_problem(c.tags@);
}

proof fn lemma_tags_problem(t: Seq<(String, String)>)
    ensures
        tags_problem(t) is None <==> forall|i: int| 0 <= i < t.len() ==> acceptable_tag((#[trigger] t[i]).0@, t[i].1@),
    decreases t.len(),
{
    if t.len() > 0 {
        lemma_tags_problem(t.drop_last());
        if tags_problem(t) is None {
            assert forall|i: int| 0 <= i < t.len() implies acceptable_tag((#[trigger] t[i]).0@, t[i].1@) by {
                if i < t.len() - 1 {
                    assert(t.drop_last()[i] == t[i]);
                }
            }
        } else if tags_problem(t.drop_last()) is Some {
            let i = choose|i: int| 0 <= i < t.len() - 1 && !acceptable_tag((#[trigger] t.drop_last()[i]).0@, t.drop_last()[i].1@);
            assert(t.drop_last()[i] == t[i]);
        } else {
            assert(!acceptable_tag(t[t.len() - 1].0@, t[t.len() - 1].1@));
        }
    }
}

/// The pairs of a list, copied.
pub fn copy_pairs(v: &Vec<(String, String)>) -> (r: Vec<(String, String)>)
    ensures
        r@ == v@,
{
    let mut r: Vec<(String, String)> = Vec::new();
    let mut i: usize = 0;
    while i < v.len()
        invariant
            i <= v@.len(),
            r@ == v@.take(i as int),
        decreases v@.len() - i,
    {
        let pair = (v[i].0.clone(), v[i].1.clone());
        r.push(pair);
        proof { assert(v@.take(i + 1) =~= v@.take(i as int).push(v@[i as int])); }
        i = i + 1;
    }
    proof { assert(v@.take(v@.len() as int) =~= v@); }
    r
}

/// Stores every pair of `src` in `dst`; a key of `src` that `dst` already has
/// takes the value from `src`.
pub fn extend_pairs(dst: &mut Vec<(String, String)>, src: &Vec<(String, String)>)
    requires
        unique_keys(old(dst)@),
        unique_keys(src@),
    ensures
        unique_keys(final(dst)@),
        pairs_map(final(dst)@) == pairs_map(old(dst)@).union_prefer_right(pairs_map(src@)),
{
    let ghost start = pairs_map(dst@);
    let mut i: usize = 0;
    proof { assert(pairs_map(src@.take(0)) =~= Map::<Seq<char>, Seq<char>>::empty()); assert(start.union_prefer_right(Map::empty()) =~= start); }
    while i < src.len()
        invariant
            i <= src@.len(),
            unique_keys(src@),
            unique_keys(dst@),
            pairs_map(dst@) == start.union_prefer_right(pairs_map(src@.take(i as int))),
        decreases src@.len() - i,
    {
        let ghost before = pairs_map(dst@);
        insert_pair(dst, src[i].0.clone(), src[i].1.clone());
        proof {
            let t = src@.take(i as int);
            assert(src@.take(i + 1) =~= t.push(src@[i as int]));
            assert(unique_keys(t.push(src@[i as int]))) by {
                assert forall|a: int, b: int| 0 <= a < t.len() + 1 && 0 <= b < t.len() + 1 && a != b
                    implies #[trigger] t.push(src@[i as int])[a].0@ != #[trigger] t.push(src@[i as int])[b].0@ by {
                    assert(t.push(src@[i as int])[a] == src@[a]);
                    assert(t.push(src@[i as int])[b] == src@[b]);
                }
            }
            lemma_pairs_map_push(t, src@[i as int]);
            assert(pairs_map(dst@) =~= start.union_prefer_right(pairs_map(src@.take(i + 1))));
        }
        i = i + 1;
    }
    proof { assert(src@.take(src@.len() as int) =~= src@); }
}

/// The values a configuration file holds. Absent optional values take their
/// defaults; the backoff multiplier is a binary64 bit pattern.
#[derive(Debug, Clone)]
pub struct FileConfigValues {
    /// Request timeout, in whole seconds.
    pub timeout_seconds: u64,
    /// Maximum retry attempts.
    pub retry_attempts: u32,
    /// Base URL of API requests.
    pub base_url: String,
    /// Whether retry backoff is jittered (default: yes).
    pub enable_jitter: Option<bool>,
    /// Longest delay between retries, in milliseconds (default: 30000).
    pub max_retry_delay_ms: Option<u64>,
    /// Base delay of retry backoff, in milliseconds (default: 100).
    pub base_retry_delay_ms: Option<u64>,
    /// Backoff multiplier (default: 2.0).
    pub backoff_multiplier: Option<u64>,
}

/// The configuration that file values describe: durations converted to
/// nanoseconds, defaults for absent values, priority 75, no tags.
pub open spec fn file_config_view(v: FileConfigValues) -> DynamicConfigView {
    DynamicConfigView {
        timeout: (v.timeout_seconds * NANOS_PER_SECOND) as u128,
        retry_attempts: v.retry_attempts,
        base_url: v.base_url@,
        enable_jitter: match v.enable_jitter { Some(b) => b, None => true },
        max_retry_delay: (match v.max_retry_delay_ms { Some(m) => m as int, None => 30000 } * 1_000_000) as u128,
        base_retry_delay: (match v.base_retry_delay_ms { Some(m) => m as int, None => 100 } * 1_000_000) as u128,
        backoff_multiplier: match v.backoff_multiplier { Some(b) => b, None => F64_TWO_BITS },
        source_priority: Some(75),
        tags: Map::empty(),
        validation_hash: None,
    }
}

impl DynamicConfig {
    /// Well-formedness: no tag key occurs twice.
    pub open spec fn wf(&self) -> bool {
        unique_keys(self.tags@)
    }

    /// The default configuration.
    pub fn new() -> (r: Self)
        ensures
            r.wf(),
            r@ == default_dynamic_config(),
            r.tags@.len() == 0,
    {
        proof { reveal_strlit("https://generativelanguage.googleapis.com"); }
        let r = DynamicConfig {
            timeout: 30 * NANOS_PER_SECOND,
            retry_attempts: 3,
            base_url: owned("https://generativelanguage.googleapis.com"),
            enable_jitter: true,
            max_retry_delay: 30 * NANOS_PER_SECOND,
            base_retry_delay: 100_000_000,
            backoff_multiplier: F64_TWO_BITS,
            source_priority: Some(50),
            tags: Vec::new(),
            validation_hash: None,
        };
        proof { assert(pairs_map(r.tags@) =~= Map::<Seq<char>, Seq<char>>::empty()); }
        r
    }

    /// A builder that starts from the default configuration.
    pub fn builder() -> (r: DynamicConfigBuilder)
        ensures
            r.config.wf(),
            r.config@ == default_dynamic_config(),
    {
        DynamicConfigBuilder::new()
    }

    /// A copy of this configuration, cached validation key included.
    pub fn duplicate(&self) -> (r: Self)
        ensures
            r@ == self@,
            r.tags@ == self.tags@,
    {
        DynamicConfig {
            timeout: self.timeout,
            retry_attempts: self.retry_attempts,
            base_url: self.base_url.clone(),
            enable_jitter: self.enable_jitter,
            max_retry_delay: self.max_retry_delay,
            base_retry_delay: self.base_retry_delay,
            backoff_multiplier: self.backoff_multiplier,
            source_priority: self.source_priority,
            tags: copy_pairs(&self.tags),
            validation_hash: self.validation_hash,
        }
    }

    /// A copy of this configuration that keeps the cached validation key.
    pub fn cow_clone(&self) -> (r: Self)
        ensures
            r@ == self@,
            r.tags@ == self.tags@,
    {
        self.duplicate()
    }

    /// A hash of this configuration for change detection (see
    /// [`config_hash_of`]): its fields but the cached validation key, in
    /// decimal, and a digest of its tags that does not depend on their
    /// order, hashed with std's `DefaultHasher`.
    pub fn compute_hash(&self) -> (r: u64)
        ensures
            r == config_hash_of(*self),
    {
        let mut digest: u64 = 0;
        let mut i: usize = 0;
        while i < self.tags.len()
            invariant
                i <= self.tags@.len(),
                digest == (tag_digest(self.tags@.take(i as int)) % 0x1_0000_0000_0000_0000) as u64,
            decreases self.tags@.len() - i,
        {
            proof { reveal_strlit("="); }
            let text = concat3(self.tags[i].0.as_str(), "=", self.tags[i].1.as_str());
            let h = hash_text(text.as_str());
            proof {
                let t = self.tags@.take(i as int + 1);
                assert(t.drop_last() =~= self.tags@.take(i as int));
                assert(t.last() == self.tags@[i as int]);
                let d = tag_digest(self.tags@.take(i as int));
                lemma_tag_digest_nonneg(self.tags@.take(i as int));
                assert(((d % 0x1_0000_0000_0000_0000) + h) % 0x1_0000_0000_0000_0000
                    == (d + h) % 0x1_0000_0000_0000_0000) by (nonlinear_arith)
                    requires d >= 0;
            }
            digest = digest.wrapping_add(h);
            i = i + 1;
        }
        proof {
            assert(self.tags@.take(self.tags@.len() as int) =~= self.tags@);
            reveal_strlit(";");
            reveal_strlit("1");
            reveal_strlit("0");
            reveal_strlit("-");
        }
        let jitter = if self.enable_jitter { "1" } else { "0" };
        let priority = match self.source_priority {
            Some(p) => u64_to_decimal(p as u64),
            None => owned("-"),
        };
        let t0 = u128_to_decimal(self.timeout);
        let t1 = concat3(t0.as_str(), ";", u64_to_decimal(self.retry_attempts as u64).as_str());
        let t2 = concat3(t1.as_str(), ";", self.base_url.as_str());
        let t3 = concat3(t2.as_str(), ";", jitter);
        let t4 = concat3(t3.as_str(), ";", u128_to_decimal(self.max_retry_delay).as_str());
        let t5 = concat3(t4.as_str(), ";", u128_to_decimal(self.base_retry_delay).as_str());
        let t6 = concat3(t5.as_str(), ";", u64_to_decimal(self.backoff_multiplier).as_str());
        let t7 = concat3(t6.as_str(), ";", priority.as_str());
        let text = concat3(t7.as_str(), ";", u64_to_decimal(digest).as_str());
        assert(text@ =~= hash_input(self@, digest));
        hash_text(text.as_str())
    }

    /// Whether this configuration and `other` hash differently (see
    /// [`DynamicConfig::compute_hash`]); configurations that hold the same
    /// values report no changes.
    pub fn has_changes(&self, other: &DynamicConfig) -> (r: bool)
        ensures
            r == (config_hash_of(*self) != config_hash_of(*other)),
            self.wf() && other.wf() && same_content(self@, other@) ==> !r,
    {
        proof {
            if self.wf() && other.wf() && same_content(self@, other@) {
                law_equal_configs_hash_equally(*self, *other);
            }
        }
        self.compute_hash() != other.compute_hash()
    }

    /// The cached validation key, computed and cached when there is none.
    pub fn get_validation_hash(&mut self) -> (r: u64)
        ensures
            old(self).validation_hash matches Some(h) ==> r == h && final(self)@ == old(self)@,
            old(self).validation_hash is None ==> r == config_hash_of(*old(self))
                && final(self)@ == (DynamicConfigView { validation_hash: Some(r), ..old(self)@ }),
            final(self).tags@ == old(self).tags@,
    {
        match self.validation_hash {
            Some(h) => h,
            None => {
                let h = self.compute_hash();
                self.validation_hash = Some(h);
                h
            },
        }
    }

    /// Forgets the cached validation key.
    pub fn invalidate_validation_cache(&mut self)
        ensures
            final(self)@ == (DynamicConfigView { validation_hash: None, ..old(self)@ }),
            final(self).tags@ == old(self).tags@,
    {
        self.validation_hash = None;
    }

    /// The configuration that the values of a configuration file describe,
    /// if it passes validation; see [`file_config_view`].
    pub fn from_file_values(values: FileConfigValues) -> (r: Result<DynamicConfig, Error>)
        ensures
            r is Ok <==> fields_problem(file_config_view(values)) is None,
            r matches Ok(c) ==> c@ == file_config_view(values) && c.wf() && c.tags@.len() == 0,
            fields_problem(file_config_view(values)) matches Some(msg) ==> crate::error::is_config_error(r, msg),
    {
        let ghost expected = file_config_view(values);
        let max_ms: u64 = match values.max_retry_delay_ms { Some(m) => m, None => 30000 };
        let base_ms: u64 = match values.base_retry_delay_ms { Some(m) => m, None => 100 };
        let config = DynamicConfig {
            timeout: (values.timeout_seconds as u128) * NANOS_PER_SECOND,
            retry_attempts: values.retry_attempts,
            base_url: values.base_url,
            enable_jitter: match values.enable_jitter { Some(b) => b, None => true },
            max_retry_delay: (max_ms as u128) * 1_000_000,
            base_retry_delay: (base_ms as u128) * 1_000_000,
            backoff_multiplier: match values.backoff_multiplier { Some(b) => b, None => F64_TWO_BITS },
            source_priority: Some(75),
            tags: Vec::new(),
            validation_hash: None,
        };
        proof {
            assert(pairs_map(config.tags@) =~= Map::<Seq<char>, Seq<char>>::empty());
            assert(config@ == expected);
            assert(tag_list_problem(config.tags@) is None);
        }
        match validate_dynamic_config(&config) {
            Err(e) => Err(e),
            Ok(()) => Ok(config),
        }
    }

    /// Merges two configurations by source priority (absent counts as 0):
    /// the fields of the one with strictly higher priority win, `self` on a
    /// tie; the tags of both are kept, and on a shared key the tag of the
    /// winning configuration wins.
    pub fn merge_with(&self, other: &DynamicConfig) -> (r: DynamicConfig)
        requires
            self.wf(),
            other.wf(),
        ensures
            r.wf(),
            r@ == merged_view(self@, other@),
    {
        let self_priority = match self.source_priority { Some(p) => p, None => 0 };
        let other_priority = match other.source_priority { Some(p) => p, None => 0 };
        let (hi, lo) = if other_priority > self_priority { (other, self) } else { (self, other) };
        let mut tags = copy_pairs(&lo.tags);
        extend_pairs(&mut tags, &hi.tags);
        let mut merged = hi.duplicate();
        merged.tags = tags;
        merged
    }
}

impl DynamicConfig {
    /// Whether no tag key occurs twice, the well-formedness of a
    /// configuration.
    pub fn has_unique_tags(&self) -> (r: bool)
        ensures
            r == self.wf(),
    {
        let n = self.tags.len();
        let mut i: usize = 0;
        while i < n
            invariant
                n == self.tags@.len(),
                i <= n,
                forall|a: int, b: int| 0 <= a < i && 0 <= b < n && a != b ==> self.tags@[a].0@ != self.tags@[b].0@,
            decreases n - i,
        {
            let mut j: usize = 0;
            while j < n
                invariant
                    n == self.tags@.len(),
                    i < n,
                    j <= n,
                    forall|a: int, b: int| 0 <= a < i && 0 <= b < n && a != b ==> self.tags@[a].0@ != self.tags@[b].0@,
                    forall|b: int| 0 <= b < j && b != i ==> self.tags@[i as int].0@ != self.tags@[b].0@,
                decreases n - j,
            {
                if j != i && crate::text::text_eq(self.tags[i].0.as_str(), self.tags[j].0.as_str()) {
                    return false;
                }
                j = j + 1;
            }
            i = i + 1;
        }
        true
    }

    /// This configuration with `other` laid over it: every field but the
    /// tags is `other`'s; the tags of both are kept, `other`'s winning on a
    /// shared key.
    pub fn overlaid_by(&self, other: &DynamicConfig) -> (r: DynamicConfig)
        requires
            self.wf(),
            other.wf(),
        ensures
            r.wf(),
            r@ == overlaid_view(self@, other@),
    {
        let mut tags = copy_pairs(&self.tags);
        extend_pairs(&mut tags, &other.tags);
        let mut merged = other.duplicate();
        merged.tags = tags;
        merged
    }
}

/// `b` laid over `a`: see [`DynamicConfig::overlaid_by`].
pub open spec fn overlaid_view(a: DynamicConfigView, b: DynamicConfigView) -> DynamicConfigView {
    DynamicConfigView { tags: a.tags.union_prefer_right(b.tags), ..b }
}

impl Default for DynamicConfig {
    /// See [`DynamicConfig::new`].
    fn default() -> (r: Self)
        ensures
            r.wf(),
            r@ == default_dynamic_config(),
            r.tags@.len() == 0,
    {
        DynamicConfig::new()
    }
}

/// The priority of a configuration, absent counting as 0.
pub open spec fn priority_of(c: DynamicConfigView) -> u8 {
    match c.source_priority { Some(p) => p, None => 0 }
}

/// The result of merging `a` with `b`: see [`DynamicConfig::merge_with`].
pub open spec fn merged_view(a: DynamicConfigView, b: DynamicConfigView) -> DynamicConfigView {
    if priority_of(b) > priority_of(a) {
        DynamicConfigView { tags: a.tags.union_prefer_right(b.tags), ..b }
    } else {
        DynamicConfigView { tags: b.tags.union_prefer_right(a.tags), ..a }
    }
}

/// Merging two configurations: the one with strictly higher priority
/// (absent counting as 0), or the first on a tie, gives every field but the
/// tags; the tags of both are kept, and on a key both hold, the winner's
/// value stays.
pub proof fn law_merge_by_priority(a: DynamicConfigView, b: DynamicConfigView)
    ensures
        ({
            let pa = match a.source_priority { Some(p) => p as int, None => 0 };
            let pb = match b.source_priority { Some(p) => p as int, None => 0 };
            let hi = if pb > pa { b } else { a };
            let lo = if pb > pa { a } else { b };
            let m = merged_view(a, b);
            &&& (DynamicConfigView { tags: hi.tags, ..m }) == hi
            &&& m.tags.dom() == hi.tags.dom().union(lo.tags.dom())
            &&& forall|k: Seq<char>| #[trigger] hi.tags.contains_key(k) ==> m.tags[k] == hi.tags[k]
            &&& forall|k: Seq<char>| #[trigger] lo.tags.contains_key(k) && !hi.tags.contains_key(k) ==> m.tags[k] == lo.tags[k]
        }),
{
    assert(merged_view(a, b).tags.dom() =~= a.tags.dom().union(b.tags.dom()));
    assert(a.tags.dom().union(b.tags.dom()) =~= b.tags.dom().union(a.tags.dom()));
}

/// Builder of a [`DynamicConfig`] that validates on `build`.
#[derive(Debug)]
pub struct DynamicConfigBuilder {
    /// The configuration being built.
    pub config: DynamicConfig,
}

impl DynamicConfigBuilder {
    /// A builder that starts from the default configuration.
    pub fn new() -> (r: Self)
        ensures
            r.config.wf(),
            r.config@ == default_dynamic_config(),
            r.config.tags@.len() == 0,
    {
        DynamicConfigBuilder { config: DynamicConfig::new() }
    }

    /// Sets the request timeout.
    pub fn timeout(self, timeout: u128) -> (r: Self)
        ensures
            r.config@ == (DynamicConfigView { timeout, ..self.config@ }),
            r.config.tags@ == self.config.tags@,
    {
        let mut s = self;
        s.config.timeout = timeout;
        s
    }

    /// Sets the maximum number of retry attempts.
    pub fn retry_attempts(self, attempts: u32) -> (r: Self)
        ensures
            r.config@ == (DynamicConfigView { retry_attempts: attempts, ..self.config@ }),
            r.config.tags@ == self.config.tags@,
    {
        let mut s = self;
        s.config.retry_attempts = attempts;
        s
    }

    /// Sets the base URL.
    pub fn base_url(self, url: String) -> (r: Self)
        ensures
            r.config@ == (DynamicConfigView { base_url: url@, ..self.config@ }),
            r.config.tags@ == self.config.tags@,
    {
        let mut s = self;
        s.config.base_url = url;
        s
    }

    /// Turns jitter of the retry backoff on or off.
    pub fn enable_jitter(self, enable: bool) -> (r: Self)
        ensures
            r.config@ == (DynamicConfigView { enable_jitter: enable, ..self.config@ }),
            r.config.tags@ == self.config.tags@,
    {
        let mut s = self;
        s.config.enable_jitter = enable;
        s
    }

    /// Sets the longest delay between retries.
    pub fn max_retry_delay(self, delay: u128) -> (r: Self)
        ensures
            r.config@ == (DynamicConfigView { max_retry_delay: delay, ..self.config@ }),
            r.config.tags@ == self.config.tags@,
    {
        let mut s = self;
        s.config.max_retry_delay = delay;
        s
    }

    /// Sets the base delay of the retry backoff.
    pub fn base_retry_delay(self, delay: u128) -> (r: Self)
        ensures
            r.config@ == (DynamicConfigView { base_retry_delay: delay, ..self.config@ }),
            r.config.tags@ == self.config.tags@,
    {
        let mut s = self;
        s.config.base_retry_delay = delay;
        s
    }

    /// Sets the backoff multiplier, given as a binary64 bit pattern.
    pub fn backoff_multiplier(self, multiplier_bits: u64) -> (r: Self)
        ensures
            r.config@ == (DynamicConfigView { backoff_multiplier: multiplier_bits, ..self.config@ }),
            r.config.tags@ == self.config.tags@,
    {
        let mut s = self;
        s.config.backoff_multiplier = multiplier_bits;
        s
    }

    /// Sets the source priority.
    pub fn source_priority(self, priority: u8) -> (r: Self)
        ensures
            r.config@ == (DynamicConfigView { source_priority: Some(priority), ..self.config@ }),
            r.config.tags@ == self.config.tags@,
    {
        let mut s = self;
        s.config.source_priority = Some(priority);
        s
    }

    /// Adds a tag; a tag with the same key is replaced.
    pub fn tag(self, key: String, value: String) -> (r: Self)
        requires
            self.config.wf(),
        ensures
            r.config.wf(),
            r.config@ == (DynamicConfigView { tags: self.config@.tags.insert(key@, value@), ..self.config@ }),
            !self.config@.tags.contains_key(key@) ==> r.config.tags@ == self.config.tags@.push((key, value)),
    {
        let mut s = self;
        insert_pair(&mut s.config.tags, key, value);
        s
    }

    /// The configuration, if it passes validation.
    pub fn build(self) -> (r: Result<DynamicConfig, Error>)
        ensures
            dynamic_config_problem(self.config) is None <==> r is Ok,
            r matches Ok(c) ==> c == self.config,
            dynamic_config_problem(self.config) matches Some(msg) ==> crate::error::is_config_error(r, msg),
    {
        match self.validate_config(&self.config) {
            Err(e) => Err(e),
            Ok(()) => Ok(self.config),
        }
    }

    /// Checks a configuration: see [`dynamic_config_problem`].
    pub fn validate_config(&self, config: &DynamicConfig) -> (r: Result<(), Error>)
        ensures
            dynamic_config_problem(*config) is None <==> r is Ok,
            dynamic_config_problem(*config) matches Some(msg) ==> crate::error::is_config_error(r, msg),
    {
        validate_dynamic_config(config)
    }
}

fn config_error(msg: &str) -> (r: Result<(), Error>)
    ensures
        crate::error::is_config_error(r, msg@),
{
    Err(Error::ConfigurationError(owned(msg)))
}

/// Checks one tag: see [`tag_problem`].
fn validate_tag(key: &String, value: &String) -> (r: Result<(), Error>)
    ensures
        tag_problem(key@, value@) is None <==> r is Ok,
        tag_problem(key@, value@) matches Some(msg) ==> crate::error::is_config_error(r, msg),
{
    proof {
        reveal_strlit("Configuration tag keys cannot be empty");
        reveal_strlit("Configuration tag key '");
        reveal_strlit("' exceeds maximum length of 255");
        reveal_strlit("Configuration tag value for key '");
        reveal_strlit("' exceeds maximum length of 1024");
    }
    if key.as_str().is_empty() {
        return config_error("Configuration tag keys cannot be empty");
    }
    if key.as_str().len() > MAX_TAG_KEY_BYTES {
        return Err(Error::ConfigurationError(
            concat3("Configuration tag key '", key.as_str(), "' exceeds maximum length of 255"),
        ));
    }
    if value.as_str().len() > MAX_TAG_VALUE_BYTES {
        return Err(Error::ConfigurationError(
            concat3("Configuration tag value for key '", key.as_str(), "' exceeds maximum length of 1024"),
        ));
    }
    Ok(())
}

/// Checks a configuration: see [`dynamic_config_problem`].
pub fn validate_dynamic_config(config: &DynamicConfig) -> (r: Result<(), Error>)
    ensures
        dynamic_config_problem(*config) is None <==> r is Ok,
        dynamic_config_problem(*config) matches Some(msg) ==> crate::error::is_config_error(r, msg),
{
    proof {
        reveal_strlit("Timeout cannot be zero");
        reveal_strlit("Timeout cannot exceed 10 minutes");
        reveal_strlit("Retry attempts cannot exceed 50");
        reveal_strlit("Backoff multiplier must be between 0 and 10");
        reveal_strlit("Base URL cannot be empty");
        reveal_strlit("Source priority cannot exceed 100");
        reveal_strlit("Configuration cannot have more than 50 tags");
    }
    if config.timeout == 0 {
        return config_error("Timeout cannot be zero");
    }
    if config.timeout > MAX_TIMEOUT_SECONDS * NANOS_PER_SECOND {
        return config_error("Timeout cannot exceed 10 minutes");
    }
    if config.retry_attempts > MAX_RETRY_ATTEMPTS {
        return config_error("Retry attempts cannot exceed 50");
    }
    if f64_bits_is_nan(config.backoff_multiplier) || f64_bits_lt(config.backoff_multiplier, F64_ZERO_BITS)
        || f64_bits_lt(F64_TEN_BITS, config.backoff_multiplier) {
        return config_error("Backoff multiplier must be between 0 and 10");
    }
    if config.base_url.as_str().is_empty() {
        return config_error("Base URL cannot be empty");
    }
    if let Some(priority) = config.source_priority {
        if priority > MAX_SOURCE_PRIORITY {
            return config_error("Source priority cannot exceed 100");
        }
    }
    let mut i: usize = 0;
    while i < config.tags.len()
        invariant
            i <= config.tags@.len(),
            tags_problem(config.tags@.take(i as int)) is None,
            dynamic_config_problem(*config) == tag_list_problem(config.tags@),
        decreases config.tags@.len() - i,
    {
        let checked = validate_tag(&config.tags[i].0, &config.tags[i].1);
        proof { assert(config.tags@.take(i + 1).drop_last() =~= config.tags@.take(i as int)); }
        if checked.is_err() {
            proof {
                assert(config.tags@.take(i + 1).last() == config.tags@[i as int]);
                lemma_tags_problem_prefix(config.tags@, i as int + 1);
            }
            return checked;
        }
        i = i + 1;
    }
    proof { assert(config.tags@.take(config.tags@.len() as int) =~= config.tags@); }
    if config.tags.len() > MAX_TAGS {
        return config_error("Configuration cannot have more than 50 tags");
    }
    Ok(())
}

/// A problem in a prefix of the tags is the problem of the whole list.
proof fn lemma_tags_problem_prefix(tags: Seq<(String, String)>, n: int)
    requires
        0 <= n <= tags.len(),
        tags_problem(tags.take(n)) is Some,
    ensures
        tags_problem(tags) == tags_problem(tags.take(n)),
    decreases tags.len() - n,
{
    if n < tags.len() {
        assert(tags.take(n + 1).drop_last() =~= tags.take(n));
        lemma_tags_problem_prefix(tags, n + 1);
    } else {
        assert(tags.take(n) =~= tags);
    }
}

} // verus!
