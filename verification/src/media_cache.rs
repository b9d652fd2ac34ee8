//! The media cache: processed media kept by key, stored compressed when the
//! encoding saves at least 5%, evicted least recently used first when the
//! cache is full, and dropped when older than the time to live.
//!
//! Times are nanoseconds since the Unix epoch.

use vstd::prelude::*;
use crate::clock::now_nanos;
use crate::media::{MediaCacheStats, ThumbnailConfig, already_compressed, compress_data, rle_encoding, should_compress};
use crate::text::text_eq;

verus! {

/// Nanoseconds in a second.
pub const NANOS_IN_SECOND: u128 = 1_000_000_000;

/// Settings of media processing.
#[derive(Debug, Clone, Copy)]
pub struct MediaProcessingConfig {
    /// Whether cached media may be stored compressed.
    pub enable_compression: bool,
    /// Most bytes the cache holds before it evicts.
    pub max_cache_size_bytes: usize,
    /// How long an unused cache entry stays valid, in seconds.
    pub cache_ttl_seconds: u64,
    /// Largest file processed in one piece, in bytes.
    pub max_memory_file_size: usize,
    /// Size of the chunks of larger files, in bytes.
    pub streaming_chunk_size: usize,
    /// Most operations that run at once.
    pub max_concurrent_operations: usize,
    /// Thumbnail settings, if thumbnails are made.
    pub thumbnail_config: Option<ThumbnailConfig>,
}

/// What the cache knows of a stored item.
#[derive(Debug)]
pub struct CachedMediaMetadata {
    /// MIME type of the item.
    pub mime_type: String,
    /// Size of the item as it was given, in bytes.
    pub original_size: usize,
    /// Whether it is stored compressed.
    pub is_compressed: bool,
    /// Size as stored, in bytes.
    pub stored_size: usize,
}

/// Metadata with the MIME type as characters.
pub struct CachedMetadataView {
    /// MIME type.
    pub mime_type: Seq<char>,
    /// Original size.
    pub original_size: usize,
    /// Whether stored compressed.
    pub is_compressed: bool,
    /// Stored size.
    pub stored_size: usize,
}

impl View for CachedMediaMetadata {
    type V = CachedMetadataView;

    open spec fn view(&self) -> CachedMetadataView {
        CachedMetadataView {
            mime_type: self.mime_type@,
            original_size: self.original_size,
            is_compressed: self.is_compressed,
            stored_size: self.stored_size,
        }
    }
}

impl CachedMediaMetadata {
    /// A copy.
    pub fn duplicate(&self) -> (r: Self)
        ensures
            r@ == self@,
    {
        CachedMediaMetadata {
            mime_type: self.mime_type.clone(),
            original_size: self.original_size,
            is_compressed: self.is_compressed,
            stored_size: self.stored_size,
        }
    }
}

/// A stored item.
#[derive(Debug)]
pub struct CachedMediaEntry {
    /// The bytes as stored.
    pub data: Vec<u8>,
    /// Its metadata.
    pub metadata: CachedMediaMetadata,
    /// When it was stored or last read.
    pub last_accessed: u128,
    /// Bytes it takes in the cache.
    pub size_bytes: usize,
}

/// An entry with its bytes as a sequence.
pub struct CachedEntryView {
    /// Stored bytes.
    pub data: Seq<u8>,
    /// Metadata.
    pub metadata: CachedMetadataView,
    /// Last access.
    pub last_accessed: u128,
    /// Size in the cache.
    pub size_bytes: usize,
}

impl View for CachedMediaEntry {
    type V = CachedEntryView;

    open spec fn view(&self) -> CachedEntryView {
        CachedEntryView { data: self.data@, metadata: self.metadata@, last_accessed: self.last_accessed, size_bytes: self.size_bytes }
    }
}

/// The media cache.
#[derive(Debug)]
pub struct MediaCache {
    /// Settings.
    pub config: MediaProcessingConfig,
    /// The entries by key, each key at most once.
    pub entries: Vec<(String, CachedMediaEntry)>,
    /// Bytes counted as held.
    pub total_size_bytes: usize,
    /// Counters.
    pub stats: MediaCacheStats,
}

/// The cache's entries and counters.
pub struct MediaCacheView {
    /// Entries by key.
    pub entries: Seq<(Seq<char>, CachedEntryView)>,
    /// Bytes counted as held.
    pub total_size_bytes: usize,
    /// Counters.
    pub stats: MediaCacheStats,
}

/// The views of a list of keyed entries.
pub open spec fn entry_views(es: Seq<(String, CachedMediaEntry)>) -> Seq<(Seq<char>, CachedEntryView)> {
    es.map_values(|p: (String, CachedMediaEntry)| (p.0@, p.1@))
}

impl View for MediaCache {
    type V = MediaCacheView;

    open spec fn view(&self) -> MediaCacheView {
        MediaCacheView { entries: entry_views(self.entries@), total_size_bytes: self.total_size_bytes, stats: self.stats }
    }
}

/// Counter increment with wrap-around, as `fetch_add` performs it.
pub open spec fn wrap_inc(x: u64) -> u64 {
    if x == u64::MAX { 0 } else { (x + 1) as u64 }
}

/// Counter addition with wrap-around, as `fetch_add` performs it.
pub open spec fn wrap_add(x: u64, y: u64) -> u64 {
    if x + y > u64::MAX { (x + y - 18446744073709551616) as u64 } else { (x + y) as u64 }
}

/// Whether no key occurs twice.
pub open spec fn keys_unique(es: Seq<(Seq<char>, CachedEntryView)>) -> bool {
    forall|i: int, j: int| 0 <= i < j < es.len() ==> es[i].0 != es[j].0
}

/// The position of key `k`, searching from the end; -1 when absent.
pub open spec fn find_key(es: Seq<(Seq<char>, CachedEntryView)>, k: Seq<char>) -> int
    decreases es.len(),
{
    if es.len() == 0 {
        -1
    } else if es.last().0 == k {
        es.len() - 1
    } else {
        find_key(es.drop_last(), k)
    }
}

/// The bytes that the entries take.
pub open spec fn stored_size_sum(es: Seq<(Seq<char>, CachedEntryView)>) -> int
    decreases es.len(),
{
    if es.len() == 0 {
        0
    } else {
        stored_size_sum(es.drop_last()) + es.last().1.size_bytes
    }
}

impl MediaCache {
    /// Well-formedness: keys are unique and the byte count covers the
    /// entries.
    pub open spec fn wf(&self) -> bool {
        &&& keys_unique(self@.entries)
        &&& stored_size_sum(self@.entries) == self.total_size_bytes
    }
}

/// Whole seconds from `last` to `now`; zero when `now` is earlier.
pub open spec fn age_secs(last: u128, now: u128) -> int {
    if now >= last { (now - last) / (NANOS_IN_SECOND as int) } else { 0 }
}

/// The cache and the result after a read of key `k` at `now`: a live entry
/// is handed out and its access time renewed (a hit); an entry older than
/// the time to live is dropped and its bytes uncounted (a miss); an absent
/// key is a miss.
pub open spec fn cache_get(v: MediaCacheView, ttl: u64, k: Seq<char>, now: u128)
    -> (MediaCacheView, Option<(Seq<u8>, CachedMetadataView)>)
{
    let i = find_key(v.entries, k);
    if i >= 0 {
        let e = v.entries[i].1;
        if age_secs(e.last_accessed, now) <= ttl {
            let e2 = CachedEntryView { last_accessed: now, ..e };
            (
                MediaCacheView {
                    entries: v.entries.update(i, (k, e2)),
                    stats: MediaCacheStats { hits: wrap_inc(v.stats.hits), ..v.stats },
                    ..v
                },
                Some((e.data, e.metadata)),
            )
        } else {
            (
                MediaCacheView {
                    entries: v.entries.remove(i),
                    total_size_bytes: (v.total_size_bytes - e.size_bytes) as usize,
                    stats: MediaCacheStats { misses: wrap_inc(v.stats.misses), ..v.stats },
                },
                None,
            )
        }
    } else {
        (MediaCacheView { stats: MediaCacheStats { misses: wrap_inc(v.stats.misses), ..v.stats }, ..v }, None)
    }
}

/// The views of an optional read result.
pub open spec fn read_view(r: Option<(Vec<u8>, CachedMediaMetadata)>) -> Option<(Seq<u8>, CachedMetadataView)> {
    match r {
        Some((d, m)) => Some((d@, m@)),
        None => None,
    }
}

proof fn lemma_find_key(es: Seq<(Seq<char>, CachedEntryView)>, k: Seq<char>)
    ensures
        -1 <= find_key(es, k) < es.len(),
        find_key(es, k) >= 0 ==> es[find_key(es, k)].0 == k,
        find_key(es, k) < 0 ==> forall|i: int| 0 <= i < es.len() ==> es[i].0 != k,
    decreases es.len(),
{
    if es.len() > 0 {
        lemma_find_key(es.drop_last(), k);
        if es.last().0 != k {
            assert forall|i: int| 0 <= i < es.len() && find_key(es, k) < 0 implies es[i].0 != k by {
                if i < es.len() - 1 {
                    assert(es.drop_last()[i] == es[i]);
                }
            }
        }
    }
}

/// With unique keys, the position of a key is the one index holding it.
proof fn lemma_find_unique(es: Seq<(Seq<char>, CachedEntryView)>, i: int)
    requires
        keys_unique(es),
        0 <= i < es.len(),
    ensures
        find_key(es, es[i].0) == i,
{
    lemma_find_key(es, es[i].0);
    let f = find_key(es, es[i].0);
    if f != i {
        if f < i {
            assert(es[f].0 != es[i].0);
        } else {
            assert(es[i].0 != es[f].0);
        }
    }
}

proof fn lemma_find_take(es: Seq<(Seq<char>, CachedEntryView)>, k: Seq<char>, i: int)
    requires
        0 <= i < es.len(),
    ensures
        es[i].0 == k ==> find_key(es.take(i + 1), k) == i,
        es[i].0 != k ==> find_key(es.take(i + 1), k) == find_key(es.take(i), k),
{
    assert(es.take(i + 1).drop_last() =~= es.take(i));
    assert(es.take(i + 1).last() == es[i]);
}

proof fn lemma_size_sum_nonneg(es: Seq<(Seq<char>, CachedEntryView)>)
    ensures
        stored_size_sum(es) >= 0,
    decreases es.len(),
{
    if es.len() > 0 {
        lemma_size_sum_nonneg(es.drop_last());
    }
}

/// Removing an entry uncounts its bytes.
proof fn lemma_size_sum_remove(es: Seq<(Seq<char>, CachedEntryView)>, i: int)
    requires
        0 <= i < es.len(),
    ensures
        stored_size_sum(es.remove(i)) == stored_size_sum(es) - es[i].1.size_bytes,
    decreases es.len(),
{
    if i == es.len() - 1 {
        assert(es.remove(i) =~= es.drop_last());
    } else {
        lemma_size_sum_remove(es.drop_last(), i);
        assert(es.remove(i).drop_last() =~= es.drop_last().remove(i));
        assert(es.remove(i).last() == es.last());
    }
}

/// Replacing an entry swaps its bytes for those of the new one.
proof fn lemma_size_sum_le_total(es: Seq<(Seq<char>, CachedEntryView)>, i: int)
    requires
        0 <= i < es.len(),
    ensures
        es[i].1.size_bytes <= stored_size_sum(es),
{
    lemma_size_sum_remove(es, i);
    lemma_size_sum_nonneg(es.remove(i));
}

proof fn lemma_size_sum_update(es: Seq<(Seq<char>, CachedEntryView)>, i: int, p: (Seq<char>, CachedEntryView))
    requires
        0 <= i < es.len(),
    ensures
        stored_size_sum(es.update(i, p)) == stored_size_sum(es) - es[i].1.size_bytes + p.1.size_bytes,
    decreases es.len(),
{
    if i == es.len() - 1 {
        assert(es.update(i, p).drop_last() =~= es.drop_last());
    } else {
        lemma_size_sum_update(es.drop_last(), i, p);
        assert(es.update(i, p).drop_last() =~= es.drop_last().update(i, p));
    }
}

proof fn lemma_size_sum_push(es: Seq<(Seq<char>, CachedEntryView)>, p: (Seq<char>, CachedEntryView))
    ensures
        stored_size_sum(es.push(p)) == stored_size_sum(es) + p.1.size_bytes,
{
    assert(es.push(p).drop_last() =~= es);
}

proof fn lemma_entry_within_sum(es: Seq<(Seq<char>, CachedEntryView)>, i: int)
    requires
        0 <= i < es.len(),
    ensures
        es[i].1.size_bytes <= stored_size_sum(es),
{
    lemma_size_sum_remove(es, i);
    lemma_size_sum_nonneg(es.remove(i));
}

/// A copy of a byte vector.
pub fn copy_bytes(v: &Vec<u8>) -> (r: Vec<u8>)
    ensures
        r@ == v@,
{
    let mut r: Vec<u8> = Vec::new();
    let mut i: usize = 0;
    while i < v.len()
        invariant
            i <= v@.len(),
            r@ == v@.take(i as int),
        decreases v@.len() - i,
    {
        r.push(v[i]);
        proof { assert(v@.take(i + 1) =~= v@.take(i as int).push(v@[i as int])); }
        i = i + 1;
    }
    proof { assert(v@.take(v@.len() as int) =~= v@); }
    r
}

impl MediaCache {
    /// An empty cache with the given settings.
    pub fn new(config: MediaProcessingConfig) -> (r: Self)
        ensures
            r.wf(),
            r.config == config,
            r@.entries.len() == 0,
            r@.total_size_bytes == 0,
            r@.stats == (MediaCacheStats { hits: 0, misses: 0, evictions: 0, total_compressed_bytes: 0, total_compression_time_us: 0 }),
    {
        let r = MediaCache { config, entries: Vec::new(), total_size_bytes: 0, stats: MediaCacheStats::new() };
        proof { assert(r@.entries =~= Seq::<(Seq<char>, CachedEntryView)>::empty()); }
        r
    }

    /// The position of key `key`: see [`find_key`].
    fn find_index(&self, key: &str) -> (r: Option<usize>)
        ensures
            r matches Some(i) ==> i == find_key(self@.entries, key@) && i < self.entries@.len(),
            r is None ==> find_key(self@.entries, key@) < 0,
    {
        let ghost es = self@.entries;
        let mut i = self.entries.len();
        proof { assert(es.take(i as int) =~= es); }
        while i > 0
            invariant
                i <= es.len(),
                es == self@.entries,
                es.len() == self.entries@.len(),
                find_key(es, key@) == find_key(es.take(i as int), key@),
            decreases i,
        {
            i = i - 1;
            proof { lemma_find_take(es, key@, i as int); }
            if text_eq(self.entries[i].0.as_str(), key) {
                return Some(i);
            }
        }
        None
    }

    /// Reads key `key` at time `now`: see [`cache_get`].
    pub fn get_at(&mut self, key: &str, now: u128) -> (r: Option<(Vec<u8>, CachedMediaMetadata)>)
        requires
            old(self).wf(),
        ensures
            final(self).wf(),
            final(self).config == old(self).config,
            final(self).total_size_bytes <= old(self).total_size_bytes,
            (final(self)@, read_view(r)) == cache_get(old(self)@, old(self).config.cache_ttl_seconds, key@, now),
    {
        let ghost v = self@;
        match self.find_index(key) {
            Some(i) => {
                proof { lemma_find_key(v.entries, key@); }
                let last = self.entries[i].1.last_accessed;
                let age: u128 = if now >= last { (now - last) / NANOS_IN_SECOND } else { 0 };
                if age <= self.config.cache_ttl_seconds as u128 {
                    let (k, mut entry) = self.entries.remove(i);
                    entry.last_accessed = now;
                    let data = copy_bytes(&entry.data);
                    let metadata = entry.metadata.duplicate();
                    self.entries.insert(i, (k, entry));
                    self.stats.hits = self.stats.hits.wrapping_add(1);
                    proof {
                        assert(self@.entries =~= v.entries.update(i as int, (key@, CachedEntryView { last_accessed: now, ..v.entries[i as int].1 })));
                        lemma_size_sum_update(v.entries, i as int, (key@, CachedEntryView { last_accessed: now, ..v.entries[i as int].1 }));
                        assert(keys_unique(self@.entries));
                    }
                    Some((data, metadata))
                } else {
                    let (_k, entry) = self.entries.remove(i);
                    proof {
                        lemma_entry_within_sum(v.entries, i as int);
                        assert(self@.entries =~= v.entries.remove(i as int));
                        lemma_size_sum_remove(v.entries, i as int);
                        lemma_size_sum_nonneg(v.entries.remove(i as int));
                        assert(keys_unique(self@.entries)) by {
                            assert forall|a: int, b: int| 0 <= a < b < self@.entries.len() implies self@.entries[a].0 != self@.entries[b].0 by {
                                let a2 = if a < i { a } else { a + 1 };
                                let b2 = if b < i { b } else { b + 1 };
                                assert(self@.entries[a] == v.entries[a2]);
                                assert(self@.entries[b] == v.entries[b2]);
                            }
                        }
                    }
                    self.total_size_bytes = self.total_size_bytes - entry.size_bytes;
                    self.stats.misses = self.stats.misses.wrapping_add(1);
                    None
                }
            },
            None => {
                self.stats.misses = self.stats.misses.wrapping_add(1);
                None
            },
        }
    }

    /// Reads key `key` at the current time: see [`cache_get`].
    pub fn get(&mut self, key: &str) -> (r: Option<(Vec<u8>, CachedMediaMetadata)>)
        requires
            old(self).wf(),
        ensures
            final(self).wf(),
            final(self).config == old(self).config,
            exists|now: u128| (final(self)@, read_view(r)) == cache_get(old(self)@, old(self).config.cache_ttl_seconds, key@, now),
    {
        let now = now_nanos();
        self.get_at(key, now)
    }
}


/// The position of the least recently used entry: the first of those with
/// the oldest access time.
pub open spec fn oldest_index(es: Seq<(Seq<char>, CachedEntryView)>) -> int
    decreases es.len(),
{
    if es.len() <= 1 {
        0
    } else {
        let i = oldest_index(es.drop_last());
        if es.last().1.last_accessed < es[i].1.last_accessed { es.len() - 1 } else { i }
    }
}

/// The least recently used entry is one of the entries, and none is older.
pub proof fn lemma_oldest_in_range(es: Seq<(Seq<char>, CachedEntryView)>)
    requires
        es.len() > 0,
    ensures
        0 <= oldest_index(es) < es.len(),
        forall|j: int| 0 <= j < es.len() ==> es[oldest_index(es)].1.last_accessed <= #[trigger] es[j].1.last_accessed,
    decreases es.len(),
{
    if es.len() > 1 {
        lemma_oldest_in_range(es.drop_last());
        assert forall|j: int| 0 <= j < es.len() implies es[oldest_index(es)].1.last_accessed <= #[trigger] es[j].1.last_accessed by {
            if j < es.len() - 1 {
                assert(es.drop_last()[j] == es[j]);
            }
        }
    }
}

/// Eviction from `es` until `required` bytes are freed, counting from
/// `freed`: while short of that and entries remain, the least recently used
/// entry goes. Gives the entries left, the bytes freed, and how many went.
pub open spec fn evict_from(es: Seq<(Seq<char>, CachedEntryView)>, required: int, freed: int)
    -> (Seq<(Seq<char>, CachedEntryView)>, int, nat)
    decreases es.len(),
{
    if freed >= required || es.len() == 0 {
        (es, freed, 0)
    } else {
        let i = oldest_index(es);
        proof { lemma_oldest_in_range(es); }
        let r = evict_from(es.remove(i), required, freed + es[i].1.size_bytes);
        (r.0, r.1, r.2 + 1)
    }
}

proof fn lemma_unique_remove(es: Seq<(Seq<char>, CachedEntryView)>, i: int)
    requires
        keys_unique(es),
        0 <= i < es.len(),
    ensures
        keys_unique(es.remove(i)),
{
    let r = es.remove(i);
    assert forall|a: int, b: int| 0 <= a < b < r.len() implies r[a].0 != r[b].0 by {
        let a2 = if a < i { a } else { a + 1 };
        let b2 = if b < i { b } else { b + 1 };
        assert(r[a] == es[a2]);
        assert(r[b] == es[b2]);
    }
}

proof fn lemma_evict(es: Seq<(Seq<char>, CachedEntryView)>, required: int, freed: int)
    requires
        keys_unique(es),
    ensures
        keys_unique(evict_from(es, required, freed).0),
        evict_from(es, required, freed).1 >= freed,
        evict_from(es, required, freed).1 - freed + stored_size_sum(evict_from(es, required, freed).0) == stored_size_sum(es),
        evict_from(es, required, freed).2 + evict_from(es, required, freed).0.len() == es.len(),
    decreases es.len(),
{
    if !(freed >= required || es.len() == 0) {
        let i = oldest_index(es);
        lemma_oldest_in_range(es);
        lemma_unique_remove(es, i);
        lemma_size_sum_remove(es, i);
        lemma_evict(es.remove(i), required, freed + es[i].1.size_bytes);
    }
}

/// The cache after evicting until `required` bytes are freed.
pub open spec fn after_eviction(v: MediaCacheView, required: usize) -> MediaCacheView {
    let r = evict_from(v.entries, required as int, 0);
    MediaCacheView {
        entries: r.0,
        total_size_bytes: (v.total_size_bytes - r.1) as usize,
        stats: MediaCacheStats { evictions: wrap_add(v.stats.evictions, r.2 as u64), ..v.stats },
    }
}

/// Whether an item is stored compressed: compression is enabled, the type
/// is not compressed already, and the encoding is under 95% of the size.
pub open spec fn compress_choice(enable: bool, data: Seq<u8>, mime: Seq<char>) -> bool {
    enable && !already_compressed(mime) && 20 * rle_encoding(data).len() < 19 * data.len()
}

/// The bytes stored for an item.
pub open spec fn stored_bytes(enable: bool, data: Seq<u8>, mime: Seq<char>) -> Seq<u8> {
    if compress_choice(enable, data, mime) { rle_encoding(data) } else { data }
}

/// The entry stored for an item at `now`.
pub open spec fn new_entry(enable: bool, data: Seq<u8>, mime: Seq<char>, now: u128) -> CachedEntryView {
    let stored = stored_bytes(enable, data, mime);
    CachedEntryView {
        data: stored,
        metadata: CachedMetadataView {
            mime_type: mime,
            original_size: data.len() as usize,
            is_compressed: compress_choice(enable, data, mime),
            stored_size: stored.len() as usize,
        },
        last_accessed: now,
        size_bytes: stored.len() as usize,
    }
}

/// The cache after storing `data` of type `mime` under key `k` at `now`,
/// compression having taken `ct` microseconds: when the new entry would
/// pass the size limit the cache first evicts room for it; the entry then
/// replaces the one with the same key or is added, the replaced entry's
/// bytes are uncounted and the new entry's counted, and a compressed entry
/// adds to the compression counters.
pub open spec fn cache_put(
    v: MediaCacheView,
    enable: bool,
    max_size: usize,
    k: Seq<char>,
    data: Seq<u8>,
    mime: Seq<char>,
    now: u128,
    ct: u64,
) -> MediaCacheView {
    let e = new_entry(enable, data, mime, now);
    let size = e.size_bytes;
    let v1 = if v.total_size_bytes + size > max_size { after_eviction(v, size) } else { v };
    let i = find_key(v1.entries, k);
    let es = if i >= 0 { v1.entries.update(i, (k, e)) } else { v1.entries.push((k, e)) };
    let stats = if e.metadata.is_compressed {
        MediaCacheStats {
            total_compressed_bytes: wrap_add(v1.stats.total_compressed_bytes, size as u64),
            total_compression_time_us: wrap_add(v1.stats.total_compression_time_us, ct),
            ..v1.stats
        }
    } else {
        v1.stats
    };
    let replaced = if i >= 0 { v1.entries[i].1.size_bytes as int } else { 0 };
    MediaCacheView { entries: es, total_size_bytes: (v1.total_size_bytes - replaced + size) as usize, stats }
}

proof fn lemma_entry_views_remove(es: Seq<(String, CachedMediaEntry)>, i: int)
    requires
        0 <= i < es.len(),
    ensures
        entry_views(es.remove(i)) == entry_views(es).remove(i),
{
    assert(entry_views(es.remove(i)) =~= entry_views(es).remove(i));
}

impl MediaCache {
    /// The position of the least recently used entry: see [`oldest_index`].
    fn oldest_position(&self) -> (r: usize)
        requires
            self.entries@.len() > 0,
        ensures
            r == oldest_index(self@.entries),
            r < self.entries@.len(),
    {
        let ghost es = self@.entries;
        let mut best: usize = 0;
        let mut j: usize = 1;
        while j < self.entries.len()
            invariant
                1 <= j <= es.len(),
                es == self@.entries,
                es.len() == self.entries@.len(),
                best < j,
                best == oldest_index(es.take(j as int)),
            decreases es.len() - j,
        {
            proof {
                assert(es.take(j + 1).drop_last() =~= es.take(j as int));
                assert(es.take(j + 1).last() == es[j as int]);
                assert(es.take(j as int)[best as int] == es[best as int]);
            }
            if self.entries[j].1.last_accessed < self.entries[best].1.last_accessed {
                best = j;
            }
            j = j + 1;
        }
        proof { assert(es.take(es.len() as int) =~= es); }
        best
    }

    /// Evicts least recently used entries until `required_space` bytes are
    /// freed or the cache is empty: see [`after_eviction`].
    fn evict_lru_entries(&mut self, required_space: usize)
        requires
            old(self).wf(),
        ensures
            final(self).wf(),
            final(self).config == old(self).config,
            final(self)@ == after_eviction(old(self)@, required_space),
    {
        let ghost s0 = self@.entries;
        let ghost res = evict_from(s0, required_space as int, 0);
        proof { lemma_evict(s0, required_space as int, 0); }
        let n0 = self.entries.len();
        let mut freed: usize = 0;
        let mut evicted: u64 = 0;
        while freed < required_space && self.entries.len() > 0
            invariant
                s0.len() == n0,
                self.config == old(self).config,
                self.total_size_bytes == old(self).total_size_bytes,
                self.stats == old(self).stats,
                keys_unique(self@.entries),
                stored_size_sum(s0) == self.total_size_bytes,
                freed + stored_size_sum(self@.entries) == stored_size_sum(s0),
                evict_from(self@.entries, required_space as int, freed as int).0 == res.0,
                evict_from(self@.entries, required_space as int, freed as int).1 == res.1,
                evict_from(self@.entries, required_space as int, freed as int).2 + evicted == res.2,
                evicted + self@.entries.len() == s0.len(),
            decreases self.entries@.len(),
        {
            let i = self.oldest_position();
            let ghost cur = self@.entries;
            proof {
                lemma_oldest_in_range(cur);
                lemma_size_sum_remove(cur, i as int);
                lemma_size_sum_nonneg(cur.remove(i as int));
                lemma_unique_remove(cur, i as int);
                lemma_entry_views_remove(self.entries@, i as int);
            }
            let (_key, entry) = self.entries.remove(i);
            assert(evicted < n0);
            freed = freed + entry.size_bytes;
            evicted = evicted + 1;
        }
        proof { lemma_size_sum_nonneg(self@.entries); }
        self.total_size_bytes = self.total_size_bytes - freed;
        self.stats.evictions = self.stats.evictions.wrapping_add(evicted);
    }

    /// Stores `data` of type `mime_type` under `key` at time `now`, without
    /// counting compression time; tells whether the entry was compressed.
    fn put_inner(&mut self, key: String, data: Vec<u8>, mime_type: String, now: u128) -> (r: bool)
        requires
            old(self).wf(),
            old(self).total_size_bytes + data@.len() <= usize::MAX,
        ensures
            final(self).wf(),
            final(self).config == old(self).config,
            r == compress_choice(old(self).config.enable_compression, data@, mime_type@),
            final(self)@ == cache_put(
                old(self)@,
                old(self).config.enable_compression,
                old(self).config.max_cache_size_bytes,
                key@,
                data@,
                mime_type@,
                now,
                0,
            ),
    {
        let ghost v0 = self@;
        let ghost e = new_entry(self.config.enable_compression, data@, mime_type@, now);
        let original_size = data.len();
        let mut stored = data;
        let mut is_compressed = false;
        if self.config.enable_compression && should_compress(mime_type.as_str()) {
            let compressed = compress_data(stored.as_slice());
            if 20 * (compressed.len() as u128) < 19 * (original_size as u128) {
                stored = compressed;
                is_compressed = true;
            }
        }
        let entry_size = stored.len();
        assert(entry_size <= original_size);
        if self.total_size_bytes + entry_size > self.config.max_cache_size_bytes {
            self.evict_lru_entries(entry_size);
            proof {
                lemma_evict(v0.entries, entry_size as int, 0);
                lemma_size_sum_nonneg(evict_from(v0.entries, entry_size as int, 0).0);
            }
        }
        let ghost v1 = self@;
        assert(v1.total_size_bytes <= v0.total_size_bytes);
        let entry = CachedMediaEntry {
            data: stored,
            metadata: CachedMediaMetadata { mime_type, original_size, is_compressed, stored_size: entry_size },
            last_accessed: now,
            size_bytes: entry_size,
        };
        assert(entry@ == e);
        let ghost k = key@;
        match self.find_index(key.as_str()) {
            Some(i) => {
                proof {
                    lemma_find_key(v1.entries, k);
                    lemma_size_sum_update(v1.entries, i as int, (k, e));
                    lemma_size_sum_le_total(v1.entries, i as int);
                }
                let replaced = self.entries[i].1.size_bytes;
                self.total_size_bytes = self.total_size_bytes - replaced;
                self.entries.set(i, (key, entry));
                proof {
                    assert(self@.entries =~= v1.entries.update(i as int, (k, e)));
                    assert forall|a: int, b: int| 0 <= a < b < self@.entries.len() implies self@.entries[a].0 != self@.entries[b].0 by {
                        assert(v1.entries[a].0 != v1.entries[b].0);
                    }
                }
            },
            None => {
                proof {
                    lemma_find_key(v1.entries, k);
                    lemma_size_sum_push(v1.entries, (k, e));
                }
                self.entries.push((key, entry));
                proof {
                    assert(self@.entries =~= v1.entries.push((k, e)));
                    assert forall|a: int, b: int| 0 <= a < b < self@.entries.len() implies self@.entries[a].0 != self@.entries[b].0 by {
                        if b < v1.entries.len() {
                            assert(v1.entries[a].0 != v1.entries[b].0);
                        }
                    }
                }
            },
        }
        self.total_size_bytes = self.total_size_bytes + entry_size;
        if is_compressed {
            self.stats.total_compressed_bytes = self.stats.total_compressed_bytes.wrapping_add(entry_size as u64);
        }
        is_compressed
    }

    /// Stores `data` of type `mime_type` under `key` at time `now`, the
    /// compression having taken `compression_time_us`: see [`cache_put`].
    pub fn put_at(&mut self, key: String, data: Vec<u8>, mime_type: String, now: u128, compression_time_us: u64)
        requires
            old(self).wf(),
            old(self).total_size_bytes + data@.len() <= usize::MAX,
        ensures
            final(self).wf(),
            final(self).config == old(self).config,
            final(self)@ == cache_put(
                old(self)@,
                old(self).config.enable_compression,
                old(self).config.max_cache_size_bytes,
                key@,
                data@,
                mime_type@,
                now,
                compression_time_us,
            ),
    {
        let compressed = self.put_inner(key, data, mime_type, now);
        if compressed {
            self.stats.total_compression_time_us = self.stats.total_compression_time_us.wrapping_add(compression_time_us);
        }
    }
}


/// Counters of the cache as reported.
#[derive(Debug, Clone, Copy)]
pub struct MediaCacheStatsReport {
    /// Cache hits.
    pub hits: u64,
    /// Cache misses.
    pub misses: u64,
    /// Entries evicted.
    pub evictions: u64,
    /// Bytes counted as held.
    pub total_size_bytes: usize,
    /// Bytes stored compressed.
    pub total_compressed_bytes: u64,
    /// Compression time per compressed byte, in microseconds (zero when
    /// nothing was compressed).
    pub avg_compression_time_us: u64,
}

impl MediaCache {
    /// Stores `data` of type `mime_type` under `key` at the current time,
    /// with the time the compression took as the clock measured it: see
    /// [`cache_put`].
    pub fn put(&mut self, key: String, data: Vec<u8>, mime_type: String)
        requires
            old(self).wf(),
            old(self).total_size_bytes + data@.len() <= usize::MAX,
        ensures
            final(self).wf(),
            final(self).config == old(self).config,
            exists|now: u128, ct: u64| final(self)@ == cache_put(
                old(self)@,
                old(self).config.enable_compression,
                old(self).config.max_cache_size_bytes,
                key@,
                data@,
                mime_type@,
                now,
                ct,
            ),
    {
        let start = now_nanos();
        let compressed = self.put_inner(key, data, mime_type, start);
        if compressed {
            let end = now_nanos();
            let us = if end >= start { (end - start) / 1000 } else { 0 };
            let elapsed: u64 = if us > u64::MAX as u128 { u64::MAX } else { us as u64 };
            self.stats.total_compression_time_us = self.stats.total_compression_time_us.wrapping_add(elapsed);
            assert(self@ == cache_put(old(self)@, old(self).config.enable_compression, old(self).config.max_cache_size_bytes,
                key@, data@, mime_type@, start, elapsed));
        } else {
            assert(self@ == cache_put(old(self)@, old(self).config.enable_compression, old(self).config.max_cache_size_bytes,
                key@, data@, mime_type@, start, 0));
        }
    }

    /// Forgets every entry; the counters stay.
    pub fn clear(&mut self)
        ensures
            final(self).wf(),
            final(self).config == old(self).config,
            final(self)@.entries.len() == 0,
            final(self)@.total_size_bytes == 0,
            final(self)@.stats == old(self)@.stats,
    {
        self.entries.clear();
        self.total_size_bytes = 0;
        proof { assert(self@.entries =~= Seq::<(Seq<char>, CachedEntryView)>::empty()); }
    }

    /// The counters, with the compression time per compressed byte.
    pub fn get_stats(&self) -> (r: MediaCacheStatsReport)
        ensures
            r.hits == self.stats.hits,
            r.misses == self.stats.misses,
            r.evictions == self.stats.evictions,
            r.total_size_bytes == self.total_size_bytes,
            r.total_compressed_bytes == self.stats.total_compressed_bytes,
            r.avg_compression_time_us == if self.stats.total_compressed_bytes == 0 { 0 } else {
                self.stats.total_compression_time_us / self.stats.total_compressed_bytes
            },
    {
        let avg = if self.stats.total_compressed_bytes == 0 {
            0
        } else {
            self.stats.total_compression_time_us / self.stats.total_compressed_bytes
        };
        MediaCacheStatsReport {
            hits: self.stats.hits,
            misses: self.stats.misses,
            evictions: self.stats.evictions,
            total_size_bytes: self.total_size_bytes,
            total_compressed_bytes: self.stats.total_compressed_bytes,
            avg_compression_time_us: avg,
        }
    }
}

proof fn lemma_unique_update_same_key(es: Seq<(Seq<char>, CachedEntryView)>, i: int, e: CachedEntryView)
    requires
        keys_unique(es),
        0 <= i < es.len(),
    ensures
        keys_unique(es.update(i, (es[i].0, e))),
{
    let u = es.update(i, (es[i].0, e));
    assert forall|a: int, b: int| 0 <= a < b < u.len() implies u[a].0 != u[b].0 by {
        assert(es[a].0 != es[b].0);
    }
}

proof fn lemma_unique_push_new(es: Seq<(Seq<char>, CachedEntryView)>, p: (Seq<char>, CachedEntryView))
    requires
        keys_unique(es),
        find_key(es, p.0) < 0,
    ensures
        keys_unique(es.push(p)),
{
    lemma_find_key(es, p.0);
    let u = es.push(p);
    assert forall|a: int, b: int| 0 <= a < b < u.len() implies u[a].0 != u[b].0 by {
        if b < es.len() {
            assert(es[a].0 != es[b].0);
        } else {
            assert(u[a] == es[a]);
        }
    }
}

/// A read of a key within the time to live of its write gives back what
/// the write stored: the bytes (encoded when the cache chose to compress
/// them) and the item's metadata, whatever the cache held before.
pub proof fn law_read_after_write(
    v: MediaCacheView,
    enable: bool,
    max_size: usize,
    ttl: u64,
    k: Seq<char>,
    data: Seq<u8>,
    mime: Seq<char>,
    t: u128,
    ct: u64,
    t2: u128,
)
    requires
        keys_unique(v.entries),
        stored_size_sum(v.entries) == v.total_size_bytes,
        age_secs(t, t2) <= ttl,
    ensures
        cache_get(cache_put(v, enable, max_size, k, data, mime, t, ct), ttl, k, t2).1
            == Some((stored_bytes(enable, data, mime), new_entry(enable, data, mime, t).metadata)),
{
    let e = new_entry(enable, data, mime, t);
    let size = e.size_bytes;
    let v1 = if v.total_size_bytes + size > max_size { after_eviction(v, size) } else { v };
    if v.total_size_bytes + size > max_size {
        lemma_evict(v.entries, size as int, 0);
    }
    assert(keys_unique(v1.entries));
    let i = find_key(v1.entries, k);
    lemma_find_key(v1.entries, k);
    let es = if i >= 0 { v1.entries.update(i, (k, e)) } else { v1.entries.push((k, e)) };
    if i >= 0 {
        lemma_unique_update_same_key(v1.entries, i, e);
        assert(v1.entries.update(i, (v1.entries[i].0, e)) == es);
        lemma_find_unique(es, i);
    } else {
        lemma_unique_push_new(v1.entries, (k, e));
        lemma_find_unique(es, es.len() - 1);
    }
}

/// Whether `x` is one of the entries of `es`.
pub open spec fn is_entry_of(x: (Seq<char>, CachedEntryView), es: Seq<(Seq<char>, CachedEntryView)>) -> bool {
    exists|m: int| 0 <= m < es.len() && es[m] == x
}

proof fn lemma_evict_subset(es: Seq<(Seq<char>, CachedEntryView)>, required: int, freed: int)
    ensures
        forall|j: int| 0 <= j < evict_from(es, required, freed).0.len()
            ==> is_entry_of(#[trigger] evict_from(es, required, freed).0[j], es),
    decreases es.len(),
{
    let r = evict_from(es, required, freed).0;
    if !(freed >= required || es.len() == 0) {
        let o = oldest_index(es);
        lemma_oldest_in_range(es);
        let rest = es.remove(o);
        let f2 = freed + es[o].1.size_bytes;
        lemma_evict_subset(rest, required, f2);
        let rr = evict_from(rest, required, f2).0;
        assert(r == rr);
        assert forall|j: int| 0 <= j < r.len() implies is_entry_of(#[trigger] r[j], es) by {
            assert(is_entry_of(rr[j], rest));
            let m1 = choose|m: int| 0 <= m < rest.len() && rest[m] == rr[j];
            let m2 = if m1 < o { m1 } else { m1 + 1 };
            assert(rest[m1] == es[m2]);
        }
    } else {
        assert forall|j: int| 0 <= j < r.len() implies is_entry_of(#[trigger] r[j], es) by {
            assert(es[j] == r[j]);
        }
    }
}

/// Eviction frees the least recently used entries first: every entry that
/// eviction removed was last used no later than every entry it kept.
pub proof fn law_eviction_removes_least_recently_used(es: Seq<(Seq<char>, CachedEntryView)>, required: int, freed: int)
    requires
        keys_unique(es),
    ensures
        forall|i: int, j: int| #![trigger es[i], evict_from(es, required, freed).0[j]]
            0 <= i < es.len() && 0 <= j < evict_from(es, required, freed).0.len()
                && find_key(evict_from(es, required, freed).0, es[i].0) < 0
                ==> es[i].1.last_accessed <= evict_from(es, required, freed).0[j].1.last_accessed,
    decreases es.len(),
{
    let r = evict_from(es, required, freed).0;
    if freed >= required || es.len() == 0 {
        assert forall|i: int, j: int| #![trigger es[i], r[j]]
            0 <= i < es.len() && 0 <= j < r.len() && find_key(r, es[i].0) < 0
                implies es[i].1.last_accessed <= r[j].1.last_accessed by {
            lemma_find_key(r, es[i].0);
            assert(r[i].0 == es[i].0);
        }
    } else {
        let o = oldest_index(es);
        lemma_oldest_in_range(es);
        let rest = es.remove(o);
        lemma_unique_remove(es, o);
        law_eviction_removes_least_recently_used(rest, required, freed + es[o].1.size_bytes);
        lemma_evict_subset(rest, required, freed + es[o].1.size_bytes);
        let rr = evict_from(rest, required, freed + es[o].1.size_bytes).0;
        assert(r == rr);
        assert forall|i: int, j: int| #![trigger es[i], r[j]]
            0 <= i < es.len() && 0 <= j < r.len() && find_key(r, es[i].0) < 0
                implies es[i].1.last_accessed <= r[j].1.last_accessed by {
            assert(r[j] == rr[j]);
            assert(is_entry_of(rr[j], rest));
            let m = choose|m: int| 0 <= m < rest.len() && rest[m] == rr[j];
            let m2 = if m < o { m } else { m + 1 };
            assert(rest[m] == es[m2]);
            if i != o {
                let i2 = if i < o { i } else { i - 1 };
                assert(rest[i2] == es[i]);
            }
        }
    }
}

} // verus!
