//! The configuration cache of a synchronisation context: configurations
//! kept by key for a time to live, with the least recently used one making
//! room when the cache is full, and the synchronisation status. Change
//! broadcasting and merge strategies supplied as closures live outside.
//!
//! Times are nanoseconds on a monotonic clock.

use vstd::prelude::*;
use crate::config::SyncStatus;
use crate::dynamic_config::{DynamicConfig, DynamicConfigView};
use crate::text::text_eq;

verus! {

/// A cached configuration.
#[derive(Debug)]
pub struct ConfigCacheEntry {
    /// The configuration.
    pub config: DynamicConfig,
    /// When it was cached.
    pub cached_at: u128,
    /// Hash of the configuration when it was cached.
    pub config_hash: u64,
    /// Times it was read.
    pub access_count: usize,
    /// When it was cached or last read.
    pub last_accessed: u128,
}

/// A cache entry apart from its hash.
pub struct CacheEntryView {
    /// The configuration.
    pub config: DynamicConfigView,
    /// When it was cached.
    pub cached_at: u128,
    /// Times it was read.
    pub access_count: usize,
    /// Last access.
    pub last_accessed: u128,
}

impl View for ConfigCacheEntry {
    type V = CacheEntryView;

    open spec fn view(&self) -> CacheEntryView {
        CacheEntryView {
            config: self.config@,
            cached_at: self.cached_at,
            access_count: self.access_count,
            last_accessed: self.last_accessed,
        }
    }
}

/// Time from `earlier` to `now`; zero when `now` is earlier.
pub open spec fn since(earlier: u128, now: u128) -> int {
    if now >= earlier { now - earlier } else { 0 }
}

/// Whether an entry cached at `cached_at` is older than `ttl` at `now`.
pub open spec fn expired_at(e: CacheEntryView, ttl: u128, now: u128) -> bool {
    since(e.cached_at, now) > ttl
}

/// Usage counter increment with wrap-around, as `fetch_add` performs it.
pub open spec fn wrap_inc_usize(x: usize) -> usize {
    if x == usize::MAX { 0 } else { (x + 1) as usize }
}

impl ConfigCacheEntry {
    /// An entry for `config` cached at `now`, not read yet.
    pub fn new_at(config: DynamicConfig, now: u128) -> (r: Self)
        ensures
            r@ == (CacheEntryView { config: config@, cached_at: now, access_count: 0, last_accessed: now }),
            r.config_hash == crate::dynamic_config::config_hash_of(config),
            r.config.tags@ == config.tags@,
    {
        let config_hash = config.compute_hash();
        ConfigCacheEntry { config, cached_at: now, config_hash, access_count: 0, last_accessed: now }
    }

    /// Counts a read at `now`.
    pub fn mark_accessed(&mut self, now: u128)
        ensures
            final(self)@ == (CacheEntryView {
                access_count: wrap_inc_usize(old(self).access_count),
                last_accessed: now,
                ..old(self)@
            }),
            final(self).config.tags@ == old(self).config.tags@,
            final(self).config_hash == old(self).config_hash,
    {
        self.access_count = self.access_count.wrapping_add(1);
        self.last_accessed = now;
    }

    /// Whether the entry is older than `ttl` at `now`.
    pub fn is_expired(&self, ttl: u128, now: u128) -> (r: bool)
        ensures
            r == expired_at(self@, ttl, now),
    {
        let elapsed = if now >= self.cached_at { now - self.cached_at } else { 0 };
        elapsed > ttl
    }
}

/// Whether key `a` sorts before key `b` character by character, a prefix
/// first (the order of a `BTreeMap<String, _>`).
pub open spec fn key_lt(a: Seq<char>, b: Seq<char>) -> bool
    decreases a.len(),
{
    if a.len() == 0 {
        b.len() > 0
    } else if b.len() == 0 {
        false
    } else if a[0] != b[0] {
        (a[0] as u32) < (b[0] as u32)
    } else {
        key_lt(a.drop_first(), b.drop_first())
    }
}

proof fn lemma_key_lt_skip(a: Seq<char>, b: Seq<char>, i: int)
    requires
        0 <= i <= a.len(),
        i <= b.len(),
        a.take(i) == b.take(i),
    ensures
        key_lt(a, b) == key_lt(a.skip(i), b.skip(i)),
    decreases i,
{
    if i > 0 {
        assert(a[0] == a.take(i)[0]);
        assert(b[0] == b.take(i)[0]);
        assert(a.drop_first().take(i - 1) =~= a.take(i).drop_first());
        assert(b.drop_first().take(i - 1) =~= b.take(i).drop_first());
        lemma_key_lt_skip(a.drop_first(), b.drop_first(), i - 1);
        assert(a.drop_first().skip(i - 1) =~= a.skip(i));
        assert(b.drop_first().skip(i - 1) =~= b.skip(i));
    } else {
        assert(a.skip(0) =~= a);
        assert(b.skip(0) =~= b);
    }
}

/// Whether `a` sorts before `b`: see [`key_lt`].
fn key_less(a: &str, b: &str) -> (r: bool)
    ensures
        r == key_lt(a@, b@),
{
    let n = a.unicode_len();
    let m = b.unicode_len();
    let mut i: usize = 0;
    while i < n && i < m
        invariant
            n == a@.len(),
            m == b@.len(),
            i <= n,
            i <= m,
            a@.take(i as int) == b@.take(i as int),
        decreases n - i,
    {
        let x = a.get_char(i);
        let y = b.get_char(i);
        if x != y {
            proof {
                lemma_key_lt_skip(a@, b@, i as int);
                assert(a@.skip(i as int)[0] == x);
                assert(b@.skip(i as int)[0] == y);
            }
            return (x as u32) < (y as u32);
        }
        proof {
            assert(a@.take(i + 1) =~= a@.take(i as int).push(x));
            assert(b@.take(i + 1) =~= b@.take(i as int).push(y));
        }
        i = i + 1;
    }
    proof {
        lemma_key_lt_skip(a@, b@, i as int);
    }
    i == n && i < m
}

/// The cached configurations with their keys.
pub open spec fn cache_views(es: Seq<(String, ConfigCacheEntry)>) -> Seq<(Seq<char>, CacheEntryView)> {
    es.map_values(|p: (String, ConfigCacheEntry)| (p.0@, p.1@))
}

/// Whether no key occurs twice.
pub open spec fn unique_cache_keys(es: Seq<(Seq<char>, CacheEntryView)>) -> bool {
    forall|i: int, j: int| 0 <= i < j < es.len() ==> es[i].0 != es[j].0
}

/// The position of key `k`, searching from the end; -1 when absent.
pub open spec fn cache_find(es: Seq<(Seq<char>, CacheEntryView)>, k: Seq<char>) -> int
    decreases es.len(),
{
    if es.len() == 0 {
        -1
    } else if es.last().0 == k {
        es.len() - 1
    } else {
        cache_find(es.drop_last(), k)
    }
}

/// The entries that are not expired at `now`, in order.
pub open spec fn live_entries(es: Seq<(Seq<char>, CacheEntryView)>, ttl: u128, now: u128) -> Seq<(Seq<char>, CacheEntryView)>
    decreases es.len(),
{
    if es.len() == 0 {
        es
    } else {
        let rest = live_entries(es.drop_last(), ttl, now);
        if expired_at(es.last().1, ttl, now) { rest } else { rest.push(es.last()) }
    }
}

/// Whether entry `a` was used less recently than `b`: an earlier last
/// access, or the same and a smaller key.
pub open spec fn used_before(a: (Seq<char>, CacheEntryView), b: (Seq<char>, CacheEntryView)) -> bool {
    a.1.last_accessed < b.1.last_accessed || (a.1.last_accessed == b.1.last_accessed && key_lt(a.0, b.0))
}

/// The position of the least recently used entry.
pub open spec fn lru_position(es: Seq<(Seq<char>, CacheEntryView)>) -> int
    decreases es.len(),
{
    if es.len() <= 1 {
        0
    } else {
        let i = lru_position(es.drop_last());
        if used_before(es.last(), es[i]) { es.len() - 1 } else { i }
    }
}

/// The configuration cache.
#[derive(Debug)]
pub struct ConfigSyncCache {
    /// Entries by key, each key at most once.
    pub entries: Vec<(String, ConfigCacheEntry)>,
    /// Synchronisation status.
    pub sync_status: SyncStatus,
    /// How long an entry stays valid.
    pub cache_ttl: u128,
    /// Entries the cache holds before it evicts.
    pub max_cache_size: usize,
}

/// The entries after caching `config` under `key` at `now`: expired
/// entries go; when the cache is still at capacity the least recently used
/// entry goes; the new entry then replaces the one with the same key or is
/// added.
pub open spec fn cache_insert(
    es: Seq<(Seq<char>, CacheEntryView)>,
    ttl: u128,
    max: usize,
    key: Seq<char>,
    config: DynamicConfigView,
    now: u128,
) -> Seq<(Seq<char>, CacheEntryView)> {
    let es1 = live_entries(es, ttl, now);
    let es2 = if es1.len() >= max && es1.len() > 0 { es1.remove(lru_position(es1)) } else { es1 };
    let e = CacheEntryView { config, cached_at: now, access_count: 0, last_accessed: now };
    let i = cache_find(es2, key);
    if i >= 0 { es2.update(i, (key, e)) } else { es2.push((key, e)) }
}

/// The entries and the result after reading `key` at `now`: an entry that
/// has not expired is handed out and its use counted; otherwise nothing is
/// returned and nothing changes.
pub open spec fn cache_lookup(es: Seq<(Seq<char>, CacheEntryView)>, ttl: u128, key: Seq<char>, now: u128)
    -> (Seq<(Seq<char>, CacheEntryView)>, Option<DynamicConfigView>)
{
    let i = cache_find(es, key);
    if i >= 0 && !expired_at(es[i].1, ttl, now) {
        let e = es[i].1;
        let e2 = CacheEntryView { access_count: wrap_inc_usize(e.access_count), last_accessed: now, ..e };
        (es.update(i, (key, e2)), Some(e.config))
    } else {
        (es, None)
    }
}

proof fn lemma_cache_find(es: Seq<(Seq<char>, CacheEntryView)>, k: Seq<char>)
    ensures
        -1 <= cache_find(es, k) < es.len(),
        cache_find(es, k) >= 0 ==> es[cache_find(es, k)].0 == k,
        cache_find(es, k) < 0 ==> forall|i: int| 0 <= i < es.len() ==> es[i].0 != k,
    decreases es.len(),
{
    if es.len() > 0 {
        lemma_cache_find(es.drop_last(), k);
        if es.last().0 != k {
            assert forall|i: int| 0 <= i < es.len() && cache_find(es, k) < 0 implies es[i].0 != k by {
                if i < es.len() - 1 {
                    assert(es.drop_last()[i] == es[i]);
                }
            }
        }
    }
}

proof fn lemma_cache_find_unique(es: Seq<(Seq<char>, CacheEntryView)>, i: int)
    requires
        unique_cache_keys(es),
        0 <= i < es.len(),
    ensures
        cache_find(es, es[i].0) == i,
{
    lemma_cache_find(es, es[i].0);
    let f = cache_find(es, es[i].0);
    if f != i {
        if f < i {
            assert(es[f].0 != es[i].0);
        } else {
            assert(es[i].0 != es[f].0);
        }
    }
}

proof fn lemma_cache_find_take(es: Seq<(Seq<char>, CacheEntryView)>, k: Seq<char>, i: int)
    requires
        0 <= i < es.len(),
    ensures
        es[i].0 == k ==> cache_find(es.take(i + 1), k) == i,
        es[i].0 != k ==> cache_find(es.take(i + 1), k) == cache_find(es.take(i), k),
{
    assert(es.take(i + 1).drop_last() =~= es.take(i));
    assert(es.take(i + 1).last() == es[i]);
}

proof fn lemma_lru_in_range(es: Seq<(Seq<char>, CacheEntryView)>)
    requires
        es.len() > 0,
    ensures
        0 <= lru_position(es) < es.len(),
    decreases es.len(),
{
    if es.len() > 1 {
        lemma_lru_in_range(es.drop_last());
    }
}

/// Keeping only live entries keeps their order and never adds one.
proof fn lemma_live_entries(es: Seq<(Seq<char>, CacheEntryView)>, ttl: u128, now: u128)
    ensures
        live_entries(es, ttl, now).len() <= es.len(),
        unique_cache_keys(es) ==> unique_cache_keys(live_entries(es, ttl, now)),
        forall|j: int| 0 <= j < live_entries(es, ttl, now).len()
            ==> !expired_at(#[trigger] live_entries(es, ttl, now)[j].1, ttl, now),
        forall|k: Seq<char>| cache_find(live_entries(es, ttl, now), k) >= 0 ==> cache_find(es, k) >= 0,
    decreases es.len(),
{
    if es.len() > 0 {
        let rest = live_entries(es.drop_last(), ttl, now);
        lemma_live_entries(es.drop_last(), ttl, now);
        lemma_cache_find(rest, es.last().0);
        assert forall|k: Seq<char>| cache_find(live_entries(es, ttl, now), k) >= 0 implies cache_find(es, k) >= 0 by {
            lemma_cache_find(live_entries(es, ttl, now), k);
            lemma_cache_find(es, k);
            lemma_cache_find(es.drop_last(), k);
            lemma_cache_find(rest, k);
            if es.last().0 != k {
                let f = cache_find(es.drop_last(), k);
                assert(es.drop_last()[f] == es[f]);
            }
        }
        if unique_cache_keys(es) {
            assert(unique_cache_keys(es.drop_last())) by {
                assert forall|a: int, b: int| 0 <= a < b < es.drop_last().len() implies es.drop_last()[a].0 != es.drop_last()[b].0 by {
                    assert(es.drop_last()[a] == es[a]);
                    assert(es.drop_last()[b] == es[b]);
                }
            }
            if !expired_at(es.last().1, ttl, now) {
                let l = rest.push(es.last());
                assert forall|a: int, b: int| 0 <= a < b < l.len() implies l[a].0 != l[b].0 by {
                    if b == l.len() - 1 {
                        // The last key occurs nowhere before it in `es`, hence not in `rest`.
                        if l[a].0 == es.last().0 {
                            assert(cache_find(rest, es.last().0) >= 0) by {
                                lemma_cache_find(rest, es.last().0);
                                assert(rest[a].0 == es.last().0);
                            }
                            let f = cache_find(es.drop_last(), es.last().0);
                            lemma_cache_find(es.drop_last(), es.last().0);
                            assert(es.drop_last()[f] == es[f]);
                            assert(es[f].0 != es[es.len() - 1].0);
                        }
                    } else {
                        assert(l[a] == rest[a]);
                        assert(l[b] == rest[b]);
                    }
                }
            }
        }
    }
}

proof fn lemma_unique_cache_remove(es: Seq<(Seq<char>, CacheEntryView)>, i: int)
    requires
        unique_cache_keys(es),
        0 <= i < es.len(),
    ensures
        unique_cache_keys(es.remove(i)),
{
    let r = es.remove(i);
    assert forall|a: int, b: int| 0 <= a < b < r.len() implies r[a].0 != r[b].0 by {
        let a2 = if a < i { a } else { a + 1 };
        let b2 = if b < i { b } else { b + 1 };
        assert(r[a] == es[a2]);
        assert(r[b] == es[b2]);
    }
}

proof fn lemma_unique_cache_put(es: Seq<(Seq<char>, CacheEntryView)>, key: Seq<char>, e: CacheEntryView)
    requires
        unique_cache_keys(es),
    ensures
        unique_cache_keys(
            if cache_find(es, key) >= 0 { es.update(cache_find(es, key), (key, e)) } else { es.push((key, e)) },
        ),
        cache_find(
            if cache_find(es, key) >= 0 { es.update(cache_find(es, key), (key, e)) } else { es.push((key, e)) },
            key,
        ) >= 0,
{
    lemma_cache_find(es, key);
    let i = cache_find(es, key);
    if i >= 0 {
        let u = es.update(i, (key, e));
        assert forall|a: int, b: int| 0 <= a < b < u.len() implies u[a].0 != u[b].0 by {
            assert(es[a].0 != es[b].0);
        }
        lemma_cache_find_unique(u, i);
    } else {
        let u = es.push((key, e));
        assert forall|a: int, b: int| 0 <= a < b < u.len() implies u[a].0 != u[b].0 by {
            if b < es.len() {
                assert(es[a].0 != es[b].0);
            } else {
                assert(u[a] == es[a]);
            }
        }
        lemma_cache_find_unique(u, u.len() - 1);
    }
}

impl ConfigSyncCache {
    /// Well-formedness: keys are unique.
    pub open spec fn wf(&self) -> bool {
        unique_cache_keys(cache_views(self.entries@))
    }

    /// The entries.
    pub open spec fn entries_view(&self) -> Seq<(Seq<char>, CacheEntryView)> {
        cache_views(self.entries@)
    }

    /// An empty cache, synchronised.
    pub fn new(cache_ttl: u128, max_cache_size: usize) -> (r: Self)
        ensures
            r.wf(),
            r.entries_view().len() == 0,
            r.sync_status == SyncStatus::Synchronized,
            r.cache_ttl == cache_ttl,
            r.max_cache_size == max_cache_size,
    {
        let r = ConfigSyncCache { entries: Vec::new(), sync_status: SyncStatus::Synchronized, cache_ttl, max_cache_size };
        proof { assert(r.entries_view() =~= Seq::<(Seq<char>, CacheEntryView)>::empty()); }
        r
    }

    fn find_position(&self, key: &str) -> (r: Option<usize>)
        ensures
            r matches Some(i) ==> i == cache_find(self.entries_view(), key@) && i < self.entries@.len(),
            r is None ==> cache_find(self.entries_view(), key@) < 0,
    {
        let ghost es = self.entries_view();
        let mut i = self.entries.len();
        proof { assert(es.take(i as int) =~= es); }
        while i > 0
            invariant
                i <= es.len(),
                es == self.entries_view(),
                es.len() == self.entries@.len(),
                cache_find(es, key@) == cache_find(es.take(i as int), key@),
            decreases i,
        {
            i = i - 1;
            proof { lemma_cache_find_take(es, key@, i as int); }
            if text_eq(self.entries[i].0.as_str(), key) {
                return Some(i);
            }
        }
        None
    }

    /// The cached configuration of `key` at time `now`: see [`cache_lookup`].
    pub fn get_cached_config_at(&mut self, key: &str, now: u128) -> (r: Option<DynamicConfig>)
        requires
            old(self).wf(),
        ensures
            final(self).wf(),
            final(self).cache_ttl == old(self).cache_ttl,
            final(self).max_cache_size == old(self).max_cache_size,
            final(self).sync_status == old(self).sync_status,
            final(self).entries_view() == cache_lookup(old(self).entries_view(), old(self).cache_ttl, key@, now).0,
            (match r { Some(c) => Some(c@), None => None }) == cache_lookup(old(self).entries_view(), old(self).cache_ttl, key@, now).1,
    {
        let ghost es = self.entries_view();
        match self.find_position(key) {
            Some(i) => {
                if self.entries[i].1.is_expired(self.cache_ttl, now) {
                    None
                } else {
                    proof { lemma_cache_find(es, key@); }
                    let (k, mut entry) = self.entries.remove(i);
                    entry.mark_accessed(now);
                    let result = entry.config.duplicate();
                    self.entries.insert(i, (k, entry));
                    proof {
                        let e2 = CacheEntryView {
                            access_count: wrap_inc_usize(es[i as int].1.access_count),
                            last_accessed: now,
                            ..es[i as int].1
                        };
                        assert(self.entries_view() =~= es.update(i as int, (key@, e2)));
                        assert forall|a: int, b: int| 0 <= a < b < self.entries_view().len()
                            implies self.entries_view()[a].0 != self.entries_view()[b].0 by {
                            assert(es[a].0 != es[b].0);
                        }
                    }
                    Some(result)
                }
            },
            None => None,
        }
    }

    /// Drops the entries expired at `now`, keeping the order of the others.
    fn drop_expired(&mut self, now: u128)
        requires
            old(self).wf(),
        ensures
            final(self).wf(),
            final(self).entries_view() == live_entries(old(self).entries_view(), old(self).cache_ttl, now),
            final(self).cache_ttl == old(self).cache_ttl,
            final(self).max_cache_size == old(self).max_cache_size,
            final(self).sync_status == old(self).sync_status,
    {
        let ghost es = self.entries_view();
        let ttl = self.cache_ttl;
        let mut rest: Vec<(String, ConfigCacheEntry)> = Vec::new();
        std::mem::swap(&mut rest, &mut self.entries);
        let ghost total = rest@;
        proof { assert(cache_views(total) == es); }
        let n = rest.len();
        let mut kept: Vec<(String, ConfigCacheEntry)> = Vec::new();
        let mut idx: usize = 0;
        proof {
            assert(rest@ =~= total.skip(0));
            assert(cache_views(kept@) =~= live_entries(es.take(0), ttl, now));
        }
        while idx < n
            invariant
                cache_views(total) == es,
                total.len() == n,
                idx <= n,
                rest@ == total.skip(idx as int),
                cache_views(kept@) == live_entries(es.take(idx as int), ttl, now),
            decreases n - idx,
        {
            let item = rest.remove(0);
            proof {
                assert(item == total[idx as int]);
                assert(rest@ =~= total.skip(idx + 1));
                assert(es.take(idx + 1).drop_last() =~= es.take(idx as int));
                assert(es.take(idx + 1).last() == es[idx as int]);
                assert(es[idx as int] == (item.0@, item.1@));
            }
            if !item.1.is_expired(ttl, now) {
                let ghost kv = kept@;
                kept.push(item);
                proof { assert(cache_views(kept@) =~= cache_views(kv).push(es[idx as int])); }
            }
            idx = idx + 1;
        }
        proof {
            assert(es.take(n as int) =~= es);
            lemma_live_entries(es, ttl, now);
        }
        self.entries = kept;
    }

    /// The position of the least recently used entry.
    fn lru_index(&self) -> (r: usize)
        requires
            self.entries@.len() > 0,
        ensures
            r == lru_position(self.entries_view()),
            r < self.entries@.len(),
    {
        let ghost es = self.entries_view();
        let mut best: usize = 0;
        let mut j: usize = 1;
        while j < self.entries.len()
            invariant
                1 <= j <= es.len(),
                es == self.entries_view(),
                es.len() == self.entries@.len(),
                best < j,
                best == lru_position(es.take(j as int)),
            decreases es.len() - j,
        {
            proof {
                assert(es.take(j + 1).drop_last() =~= es.take(j as int));
                assert(es.take(j + 1).last() == es[j as int]);
                assert(es.take(j as int)[best as int] == es[best as int]);
            }
            let a = &self.entries[j];
            let b = &self.entries[best];
            let before = a.1.last_accessed < b.1.last_accessed
                || (a.1.last_accessed == b.1.last_accessed && key_less(a.0.as_str(), b.0.as_str()));
            if before {
                best = j;
            }
            j = j + 1;
        }
        proof { assert(es.take(es.len() as int) =~= es); }
        best
    }

    /// Caches `config` under `key` at time `now`: see [`cache_insert`].
    pub fn cache_config_at(&mut self, key: String, config: DynamicConfig, now: u128)
        requires
            old(self).wf(),
        ensures
            final(self).wf(),
            final(self).entries_view()
                == cache_insert(old(self).entries_view(), old(self).cache_ttl, old(self).max_cache_size, key@, config@, now),
            final(self).cache_ttl == old(self).cache_ttl,
            final(self).max_cache_size == old(self).max_cache_size,
            final(self).sync_status == old(self).sync_status,
    {
        let ghost es0 = self.entries_view();
        self.drop_expired(now);
        let ghost es1 = self.entries_view();
        if self.entries.len() >= self.max_cache_size && self.entries.len() > 0 {
            let i = self.lru_index();
            proof {
                lemma_lru_in_range(es1);
                lemma_unique_cache_remove(es1, i as int);
            }
            self.entries.remove(i);
            proof { assert(self.entries_view() =~= es1.remove(i as int)); }
        }
        let ghost es2 = self.entries_view();
        let entry = ConfigCacheEntry::new_at(config, now);
        let ghost e = entry@;
        match self.find_position(key.as_str()) {
            Some(i) => {
                self.entries.set(i, (key, entry));
                proof { assert(self.entries_view() =~= es2.update(i as int, (key@, e))); }
            },
            None => {
                self.entries.push((key, entry));
                proof { assert(self.entries_view() =~= es2.push((key@, e))); }
            },
        }
        proof { lemma_unique_cache_put(es2, key@, e); }
    }

    /// How many entries are cached, and how many of them are expired at `now`.
    pub fn cache_stats_at(&self, now: u128) -> (r: (usize, usize))
        ensures
            r.0 == self.entries_view().len(),
            r.1 == self.entries_view().len() - live_entries(self.entries_view(), self.cache_ttl, now).len(),
    {
        let ghost es = self.entries_view();
        let mut expired: usize = 0;
        let mut i: usize = 0;
        while i < self.entries.len()
            invariant
                es == self.entries_view(),
                es.len() == self.entries@.len(),
                i <= es.len(),
                expired == i - live_entries(es.take(i as int), self.cache_ttl, now).len(),
                live_entries(es.take(i as int), self.cache_ttl, now).len() <= i,
            decreases es.len() - i,
        {
            proof {
                assert(es.take(i + 1).drop_last() =~= es.take(i as int));
                assert(es.take(i + 1).last() == es[i as int]);
            }
            if self.entries[i].1.is_expired(self.cache_ttl, now) {
                expired = expired + 1;
            }
            i = i + 1;
        }
        proof { assert(es.take(es.len() as int) =~= es); }
        (self.entries.len(), expired)
    }

    /// Drops the entries expired at `now` and tells how many went.
    pub fn cleanup_cache_at(&mut self, now: u128) -> (r: usize)
        requires
            old(self).wf(),
        ensures
            final(self).wf(),
            final(self).entries_view() == live_entries(old(self).entries_view(), old(self).cache_ttl, now),
            r == old(self).entries_view().len() - final(self).entries_view().len(),
            final(self).cache_ttl == old(self).cache_ttl,
            final(self).max_cache_size == old(self).max_cache_size,
            final(self).sync_status == old(self).sync_status,
    {
        let initial = self.entries.len();
        proof { lemma_live_entries(self.entries_view(), self.cache_ttl, now); }
        self.drop_expired(now);
        initial - self.entries.len()
    }

    /// The synchronisation status.
    pub fn sync_status(&self) -> (r: &SyncStatus)
        ensures
            *r == self.sync_status,
    {
        &self.sync_status
    }

    /// Sets the synchronisation status.
    pub fn update_sync_status(&mut self, status: SyncStatus)
        ensures
            final(self).sync_status == status,
            final(self).entries == old(self).entries,
            final(self).cache_ttl == old(self).cache_ttl,
            final(self).max_cache_size == old(self).max_cache_size,
    {
        self.sync_status = status;
    }
}

/// A configuration read within the time to live of its caching is the one
/// cached, whatever the cache held before.
pub proof fn law_cached_config_read_after_write(
    es: Seq<(Seq<char>, CacheEntryView)>,
    ttl: u128,
    max: usize,
    key: Seq<char>,
    config: DynamicConfigView,
    t: u128,
    t2: u128,
)
    requires
        unique_cache_keys(es),
        since(t, t2) <= ttl,
    ensures
        cache_lookup(cache_insert(es, ttl, max, key, config, t), ttl, key, t2).1 == Some(config),
{
    let es1 = live_entries(es, ttl, t);
    lemma_live_entries(es, ttl, t);
    let es2 = if es1.len() >= max && es1.len() > 0 { es1.remove(lru_position(es1)) } else { es1 };
    if es1.len() >= max && es1.len() > 0 {
        lemma_lru_in_range(es1);
        lemma_unique_cache_remove(es1, lru_position(es1));
    }
    let e = CacheEntryView { config, cached_at: t, access_count: 0, last_accessed: t };
    lemma_unique_cache_put(es2, key, e);
    let es3 = cache_insert(es, ttl, max, key, config, t);
    lemma_cache_find(es3, key);
    lemma_cache_find(es2, key);
    let i = cache_find(es2, key);
    if i >= 0 {
        lemma_cache_find_unique(es3, i);
    } else {
        lemma_cache_find_unique(es3, es3.len() - 1);
    }
}

/// Caching never takes the cache above its capacity: a cache holding at
/// most `max` entries (at least one) still holds at most `max` after a
/// configuration is cached.
pub proof fn law_cache_stays_within_capacity(
    es: Seq<(Seq<char>, CacheEntryView)>,
    ttl: u128,
    max: usize,
    key: Seq<char>,
    config: DynamicConfigView,
    t: u128,
)
    requires
        unique_cache_keys(es),
        es.len() <= max,
        max >= 1,
    ensures
        cache_insert(es, ttl, max, key, config, t).len() <= max,
{
    lemma_live_entries(es, ttl, t);
    let es1 = live_entries(es, ttl, t);
    if es1.len() >= max && es1.len() > 0 {
        lemma_lru_in_range(es1);
    }
    let es2 = if es1.len() >= max && es1.len() > 0 { es1.remove(lru_position(es1)) } else { es1 };
    assert(es2.len() < max || (es2.len() <= max && es1.len() >= max));
    lemma_cache_find(es2, key);
}

} // verus!
