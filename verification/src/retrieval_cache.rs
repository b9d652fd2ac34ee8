//! The least-recently-inserted cache of semantic retrieval, with optional
//! expiry: values by key, the order in which keys were inserted, and hit and
//! miss counts.
//!
//! Times are nanoseconds since the Unix epoch. The cache evicts by the
//! oldest entry of its insertion record, and that record keeps the keys of
//! evicted and expired entries: once the oldest recorded key is gone from
//! the cache, an insertion into a full cache never ends. The insertion's
//! contract therefore asks for the states in which it ends.

use vstd::prelude::*;
use crate::config::wrap_inc;
use crate::text::text_eq;

verus! {

/// A cached value with its access record.
#[derive(Debug)]
pub struct LruCacheEntry<V> {
    /// The value.
    pub value: V,
    /// When it was last written.
    pub last_accessed: u128,
    /// Accesses counted.
    pub access_count: u64,
    /// When it was written.
    pub created_at: u128,
}

/// Whether entry `e` has outlived the time to live `ttl` at `now`; an
/// entry written after `now` has not.
pub open spec fn is_expired<V>(e: LruCacheEntry<V>, ttl: Option<u128>, now: u128) -> bool {
    ttl matches Some(t) && now >= e.created_at && now - e.created_at > t
}

/// Entries that have not expired, as a predicate.
pub open spec fn unexpired<V>(ttl: Option<u128>, now: u128) -> spec_fn((String, LruCacheEntry<V>)) -> bool {
    |p: (String, LruCacheEntry<V>)| !is_expired(p.1, ttl, now)
}

/// The position of the entry with key `k`, or -1.
pub open spec fn key_position<V>(s: Seq<(String, LruCacheEntry<V>)>, k: Seq<char>) -> int
    decreases s.len(),
{
    if s.len() == 0 {
        -1
    } else if s.last().0@ == k {
        s.len() - 1
    } else {
        key_position(s.drop_last(), k)
    }
}

/// Whether no two entries share a key.
pub open spec fn keys_distinct<V>(s: Seq<(String, LruCacheEntry<V>)>) -> bool {
    forall|i: int, j: int| 0 <= i < j < s.len() ==> s[i].0@ != s[j].0@
}

/// The entries without the one keyed `k`, if any.
pub open spec fn without_key<V>(s: Seq<(String, LruCacheEntry<V>)>, k: Seq<char>) -> Seq<(String, LruCacheEntry<V>)> {
    if key_position(s, k) >= 0 { s.remove(key_position(s, k)) } else { s }
}

/// The entries after eviction: in a full cache the entry keyed by the
/// oldest recorded key goes.
pub open spec fn after_eviction<V>(s: Seq<(String, LruCacheEntry<V>)>, order: Seq<(u64, String)>, capacity: usize) -> Seq<(String, LruCacheEntry<V>)> {
    if s.len() >= capacity && order.len() > 0 { without_key(s, order[0].1@) } else { s }
}

/// Whether eviction from `s` ends: the cache is not full, or nothing is
/// recorded, or the oldest recorded key is in the cache and removing it
/// makes room.
pub open spec fn eviction_ends<V>(s: Seq<(String, LruCacheEntry<V>)>, order: Seq<(u64, String)>, capacity: usize) -> bool {
    ||| s.len() < capacity
    ||| order.len() == 0
    ||| (key_position(s, order[0].1@) >= 0 && s.len() - 1 < capacity)
}

/// The entries after writing `e` under `k`: it replaces the entry with
/// that key, or is appended.
pub open spec fn with_entry<V>(s: Seq<(String, LruCacheEntry<V>)>, k: String, e: LruCacheEntry<V>) -> Seq<(String, LruCacheEntry<V>)> {
    if key_position(s, k@) >= 0 { s.update(key_position(s, k@), (k, e)) } else { s.push((k, e)) }
}

/// Where [`key_position`] points, and when it finds nothing.
pub proof fn lemma_key_position<V>(s: Seq<(String, LruCacheEntry<V>)>, k: Seq<char>)
    ensures
        -1 <= key_position(s, k) < s.len(),
        key_position(s, k) >= 0 ==> s[key_position(s, k)].0@ == k,
        key_position(s, k) < 0 <==> forall|j: int| 0 <= j < s.len() ==> s[j].0@ != k,
    decreases s.len(),
{
    if s.len() > 0 {
        lemma_key_position(s.drop_last(), k);
        if s.last().0@ != k {
            if key_position(s.drop_last(), k) >= 0 {
                assert(s.drop_last()[key_position(s.drop_last(), k)] == s[key_position(s.drop_last(), k)]);
            } else {
                assert forall|j: int| 0 <= j < s.len() implies s[j].0@ != k by {
                    if j < s.len() - 1 {
                        assert(s.drop_last()[j] == s[j]);
                    }
                }
            }
        }
    }
}

proof fn lemma_position_unique<V>(s: Seq<(String, LruCacheEntry<V>)>, k: Seq<char>, i: int)
    requires
        keys_distinct(s),
        0 <= i < s.len(),
        s[i].0@ == k,
    ensures
        key_position(s, k) == i,
{
    lemma_key_position(s, k);
    let p = key_position(s, k);
    if p != i {
        if p < i {
            assert(s[p].0@ != s[i].0@);
        } else {
            assert(s[i].0@ != s[p].0@);
        }
    }
}

/// A cache of values by key with least-recently-inserted eviction.
#[derive(Debug)]
pub struct AdaptiveLruCache<V> {
    /// Entries by key.
    pub cache: Vec<(String, LruCacheEntry<V>)>,
    /// Keys in the order they were written, by write number.
    pub access_order: Vec<(u64, String)>,
    /// The next write number.
    pub access_counter: u64,
    /// Entries allowed.
    pub capacity: usize,
    /// Lookups that found a live entry (wrapping).
    pub hits: u64,
    /// Lookups that did not, and writes (wrapping).
    pub misses: u64,
    /// Entries held when the counters last changed.
    pub size: usize,
    /// Estimated memory when the counters last changed: 256 bytes per
    /// entry (wrapping).
    pub memory_usage_bytes: u64,
    /// Time to live of entries, if they expire.
    pub ttl: Option<u128>,
}

/// The estimated memory of `n` entries.
pub open spec fn estimated_bytes(n: nat) -> u64 {
    ((n * 256) % 0x1_0000_0000_0000_0000) as u64
}

impl<V> AdaptiveLruCache<V> {
    /// Well-formedness: no key is held twice, and write numbers are
    /// increasing and below the counter.
    pub open spec fn wf(&self) -> bool {
        &&& keys_distinct(self.cache@)
        &&& forall|i: int, j: int| 0 <= i < j < self.access_order@.len() ==> self.access_order@[i].0 < self.access_order@[j].0
        &&& forall|i: int| 0 <= i < self.access_order@.len() ==> self.access_order@[i].0 < self.access_counter
    }

    /// An empty cache for `capacity` entries that never expire.
    pub fn new(capacity: usize) -> (r: Self)
        ensures
            r.wf(),
            r.cache@.len() == 0,
            r.access_order@.len() == 0,
            r.access_counter == 0,
            r.capacity == capacity,
            r.hits == 0 && r.misses == 0 && r.size == 0 && r.memory_usage_bytes == 0,
            r.ttl is None,
    {
        AdaptiveLruCache {
            cache: Vec::new(),
            access_order: Vec::new(),
            access_counter: 0,
            capacity,
            hits: 0,
            misses: 0,
            size: 0,
            memory_usage_bytes: 0,
            ttl: None,
        }
    }

    /// An empty cache for `capacity` entries that live for `ttl`.
    pub fn with_ttl(capacity: usize, ttl: u128) -> (r: Self)
        ensures
            r.wf(),
            r.cache@.len() == 0,
            r.access_order@.len() == 0,
            r.access_counter == 0,
            r.capacity == capacity,
            r.hits == 0 && r.misses == 0 && r.size == 0 && r.memory_usage_bytes == 0,
            r.ttl == Some(ttl),
    {
        let mut cache = Self::new(capacity);
        cache.ttl = Some(ttl);
        cache
    }

    fn position(&self, key: &str) -> (r: Option<usize>)
        ensures
            r matches Some(i) ==> i == key_position(self.cache@, key@) && i < self.cache@.len(),
            r is None ==> key_position(self.cache@, key@) < 0,
    {
        proof { lemma_key_position(self.cache@, key@); }
        let mut i: usize = self.cache.len();
        while i > 0
            invariant
                i <= self.cache@.len(),
                key_position(self.cache@, key@) < i,
            decreases i,
        {
            if text_eq(self.cache[i - 1].0.as_str(), key) {
                proof { lemma_found_at(self.cache@, key@, i as int - 1); }
                return Some(i - 1);
            }
            proof { lemma_not_at(self.cache@, key@, i as int - 1); }
            i = i - 1;
        }
        None
    }

    fn count(&mut self, hit: bool)
        ensures
            final(self).hits == if hit { wrap_inc(old(self).hits) } else { old(self).hits },
            final(self).misses == if hit { old(self).misses } else { wrap_inc(old(self).misses) },
            final(self).size == old(self).cache@.len(),
            final(self).memory_usage_bytes == estimated_bytes(old(self).cache@.len()),
            final(self).cache == old(self).cache,
            final(self).access_order == old(self).access_order,
            final(self).access_counter == old(self).access_counter,
            final(self).capacity == old(self).capacity,
            final(self).ttl == old(self).ttl,
    {
        if hit {
            self.hits = self.hits.wrapping_add(1);
        } else {
            self.misses = self.misses.wrapping_add(1);
        }
        self.size = self.cache.len();
        let n = self.cache.len() as u64;
        assert((n as nat) == self.cache@.len());
        self.memory_usage_bytes = n.wrapping_mul(256);
        assert(self.memory_usage_bytes == estimated_bytes(self.cache@.len())) by (nonlinear_arith)
            requires
                self.memory_usage_bytes == ((n as int * 256) % 0x1_0000_0000_0000_0000) as u64,
                n as nat == self.cache@.len(),
        {}
    }

    fn drop_expired(&mut self, now: u128)
        requires
            old(self).wf(),
        ensures
            final(self).wf(),
            final(self).cache@ == old(self).cache@.filter(unexpired::<V>(old(self).ttl, now)),
            final(self).access_order == old(self).access_order,
            final(self).access_counter == old(self).access_counter,
            final(self).capacity == old(self).capacity,
            final(self).ttl == old(self).ttl,
            final(self).hits == old(self).hits,
            final(self).misses == old(self).misses,
            final(self).size == old(self).size,
            final(self).memory_usage_bytes == old(self).memory_usage_bytes,
    {
        let ghost start = self.cache@;
        let ghost pred = unexpired::<V>(self.ttl, now);
        let mut rest: Vec<(String, LruCacheEntry<V>)> = Vec::new();
        std::mem::swap(&mut rest, &mut self.cache);
        let mut kept: Vec<(String, LruCacheEntry<V>)> = Vec::new();
        let ghost mut taken: int = 0;
        proof {
            reveal(Seq::filter);
            assert(start.take(0).filter(pred) =~= Seq::<(String, LruCacheEntry<V>)>::empty());
        }
        while rest.len() > 0
            invariant
                0 <= taken <= start.len(),
                rest@ == start.skip(taken),
                kept@ == start.take(taken).filter(pred),
                pred == unexpired::<V>(self.ttl, now),
            decreases rest@.len(),
        {
            let p = rest.remove(0);
            proof {
                assert(start.take(taken + 1) =~= start.take(taken).push(p));
                start.take(taken).lemma_filter_push(p, pred);
                assert(start.skip(taken).remove(0) =~= start.skip(taken + 1));
            }
            let expired = match self.ttl {
                Some(t) => now >= p.1.created_at && now - p.1.created_at > t,
                None => false,
            };
            if !expired {
                kept.push(p);
            }
            proof { taken = taken + 1; }
        }
        proof {
            assert(start.take(taken) =~= start);
            lemma_filter_keeps_distinct(start, pred);
        }
        self.cache = kept;
    }

    fn remove_key(&mut self, key: &str) -> (r: Option<LruCacheEntry<V>>)
        requires
            old(self).wf(),
        ensures
            final(self).wf(),
            final(self).cache@ == without_key(old(self).cache@, key@),
            key_position(old(self).cache@, key@) >= 0 ==> r == Some(old(self).cache@[key_position(old(self).cache@, key@)].1),
            key_position(old(self).cache@, key@) < 0 ==> r is None,
            final(self).access_order == old(self).access_order,
            final(self).access_counter == old(self).access_counter,
            final(self).capacity == old(self).capacity,
            final(self).ttl == old(self).ttl,
            final(self).hits == old(self).hits,
            final(self).misses == old(self).misses,
            final(self).size == old(self).size,
            final(self).memory_usage_bytes == old(self).memory_usage_bytes,
    {
        let ghost s0 = self.cache@;
        match self.position(key) {
            Some(i) => {
                let (_, e) = self.cache.remove(i);
                proof {
                    assert forall|a: int, b: int| 0 <= a < b < self.cache@.len()
                        implies self.cache@[a].0@ != self.cache@[b].0@ by {
                        let a0 = if a < i { a } else { a + 1 };
                        let b0 = if b < i { b } else { b + 1 };
                        assert(self.cache@[a] == s0[a0]);
                        assert(self.cache@[b] == s0[b0]);
                    }
                }
                Some(e)
            },
            None => None,
        }
    }

    /// Writes `value` under `key` at `now`: expired entries are dropped
    /// first, then a full cache evicts the entry of the oldest recorded key
    /// (see [`after_eviction`]; the record itself stays, and the record
    /// the eviction drops is that of the next write number, which none
    /// holds), the entry is written (see [`with_entry`]) and its key
    /// recorded, and the write counts as a miss.
    pub fn put_at(&mut self, key: String, value: V, now: u128)
        requires
            old(self).wf(),
            old(self).access_counter < u64::MAX,
            eviction_ends(old(self).cache@.filter(unexpired::<V>(old(self).ttl, now)), old(self).access_order@, old(self).capacity),
        ensures
            final(self).wf(),
            ({
                let fresh = old(self).cache@.filter(unexpired::<V>(old(self).ttl, now));
                let kept = after_eviction(fresh, old(self).access_order@, old(self).capacity);
                final(self).cache@ == with_entry(kept, key, LruCacheEntry { value, last_accessed: now, access_count: 1, created_at: now })
            }),
            final(self).access_order@ == old(self).access_order@.push((old(self).access_counter, key)),
            final(self).access_counter == old(self).access_counter + 1,
            final(self).hits == old(self).hits,
            final(self).misses == wrap_inc(old(self).misses),
            final(self).size == final(self).cache@.len(),
            final(self).memory_usage_bytes == estimated_bytes(final(self).cache@.len()),
            final(self).capacity == old(self).capacity,
            final(self).ttl == old(self).ttl,
    {
        if self.ttl.is_some() {
            self.drop_expired(now);
        } else {
            proof {
                let s = self.cache@;
                let pred = unexpired::<V>(self.ttl, now);
                assert(s.filter(pred) =~= s) by {
                    lemma_filter_all(s, pred);
                }
            }
        }
        let ghost fresh = self.cache@;
        if self.cache.len() >= self.capacity && self.access_order.len() > 0 {
            let oldest = self.access_order[0].1.clone();
            let _ = self.remove_key(oldest.as_str());
        }
        assert(self.cache@ == after_eviction(fresh, self.access_order@, self.capacity));
        let access_id = self.access_counter;
        self.access_counter = self.access_counter + 1;
        let entry = LruCacheEntry { value, last_accessed: now, access_count: 1, created_at: now };
        let ghost kept = self.cache@;
        let ghost k = key;
        let ghost e = entry;
        proof { lemma_key_position(kept, key@); }
        match self.position(key.as_str()) {
            Some(i) => {
                let order_key = key.clone();
                self.cache.set(i, (key, entry));
                self.access_order.push((access_id, order_key));
                proof {
                    assert forall|a: int, b: int| 0 <= a < b < self.cache@.len()
                        implies self.cache@[a].0@ != self.cache@[b].0@ by {
                        if a != i && b != i {
                            assert(kept[a].0@ != kept[b].0@);
                        } else if a == i {
                            assert(kept[a].0@ != kept[b].0@);
                        } else {
                            assert(kept[a].0@ != kept[b].0@);
                        }
                    }
                }
            },
            None => {
                let order_key = key.clone();
                self.cache.push((key, entry));
                self.access_order.push((access_id, order_key));
            },
        }
        assert(self.access_order@ =~= old(self).access_order@.push((access_id, k)));
        self.count(false);
    }

    /// Whether a write at `now` ends: see [`eviction_ends`], applied to the
    /// entries that have not expired at `now`.
    pub fn put_would_end(&self, now: u128) -> (r: bool)
        ensures
            r == eviction_ends(self.cache@.filter(unexpired::<V>(self.ttl, now)), self.access_order@, self.capacity),
    {
        let ghost s = self.cache@;
        let ghost pred = unexpired::<V>(self.ttl, now);
        let has_oldest = self.access_order.len() > 0;
        let mut fresh: usize = 0;
        let mut oldest_fresh = false;
        let mut i: usize = 0;
        proof {
            reveal(Seq::filter);
            assert(s.take(0).filter(pred) =~= Seq::<(String, LruCacheEntry<V>)>::empty());
        }
        while i < self.cache.len()
            invariant
                i <= s.len(),
                s == self.cache@,
                pred == unexpired::<V>(self.ttl, now),
                has_oldest == (self.access_order@.len() > 0),
                fresh == s.take(i as int).filter(pred).len(),
                has_oldest ==> (oldest_fresh <==> exists|j: int| 0 <= j < i && #[trigger] pred(s[j]) && s[j].0@ == self.access_order@[0].1@),
            decreases s.len() - i,
        {
            proof {
                assert(s.take(i as int + 1) =~= s.take(i as int).push(s[i as int]));
                s.take(i as int).lemma_filter_push(s[i as int], pred);
                s.take(i as int).lemma_filter_len(pred);
            }
            let expired = match self.ttl {
                Some(t) => now >= self.cache[i].1.created_at && now - self.cache[i].1.created_at > t,
                None => false,
            };
            if !expired {
                fresh = fresh + 1;
                if has_oldest && text_eq(self.cache[i].0.as_str(), self.access_order[0].1.as_str()) {
                    oldest_fresh = true;
                }
            }
            i = i + 1;
        }
        proof {
            assert(s.take(i as int) =~= s);
            if has_oldest {
                let k0 = self.access_order@[0].1@;
                let f = s.filter(pred);
                lemma_key_position(f, k0);
                broadcast use vstd::seq_lib::group_filter_ensures;
                if oldest_fresh {
                    let j = choose|j: int| 0 <= j < i && #[trigger] pred(s[j]) && s[j].0@ == k0;
                    s.lemma_filter_contains(pred, j);
                    let q = choose|q: int| 0 <= q < f.len() && f[q] == s[j];
                    assert(f[q].0@ == k0);
                } else if key_position(f, k0) >= 0 {
                    let q = key_position(f, k0);
                    assert(f.contains(f[q]));
                    s.lemma_filter_contains_rev(pred, f[q]);
                    let j = choose|j: int| 0 <= j < s.len() && s[j] == f[q];
                    s.lemma_filter_pred(pred, q);
                    assert(pred(s[j]) && s[j].0@ == k0);
                }
            }
        }
        fresh < self.capacity || !has_oldest || (oldest_fresh && fresh - 1 < self.capacity)
    }

    /// The value under `key` at `now`: a live entry is a hit; an expired
    /// or absent one a miss.
    pub fn get_at(&mut self, key: &str, now: u128) -> (r: Option<&V>)
        requires
            old(self).wf(),
        ensures
            final(self).wf(),
            final(self).cache == old(self).cache,
            final(self).access_order == old(self).access_order,
            final(self).access_counter == old(self).access_counter,
            ({
                let p = key_position(old(self).cache@, key@);
                let live = p >= 0 && !is_expired(old(self).cache@[p].1, old(self).ttl, now);
                &&& live ==> r == Some(&old(self).cache@[p].1.value)
                &&& !live ==> r is None
                &&& final(self).hits == if live { wrap_inc(old(self).hits) } else { old(self).hits }
                &&& final(self).misses == if live { old(self).misses } else { wrap_inc(old(self).misses) }
            }),
            final(self).size == old(self).cache@.len(),
            final(self).memory_usage_bytes == estimated_bytes(old(self).cache@.len()),
    {
        match self.position(key) {
            Some(i) => {
                let expired = match self.ttl {
                    Some(t) => now >= self.cache[i].1.created_at && now - self.cache[i].1.created_at > t,
                    None => false,
                };
                if expired {
                    self.count(false);
                    None
                } else {
                    self.count(true);
                    Some(&self.cache[i].1.value)
                }
            },
            None => {
                self.count(false);
                None
            },
        }
    }

    /// Takes the entry under `key` out, with every record of its key.
    pub fn remove(&mut self, key: &str) -> (r: Option<V>)
        requires
            old(self).wf(),
        ensures
            final(self).wf(),
            final(self).cache@ == without_key(old(self).cache@, key@),
            key_position(old(self).cache@, key@) >= 0 ==> {
                &&& r == Some(old(self).cache@[key_position(old(self).cache@, key@)].1.value)
                &&& final(self).access_order@ == old(self).access_order@.filter(|p: (u64, String)| p.1@ != key@)
            },
            key_position(old(self).cache@, key@) < 0 ==> r is None && final(self).access_order == old(self).access_order,
            final(self).access_counter == old(self).access_counter,
            final(self).hits == old(self).hits,
            final(self).misses == old(self).misses,
            final(self).size == old(self).size,
            final(self).memory_usage_bytes == old(self).memory_usage_bytes,
            final(self).capacity == old(self).capacity,
            final(self).ttl == old(self).ttl,
    {
        match self.remove_key(key) {
            Some(e) => {
                self.forget_key(key);
                Some(e.value)
            },
            None => None,
        }
    }

    fn forget_key(&mut self, key: &str)
        requires
            old(self).wf(),
        ensures
            final(self).wf(),
            final(self).access_order@ == old(self).access_order@.filter(|p: (u64, String)| p.1@ != key@),
            final(self).cache == old(self).cache,
            final(self).access_counter == old(self).access_counter,
            final(self).hits == old(self).hits,
            final(self).misses == old(self).misses,
            final(self).size == old(self).size,
            final(self).memory_usage_bytes == old(self).memory_usage_bytes,
            final(self).capacity == old(self).capacity,
            final(self).ttl == old(self).ttl,
    {
        let ghost start = self.access_order@;
        let ghost pred = |p: (u64, String)| p.1@ != key@;
        let mut rest: Vec<(u64, String)> = Vec::new();
        std::mem::swap(&mut rest, &mut self.access_order);
        let mut kept: Vec<(u64, String)> = Vec::new();
        let ghost mut taken: int = 0;
        proof {
            reveal(Seq::filter);
            assert(start.take(0).filter(pred) =~= Seq::<(u64, String)>::empty());
        }
        while rest.len() > 0
            invariant
                0 <= taken <= start.len(),
                rest@ == start.skip(taken),
                kept@ == start.take(taken).filter(pred),
                pred == (|p: (u64, String)| p.1@ != key@),
            decreases rest@.len(),
        {
            let p = rest.remove(0);
            proof {
                assert(start.take(taken + 1) =~= start.take(taken).push(p));
                start.take(taken).lemma_filter_push(p, pred);
                assert(start.skip(taken).remove(0) =~= start.skip(taken + 1));
            }
            if !text_eq(p.1.as_str(), key) {
                kept.push(p);
            }
            proof { taken = taken + 1; }
        }
        proof {
            assert(start.take(taken) =~= start);
            lemma_filter_keeps_order(start, pred, self.access_counter);
        }
        self.access_order = kept;
    }

    /// Empties the cache and its record and restarts the write numbers;
    /// the size and memory figures drop to zero, the hit and miss counts
    /// stay.
    pub fn clear(&mut self)
        ensures
            final(self).wf(),
            final(self).cache@.len() == 0,
            final(self).access_order@.len() == 0,
            final(self).access_counter == 0,
            final(self).size == 0,
            final(self).memory_usage_bytes == 0,
            final(self).hits == old(self).hits,
            final(self).misses == old(self).misses,
            final(self).capacity == old(self).capacity,
            final(self).ttl == old(self).ttl,
    {
        self.cache.clear();
        self.access_order.clear();
        self.access_counter = 0;
        self.size = 0;
        self.memory_usage_bytes = 0;
    }

    /// Hits, misses, entries held and allowed, and estimated memory, as
    /// last counted.
    pub fn counts(&self) -> (r: (u64, u64, usize, usize, u64))
        ensures
            r == (self.hits, self.misses, self.size, self.capacity, self.memory_usage_bytes),
    {
        (self.hits, self.misses, self.size, self.capacity, self.memory_usage_bytes)
    }
}

proof fn lemma_found_at<V>(s: Seq<(String, LruCacheEntry<V>)>, k: Seq<char>, i: int)
    requires
        0 <= i < s.len(),
        s[i].0@ == k,
        key_position(s, k) < i + 1,
    ensures
        key_position(s, k) == i,
    decreases s.len(),
{
    if s.len() - 1 != i {
        lemma_found_at(s.drop_last(), k, i);
    }
}

proof fn lemma_not_at<V>(s: Seq<(String, LruCacheEntry<V>)>, k: Seq<char>, i: int)
    requires
        0 <= i < s.len(),
        s[i].0@ != k,
        key_position(s, k) < i + 1,
    ensures
        key_position(s, k) < i,
    decreases s.len(),
{
    if s.len() - 1 > i {
        lemma_not_at(s.drop_last(), k, i);
    } else {
        lemma_key_position(s.drop_last(), k);
    }
}

proof fn lemma_filter_all<V>(s: Seq<(String, LruCacheEntry<V>)>, pred: spec_fn((String, LruCacheEntry<V>)) -> bool)
    requires
        forall|i: int| 0 <= i < s.len() ==> pred(s[i]),
    ensures
        s.filter(pred) == s,
    decreases s.len(),
{
    reveal(Seq::filter);
    if s.len() > 0 {
        lemma_filter_all(s.drop_last(), pred);
        assert(s.drop_last().push(s.last()) =~= s);
    } else {
        assert(s.filter(pred) =~= s);
    }
}

proof fn lemma_filter_keeps_distinct<V>(s: Seq<(String, LruCacheEntry<V>)>, pred: spec_fn((String, LruCacheEntry<V>)) -> bool)
    requires
        keys_distinct(s),
    ensures
        keys_distinct(s.filter(pred)),
    decreases s.len(),
{
    reveal(Seq::filter);
    if s.len() > 0 {
        lemma_filter_keeps_distinct(s.drop_last(), pred);
        let f = s.drop_last().filter(pred);
        if pred(s.last()) {
            assert forall|j: int| 0 <= j < f.len() implies f[j].0@ != s.last().0@ by {
                assert(f.contains(f[j]));
                s.drop_last().lemma_filter_contains_rev(pred, f[j]);
                let q = choose|q: int| 0 <= q < s.drop_last().len() && s.drop_last()[q] == f[j];
                assert(s[q] == f[j]);
            }
        }
    }
}

proof fn lemma_filter_keeps_order(s: Seq<(u64, String)>, pred: spec_fn((u64, String)) -> bool, bound: u64)
    requires
        forall|i: int, j: int| 0 <= i < j < s.len() ==> s[i].0 < s[j].0,
        forall|i: int| 0 <= i < s.len() ==> s[i].0 < bound,
    ensures
        forall|i: int, j: int| 0 <= i < j < s.filter(pred).len() ==> s.filter(pred)[i].0 < s.filter(pred)[j].0,
        forall|i: int| 0 <= i < s.filter(pred).len() ==> s.filter(pred)[i].0 < bound,
    decreases s.len(),
{
    reveal(Seq::filter);
    broadcast use vstd::seq_lib::group_filter_ensures;
    if s.len() > 0 {
        lemma_filter_keeps_order(s.drop_last(), pred, bound);
        let f = s.drop_last().filter(pred);
        assert forall|j: int| 0 <= j < f.len() implies f[j].0 < s.last().0 by {
            assert(f.contains(f[j]));
            s.drop_last().lemma_filter_contains_rev(pred, f[j]);
            let q = choose|q: int| 0 <= q < s.drop_last().len() && s.drop_last()[q] == f[j];
            assert(s[q] == f[j]);
        }
    }
}

/// A value written is read back: after writing `e` under `k`, the entry
/// under `k` is `e`, and no key is held twice.
pub proof fn law_cache_read_after_write<V>(s: Seq<(String, LruCacheEntry<V>)>, k: String, e: LruCacheEntry<V>)
    requires
        keys_distinct(s),
    ensures
        key_position(with_entry(s, k, e), k@) >= 0,
        with_entry(s, k, e)[key_position(with_entry(s, k, e), k@)] == (k, e),
        keys_distinct(with_entry(s, k, e)),
{
    lemma_key_position(s, k@);
    let s2 = with_entry(s, k, e);
    if key_position(s, k@) >= 0 {
        let p = key_position(s, k@);
        assert forall|a: int, b: int| 0 <= a < b < s2.len() implies s2[a].0@ != s2[b].0@ by {
            assert(s[a].0@ != s[b].0@);
        }
        lemma_position_unique(s2, k@, p);
    } else {
        assert forall|a: int, b: int| 0 <= a < b < s2.len() implies s2[a].0@ != s2[b].0@ by {
            if b < s.len() {
                assert(s[a].0@ != s[b].0@);
            }
        }
        lemma_position_unique(s2, k@, s.len() as int);
    }
}

} // verus!
