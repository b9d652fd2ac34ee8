//! The optimized semantic retrieval API: a flat vector index with a cache
//! of search results and a cache of embeddings, sized and timed by its
//! configuration.
//!
//! Similarity search and the averaging of search timings compute with
//! floating-point numbers and are done outside, on the index held here.

use vstd::prelude::*;
use crate::client::Client;
use crate::error::Error;
use crate::retrieval_cache::AdaptiveLruCache;
use crate::semantic_retrieval::{IndexStats, OptimizedIndexType, OptimizedRetrievalConfig, PerformanceMetrics, SearchResult};
use crate::vector_index::FlatVectorIndex;

verus! {

/// The dimensions of vectors of an index kind.
pub open spec fn dimensions_of(t: OptimizedIndexType) -> usize {
    match t {
        OptimizedIndexType::OptimizedFlat { dimensions } => dimensions,
        OptimizedIndexType::HNSW { dimensions, .. } => dimensions,
        OptimizedIndexType::LSH { dimensions, .. } => dimensions,
    }
}

/// A lifetime in whole seconds, in nanoseconds.
pub open spec fn ttl_nanos(ttl_seconds: Option<u64>) -> Option<u128> {
    match ttl_seconds {
        Some(s) => Some((s * 1_000_000_000) as u128),
        None => None,
    }
}

/// Performance metrics at zero, dated `now`.
pub open spec fn fresh_metrics(now: u128) -> PerformanceMetrics {
    PerformanceMetrics {
        total_searches: 0,
        avg_search_latency_ms: 0,
        p95_search_latency_ms: 0,
        total_indexing_ops: 0,
        avg_indexing_latency_ms: 0,
        search_cache_hit_ratio: 0,
        embedding_cache_hit_ratio: 0,
        memory_usage_bytes: 0,
        last_updated: now,
    }
}

/// Semantic retrieval over a vector index with result and embedding
/// caches.
#[derive(Debug)]
pub struct OptimizedSemanticRetrievalApi<'a> {
    /// The client.
    pub client: &'a Client,
    /// The vector index (a flat one, whatever kind is configured).
    pub index: FlatVectorIndex,
    /// Search results by query.
    pub cache: AdaptiveLruCache<Vec<SearchResult>>,
    /// Embeddings (binary32 bit patterns) by text.
    pub embedding_cache: AdaptiveLruCache<Vec<u32>>,
    /// Settings.
    pub config: OptimizedRetrievalConfig,
    /// Performance metrics.
    pub metrics: PerformanceMetrics,
}

impl<'a> OptimizedSemanticRetrievalApi<'a> {
    /// Well-formedness of the index and the caches.
    pub open spec fn wf(&self) -> bool {
        self.index.wf() && self.cache.wf() && self.embedding_cache.wf()
    }

    /// An API with the default settings, its metrics dated `now`.
    pub fn new(client: &'a Client, now: u128) -> (r: Self)
        ensures
            r.wf(),
            r.client == client,
            r.index.dimensions == 1536,
            r.index.vectors@.len() == 0,
            r.cache.capacity == 10000,
            r.embedding_cache.capacity == 5000,
            r.cache.ttl == Some(3_600_000_000_000u128),
            r.embedding_cache.ttl == Some(3_600_000_000_000u128),
    {
        Self::with_config(client, OptimizedRetrievalConfig::default_config(), now)
    }

    /// An API with `config`: a flat index of the configured dimensions, a
    /// result cache of the configured capacity and an embedding cache of
    /// half of it, both living the configured time when one is set; its
    /// metrics at zero, dated `now`.
    pub fn with_config(client: &'a Client, config: OptimizedRetrievalConfig, now: u128) -> (r: Self)
        ensures
            r.wf(),
            r.client == client,
            r.index.dimensions == dimensions_of(config.index_type),
            r.index.vectors@.len() == 0,
            r.index.stats.total_searches == 0,
            r.cache.capacity == config.cache_config.capacity,
            r.embedding_cache.capacity == config.cache_config.capacity / 2,
            r.cache.ttl == ttl_nanos(config.cache_config.ttl_seconds),
            r.embedding_cache.ttl == ttl_nanos(config.cache_config.ttl_seconds),
            r.cache.cache@.len() == 0 && r.embedding_cache.cache@.len() == 0,
            r.cache.access_order@.len() == 0 && r.embedding_cache.access_order@.len() == 0,
            r.cache.hits == 0 && r.cache.misses == 0,
            r.embedding_cache.hits == 0 && r.embedding_cache.misses == 0,
            r.config == config,
            r.metrics == fresh_metrics(now),
    {
        let dimensions = match config.index_type {
            OptimizedIndexType::OptimizedFlat { dimensions } => dimensions,
            OptimizedIndexType::HNSW { dimensions, .. } => dimensions,
            OptimizedIndexType::LSH { dimensions, .. } => dimensions,
        };
        let capacity = config.cache_config.capacity;
        let (cache, embedding_cache) = match config.cache_config.ttl_seconds {
            Some(s) => {
                let ttl = s as u128 * 1_000_000_000;
                (AdaptiveLruCache::with_ttl(capacity, ttl), AdaptiveLruCache::with_ttl(capacity / 2, ttl))
            },
            None => (AdaptiveLruCache::new(capacity), AdaptiveLruCache::new(capacity / 2)),
        };
        OptimizedSemanticRetrievalApi {
            client,
            index: FlatVectorIndex::new(dimensions),
            cache,
            embedding_cache,
            config,
            metrics: PerformanceMetrics::new_at(now),
        }
    }

    /// The performance metrics.
    pub fn get_metrics(&self) -> (r: PerformanceMetrics)
        ensures
            r == self.metrics,
    {
        self.metrics
    }

    /// Records an optimisation of the index finished at `now` that took
    /// `build_time_ms`.
    pub fn optimize_index(&mut self, now: u128, build_time_ms: u64) -> (r: Result<(), Error>)
        ensures
            r is Ok,
            final(self).index == (FlatVectorIndex {
                stats: IndexStats { last_optimized_at: Some(now), build_time_ms, ..old(self).index.stats },
                ..old(self).index
            }),
            final(self).cache == old(self).cache,
            final(self).embedding_cache == old(self).embedding_cache,
    {
        self.index.optimize_at(now, build_time_ms)
    }

    /// Empties both caches (see [`AdaptiveLruCache::clear`]).
    pub fn clear_caches(&mut self)
        requires
            old(self).wf(),
        ensures
            final(self).wf(),
            final(self).cache.cache@.len() == 0,
            final(self).cache.access_order@.len() == 0,
            final(self).cache.access_counter == 0,
            final(self).cache.hits == old(self).cache.hits,
            final(self).cache.misses == old(self).cache.misses,
            final(self).embedding_cache.cache@.len() == 0,
            final(self).embedding_cache.access_order@.len() == 0,
            final(self).embedding_cache.access_counter == 0,
            final(self).embedding_cache.hits == old(self).embedding_cache.hits,
            final(self).embedding_cache.misses == old(self).embedding_cache.misses,
            final(self).index == old(self).index,
    {
        self.cache.clear();
        self.embedding_cache.clear();
    }

    /// The statistics of the index.
    pub fn get_index_stats(&self) -> (r: Option<IndexStats>)
        ensures
            r == Some(self.index.stats),
    {
        Some(self.index.get_stats())
    }

    /// The counts of the result cache and of the embedding cache: see
    /// [`AdaptiveLruCache::counts`].
    pub fn get_cache_counts(&self) -> (r: ((u64, u64, usize, usize, u64), (u64, u64, usize, usize, u64)))
        ensures
            r.0 == (self.cache.hits, self.cache.misses, self.cache.size, self.cache.capacity, self.cache.memory_usage_bytes),
            r.1 == (self.embedding_cache.hits, self.embedding_cache.misses, self.embedding_cache.size,
                self.embedding_cache.capacity, self.embedding_cache.memory_usage_bytes),
    {
        (self.cache.counts(), self.embedding_cache.counts())
    }
}

} // verus!
