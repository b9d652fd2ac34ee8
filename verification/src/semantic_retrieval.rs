//! Settings and records of semantic retrieval: search results, index and
//! cache statistics, and the configuration of an optimized retrieval API.
//!
//! Scores are binary32 and other real values binary64 numbers, held as
//! their bit patterns; times count nanoseconds from the Unix epoch.

use vstd::prelude::*;

verus! {

/// A document found by a search.
#[derive(Debug)]
pub struct SearchResult {
    /// Document identifier.
    pub id: String,
    /// Relevance score (binary32 bit pattern).
    pub score: u32,
    /// Document content.
    pub content: String,
    /// Metadata pairs, each key at most once.
    pub metadata: Option<Vec<(String, String)>>,
}

/// A vector found by a similarity search.
#[derive(Debug)]
pub struct VectorSearchResult {
    /// Document identifier.
    pub id: String,
    /// Similarity score between 0 and 1 (binary32 bit pattern).
    pub score: u32,
    /// Distance from the query (binary32 bit pattern).
    pub distance: u32,
    /// Metadata pairs, each key at most once.
    pub metadata: Option<Vec<(String, String)>>,
}

/// Statistics of a vector index.
#[derive(Debug, Clone, Copy)]
pub struct IndexStats {
    /// Vectors in the index.
    pub vector_count: u64,
    /// Memory used, in bytes.
    pub memory_usage_bytes: u64,
    /// Average search time in milliseconds (binary64 bit pattern).
    pub avg_search_time_ms: u64,
    /// Searches performed.
    pub total_searches: u64,
    /// Build time in milliseconds.
    pub build_time_ms: u64,
    /// Time of the last optimisation.
    pub last_optimized_at: Option<u128>,
}

/// Statistics of a cache.
#[derive(Debug, Clone, Copy)]
pub struct CacheStats {
    /// Hits.
    pub hits: u64,
    /// Misses.
    pub misses: u64,
    /// Entries held.
    pub size: usize,
    /// Entries allowed.
    pub capacity: usize,
    /// Share of lookups that hit (binary64 bit pattern).
    pub hit_ratio: u64,
    /// Memory used, in bytes.
    pub memory_usage_bytes: u64,
}

/// Basic settings of semantic retrieval.
#[derive(Debug)]
pub struct SemanticRetrievalConfig {
    /// Endpoint of the retrieval API, if not the default one.
    pub endpoint: Option<String>,
    /// Request timeout, in seconds.
    pub timeout_seconds: u64,
    /// Most results returned.
    pub max_results: usize,
}

impl SemanticRetrievalConfig {
    /// The default: default endpoint, 30 s timeout, 10 results.
    pub fn default_config() -> (r: Self)
        ensures
            r.endpoint is None,
            r.timeout_seconds == 30,
            r.max_results == 10,
    {
        SemanticRetrievalConfig { endpoint: None, timeout_seconds: 30, max_results: 10 }
    }
}

impl Default for SemanticRetrievalConfig {
    /// See [`SemanticRetrievalConfig::default_config`].
    fn default() -> (r: Self)
        ensures
            r.endpoint is None,
            r.timeout_seconds == 30,
            r.max_results == 10,
    {
        SemanticRetrievalConfig::default_config()
    }
}

/// Kinds of vector index.
#[derive(Debug, Clone, Copy, PartialEq, Eq, Structural)]
pub enum OptimizedIndexType {
    /// Exhaustive flat index.
    OptimizedFlat {
        /// Vector dimensions.
        dimensions: usize,
    },
    /// Hierarchical navigable small world graph.
    HNSW {
        /// Vector dimensions.
        dimensions: usize,
        /// Most connections per node.
        max_connections: u32,
        /// Construction search width.
        ef_construction: u32,
    },
    /// Locality sensitive hashing.
    LSH {
        /// Vector dimensions.
        dimensions: usize,
        /// Hash tables.
        hash_tables: u32,
        /// Hash functions per table.
        hash_functions: u32,
    },
}

/// Strategies for filling a cache ahead of need.
#[derive(Debug, Clone, Copy, PartialEq, Eq, Structural)]
pub enum CacheWarmingStrategy {
    /// No warming.
    NoWarming,
    /// Preload the most common queries.
    CommonQueries,
    /// Preload by access patterns.
    AccessPatterns,
}

/// Cache settings.
#[derive(Debug, Clone, Copy, PartialEq, Eq)]
pub struct CacheConfig {
    /// Most entries.
    pub capacity: usize,
    /// Lifetime of entries, in seconds.
    pub ttl_seconds: Option<u64>,
    /// Whether the capacity adapts.
    pub adaptive_sizing: bool,
    /// Warming strategy.
    pub warming_strategy: CacheWarmingStrategy,
}

/// Search settings.
#[derive(Debug, Clone, Copy, PartialEq, Eq)]
pub struct SearchOptimizationConfig {
    /// Whether queries are preprocessed.
    pub enable_query_preprocessing: bool,
    /// Whether results are reranked.
    pub enable_reranking: bool,
    /// Whether searches run in parallel where possible.
    pub enable_parallel_search: bool,
    /// Longest search, in milliseconds.
    pub search_timeout_ms: u64,
    /// Whether queries are expanded.
    pub enable_query_expansion: bool,
}

/// Monitoring settings of retrieval.
#[derive(Debug, Clone, Copy, PartialEq, Eq)]
pub struct MonitoringConfig {
    /// Whether metrics are collected.
    pub enable_metrics: bool,
    /// Collection interval, in seconds.
    pub metrics_interval_seconds: u64,
    /// Whether detailed timings are kept.
    pub enable_detailed_timing: bool,
    /// Most metrics records kept.
    pub max_metrics_history: usize,
}

/// Settings of the optimized retrieval API.
#[derive(Debug)]
pub struct OptimizedRetrievalConfig {
    /// Basic settings.
    pub base: SemanticRetrievalConfig,
    /// Index kind.
    pub index_type: OptimizedIndexType,
    /// Cache settings.
    pub cache_config: CacheConfig,
    /// Search settings.
    pub search_config: SearchOptimizationConfig,
    /// Monitoring settings.
    pub monitoring_config: MonitoringConfig,
}

impl OptimizedRetrievalConfig {
    /// The default: basic defaults, a flat index of 1536 dimensions, a cache
    /// of 10000 entries living an hour with adaptive sizing and common-query
    /// warming, preprocessing, reranking and parallel search within 5 s
    /// without expansion, detailed metrics every minute keeping 1000 records.
    pub fn default_config() -> (r: Self)
        ensures
            r.base.endpoint is None,
            r.base.timeout_seconds == 30,
            r.base.max_results == 10,
            r.index_type == (OptimizedIndexType::OptimizedFlat { dimensions: 1536 }),
            r.cache_config == (CacheConfig {
                capacity: 10000,
                ttl_seconds: Some(3600),
                adaptive_sizing: true,
                warming_strategy: CacheWarmingStrategy::CommonQueries,
            }),
            r.search_config == (SearchOptimizationConfig {
                enable_query_preprocessing: true,
                enable_reranking: true,
                enable_parallel_search: true,
                search_timeout_ms: 5000,
                enable_query_expansion: false,
            }),
            r.monitoring_config == (MonitoringConfig {
                enable_metrics: true,
                metrics_interval_seconds: 60,
                enable_detailed_timing: true,
                max_metrics_history: 1000,
            }),
    {
        OptimizedRetrievalConfig {
            base: SemanticRetrievalConfig::default_config(),
            index_type: OptimizedIndexType::OptimizedFlat { dimensions: 1536 },
            cache_config: CacheConfig {
                capacity: 10000,
                ttl_seconds: Some(3600),
                adaptive_sizing: true,
                warming_strategy: CacheWarmingStrategy::CommonQueries,
            },
            search_config: SearchOptimizationConfig {
                enable_query_preprocessing: true,
                enable_reranking: true,
                enable_parallel_search: true,
                search_timeout_ms: 5000,
                enable_query_expansion: false,
            },
            monitoring_config: MonitoringConfig {
                enable_metrics: true,
                metrics_interval_seconds: 60,
                enable_detailed_timing: true,
                max_metrics_history: 1000,
            },
        }
    }
}

impl Default for OptimizedRetrievalConfig {
    /// See [`OptimizedRetrievalConfig::default_config`].
    fn default() -> (r: Self)
        ensures
            r.base.endpoint is None,
            r.base.timeout_seconds == 30,
            r.base.max_results == 10,
            r.index_type == (OptimizedIndexType::OptimizedFlat { dimensions: 1536 }),
            r.cache_config == (CacheConfig {
                capacity: 10000,
                ttl_seconds: Some(3600),
                adaptive_sizing: true,
                warming_strategy: CacheWarmingStrategy::CommonQueries,
            }),
            r.search_config == (SearchOptimizationConfig {
                enable_query_preprocessing: true,
                enable_reranking: true,
                enable_parallel_search: true,
                search_timeout_ms: 5000,
                enable_query_expansion: false,
            }),
            r.monitoring_config == (MonitoringConfig {
                enable_metrics: true,
                metrics_interval_seconds: 60,
                enable_detailed_timing: true,
                max_metrics_history: 1000,
            }),
    {
        OptimizedRetrievalConfig::default_config()
    }
}

/// Performance metrics of retrieval. Real values are binary64 bit patterns;
/// the update time counts nanoseconds from the Unix epoch.
#[derive(Debug, Clone, Copy)]
pub struct PerformanceMetrics {
    /// Searches performed.
    pub total_searches: u64,
    /// Average search latency in milliseconds.
    pub avg_search_latency_ms: u64,
    /// 95th percentile search latency in milliseconds.
    pub p95_search_latency_ms: u64,
    /// Indexing operations.
    pub total_indexing_ops: u64,
    /// Average indexing latency in milliseconds.
    pub avg_indexing_latency_ms: u64,
    /// Hit ratio of the result cache.
    pub search_cache_hit_ratio: u64,
    /// Hit ratio of the embedding cache.
    pub embedding_cache_hit_ratio: u64,
    /// Memory used, in bytes.
    pub memory_usage_bytes: u64,
    /// Last update.
    pub last_updated: u128,
}

impl PerformanceMetrics {
    /// Metrics with every figure at zero, updated at `now`.
    pub fn new_at(now: u128) -> (r: Self)
        ensures
            r == (PerformanceMetrics {
                total_searches: 0,
                avg_search_latency_ms: 0,
                p95_search_latency_ms: 0,
                total_indexing_ops: 0,
                avg_indexing_latency_ms: 0,
                search_cache_hit_ratio: 0,
                embedding_cache_hit_ratio: 0,
                memory_usage_bytes: 0,
                last_updated: now,
            }),
    {
        PerformanceMetrics {
            total_searches: 0,
            avg_search_latency_ms: 0,
            p95_search_latency_ms: 0,
            total_indexing_ops: 0,
            avg_indexing_latency_ms: 0,
            search_cache_hit_ratio: 0,
            embedding_cache_hit_ratio: 0,
            memory_usage_bytes: 0,
            last_updated: now,
        }
    }
}

} // verus!
