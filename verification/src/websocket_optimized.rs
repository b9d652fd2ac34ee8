//! WebSocket streaming with a pool of reusable connections.
//!
//! Idle connections wait in the pool, oldest first for each endpoint; a
//! request for an endpoint reuses its oldest idle connection or opens a new
//! one, and a healthy connection comes back to the pool while the endpoint
//! has room. Times count nanoseconds on a monotonic clock; real-valued
//! measurements are binary64 bit patterns (see [`crate::float_bits`]).

use vstd::prelude::*;
use crate::client::Client;
use crate::error::Error;
use crate::text::{owned, concat2, text_eq};
use crate::websocket_streaming::{WebSocketConfig, WebSocketConnectionState, default_websocket_config};

verus! {

/// Nanoseconds in a second.
pub const NANOS_PER_SECOND: u128 = 1_000_000_000;

/// Encodings of messages on the wire.
#[derive(Debug, Clone, Copy)]
pub enum MessageSerializerType {
    /// Binary JSON.
    BinaryJson {
        /// Whether messages are compressed.
        enable_compression: bool,
        /// Compression level.
        compression_level: u8,
    },
    /// MessagePack.
    MessagePack {
        /// Whether messages are compressed.
        enable_compression: bool,
    },
    /// Plain JSON.
    Json,
}

/// The identifier of an encoding.
pub open spec fn format_id_of(s: MessageSerializerType) -> Seq<char> {
    match s {
        MessageSerializerType::BinaryJson { .. } => "binary_json"@,
        MessageSerializerType::MessagePack { .. } => "messagepack"@,
        MessageSerializerType::Json => "json"@,
    }
}

impl MessageSerializerType {
    /// The identifier of the encoding.
    pub fn format_id(&self) -> (r: &'static str)
        ensures
            r@ == format_id_of(*self),
    {
        match self {
            MessageSerializerType::BinaryJson { .. } => {
                proof { reveal_strlit("binary_json"); }
                "binary_json"
            },
            MessageSerializerType::MessagePack { .. } => {
                proof { reveal_strlit("messagepack"); }
                "messagepack"
            },
            MessageSerializerType::Json => {
                proof { reveal_strlit("json"); }
                "json"
            },
        }
    }

    /// Whether the encoding compresses messages.
    pub fn supports_compression(&self) -> (r: bool)
        ensures
            r == match *self {
                MessageSerializerType::BinaryJson { enable_compression, .. } => enable_compression,
                MessageSerializerType::MessagePack { enable_compression } => enable_compression,
                MessageSerializerType::Json => false,
            },
    {
        match self {
            MessageSerializerType::BinaryJson { enable_compression, .. } => *enable_compression,
            MessageSerializerType::MessagePack { enable_compression } => *enable_compression,
            MessageSerializerType::Json => false,
        }
    }
}

/// Statistics of a connection pool. The ratio and the age are binary64 bit
/// patterns.
#[derive(Debug, Clone, Copy)]
pub struct ConnectionPoolStats {
    /// Connections in the pool.
    pub total_connections: usize,
    /// Connections in use.
    pub active_connections: usize,
    /// Idle connections ready for reuse.
    pub idle_connections: usize,
    /// Connections opened.
    pub connections_created: u64,
    /// Connections reused.
    pub connections_reused: u64,
    /// Share of requests served by reuse.
    pub hit_ratio: u64,
    /// Average age of pooled connections, in seconds.
    pub avg_connection_age_seconds: u64,
}

/// Settings of a connection pool.
#[derive(Debug, Clone, Copy, PartialEq, Eq)]
pub struct ConnectionPoolConfig {
    /// Most idle connections kept per endpoint.
    pub max_connections_per_endpoint: usize,
    /// Most connections in total.
    pub max_total_connections: usize,
    /// Idle time after which a connection is dropped, in seconds.
    pub max_idle_time_seconds: u64,
    /// Interval of the cleanup task, in seconds.
    pub cleanup_interval_seconds: u64,
    /// Whether connections are opened ahead of need.
    pub enable_connection_warming: bool,
    /// Fewest connections kept per endpoint.
    pub min_connections_per_endpoint: usize,
}

/// Message encoding choices.
#[derive(Debug, Clone, Copy, PartialEq, Eq, Structural)]
pub enum SerializationFormat {
    /// JSON.
    Json,
    /// Binary JSON.
    BinaryJson,
    /// MessagePack.
    MessagePack,
    /// Protocol Buffers.
    ProtocolBuffers,
    /// A custom binary format.
    CustomBinary,
}

/// Settings of message handling.
#[derive(Debug, Clone, Copy, PartialEq, Eq)]
pub struct MessageOptimizationConfig {
    /// Preferred encoding.
    pub serialization_format: SerializationFormat,
    /// Whether messages are compressed.
    pub enable_compression: bool,
    /// Compression level, 1 to 9.
    pub compression_level: u8,
    /// Whether messages are batched.
    pub enable_batching: bool,
    /// Most messages in a batch.
    pub max_batch_size: usize,
    /// Longest delay of a batch, in milliseconds.
    pub max_batch_delay_ms: u64,
}

/// Settings of connection monitoring.
#[derive(Debug, Clone, Copy, PartialEq, Eq)]
pub struct WebSocketMonitoringConfig {
    /// Whether detailed metrics are collected.
    pub enable_metrics: bool,
    /// Collection interval, in seconds.
    pub metrics_interval_seconds: u64,
    /// Whether connection life cycles are logged.
    pub enable_lifecycle_logging: bool,
    /// Whether message flow is traced.
    pub enable_message_tracing: bool,
    /// Most metrics records kept.
    pub max_metrics_history: usize,
}

/// Settings of resource management. Thresholds are binary64 bit patterns.
#[derive(Debug, Clone, Copy, PartialEq, Eq)]
pub struct ResourceManagementConfig {
    /// Most concurrent connections.
    pub max_concurrent_connections: usize,
    /// Memory limit in bytes.
    pub memory_limit_bytes: u64,
    /// Whether resources scale automatically.
    pub enable_auto_scaling: bool,
    /// CPU use that triggers scaling, between 0 and 1.
    pub cpu_threshold: u64,
    /// Memory use that triggers scaling, between 0 and 1.
    pub memory_threshold: u64,
}

/// Bit pattern of the binary64 number 0.8.
pub const F64_FOUR_FIFTHS: u64 = 0x3FE9_9999_9999_999A;

/// Settings of a pooled WebSocket connection.
#[derive(Debug, Clone, Copy, PartialEq, Eq)]
pub struct OptimizedWebSocketConfig {
    /// Base connection settings.
    pub base: WebSocketConfig,
    /// Pool settings.
    pub pool_config: ConnectionPoolConfig,
    /// Message settings.
    pub message_config: MessageOptimizationConfig,
    /// Monitoring settings.
    pub monitoring_config: WebSocketMonitoringConfig,
    /// Resource settings.
    pub resource_config: ResourceManagementConfig,
}

/// The default settings: 10 idle connections per endpoint and 100 in all,
/// 5 minutes of idleness, cleanup every minute, warming with 2 connections;
/// compressed binary JSON at level 6 in batches of 10 within 100 ms; metrics
/// every minute with life-cycle logging and no tracing, 1000 records; 1000
/// connections, 512 MiB, automatic scaling at 80% CPU and memory.
pub open spec fn default_optimized_config() -> OptimizedWebSocketConfig {
    OptimizedWebSocketConfig {
        base: default_websocket_config(),
        pool_config: ConnectionPoolConfig {
            max_connections_per_endpoint: 10,
            max_total_connections: 100,
            max_idle_time_seconds: 300,
            cleanup_interval_seconds: 60,
            enable_connection_warming: true,
            min_connections_per_endpoint: 2,
        },
        message_config: MessageOptimizationConfig {
            serialization_format: SerializationFormat::BinaryJson,
            enable_compression: true,
            compression_level: 6,
            enable_batching: true,
            max_batch_size: 10,
            max_batch_delay_ms: 100,
        },
        monitoring_config: WebSocketMonitoringConfig {
            enable_metrics: true,
            metrics_interval_seconds: 60,
            enable_lifecycle_logging: true,
            enable_message_tracing: false,
            max_metrics_history: 1000,
        },
        resource_config: ResourceManagementConfig {
            max_concurrent_connections: 1000,
            memory_limit_bytes: 536870912,
            enable_auto_scaling: true,
            cpu_threshold: F64_FOUR_FIFTHS,
            memory_threshold: F64_FOUR_FIFTHS,
        },
    }
}

impl OptimizedWebSocketConfig {
    /// The default settings.
    pub fn default_config() -> (r: Self)
        ensures
            r == default_optimized_config(),
    {
        OptimizedWebSocketConfig {
            base: WebSocketConfig::default_config(),
            pool_config: ConnectionPoolConfig {
                max_connections_per_endpoint: 10,
                max_total_connections: 100,
                max_idle_time_seconds: 300,
                cleanup_interval_seconds: 60,
                enable_connection_warming: true,
                min_connections_per_endpoint: 2,
            },
            message_config: MessageOptimizationConfig {
                serialization_format: SerializationFormat::BinaryJson,
                enable_compression: true,
                compression_level: 6,
                enable_batching: true,
                max_batch_size: 10,
                max_batch_delay_ms: 100,
            },
            monitoring_config: WebSocketMonitoringConfig {
                enable_metrics: true,
                metrics_interval_seconds: 60,
                enable_lifecycle_logging: true,
                enable_message_tracing: false,
                max_metrics_history: 1000,
            },
            resource_config: ResourceManagementConfig {
                max_concurrent_connections: 1000,
                memory_limit_bytes: 536870912,
                enable_auto_scaling: true,
                cpu_threshold: F64_FOUR_FIFTHS,
                memory_threshold: F64_FOUR_FIFTHS,
            },
        }
    }
}

impl Default for OptimizedWebSocketConfig {
    /// See [`OptimizedWebSocketConfig::default_config`].
    fn default() -> (r: Self)
        ensures
            r == default_optimized_config(),
    {
        OptimizedWebSocketConfig::default_config()
    }
}

/// The encoding that the message settings choose: binary JSON and
/// MessagePack carry the compression settings; every other format is plain
/// JSON.
pub open spec fn serializer_for(m: MessageOptimizationConfig) -> MessageSerializerType {
    match m.serialization_format {
        SerializationFormat::BinaryJson => MessageSerializerType::BinaryJson {
            enable_compression: m.enable_compression,
            compression_level: m.compression_level,
        },
        SerializationFormat::MessagePack => MessageSerializerType::MessagePack { enable_compression: m.enable_compression },
        _ => MessageSerializerType::Json,
    }
}

/// Metrics of one connection. Real values are binary64 bit patterns.
#[derive(Debug, Clone)]
pub struct ConnectionMetrics {
    /// Messages sent.
    pub messages_sent: u64,
    /// Messages received.
    pub messages_received: u64,
    /// Bytes sent.
    pub bytes_sent: u64,
    /// Bytes received.
    pub bytes_received: u64,
    /// Average latency in milliseconds.
    pub avg_latency_ms: u64,
    /// Uptime in seconds.
    pub uptime_seconds: u64,
    /// Reconnections.
    pub reconnection_count: u32,
    /// Last error, if any.
    pub last_error: Option<String>,
    /// Messages per second.
    pub throughput_msg_per_sec: u64,
    /// Bytes per second.
    pub bandwidth_bytes_per_sec: u64,
}

/// Whether every counter of the metrics is zero and no error is recorded.
pub open spec fn zero_connection_metrics(m: ConnectionMetrics) -> bool {
    &&& m.messages_sent == 0
    &&& m.messages_received == 0
    &&& m.bytes_sent == 0
    &&& m.bytes_received == 0
    &&& m.avg_latency_ms == 0
    &&& m.uptime_seconds == 0
    &&& m.reconnection_count == 0
    &&& m.last_error is None
    &&& m.throughput_msg_per_sec == 0
    &&& m.bandwidth_bytes_per_sec == 0
}

/// Health monitoring of a connection. The heartbeat time and the interval
/// are in nanoseconds.
#[derive(Debug, Clone, Copy)]
pub struct ConnectionHealthChecker {
    /// Time of the last heartbeat.
    pub last_heartbeat: Option<u128>,
    /// Interval of health checks.
    pub check_interval: u128,
    /// Consecutive failed checks.
    pub failed_checks: u64,
    /// Failed checks allowed.
    pub max_failed_checks: u64,
    /// Whether the connection is healthy.
    pub is_healthy: bool,
}

/// A pooled WebSocket connection.
#[derive(Debug)]
pub struct OptimizedWebSocketConnection {
    /// Identifier.
    pub id: String,
    /// Endpoint URL.
    pub endpoint: String,
    /// Connection state.
    pub state: WebSocketConnectionState,
    /// Settings.
    pub config: OptimizedWebSocketConfig,
    /// Message encoding.
    pub serializer: MessageSerializerType,
    /// Metrics.
    pub metrics: ConnectionMetrics,
    /// Health monitoring.
    pub health_checker: ConnectionHealthChecker,
}

/// A random version 4 UUID as `uuid` writes it: 36 characters, lowercase
/// hexadecimal digits in groups of 8, 4, 4, 4 and 12 joined by hyphens.
/// Calls `uuid::Uuid::new_v4` and its `Display`; the digits depend on chance
/// and nothing is claimed of them.
#[verifier::external_body]
fn random_uuid_text() -> (r: String)
    ensures
        r@.len() == 36,
        r@[8] == '-',
        r@[13] == '-',
        r@[18] == '-',
        r@[23] == '-',
{
    uuid::Uuid::new_v4().to_string()
}

impl OptimizedWebSocketConnection {
    /// A new connection to `endpoint`, connecting, with a random identifier
    /// `ws_opt_<uuid>`, the encoding that the settings choose, zero metrics,
    /// and a healthy checker that saw a heartbeat at `now`, checks every 30 s
    /// and allows 3 failures.
    pub fn new(endpoint: &str, config: OptimizedWebSocketConfig, now: u128) -> (r: Result<Self, Error>)
        ensures
            r matches Ok(c) && {
                &&& c.id@.len() == 43
                &&& c.id@.subrange(0, 7) == "ws_opt_"@
                &&& c.endpoint@ == endpoint@
                &&& c.state == WebSocketConnectionState::Connecting
                &&& c.config == config
                &&& c.serializer == serializer_for(config.message_config)
                &&& zero_connection_metrics(c.metrics)
                &&& c.health_checker == (ConnectionHealthChecker {
                    last_heartbeat: Some(now),
                    check_interval: 30_000_000_000,
                    failed_checks: 0,
                    max_failed_checks: 3,
                    is_healthy: true,
                })
            },
    {
        let uuid = random_uuid_text();
        proof { reveal_strlit("ws_opt_"); }
        let id = concat2("ws_opt_", uuid.as_str());
        proof { assert(id@.subrange(0, 7) =~= "ws_opt_"@); }
        let serializer = match config.message_config.serialization_format {
            SerializationFormat::BinaryJson => MessageSerializerType::BinaryJson {
                enable_compression: config.message_config.enable_compression,
                compression_level: config.message_config.compression_level,
            },
            SerializationFormat::MessagePack => MessageSerializerType::MessagePack {
                enable_compression: config.message_config.enable_compression,
            },
            _ => MessageSerializerType::Json,
        };
        Ok(OptimizedWebSocketConnection {
            id,
            endpoint: owned(endpoint),
            state: WebSocketConnectionState::Connecting,
            config,
            serializer,
            metrics: ConnectionMetrics {
                messages_sent: 0,
                messages_received: 0,
                bytes_sent: 0,
                bytes_received: 0,
                avg_latency_ms: 0,
                uptime_seconds: 0,
                reconnection_count: 0,
                last_error: None,
                throughput_msg_per_sec: 0,
                bandwidth_bytes_per_sec: 0,
            },
            health_checker: ConnectionHealthChecker {
                last_heartbeat: Some(now),
                check_interval: 30 * NANOS_PER_SECOND,
                failed_checks: 0,
                max_failed_checks: 3,
                is_healthy: true,
            },
        })
    }

    /// Sends an encoded message: the message and its bytes are counted, and
    /// the send is reported as not implemented.
    pub fn send_serialized(&mut self, serialized: &Vec<u8>) -> (r: Result<(), Error>)
        requires
            old(self).metrics.messages_sent < u64::MAX,
            old(self).metrics.bytes_sent + serialized@.len() <= u64::MAX,
        ensures
            final(self).metrics.messages_sent == old(self).metrics.messages_sent + 1,
            final(self).metrics.bytes_sent == old(self).metrics.bytes_sent + serialized@.len(),
            final(self).metrics.messages_received == old(self).metrics.messages_received,
            final(self).id == old(self).id,
            final(self).endpoint == old(self).endpoint,
            final(self).state == old(self).state,
            final(self).health_checker == old(self).health_checker,
            r matches Err(Error::NotImplemented(m)) && m@ == "WebSocket send_message not yet implemented"@,
    {
        self.metrics.messages_sent = self.metrics.messages_sent + 1;
        self.metrics.bytes_sent = self.metrics.bytes_sent + serialized.len() as u64;
        proof { reveal_strlit("WebSocket send_message not yet implemented"); }
        Err(Error::NotImplemented(owned("WebSocket send_message not yet implemented")))
    }

    /// The metrics of the connection.
    pub fn get_metrics(&self) -> (r: &ConnectionMetrics)
        ensures
            r == &self.metrics,
    {
        &self.metrics
    }
}

/// An idle connection waiting in a pool. Times are in nanoseconds.
#[derive(Debug)]
pub struct PooledConnection {
    /// The connection.
    pub connection: OptimizedWebSocketConnection,
    /// When it was last used.
    pub last_used: u128,
    /// When it entered the pool.
    pub created_at: u128,
    /// How often it was used.
    pub usage_count: u64,
}

/// The endpoint of a pooled connection.
pub open spec fn endpoint_of(p: PooledConnection) -> Seq<char> {
    p.connection.endpoint@
}

/// The index of the oldest idle connection for `ep`, if any.
pub open spec fn first_for(s: Seq<PooledConnection>, ep: Seq<char>) -> Option<int>
    decreases s.len(),
{
    if s.len() == 0 {
        None
    } else if endpoint_of(s[0]) == ep {
        Some(0)
    } else {
        match first_for(s.drop_first(), ep) {
            Some(i) => Some(i + 1),
            None => None,
        }
    }
}

/// How many idle connections wait for `ep`.
pub open spec fn count_for(s: Seq<PooledConnection>, ep: Seq<char>) -> nat
    decreases s.len(),
{
    if s.len() == 0 {
        0
    } else {
        count_for(s.drop_last(), ep) + if endpoint_of(s.last()) == ep { 1nat } else { 0nat }
    }
}

/// Whether a pooled connection has been idle for less than `max_idle` at
/// `now`.
pub open spec fn still_fresh(p: PooledConnection, now: u128, max_idle: int) -> bool {
    (if now >= p.last_used { now - p.last_used } else { 0 }) < max_idle
}

/// The pooled connections idle for less than `max_idle` at `now`, in order.
pub open spec fn fresh_part(s: Seq<PooledConnection>, now: u128, max_idle: int) -> Seq<PooledConnection> {
    s.filter(fresh_pred(now, max_idle))
}

/// [`still_fresh`] as a predicate.
pub open spec fn fresh_pred(now: u128, max_idle: int) -> spec_fn(PooledConnection) -> bool {
    |p: PooledConnection| still_fresh(p, now, max_idle)
}

proof fn lemma_first_for_found(s: Seq<PooledConnection>, ep: Seq<char>, i: int)
    requires
        0 <= i < s.len(),
        endpoint_of(s[i]) == ep,
        forall|j: int| 0 <= j < i ==> endpoint_of(#[trigger] s[j]) != ep,
    ensures
        first_for(s, ep) == Some(i),
    decreases i,
{
    if i > 0 {
        lemma_first_for_found(s.drop_first(), ep, i - 1);
    }
}

proof fn lemma_first_for_absent(s: Seq<PooledConnection>, ep: Seq<char>)
    requires
        forall|j: int| 0 <= j < s.len() ==> endpoint_of(#[trigger] s[j]) != ep,
    ensures
        first_for(s, ep) is None,
    decreases s.len(),
{
    if s.len() > 0 {
        lemma_first_for_absent(s.drop_first(), ep);
    }
}

/// A connection pool.
#[derive(Debug)]
pub struct OptimizedConnectionPool {
    /// Idle connections, oldest first for each endpoint.
    pub pooled: Vec<PooledConnection>,
    /// Settings.
    pub config: ConnectionPoolConfig,
    /// Connections in use (wrapping counter).
    pub active_count: usize,
    /// Connections opened (wrapping counter).
    pub created_count: u64,
    /// Connections reused (wrapping counter).
    pub reused_count: u64,
    /// Whether the cleanup task runs.
    pub cleanup_running: bool,
}

/// Counter increment with wrap-around.
pub open spec fn wrap_inc_u64(x: u64) -> u64 {
    if x == u64::MAX { 0 } else { (x + 1) as u64 }
}

/// Counter increment with wrap-around.
pub open spec fn wrap_inc_usize(x: usize) -> usize {
    if x == usize::MAX { 0 } else { (x + 1) as usize }
}

/// Counter decrement with wrap-around.
pub open spec fn wrap_dec_usize(x: usize) -> usize {
    if x == 0 { usize::MAX } else { (x - 1) as usize }
}

impl OptimizedConnectionPool {
    /// An empty pool with the given settings.
    pub fn new(config: ConnectionPoolConfig) -> (r: Self)
        ensures
            r.pooled@.len() == 0,
            r.config == config,
            r.active_count == 0,
            r.created_count == 0,
            r.reused_count == 0,
            !r.cleanup_running,
    {
        OptimizedConnectionPool {
            pooled: Vec::new(),
            config,
            active_count: 0,
            created_count: 0,
            reused_count: 0,
            cleanup_running: false,
        }
    }

    /// Marks the cleanup task as running; false when it already ran.
    pub fn claim_cleanup_task(&mut self) -> (r: bool)
        ensures
            r == !old(self).cleanup_running,
            final(self).cleanup_running,
            final(self).pooled@ == old(self).pooled@,
    {
        let was_running = self.cleanup_running;
        self.cleanup_running = true;
        !was_running
    }

    /// A connection for `endpoint`: the oldest idle one for it is taken out
    /// of the pool and counted as reused; without one a new connection with
    /// the default settings is opened and counted as created. A pool that
    /// allows no connection at all refuses every request.
    pub fn get_connection(&mut self, endpoint: &str, now: u128) -> (r: Result<OptimizedWebSocketConnection, Error>)
        ensures
            old(self).config.max_total_connections == 0 ==> {
                &&& r matches Err(Error::ServerError(m)) && m@ == "Connection pool exhausted"@
                &&& final(self).pooled@ == old(self).pooled@
                &&& final(self).active_count == old(self).active_count
            },
            old(self).config.max_total_connections > 0 ==> match first_for(old(self).pooled@, endpoint@) {
                Some(i) => {
                    &&& r matches Ok(c) && c == old(self).pooled@[i].connection
                    &&& final(self).pooled@ == old(self).pooled@.remove(i)
                    &&& final(self).reused_count == wrap_inc_u64(old(self).reused_count)
                    &&& final(self).created_count == old(self).created_count
                    &&& final(self).active_count == wrap_inc_usize(old(self).active_count)
                },
                None => {
                    &&& r matches Ok(c) && c.endpoint@ == endpoint@ && c.config == default_optimized_config()
                        && c.state == WebSocketConnectionState::Connecting
                    &&& final(self).pooled@ == old(self).pooled@
                    &&& final(self).created_count == wrap_inc_u64(old(self).created_count)
                    &&& final(self).reused_count == old(self).reused_count
                    &&& final(self).active_count == wrap_inc_usize(old(self).active_count)
                },
            },
            final(self).config == old(self).config,
            final(self).cleanup_running == old(self).cleanup_running,
    {
        if self.config.max_total_connections == 0 {
            proof { reveal_strlit("Connection pool exhausted"); }
            return Err(Error::ServerError(owned("Connection pool exhausted")));
        }
        let ghost s0 = *self;
        let mut i: usize = 0;
        while i < self.pooled.len()
            invariant
                *self == s0,
                s0 == *old(self),
                s0.config.max_total_connections > 0,
                i <= self.pooled@.len(),
                forall|j: int| 0 <= j < i ==> endpoint_of(#[trigger] self.pooled@[j]) != endpoint@,
            decreases self.pooled@.len() - i,
        {
            if text_eq(self.pooled[i].connection.endpoint.as_str(), endpoint) {
                proof { lemma_first_for_found(self.pooled@, endpoint@, i as int); }
                let pooled = self.pooled.remove(i);
                self.reused_count = self.reused_count.wrapping_add(1);
                self.active_count = self.active_count.wrapping_add(1);
                return Ok(pooled.connection);
            }
            i = i + 1;
        }
        proof { lemma_first_for_absent(self.pooled@, endpoint@); }
        let connection = match OptimizedWebSocketConnection::new(endpoint, OptimizedWebSocketConfig::default_config(), now) {
            Ok(c) => c,
            Err(e) => { return Err(e); },
        };
        self.created_count = self.created_count.wrapping_add(1);
        self.active_count = self.active_count.wrapping_add(1);
        Ok(connection)
    }

    /// How many idle connections wait for `endpoint`.
    pub fn idle_for(&self, endpoint: &str) -> (r: usize)
        ensures
            r == count_for(self.pooled@, endpoint@),
    {
        let mut n: usize = 0;
        let mut i: usize = 0;
        while i < self.pooled.len()
            invariant
                i <= self.pooled@.len(),
                n == count_for(self.pooled@.take(i as int), endpoint@),
                n <= i,
            decreases self.pooled@.len() - i,
        {
            proof {
                assert(self.pooled@.take(i + 1).drop_last() =~= self.pooled@.take(i as int));
            }
            if text_eq(self.pooled[i].connection.endpoint.as_str(), endpoint) {
                n = n + 1;
            }
            i = i + 1;
        }
        proof { assert(self.pooled@.take(self.pooled@.len() as int) =~= self.pooled@); }
        n
    }

    /// Takes a connection back: it stops counting as in use; a healthy one
    /// waits in the pool as the newest for its endpoint, unless the endpoint
    /// already has its maximum of idle connections; others are dropped.
    pub fn return_connection(&mut self, connection: OptimizedWebSocketConnection, now: u128) -> (r: Result<(), Error>)
        ensures
            r is Ok,
            final(self).active_count == wrap_dec_usize(old(self).active_count),
            (connection.health_checker.is_healthy
                && count_for(old(self).pooled@, connection.endpoint@) < old(self).config.max_connections_per_endpoint)
                ==> final(self).pooled@ == old(self).pooled@.push(PooledConnection {
                    connection,
                    last_used: now,
                    created_at: now,
                    usage_count: 1,
                }),
            !(connection.health_checker.is_healthy
                && count_for(old(self).pooled@, connection.endpoint@) < old(self).config.max_connections_per_endpoint)
                ==> final(self).pooled@ == old(self).pooled@,
            final(self).config == old(self).config,
            final(self).created_count == old(self).created_count,
            final(self).reused_count == old(self).reused_count,
            final(self).cleanup_running == old(self).cleanup_running,
    {
        self.active_count = self.active_count.wrapping_sub(1);
        if !connection.health_checker.is_healthy {
            return Ok(());
        }
        let waiting = self.idle_for(connection.endpoint.as_str());
        if waiting < self.config.max_connections_per_endpoint {
            self.pooled.push(PooledConnection { connection, last_used: now, created_at: now, usage_count: 1 });
        }
        Ok(())
    }

    /// Drops the connections idle for at least the maximum idle time at
    /// `now`, keeping the order of the others; returns how many went.
    pub fn cleanup(&mut self, now: u128) -> (r: Result<usize, Error>)
        ensures
            final(self).pooled@ == fresh_part(old(self).pooled@, now, old(self).config.max_idle_time_seconds * NANOS_PER_SECOND),
            r matches Ok(n) && n + final(self).pooled@.len() == old(self).pooled@.len(),
            final(self).config == old(self).config,
            final(self).active_count == old(self).active_count,
            final(self).created_count == old(self).created_count,
            final(self).reused_count == old(self).reused_count,
            final(self).cleanup_running == old(self).cleanup_running,
    {
        let max_idle: u128 = self.config.max_idle_time_seconds as u128 * NANOS_PER_SECOND;
        let ghost start = self.pooled@;
        let mut kept: Vec<PooledConnection> = Vec::new();
        let mut old_pool: Vec<PooledConnection> = Vec::new();
        std::mem::swap(&mut old_pool, &mut self.pooled);
        let initial = old_pool.len();
        let mut removed: usize = 0;
        let mut rest = old_pool;
        let ghost mut taken: int = 0;
        proof {
            reveal(Seq::filter);
            assert(fresh_part(start.take(0), now, max_idle as int) =~= Seq::<PooledConnection>::empty());
        }
        while rest.len() > 0
            invariant
                0 <= taken <= start.len(),
                rest@ == start.skip(taken),
                kept@ == fresh_part(start.take(taken), now, max_idle as int),
                removed + kept@.len() == taken,
                initial == start.len(),
            decreases rest@.len(),
        {
            let p = rest.remove(0);
            proof {
                assert(start.take(taken + 1) =~= start.take(taken).push(p));
                start.take(taken).lemma_filter_push(p, fresh_pred(now, max_idle as int));
                assert(start.skip(taken).remove(0) =~= start.skip(taken + 1));
            }
            let idle = if now >= p.last_used { now - p.last_used } else { 0 };
            if idle < max_idle {
                kept.push(p);
            } else {
                removed = removed + 1;
            }
            proof { taken = taken + 1; }
        }
        proof { assert(start.take(taken) =~= start); }
        self.pooled = kept;
        Ok(removed)
    }

    /// Connections in use, opened and reused, as counted.
    pub fn counts(&self) -> (r: (usize, u64, u64))
        ensures
            r == (self.active_count, self.created_count, self.reused_count),
    {
        (self.active_count, self.created_count, self.reused_count)
    }
}

/// Idle connections for an endpoint are reused oldest first: returning a
/// connection does not change which one the next request for any endpoint
/// receives while older ones wait, and a connection returned to an endpoint
/// without idle connections is the one its next request receives.
pub proof fn law_pool_reuses_oldest_first(s: Seq<PooledConnection>, p: PooledConnection, ep: Seq<char>)
    ensures
        first_for(s, ep) matches Some(i) ==> first_for(s.push(p), ep) == Some(i),
        first_for(s, ep) is None && endpoint_of(p) == ep ==> first_for(s.push(p), ep) == Some(s.len() as int),
    decreases s.len(),
{
    if s.len() > 0 {
        law_pool_reuses_oldest_first(s.drop_first(), p, ep);
        assert(s.push(p).drop_first() =~= s.drop_first().push(p));
    }
}

/// After cleanup every idle connection is fresh, and the count returned and
/// the connections kept add up to the connections there were.
pub proof fn law_cleanup_keeps_only_fresh(s: Seq<PooledConnection>, now: u128, max_idle: int)
    ensures
        forall|i: int| 0 <= i < fresh_part(s, now, max_idle).len() ==> still_fresh(#[trigger] fresh_part(s, now, max_idle)[i], now, max_idle),
        fresh_part(s, now, max_idle).len() <= s.len(),
{
    broadcast use vstd::seq_lib::group_filter_ensures;
    s.lemma_filter_len(fresh_pred(now, max_idle));
}

/// Metrics of a streaming API. Real values are binary64 bit patterns.
#[derive(Debug, Clone, Copy, PartialEq, Eq)]
pub struct StreamingMetrics {
    /// Sessions created.
    pub total_sessions: u64,
    /// Sessions active.
    pub active_sessions: u64,
    /// Average session duration in seconds.
    pub avg_session_duration_seconds: u64,
    /// Messages streamed.
    pub total_messages_streamed: u64,
    /// Messages per second.
    pub avg_throughput_msg_per_sec: u64,
    /// Bytes transferred.
    pub total_bytes_transferred: u64,
    /// Share of connections served by reuse.
    pub pool_hit_ratio: u64,
    /// Errors per session.
    pub error_rate: u64,
}

/// Metrics with everything at zero.
pub open spec fn zero_streaming_metrics() -> StreamingMetrics {
    StreamingMetrics {
        total_sessions: 0,
        active_sessions: 0,
        avg_session_duration_seconds: 0,
        total_messages_streamed: 0,
        avg_throughput_msg_per_sec: 0,
        total_bytes_transferred: 0,
        pool_hit_ratio: 0,
        error_rate: 0,
    }
}

/// Streaming over pooled WebSocket connections.
#[derive(Debug)]
pub struct OptimizedWebSocketStreamingApi<'a> {
    /// The client.
    pub client: &'a Client,
    /// The connection pool.
    pub pool: OptimizedConnectionPool,
    /// Settings.
    pub config: OptimizedWebSocketConfig,
    /// Metrics.
    pub metrics: StreamingMetrics,
}

impl<'a> OptimizedWebSocketStreamingApi<'a> {
    /// A streaming API with the default settings.
    pub fn new(client: &'a Client) -> (r: Self)
        ensures
            r.client == client,
            r.config == default_optimized_config(),
            r.pool.config == default_optimized_config().pool_config,
            r.pool.pooled@.len() == 0,
            r.metrics == zero_streaming_metrics(),
    {
        Self::with_config(client, OptimizedWebSocketConfig::default_config())
    }

    /// A streaming API with the given settings and an empty pool.
    pub fn with_config(client: &'a Client, config: OptimizedWebSocketConfig) -> (r: Self)
        ensures
            r.client == client,
            r.config == config,
            r.pool.config == config.pool_config,
            r.pool.pooled@.len() == 0,
            r.pool.active_count == 0,
            r.metrics == zero_streaming_metrics(),
    {
        OptimizedWebSocketStreamingApi {
            client,
            pool: OptimizedConnectionPool::new(config.pool_config),
            config,
            metrics: StreamingMetrics {
                total_sessions: 0,
                active_sessions: 0,
                avg_session_duration_seconds: 0,
                total_messages_streamed: 0,
                avg_throughput_msg_per_sec: 0,
                total_bytes_transferred: 0,
                pool_hit_ratio: 0,
                error_rate: 0,
            },
        }
    }

    /// The streaming metrics.
    pub fn get_metrics(&self) -> (r: StreamingMetrics)
        ensures
            r == self.metrics,
    {
        self.metrics
    }

    /// Drops the idle connections of the pool that passed the idle time.
    pub fn cleanup_connections(&mut self, now: u128) -> (r: Result<usize, Error>)
        ensures
            final(self).pool.pooled@ == fresh_part(old(self).pool.pooled@, now, old(self).pool.config.max_idle_time_seconds * NANOS_PER_SECOND),
            r matches Ok(n) && n + final(self).pool.pooled@.len() == old(self).pool.pooled@.len(),
    {
        self.pool.cleanup(now)
    }
}

} // verus!
