//! The WebSocket streaming API: a session manager for plain streams beside
//! a connection pool for optimised ones, and the builder that chooses
//! between them.
//!
//! Connection timing benchmarks are averaged outside, where the clock is.

use vstd::prelude::*;
use crate::client::Client;
use crate::error::Error;
use crate::pairs::{unique_keys, pairs_map, insert_pair};
use crate::text::owned;
use crate::websocket::StreamDirection;
use crate::websocket_optimized::{
    OptimizedConnectionPool, OptimizedWebSocketConfig, OptimizedWebSocketConnection, SerializationFormat,
    default_optimized_config, fresh_part, NANOS_PER_SECOND,
};
use crate::websocket_sessions::{WebSocketConnectionManager, WebSocketStreamSession, closed_session, session_label, session_position, session_ids};
use crate::websocket_streaming::{WebSocketConfig, WebSocketMetrics, WebSocketPoolConfig, default_pool_config, default_websocket_config};

verus! {

/// Compression level brought into 1 to 9.
pub open spec fn clamped_level(level: u8) -> u8 {
    if level < 1 { 1 } else if level > 9 { 9 } else { level }
}

/// The WebSocket streaming API of a client.
#[derive(Debug)]
pub struct WebSocketStreamingApi<'a> {
    /// The client.
    pub client: &'a Client,
    /// Manager of plain sessions.
    pub manager: WebSocketConnectionManager,
    /// Pool of optimised connections.
    pub optimized_pool: OptimizedConnectionPool,
    /// Optimisation settings.
    pub optimization_config: OptimizedWebSocketConfig,
}

impl<'a> WebSocketStreamingApi<'a> {
    /// Well-formedness of the session manager.
    pub open spec fn wf(&self) -> bool {
        self.manager.wf()
    }

    /// An API with the default optimisation settings.
    pub fn new(client: &'a Client) -> (r: Self)
        ensures
            r.wf(),
            r.client == client,
            r.optimization_config == default_optimized_config(),
            r.manager.sessions@.len() == 0,
            r.manager.pool_config == default_pool_config(),
            r.optimized_pool.config == default_optimized_config().pool_config,
            r.optimized_pool.pooled@.len() == 0,
    {
        Self::with_optimization_config(client, OptimizedWebSocketConfig::default_config())
    }

    /// An API with the given optimisation settings: a stopped session
    /// manager with the default pool settings and an empty connection pool.
    pub fn with_optimization_config(client: &'a Client, config: OptimizedWebSocketConfig) -> (r: Self)
        ensures
            r.wf(),
            r.client == client,
            r.optimization_config == config,
            r.manager.sessions@.len() == 0,
            r.manager.pool_config == default_pool_config(),
            !r.manager.is_running,
            r.manager.connection_counter == 0,
            r.optimized_pool.config == config.pool_config,
            r.optimized_pool.pooled@.len() == 0,
            !r.optimized_pool.cleanup_running,
    {
        WebSocketStreamingApi {
            client,
            manager: WebSocketConnectionManager::new(WebSocketPoolConfig::default_config()),
            optimized_pool: OptimizedConnectionPool::new(config.pool_config),
            optimization_config: config,
        }
    }

    /// A plain stream builder.
    pub fn stream_builder(&self) -> (r: crate::websocket::WebSocketStreamBuilder)
        ensures
            r.wf(),
            r.endpoint is None,
            r.config == default_websocket_config(),
    {
        crate::websocket::WebSocketStreamBuilder::new()
    }

    /// A builder of streams that may use the connection pool, starting
    /// from this API's optimisation settings.
    pub fn enhanced_stream_builder(&self) -> (r: EnhancedWebSocketStreamBuilder)
        ensures
            r.wf(),
            r.metadata@.len() == 0,
            r == EnhancedWebSocketStreamBuilder::initial(self.optimization_config, r.metadata),
    {
        EnhancedWebSocketStreamBuilder::new(self.optimization_config)
    }

    /// The plain session with identifier `session_id`, if any.
    pub fn get_session(&self, session_id: &str) -> (r: Option<&WebSocketStreamSession>)
        ensures
            session_position(self.manager.sessions@, session_id@) < 0 ==> r is None,
            session_position(self.manager.sessions@, session_id@) >= 0
                ==> r == Some(&self.manager.sessions@[session_position(self.manager.sessions@, session_id@)]),
    {
        self.manager.get_session(session_id)
    }

    /// Opens a plain session to `endpoint` with `config` at `now`; see
    /// [`WebSocketConnectionManager::create_session`].
    pub fn create_stream_with_config(&mut self, endpoint: &str, config: WebSocketConfig, now: u128) -> (r: Result<String, Error>)
        requires
            old(self).wf(),
        ensures
            final(self).wf(),
            r matches Ok(id) && id@ == session_label(old(self).manager.connection_counter),
            session_position(final(self).manager.sessions@, session_label(old(self).manager.connection_counter)) >= 0,
            final(self).optimized_pool == old(self).optimized_pool,
            final(self).optimization_config == old(self).optimization_config,
    {
        let r = self.manager.create_session(endpoint, config, now);
        proof {
            let id = session_label(old(self).manager.connection_counter);
            let p = session_position(old(self).manager.sessions@, id);
            let k = if p < 0 { old(self).manager.sessions@.len() as int } else { p };
            crate::websocket_sessions::lemma_session_position(old(self).manager.sessions@, id);
            crate::websocket_sessions::lemma_session_position(self.manager.sessions@, id);
            assert(self.manager.sessions@[k].session_id@ == id);
        }
        r
    }

    /// Opens a plain session with the default settings; see
    /// [`WebSocketStreamingApi::create_stream_with_config`].
    pub fn create_stream(&mut self, endpoint: &str, now: u128) -> (r: Result<String, Error>)
        requires
            old(self).wf(),
        ensures
            final(self).wf(),
            r matches Ok(id) && id@ == session_label(old(self).manager.connection_counter),
            session_position(final(self).manager.sessions@, session_label(old(self).manager.connection_counter)) >= 0,
            final(self).optimized_pool == old(self).optimized_pool,
            final(self).optimization_config == old(self).optimization_config,
    {
        self.create_stream_with_config(endpoint, WebSocketConfig::default_config(), now)
    }

    /// Takes the plain session `session_id` out and closes it; see
    /// [`WebSocketConnectionManager::remove_session`].
    pub fn close_stream(&mut self, session_id: &str) -> (r: Result<(), Error>)
        requires
            old(self).wf(),
        ensures
            final(self).wf(),
            ({
                let p = session_position(old(self).manager.sessions@, session_id@);
                if p < 0 {
                    r is Ok && final(self).manager.sessions@ == old(self).manager.sessions@
                } else {
                    &&& final(self).manager.sessions@ == old(self).manager.sessions@.remove(p)
                    &&& r matches Err(e) && (e matches Error::ApiError(m) && m@ == crate::websocket_streaming::not_connected_message())
                }
            }),
            final(self).optimized_pool == old(self).optimized_pool,
            final(self).optimization_config == old(self).optimization_config,
    {
        self.manager.remove_session(session_id)
    }

    /// The identifiers of the plain sessions.
    pub fn list_active_streams(&self) -> (r: Vec<String>)
        ensures
            r@.map_values(|s: String| s@) == session_ids(self.manager.sessions@),
    {
        self.manager.list_sessions()
    }

    /// The counters of the session manager.
    pub fn get_streaming_metrics(&self) -> (r: WebSocketMetrics)
        ensures
            r == self.manager.global_metrics,
    {
        self.manager.get_metrics()
    }

    /// Drops the pooled connections idle past the idle time at `now`, and
    /// says how many went.
    pub fn cleanup_pool(&mut self, now: u128) -> (r: Result<usize, Error>)
        ensures
            final(self).optimized_pool.pooled@ == fresh_part(
                old(self).optimized_pool.pooled@, now, old(self).optimized_pool.config.max_idle_time_seconds * NANOS_PER_SECOND),
            r matches Ok(n) && n + final(self).optimized_pool.pooled@.len() == old(self).optimized_pool.pooled@.len(),
            final(self).manager == old(self).manager,
    {
        self.optimized_pool.cleanup(now)
    }

    /// Starts the session manager and claims the pool's cleanup task:
    /// true when the task is to be started, false when it already runs.
    pub fn start_manager(&mut self) -> (r: bool)
        ensures
            final(self).manager == (WebSocketConnectionManager { is_running: true, ..old(self).manager }),
            r == !old(self).optimized_pool.cleanup_running,
            final(self).optimized_pool.cleanup_running,
            final(self).optimized_pool.pooled@ == old(self).optimized_pool.pooled@,
    {
        self.manager.start();
        self.optimized_pool.claim_cleanup_task()
    }

    /// Stops the session manager and hands over its sessions, marked
    /// closed, for their connections to be closed.
    pub fn stop_manager(&mut self) -> (r: Vec<WebSocketStreamSession>)
        ensures
            !final(self).manager.is_running,
            final(self).manager.sessions@.len() == 0,
            final(self).wf(),
            r@.len() == old(self).manager.sessions@.len(),
            forall|i: int| 0 <= i < r@.len() ==> #[trigger] r@[i] == closed_session(old(self).manager.sessions@[i]),
    {
        self.manager.stop()
    }

    /// The client.
    pub fn get_client(&self) -> (r: &'a Client)
        ensures
            r == self.client,
    {
        self.client
    }

    /// The optimisation settings.
    pub fn get_optimization_config(&self) -> (r: &OptimizedWebSocketConfig)
        ensures
            *r == self.optimization_config,
    {
        &self.optimization_config
    }

    /// Replaces the optimisation settings.
    pub fn update_optimization_config(&mut self, config: OptimizedWebSocketConfig)
        ensures
            *final(self) == (WebSocketStreamingApi { optimization_config: config, ..*old(self) }),
    {
        self.optimization_config = config;
    }
}

/// Builder of a stream that may use the connection pool.
#[derive(Debug)]
pub struct EnhancedWebSocketStreamBuilder {
    /// Target endpoint.
    pub endpoint: Option<String>,
    /// Stream direction.
    pub direction: StreamDirection,
    /// Settings of a plain stream.
    pub basic_config: WebSocketConfig,
    /// Optimisation settings.
    pub optimization_config: OptimizedWebSocketConfig,
    /// Authentication token.
    pub auth_token: Option<String>,
    /// Initial metadata, each key at most once.
    pub metadata: Vec<(String, String)>,
    /// Whether to reconnect automatically.
    pub auto_reconnect: bool,
    /// Whether to use the connection pool.
    pub use_optimization: bool,
    /// Message encoding.
    pub serialization_format: SerializationFormat,
}

/// How a built stream is to be opened.
#[derive(Debug)]
pub enum EnhancedStreamPlan {
    /// Through the connection pool, for the endpoint.
    Optimized {
        /// The endpoint.
        endpoint: String,
    },
    /// As a plain session with the given settings.
    Basic {
        /// The endpoint.
        endpoint: String,
        /// The settings.
        config: WebSocketConfig,
    },
}

/// A stream opened by the builder.
#[derive(Debug)]
pub enum EnhancedConnectionResult {
    /// A pooled connection.
    Optimized {
        /// The connection.
        connection: OptimizedWebSocketConnection,
    },
    /// A plain session.
    Basic {
        /// Identifier of the session.
        session_id: String,
    },
}

impl EnhancedConnectionResult {
    /// Whether the stream uses a pooled connection.
    pub fn is_optimized(&self) -> (r: bool)
        ensures
            r == (self is Optimized),
    {
        match self {
            EnhancedConnectionResult::Optimized { .. } => true,
            EnhancedConnectionResult::Basic { .. } => false,
        }
    }
}

impl EnhancedWebSocketStreamBuilder {
    /// Well-formedness: metadata keys are unique.
    pub open spec fn wf(&self) -> bool {
        unique_keys(self.metadata@)
    }

    /// The metadata as a map.
    pub open spec fn metadata_view(&self) -> Map<Seq<char>, Seq<char>> {
        pairs_map(self.metadata@)
    }

    /// A fresh builder with optimisation settings `config` (and the given
    /// metadata list, which is empty on a fresh builder).
    pub open spec fn initial(config: OptimizedWebSocketConfig, metadata: Vec<(String, String)>) -> Self {
        EnhancedWebSocketStreamBuilder {
            endpoint: None,
            direction: StreamDirection::Bidirectional,
            basic_config: default_websocket_config(),
            optimization_config: config,
            auth_token: None,
            metadata,
            auto_reconnect: true,
            use_optimization: true,
            serialization_format: SerializationFormat::BinaryJson,
        }
    }

    /// A bidirectional builder with the default plain settings, the given
    /// optimisation settings, no endpoint, token or metadata, reconnecting,
    /// pooled, in binary JSON.
    pub fn new(optimization_config: OptimizedWebSocketConfig) -> (r: Self)
        ensures
            r.wf(),
            r.metadata@.len() == 0,
            r == Self::initial(optimization_config, r.metadata),
    {
        EnhancedWebSocketStreamBuilder {
            endpoint: None,
            direction: StreamDirection::Bidirectional,
            basic_config: WebSocketConfig::default_config(),
            optimization_config,
            auth_token: None,
            metadata: Vec::new(),
            auto_reconnect: true,
            use_optimization: true,
            serialization_format: SerializationFormat::BinaryJson,
        }
    }

    /// Sets the endpoint.
    pub fn endpoint(self, endpoint: &str) -> (r: Self)
        ensures
            r.endpoint matches Some(e) && e@ == endpoint@,
            r == (EnhancedWebSocketStreamBuilder { endpoint: r.endpoint, ..self }),
    {
        let mut s = self;
        s.endpoint = Some(owned(endpoint));
        s
    }

    /// Sets the direction.
    pub fn direction(self, direction: StreamDirection) -> (r: Self)
        ensures
            r == (EnhancedWebSocketStreamBuilder { direction, ..self }),
    {
        let mut s = self;
        s.direction = direction;
        s
    }

    /// Sets the plain stream settings.
    pub fn basic_config(self, config: WebSocketConfig) -> (r: Self)
        ensures
            r == (EnhancedWebSocketStreamBuilder { basic_config: config, ..self }),
    {
        let mut s = self;
        s.basic_config = config;
        s
    }

    /// Sets the optimisation settings.
    pub fn optimization_config(self, config: OptimizedWebSocketConfig) -> (r: Self)
        ensures
            r == (EnhancedWebSocketStreamBuilder { optimization_config: config, ..self }),
    {
        let mut s = self;
        s.optimization_config = config;
        s
    }

    /// Sets the authentication token.
    pub fn auth_token(self, token: &str) -> (r: Self)
        ensures
            r.auth_token matches Some(t) && t@ == token@,
            r == (EnhancedWebSocketStreamBuilder { auth_token: r.auth_token, ..self }),
    {
        let mut s = self;
        s.auth_token = Some(owned(token));
        s
    }

    /// Adds a metadata entry; an entry with the same key is replaced.
    pub fn metadata(self, key: &str, value: &str) -> (r: Self)
        requires
            self.wf(),
        ensures
            r.wf(),
            r.metadata_view() == self.metadata_view().insert(key@, value@),
            r == (EnhancedWebSocketStreamBuilder { metadata: r.metadata, ..self }),
    {
        let mut s = self;
        insert_pair(&mut s.metadata, owned(key), owned(value));
        s
    }

    /// Sets automatic reconnection.
    pub fn auto_reconnect(self, enabled: bool) -> (r: Self)
        ensures
            r == (EnhancedWebSocketStreamBuilder { auto_reconnect: enabled, ..self }),
    {
        let mut s = self;
        s.auto_reconnect = enabled;
        s
    }

    /// Sets whether the connection pool is used.
    pub fn use_optimization(self, enabled: bool) -> (r: Self)
        ensures
            r == (EnhancedWebSocketStreamBuilder { use_optimization: enabled, ..self }),
    {
        let mut s = self;
        s.use_optimization = enabled;
        s
    }

    /// Sets the message encoding, of the builder and of its optimisation
    /// settings.
    pub fn serialization_format(self, format: SerializationFormat) -> (r: Self)
        ensures
            r.serialization_format == format,
            r.optimization_config.message_config.serialization_format == format,
            r.optimization_config == (OptimizedWebSocketConfig {
                message_config: crate::websocket_optimized::MessageOptimizationConfig {
                    serialization_format: format,
                    ..self.optimization_config.message_config
                },
                ..self.optimization_config
            }),
            r == (EnhancedWebSocketStreamBuilder {
                serialization_format: r.serialization_format,
                optimization_config: r.optimization_config,
                ..self
            }),
    {
        let mut s = self;
        s.serialization_format = format;
        s.optimization_config.message_config.serialization_format = format;
        s
    }

    /// Sets message compression.
    pub fn enable_compression(self, enabled: bool) -> (r: Self)
        ensures
            r.optimization_config.message_config.enable_compression == enabled,
            r.optimization_config == (OptimizedWebSocketConfig {
                message_config: crate::websocket_optimized::MessageOptimizationConfig {
                    enable_compression: enabled,
                    ..self.optimization_config.message_config
                },
                ..self.optimization_config
            }),
            r == (EnhancedWebSocketStreamBuilder { optimization_config: r.optimization_config, ..self }),
    {
        let mut s = self;
        s.optimization_config.message_config.enable_compression = enabled;
        s
    }

    /// Sets the compression level, brought into 1 to 9.
    pub fn compression_level(self, level: u8) -> (r: Self)
        ensures
            r.optimization_config == (OptimizedWebSocketConfig {
                message_config: crate::websocket_optimized::MessageOptimizationConfig {
                    compression_level: clamped_level(level),
                    ..self.optimization_config.message_config
                },
                ..self.optimization_config
            }),
            r == (EnhancedWebSocketStreamBuilder { optimization_config: r.optimization_config, ..self }),
    {
        let mut s = self;
        let clamped = if level < 1 { 1 } else if level > 9 { 9 } else { level };
        s.optimization_config.message_config.compression_level = clamped;
        s
    }

    /// Sets message batching.
    pub fn enable_batching(self, enabled: bool) -> (r: Self)
        ensures
            r.optimization_config == (OptimizedWebSocketConfig {
                message_config: crate::websocket_optimized::MessageOptimizationConfig {
                    enable_batching: enabled,
                    ..self.optimization_config.message_config
                },
                ..self.optimization_config
            }),
            r == (EnhancedWebSocketStreamBuilder { optimization_config: r.optimization_config, ..self }),
    {
        let mut s = self;
        s.optimization_config.message_config.enable_batching = enabled;
        s
    }

    /// Sets the largest batch.
    pub fn max_batch_size(self, size: usize) -> (r: Self)
        ensures
            r.optimization_config == (OptimizedWebSocketConfig {
                message_config: crate::websocket_optimized::MessageOptimizationConfig {
                    max_batch_size: size,
                    ..self.optimization_config.message_config
                },
                ..self.optimization_config
            }),
            r == (EnhancedWebSocketStreamBuilder { optimization_config: r.optimization_config, ..self }),
    {
        let mut s = self;
        s.optimization_config.message_config.max_batch_size = size;
        s
    }

    /// Sets the most pooled connections per endpoint.
    pub fn pool_size(self, max_connections: usize) -> (r: Self)
        ensures
            r.optimization_config == (OptimizedWebSocketConfig {
                pool_config: crate::websocket_optimized::ConnectionPoolConfig {
                    max_connections_per_endpoint: max_connections,
                    ..self.optimization_config.pool_config
                },
                ..self.optimization_config
            }),
            r == (EnhancedWebSocketStreamBuilder { optimization_config: r.optimization_config, ..self }),
    {
        let mut s = self;
        s.optimization_config.pool_config.max_connections_per_endpoint = max_connections;
        s
    }

    /// Sets performance monitoring.
    pub fn enable_metrics(self, enabled: bool) -> (r: Self)
        ensures
            r.optimization_config == (OptimizedWebSocketConfig {
                monitoring_config: crate::websocket_optimized::WebSocketMonitoringConfig {
                    enable_metrics: enabled,
                    ..self.optimization_config.monitoring_config
                },
                ..self.optimization_config
            }),
            r == (EnhancedWebSocketStreamBuilder { optimization_config: r.optimization_config, ..self }),
    {
        let mut s = self;
        s.optimization_config.monitoring_config.enable_metrics = enabled;
        s
    }

    /// How the stream is to be opened: an endpoint is required; with the
    /// pool in use through it, else as a plain session with the plain
    /// settings.
    pub fn prepare(self) -> (r: Result<EnhancedStreamPlan, Error>)
        ensures
            self.endpoint is None <==> r is Err,
            r matches Err(e) ==> (e matches Error::InvalidArgument(m) && m@ == "Endpoint is required"@),
            r matches Ok(p) ==> (self.endpoint matches Some(e) && if self.use_optimization {
                p matches EnhancedStreamPlan::Optimized { endpoint } && endpoint == e
            } else {
                p matches EnhancedStreamPlan::Basic { endpoint, config } && endpoint == e && config == self.basic_config
            }),
    {
        match self.endpoint {
            None => {
                proof { reveal_strlit("Endpoint is required"); }
                Err(Error::InvalidArgument(owned("Endpoint is required")))
            },
            Some(endpoint) => {
                if self.use_optimization {
                    Ok(EnhancedStreamPlan::Optimized { endpoint })
                } else {
                    Ok(EnhancedStreamPlan::Basic { endpoint, config: self.basic_config })
                }
            },
        }
    }
}

} // verus!
