//! WebSocket-style streaming: configuration, connection state and metrics.
//!
//! The transport (channels, broadcast of state changes) is outside the
//! library; a connection here records the state machine and its counters and
//! reports the state changes that the transport announces.

use vstd::prelude::*;
use crate::client::ModelApi;
use crate::error::Error;
use crate::text::owned;
use crate::time::from_secs;

verus! {

/// State of a WebSocket connection.
#[derive(Debug, Clone, Copy, PartialEq, Eq, Structural)]
pub enum WebSocketConnectionState {
    /// Connection is being established.
    Connecting,
    /// Connection is active.
    Connected,
    /// Connection is temporarily disconnected.
    Disconnected,
    /// Connection is being closed.
    Closing,
    /// Connection is closed.
    Closed,
    /// Connection encountered an error.
    Error,
}

/// Configuration of a WebSocket connection. Durations are in nanoseconds.
#[derive(Debug, Clone, Copy, PartialEq, Eq)]
pub struct WebSocketConfig {
    /// Interval between heartbeat messages.
    pub heartbeat_interval: u128,
    /// Maximum size of incoming messages, in bytes.
    pub max_message_size: usize,
    /// Whether to compress messages.
    pub enable_compression: bool,
    /// Number of automatic reconnection attempts.
    pub reconnect_attempts: u32,
    /// Timeout for establishing a connection.
    pub connection_timeout: u128,
    /// Whether to fall back to HTTP streaming.
    pub fallback_to_http: bool,
}

/// The default WebSocket configuration.
pub open spec fn default_websocket_config() -> WebSocketConfig {
    WebSocketConfig {
        heartbeat_interval: 30_000_000_000,
        max_message_size: 1048576,
        enable_compression: true,
        reconnect_attempts: 3,
        connection_timeout: 10_000_000_000,
        fallback_to_http: true,
    }
}

/// Largest accepted message size limit: 5 MiB.
pub const MAX_MESSAGE_SIZE_LIMIT: usize = 5242880;

/// The first rule a WebSocket configuration breaks, if any.
pub open spec fn websocket_config_problem(c: WebSocketConfig) -> Option<Seq<char>> {
    if c.heartbeat_interval == 0 {
        Some("Heartbeat interval must be greater than 0"@)
    } else if c.max_message_size == 0 {
        Some("Max message size must be greater than 0"@)
    } else if c.max_message_size > MAX_MESSAGE_SIZE_LIMIT {
        Some("Max message size cannot exceed 5MB"@)
    } else if c.reconnect_attempts == 0 {
        Some("Reconnect attempts must be greater than 0"@)
    } else if c.connection_timeout == 0 {
        Some("Connection timeout must be greater than 0"@)
    } else {
        None
    }
}

impl WebSocketConfig {
    /// The default configuration: 30 s heartbeat, 1 MiB messages, compression,
    /// 3 reconnect attempts, 10 s connection timeout, HTTP fallback.
    pub fn default_config() -> (r: Self)
        ensures
            r == default_websocket_config(),
    {
        WebSocketConfig {
            heartbeat_interval: from_secs(30),
            max_message_size: 1048576,
            enable_compression: true,
            reconnect_attempts: 3,
            connection_timeout: from_secs(10),
            fallback_to_http: true,
        }
    }

    /// A builder holding the default configuration.
    pub fn builder() -> (r: WebSocketConfigBuilder)
        ensures
            r.config == default_websocket_config(),
    {
        WebSocketConfigBuilder::new()
    }
}

impl Default for WebSocketConfig {
    /// See [`WebSocketConfig::default_config`].
    fn default() -> (r: Self)
        ensures
            r == default_websocket_config(),
    {
        WebSocketConfig::default_config()
    }
}

/// Builder for [`WebSocketConfig`].
#[derive(Debug, Clone, Copy)]
pub struct WebSocketConfigBuilder {
    /// The configuration being built.
    pub config: WebSocketConfig,
}

impl WebSocketConfigBuilder {
    /// A builder holding the default configuration.
    pub fn new() -> (r: Self)
        ensures
            r.config == default_websocket_config(),
    {
        WebSocketConfigBuilder { config: WebSocketConfig::default_config() }
    }

    /// Sets the heartbeat interval, in nanoseconds.
    pub fn heartbeat_interval(self, interval: u128) -> (r: Self)
        ensures
            r.config == (WebSocketConfig { heartbeat_interval: interval, ..self.config }),
    {
        let mut s = self;
        s.config.heartbeat_interval = interval;
        s
    }

    /// Sets the maximum message size.
    pub fn max_message_size(self, size: usize) -> (r: Self)
        ensures
            r.config == (WebSocketConfig { max_message_size: size, ..self.config }),
    {
        let mut s = self;
        s.config.max_message_size = size;
        s
    }

    /// Enables or disables compression.
    pub fn enable_compression(self, enable: bool) -> (r: Self)
        ensures
            r.config == (WebSocketConfig { enable_compression: enable, ..self.config }),
    {
        let mut s = self;
        s.config.enable_compression = enable;
        s
    }

    /// Sets the number of reconnection attempts.
    pub fn reconnect_attempts(self, attempts: u32) -> (r: Self)
        ensures
            r.config == (WebSocketConfig { reconnect_attempts: attempts, ..self.config }),
    {
        let mut s = self;
        s.config.reconnect_attempts = attempts;
        s
    }

    /// Sets the connection timeout, in nanoseconds.
    pub fn connection_timeout(self, timeout: u128) -> (r: Self)
        ensures
            r.config == (WebSocketConfig { connection_timeout: timeout, ..self.config }),
    {
        let mut s = self;
        s.config.connection_timeout = timeout;
        s
    }

    /// Enables or disables the HTTP fallback.
    pub fn fallback_to_http(self, fallback: bool) -> (r: Self)
        ensures
            r.config == (WebSocketConfig { fallback_to_http: fallback, ..self.config }),
    {
        let mut s = self;
        s.config.fallback_to_http = fallback;
        s
    }

    /// Validates and returns the configuration.
    pub fn build(self) -> (r: Result<WebSocketConfig, Error>)
        ensures
            websocket_config_problem(self.config) is None ==> r == Ok::<WebSocketConfig, Error>(self.config),
            websocket_config_problem(self.config) matches Some(msg) ==> crate::error::is_config_error(r, msg),
    {
        proof {
            reveal_strlit("Heartbeat interval must be greater than 0");
            reveal_strlit("Max message size must be greater than 0");
            reveal_strlit("Max message size cannot exceed 5MB");
            reveal_strlit("Reconnect attempts must be greater than 0");
            reveal_strlit("Connection timeout must be greater than 0");
        }
        if self.config.heartbeat_interval == 0 {
            return Err(Error::ConfigurationError(owned("Heartbeat interval must be greater than 0")));
        }
        if self.config.max_message_size == 0 {
            return Err(Error::ConfigurationError(owned("Max message size must be greater than 0")));
        }
        if self.config.max_message_size > MAX_MESSAGE_SIZE_LIMIT {
            return Err(Error::ConfigurationError(owned("Max message size cannot exceed 5MB")));
        }
        if self.config.reconnect_attempts == 0 {
            return Err(Error::ConfigurationError(owned("Reconnect attempts must be greater than 0")));
        }
        if self.config.connection_timeout == 0 {
            return Err(Error::ConfigurationError(owned("Connection timeout must be greater than 0")));
        }
        Ok(self.config)
    }
}

impl Default for WebSocketConfigBuilder {
    /// See [`WebSocketConfigBuilder::new`].
    fn default() -> (r: Self)
        ensures
            r.config == default_websocket_config(),
    {
        WebSocketConfigBuilder::new()
    }
}

/// Configuration of a WebSocket connection pool. Durations are in nanoseconds.
#[derive(Debug, Clone, Copy)]
pub struct WebSocketPoolConfig {
    /// Maximum number of concurrent connections.
    pub max_connections: usize,
    /// Connection timeout of the pool.
    pub connection_timeout: u128,
    /// Idle time before a connection is closed.
    pub idle_timeout: u128,
}

/// The default pool configuration.
pub open spec fn default_pool_config() -> WebSocketPoolConfig {
    WebSocketPoolConfig { max_connections: 10, connection_timeout: 30_000_000_000, idle_timeout: 300_000_000_000 }
}

impl WebSocketPoolConfig {
    /// The default configuration: 10 connections, 30 s timeout, 5 minute idle timeout.
    pub fn default_config() -> (r: Self)
        ensures
            r == default_pool_config(),
    {
        WebSocketPoolConfig { max_connections: 10, connection_timeout: from_secs(30), idle_timeout: from_secs(300) }
    }

    /// A builder holding the default configuration.
    pub fn builder() -> (r: WebSocketPoolConfigBuilder)
        ensures
            r.config == default_pool_config(),
    {
        WebSocketPoolConfigBuilder::new()
    }
}

impl Default for WebSocketPoolConfig {
    /// See [`WebSocketPoolConfig::default_config`].
    fn default() -> (r: Self)
        ensures
            r == default_pool_config(),
    {
        WebSocketPoolConfig::default_config()
    }
}

/// Builder for [`WebSocketPoolConfig`].
#[derive(Debug, Clone, Copy)]
pub struct WebSocketPoolConfigBuilder {
    /// The configuration being built.
    pub config: WebSocketPoolConfig,
}

impl WebSocketPoolConfigBuilder {
    /// A builder holding the default configuration.
    pub fn new() -> (r: Self)
        ensures
            r.config == default_pool_config(),
    {
        WebSocketPoolConfigBuilder { config: WebSocketPoolConfig::default_config() }
    }

    /// Sets the maximum number of connections.
    pub fn max_connections(self, max: usize) -> (r: Self)
        ensures
            r.config == (WebSocketPoolConfig { max_connections: max, ..self.config }),
    {
        let mut s = self;
        s.config.max_connections = max;
        s
    }

    /// Sets the connection timeout, in nanoseconds.
    pub fn connection_timeout(self, timeout: u128) -> (r: Self)
        ensures
            r.config == (WebSocketPoolConfig { connection_timeout: timeout, ..self.config }),
    {
        let mut s = self;
        s.config.connection_timeout = timeout;
        s
    }

    /// Sets the idle timeout, in nanoseconds.
    pub fn idle_timeout(self, timeout: u128) -> (r: Self)
        ensures
            r.config == (WebSocketPoolConfig { idle_timeout: timeout, ..self.config }),
    {
        let mut s = self;
        s.config.idle_timeout = timeout;
        s
    }

    /// Validates and returns the configuration: at least one connection.
    pub fn build(self) -> (r: Result<WebSocketPoolConfig, Error>)
        ensures
            self.config.max_connections > 0 ==> r == Ok::<WebSocketPoolConfig, Error>(self.config),
            self.config.max_connections == 0 ==> crate::error::is_config_error(r, "Max connections must be greater than 0"@),
    {
        if self.config.max_connections == 0 {
            proof { reveal_strlit("Max connections must be greater than 0"); }
            return Err(Error::ConfigurationError(owned("Max connections must be greater than 0")));
        }
        Ok(self.config)
    }
}

impl Default for WebSocketPoolConfigBuilder {
    /// See [`WebSocketPoolConfigBuilder::new`].
    fn default() -> (r: Self)
        ensures
            r.config == default_pool_config(),
    {
        WebSocketPoolConfigBuilder::new()
    }
}

/// WebSocket message types.
#[derive(Debug, Clone)]
pub enum WebSocketMessage {
    /// Text message.
    Text(String),
    /// Binary message.
    Binary(Vec<u8>),
    /// Ping message.
    Ping(Vec<u8>),
    /// Pong message.
    Pong(Vec<u8>),
    /// Close message with an optional reason.
    Close(Option<String>),
}

/// Counters of WebSocket operations.
#[derive(Debug, Clone, Copy, PartialEq, Eq)]
pub struct WebSocketMetrics {
    /// Messages sent.
    pub messages_sent: u64,
    /// Messages received.
    pub messages_received: u64,
    /// Bytes sent.
    pub bytes_sent: u64,
    /// Bytes received.
    pub bytes_received: u64,
    /// Connections established.
    pub connection_count: u32,
    /// Reconnections performed.
    pub reconnection_count: u32,
    /// Errors encountered.
    pub error_count: u32,
}

/// Metrics with every counter at zero.
pub open spec fn zero_websocket_metrics() -> WebSocketMetrics {
    WebSocketMetrics {
        messages_sent: 0,
        messages_received: 0,
        bytes_sent: 0,
        bytes_received: 0,
        connection_count: 0,
        reconnection_count: 0,
        error_count: 0,
    }
}

impl WebSocketMetrics {
    /// Metrics with every counter at zero.
    pub fn zero() -> (r: Self)
        ensures
            r == zero_websocket_metrics(),
    {
        WebSocketMetrics {
            messages_sent: 0,
            messages_received: 0,
            bytes_sent: 0,
            bytes_received: 0,
            connection_count: 0,
            reconnection_count: 0,
            error_count: 0,
        }
    }
}

/// The state machine and counters of one WebSocket connection.
#[derive(Debug, Clone, Copy)]
pub struct WebSocketConnection {
    /// Connection state.
    pub state: WebSocketConnectionState,
    /// Configuration.
    pub config: WebSocketConfig,
    /// Counters.
    pub metrics: WebSocketMetrics,
}

/// The message of a send refused on a connection that is not connected.
pub open spec fn not_connected_message() -> Seq<char> {
    "WebSocket is not connected"@
}

impl WebSocketConnection {
    /// A connection that is being established.
    pub fn new(config: WebSocketConfig) -> (r: Self)
        ensures
            r.state == WebSocketConnectionState::Connecting,
            r.config == config,
            r.metrics == zero_websocket_metrics(),
    {
        WebSocketConnection { state: WebSocketConnectionState::Connecting, config, metrics: WebSocketMetrics::zero() }
    }

    /// The connection state.
    pub fn state(&self) -> (r: WebSocketConnectionState)
        ensures
            r == self.state,
    {
        self.state
    }

    /// Whether the connection is active.
    pub fn is_connected(&self) -> (r: bool)
        ensures
            r == (self.state == WebSocketConnectionState::Connected),
    {
        self.state == WebSocketConnectionState::Connected
    }

    /// The counters.
    pub fn get_metrics(&self) -> (r: WebSocketMetrics)
        ensures
            r == self.metrics,
    {
        self.metrics
    }

    /// Establishes a connection: the state passes through `Connecting` to
    /// `Connected`; both are returned in the order they are announced.
    pub fn connect(config: WebSocketConfig) -> (r: (Self, Vec<WebSocketConnectionState>))
        ensures
            r.0.state == WebSocketConnectionState::Connected,
            r.0.config == config,
            r.0.metrics == (WebSocketMetrics { connection_count: 1, ..zero_websocket_metrics() }),
            r.1@ == seq![WebSocketConnectionState::Connecting, WebSocketConnectionState::Connected],
    {
        let mut c = WebSocketConnection::new(config);
        let mut announced = Vec::new();
        c.state = WebSocketConnectionState::Connecting;
        announced.push(WebSocketConnectionState::Connecting);
        c.state = WebSocketConnectionState::Connected;
        announced.push(WebSocketConnectionState::Connected);
        c.metrics.connection_count = c.metrics.connection_count + 1;
        (c, announced)
    }

    /// Checks and counts an outgoing message: only a connected connection
    /// sends.
    pub fn send_message(&mut self) -> (r: Result<(), Error>)
        requires
            old(self).metrics.messages_sent < u64::MAX,
        ensures
            r is Ok <==> old(self).state == WebSocketConnectionState::Connected,
            r is Ok ==> *final(self) == (WebSocketConnection {
                metrics: WebSocketMetrics { messages_sent: (old(self).metrics.messages_sent + 1) as u64, ..old(self).metrics },
                ..*old(self)
            }),
            r matches Err(e) ==> *final(self) == *old(self) && (e matches Error::ApiError(m) && m@ == not_connected_message()),
    {
        if !self.is_connected() {
            proof { reveal_strlit("WebSocket is not connected"); }
            return Err(Error::ApiError(owned("WebSocket is not connected")));
        }
        self.metrics.messages_sent = self.metrics.messages_sent + 1;
        Ok(())
    }

    /// Counts an incoming message.
    pub fn record_received(&mut self)
        requires
            old(self).metrics.messages_received < u64::MAX,
        ensures
            *final(self) == (WebSocketConnection {
                metrics: WebSocketMetrics { messages_received: (old(self).metrics.messages_received + 1) as u64, ..old(self).metrics },
                ..*old(self)
            }),
    {
        self.metrics.messages_received = self.metrics.messages_received + 1;
    }

    /// Closes the connection gracefully. The state becomes `Closing` and is
    /// announced; the closing message is then sent, which a connection in
    /// `Closing` refuses, so the call ends with that refusal and the state
    /// stays `Closing`.
    pub fn close(&mut self) -> (r: (Result<(), Error>, Vec<WebSocketConnectionState>))
        ensures
            *final(self) == (WebSocketConnection { state: WebSocketConnectionState::Closing, ..*old(self) }),
            r.0 matches Err(e) && (e matches Error::ApiError(m) && m@ == not_connected_message()),
            r.1@ == seq![WebSocketConnectionState::Closing],
    {
        let mut announced = Vec::new();
        self.state = WebSocketConnectionState::Closing;
        announced.push(WebSocketConnectionState::Closing);
        if !self.is_connected() {
            proof { reveal_strlit("WebSocket is not connected"); }
            return (Err(Error::ApiError(owned("WebSocket is not connected"))), announced);
        }
        self.state = WebSocketConnectionState::Closed;
        announced.push(WebSocketConnectionState::Closed);
        (Ok(()), announced)
    }
}

/// Builder for WebSocket streams of a model.
#[derive(Debug)]
pub struct WebSocketStreamBuilder<'a> {
    /// The model the stream talks to.
    pub model: &'a ModelApi<'a>,
    /// The initial message to send.
    pub message: Option<String>,
    /// Connection configuration.
    pub config: WebSocketConfig,
    /// Keepalive interval, in nanoseconds.
    pub keepalive: Option<u128>,
    /// Whether to reconnect automatically.
    pub reconnect: bool,
    /// Whether to fall back to HTTP streaming.
    pub fallback_to_http: bool,
}

impl<'a> WebSocketStreamBuilder<'a> {
    /// A builder with the default configuration, reconnection and HTTP fallback.
    pub fn new(model: &'a ModelApi<'a>) -> (r: Self)
        ensures
            r.model == model,
            r.message is None,
            r.config == default_websocket_config(),
            r.keepalive is None,
            r.reconnect,
            r.fallback_to_http,
    {
        WebSocketStreamBuilder {
            model,
            message: None,
            config: WebSocketConfig::default_config(),
            keepalive: None,
            reconnect: true,
            fallback_to_http: true,
        }
    }

    /// Sets the initial message.
    pub fn with_message(self, message: &str) -> (r: Self)
        ensures
            r.message matches Some(m) && m@ == message@,
            r.model == self.model,
            r.config == self.config,
            r.keepalive == self.keepalive,
            r.reconnect == self.reconnect,
            r.fallback_to_http == self.fallback_to_http,
    {
        let mut s = self;
        s.message = Some(owned(message));
        s
    }

    /// Sets the keepalive interval, which is also the heartbeat interval.
    pub fn with_keepalive(self, interval: u128) -> (r: Self)
        ensures
            r.keepalive == Some(interval),
            r.config == (WebSocketConfig { heartbeat_interval: interval, ..self.config }),
            r.model == self.model,
            r.message == self.message,
            r.reconnect == self.reconnect,
            r.fallback_to_http == self.fallback_to_http,
    {
        let mut s = self;
        s.keepalive = Some(interval);
        s.config.heartbeat_interval = interval;
        s
    }

    /// Enables or disables automatic reconnection.
    pub fn with_reconnect(self, reconnect: bool) -> (r: Self)
        ensures
            r.reconnect == reconnect,
            r.model == self.model,
            r.message == self.message,
            r.config == self.config,
            r.keepalive == self.keepalive,
            r.fallback_to_http == self.fallback_to_http,
    {
        let mut s = self;
        s.reconnect = reconnect;
        s
    }

    /// Enables or disables the HTTP fallback, in the builder and its configuration.
    pub fn with_fallback_to_http(self, fallback: bool) -> (r: Self)
        ensures
            r.fallback_to_http == fallback,
            r.config == (WebSocketConfig { fallback_to_http: fallback, ..self.config }),
            r.model == self.model,
            r.message == self.message,
            r.keepalive == self.keepalive,
            r.reconnect == self.reconnect,
    {
        let mut s = self;
        s.fallback_to_http = fallback;
        s.config.fallback_to_http = fallback;
        s
    }

    /// Replaces the configuration.
    pub fn with_config(self, config: WebSocketConfig) -> (r: Self)
        ensures
            r.config == config,
            r.model == self.model,
            r.message == self.message,
            r.keepalive == self.keepalive,
            r.reconnect == self.reconnect,
            r.fallback_to_http == self.fallback_to_http,
    {
        let mut s = self;
        s.config = config;
        s
    }

    /// Opens the connection: it is connected at once, counted once, and the
    /// `Connected` state is announced.
    pub fn connect(self) -> (r: (WebSocketConnection, Vec<WebSocketConnectionState>))
        ensures
            r.0.state == WebSocketConnectionState::Connected,
            r.0.config == self.config,
            r.0.metrics == (WebSocketMetrics { connection_count: 1, ..zero_websocket_metrics() }),
            r.1@ == seq![WebSocketConnectionState::Connected],
    {
        let mut c = WebSocketConnection::new(self.config);
        let mut announced = Vec::new();
        c.state = WebSocketConnectionState::Connected;
        announced.push(WebSocketConnectionState::Connected);
        c.metrics.connection_count = c.metrics.connection_count + 1;
        (c, announced)
    }
}

impl<'a> ModelApi<'a> {
    /// A WebSocket stream builder for this model.
    pub fn websocket_stream(&'a self) -> (r: WebSocketStreamBuilder<'a>)
        ensures
            r.model == self,
            r.message is None,
            r.config == default_websocket_config(),
            r.keepalive is None,
            r.reconnect,
            r.fallback_to_http,
    {
        WebSocketStreamBuilder::new(self)
    }
}

} // verus!
