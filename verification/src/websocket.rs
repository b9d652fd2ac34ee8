//! WebSocket streaming protocol: message and state types, and the stream
//! builder.

use std::collections::HashMap;
use vstd::prelude::*;
use crate::error::Error;
use crate::text::owned;
use crate::pairs::{unique_keys, pairs_map, insert_pair};
use crate::websocket_streaming::{WebSocketConfig, default_websocket_config};

verus! {

/// Direction of a WebSocket stream.
#[derive(Debug, Clone, Copy, PartialEq, Eq, Structural)]
pub enum StreamDirection {
    /// Client to server.
    Outbound,
    /// Server to client.
    Inbound,
    /// Both ways.
    Bidirectional,
}

/// Stream control commands.
#[derive(Debug, Clone, Copy, PartialEq, Eq, Structural)]
pub enum StreamControl {
    /// Start streaming.
    Start,
    /// Pause streaming.
    Pause,
    /// Resume streaming.
    Resume,
    /// Stop streaming and close.
    Stop,
    /// Reset the streaming state.
    Reset,
}

/// Messages of the WebSocket protocol.
#[derive(Debug, Clone)]
pub enum WebSocketStreamMessage {
    /// A control command.
    Control {
        /// The command.
        command: StreamControl,
        /// Optional metadata.
        metadata: Option<HashMap<String, String>>,
    },
    /// Content.
    Data {
        /// The content.
        content: String,
        /// The type of the message.
        message_type: String,
        /// Optional correlation identifier.
        correlation_id: Option<String>,
    },
    /// Keepalive.
    Heartbeat {
        /// When the heartbeat was sent.
        timestamp: u64,
    },
    /// An error report.
    Error {
        /// Error code.
        error_code: u32,
        /// Message.
        message: String,
        /// Optional details.
        details: Option<HashMap<String, String>>,
    },
    /// Authentication.
    Auth {
        /// The token.
        token: String,
        /// Requested scopes.
        scope: Option<Vec<String>>,
    },
}

/// State of a streaming session.
#[derive(Debug, Clone, Copy, PartialEq, Eq, Structural)]
pub enum StreamSessionState {
    /// Being initialised.
    Initializing,
    /// Active.
    Active,
    /// Paused.
    Paused,
    /// Reconnecting.
    Reconnecting,
    /// Terminated.
    Terminated,
    /// Failed.
    Error,
}

/// Counters of one session.
#[derive(Debug, Clone, Copy, PartialEq, Eq)]
pub struct SessionMetrics {
    /// Messages sent.
    pub messages_sent: u64,
    /// Messages received.
    pub messages_received: u64,
    /// Bytes sent.
    pub bytes_sent: u64,
    /// Bytes received.
    pub bytes_received: u64,
    /// Uptime in seconds.
    pub uptime_seconds: u64,
    /// Reconnections.
    pub reconnection_count: u32,
    /// Last activity.
    pub last_activity: Option<u64>,
    /// Errors.
    pub error_count: u32,
}

/// Builder of a WebSocket stream.
#[derive(Debug)]
pub struct WebSocketStreamBuilder {
    /// Target endpoint.
    pub endpoint: Option<String>,
    /// Stream direction.
    pub direction: StreamDirection,
    /// Connection configuration.
    pub config: WebSocketConfig,
    /// Authentication token.
    pub auth_token: Option<String>,
    /// Initial metadata.
    pub metadata: Vec<(String, String)>,
    /// Whether to reconnect automatically.
    pub auto_reconnect: bool,
}

/// What opening a stream needs: where, how, and the authentication message
/// to send first, if any.
#[derive(Debug)]
pub struct PreparedStream {
    /// The endpoint.
    pub endpoint: String,
    /// The configuration.
    pub config: WebSocketConfig,
    /// The authentication message.
    pub auth_message: Option<WebSocketStreamMessage>,
}

impl WebSocketStreamBuilder {
    /// Well-formedness: metadata keys are unique.
    pub open spec fn wf(&self) -> bool {
        unique_keys(self.metadata@)
    }

    /// The metadata as a map.
    pub open spec fn metadata_view(&self) -> Map<Seq<char>, Seq<char>> {
        pairs_map(self.metadata@)
    }

    /// A bidirectional builder with the default configuration, no endpoint,
    /// no token, no metadata, reconnecting.
    pub fn new() -> (r: Self)
        ensures
            r.wf(),
            r.endpoint is None,
            r.direction == StreamDirection::Bidirectional,
            r.config == default_websocket_config(),
            r.auth_token is None,
            r.metadata_view() == Map::<Seq<char>, Seq<char>>::empty(),
            r.auto_reconnect,
    {
        let r = WebSocketStreamBuilder {
            endpoint: None,
            direction: StreamDirection::Bidirectional,
            config: WebSocketConfig::default_config(),
            auth_token: None,
            metadata: Vec::new(),
            auto_reconnect: true,
        };
        assert(r.metadata_view() =~= Map::<Seq<char>, Seq<char>>::empty());
        r
    }

    /// Sets the endpoint.
    pub fn endpoint(self, endpoint: &str) -> (r: Self)
        ensures
            r.endpoint matches Some(e) && e@ == endpoint@,
            r.direction == self.direction,
            r.config == self.config,
            r.auth_token == self.auth_token,
            r.metadata == self.metadata,
            r.auto_reconnect == self.auto_reconnect,
    {
        let mut s = self;
        s.endpoint = Some(owned(endpoint));
        s
    }

    /// Sets the direction.
    pub fn direction(self, direction: StreamDirection) -> (r: Self)
        ensures
            r == (WebSocketStreamBuilder { direction, ..self }),
    {
        let mut s = self;
        s.direction = direction;
        s
    }

    /// Sets the configuration.
    pub fn config(self, config: WebSocketConfig) -> (r: Self)
        ensures
            r == (WebSocketStreamBuilder { config, ..self }),
    {
        let mut s = self;
        s.config = config;
        s
    }

    /// Sets the authentication token.
    pub fn auth_token(self, token: &str) -> (r: Self)
        ensures
            r.auth_token matches Some(t) && t@ == token@,
            r.endpoint == self.endpoint,
            r.direction == self.direction,
            r.config == self.config,
            r.metadata == self.metadata,
            r.auto_reconnect == self.auto_reconnect,
    {
        let mut s = self;
        s.auth_token = Some(owned(token));
        s
    }

    /// Adds a metadata entry; an entry with the same key is replaced.
    pub fn metadata(self, key: &str, value: &str) -> (r: Self)
        requires
            self.wf(),
        ensures
            r.wf(),
            r.metadata_view() == self.metadata_view().insert(key@, value@),
            r.endpoint == self.endpoint,
            r.direction == self.direction,
            r.config == self.config,
            r.auth_token == self.auth_token,
            r.auto_reconnect == self.auto_reconnect,
    {
        let mut s = self;
        insert_pair(&mut s.metadata, owned(key), owned(value));
        s
    }

    /// Sets automatic reconnection.
    pub fn auto_reconnect(self, enabled: bool) -> (r: Self)
        ensures
            r == (WebSocketStreamBuilder { auto_reconnect: enabled, ..self }),
    {
        let mut s = self;
        s.auto_reconnect = enabled;
        s
    }

    /// What opening the stream needs; an endpoint is required. When a token
    /// was set, an authentication message without scopes is sent first.
    pub fn prepare(self) -> (r: Result<PreparedStream, Error>)
        ensures
            self.endpoint is None <==> r is Err,
            r matches Err(e) ==> (e matches Error::InvalidArgument(m) && m@ == "Endpoint is required"@),
            r matches Ok(p) ==> {
                &&& self.endpoint matches Some(e) && p.endpoint == e
                &&& p.config == self.config
                &&& (self.auth_token is None ==> p.auth_message is None)
                &&& (self.auth_token matches Some(t) ==> (p.auth_message matches Some(WebSocketStreamMessage::Auth { token, scope }) && token == t && scope is None))
            },
    {
        match self.endpoint {
            None => {
                proof { reveal_strlit("Endpoint is required"); }
                Err(Error::InvalidArgument(owned("Endpoint is required")))
            },
            Some(endpoint) => {
                let auth_message = match self.auth_token {
                    Some(token) => Some(WebSocketStreamMessage::Auth { token, scope: None }),
                    None => None,
                };
                Ok(PreparedStream { endpoint, config: self.config, auth_message })
            },
        }
    }
}

impl Default for WebSocketStreamBuilder {
    /// See [`WebSocketStreamBuilder::new`].
    fn default() -> (r: Self)
        ensures
            r.wf(),
            r.endpoint is None,
            r.direction == StreamDirection::Bidirectional,
            r.config == default_websocket_config(),
            r.auth_token is None,
            r.metadata_view() == Map::<Seq<char>, Seq<char>>::empty(),
            r.auto_reconnect,
    {
        WebSocketStreamBuilder::new()
    }
}

} // verus!
