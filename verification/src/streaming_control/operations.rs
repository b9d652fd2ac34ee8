//! Builders and handles of controllable streams.

use vstd::prelude::*;
use crate::client::{Client, ModelApi};
use crate::error::Error;
use crate::types::{Content, GenerateContentRequest, is_user_text, empty_request};
use crate::text::owned;
use super::{StreamControlConfig, StreamControlConfigBuilder, StreamMetrics, StreamMetricsSnapshot, StreamState, default_stream_control_config, snapshot_of};

verus! {

/// Builder for controllable streams of a model.
#[derive(Debug)]
pub struct ControllableStreamBuilder<'a> {
    /// The model the stream will come from.
    pub model: &'a ModelApi<'a>,
    /// The request being built.
    pub request: GenerateContentRequest,
    /// Stream control configuration.
    pub config: StreamControlConfig,
}

/// The request after one user text message was appended.
pub open spec fn appended_user_text(before: GenerateContentRequest, after: GenerateContentRequest, text: Seq<char>) -> bool {
    &&& after.contents@.len() == before.contents@.len() + 1
    &&& after.contents@.subrange(0, before.contents@.len() as int) == before.contents@
    &&& is_user_text(after.contents@.last(), text)
    &&& after.generation_config == before.generation_config
    &&& after.safety_settings == before.safety_settings
    &&& after.tool_config == before.tool_config
    &&& after.system_instruction == before.system_instruction
    &&& after.cached_content == before.cached_content
}

fn push_user_text(request: &mut GenerateContentRequest, text: &str)
    ensures
        appended_user_text(*old(request), *final(request), text@),
{
    let ghost before = request.contents@;
    request.contents.push(Content::user_text(text));
    assert(request.contents@.subrange(0, before.len() as int) =~= before);
}

impl<'a> ControllableStreamBuilder<'a> {
    /// A builder with an empty request and the default configuration.
    pub fn new(model: &'a ModelApi<'a>) -> (r: Self)
        ensures
            r.model == model,
            empty_request(r.request),
            r.config == default_stream_control_config(),
    {
        ControllableStreamBuilder {
            model,
            request: GenerateContentRequest::empty(),
            config: StreamControlConfig::default_config(),
        }
    }

    /// Appends a user message holding `text`.
    pub fn text(self, text: &str) -> (r: Self)
        ensures
            r.model == self.model,
            r.config == self.config,
            appended_user_text(self.request, r.request, text@),
    {
        let mut s = self;
        push_user_text(&mut s.request, text);
        s
    }

    /// Sets the buffer size.
    pub fn buffer_size(self, size: usize) -> (r: Self)
        ensures
            r.model == self.model,
            r.request == self.request,
            r.config == (StreamControlConfig { buffer_size: size, ..self.config }),
    {
        let mut s = self;
        s.config.buffer_size = size;
        s
    }

    /// Sets the pause timeout, in nanoseconds.
    pub fn pause_timeout(self, timeout: u128) -> (r: Self)
        ensures
            r.model == self.model,
            r.request == self.request,
            r.config == (StreamControlConfig { pause_timeout: timeout, ..self.config }),
    {
        let mut s = self;
        s.config.pause_timeout = timeout;
        s
    }
}

impl<'a> ModelApi<'a> {
    /// A builder for a controllable stream from this model.
    pub fn stream_controllable(&'a self) -> (r: ControllableStreamBuilder<'a>)
        ensures
            r.model == self,
            empty_request(r.request),
            r.config == default_stream_control_config(),
    {
        ControllableStreamBuilder::new(self)
    }
}

/// Streaming control API for stream lifecycle management.
#[derive(Debug)]
pub struct StreamingControlApi<'a> {
    /// The client the API belongs to.
    pub client: &'a Client,
    /// Default configuration for new controllable streams.
    pub config: StreamControlConfig,
}

impl<'a> StreamingControlApi<'a> {
    /// An API instance with the default configuration.
    pub fn new(client: &'a Client) -> (r: Self)
        ensures
            r.client == client,
            r.config == default_stream_control_config(),
    {
        StreamingControlApi { client, config: StreamControlConfig::default_config() }
    }

    /// An API instance with the given configuration.
    pub fn with_config(client: &'a Client, config: StreamControlConfig) -> (r: Self)
        ensures
            r.client == client,
            r.config == config,
    {
        StreamingControlApi { client, config }
    }

    /// A configuration builder.
    pub fn config_builder() -> (r: StreamControlConfigBuilder)
        ensures
            r.config == default_stream_control_config(),
    {
        StreamControlConfigBuilder::new()
    }

    /// A stream builder for the default model `gemini-pro`.
    pub fn stream_builder(&self) -> (r: StreamControlStreamBuilder<'a>)
        ensures
            r.client == self.client,
            r.model_name@ == "gemini-pro"@,
            r.config == self.config,
            empty_request(r.request),
    {
        proof { reveal_strlit("gemini-pro"); }
        StreamControlStreamBuilder::new(self.client, "gemini-pro", self.config)
    }

    /// A stream builder for the model `model_name`.
    pub fn stream_builder_for_model(&self, model_name: &str) -> (r: StreamControlStreamBuilder<'a>)
        ensures
            r.client == self.client,
            r.model_name@ == model_name@,
            r.config == self.config,
            empty_request(r.request),
    {
        StreamControlStreamBuilder::new(self.client, model_name, self.config)
    }

    /// The default configuration.
    pub fn get_config(&self) -> (r: &StreamControlConfig)
        ensures
            *r == self.config,
    {
        &self.config
    }

    /// Replaces the default configuration.
    pub fn set_config(&mut self, config: StreamControlConfig)
        ensures
            final(self).config == config,
            final(self).client == old(self).client,
    {
        self.config = config;
    }
}

/// Builder for controllable streams through the streaming control API.
#[derive(Debug)]
pub struct StreamControlStreamBuilder<'a> {
    /// The client that will run the stream.
    pub client: &'a Client,
    /// The model to use.
    pub model_name: String,
    /// Stream control configuration.
    pub config: StreamControlConfig,
    /// The request being built.
    pub request: GenerateContentRequest,
}

impl<'a> StreamControlStreamBuilder<'a> {
    /// A builder for `model_name` with an empty request.
    pub fn new(client: &'a Client, model_name: &str, config: StreamControlConfig) -> (r: Self)
        ensures
            r.client == client,
            r.model_name@ == model_name@,
            r.config == config,
            empty_request(r.request),
    {
        StreamControlStreamBuilder {
            client,
            model_name: owned(model_name),
            config,
            request: GenerateContentRequest::empty(),
        }
    }

    /// Appends a user message holding `text`.
    pub fn text(self, text: &str) -> (r: Self)
        ensures
            r.client == self.client,
            r.model_name == self.model_name,
            r.config == self.config,
            appended_user_text(self.request, r.request, text@),
    {
        let mut s = self;
        push_user_text(&mut s.request, text);
        s
    }

    /// Sets the buffer size.
    pub fn buffer_size(self, size: usize) -> (r: Self)
        ensures
            r.client == self.client,
            r.model_name == self.model_name,
            r.request == self.request,
            r.config == (StreamControlConfig { buffer_size: size, ..self.config }),
    {
        let mut s = self;
        s.config.buffer_size = size;
        s
    }

    /// Sets the pause timeout, in nanoseconds.
    pub fn pause_timeout(self, timeout: u128) -> (r: Self)
        ensures
            r.client == self.client,
            r.model_name == self.model_name,
            r.request == self.request,
            r.config == (StreamControlConfig { pause_timeout: timeout, ..self.config }),
    {
        let mut s = self;
        s.config.pause_timeout = timeout;
        s
    }
}

/// State of the session behind a controllable WebSocket stream, as the
/// stream asks the session to be.
#[derive(Debug, Clone, Copy, PartialEq, Eq, Structural)]
pub enum SessionDirective {
    /// Mark the session paused.
    Pause,
    /// Mark the session active.
    Activate,
    /// Close the session.
    Close,
}

/// The control state of a WebSocket stream; the session itself is driven
/// outside the library according to the returned directives.
#[derive(Debug, Clone, Copy)]
pub struct ControllableWebSocketStream {
    /// Stream configuration.
    pub config: StreamControlConfig,
    /// Current state.
    pub state: StreamState,
    /// Stream metrics.
    pub metrics: StreamMetrics,
}

/// The message of a send refused because the stream is not running.
pub open spec fn not_running_message() -> Seq<char> {
    "Stream is not in running state"@
}

impl ControllableWebSocketStream {
    /// A running stream with zeroed metrics.
    pub fn new(config: StreamControlConfig) -> (r: Self)
        ensures
            r.config == config,
            r.state == StreamState::Running,
            super::metrics_are_zero(r.metrics),
    {
        ControllableWebSocketStream { config, state: StreamState::Running, metrics: StreamMetrics::new() }
    }

    /// Pauses the stream; the session is to be marked paused.
    pub fn pause(&mut self) -> (r: SessionDirective)
        ensures
            *final(self) == (ControllableWebSocketStream { state: StreamState::Paused, ..*old(self) }),
            r == SessionDirective::Pause,
    {
        self.state = StreamState::Paused;
        SessionDirective::Pause
    }

    /// Resumes the stream; the session is to be marked active.
    pub fn resume(&mut self) -> (r: SessionDirective)
        ensures
            *final(self) == (ControllableWebSocketStream { state: StreamState::Running, ..*old(self) }),
            r == SessionDirective::Activate,
    {
        self.state = StreamState::Running;
        SessionDirective::Activate
    }

    /// Cancels the stream; the session is to be closed.
    pub fn cancel(&mut self) -> (r: SessionDirective)
        ensures
            *final(self) == (ControllableWebSocketStream { state: StreamState::Cancelled, ..*old(self) }),
            r == SessionDirective::Close,
    {
        self.state = StreamState::Cancelled;
        SessionDirective::Close
    }

    /// The current state.
    pub fn get_state(&self) -> (r: StreamState)
        ensures
            r == self.state,
    {
        self.state
    }

    /// A snapshot of the metrics.
    pub fn get_metrics(&self) -> (r: StreamMetricsSnapshot)
        ensures
            r == snapshot_of(self.metrics),
    {
        self.metrics.snapshot()
    }

    /// The stream configuration.
    pub fn get_config(&self) -> (r: &StreamControlConfig)
        ensures
            *r == self.config,
    {
        &self.config
    }

    /// Checks that a message may be sent: the stream must be running.
    pub fn check_can_send(&self) -> (r: Result<(), Error>)
        ensures
            r is Ok <==> self.state == StreamState::Running,
            r matches Err(e) ==> (e matches Error::ApiError(m) && m@ == not_running_message()),
    {
        if self.state != StreamState::Running {
            proof { reveal_strlit("Stream is not in running state"); }
            return Err(Error::ApiError(owned("Stream is not in running state")));
        }
        Ok(())
    }

    /// Counts a message that the session sent.
    pub fn record_sent(&mut self)
        ensures
            *final(self) == (ControllableWebSocketStream {
                metrics: StreamMetrics { items_sent: super::control::wrap_inc(old(self).metrics.items_sent), ..old(self).metrics },
                ..*old(self)
            }),
    {
        self.metrics.items_sent = self.metrics.items_sent.wrapping_add(1);
    }
}

} // verus!
