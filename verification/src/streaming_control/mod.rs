//! Streaming control: pause, resume and cancel of content streams.
//!
//! Every control operation is explicit and user-triggered. The decisions that
//! the stream management task makes are the state machine in [`control`].

pub mod buffer;
pub mod control;
pub mod operations;

use vstd::prelude::*;
use crate::error::Error;
use crate::text::owned;
use crate::time::{from_millis, from_secs};

pub use buffer::{BufferStrategy, StreamBuffer};

verus! {

/// State of a controllable stream.
#[derive(Debug, Clone, Copy, PartialEq, Eq, Structural)]
pub enum StreamState {
    /// Stream is actively running.
    Running,
    /// Stream is paused.
    Paused,
    /// Stream has been cancelled.
    Cancelled,
    /// Stream completed normally.
    Completed,
    /// Stream timed out during pause.
    TimedOut,
    /// Stream encountered an error.
    Error,
}

/// The byte code of a state, as stored in the shared atomic cell.
pub open spec fn state_code(s: StreamState) -> u8 {
    match s {
        StreamState::Running => 0,
        StreamState::Paused => 1,
        StreamState::Cancelled => 2,
        StreamState::Completed => 3,
        StreamState::TimedOut => 4,
        StreamState::Error => 5,
    }
}

/// The state that a byte code stands for; unknown codes read as `Error`.
pub open spec fn state_of_code(v: u8) -> StreamState {
    if v == 0 {
        StreamState::Running
    } else if v == 1 {
        StreamState::Paused
    } else if v == 2 {
        StreamState::Cancelled
    } else if v == 3 {
        StreamState::Completed
    } else if v == 4 {
        StreamState::TimedOut
    } else {
        StreamState::Error
    }
}

impl StreamState {
    /// Converts the state to its byte code for atomic storage.
    pub fn to_u8(&self) -> (r: u8)
        ensures
            r == state_code(*self),
    {
        match self {
            StreamState::Running => 0,
            StreamState::Paused => 1,
            StreamState::Cancelled => 2,
            StreamState::Completed => 3,
            StreamState::TimedOut => 4,
            StreamState::Error => 5,
        }
    }

    /// Converts a byte code back to a state; codes above 5 map to `Error`.
    pub fn from_u8(value: u8) -> (r: StreamState)
        ensures
            r == state_of_code(value),
    {
        if value == 0 {
            StreamState::Running
        } else if value == 1 {
            StreamState::Paused
        } else if value == 2 {
            StreamState::Cancelled
        } else if value == 3 {
            StreamState::Completed
        } else if value == 4 {
            StreamState::TimedOut
        } else {
            StreamState::Error
        }
    }

    /// The variant name, as `{:?}` prints it.
    pub fn name(&self) -> (r: &'static str)
        ensures
            r@ == state_name(*self),
    {
        proof {
            reveal_strlit("Running");
            reveal_strlit("Paused");
            reveal_strlit("Cancelled");
            reveal_strlit("Completed");
            reveal_strlit("TimedOut");
            reveal_strlit("Error");
        }
        match self {
            StreamState::Running => "Running",
            StreamState::Paused => "Paused",
            StreamState::Cancelled => "Cancelled",
            StreamState::Completed => "Completed",
            StreamState::TimedOut => "TimedOut",
            StreamState::Error => "Error",
        }
    }
}

/// The printed name of a state.
pub open spec fn state_name(s: StreamState) -> Seq<char> {
    match s {
        StreamState::Running => "Running"@,
        StreamState::Paused => "Paused"@,
        StreamState::Cancelled => "Cancelled"@,
        StreamState::Completed => "Completed"@,
        StreamState::TimedOut => "TimedOut"@,
        StreamState::Error => "Error"@,
    }
}

/// Decoding the code of a state gives the state back.
pub proof fn lemma_state_code_roundtrip(s: StreamState)
    ensures
        state_of_code(state_code(s)) == s,
{
}

/// Every code decodes to a state whose code is the original one or, for codes
/// above 5, to `Error`.
pub proof fn lemma_code_state_roundtrip(v: u8)
    ensures
        v <= 5 ==> state_code(state_of_code(v)) == v,
        v > 5 ==> state_of_code(v) == StreamState::Error,
{
}

/// Level of metrics collection.
#[derive(Debug, Clone, Copy, PartialEq, Eq, Structural)]
pub enum MetricsLevel {
    /// No metrics collection.
    Disabled,
    /// Basic metrics only.
    Basic,
    /// Full metrics collection.
    Detailed,
}

/// Configuration of streaming control behaviour. Durations are in nanoseconds.
#[derive(Debug, Clone, Copy)]
pub struct StreamControlConfig {
    /// Maximum buffer size for paused streams, in bytes.
    pub buffer_size: usize,
    /// Timeout for paused streams before auto-cancellation.
    pub pause_timeout: u128,
    /// Whether to clean up resources on completion.
    pub auto_cleanup: bool,
    /// Maximum number of chunks buffered during a pause.
    pub max_buffered_chunks: usize,
    /// How long to wait for a control command to be processed.
    pub control_operation_timeout: u128,
    /// Buffer management strategy.
    pub buffer_strategy: BufferStrategy,
    /// Metrics collection level.
    pub metrics_level: MetricsLevel,
    /// Whether pause timeouts are driven by a monitor task.
    pub event_driven_timeouts: bool,
}

/// The default stream control configuration.
pub open spec fn default_stream_control_config() -> StreamControlConfig {
    StreamControlConfig {
        buffer_size: 1048576,
        pause_timeout: 300_000_000_000,
        auto_cleanup: true,
        max_buffered_chunks: 100,
        control_operation_timeout: 100_000_000,
        buffer_strategy: BufferStrategy::Circular,
        metrics_level: MetricsLevel::Basic,
        event_driven_timeouts: true,
    }
}

impl StreamControlConfig {
    /// The default configuration: 1 MiB buffer, 5 minute pause timeout,
    /// 100 buffered chunks, 100 ms control timeout, circular buffer, basic metrics.
    pub fn default_config() -> (r: StreamControlConfig)
        ensures
            r == default_stream_control_config(),
    {
        StreamControlConfig {
            buffer_size: 1048576,
            pause_timeout: from_secs(300),
            auto_cleanup: true,
            max_buffered_chunks: 100,
            control_operation_timeout: from_millis(100),
            buffer_strategy: BufferStrategy::Circular,
            metrics_level: MetricsLevel::Basic,
            event_driven_timeouts: true,
        }
    }

    /// Creates a new configuration builder.
    pub fn builder() -> (r: StreamControlConfigBuilder)
        ensures
            r.config == default_stream_control_config(),
    {
        StreamControlConfigBuilder::new()
    }
}

impl Default for StreamControlConfig {
    /// See [`StreamControlConfig::default_config`].
    fn default() -> (r: Self)
        ensures
            r == default_stream_control_config(),
    {
        StreamControlConfig::default_config()
    }
}

/// The first rule that a stream control configuration breaks, if any.
pub open spec fn stream_config_problem(c: StreamControlConfig) -> Option<Seq<char>> {
    if c.buffer_size == 0 {
        Some("Buffer size must be greater than 0"@)
    } else if c.pause_timeout == 0 {
        Some("Pause timeout must be greater than 0"@)
    } else if c.max_buffered_chunks == 0 {
        Some("Max buffered chunks must be greater than 0"@)
    } else if c.control_operation_timeout == 0 {
        Some("Control operation timeout must be greater than 0"@)
    } else if c.buffer_strategy matches BufferStrategy::Chunked { chunk_size } && chunk_size == 0 {
        Some("Chunked buffer strategy chunk size must be greater than 0"@)
    } else if c.buffer_strategy matches BufferStrategy::Chunked { chunk_size } && chunk_size > c.buffer_size {
        Some("Chunked buffer strategy chunk size cannot exceed total buffer size"@)
    } else {
        None
    }
}

/// Builder for the streaming control configuration.
#[derive(Debug, Clone, Copy)]
pub struct StreamControlConfigBuilder {
    /// The configuration being built.
    pub config: StreamControlConfig,
}

impl StreamControlConfigBuilder {
    /// Creates a builder holding the default configuration.
    pub fn new() -> (r: Self)
        ensures
            r.config == default_stream_control_config(),
    {
        StreamControlConfigBuilder { config: StreamControlConfig::default_config() }
    }

    /// Sets the buffer size for paused streams.
    pub fn buffer_size(self, size: usize) -> (r: Self)
        ensures
            r.config == (StreamControlConfig { buffer_size: size, ..self.config }),
    {
        let mut s = self;
        s.config.buffer_size = size;
        s
    }

    /// Sets the pause timeout, in nanoseconds.
    pub fn pause_timeout(self, timeout: u128) -> (r: Self)
        ensures
            r.config == (StreamControlConfig { pause_timeout: timeout, ..self.config }),
    {
        let mut s = self;
        s.config.pause_timeout = timeout;
        s
    }

    /// Enables or disables automatic cleanup.
    pub fn auto_cleanup(self, enable: bool) -> (r: Self)
        ensures
            r.config == (StreamControlConfig { auto_cleanup: enable, ..self.config }),
    {
        let mut s = self;
        s.config.auto_cleanup = enable;
        s
    }

    /// Sets the maximum number of chunks to buffer.
    pub fn max_buffered_chunks(self, count: usize) -> (r: Self)
        ensures
            r.config == (StreamControlConfig { max_buffered_chunks: count, ..self.config }),
    {
        let mut s = self;
        s.config.max_buffered_chunks = count;
        s
    }

    /// Sets the control operation timeout, in nanoseconds.
    pub fn control_operation_timeout(self, timeout: u128) -> (r: Self)
        ensures
            r.config == (StreamControlConfig { control_operation_timeout: timeout, ..self.config }),
    {
        let mut s = self;
        s.config.control_operation_timeout = timeout;
        s
    }

    /// Sets the buffer management strategy.
    pub fn buffer_strategy(self, strategy: BufferStrategy) -> (r: Self)
        ensures
            r.config == (StreamControlConfig { buffer_strategy: strategy, ..self.config }),
    {
        let mut s = self;
        s.config.buffer_strategy = strategy;
        s
    }

    /// Sets the metrics collection level.
    pub fn metrics_level(self, level: MetricsLevel) -> (r: Self)
        ensures
            r.config == (StreamControlConfig { metrics_level: level, ..self.config }),
    {
        let mut s = self;
        s.config.metrics_level = level;
        s
    }

    /// Enables or disables event-driven timeout handling.
    pub fn event_driven_timeouts(self, enable: bool) -> (r: Self)
        ensures
            r.config == (StreamControlConfig { event_driven_timeouts: enable, ..self.config }),
    {
        let mut s = self;
        s.config.event_driven_timeouts = enable;
        s
    }

    /// Validates and returns the configuration.
    pub fn build(self) -> (r: Result<StreamControlConfig, Error>)
        ensures
            stream_config_problem(self.config) is None ==> r == Ok::<StreamControlConfig, Error>(self.config),
            stream_config_problem(self.config) matches Some(msg) ==> crate::error::is_config_error(r, msg),
    {
        proof {
            reveal_strlit("Buffer size must be greater than 0");
            reveal_strlit("Pause timeout must be greater than 0");
            reveal_strlit("Max buffered chunks must be greater than 0");
            reveal_strlit("Control operation timeout must be greater than 0");
            reveal_strlit("Chunked buffer strategy chunk size must be greater than 0");
            reveal_strlit("Chunked buffer strategy chunk size cannot exceed total buffer size");
        }
        if self.config.buffer_size == 0 {
            return Err(Error::ConfigurationError(owned("Buffer size must be greater than 0")));
        }
        if self.config.pause_timeout == 0 {
            return Err(Error::ConfigurationError(owned("Pause timeout must be greater than 0")));
        }
        if self.config.max_buffered_chunks == 0 {
            return Err(Error::ConfigurationError(owned("Max buffered chunks must be greater than 0")));
        }
        if self.config.control_operation_timeout == 0 {
            return Err(Error::ConfigurationError(owned("Control operation timeout must be greater than 0")));
        }
        if let BufferStrategy::Chunked { chunk_size } = self.config.buffer_strategy {
            if chunk_size == 0 {
                return Err(Error::ConfigurationError(owned("Chunked buffer strategy chunk size must be greater than 0")));
            }
            if chunk_size > self.config.buffer_size {
                return Err(Error::ConfigurationError(owned("Chunked buffer strategy chunk size cannot exceed total buffer size")));
            }
        }
        Ok(self.config)
    }
}

impl Default for StreamControlConfigBuilder {
    /// See [`StreamControlConfigBuilder::new`].
    fn default() -> (r: Self)
        ensures
            r.config == default_stream_control_config(),
    {
        StreamControlConfigBuilder::new()
    }
}

/// Counters describing a stream's activity.
#[derive(Debug, Clone, Copy)]
pub struct StreamMetrics {
    /// Total number of chunks received.
    pub total_chunks: u64,
    /// Current buffer size.
    pub buffer_size: usize,
    /// Total bytes received.
    pub bytes_received: u64,
    /// Number of times the stream was paused.
    pub pause_count: u64,
    /// Number of times the stream was resumed.
    pub resume_count: u64,
    /// Total number of state changes.
    pub state_changes: u64,
    /// Peak buffer size reached.
    pub peak_buffer_size: usize,
    /// Average control response time in microseconds.
    pub avg_control_response_time_us: u64,
    /// Number of timed control operations.
    pub control_operations: u64,
    /// Number of buffer overflows.
    pub buffer_overflows: u64,
    /// Number of items sent through the stream.
    pub items_sent: u64,
}

/// Snapshot of the metrics for external consumers.
#[derive(Debug, Clone, Copy)]
pub struct StreamMetricsSnapshot {
    /// Total number of chunks received.
    pub total_chunks: u64,
    /// Current buffer size.
    pub buffer_size: usize,
    /// Total bytes received.
    pub bytes_received: u64,
    /// Number of times the stream was paused.
    pub pause_count: u64,
    /// Number of times the stream was resumed.
    pub resume_count: u64,
    /// Total number of state changes.
    pub state_changes: u64,
    /// Peak buffer size reached.
    pub peak_buffer_size: usize,
    /// Average control response time in microseconds.
    pub avg_control_response_time_us: u64,
    /// Number of timed control operations.
    pub control_operations: u64,
    /// Number of buffer overflows.
    pub buffer_overflows: u64,
    /// Number of items sent through the stream.
    pub items_sent: u64,
}

/// Whether every counter of a metrics record is zero.
pub open spec fn metrics_are_zero(m: StreamMetrics) -> bool {
    &&& m.total_chunks == 0
    &&& m.buffer_size == 0
    &&& m.bytes_received == 0
    &&& m.pause_count == 0
    &&& m.resume_count == 0
    &&& m.state_changes == 0
    &&& m.peak_buffer_size == 0
    &&& m.avg_control_response_time_us == 0
    &&& m.control_operations == 0
    &&& m.buffer_overflows == 0
    &&& m.items_sent == 0
}

/// The snapshot that carries the same counter values as `m`.
pub open spec fn snapshot_of(m: StreamMetrics) -> StreamMetricsSnapshot {
    StreamMetricsSnapshot {
        total_chunks: m.total_chunks,
        buffer_size: m.buffer_size,
        bytes_received: m.bytes_received,
        pause_count: m.pause_count,
        resume_count: m.resume_count,
        state_changes: m.state_changes,
        peak_buffer_size: m.peak_buffer_size,
        avg_control_response_time_us: m.avg_control_response_time_us,
        control_operations: m.control_operations,
        buffer_overflows: m.buffer_overflows,
        items_sent: m.items_sent,
    }
}

impl StreamMetrics {
    /// Creates metrics with every counter at zero.
    pub fn new() -> (r: Self)
        ensures
            metrics_are_zero(r),
    {
        StreamMetrics {
            total_chunks: 0,
            buffer_size: 0,
            bytes_received: 0,
            pause_count: 0,
            resume_count: 0,
            state_changes: 0,
            peak_buffer_size: 0,
            avg_control_response_time_us: 0,
            control_operations: 0,
            buffer_overflows: 0,
            items_sent: 0,
        }
    }

    /// Copies the current counter values into a snapshot.
    pub fn snapshot(&self) -> (r: StreamMetricsSnapshot)
        ensures
            r == snapshot_of(*self),
    {
        StreamMetricsSnapshot {
            total_chunks: self.total_chunks,
            buffer_size: self.buffer_size,
            bytes_received: self.bytes_received,
            pause_count: self.pause_count,
            resume_count: self.resume_count,
            state_changes: self.state_changes,
            peak_buffer_size: self.peak_buffer_size,
            avg_control_response_time_us: self.avg_control_response_time_us,
            control_operations: self.control_operations,
            buffer_overflows: self.buffer_overflows,
            items_sent: self.items_sent,
        }
    }
}

impl Default for StreamMetrics {
    /// See [`StreamMetrics::new`].
    fn default() -> (r: Self)
        ensures
            metrics_are_zero(r),
    {
        StreamMetrics::new()
    }
}

} // verus!
