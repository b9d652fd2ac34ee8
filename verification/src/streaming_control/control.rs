//! Decisions of the stream management task.
//!
//! The task that drives a controllable stream reacts to control commands,
//! to items from the underlying stream and to timeout signals. This module
//! holds those reactions as a state machine: each event maps the controller
//! state to a next state and tells the driver what to do with the data.
//! The driver (channels, timers, the underlying stream) lives outside.

use vstd::prelude::*;
use crate::error::Error;
use crate::text::concat2;
use super::{MetricsLevel, StreamControlConfig, StreamMetrics, StreamState, state_name};
use super::buffer::{StreamBuffer, BufferStrategy};

verus! {

/// Largest control response time, in microseconds, that the running average
/// accepts; larger samples would overflow the weighted sum.
pub const MAX_RESPONSE_TIME_US: u64 = 1844674407370955161;

/// Counter increment with wrap-around, as `fetch_add` performs it.
pub open spec fn wrap_inc(x: u64) -> u64 {
    if x == u64::MAX { 0 } else { (x + 1) as u64 }
}

fn inc(x: u64) -> (r: u64)
    ensures
        r == wrap_inc(x),
{
    x.wrapping_add(1)
}

/// The metrics after one timed control operation taking `rt` microseconds:
/// the first sample is taken as is, later samples weigh 10% against 90% of
/// the previous average.
pub open spec fn record_response_time(m: StreamMetrics, rt: u64) -> StreamMetrics {
    let ops = wrap_inc(m.control_operations);
    let avg = if ops == 1 { rt } else { ((m.avg_control_response_time_us * 9 + rt) / 10) as u64 };
    StreamMetrics { control_operations: ops, avg_control_response_time_us: avg, ..m }
}

/// Updates the running average of control response times.
pub fn update_avg_response_time(metrics: &mut StreamMetrics, new_response_time: u64)
    requires
        old(metrics).avg_control_response_time_us <= MAX_RESPONSE_TIME_US,
        new_response_time <= MAX_RESPONSE_TIME_US,
    ensures
        *final(metrics) == record_response_time(*old(metrics), new_response_time),
        final(metrics).avg_control_response_time_us <= MAX_RESPONSE_TIME_US,
{
    metrics.control_operations = inc(metrics.control_operations);
    let current_avg = metrics.avg_control_response_time_us;
    let new_avg = if metrics.control_operations == 1 {
        new_response_time
    } else {
        (current_avg * 9 + new_response_time) / 10
    };
    metrics.avg_control_response_time_us = new_avg;
}

/// Metrics after a state change, when metrics are collected.
pub open spec fn note_state_change(m: StreamMetrics, level: MetricsLevel) -> StreamMetrics {
    if level != MetricsLevel::Disabled {
        StreamMetrics { state_changes: wrap_inc(m.state_changes), ..m }
    } else {
        m
    }
}

/// Metrics after a timed control operation: the response time enters the
/// running average only at the detailed metrics level.
pub open spec fn note_control(m: StreamMetrics, level: MetricsLevel, rt: u64) -> StreamMetrics {
    if level == MetricsLevel::Detailed {
        record_response_time(m, rt)
    } else {
        m
    }
}

/// The abstract state of the stream management task.
pub struct ControlView<T> {
    /// The configuration the task started with.
    pub config: StreamControlConfig,
    /// Whether the task is holding items back.
    pub is_paused: bool,
    /// The shared stream state.
    pub state: StreamState,
    /// Items held back while paused, oldest first.
    pub buffered: Seq<Result<T, Error>>,
    /// The shared metrics.
    pub metrics: StreamMetrics,
    /// When the current pause began, in nanoseconds on the driver's clock.
    pub pause_started_at: Option<u128>,
    /// Whether the task has ended.
    pub stopped: bool,
}

/// What the driver does after the controller handled a stream event.
pub enum StreamStep<T> {
    /// Nothing to deliver; keep running.
    Continue,
    /// Deliver the item to the consumer and keep running; if delivery fails
    /// the task ends.
    Deliver(Result<T, Error>),
    /// Deliver the item to the consumer, then end the task.
    DeliverAndStop(Result<T, Error>),
    /// End the task.
    Stop,
}

/// Whether a pause command is accepted.
pub open spec fn can_pause<T>(c: ControlView<T>) -> bool {
    !c.is_paused && c.state == StreamState::Running
}

/// Whether a resume command is accepted.
pub open spec fn can_resume<T>(c: ControlView<T>) -> bool {
    c.is_paused && c.state == StreamState::Paused
}

/// The controller after a pause command at time `now` that took `rt` microseconds.
pub open spec fn after_pause<T>(c: ControlView<T>, rt: u64, now: u128) -> ControlView<T> {
    if can_pause(c) {
        let lvl = c.config.metrics_level;
        let m = if lvl != MetricsLevel::Disabled {
            note_control(
                StreamMetrics {
                    pause_count: wrap_inc(c.metrics.pause_count),
                    state_changes: wrap_inc(c.metrics.state_changes),
                    ..c.metrics
                },
                lvl,
                rt,
            )
        } else {
            c.metrics
        };
        ControlView { is_paused: true, pause_started_at: Some(now), state: StreamState::Paused, metrics: m, ..c }
    } else {
        c
    }
}

/// The controller after an accepted resume command, before the held items are delivered.
pub open spec fn after_resume_start<T>(c: ControlView<T>) -> ControlView<T> {
    if can_resume(c) {
        ControlView {
            is_paused: false,
            pause_started_at: None,
            state: StreamState::Running,
            buffered: Seq::empty(),
            ..c
        }
    } else {
        c
    }
}

/// The controller after the held items of a resume were delivered.
pub open spec fn after_resume_done<T>(c: ControlView<T>, rt: u64) -> ControlView<T> {
    let lvl = c.config.metrics_level;
    let m = if lvl != MetricsLevel::Disabled {
        note_control(
            StreamMetrics {
                resume_count: wrap_inc(c.metrics.resume_count),
                state_changes: wrap_inc(c.metrics.state_changes),
                buffer_size: 0,
                ..c.metrics
            },
            lvl,
            rt,
        )
    } else {
        c.metrics
    };
    ControlView { metrics: m, ..c }
}

/// The controller after a cancel command.
pub open spec fn after_cancel<T>(c: ControlView<T>, rt: u64) -> ControlView<T> {
    let lvl = c.config.metrics_level;
    let m = if lvl != MetricsLevel::Disabled {
        note_control(StreamMetrics { state_changes: wrap_inc(c.metrics.state_changes), ..c.metrics }, lvl, rt)
    } else {
        c.metrics
    };
    ControlView { state: StreamState::Cancelled, metrics: m, stopped: true, ..c }
}

/// The controller after an item arrived from the underlying stream.
pub open spec fn after_item<T>(c: ControlView<T>, item: Result<T, Error>) -> ControlView<T> {
    let lvl = c.config.metrics_level;
    if !c.is_paused {
        match item {
            Ok(_) => ControlView {
                metrics: if lvl != MetricsLevel::Disabled {
                    StreamMetrics { total_chunks: wrap_inc(c.metrics.total_chunks), ..c.metrics }
                } else {
                    c.metrics
                },
                ..c
            },
            Err(_) => ControlView {
                state: StreamState::Error,
                metrics: note_state_change(c.metrics, lvl),
                stopped: true,
                ..c
            },
        }
    } else {
        match item {
            Ok(_) => if c.buffered.len() < c.config.max_buffered_chunks {
                let n = (c.buffered.len() + 1) as usize;
                ControlView {
                    buffered: c.buffered.push(item),
                    metrics: if lvl != MetricsLevel::Disabled {
                        StreamMetrics {
                            buffer_size: n,
                            peak_buffer_size: if n > c.metrics.peak_buffer_size { n } else { c.metrics.peak_buffer_size },
                            ..c.metrics
                        }
                    } else {
                        c.metrics
                    },
                    ..c
                }
            } else {
                ControlView {
                    state: StreamState::Cancelled,
                    metrics: if lvl != MetricsLevel::Disabled {
                        StreamMetrics {
                            state_changes: wrap_inc(c.metrics.state_changes),
                            buffer_overflows: wrap_inc(c.metrics.buffer_overflows),
                            ..c.metrics
                        }
                    } else {
                        c.metrics
                    },
                    stopped: true,
                    ..c
                }
            },
            Err(_) => ControlView {
                state: StreamState::Error,
                metrics: note_state_change(c.metrics, lvl),
                buffered: c.buffered.push(item),
                stopped: true,
                ..c
            },
        }
    }
}

/// What the driver does with an item that arrived.
pub open spec fn item_step<T>(c: ControlView<T>, item: Result<T, Error>) -> StreamStep<T> {
    if !c.is_paused {
        match item {
            Ok(_) => StreamStep::Deliver(item),
            Err(_) => StreamStep::DeliverAndStop(item),
        }
    } else {
        match item {
            Ok(_) => if c.buffered.len() < c.config.max_buffered_chunks { StreamStep::Continue } else { StreamStep::Stop },
            Err(_) => StreamStep::Stop,
        }
    }
}

/// The controller after the underlying stream ended.
pub open spec fn after_end<T>(c: ControlView<T>) -> ControlView<T> {
    ControlView {
        state: StreamState::Completed,
        metrics: note_state_change(c.metrics, c.config.metrics_level),
        stopped: true,
        ..c
    }
}

/// Whether a pause that began at `start` has outlasted `timeout` at time `now`.
pub open spec fn pause_expired(start: u128, now: u128, timeout: u128) -> bool {
    now > start && now - start > timeout
}

/// The controller after the periodic check of a polled pause timeout.
pub open spec fn after_poll<T>(c: ControlView<T>, now: u128) -> ControlView<T> {
    match c.pause_started_at {
        Some(start) => if pause_expired(start, now, c.config.pause_timeout) {
            ControlView {
                state: StreamState::TimedOut,
                metrics: note_state_change(c.metrics, c.config.metrics_level),
                stopped: true,
                ..c
            }
        } else {
            c
        },
        None => c,
    }
}

/// The controller after the timeout monitor signalled: it ends the task when
/// the shared state says the pause timed out.
pub open spec fn after_timeout_signal<T>(c: ControlView<T>) -> ControlView<T> {
    if c.state == StreamState::TimedOut {
        ControlView { stopped: true, ..c }
    } else {
        c
    }
}

/// The invariant of a running task: items are held back only while paused,
/// never more than the configured number of them, and the running average
/// stays in range.
pub open spec fn control_inv<T>(c: ControlView<T>) -> bool {
    &&& !c.stopped ==> c.buffered.len() <= c.config.max_buffered_chunks
    &&& !c.is_paused ==> c.buffered.len() == 0
    &&& c.metrics.avg_control_response_time_us <= MAX_RESPONSE_TIME_US
}

/// The state machine of one controllable stream.
pub struct StreamController<T> {
    /// The configuration the task started with.
    pub config: StreamControlConfig,
    /// Whether the task is holding items back.
    pub is_paused: bool,
    /// The shared stream state.
    pub state: StreamState,
    /// Items held back while paused.
    pub buffer: StreamBuffer<T>,
    /// The shared metrics.
    pub metrics: StreamMetrics,
    /// When the current pause began, in nanoseconds on the driver's clock.
    pub pause_started_at: Option<u128>,
    /// Whether the task has ended.
    pub stopped: bool,
}

impl<T> View for StreamController<T> {
    type V = ControlView<T>;

    open spec fn view(&self) -> ControlView<T> {
        ControlView {
            config: self.config,
            is_paused: self.is_paused,
            state: self.state,
            buffered: self.buffer@,
            metrics: self.metrics,
            pause_started_at: self.pause_started_at,
            stopped: self.stopped,
        }
    }
}

/// The message of a refused pause command.
pub open spec fn pause_refusal(s: StreamState) -> Seq<char> {
    "Cannot pause stream in state : "@ + state_name(s)
}

/// The message of a refused resume command.
pub open spec fn resume_refusal(s: StreamState) -> Seq<char> {
    "Cannot resume stream in state : "@ + state_name(s)
}

impl<T> StreamController<T> {
    /// Well-formedness of the controller.
    pub open spec fn wf(&self) -> bool {
        control_inv(self@) && self.buffer.has_strategy(self.config.buffer_strategy)
    }

    /// A running controller with an empty buffer laid out per `config`.
    pub fn new(config: StreamControlConfig) -> (r: Self)
        ensures
            r.wf(),
            r@.config == config,
            !r@.is_paused,
            r@.state == StreamState::Running,
            r@.buffered == Seq::<Result<T, Error>>::empty(),
            super::metrics_are_zero(r@.metrics),
            r@.pause_started_at is None,
            !r@.stopped,
    {
        let buffer = StreamBuffer::new(&config.buffer_strategy, None);
        StreamController {
            config,
            is_paused: false,
            state: StreamState::Running,
            buffer,
            metrics: StreamMetrics::new(),
            pause_started_at: None,
            stopped: false,
        }
    }

    /// Handles a pause command issued `rt` microseconds ago, at time `now`.
    pub fn pause(&mut self, rt: u64, now: u128) -> (r: Result<(), Error>)
        requires
            old(self).wf(),
            !old(self)@.stopped,
            rt <= MAX_RESPONSE_TIME_US,
        ensures
            final(self).wf(),
            final(self)@ == after_pause(old(self)@, rt, now),
            can_pause(old(self)@) ==> r is Ok,
            !can_pause(old(self)@) ==> (r matches Err(Error::ApiError(m)) && m@ == pause_refusal(old(self)@.state)),
    {
        if !self.is_paused && self.state == StreamState::Running {
            self.is_paused = true;
            self.pause_started_at = Some(now);
            self.state = StreamState::Paused;
            if self.config.metrics_level != MetricsLevel::Disabled {
                self.metrics.pause_count = inc(self.metrics.pause_count);
                self.metrics.state_changes = inc(self.metrics.state_changes);
                if self.config.metrics_level == MetricsLevel::Detailed {
                    update_avg_response_time(&mut self.metrics, rt);
                }
            }
            Ok(())
        } else {
            proof { reveal_strlit("Cannot pause stream in state : "); }
            Err(Error::ApiError(concat2("Cannot pause stream in state : ", self.state.name())))
        }
    }

    /// Handles a resume command: when accepted, the stream runs again and the
    /// held items are handed back, oldest first, for delivery.
    pub fn begin_resume(&mut self) -> (r: Result<Vec<Result<T, Error>>, Error>)
        requires
            old(self).wf(),
            !old(self)@.stopped,
        ensures
            final(self).wf(),
            final(self)@ == after_resume_start(old(self)@),
            can_resume(old(self)@) ==> (r matches Ok(items) && items@ == old(self)@.buffered),
            !can_resume(old(self)@) ==> (r matches Err(Error::ApiError(m)) && m@ == resume_refusal(old(self)@.state)),
    {
        if self.is_paused && self.state == StreamState::Paused {
            self.is_paused = false;
            self.pause_started_at = None;
            self.state = StreamState::Running;
            let items = self.buffer.drain_all();
            Ok(items)
        } else {
            proof { reveal_strlit("Cannot resume stream in state : "); }
            Err(Error::ApiError(concat2("Cannot resume stream in state : ", self.state.name())))
        }
    }

    /// Records an accepted resume command issued `rt` microseconds ago once
    /// the held items were delivered.
    pub fn finish_resume(&mut self, rt: u64)
        requires
            old(self).wf(),
            rt <= MAX_RESPONSE_TIME_US,
        ensures
            final(self).wf(),
            final(self)@ == after_resume_done(old(self)@, rt),
    {
        if self.config.metrics_level != MetricsLevel::Disabled {
            self.metrics.resume_count = inc(self.metrics.resume_count);
            self.metrics.state_changes = inc(self.metrics.state_changes);
            self.metrics.buffer_size = 0;
            if self.config.metrics_level == MetricsLevel::Detailed {
                update_avg_response_time(&mut self.metrics, rt);
            }
        }
    }

    /// Handles a cancel command issued `rt` microseconds ago; the task ends.
    pub fn cancel(&mut self, rt: u64)
        requires
            old(self).wf(),
            !old(self)@.stopped,
            rt <= MAX_RESPONSE_TIME_US,
        ensures
            final(self).wf(),
            final(self)@ == after_cancel(old(self)@, rt),
    {
        self.state = StreamState::Cancelled;
        if self.config.metrics_level != MetricsLevel::Disabled {
            self.metrics.state_changes = inc(self.metrics.state_changes);
            if self.config.metrics_level == MetricsLevel::Detailed {
                update_avg_response_time(&mut self.metrics, rt);
            }
        }
        self.stopped = true;
    }

    /// Handles an item from the underlying stream.
    pub fn on_item(&mut self, item: Result<T, Error>) -> (r: StreamStep<T>)
        requires
            old(self).wf(),
            !old(self)@.stopped,
        ensures
            final(self).wf(),
            final(self)@ == after_item(old(self)@, item),
            r == item_step(old(self)@, item),
    {
        let level = self.config.metrics_level;
        if !self.is_paused {
            match item {
                Ok(data) => {
                    if level != MetricsLevel::Disabled {
                        self.metrics.total_chunks = inc(self.metrics.total_chunks);
                    }
                    StreamStep::Deliver(Ok(data))
                },
                Err(e) => {
                    self.state = StreamState::Error;
                    if level != MetricsLevel::Disabled {
                        self.metrics.state_changes = inc(self.metrics.state_changes);
                    }
                    self.stopped = true;
                    StreamStep::DeliverAndStop(Err(e))
                },
            }
        } else {
            match item {
                Ok(data) => {
                    if self.buffer.len() < self.config.max_buffered_chunks {
                        self.buffer.push(Ok(data));
                        let new_size = self.buffer.len();
                        if level != MetricsLevel::Disabled {
                            self.metrics.buffer_size = new_size;
                            if new_size > self.metrics.peak_buffer_size {
                                self.metrics.peak_buffer_size = new_size;
                            }
                        }
                        StreamStep::Continue
                    } else {
                        self.state = StreamState::Cancelled;
                        if level != MetricsLevel::Disabled {
                            self.metrics.state_changes = inc(self.metrics.state_changes);
                            self.metrics.buffer_overflows = inc(self.metrics.buffer_overflows);
                        }
                        self.stopped = true;
                        StreamStep::Stop
                    }
                },
                Err(e) => {
                    self.state = StreamState::Error;
                    if level != MetricsLevel::Disabled {
                        self.metrics.state_changes = inc(self.metrics.state_changes);
                    }
                    self.buffer.push(Err(e));
                    self.stopped = true;
                    StreamStep::Stop
                },
            }
        }
    }

    /// Handles the end of the underlying stream; the task ends.
    pub fn on_end(&mut self)
        requires
            old(self).wf(),
            !old(self)@.stopped,
        ensures
            final(self).wf(),
            final(self)@ == after_end(old(self)@),
    {
        self.state = StreamState::Completed;
        if self.config.metrics_level != MetricsLevel::Disabled {
            self.metrics.state_changes = inc(self.metrics.state_changes);
        }
        self.stopped = true;
    }

    /// The periodic pause-timeout check used when timeouts are not event
    /// driven; runs only while paused. Returns true when the task ends.
    pub fn on_poll(&mut self, now: u128) -> (r: bool)
        requires
            old(self).wf(),
            !old(self)@.stopped,
            old(self)@.is_paused,
            !old(self)@.config.event_driven_timeouts,
        ensures
            final(self).wf(),
            final(self)@ == after_poll(old(self)@, now),
            r == final(self)@.stopped,
    {
        if let Some(start) = self.pause_started_at {
            if now > start && now - start > self.config.pause_timeout {
                self.state = StreamState::TimedOut;
                if self.config.metrics_level != MetricsLevel::Disabled {
                    self.metrics.state_changes = inc(self.metrics.state_changes);
                }
                self.stopped = true;
                return true;
            }
        }
        false
    }

    /// Stores the timed-out state, as the timeout monitor does when it fires.
    pub fn mark_timed_out(&mut self)
        requires
            old(self).wf(),
        ensures
            final(self).wf(),
            final(self)@ == (ControlView { state: StreamState::TimedOut, ..old(self)@ }),
    {
        self.state = StreamState::TimedOut;
    }

    /// Handles a signal from the timeout monitor. Returns true when the task ends.
    pub fn on_timeout_signal(&mut self) -> (r: bool)
        requires
            old(self).wf(),
            !old(self)@.stopped,
        ensures
            final(self).wf(),
            final(self)@ == after_timeout_signal(old(self)@),
            r == final(self)@.stopped,
    {
        if self.state == StreamState::TimedOut {
            self.stopped = true;
            true
        } else {
            false
        }
    }

    /// The current shared state.
    pub fn get_state(&self) -> (r: StreamState)
        ensures
            r == self@.state,
    {
        self.state
    }

    /// Whether the stream is paused.
    pub fn is_paused(&self) -> (r: bool)
        ensures
            r == (self@.state == StreamState::Paused),
    {
        self.state == StreamState::Paused
    }

    /// Whether the stream was cancelled or timed out.
    pub fn is_cancelled(&self) -> (r: bool)
        ensures
            r == (self@.state == StreamState::Cancelled || self@.state == StreamState::TimedOut),
    {
        self.state == StreamState::Cancelled || self.state == StreamState::TimedOut
    }

    /// A snapshot of the metrics.
    pub fn get_metrics(&self) -> (r: super::StreamMetricsSnapshot)
        ensures
            r == super::snapshot_of(self@.metrics),
    {
        self.metrics.snapshot()
    }
}

/// What the timeout monitor does after one of its periodic checks.
#[derive(Debug, Clone, Copy, PartialEq, Eq, Structural)]
pub enum MonitorStep {
    /// Keep watching.
    Continue,
    /// Store the timed-out state, notify the task, and stop watching.
    FireTimeout,
    /// The stream is over; stop watching.
    Exit,
}

/// The timeout monitor of an event-driven pause timeout.
#[derive(Debug, Clone, Copy)]
pub struct TimeoutMonitor {
    /// When the monitor first saw the stream paused.
    pub pause_start: Option<u128>,
    /// How long a pause may last, in nanoseconds.
    pub timeout: u128,
}

/// The monitor's decision when it sees `state` at time `now`.
pub open spec fn monitor_step(m: TimeoutMonitor, state: StreamState, now: u128) -> MonitorStep {
    match state {
        StreamState::Paused => match m.pause_start {
            Some(start) => if pause_expired(start, now, m.timeout) { MonitorStep::FireTimeout } else { MonitorStep::Continue },
            None => MonitorStep::Continue,
        },
        StreamState::Running => MonitorStep::Continue,
        _ => MonitorStep::Exit,
    }
}

/// The monitor's memory after it sees `state` at time `now`.
pub open spec fn monitor_after(m: TimeoutMonitor, state: StreamState, now: u128) -> TimeoutMonitor {
    match state {
        StreamState::Paused => if m.pause_start is None { TimeoutMonitor { pause_start: Some(now), ..m } } else { m },
        StreamState::Running => TimeoutMonitor { pause_start: None, ..m },
        _ => m,
    }
}

impl TimeoutMonitor {
    /// A monitor that has not seen a pause yet.
    pub fn new(timeout: u128) -> (r: Self)
        ensures
            r.pause_start is None,
            r.timeout == timeout,
    {
        TimeoutMonitor { pause_start: None, timeout }
    }

    /// One periodic check of the shared state at time `now`.
    pub fn tick(&mut self, state: StreamState, now: u128) -> (r: MonitorStep)
        ensures
            r == monitor_step(*old(self), state, now),
            *final(self) == monitor_after(*old(self), state, now),
    {
        match state {
            StreamState::Paused => {
                match self.pause_start {
                    None => {
                        self.pause_start = Some(now);
                        MonitorStep::Continue
                    },
                    Some(start) => {
                        if now > start && now - start > self.timeout {
                            MonitorStep::FireTimeout
                        } else {
                            MonitorStep::Continue
                        }
                    },
                }
            },
            StreamState::Running => {
                self.pause_start = None;
                MonitorStep::Continue
            },
            _ => MonitorStep::Exit,
        }
    }
}

/// The controller after each item of `items` arrived in turn.
pub open spec fn after_items<T>(c: ControlView<T>, items: Seq<Result<T, Error>>) -> ControlView<T>
    decreases items.len(),
{
    if items.len() == 0 {
        c
    } else {
        after_items(after_item(c, items[0]), items.subrange(1, items.len() as int))
    }
}

/// Whether every item is a data item.
pub open spec fn all_ok<T>(items: Seq<Result<T, Error>>) -> bool {
    forall|i: int| 0 <= i < items.len() ==> items[i] is Ok
}

proof fn lemma_items_while_paused<T>(c: ControlView<T>, items: Seq<Result<T, Error>>)
    requires
        c.is_paused,
        c.state == StreamState::Paused,
        !c.stopped,
        all_ok(items),
        c.buffered.len() + items.len() <= c.config.max_buffered_chunks,
    ensures
        after_items(c, items).buffered == c.buffered + items,
        after_items(c, items).is_paused,
        after_items(c, items).state == StreamState::Paused,
        !after_items(c, items).stopped,
        after_items(c, items).config == c.config,
    decreases items.len(),
{
    if items.len() == 0 {
        assert(c.buffered + items =~= c.buffered);
    } else {
        let c1 = after_item(c, items[0]);
        assert(items[0] is Ok);
        let rest = items.subrange(1, items.len() as int);
        assert forall|i: int| 0 <= i < rest.len() implies rest[i] is Ok by {
            assert(rest[i] == items[i + 1]);
        }
        lemma_items_while_paused(c1, rest);
        assert(c.buffered.push(items[0]) + rest =~= c.buffered + items);
    }
}

/// Pausing a running stream, receiving data items, and resuming hands back
/// exactly those items in arrival order and leaves the stream running,
/// provided the items fit in the pause buffer.
pub proof fn law_pause_resume_delivers_in_order<T>(
    c: ControlView<T>,
    rt: u64,
    now: u128,
    items: Seq<Result<T, Error>>,
)
    requires
        control_inv(c),
        !c.stopped,
        can_pause(c),
        all_ok(items),
        items.len() <= c.config.max_buffered_chunks,
    ensures
        ({
            let paused = after_items(after_pause(c, rt, now), items);
            &&& can_resume(paused)
            &&& paused.buffered == items
            &&& after_resume_start(paused).state == StreamState::Running
            &&& !after_resume_start(paused).is_paused
            &&& after_resume_start(paused).buffered.len() == 0
        }),
{
    let p = after_pause(c, rt, now);
    assert(c.buffered.len() == 0);
    lemma_items_while_paused(p, items);
    assert(p.buffered + items =~= items);
}

/// Every transition of a running task keeps the task invariant: the pause
/// buffer never holds more than the configured number of items while the task
/// runs, and holds nothing while the stream is not paused.
pub proof fn law_transitions_keep_invariant<T>(
    c: ControlView<T>,
    item: Result<T, Error>,
    rt: u64,
    now: u128,
)
    requires
        control_inv(c),
        !c.stopped,
        rt <= MAX_RESPONSE_TIME_US,
    ensures
        control_inv(after_item(c, item)),
        control_inv(after_pause(c, rt, now)),
        control_inv(after_resume_start(c)),
        control_inv(after_resume_done(after_resume_start(c), rt)),
        control_inv(after_cancel(c, rt)),
        control_inv(after_end(c)),
        control_inv(after_poll(c, now)),
        control_inv(after_timeout_signal(c)),
{
    assert(MAX_RESPONSE_TIME_US * 9 + MAX_RESPONSE_TIME_US <= u64::MAX);
}

} // verus!
