//! WebSocket streaming sessions and their manager: the registry of active
//! sessions by identifier, the session state and counters, and the state
//! changes that stream control commands make.
//!
//! Moving messages over channels between a session and its listeners is
//! done outside.

use vstd::prelude::*;
use crate::config::wrap_inc;
use crate::text::{concat2, text_eq, u64_to_decimal, decimal};
use crate::websocket::{SessionMetrics, StreamControl, StreamSessionState, WebSocketStreamMessage};
use crate::error::Error;
use crate::websocket_streaming::{
    WebSocketConfig, WebSocketConnection, WebSocketConnectionState, WebSocketMetrics, WebSocketPoolConfig, not_connected_message,
    zero_websocket_metrics,
};

verus! {

/// The identifier of the session made with counter value `n`.
pub open spec fn session_label(n: u64) -> Seq<char> {
    "ws_session_"@ + decimal(n as nat)
}

/// Counters of a new session: all zero, no activity.
pub open spec fn zero_session_metrics() -> SessionMetrics {
    SessionMetrics {
        messages_sent: 0,
        messages_received: 0,
        bytes_sent: 0,
        bytes_received: 0,
        uptime_seconds: 0,
        reconnection_count: 0,
        last_activity: None,
        error_count: 0,
    }
}

/// The state a control command puts a session in.
pub open spec fn state_after_command(command: StreamControl) -> StreamSessionState {
    match command {
        StreamControl::Start => StreamSessionState::Active,
        StreamControl::Pause => StreamSessionState::Paused,
        StreamControl::Resume => StreamSessionState::Active,
        StreamControl::Stop => StreamSessionState::Terminated,
        StreamControl::Reset => StreamSessionState::Initializing,
    }
}

/// One WebSocket streaming session.
#[derive(Debug)]
pub struct WebSocketStreamSession {
    /// Unique identifier.
    pub session_id: String,
    /// State.
    pub state: StreamSessionState,
    /// The connection.
    pub connection: WebSocketConnection,
    /// Configuration.
    pub config: WebSocketConfig,
    /// Counters.
    pub metrics: SessionMetrics,
    /// When the session was made.
    pub created_at: u128,
}

impl WebSocketStreamSession {
    /// A session `session_id` over `connection` with `config`, made at
    /// `created_at`: being initialised, counters at zero.
    pub fn new(session_id: String, connection: WebSocketConnection, config: WebSocketConfig, created_at: u128) -> (r: Self)
        ensures
            r.session_id == session_id,
            r.state == StreamSessionState::Initializing,
            r.connection == connection,
            r.config == config,
            r.metrics == zero_session_metrics(),
            r.created_at == created_at,
    {
        WebSocketStreamSession {
            session_id,
            state: StreamSessionState::Initializing,
            connection,
            config,
            metrics: SessionMetrics {
                messages_sent: 0,
                messages_received: 0,
                bytes_sent: 0,
                bytes_received: 0,
                uptime_seconds: 0,
                reconnection_count: 0,
                last_activity: None,
                error_count: 0,
            },
            created_at,
        }
    }

    /// The state.
    pub fn get_state(&self) -> (r: StreamSessionState)
        ensures
            r == self.state,
    {
        self.state
    }

    /// Sets the state.
    pub fn set_state(&mut self, new_state: StreamSessionState)
        ensures
            *final(self) == (WebSocketStreamSession { state: new_state, ..*old(self) }),
    {
        self.state = new_state;
    }

    /// The counters.
    pub fn get_metrics(&self) -> (r: SessionMetrics)
        ensures
            r == self.metrics,
    {
        self.metrics
    }

    /// The configuration.
    pub fn get_config(&self) -> (r: &WebSocketConfig)
        ensures
            *r == self.config,
    {
        &self.config
    }

    /// When the session was made.
    pub fn get_created_at(&self) -> (r: u128)
        ensures
            r == self.created_at,
    {
        self.created_at
    }

    /// Counts a message handed over for sending at `now_secs` (seconds
    /// from the Unix epoch).
    pub fn record_sent(&mut self, now_secs: u64)
        ensures
            *final(self) == (WebSocketStreamSession {
                metrics: SessionMetrics {
                    messages_sent: wrap_inc(old(self).metrics.messages_sent),
                    last_activity: Some(now_secs),
                    ..old(self).metrics
                },
                ..*old(self)
            }),
    {
        self.metrics.messages_sent = self.metrics.messages_sent.wrapping_add(1);
        self.metrics.last_activity = Some(now_secs);
    }

    /// Closes the session: it is marked terminated and its connection is
    /// closed, whose result is returned (see [`WebSocketConnection::close`]:
    /// the closing message is refused, so the result is that refusal).
    pub fn close(&mut self) -> (r: Result<(), Error>)
        ensures
            *final(self) == (WebSocketStreamSession {
                state: StreamSessionState::Terminated,
                connection: WebSocketConnection { state: WebSocketConnectionState::Closing, ..old(self).connection },
                ..*old(self)
            }),
            r matches Err(e) && (e matches Error::ApiError(m) && m@ == not_connected_message()),
    {
        self.set_state(StreamSessionState::Terminated);
        let (r, _announced) = self.connection.close();
        r
    }

    /// Applies a stream control command: the session takes the state the
    /// command calls for (see [`state_after_command`]), and the control
    /// message to send over the connection is returned.
    pub fn control(&mut self, command: StreamControl) -> (r: WebSocketStreamMessage)
        ensures
            *final(self) == (WebSocketStreamSession { state: state_after_command(command), ..*old(self) }),
            r matches WebSocketStreamMessage::Control { command: c, metadata } && c == command && metadata is None,
    {
        let state = match command {
            StreamControl::Start => StreamSessionState::Active,
            StreamControl::Pause => StreamSessionState::Paused,
            StreamControl::Resume => StreamSessionState::Active,
            StreamControl::Stop => StreamSessionState::Terminated,
            StreamControl::Reset => StreamSessionState::Initializing,
        };
        self.set_state(state);
        WebSocketStreamMessage::Control { command, metadata: None }
    }
}

/// A session after [`WebSocketStreamSession::close`].
pub open spec fn closed_session(s: WebSocketStreamSession) -> WebSocketStreamSession {
    WebSocketStreamSession {
        state: StreamSessionState::Terminated,
        connection: WebSocketConnection { state: WebSocketConnectionState::Closing, ..s.connection },
        ..s
    }
}

/// The identifiers of a list of sessions, in order.
pub open spec fn session_ids(s: Seq<WebSocketStreamSession>) -> Seq<Seq<char>> {
    s.map_values(|x: WebSocketStreamSession| x.session_id@)
}

/// The position of the session with identifier `id`, or -1.
pub open spec fn session_position(s: Seq<WebSocketStreamSession>, id: Seq<char>) -> int
    decreases s.len(),
{
    if s.len() == 0 {
        -1
    } else if s.last().session_id@ == id {
        s.len() - 1
    } else {
        session_position(s.drop_last(), id)
    }
}

/// Whether no two sessions share an identifier.
pub open spec fn ids_unique(s: Seq<WebSocketStreamSession>) -> bool {
    forall|i: int, j: int| 0 <= i < j < s.len() ==> s[i].session_id@ != s[j].session_id@
}

/// Where [`session_position`] points, and when it finds nothing.
pub proof fn lemma_session_position(s: Seq<WebSocketStreamSession>, id: Seq<char>)
    ensures
        -1 <= session_position(s, id) < s.len(),
        session_position(s, id) >= 0 ==> s[session_position(s, id)].session_id@ == id,
        session_position(s, id) < 0 <==> forall|j: int| 0 <= j < s.len() ==> s[j].session_id@ != id,
    decreases s.len(),
{
    if s.len() > 0 {
        lemma_session_position(s.drop_last(), id);
        if s.last().session_id@ != id {
            assert forall|j: int| 0 <= j < s.len() - 1 implies s.drop_last()[j] == s[j] by {}
            if session_position(s.drop_last(), id) >= 0 {
                let p = session_position(s.drop_last(), id);
                assert(s.drop_last()[p] == s[p]);
            } else {
                assert forall|j: int| 0 <= j < s.len() implies s[j].session_id@ != id by {
                    if j < s.len() - 1 {
                        assert(s.drop_last()[j] == s[j]);
                    }
                }
            }
        }
    }
}

/// Manager of the active WebSocket sessions.
#[derive(Debug)]
pub struct WebSocketConnectionManager {
    /// Active sessions, in the order they were registered.
    pub sessions: Vec<WebSocketStreamSession>,
    /// Pool configuration.
    pub pool_config: WebSocketPoolConfig,
    /// Global counters.
    pub global_metrics: WebSocketMetrics,
    /// Counter from which session identifiers are made.
    pub connection_counter: u64,
    /// Whether the manager runs.
    pub is_running: bool,
}

impl WebSocketConnectionManager {
    /// Well-formedness: no two sessions share an identifier.
    pub open spec fn wf(&self) -> bool {
        ids_unique(self.sessions@)
    }

    /// A stopped manager without sessions.
    pub fn new(pool_config: WebSocketPoolConfig) -> (r: Self)
        ensures
            r.wf(),
            r.sessions@.len() == 0,
            r.pool_config == pool_config,
            r.global_metrics == zero_websocket_metrics(),
            r.connection_counter == 0,
            !r.is_running,
    {
        WebSocketConnectionManager {
            sessions: Vec::new(),
            pool_config,
            global_metrics: WebSocketMetrics::zero(),
            connection_counter: 0,
            is_running: false,
        }
    }

    /// Marks the manager running.
    pub fn start(&mut self)
        ensures
            *final(self) == (WebSocketConnectionManager { is_running: true, ..*old(self) }),
    {
        self.is_running = true;
    }

    /// Stops the manager and closes every session (see
    /// [`WebSocketStreamSession::close`]; their results are dropped); the
    /// closed sessions are handed over in the order they were registered.
    pub fn stop(&mut self) -> (r: Vec<WebSocketStreamSession>)
        ensures
            !final(self).is_running,
            final(self).sessions@.len() == 0,
            final(self).wf(),
            final(self).pool_config == old(self).pool_config,
            final(self).global_metrics == old(self).global_metrics,
            final(self).connection_counter == old(self).connection_counter,
            r@.len() == old(self).sessions@.len(),
            forall|i: int| 0 <= i < r@.len() ==> #[trigger] r@[i] == closed_session(old(self).sessions@[i]),
    {
        self.is_running = false;
        let mut drained: Vec<WebSocketStreamSession> = Vec::new();
        std::mem::swap(&mut drained, &mut self.sessions);
        let ghost d0 = drained@;
        let mut i: usize = 0;
        while i < drained.len()
            invariant
                drained@.len() == d0.len(),
                i <= d0.len(),
                forall|j: int| 0 <= j < i ==> #[trigger] drained@[j] == closed_session(d0[j]),
                forall|j: int| i <= j < d0.len() ==> #[trigger] drained@[j] == d0[j],
            decreases d0.len() - i,
        {
            let mut s = drained.remove(i);
            let _ = s.close();
            drained.insert(i, s);
            i = i + 1;
        }
        drained
    }

    /// The identifier of the next session, drawn from the counter, which
    /// moves on (wrapping).
    pub fn next_session_id(&mut self) -> (r: String)
        ensures
            r@ == session_label(old(self).connection_counter),
            *final(self) == (WebSocketConnectionManager { connection_counter: wrap_inc(old(self).connection_counter), ..*old(self) }),
    {
        proof { reveal_strlit("ws_session_"); }
        let n = self.connection_counter;
        self.connection_counter = n.wrapping_add(1);
        concat2("ws_session_", u64_to_decimal(n).as_str())
    }

    /// Opens a session to `endpoint` with `config` at `now`: its identifier
    /// is drawn from the counter (see [`WebSocketConnectionManager::next_session_id`]),
    /// its connection established (see [`WebSocketConnection::connect`]),
    /// and it is registered (see [`WebSocketConnectionManager::insert_session`]).
    pub fn create_session(&mut self, endpoint: &str, config: WebSocketConfig, now: u128) -> (r: Result<String, Error>)
        requires
            old(self).wf(),
        ensures
            final(self).wf(),
            r matches Ok(id) && id@ == session_label(old(self).connection_counter) && ({
                let p = session_position(old(self).sessions@, id@);
                let s = final(self).sessions@[if p < 0 { old(self).sessions@.len() as int } else { p }];
                &&& (if p < 0 { final(self).sessions@.len() == old(self).sessions@.len() + 1 } else { final(self).sessions@.len() == old(self).sessions@.len() })
                &&& (forall|j: int| 0 <= j < old(self).sessions@.len() && j != p ==> final(self).sessions@[j] == old(self).sessions@[j])
                &&& s.session_id@ == id@
                &&& s.state == StreamSessionState::Initializing
                &&& s.connection.state == WebSocketConnectionState::Connected
                &&& s.connection.config == config
                &&& s.connection.metrics == (WebSocketMetrics { connection_count: 1, ..zero_websocket_metrics() })
                &&& s.config == config
                &&& s.metrics == zero_session_metrics()
                &&& s.created_at == now
            }),
            final(self).connection_counter == wrap_inc(old(self).connection_counter),
            final(self).pool_config == old(self).pool_config,
            final(self).global_metrics == old(self).global_metrics,
            final(self).is_running == old(self).is_running,
    {
        let ghost s0 = self.sessions@;
        let session_id = self.next_session_id();
        let (connection, _announced) = WebSocketConnection::connect(config);
        let session = WebSocketStreamSession::new(session_id.clone(), connection, config, now);
        assert(session.session_id@ == session_id@);
        proof { lemma_session_position(s0, session_id@); }
        self.insert_session(session);
        Ok(session_id)
    }

    fn position(&self, session_id: &str) -> (r: Option<usize>)
        ensures
            r matches Some(i) ==> i == session_position(self.sessions@, session_id@) && i < self.sessions@.len(),
            r is None ==> session_position(self.sessions@, session_id@) < 0,
    {
        proof { lemma_session_position(self.sessions@, session_id@); }
        let mut i: usize = self.sessions.len();
        while i > 0
            invariant
                i <= self.sessions@.len(),
                session_position(self.sessions@, session_id@) < i,
            decreases i,
        {
            if text_eq(self.sessions[i - 1].session_id.as_str(), session_id) {
                proof { lemma_position_at(self.sessions@, session_id@, i as int - 1); }
                return Some(i - 1);
            }
            proof { lemma_position_below(self.sessions@, session_id@, i as int - 1); }
            i = i - 1;
        }
        None
    }

    /// Registers `session`; a session with the same identifier is replaced.
    pub fn insert_session(&mut self, session: WebSocketStreamSession)
        requires
            old(self).wf(),
        ensures
            final(self).wf(),
            ({
                let p = session_position(old(self).sessions@, session.session_id@);
                if p < 0 {
                    final(self).sessions@ == old(self).sessions@.push(session)
                } else {
                    final(self).sessions@ == old(self).sessions@.update(p, session)
                }
            }),
            final(self).pool_config == old(self).pool_config,
            final(self).global_metrics == old(self).global_metrics,
            final(self).connection_counter == old(self).connection_counter,
            final(self).is_running == old(self).is_running,
    {
        let ghost s0 = self.sessions@;
        proof { lemma_session_position(s0, session.session_id@); }
        match self.position(session.session_id.as_str()) {
            Some(i) => {
                self.sessions.set(i, session);
                proof {
                    assert forall|a: int, b: int| 0 <= a < b < self.sessions@.len()
                        implies self.sessions@[a].session_id@ != self.sessions@[b].session_id@ by {
                        if a != i && b != i {
                            assert(s0[a].session_id@ != s0[b].session_id@);
                        }
                    }
                }
            },
            None => {
                self.sessions.push(session);
            },
        }
    }

    /// The session with identifier `session_id`, if it is registered.
    pub fn get_session(&self, session_id: &str) -> (r: Option<&WebSocketStreamSession>)
        ensures
            session_position(self.sessions@, session_id@) < 0 ==> r is None,
            session_position(self.sessions@, session_id@) >= 0 ==> r == Some(&self.sessions@[session_position(self.sessions@, session_id@)]),
    {
        match self.position(session_id) {
            Some(i) => Some(&self.sessions[i]),
            None => None,
        }
    }

    /// Takes the session with identifier `session_id` out of the registry
    /// and closes it, with the result of closing (see
    /// [`WebSocketStreamSession::close`]); without such a session nothing
    /// changes.
    pub fn remove_session(&mut self, session_id: &str) -> (r: Result<(), Error>)
        requires
            old(self).wf(),
        ensures
            final(self).wf(),
            ({
                let p = session_position(old(self).sessions@, session_id@);
                if p < 0 {
                    r is Ok && final(self).sessions@ == old(self).sessions@
                } else {
                    &&& final(self).sessions@ == old(self).sessions@.remove(p)
                    &&& r matches Err(e) && (e matches Error::ApiError(m) && m@ == not_connected_message())
                }
            }),
            final(self).pool_config == old(self).pool_config,
            final(self).global_metrics == old(self).global_metrics,
            final(self).connection_counter == old(self).connection_counter,
            final(self).is_running == old(self).is_running,
    {
        let ghost s0 = self.sessions@;
        match self.position(session_id) {
            Some(i) => {
                let mut s = self.sessions.remove(i);
                proof {
                    assert forall|a: int, b: int| 0 <= a < b < self.sessions@.len()
                        implies self.sessions@[a].session_id@ != self.sessions@[b].session_id@ by {
                        let a0 = if a < i { a } else { a + 1 };
                        let b0 = if b < i { b } else { b + 1 };
                        assert(self.sessions@[a] == s0[a0]);
                        assert(self.sessions@[b] == s0[b0]);
                    }
                }
                s.close()
            },
            None => Ok(()),
        }
    }

    /// The identifiers of the registered sessions.
    pub fn list_sessions(&self) -> (r: Vec<String>)
        ensures
            r@.map_values(|s: String| s@) == session_ids(self.sessions@),
    {
        let mut r: Vec<String> = Vec::new();
        let mut i: usize = 0;
        while i < self.sessions.len()
            invariant
                i <= self.sessions@.len(),
                r@.len() == i,
                forall|j: int| 0 <= j < i ==> #[trigger] r@[j]@ == self.sessions@[j].session_id@,
            decreases self.sessions@.len() - i,
        {
            r.push(self.sessions[i].session_id.clone());
            i = i + 1;
        }
        assert(r@.map_values(|s: String| s@) =~= session_ids(self.sessions@));
        r
    }

    /// The global counters.
    pub fn get_metrics(&self) -> (r: WebSocketMetrics)
        ensures
            r == self.global_metrics,
    {
        self.global_metrics
    }

    /// The pool configuration.
    pub fn get_pool_config(&self) -> (r: &WebSocketPoolConfig)
        ensures
            *r == self.pool_config,
    {
        &self.pool_config
    }
}

proof fn lemma_position_at(s: Seq<WebSocketStreamSession>, id: Seq<char>, i: int)
    requires
        0 <= i < s.len(),
        s[i].session_id@ == id,
        session_position(s, id) < i + 1,
    ensures
        session_position(s, id) == i,
    decreases s.len(),
{
    if s.len() - 1 != i {
        assert(s.last().session_id@ != id || session_position(s, id) == s.len() - 1);
        lemma_position_at(s.drop_last(), id, i);
    }
}

proof fn lemma_position_below(s: Seq<WebSocketStreamSession>, id: Seq<char>, i: int)
    requires
        0 <= i < s.len(),
        s[i].session_id@ != id,
        session_position(s, id) < i + 1,
    ensures
        session_position(s, id) < i,
    decreases s.len(),
{
    if s.len() - 1 > i {
        lemma_position_below(s.drop_last(), id, i);
    } else {
        lemma_session_position(s.drop_last(), id);
    }
}

/// A registered session is found by its identifier, and once removed it is
/// no longer found.
pub proof fn law_session_registry(m: WebSocketConnectionManager, s: WebSocketStreamSession)
    requires
        m.wf(),
    ensures
        ({
            let p = session_position(m.sessions@, s.session_id@);
            let after = if p < 0 { m.sessions@.push(s) } else { m.sessions@.update(p, s) };
            &&& session_position(after, s.session_id@) >= 0
            &&& after[session_position(after, s.session_id@)] == s
        }),
        ({
            let p = session_position(m.sessions@, s.session_id@);
            p >= 0 ==> session_position(m.sessions@.remove(p), s.session_id@) < 0
        }),
{
    let s0 = m.sessions@;
    let id = s.session_id@;
    let p = session_position(s0, id);
    lemma_session_position(s0, id);
    if p < 0 {
        let after = s0.push(s);
        assert(after.last().session_id@ == id);
    } else {
        let after = s0.update(p, s);
        lemma_session_position(after, id);
        if session_position(after, id) < 0 {
            assert(after[p].session_id@ == id);
        }
        let q = session_position(after, id);
        if q != p {
            assert(after[q] == s0[q]);
            if q < p {
                assert(s0[q].session_id@ != s0[p].session_id@);
            } else {
                assert(s0[p].session_id@ != s0[q].session_id@);
            }
        }
        let removed = s0.remove(p);
        lemma_session_position(removed, id);
        if session_position(removed, id) >= 0 {
            let r = session_position(removed, id);
            if r < p {
                assert(removed[r] == s0[r]);
                assert(s0[r].session_id@ != s0[p].session_id@);
            } else {
                assert(removed[r] == s0[r + 1]);
                assert(s0[p].session_id@ != s0[r + 1].session_id@);
            }
        }
    }
}

} // verus!
