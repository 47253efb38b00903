//! Streaming session state machine for one connected client.
//!
//! A session moves through `Connecting -> Active -> Closing -> Closed`.
//! While active it runs two periodic decisions: the heartbeat check,
//! which closes the session when the client has shown no liveness for
//! longer than the timeout, and the poll-and-diff step, which pushes one
//! update exactly when the store's latest reading identifier changed.
//! The transport loop performs the returned actions (sending frames,
//! stopping the connection, unregistering from the store); the decisions
//! themselves are all here and fully specified.

use vstd::prelude::*;

use crate::models::WsMessage;

verus! {

/// How often heartbeat probes are sent, in milliseconds.
pub const HEARTBEAT_INTERVAL_MS: u64 = 5000;

/// How long without an inbound liveness signal before a session is
/// considered dead, in milliseconds.
pub const CLIENT_TIMEOUT_MS: u64 = 30000;

/// How often the store is polled for a new reading, in milliseconds.
pub const POLL_INTERVAL_MS: u64 = 1000;

/// Lifecycle of one streaming session.
#[derive(Debug, Clone, Copy, PartialEq, Eq, Structural)]
pub enum SessionStatus {
    /// Created, connection acknowledgment not yet sent.
    Connecting,
    /// Registered and streaming.
    Active,
    /// Shutting down; periodic actions stop.
    Closing,
    /// Terminal: unregistered from the store.
    Closed,
}

/// What the transport loop must do after a heartbeat check.
#[derive(Debug, Clone, Copy, PartialEq, Eq, Structural)]
pub enum HeartbeatAction {
    /// Send an outbound liveness probe.
    Probe,
    /// The client timed out: stop the connection.
    Stop,
    /// The session is no longer active: do nothing.
    Idle,
}

/// One inbound transport event, as classified by the transport layer:
/// protocol ping/pong frames, a text payload (already parsed into a
/// liveness ping, some other well-formed message, or a malformed one), a
/// close request, or a transport error.
#[derive(Debug, Clone, Copy, PartialEq, Eq, Structural)]
pub enum InboundEvent {
    Ping,
    Pong,
    TextPing,
    TextOther,
    TextMalformed,
    Close,
    TransportError,
}

/// The event refreshes the client's liveness: any inbound message —
/// ping, pong, or any text payload, well-formed or not — is evidence
/// that the client is still responsive. A transport error is not a
/// message and refreshes nothing.
pub open spec fn spec_refreshes_liveness(event: InboundEvent) -> bool {
    event != InboundEvent::TransportError
}

/// The event ends the session.
pub open spec fn spec_closes_session(event: InboundEvent) -> bool {
    event == InboundEvent::Close || event == InboundEvent::TransportError
}

/// The event is answered with a pong.
pub open spec fn spec_answered_with_pong(event: InboundEvent) -> bool {
    event == InboundEvent::Ping || event == InboundEvent::TextPing
}

/// The heartbeat transition: from `pre` at time `now` to `post` with
/// action `r`. An active session whose last liveness signal is older than
/// the timeout moves to `Closing` with `Stop`; an active live session is
/// unchanged and emits `Probe`; an inactive session is unchanged and
/// idle. Nothing but the status ever changes.
pub open spec fn spec_heartbeat_step(
    pre: WsSession,
    post: WsSession,
    now: i64,
    r: HeartbeatAction,
) -> bool {
    &&& pre.spec_status() == SessionStatus::Active && pre.spec_timed_out(now) ==> post.spec_status()
        == SessionStatus::Closing && r == HeartbeatAction::Stop
    &&& pre.spec_status() == SessionStatus::Active && !pre.spec_timed_out(now) ==> post == pre && r
        == HeartbeatAction::Probe
    &&& pre.spec_status() != SessionStatus::Active ==> post == pre && r == HeartbeatAction::Idle
    &&& post.spec_client_id() == pre.spec_client_id()
    &&& post.spec_last_heartbeat() == pre.spec_last_heartbeat()
    &&& post.spec_last_reading_id() == pre.spec_last_reading_id()
}

/// The poll-and-diff transition: from `pre` to `post` given the latest
/// reading identifier read from the store, pushing exactly when the
/// session is active, a latest reading exists, and its identifier
/// differs from the last pushed one; the new identifier is then
/// remembered, and otherwise nothing changes.
pub open spec fn spec_poll_step(
    pre: WsSession,
    post: WsSession,
    latest_id: Option<u128>,
    push: bool,
) -> bool {
    &&& push <==> (pre.spec_status() == SessionStatus::Active && latest_id is Some
        && pre.spec_last_reading_id() != latest_id)
    &&& push ==> post.spec_last_reading_id() == latest_id
    &&& !push ==> post == pre
    &&& post.spec_status() == pre.spec_status()
    &&& post.spec_client_id() == pre.spec_client_id()
    &&& post.spec_last_heartbeat() == pre.spec_last_heartbeat()
}

/// The finalization transition: the session becomes `Closed`, and the
/// client is unregistered exactly when it was not already closed.
pub open spec fn spec_close_step(pre: WsSession, post: WsSession, unregister: bool) -> bool {
    &&& post.spec_status() == SessionStatus::Closed
    &&& unregister == (pre.spec_status() != SessionStatus::Closed)
    &&& post.spec_client_id() == pre.spec_client_id()
    &&& post.spec_last_heartbeat() == pre.spec_last_heartbeat()
    &&& post.spec_last_reading_id() == pre.spec_last_reading_id()
}

/// Server-side state of one streaming session.
#[derive(Debug)]
pub struct WsSession {
    /// Identifier of the connected client.
    client_id: String,
    /// Last observed inbound liveness signal, milliseconds since epoch.
    last_heartbeat: i64,
    /// Identifier of the last reading pushed to this client.
    last_reading_id: Option<u128>,
    /// Lifecycle state.
    status: SessionStatus,
}

impl WsSession {
    /// The client identifier.
    pub closed spec fn spec_client_id(&self) -> Seq<char> {
        self.client_id@
    }

    /// The last observed liveness time.
    pub closed spec fn spec_last_heartbeat(&self) -> i64 {
        self.last_heartbeat
    }

    /// The identifier of the last pushed reading, if any.
    pub closed spec fn spec_last_reading_id(&self) -> Option<u128> {
        self.last_reading_id
    }

    /// The lifecycle state.
    pub closed spec fn spec_status(&self) -> SessionStatus {
        self.status
    }

    /// A heartbeat check at time `now` times the session out exactly when
    /// more than the timeout has passed since the last liveness signal.
    pub open spec fn spec_timed_out(&self, now: i64) -> bool {
        now - self.spec_last_heartbeat() > CLIENT_TIMEOUT_MS
    }

    /// Create a session for a freshly connected client.
    pub fn new(client_id: String, now: i64) -> (r: WsSession)
        ensures
            r.spec_client_id() == client_id@,
            r.spec_last_heartbeat() == now,
            r.spec_last_reading_id() is None,
            r.spec_status() == SessionStatus::Connecting,
    {
        WsSession { client_id, last_heartbeat: now, last_reading_id: None, status: SessionStatus::Connecting }
    }

    /// The client identifier.
    pub fn client_id(&self) -> (r: &str)
        ensures
            r@ == self.spec_client_id(),
    {
        self.client_id.as_str()
    }

    /// The lifecycle state.
    pub fn status(&self) -> (r: SessionStatus)
        ensures
            r == self.spec_status(),
    {
        self.status
    }

    /// Acknowledge the connection: a connecting session becomes active
    /// and the connection acknowledgment (carrying the client id) is
    /// returned for sending; in any other state nothing happens.
    pub fn on_connect(&mut self) -> (r: Option<WsMessage>)
        ensures
            old(self).spec_status() == SessionStatus::Connecting ==> {
                &&& final(self).spec_status() == SessionStatus::Active
                &&& r matches Some(m) && m matches WsMessage::Connected { client_id }
                    && client_id@ == old(self).spec_client_id()
            },
            old(self).spec_status() != SessionStatus::Connecting ==> {
                &&& *final(self) == *old(self)
                &&& r is None
            },
            final(self).spec_client_id() == old(self).spec_client_id(),
            final(self).spec_last_heartbeat() == old(self).spec_last_heartbeat(),
            final(self).spec_last_reading_id() == old(self).spec_last_reading_id(),
    {
        if matches!(self.status, SessionStatus::Connecting) {
            self.status = SessionStatus::Active;
            Some(WsMessage::Connected { client_id: self.client_id.clone() })
        } else {
            None
        }
    }

    /// Run one heartbeat check at time `now`. An active session whose
    /// last liveness signal is older than the timeout moves to `Closing`
    /// and the transport must stop; an active live session emits a probe;
    /// an inactive session does nothing.
    pub fn heartbeat_tick(&mut self, now: i64) -> (r: HeartbeatAction)
        ensures
            spec_heartbeat_step(*old(self), *final(self), now, r),
    {
        if !matches!(self.status, SessionStatus::Active) {
            return HeartbeatAction::Idle;
        }
        let elapsed: i128 = now as i128 - self.last_heartbeat as i128;
        if elapsed > CLIENT_TIMEOUT_MS as i128 {
            self.status = SessionStatus::Closing;
            HeartbeatAction::Stop
        } else {
            HeartbeatAction::Probe
        }
    }

    /// Run one poll-and-diff step against the latest reading identifier
    /// read from the store. An active session pushes exactly when a
    /// latest reading exists and its identifier differs from the last
    /// pushed one, remembering the new identifier; otherwise nothing is
    /// pushed and nothing changes.
    pub fn poll_update(&mut self, latest_id: Option<u128>) -> (push: bool)
        ensures
            spec_poll_step(*old(self), *final(self), latest_id, push),
    {
        if !matches!(self.status, SessionStatus::Active) {
            return false;
        }
        match latest_id {
            None => false,
            Some(id) => {
                let seen = match self.last_reading_id {
                    Some(prev) => prev == id,
                    None => false,
                };
                if seen {
                    false
                } else {
                    self.last_reading_id = Some(id);
                    true
                }
            },
        }
    }

    /// Handle one inbound event at time `now`, returning the reply to
    /// send (if any) and whether the transport must stop. Every inbound
    /// message refreshes the heartbeat clock (a transport error does
    /// not); pings are answered with a pong; a malformed payload is
    /// answered with an error notification without closing the session;
    /// a close request or transport error moves the session to
    /// `Closing`. A session that is not active ignores the event.
    pub fn handle_inbound(&mut self, event: InboundEvent, now: i64) -> (r: (
        Option<WsMessage>,
        bool,
    ))
        ensures
            old(self).spec_status() != SessionStatus::Active ==> *final(self) == *old(self) && r.0
                is None && r.1 == false,
            old(self).spec_status() == SessionStatus::Active ==> {
                &&& final(self).spec_last_heartbeat() == (if spec_refreshes_liveness(event) {
                    now
                } else {
                    old(self).spec_last_heartbeat()
                })
                &&& final(self).spec_status() == (if spec_closes_session(event) {
                    SessionStatus::Closing
                } else {
                    SessionStatus::Active
                })
                &&& r.1 == spec_closes_session(event)
                &&& spec_answered_with_pong(event) ==> (r.0 matches Some(m) && m is Pong)
                &&& event == InboundEvent::TextMalformed ==> (r.0 matches Some(m)
                    && m matches WsMessage::Error { message }
                    && message@ == "Invalid message format"@)
                &&& (event == InboundEvent::Pong || event == InboundEvent::TextOther
                    || spec_closes_session(event)) ==> r.0 is None
            },
            final(self).spec_client_id() == old(self).spec_client_id(),
            final(self).spec_last_reading_id() == old(self).spec_last_reading_id(),
    {
        if !matches!(self.status, SessionStatus::Active) {
            return (None, false);
        }
        match event {
            InboundEvent::Ping => {
                self.last_heartbeat = now;
                (Some(WsMessage::Pong), false)
            },
            InboundEvent::Pong => {
                self.last_heartbeat = now;
                (None, false)
            },
            InboundEvent::TextPing => {
                self.last_heartbeat = now;
                (Some(WsMessage::Pong), false)
            },
            InboundEvent::TextOther => {
                self.last_heartbeat = now;
                (None, false)
            },
            InboundEvent::TextMalformed => {
                self.last_heartbeat = now;
                (Some(WsMessage::Error { message: "Invalid message format".to_owned() }), false)
            },
            InboundEvent::Close => {
                self.last_heartbeat = now;
                self.status = SessionStatus::Closing;
                (None, true)
            },
            InboundEvent::TransportError => {
                self.status = SessionStatus::Closing;
                (None, true)
            },
        }
    }

    /// Finalize the session: it becomes `Closed`, and the caller must
    /// unregister the client from the store exactly when this is the
    /// first finalization — the returned flag is true at most once over
    /// the session's lifetime, whatever path triggered closure.
    pub fn on_close(&mut self) -> (unregister: bool)
        ensures
            spec_close_step(*old(self), *final(self), unregister),
    {
        let first = !matches!(self.status, SessionStatus::Closed);
        self.status = SessionStatus::Closed;
        first
    }
}

/// An active session whose heartbeat gap exceeds the timeout, with no
/// inbound traffic, is closed exactly once: the heartbeat check stops it
/// and moves it to `Closing`, the first finalization reaches `Closed` and
/// unregisters the client, and any further finalization changes nothing
/// and does not unregister again.
pub proof fn lemma_timeout_closes_exactly_once(
    s0: WsSession,
    s1: WsSession,
    s2: WsSession,
    s3: WsSession,
    now: i64,
    action: HeartbeatAction,
    unregister1: bool,
    unregister2: bool,
)
    requires
        s0.spec_status() == SessionStatus::Active,
        s0.spec_timed_out(now),
        spec_heartbeat_step(s0, s1, now, action),
        spec_close_step(s1, s2, unregister1),
        spec_close_step(s2, s3, unregister2),
    ensures
        action == HeartbeatAction::Stop,
        s1.spec_status() == SessionStatus::Closing,
        s2.spec_status() == SessionStatus::Closed,
        unregister1,
        !unregister2,
        s3.spec_status() == SessionStatus::Closed,
{
}

/// At most one update is pushed per distinct latest-reading identifier:
/// once a poll step has seen identifier `id` — whether or not it pushed —
/// a further poll step against the same unchanged identifier never
/// pushes.
pub proof fn lemma_no_duplicate_push(
    s0: WsSession,
    s1: WsSession,
    s2: WsSession,
    id: u128,
    push1: bool,
    push2: bool,
)
    requires
        spec_poll_step(s0, s1, Some(id), push1),
        spec_poll_step(s1, s2, Some(id), push2),
    ensures
        !push2,
        s2 == s1,
{
}

/// Message carrying one sensor update to broadcast to a session.
#[derive(Debug, Clone)]
pub struct BroadcastReading(pub crate::models::SensorReading);

} // verus!
