use esms_backend::models::WsMessage;
use esms_backend::websocket::{
    HeartbeatAction, InboundEvent, SessionStatus, WsSession, CLIENT_TIMEOUT_MS,
};

fn active_session(now: i64) -> WsSession {
    let mut session = WsSession::new("client-42".to_string(), now);
    let ack = session.on_connect();
    assert!(matches!(ack, Some(WsMessage::Connected { .. })));
    session
}

#[test]
fn connect_acknowledges_with_the_client_id() {
    let mut session = WsSession::new("client-42".to_string(), 0);
    assert_eq!(session.status(), SessionStatus::Connecting);
    match session.on_connect() {
        Some(WsMessage::Connected { client_id }) => assert_eq!(client_id, "client-42"),
        other => panic!("unexpected acknowledgment: {:?}", other),
    }
    assert_eq!(session.status(), SessionStatus::Active);
    // A second acknowledgment is not sent.
    assert!(session.on_connect().is_none());
}

#[test]
fn heartbeat_probes_while_live() {
    let mut session = active_session(1000);
    let at_limit = 1000 + CLIENT_TIMEOUT_MS as i64;
    assert_eq!(session.heartbeat_tick(at_limit), HeartbeatAction::Probe);
    assert_eq!(session.status(), SessionStatus::Active);
}

#[test]
fn timeout_closes_the_session_exactly_once() {
    let mut session = active_session(1000);
    let past_limit = 1000 + CLIENT_TIMEOUT_MS as i64 + 1;
    assert_eq!(session.heartbeat_tick(past_limit), HeartbeatAction::Stop);
    assert_eq!(session.status(), SessionStatus::Closing);
    // Periodic actions are inert once the session leaves `Active`.
    assert_eq!(session.heartbeat_tick(past_limit + 1), HeartbeatAction::Idle);
    assert!(!session.poll_update(Some(7)));
    // The first finalization unregisters; any further one does not.
    assert!(session.on_close());
    assert_eq!(session.status(), SessionStatus::Closed);
    assert!(!session.on_close());
    assert_eq!(session.status(), SessionStatus::Closed);
}

#[test]
fn liveness_signals_defer_the_timeout() {
    let mut session = active_session(0);
    let late: i64 = CLIENT_TIMEOUT_MS as i64 + 1000;
    let (reply, stop) = session.handle_inbound(InboundEvent::Ping, late);
    assert!(matches!(reply, Some(WsMessage::Pong)));
    assert!(!stop);
    // Without the ping this check would have timed out.
    assert_eq!(session.heartbeat_tick(late + 1000), HeartbeatAction::Probe);
}

#[test]
fn any_inbound_message_defers_the_timeout() {
    // A client that keeps sending — even garbage — is alive.
    let mut session = active_session(0);
    let late: i64 = CLIENT_TIMEOUT_MS as i64 + 1000;
    let (_, stop) = session.handle_inbound(InboundEvent::TextMalformed, late);
    assert!(!stop);
    assert_eq!(session.heartbeat_tick(late + 1000), HeartbeatAction::Probe);

    let mut session = active_session(0);
    let (_, stop) = session.handle_inbound(InboundEvent::TextOther, late);
    assert!(!stop);
    assert_eq!(session.heartbeat_tick(late + 1000), HeartbeatAction::Probe);
}

#[test]
fn poll_pushes_once_per_identifier_change() {
    let mut session = active_session(0);
    assert!(!session.poll_update(None));
    assert!(session.poll_update(Some(5)));
    // The store is unchanged: repeated polls push nothing.
    assert!(!session.poll_update(Some(5)));
    assert!(!session.poll_update(Some(5)));
    // A new reading is pushed exactly once again.
    assert!(session.poll_update(Some(6)));
    assert!(!session.poll_update(Some(6)));
}

#[test]
fn malformed_text_is_reported_without_closing() {
    let mut session = active_session(0);
    let (reply, stop) = session.handle_inbound(InboundEvent::TextMalformed, 10);
    match reply {
        Some(WsMessage::Error { message }) => assert_eq!(message, "Invalid message format"),
        other => panic!("unexpected reply: {:?}", other),
    }
    assert!(!stop);
    assert_eq!(session.status(), SessionStatus::Active);
}

#[test]
fn close_request_and_transport_error_stop_the_session() {
    let mut session = active_session(0);
    let (reply, stop) = session.handle_inbound(InboundEvent::Close, 10);
    assert!(reply.is_none());
    assert!(stop);
    assert_eq!(session.status(), SessionStatus::Closing);

    let mut session = active_session(0);
    let (_, stop) = session.handle_inbound(InboundEvent::TransportError, 10);
    assert!(stop);
    assert_eq!(session.status(), SessionStatus::Closing);
}

#[test]
fn pong_refreshes_without_reply() {
    let mut session = active_session(0);
    let (reply, stop) = session.handle_inbound(InboundEvent::Pong, 10);
    assert!(reply.is_none());
    assert!(!stop);
    let (reply, _) = session.handle_inbound(InboundEvent::TextOther, 20);
    assert!(reply.is_none());
}
