//! The duplex relay: per-event decisions, byte delivery, and session
//! outcomes.

use kuasarctl::relay::{
    relay_step, run_relay, session_outcome, RelayAction, RelayEnd, RelayEvent, SessionOutcome,
};

#[test]
fn test_relay_round_trip_hello_world() {
    let events = vec![RelayEvent::Chunk(b"Hello, World!".to_vec()), RelayEvent::Closed];
    let (out, end) = run_relay(&events);
    assert_eq!(out, b"Hello, World!".to_vec());
    assert!(matches!(end, Some(RelayEnd::PeerClosed)));
}

#[test]
fn test_relay_delivers_bytes_before_close_in_order() {
    let events = vec![
        RelayEvent::Chunk(b"first ".to_vec()),
        RelayEvent::WouldBlock,
        RelayEvent::Chunk(b"second".to_vec()),
        RelayEvent::Interrupted,
        RelayEvent::Closed,
        RelayEvent::Chunk(b"lost".to_vec()),
    ];
    let (out, end) = run_relay(&events);
    assert_eq!(out, b"first second".to_vec());
    assert!(matches!(end, Some(RelayEnd::PeerClosed)));
}

#[test]
fn test_relay_hard_failure_stops_delivery() {
    let events = vec![
        RelayEvent::Chunk(b"kept".to_vec()),
        RelayEvent::Failed,
        RelayEvent::Chunk(b"dropped".to_vec()),
    ];
    let (out, end) = run_relay(&events);
    assert_eq!(out, b"kept".to_vec());
    assert!(matches!(end, Some(RelayEnd::Failed)));
}

#[test]
fn test_relay_without_events_is_empty() {
    let (out, end) = run_relay(&Vec::new());
    assert!(out.is_empty());
    assert!(end.is_none());
}

#[test]
fn test_relay_step_decisions() {
    assert!(matches!(
        relay_step(false, &RelayEvent::Chunk(b"x".to_vec())),
        RelayAction::Forward
    ));
    assert!(matches!(relay_step(false, &RelayEvent::Interrupted), RelayAction::Retry));
    assert!(matches!(relay_step(false, &RelayEvent::WouldBlock), RelayAction::Retry));
    assert!(matches!(relay_step(false, &RelayEvent::Closed), RelayAction::Stop));
    assert!(matches!(relay_step(false, &RelayEvent::Failed), RelayAction::Stop));
}

#[test]
fn test_relay_step_cancellation_wins() {
    assert!(matches!(
        relay_step(true, &RelayEvent::Chunk(b"x".to_vec())),
        RelayAction::Stop
    ));
    assert!(matches!(relay_step(true, &RelayEvent::Interrupted), RelayAction::Stop));
}

#[test]
fn test_session_outcome_interrupt_wins() {
    let o = session_outcome(&RelayEnd::PeerClosed, &RelayEnd::Failed, true);
    assert!(matches!(o, SessionOutcome::Interrupted));
}

#[test]
fn test_session_outcome_failure_before_closure() {
    let o = session_outcome(&RelayEnd::Failed, &RelayEnd::PeerClosed, false);
    assert!(matches!(o, SessionOutcome::Failed));
}

#[test]
fn test_session_outcome_remote_closed() {
    let o = session_outcome(&RelayEnd::Cancelled, &RelayEnd::PeerClosed, false);
    assert!(matches!(o, SessionOutcome::RemoteClosed));
}

#[test]
fn test_session_outcome_local_closed() {
    let o = session_outcome(&RelayEnd::PeerClosed, &RelayEnd::Cancelled, false);
    assert!(matches!(o, SessionOutcome::LocalClosed));
}

#[test]
fn test_session_outcome_completed() {
    let o = session_outcome(&RelayEnd::Cancelled, &RelayEnd::Cancelled, false);
    assert!(matches!(o, SessionOutcome::Completed));
}
