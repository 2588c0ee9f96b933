//! The CONNECT/OK handshake: request formatting, response classification,
//! and the bounded retry wait.

use kuasarctl::handshake::{
    classify_response, connect_line, contains_ok, handshake_step, run_handshake,
    HandshakeOutcome, HandshakeResponse, HandshakeStep, ReadEvent, HANDSHAKE_RETRY_BUDGET,
};

#[test]
fn test_connect_line_formats_port() {
    assert_eq!(connect_line(1025), b"CONNECT 1025\n".to_vec());
}

#[test]
fn test_connect_line_small_and_large_ports() {
    assert_eq!(connect_line(0), b"CONNECT 0\n".to_vec());
    assert_eq!(connect_line(7), b"CONNECT 7\n".to_vec());
    assert_eq!(connect_line(u32::MAX), b"CONNECT 4294967295\n".to_vec());
}

#[test]
fn test_contains_ok_finds_keyword() {
    assert!(contains_ok(b"OK\n"));
    assert!(contains_ok(b"well OK then"));
    assert!(!contains_ok(b""));
    assert!(!contains_ok(b"O"));
    assert!(!contains_ok(b"KO"));
    assert!(!contains_ok(b"no agreement here"));
}

#[test]
fn test_classify_response_cases() {
    assert!(matches!(classify_response(b""), HandshakeResponse::Empty));
    assert!(matches!(classify_response(b"OK\n"), HandshakeResponse::Accepted));
    assert!(matches!(classify_response(b"OKAY"), HandshakeResponse::Accepted));
    assert!(matches!(classify_response(b"ERR\n"), HandshakeResponse::Rejected));
    assert!(matches!(classify_response(b"O"), HandshakeResponse::Rejected));
    assert!(matches!(classify_response(b"xOK"), HandshakeResponse::Rejected));
}

#[test]
fn test_run_handshake_accepts_on_ok() {
    let events = vec![
        ReadEvent::Empty,
        ReadEvent::WouldBlock,
        ReadEvent::Data(b"banner".to_vec()),
        ReadEvent::Data(b"xx OK\n".to_vec()),
    ];
    let outcome = run_handshake(&events, HANDSHAKE_RETRY_BUDGET);
    assert!(matches!(outcome, HandshakeOutcome::Accepted));
}

#[test]
fn test_run_handshake_unresponsive_peer_exhausts_budget() {
    let mut events = Vec::new();
    for _ in 0..12 {
        events.push(ReadEvent::Empty);
    }
    let outcome = run_handshake(&events, HANDSHAKE_RETRY_BUDGET);
    assert!(matches!(outcome, HandshakeOutcome::Exhausted));
}

#[test]
fn test_run_handshake_ok_after_budget_is_too_late() {
    let mut events = Vec::new();
    for _ in 0..HANDSHAKE_RETRY_BUDGET {
        events.push(ReadEvent::Empty);
    }
    events.push(ReadEvent::Data(b"OK\n".to_vec()));
    let outcome = run_handshake(&events, HANDSHAKE_RETRY_BUDGET);
    assert!(matches!(outcome, HandshakeOutcome::Exhausted));
}

#[test]
fn test_run_handshake_hard_failure_aborts() {
    let events = vec![ReadEvent::Empty, ReadEvent::Failed, ReadEvent::Data(b"OK".to_vec())];
    let outcome = run_handshake(&events, HANDSHAKE_RETRY_BUDGET);
    assert!(matches!(outcome, HandshakeOutcome::TransportError));
}

#[test]
fn test_handshake_step_decisions() {
    assert!(matches!(
        handshake_step(&ReadEvent::Data(b"OK".to_vec())),
        HandshakeStep::Accepted
    ));
    assert!(matches!(
        handshake_step(&ReadEvent::Data(b"nothing".to_vec())),
        HandshakeStep::Retry
    ));
    assert!(matches!(handshake_step(&ReadEvent::Empty), HandshakeStep::Retry));
    assert!(matches!(handshake_step(&ReadEvent::WouldBlock), HandshakeStep::Retry));
    assert!(matches!(handshake_step(&ReadEvent::Failed), HandshakeStep::TransportError));
}
