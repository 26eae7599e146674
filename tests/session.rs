use smartlab::session::{
    ConsumerStep, FrameStep, Incoming, PumpStep, Session, SessionPhase, FRAME_INTERVAL_MS,
};

fn streaming() -> Session {
    let mut s = Session::new();
    s.on_upgrade(true);
    s
}

#[test]
fn new_session_defaults() {
    let s = Session::new();
    assert_eq!(s.phase, SessionPhase::Handshaking);
    assert_eq!(s.quality, 40);
    assert_eq!(s.frame_delay_ms, FRAME_INTERVAL_MS);
    assert_eq!(FRAME_INTERVAL_MS, 50);
}

#[test]
fn failed_handshake_closes() {
    let mut s = Session::new();
    s.on_upgrade(false);
    assert!(s.is_closed());
}

#[test]
fn remote_close_reaches_closed() {
    let mut s = streaming();
    assert_eq!(s.on_message(Incoming::Text), ConsumerStep::Dispatch);
    assert_eq!(s.on_message(Incoming::Other), ConsumerStep::Ignore);
    assert_eq!(s.on_message(Incoming::Close), ConsumerStep::Stop);
    assert_eq!(s.phase, SessionPhase::Closing);
    assert!(!s.consumer_continues());
    assert_eq!(s.pump_tick(), PumpStep::Stop);
    assert!(s.is_closed());
}

#[test]
fn read_error_while_pump_captures_still_closes() {
    let mut s = streaming();
    assert_eq!(s.pump_tick(), PumpStep::Capture);
    assert_eq!(s.on_message(Incoming::Error), ConsumerStep::Stop);
    assert_eq!(s.on_capture(true), FrameStep::Send);
    s.on_send(true);
    assert_eq!(s.pump_tick(), PumpStep::Stop);
    assert!(s.is_closed());
}

#[test]
fn silent_client_keeps_receiving_frames() {
    let mut s = streaming();
    for _ in 0..100 {
        assert_eq!(s.pump_tick(), PumpStep::Capture);
        assert_eq!(s.on_capture(true), FrameStep::Send);
        s.on_send(true);
    }
    assert_eq!(s.phase, SessionPhase::Streaming);
    assert_eq!(s.on_message(Incoming::End), ConsumerStep::Stop);
    assert_eq!(s.pump_tick(), PumpStep::Stop);
    assert!(s.is_closed());
}

#[test]
fn third_capture_failure_in_a_row_closes() {
    let mut s = streaming();
    assert_eq!(s.on_capture(false), FrameStep::Skip);
    assert_eq!(s.on_capture(false), FrameStep::Skip);
    assert_eq!(s.on_capture(true), FrameStep::Send);
    assert_eq!(s.on_capture(false), FrameStep::Skip);
    assert_eq!(s.on_capture(false), FrameStep::Skip);
    assert_eq!(s.on_capture(false), FrameStep::Close);
    assert_eq!(s.phase, SessionPhase::Closing);
    assert!(!s.consumer_continues());
    assert_eq!(s.on_message(Incoming::Close), ConsumerStep::Stop);
    assert!(s.is_closed());
}

#[test]
fn send_failure_ends_pump() {
    let mut s = streaming();
    s.on_send(false);
    assert_eq!(s.phase, SessionPhase::Closing);
    // The consumer stops reading once the session is closing.
    assert_eq!(s.on_message(Incoming::Text), ConsumerStep::Stop);
    assert!(s.is_closed());
}
