use audio_loopback::config::{ConfigError, LatencyConfig};
use audio_loopback::session::{
    configure, SessionController, SessionState, StreamStartError, Teardown,
};

const NOTHING: Teardown = Teardown { stop_input: false, stop_output: false };
const BOTH: Teardown = Teardown { stop_input: true, stop_output: true };

#[test]
fn session_starts_configured() {
    let controller = SessionController::new();
    assert_eq!(controller.state(), SessionState::Configured);
    assert!(controller.can_start());
}

#[test]
fn start_with_both_streams_up() {
    let mut controller = SessionController::new();
    assert_eq!(controller.start(true, true), Ok(()));
    assert_eq!(controller.state(), SessionState::Streaming);
    assert!(!controller.can_start());
}

#[test]
fn start_with_output_down_stops_the_input() {
    let mut controller = SessionController::new();
    let expected = Teardown { stop_input: true, stop_output: false };
    assert_eq!(controller.start(true, false), Err(StreamStartError { teardown: expected }));
    assert_eq!(controller.state(), SessionState::Stopped);
}

#[test]
fn start_with_input_down_stops_the_output() {
    let mut controller = SessionController::new();
    let expected = Teardown { stop_input: false, stop_output: true };
    assert_eq!(controller.start(false, true), Err(StreamStartError { teardown: expected }));
    assert_eq!(controller.state(), SessionState::Stopped);
}

#[test]
fn start_with_both_down_stops_nothing() {
    let mut controller = SessionController::new();
    assert_eq!(controller.start(false, false), Err(StreamStartError { teardown: NOTHING }));
    assert_eq!(controller.state(), SessionState::Stopped);
}

#[test]
fn stop_while_streaming_stops_both() {
    let mut controller = SessionController::new();
    assert_eq!(controller.start(true, true), Ok(()));
    assert_eq!(controller.stop(), BOTH);
    assert_eq!(controller.state(), SessionState::Stopped);
}

#[test]
fn stop_is_idempotent() {
    let mut controller = SessionController::new();
    assert_eq!(controller.start(true, true), Ok(()));
    assert_eq!(controller.stop(), BOTH);
    assert_eq!(controller.stop(), NOTHING);
    assert_eq!(controller.stop(), NOTHING);
    assert_eq!(controller.state(), SessionState::Stopped);
}

#[test]
fn stop_before_start_stops_nothing() {
    let mut controller = SessionController::new();
    assert_eq!(controller.stop(), NOTHING);
    assert_eq!(controller.state(), SessionState::Stopped);
}

#[test]
fn stopped_session_does_not_start_again() {
    let mut controller = SessionController::new();
    assert_eq!(controller.stop(), NOTHING);
    assert!(!controller.can_start());
    assert_eq!(controller.start(true, true), Err(StreamStartError { teardown: BOTH }));
    assert_eq!(controller.state(), SessionState::Stopped);
}

#[test]
fn second_start_leaves_the_session_streaming() {
    let mut controller = SessionController::new();
    assert_eq!(controller.start(true, true), Ok(()));
    let expected = Teardown { stop_input: true, stop_output: false };
    assert_eq!(controller.start(true, false), Err(StreamStartError { teardown: expected }));
    assert_eq!(controller.state(), SessionState::Streaming);
}

#[test]
fn configure_hands_out_a_prefilled_queue() {
    let config = LatencyConfig { target_latency_us: 1_000, sample_rate: 8000, channels: 1 };
    let (controller, mut feeder, mut drainer) = configure(&config).ok().unwrap();
    assert_eq!(controller.state(), SessionState::Configured);
    // Eight samples of silence are queued and eight slots are free.
    assert!(!feeder.feed(&[1, 2, 3, 4, 5, 6, 7, 8]));
    assert!(feeder.feed(&[9]));
    let mut out = [5u32; 17];
    assert!(drainer.drain(&mut out));
    assert_eq!(out, [0, 0, 0, 0, 0, 0, 0, 0, 1, 2, 3, 4, 5, 6, 7, 8, 0]);
}

#[test]
fn configure_refuses_what_comes_to_no_queue() {
    let none = LatencyConfig { target_latency_us: 0, sample_rate: 8000, channels: 1 };
    assert!(matches!(configure(&none), Err(ConfigError::ZeroLatency)));
    let huge = LatencyConfig { target_latency_us: u64::MAX, sample_rate: 8000, channels: 2 };
    assert!(matches!(configure(&huge), Err(ConfigError::TooLarge)));
}
