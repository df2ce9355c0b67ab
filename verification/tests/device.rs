//! Behavior of the device-control surface, the error classification,
//! the readiness slots, and the dual-ownership record.

use tokio_serial::config::{
    is_supported_baud, DataBits, DeviceConfig, FlowControl, Parity, StopBits,
};
use tokio_serial::error::{
    dispose_attempt_error, AttemptDisposition, DeviceError, RawErrorKind,
};
use tokio_serial::hybrid::{BlockingDevice, DualOwnership};
use tokio_serial::pair::{Endpoint, LoopbackPair};
use tokio_serial::readiness::{DirState, DirectionReadiness};
use tokio_serial::retry::{attempt_step, readiness_step, AttemptOutcome, LoopStep, ReadinessPoll};

#[test]
fn baud_round_trip() {
    let mut p = LoopbackPair::pair(8);
    assert_eq!(p.set_baud_rate(Endpoint::A, 9600), Ok(()));
    assert_eq!(p.baud_rate(Endpoint::A), Ok(9600));

    // An unsupported rate is rejected and changes nothing.
    assert_eq!(
        p.set_baud_rate(Endpoint::A, 12345),
        Err(DeviceError::Configuration)
    );
    assert_eq!(p.baud_rate(Endpoint::A), Ok(9600));

    // The two ends are configured independently.
    assert_eq!(p.set_baud_rate(Endpoint::B, 115200), Ok(()));
    assert_eq!(p.baud_rate(Endpoint::B), Ok(115200));
    assert_eq!(p.baud_rate(Endpoint::A), Ok(9600));
}

#[test]
fn supported_baud_table() {
    assert!(is_supported_baud(9600));
    assert!(is_supported_baud(115200));
    assert!(!is_supported_baud(0));
    assert!(!is_supported_baud(12345));
}

#[test]
fn settings_round_trip() {
    let mut p = LoopbackPair::pair(8);

    assert_eq!(p.set_data_bits(Endpoint::A, DataBits::Seven), Ok(()));
    assert_eq!(p.data_bits(Endpoint::A), Ok(DataBits::Seven));

    assert_eq!(p.set_stop_bits(Endpoint::A, StopBits::Two), Ok(()));
    assert_eq!(p.stop_bits(Endpoint::A), Ok(StopBits::Two));

    assert_eq!(p.set_parity(Endpoint::A, Parity::Even), Ok(()));
    assert_eq!(p.parity(Endpoint::A), Ok(Parity::Even));

    assert_eq!(p.set_flow_control(Endpoint::A, FlowControl::Software), Ok(()));
    assert_eq!(p.flow_control(Endpoint::A), Ok(FlowControl::Software));

    // The peer's settings are untouched.
    assert_eq!(p.data_bits(Endpoint::B), Ok(DataBits::Eight));
    assert_eq!(p.stop_bits(Endpoint::B), Ok(StopBits::One));
    assert_eq!(p.parity(Endpoint::B), Ok(Parity::Disabled));
    assert_eq!(p.flow_control(Endpoint::B), Ok(FlowControl::Disabled));
}

#[test]
fn exclusive_round_trip() {
    let mut p = LoopbackPair::pair(8);
    assert!(!p.exclusive(Endpoint::A));
    assert_eq!(p.set_exclusive(Endpoint::A, true), Ok(()));
    assert!(p.exclusive(Endpoint::A));
    assert!(!p.exclusive(Endpoint::B));
    assert_eq!(p.set_exclusive(Endpoint::A, false), Ok(()));
    assert!(!p.exclusive(Endpoint::A));
}

#[test]
fn control_lines_cross_over() {
    let mut p = LoopbackPair::pair(8);
    assert_eq!(p.read_clear_to_send(Endpoint::B), Ok(false));

    assert_eq!(p.write_request_to_send(Endpoint::A, true), Ok(()));
    assert_eq!(p.read_clear_to_send(Endpoint::B), Ok(true));
    assert_eq!(p.read_clear_to_send(Endpoint::A), Ok(false));

    assert_eq!(p.write_data_terminal_ready(Endpoint::A, true), Ok(()));
    assert_eq!(p.read_data_set_ready(Endpoint::B), Ok(true));
    assert_eq!(p.read_carrier_detect(Endpoint::B), Ok(true));
    assert_eq!(p.read_data_set_ready(Endpoint::A), Ok(false));

    assert_eq!(p.read_ring_indicator(Endpoint::A), Ok(false));
    assert_eq!(p.read_ring_indicator(Endpoint::B), Ok(false));
}

#[test]
fn break_condition_round_trip() {
    let mut p = LoopbackPair::pair(8);
    assert!(!p.end_a.lines.break_active);
    assert_eq!(p.set_break(Endpoint::A), Ok(()));
    assert!(p.end_a.lines.break_active);
    assert!(!p.end_b.lines.break_active);
    assert_eq!(p.clear_break(Endpoint::A), Ok(()));
    assert!(!p.end_a.lines.break_active);
}

#[test]
fn loopback_ends_are_unnamed() {
    let p = LoopbackPair::pair(8);
    assert_eq!(p.name(Endpoint::A), None);
    assert_eq!(p.name(Endpoint::B), None);
}

#[test]
fn timeout_is_accepted_and_zero() {
    let mut p = LoopbackPair::pair(8);
    assert_eq!(p.set_timeout_millis(Endpoint::A, 5000), Ok(()));
    assert_eq!(p.timeout_millis(Endpoint::A), 0);
}

#[test]
fn try_clone_is_unsupported() {
    let p = LoopbackPair::pair(8);
    assert_eq!(p.try_clone(Endpoint::A), Err(DeviceError::Unsupported));
}

#[test]
fn hybrid_single_release() {
    let cfg = DeviceConfig::default_loopback();
    let dev = BlockingDevice::configure(41, cfg).expect("supported settings");
    let h = DualOwnership::adopt(dev);
    assert_eq!(h.handle, 41);
    assert!(h.config_release_suppressed);
    assert!(h.io_owns_release);
    assert_eq!(h.teardown(), 1);
}

#[test]
fn hybrid_rejects_bad_settings() {
    let mut cfg = DeviceConfig::default_loopback();
    cfg.baud_rate = 12345;
    match BlockingDevice::configure(7, cfg) {
        Err(DeviceError::Configuration) => {}
        other => panic!("expected a configuration error, got {:?}", other),
    }
}

#[test]
fn latest_waiter_wins() {
    let mut rd = DirectionReadiness::new();
    assert!(!rd.poll(1));
    assert!(!rd.poll(2));
    let g = rd.generation;
    assert_eq!(rd.signal(g), Some(2));
    assert_eq!(rd.state, DirState::Ready);
}

#[test]
fn stale_signal_is_ignored() {
    let mut rd = DirectionReadiness::new();
    assert!(!rd.poll(1));
    let old_gen = rd.generation;
    rd.clear_ready();
    assert_eq!(rd.signal(old_gen), None);
    assert_eq!(rd.state, DirState::Idle);
}

#[test]
fn cancelled_waiter_is_forgotten() {
    let mut rd = DirectionReadiness::new();
    assert!(!rd.poll(1));
    rd.cancel();
    assert_eq!(rd.state, DirState::Idle);
    let g = rd.generation;
    assert_eq!(rd.signal(g), None);
    assert_eq!(rd.state, DirState::Ready);
    assert!(rd.poll(3));
}

#[test]
fn attempt_error_disposition() {
    assert_eq!(
        dispose_attempt_error(RawErrorKind::WouldBlock),
        AttemptDisposition::SuspendRearm
    );
    assert_eq!(
        dispose_attempt_error(RawErrorKind::Interrupted),
        AttemptDisposition::RetryNow
    );
    assert_eq!(
        dispose_attempt_error(RawErrorKind::BrokenPipe),
        AttemptDisposition::Surface(DeviceError::Io(RawErrorKind::BrokenPipe))
    );
    assert_eq!(
        dispose_attempt_error(RawErrorKind::NotFound),
        AttemptDisposition::Surface(DeviceError::Io(RawErrorKind::NotFound))
    );
}

#[test]
fn loop_steps() {
    assert_eq!(readiness_step(ReadinessPoll::NotReady), LoopStep::Suspend);
    assert_eq!(readiness_step(ReadinessPoll::ReadyNow), LoopStep::Attempt);
    assert_eq!(
        readiness_step(ReadinessPoll::PollFailed(RawErrorKind::WouldBlock)),
        LoopStep::Rearm
    );
    assert_eq!(
        readiness_step(ReadinessPoll::PollFailed(RawErrorKind::Other)),
        LoopStep::Fail(DeviceError::Io(RawErrorKind::Other))
    );

    assert_eq!(attempt_step(AttemptOutcome::Transferred(5)), LoopStep::Complete(5));
    assert_eq!(
        attempt_step(AttemptOutcome::Failed(RawErrorKind::WouldBlock)),
        LoopStep::Rearm
    );
    assert_eq!(
        attempt_step(AttemptOutcome::Failed(RawErrorKind::Interrupted)),
        LoopStep::RetryAttempt
    );
    assert_eq!(
        attempt_step(AttemptOutcome::Failed(RawErrorKind::TimedOut)),
        LoopStep::Fail(DeviceError::Io(RawErrorKind::TimedOut))
    );
}
