//! Behavior of the loopback pair: byte-stream delivery, the would-block
//! outcomes, cancellation, closing, and the poll operations.

use tokio_serial::config::ClearBuffer;
use tokio_serial::error::{DeviceError, RawErrorKind};
use tokio_serial::pair::{
    Endpoint, LoopbackPair, PollFlush, PollRead, PollWrite, ReadOutcome, WriteOutcome,
};

fn read_all(p: &mut LoopbackPair, e: Endpoint, max: usize) -> Vec<u8> {
    match p.try_read(e, max) {
        ReadOutcome::Data(v) => v,
        other => panic!("expected data, got {:?}", other),
    }
}

#[test]
fn send_recv() {
    let mut p = LoopbackPair::pair(64);

    let message = b"This is a test message".to_vec();
    match p.try_write(Endpoint::A, &message) {
        WriteOutcome::Accepted(n) => assert_eq!(n, message.len()),
        other => panic!("unable to write test message: {:?}", other),
    }

    let buf = read_all(&mut p, Endpoint::B, 32);
    assert_eq!(buf, message);
}

#[test]
fn chunked_round_trip() {
    let mut p = LoopbackPair::pair(16);
    let message = b"abcdef";

    // Write in chunks of 1, 2 and 3 bytes.
    assert_eq!(
        p.try_write(Endpoint::A, &message[0..1].to_vec()),
        WriteOutcome::Accepted(1)
    );
    assert_eq!(
        p.try_write(Endpoint::A, &message[1..3].to_vec()),
        WriteOutcome::Accepted(2)
    );
    assert_eq!(
        p.try_write(Endpoint::A, &message[3..6].to_vec()),
        WriteOutcome::Accepted(3)
    );

    // Read back in chunks of 2 and 4 bytes: same bytes, same order.
    let mut got = read_all(&mut p, Endpoint::B, 2);
    got.extend(read_all(&mut p, Endpoint::B, 4));
    assert_eq!(got, message.to_vec());
}

#[test]
fn try_read_empty_returns_would_block() {
    let mut p = LoopbackPair::pair(8);
    assert_eq!(p.try_read(Endpoint::A, 4), ReadOutcome::WouldBlock);
    assert_eq!(p.try_read(Endpoint::B, 4), ReadOutcome::WouldBlock);
}

#[test]
fn try_write_full_returns_would_block() {
    let mut p = LoopbackPair::pair(4);
    assert_eq!(
        p.try_write(Endpoint::A, &vec![1, 2, 3, 4]),
        WriteOutcome::Accepted(4)
    );
    assert_eq!(p.try_write(Endpoint::A, &vec![5]), WriteOutcome::WouldBlock);
}

#[test]
fn partial_write_accepts_prefix() {
    let mut p = LoopbackPair::pair(4);
    assert_eq!(
        p.try_write(Endpoint::A, &vec![10, 20, 30, 40, 50, 60]),
        WriteOutcome::Accepted(4)
    );
    assert_eq!(read_all(&mut p, Endpoint::B, 8), vec![10, 20, 30, 40]);
}

#[test]
fn write_empty_accepts_zero() {
    let mut p = LoopbackPair::pair(4);
    assert_eq!(p.try_write(Endpoint::A, &Vec::new()), WriteOutcome::Accepted(0));
    assert_eq!(p.try_read(Endpoint::B, 4), ReadOutcome::WouldBlock);
}

#[test]
fn read_after_cancelled_wait() {
    let mut p = LoopbackPair::pair(8);

    // A read suspends: nothing is pending.
    assert_eq!(p.poll_read(Endpoint::A, 1, 4), PollRead::Pending);

    // The suspended read is dropped.
    p.cancel_read(Endpoint::A);

    // Data arrives; a fresh read on the same stream still succeeds.
    assert_eq!(
        p.try_write(Endpoint::B, &vec![42]),
        WriteOutcome::Accepted(1)
    );
    match p.poll_read(Endpoint::A, 2, 4) {
        PollRead::Delivered(v) => assert_eq!(v, vec![42]),
        other => panic!("expected delivery, got {:?}", other),
    }
}

#[test]
fn pairs_are_independent() {
    let mut p1 = LoopbackPair::pair(8);
    let mut p2 = LoopbackPair::pair(8);

    assert_eq!(
        p1.try_write(Endpoint::A, &vec![7, 8, 9]),
        WriteOutcome::Accepted(3)
    );

    // Nothing crosses over to the second pair, on either end.
    assert_eq!(p2.try_read(Endpoint::A, 8), ReadOutcome::WouldBlock);
    assert_eq!(p2.try_read(Endpoint::B, 8), ReadOutcome::WouldBlock);

    // The bytes are where they belong.
    assert_eq!(read_all(&mut p1, Endpoint::B, 8), vec![7, 8, 9]);
}

#[test]
fn ping_then_close_errors() {
    let mut p = LoopbackPair::pair(8);

    assert_eq!(
        p.try_write(Endpoint::A, &b"PING".to_vec()),
        WriteOutcome::Accepted(4)
    );
    assert_eq!(read_all(&mut p, Endpoint::B, 4), b"PING".to_vec());

    p.close(Endpoint::A);
    assert!(!p.is_open(Endpoint::A));
    assert!(p.is_open(Endpoint::B));

    // A subsequent read on B terminates with an I/O error, not a hang.
    assert_eq!(
        p.try_read(Endpoint::B, 4),
        ReadOutcome::Failed(DeviceError::Io(RawErrorKind::BrokenPipe))
    );
    assert_eq!(
        p.poll_read(Endpoint::B, 1, 4),
        PollRead::Failed(DeviceError::Io(RawErrorKind::BrokenPipe))
    );
}

#[test]
fn write_to_closed_peer_fails() {
    let mut p = LoopbackPair::pair(8);
    p.close(Endpoint::B);
    assert_eq!(
        p.try_write(Endpoint::A, &vec![1]),
        WriteOutcome::Failed(DeviceError::Io(RawErrorKind::BrokenPipe))
    );
    assert_eq!(
        p.poll_write(Endpoint::A, 1, &vec![1]),
        PollWrite::Failed(DeviceError::Io(RawErrorKind::BrokenPipe))
    );
}

#[test]
fn pending_bytes_drain_before_close_error() {
    let mut p = LoopbackPair::pair(8);
    assert_eq!(
        p.try_write(Endpoint::A, &vec![5, 6]),
        WriteOutcome::Accepted(2)
    );
    p.close(Endpoint::A);

    // Bytes already in flight still arrive; only then does the error come.
    assert_eq!(read_all(&mut p, Endpoint::B, 8), vec![5, 6]);
    assert_eq!(
        p.try_read(Endpoint::B, 8),
        ReadOutcome::Failed(DeviceError::Io(RawErrorKind::BrokenPipe))
    );
}

#[test]
fn poll_write_pending_until_drained() {
    let mut p = LoopbackPair::pair(2);
    assert_eq!(
        p.poll_write(Endpoint::A, 1, &vec![1, 2, 3]),
        PollWrite::Accepted(2)
    );
    assert_eq!(p.poll_write(Endpoint::A, 1, &vec![3]), PollWrite::Pending);

    // The peer drains the link; the retried write is accepted.
    assert_eq!(read_all(&mut p, Endpoint::B, 2), vec![1, 2]);
    assert_eq!(p.poll_write(Endpoint::A, 1, &vec![3]), PollWrite::Accepted(1));
    assert_eq!(read_all(&mut p, Endpoint::B, 2), vec![3]);
}

#[test]
fn poll_flush_waits_for_drain() {
    let mut p = LoopbackPair::pair(8);
    assert_eq!(p.poll_flush(Endpoint::A, 1), PollFlush::Flushed);

    assert_eq!(
        p.try_write(Endpoint::A, &vec![1, 2]),
        WriteOutcome::Accepted(2)
    );
    assert_eq!(p.poll_flush(Endpoint::A, 1), PollFlush::Pending);

    let _ = read_all(&mut p, Endpoint::B, 8);
    assert_eq!(p.poll_flush(Endpoint::A, 1), PollFlush::Flushed);
}

#[test]
fn poll_flush_fails_when_peer_gone() {
    let mut p = LoopbackPair::pair(8);
    assert_eq!(
        p.try_write(Endpoint::A, &vec![1]),
        WriteOutcome::Accepted(1)
    );
    p.close(Endpoint::B);
    assert_eq!(
        p.poll_flush(Endpoint::A, 1),
        PollFlush::Failed(DeviceError::Io(RawErrorKind::BrokenPipe))
    );
}

#[test]
fn readable_is_a_hint() {
    let mut p = LoopbackPair::pair(8);

    // Nothing pending: the wait registers instead of resolving.
    assert!(!p.readable(Endpoint::A, 1));

    // Data arrives: the wait resolves.
    assert_eq!(
        p.try_write(Endpoint::B, &vec![9]),
        WriteOutcome::Accepted(1)
    );
    assert!(p.readable(Endpoint::A, 1));

    // Another reader drains the link; readiness is still cached, so the
    // resolved wait was only a hint and the next attempt would block.
    let _ = read_all(&mut p, Endpoint::A, 8);
    assert!(p.readable(Endpoint::A, 1));
    assert_eq!(p.try_read(Endpoint::A, 8), ReadOutcome::WouldBlock);
}

#[test]
fn writable_tracks_space() {
    let mut p = LoopbackPair::pair(2);
    assert!(p.writable(Endpoint::A, 1));

    assert_eq!(
        p.try_write(Endpoint::A, &vec![1, 2]),
        WriteOutcome::Accepted(2)
    );

    // The link is full; a fresh endpoint's wait registers.  The cached
    // readiness from the resolved wait above must be cleared first by a
    // failed write attempt.
    assert_eq!(p.poll_write(Endpoint::A, 1, &vec![3]), PollWrite::Pending);
    assert!(!p.writable(Endpoint::A, 1));
}

#[test]
fn bytes_pending_counts() {
    let mut p = LoopbackPair::pair(8);
    assert_eq!(p.bytes_to_read(Endpoint::B), Ok(0));
    assert_eq!(p.bytes_to_write(Endpoint::A), Ok(0));

    assert_eq!(
        p.try_write(Endpoint::A, &vec![1, 2, 3]),
        WriteOutcome::Accepted(3)
    );
    assert_eq!(p.bytes_to_read(Endpoint::B), Ok(3));
    assert_eq!(p.bytes_to_write(Endpoint::A), Ok(3));
    assert_eq!(p.bytes_to_read(Endpoint::A), Ok(0));

    let _ = read_all(&mut p, Endpoint::B, 2);
    assert_eq!(p.bytes_to_read(Endpoint::B), Ok(1));
}

#[test]
fn clear_input_discards_pending() {
    let mut p = LoopbackPair::pair(8);
    assert_eq!(
        p.try_write(Endpoint::A, &vec![1, 2, 3]),
        WriteOutcome::Accepted(3)
    );
    assert_eq!(p.clear(Endpoint::B, ClearBuffer::Input), Ok(()));
    assert_eq!(p.try_read(Endpoint::B, 8), ReadOutcome::WouldBlock);
}

#[test]
fn clear_output_discards_unsent() {
    let mut p = LoopbackPair::pair(8);
    assert_eq!(
        p.try_write(Endpoint::A, &vec![1, 2, 3]),
        WriteOutcome::Accepted(3)
    );
    assert_eq!(p.clear(Endpoint::A, ClearBuffer::Output), Ok(()));
    assert_eq!(p.try_read(Endpoint::B, 8), ReadOutcome::WouldBlock);
}

#[test]
fn clear_all_discards_both_directions() {
    let mut p = LoopbackPair::pair(8);
    assert_eq!(p.try_write(Endpoint::A, &vec![1]), WriteOutcome::Accepted(1));
    assert_eq!(p.try_write(Endpoint::B, &vec![2]), WriteOutcome::Accepted(1));
    assert_eq!(p.clear(Endpoint::A, ClearBuffer::All), Ok(()));
    assert_eq!(p.try_read(Endpoint::A, 8), ReadOutcome::WouldBlock);
    assert_eq!(p.try_read(Endpoint::B, 8), ReadOutcome::WouldBlock);
}
