//! The decision logic of the readiness-driven retry loop.
//!
//! An asynchronous read or write runs as a loop: poll readiness for the
//! direction; if the reactor says pending, suspend; if it reports an
//! error, surface it; if it reports ready, attempt the raw operation
//! once.  A successful attempt completes the loop with a byte count; a
//! would-block attempt (readiness was a false positive) re-arms interest
//! and goes around again; an interrupted attempt is repeated at once;
//! any other failure surfaces, typed.  These functions make each of
//! those decisions; the unverified shell merely performs the actions
//! they name.

use vstd::prelude::*;

use crate::error::{
    dispose_attempt_error, dispose_attempt_error_spec, is_transient, AttemptDisposition,
    DeviceError, RawErrorKind,
};

verus! {

/// What the reactor answered when the loop polled readiness for the
/// direction.
#[derive(Clone, Copy, Debug, PartialEq, Eq, Structural)]
pub enum ReadinessPoll {
    /// Not ready; the waiter was registered.
    NotReady,
    /// The direction was reported ready.
    ReadyNow,
    /// Polling readiness itself failed with this raw error.
    PollFailed(RawErrorKind),
}

/// What one raw read or write attempt produced.
#[derive(Clone, Copy, Debug, PartialEq, Eq, Structural)]
pub enum AttemptOutcome {
    /// The raw operation moved this many bytes.
    Transferred(usize),
    /// The raw operation failed with this raw error.
    Failed(RawErrorKind),
}

/// The next step of the retry loop, decided from one event.
#[derive(Clone, Copy, Debug, PartialEq, Eq, Structural)]
pub enum LoopStep {
    /// Yield to the scheduler; the registered waiter will resume the loop.
    Suspend,
    /// Attempt the raw operation now.
    Attempt,
    /// The loop is over: hand this byte count to the caller.
    Complete(usize),
    /// Re-arm readiness interest and poll again (false-positive readiness).
    Rearm,
    /// Repeat the raw attempt at once (interrupted).
    RetryAttempt,
    /// The loop is over: hand this error to the caller.
    Fail(DeviceError),
}

/// The step that follows each possible answer of the readiness poll.  A
/// transient poll failure is absorbed by polling again, so the loop
/// never surfaces it.
pub open spec fn readiness_step_spec(p: ReadinessPoll) -> LoopStep {
    match p {
        ReadinessPoll::NotReady => LoopStep::Suspend,
        ReadinessPoll::ReadyNow => LoopStep::Attempt,
        ReadinessPoll::PollFailed(k) => if is_transient(k) {
            LoopStep::Rearm
        } else {
            LoopStep::Fail(DeviceError::Io(k))
        },
    }
}

/// The step that follows each possible outcome of one raw attempt.
pub open spec fn attempt_step_spec(a: AttemptOutcome) -> LoopStep {
    match a {
        AttemptOutcome::Transferred(n) => LoopStep::Complete(n),
        AttemptOutcome::Failed(k) => match dispose_attempt_error_spec(k) {
            AttemptDisposition::SuspendRearm => LoopStep::Rearm,
            AttemptDisposition::RetryNow => LoopStep::RetryAttempt,
            AttemptDisposition::Surface(e) => LoopStep::Fail(e),
        },
    }
}

/// Decide the loop's next step from the reactor's readiness answer:
/// suspend on pending, attempt on ready, surface a poll failure.
pub fn readiness_step(p: ReadinessPoll) -> (r: LoopStep)
    ensures
        r == readiness_step_spec(p),
{
    match p {
        ReadinessPoll::NotReady => LoopStep::Suspend,
        ReadinessPoll::ReadyNow => LoopStep::Attempt,
        ReadinessPoll::PollFailed(k) => match k {
            RawErrorKind::WouldBlock | RawErrorKind::Interrupted => LoopStep::Rearm,
            _ => LoopStep::Fail(DeviceError::Io(k)),
        },
    }
}

/// Decide the loop's next step from one raw attempt: complete on
/// success, re-arm on would-block, repeat on interrupted, surface the
/// rest.
pub fn attempt_step(a: AttemptOutcome) -> (r: LoopStep)
    ensures
        r == attempt_step_spec(a),
{
    match a {
        AttemptOutcome::Transferred(n) => LoopStep::Complete(n),
        AttemptOutcome::Failed(k) => match dispose_attempt_error(k) {
            AttemptDisposition::SuspendRearm => LoopStep::Rearm,
            AttemptDisposition::RetryNow => LoopStep::RetryAttempt,
            AttemptDisposition::Surface(e) => LoopStep::Fail(e),
        },
    }
}

/// Law: the loop never hands a transient condition to its caller.  For
/// every readiness answer and every attempt outcome, a `Fail(e)` step
/// carries a well-formed error: never `Io(WouldBlock)`, never
/// `Io(Interrupted)`.  Would-block instead becomes `Suspend` or `Rearm`,
/// and interrupted becomes `RetryAttempt`.
pub proof fn lemma_loop_surfaces_no_transient(p: ReadinessPoll, a: AttemptOutcome)
    ensures
        forall|e: DeviceError| readiness_step_spec(p) == LoopStep::Fail(e) ==> e.wf(),
        forall|e: DeviceError| attempt_step_spec(a) == LoopStep::Fail(e) ==> e.wf(),
        a == AttemptOutcome::Failed(RawErrorKind::WouldBlock) ==> attempt_step_spec(a)
            == LoopStep::Rearm,
        a == AttemptOutcome::Failed(RawErrorKind::Interrupted) ==> attempt_step_spec(a)
            == LoopStep::RetryAttempt,
{
}

/// Law: the loop completes exactly on success.  An attempt that moved
/// `n` bytes completes the loop with `n`, and nothing else completes it.
pub proof fn lemma_loop_completes_on_success(a: AttemptOutcome)
    ensures
        forall|n: usize|
            attempt_step_spec(a) == LoopStep::Complete(n) <==> a == AttemptOutcome::Transferred(
                n,
            ),
{
}

} // verus!
