//! The error taxonomy of the stream, and the classification of raw
//! operating-system errors that drives the retry loop.
//!
//! Two raw error conditions are transient and never reach a caller:
//! would-block is the suspension signal of the asynchronous paths and a
//! distinguished non-error outcome of the synchronous ones, and an
//! interrupted operation is simply retried.  Every other raw error
//! surfaces unchanged, wrapped in the `Io` variant.

use vstd::prelude::*;

verus! {

/// The kind of a raw operating-system I/O error, as the unverified shell
/// observes it on a failed read, write or readiness poll.
#[derive(Clone, Copy, Debug, PartialEq, Eq, Structural)]
pub enum RawErrorKind {
    /// The operation cannot complete now without blocking.
    WouldBlock,
    /// The operation was interrupted by a signal before doing anything.
    Interrupted,
    /// The device path does not resolve to a device.
    NotFound,
    /// The caller may not open or use the device.
    PermissionDenied,
    /// The peer end of the line is gone.
    BrokenPipe,
    /// The operation ran out of time at the OS level.
    TimedOut,
    /// The device rejected the data or the request.
    InvalidData,
    /// Any other raw error.
    Other,
}

/// A typed error describing why an operation on the stream failed.
#[derive(Clone, Copy, Debug, PartialEq, Eq, Structural)]
pub enum DeviceError {
    /// Invalid or rejected device settings.
    Configuration,
    /// The path does not resolve to a device.
    NoDevice,
    /// An OS-level failure other than would-block or interrupted.
    Io(RawErrorKind),
    /// The operation is not meaningful for this stream, e.g. cloning.
    Unsupported,
}

/// A raw error kind that the stream absorbs instead of surfacing.
pub open spec fn is_transient(k: RawErrorKind) -> bool {
    k == RawErrorKind::WouldBlock || k == RawErrorKind::Interrupted
}

impl DeviceError {
    /// A well-formed error never smuggles a transient condition out to a
    /// caller: the `Io` variant holds no would-block and no interrupted.
    pub open spec fn wf(self) -> bool {
        match self {
            DeviceError::Io(k) => !is_transient(k),
            _ => true,
        }
    }
}

/// What the retry loop does with the raw error of a failed read or write
/// attempt.
#[derive(Clone, Copy, Debug, PartialEq, Eq, Structural)]
pub enum AttemptDisposition {
    /// Would-block: re-arm readiness interest and suspend until the
    /// reactor reports the direction ready again.
    SuspendRearm,
    /// Interrupted: repeat the raw operation at once, without touching
    /// the readiness state.
    RetryNow,
    /// A real failure: surface it to the caller, typed.
    Surface(DeviceError),
}

/// The disposition chosen for each raw error kind.
pub open spec fn dispose_attempt_error_spec(k: RawErrorKind) -> AttemptDisposition {
    if k == RawErrorKind::WouldBlock {
        AttemptDisposition::SuspendRearm
    } else if k == RawErrorKind::Interrupted {
        AttemptDisposition::RetryNow
    } else {
        AttemptDisposition::Surface(DeviceError::Io(k))
    }
}

/// Classify the raw error of a failed read or write attempt: would-block
/// suspends, interrupted retries, everything else surfaces as `Io`.
pub fn dispose_attempt_error(k: RawErrorKind) -> (r: AttemptDisposition)
    ensures
        r == dispose_attempt_error_spec(k),
{
    match k {
        RawErrorKind::WouldBlock => AttemptDisposition::SuspendRearm,
        RawErrorKind::Interrupted => AttemptDisposition::RetryNow,
        _ => AttemptDisposition::Surface(DeviceError::Io(k)),
    }
}

/// Law: no transient condition ever surfaces.  Whatever raw error an
/// attempt produced, if the disposition is `Surface(e)` then `e` is
/// well formed: it is never `Io(WouldBlock)` and never `Io(Interrupted)`.
pub proof fn lemma_transient_never_surfaces(k: RawErrorKind)
    ensures
        forall|e: DeviceError|
            dispose_attempt_error_spec(k) == AttemptDisposition::Surface(e) ==> e.wf(),
{
}

} // verus!
