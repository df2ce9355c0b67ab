//! A verified core for an asynchronous duplex serial stream.
//!
//! The library models the platform-independent heart of a reactor-driven
//! serial port: the classification of raw I/O errors (would-block is a
//! suspension signal, interrupted is retried, everything else surfaces),
//! the per-direction readiness slots with a generation counter, the
//! decision logic of the readiness-driven read/write retry loop, an
//! executable loopback pair for testing without hardware, and the
//! dual-ownership record that lets one OS handle be driven by a blocking
//! configuration object and a non-blocking I/O primitive at once.
//!
//! The operating-system calls themselves (opening a device, moving bytes
//! over a file descriptor, waking a task) are left to a thin unverified
//! shell around this crate; everything that decides or computes is here,
//! with its contract.

pub mod channel;
pub mod config;
pub mod control;
pub mod error;
pub mod hybrid;
pub mod pair;
pub mod readiness;
pub mod retry;
