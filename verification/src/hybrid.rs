//! The dual-ownership record of the hybrid platform.
//!
//! On the OS family without native asynchronous support for arbitrary
//! device handles, one physical handle value must be driven by two
//! typed owners at once: a blocking configuration object, which alone
//! can perform device control, and a non-blocking I/O primitive, which
//! alone can perform byte-stream operations.  Exactly one of the two
//! may release the handle when the stream is torn down; releasing it
//! twice is a fatal resource fault.  The record here makes that
//! discipline structural: the configuration owner is built and fully
//! configured first (configuring after the I/O primitive exists hangs
//! on the observed platform), then the I/O primitive adopts the same
//! handle value and the configuration owner's release is suppressed in
//! the same step, before any caller can observe the record.

use vstd::prelude::*;

use crate::config::{supported_baud, DeviceConfig};
use crate::config::is_supported_baud;
use crate::error::DeviceError;

verus! {

/// The blocking configuration owner of a raw handle: the device is
/// open and fully configured, and nothing asynchronous exists yet.
#[derive(Clone, Copy, Debug, PartialEq, Eq, Structural)]
pub struct BlockingDevice {
    /// The raw OS handle value.
    pub handle: u64,
    /// The settings the device was configured with.
    pub cfg: DeviceConfig,
}

impl BlockingDevice {
    /// Configure the freshly opened raw handle `handle` with `cfg`,
    /// producing the blocking configuration owner.  This is the first
    /// construction step, before any asynchronous primitive exists.
    /// An unsupported baud rate is rejected with a configuration
    /// error, as the device would reject it.
    pub fn configure(handle: u64, cfg: DeviceConfig) -> (r: Result<BlockingDevice, DeviceError>)
        ensures
            supported_baud(cfg.baud_rate) ==> r == Ok::<BlockingDevice, DeviceError>(
                BlockingDevice { handle, cfg },
            ),
            !supported_baud(cfg.baud_rate) ==> r == Err::<BlockingDevice, DeviceError>(
                DeviceError::Configuration,
            ),
    {
        if is_supported_baud(cfg.baud_rate) {
            Result::Ok(BlockingDevice { handle, cfg })
        } else {
            Result::Err(DeviceError::Configuration)
        }
    }
}

/// One physical handle value, two logical owners.  The configuration
/// owner keeps its device-control capability but its release is
/// suppressed; the I/O owner performs byte-stream operations and is
/// the one designated releaser.
#[derive(Clone, Copy, Debug, PartialEq, Eq, Structural)]
pub struct DualOwnership {
    /// The raw OS handle value both owners refer to.
    pub handle: u64,
    /// The settings the configuration owner holds.
    pub cfg: DeviceConfig,
    /// Whether the configuration owner's release is suppressed.
    pub config_release_suppressed: bool,
    /// Whether the I/O owner releases the handle on teardown.
    pub io_owns_release: bool,
}

/// How many owners of `h` will release the raw handle on teardown.
pub open spec fn owner_release_count(h: DualOwnership) -> int {
    (if h.io_owns_release {
        1int
    } else {
        0int
    }) + (if h.config_release_suppressed {
        0int
    } else {
        1int
    })
}

impl DualOwnership {
    /// The single-release invariant: the configuration owner's release
    /// is suppressed and the I/O owner is the designated releaser, so
    /// exactly one owner releases the handle.
    pub open spec fn wf(self) -> bool {
        self.config_release_suppressed && self.io_owns_release
    }

    /// Second and third construction steps, fused so no half-built
    /// record is observable: the asynchronous I/O primitive adopts the
    /// configured device's handle value, and the configuration owner's
    /// release is suppressed in the same move.  Taking `BlockingDevice`
    /// by value makes the required order structural: the device was
    /// configured before the asynchronous primitive exists.
    pub fn adopt(dev: BlockingDevice) -> (h: DualOwnership)
        ensures
            h.wf(),
            h.handle == dev.handle,
            h.cfg == dev.cfg,
    {
        DualOwnership {
            handle: dev.handle,
            cfg: dev.cfg,
            config_release_suppressed: true,
            io_owns_release: true,
        }
    }

    /// Tear the record down, dropping both owners, and report how many
    /// times the raw handle was released: exactly once, always.
    pub fn teardown(self) -> (released: u32)
        requires
            self.wf(),
        ensures
            released == 1,
            released as int == owner_release_count(self),
    {
        let mut released: u32 = 0;
        if self.io_owns_release {
            released = released + 1;
        }
        if !self.config_release_suppressed {
            released = released + 1;
        }
        released
    }
}

/// Law: a well-formed dual-ownership record releases its handle exactly
/// once — one owner performs the release and the other's is
/// suppressed, so a construct-then-drop cycle can neither leak the
/// handle nor release it twice.
pub proof fn lemma_single_release(h: DualOwnership)
    requires
        h.wf(),
    ensures
        owner_release_count(h) == 1,
        h.io_owns_release && h.config_release_suppressed,
{
}

} // verus!
