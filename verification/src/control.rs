//! The device-control surface of a loopback endpoint.
//!
//! On a real device these calls are pure forwarding to the raw handle;
//! here they read and write the endpoint's modelled settings and control
//! lines, with no suspension semantics.  The two ends are wired as a
//! null modem: what one end drives on RTS the other reads as CTS, and
//! what one end drives on DTR the other reads as DSR and carrier
//! detect.  Loopback ends are unnamed, and the configured timeout is
//! accepted for interface compatibility but has no effect, since no
//! operation blocks.

use vstd::prelude::*;

use crate::config::{is_supported_baud, supported_baud};
use crate::config::{ClearBuffer, DataBits, DeviceConfig, FlowControl, LineState, Parity, StopBits};
use crate::error::DeviceError;
use crate::pair::{peer_of, EndDevice, Endpoint, LoopbackPair};

verus! {

impl LoopbackPair {
    /// The name of the port behind endpoint `e`: loopback ends are
    /// unnamed.
    pub fn name(&self, e: Endpoint) -> (r: Option<String>)
        requires
            self.open_spec(e),
        ensures
            r is None,
    {
        Option::None
    }

    /// The configured baud rate of endpoint `e`.
    pub fn baud_rate(&self, e: Endpoint) -> (r: Result<u32, DeviceError>)
        requires
            self.open_spec(e),
        ensures
            r == Ok::<u32, DeviceError>(self.end_of(e).cfg.baud_rate),
    {
        match e {
            Endpoint::A => Result::Ok(self.end_a.cfg.baud_rate),
            Endpoint::B => Result::Ok(self.end_b.cfg.baud_rate),
        }
    }

    /// The configured data bits of endpoint `e`.
    pub fn data_bits(&self, e: Endpoint) -> (r: Result<DataBits, DeviceError>)
        requires
            self.open_spec(e),
        ensures
            r == Ok::<DataBits, DeviceError>(self.end_of(e).cfg.data_bits),
    {
        match e {
            Endpoint::A => Result::Ok(self.end_a.cfg.data_bits),
            Endpoint::B => Result::Ok(self.end_b.cfg.data_bits),
        }
    }

    /// The configured stop bits of endpoint `e`.
    pub fn stop_bits(&self, e: Endpoint) -> (r: Result<StopBits, DeviceError>)
        requires
            self.open_spec(e),
        ensures
            r == Ok::<StopBits, DeviceError>(self.end_of(e).cfg.stop_bits),
    {
        match e {
            Endpoint::A => Result::Ok(self.end_a.cfg.stop_bits),
            Endpoint::B => Result::Ok(self.end_b.cfg.stop_bits),
        }
    }

    /// The configured parity of endpoint `e`.
    pub fn parity(&self, e: Endpoint) -> (r: Result<Parity, DeviceError>)
        requires
            self.open_spec(e),
        ensures
            r == Ok::<Parity, DeviceError>(self.end_of(e).cfg.parity),
    {
        match e {
            Endpoint::A => Result::Ok(self.end_a.cfg.parity),
            Endpoint::B => Result::Ok(self.end_b.cfg.parity),
        }
    }

    /// The configured flow control of endpoint `e`.
    pub fn flow_control(&self, e: Endpoint) -> (r: Result<FlowControl, DeviceError>)
        requires
            self.open_spec(e),
        ensures
            r == Ok::<FlowControl, DeviceError>(self.end_of(e).cfg.flow_control),
    {
        match e {
            Endpoint::A => Result::Ok(self.end_a.cfg.flow_control),
            Endpoint::B => Result::Ok(self.end_b.cfg.flow_control),
        }
    }

    /// The read/write timeout of endpoint `e`, in milliseconds: always
    /// zero, since no operation on the stream blocks.
    pub fn timeout_millis(&self, e: Endpoint) -> (r: u64)
        requires
            self.open_spec(e),
        ensures
            r == 0,
    {
        0
    }

    /// Set the baud rate of endpoint `e`.  A supported line speed is
    /// stored and read back exactly; an unsupported one is rejected
    /// with a configuration error and changes nothing.
    pub fn set_baud_rate(&mut self, e: Endpoint, baud: u32) -> (r: Result<(), DeviceError>)
        requires
            old(self).open_spec(e),
        ensures
            final(self).ab == old(self).ab,
            final(self).ba == old(self).ba,
            final(self).end_of(peer_of(e)) == old(self).end_of(peer_of(e)),
            supported_baud(baud) ==> ({
                &&& r == Ok::<(), DeviceError>(())
                &&& final(self).end_of(e) == (EndDevice {
                    cfg: DeviceConfig { baud_rate: baud, ..old(self).end_of(e).cfg },
                    ..old(self).end_of(e)
                })
            }),
            !supported_baud(baud) ==> ({
                &&& r == Err::<(), DeviceError>(DeviceError::Configuration)
                &&& final(self).end_of(e) == old(self).end_of(e)
            }),
    {
        if is_supported_baud(baud) {
            match e {
                Endpoint::A => self.end_a.cfg.baud_rate = baud,
                Endpoint::B => self.end_b.cfg.baud_rate = baud,
            }
            Result::Ok(())
        } else {
            Result::Err(DeviceError::Configuration)
        }
    }

    /// Set the data bits of endpoint `e`; every value is accepted.
    pub fn set_data_bits(&mut self, e: Endpoint, bits: DataBits) -> (r: Result<(), DeviceError>)
        requires
            old(self).open_spec(e),
        ensures
            final(self).ab == old(self).ab,
            final(self).ba == old(self).ba,
            final(self).end_of(peer_of(e)) == old(self).end_of(peer_of(e)),
            r == Ok::<(), DeviceError>(()),
            final(self).end_of(e) == (EndDevice {
                cfg: DeviceConfig { data_bits: bits, ..old(self).end_of(e).cfg },
                ..old(self).end_of(e)
            }),
    {
        match e {
            Endpoint::A => self.end_a.cfg.data_bits = bits,
            Endpoint::B => self.end_b.cfg.data_bits = bits,
        }
        Result::Ok(())
    }

    /// Set the stop bits of endpoint `e`; every value is accepted.
    pub fn set_stop_bits(&mut self, e: Endpoint, bits: StopBits) -> (r: Result<(), DeviceError>)
        requires
            old(self).open_spec(e),
        ensures
            final(self).ab == old(self).ab,
            final(self).ba == old(self).ba,
            final(self).end_of(peer_of(e)) == old(self).end_of(peer_of(e)),
            r == Ok::<(), DeviceError>(()),
            final(self).end_of(e) == (EndDevice {
                cfg: DeviceConfig { stop_bits: bits, ..old(self).end_of(e).cfg },
                ..old(self).end_of(e)
            }),
    {
        match e {
            Endpoint::A => self.end_a.cfg.stop_bits = bits,
            Endpoint::B => self.end_b.cfg.stop_bits = bits,
        }
        Result::Ok(())
    }

    /// Set the parity of endpoint `e`; every value is accepted.
    pub fn set_parity(&mut self, e: Endpoint, parity: Parity) -> (r: Result<(), DeviceError>)
        requires
            old(self).open_spec(e),
        ensures
            final(self).ab == old(self).ab,
            final(self).ba == old(self).ba,
            final(self).end_of(peer_of(e)) == old(self).end_of(peer_of(e)),
            r == Ok::<(), DeviceError>(()),
            final(self).end_of(e) == (EndDevice {
                cfg: DeviceConfig { parity: parity, ..old(self).end_of(e).cfg },
                ..old(self).end_of(e)
            }),
    {
        match e {
            Endpoint::A => self.end_a.cfg.parity = parity,
            Endpoint::B => self.end_b.cfg.parity = parity,
        }
        Result::Ok(())
    }

    /// Set the flow control of endpoint `e`; every value is accepted.
    pub fn set_flow_control(&mut self, e: Endpoint, flow: FlowControl) -> (r: Result<
        (),
        DeviceError,
    >)
        requires
            old(self).open_spec(e),
        ensures
            final(self).ab == old(self).ab,
            final(self).ba == old(self).ba,
            final(self).end_of(peer_of(e)) == old(self).end_of(peer_of(e)),
            r == Ok::<(), DeviceError>(()),
            final(self).end_of(e) == (EndDevice {
                cfg: DeviceConfig { flow_control: flow, ..old(self).end_of(e).cfg },
                ..old(self).end_of(e)
            }),
    {
        match e {
            Endpoint::A => self.end_a.cfg.flow_control = flow,
            Endpoint::B => self.end_b.cfg.flow_control = flow,
        }
        Result::Ok(())
    }

    /// Set the read/write timeout of endpoint `e`: accepted for
    /// interface compatibility, with no effect on anything.
    pub fn set_timeout_millis(&mut self, e: Endpoint, millis: u64) -> (r: Result<(), DeviceError>)
        requires
            old(self).open_spec(e),
        ensures
            final(self).ab == old(self).ab,
            final(self).ba == old(self).ba,
            final(self).end_a == old(self).end_a,
            final(self).end_b == old(self).end_b,
            r == Ok::<(), DeviceError>(()),
    {
        let _ = millis;
        Result::Ok(())
    }

    /// Whether endpoint `e` holds the port exclusively.
    pub fn exclusive(&self, e: Endpoint) -> (r: bool)
        requires
            self.open_spec(e),
        ensures
            r == self.end_of(e).exclusive,
    {
        match e {
            Endpoint::A => self.end_a.exclusive,
            Endpoint::B => self.end_b.exclusive,
        }
    }

    /// Set the exclusivity of endpoint `e`.
    pub fn set_exclusive(&mut self, e: Endpoint, exclusive: bool) -> (r: Result<(), DeviceError>)
        requires
            old(self).open_spec(e),
        ensures
            final(self).ab == old(self).ab,
            final(self).ba == old(self).ba,
            final(self).end_of(peer_of(e)) == old(self).end_of(peer_of(e)),
            r == Ok::<(), DeviceError>(()),
            final(self).end_of(e) == (EndDevice { exclusive, ..old(self).end_of(e) }),
    {
        match e {
            Endpoint::A => self.end_a.exclusive = exclusive,
            Endpoint::B => self.end_b.exclusive = exclusive,
        }
        Result::Ok(())
    }

    /// Drive the request-to-send line of endpoint `e`.
    pub fn write_request_to_send(&mut self, e: Endpoint, level: bool) -> (r: Result<
        (),
        DeviceError,
    >)
        requires
            old(self).open_spec(e),
        ensures
            final(self).ab == old(self).ab,
            final(self).ba == old(self).ba,
            final(self).end_of(peer_of(e)) == old(self).end_of(peer_of(e)),
            r == Ok::<(), DeviceError>(()),
            final(self).end_of(e) == (EndDevice {
                lines: LineState { rts: level, ..old(self).end_of(e).lines },
                ..old(self).end_of(e)
            }),
    {
        match e {
            Endpoint::A => self.end_a.lines.rts = level,
            Endpoint::B => self.end_b.lines.rts = level,
        }
        Result::Ok(())
    }

    /// Drive the data-terminal-ready line of endpoint `e`.
    pub fn write_data_terminal_ready(&mut self, e: Endpoint, level: bool) -> (r: Result<
        (),
        DeviceError,
    >)
        requires
            old(self).open_spec(e),
        ensures
            final(self).ab == old(self).ab,
            final(self).ba == old(self).ba,
            final(self).end_of(peer_of(e)) == old(self).end_of(peer_of(e)),
            r == Ok::<(), DeviceError>(()),
            final(self).end_of(e) == (EndDevice {
                lines: LineState { dtr: level, ..old(self).end_of(e).lines },
                ..old(self).end_of(e)
            }),
    {
        match e {
            Endpoint::A => self.end_a.lines.dtr = level,
            Endpoint::B => self.end_b.lines.dtr = level,
        }
        Result::Ok(())
    }

    /// Read the clear-to-send line at endpoint `e`: the peer's RTS,
    /// over the null-modem crossover.
    pub fn read_clear_to_send(&self, e: Endpoint) -> (r: Result<bool, DeviceError>)
        requires
            self.open_spec(e),
        ensures
            r == Ok::<bool, DeviceError>(self.end_of(peer_of(e)).lines.rts),
    {
        match e {
            Endpoint::A => Result::Ok(self.end_b.lines.rts),
            Endpoint::B => Result::Ok(self.end_a.lines.rts),
        }
    }

    /// Read the data-set-ready line at endpoint `e`: the peer's DTR,
    /// over the null-modem crossover.
    pub fn read_data_set_ready(&self, e: Endpoint) -> (r: Result<bool, DeviceError>)
        requires
            self.open_spec(e),
        ensures
            r == Ok::<bool, DeviceError>(self.end_of(peer_of(e)).lines.dtr),
    {
        match e {
            Endpoint::A => Result::Ok(self.end_b.lines.dtr),
            Endpoint::B => Result::Ok(self.end_a.lines.dtr),
        }
    }

    /// Read the carrier-detect line at endpoint `e`: wired to the
    /// peer's DTR, as a null modem does.
    pub fn read_carrier_detect(&self, e: Endpoint) -> (r: Result<bool, DeviceError>)
        requires
            self.open_spec(e),
        ensures
            r == Ok::<bool, DeviceError>(self.end_of(peer_of(e)).lines.dtr),
    {
        match e {
            Endpoint::A => Result::Ok(self.end_b.lines.dtr),
            Endpoint::B => Result::Ok(self.end_a.lines.dtr),
        }
    }

    /// Read the ring-indicator line at endpoint `e`: a loopback link
    /// never rings.
    pub fn read_ring_indicator(&self, e: Endpoint) -> (r: Result<bool, DeviceError>)
        requires
            self.open_spec(e),
        ensures
            r == Ok::<bool, DeviceError>(false),
    {
        Result::Ok(false)
    }

    /// How many received bytes are pending for endpoint `e` to read.
    pub fn bytes_to_read(&self, e: Endpoint) -> (r: Result<u32, DeviceError>)
        requires
            self.wf(),
            self.open_spec(e),
        ensures
            r == Ok::<u32, DeviceError>(self.inbound(e).len() as u32),
    {
        match e {
            Endpoint::A => Result::Ok(self.ba.len() as u32),
            Endpoint::B => Result::Ok(self.ab.len() as u32),
        }
    }

    /// How many written bytes the peer has not yet taken from the link.
    pub fn bytes_to_write(&self, e: Endpoint) -> (r: Result<u32, DeviceError>)
        requires
            self.wf(),
            self.open_spec(e),
        ensures
            r == Ok::<u32, DeviceError>(self.outbound(e).len() as u32),
    {
        match e {
            Endpoint::A => Result::Ok(self.ab.len() as u32),
            Endpoint::B => Result::Ok(self.ba.len() as u32),
        }
    }

    /// Discard buffered bytes at endpoint `e`: the received-not-read
    /// bytes, the written-not-transmitted bytes, or both.  Discarded
    /// bytes count as consumed by nobody's hands: they leave the link
    /// in order and are gone.
    pub fn clear(&mut self, e: Endpoint, which: ClearBuffer) -> (r: Result<(), DeviceError>)
        requires
            old(self).wf(),
            old(self).open_spec(e),
        ensures
            final(self).wf(),
            final(self).end_a == old(self).end_a,
            final(self).end_b == old(self).end_b,
            r == Ok::<(), DeviceError>(()),
            final(self).chan_to(e).cap == old(self).chan_to(e).cap,
            final(self).chan_from(e).cap == old(self).chan_from(e).cap,
            which == ClearBuffer::Input || which == ClearBuffer::All ==> ({
                &&& final(self).inbound(e) =~= Seq::<u8>::empty()
                &&& final(self).chan_to(e).sent@ == old(self).chan_to(e).sent@
                &&& final(self).chan_to(e).consumed@ == old(self).chan_to(e).consumed@ + old(
                    self,
                ).inbound(e)
            }),
            which == ClearBuffer::Output || which == ClearBuffer::All ==> ({
                &&& final(self).outbound(e) =~= Seq::<u8>::empty()
                &&& final(self).chan_from(e).sent@ == old(self).chan_from(e).sent@
                &&& final(self).chan_from(e).consumed@ == old(self).chan_from(e).consumed@ + old(
                    self,
                ).outbound(e)
            }),
            which == ClearBuffer::Input ==> final(self).chan_from(e) == old(self).chan_from(e),
            which == ClearBuffer::Output ==> final(self).chan_to(e) == old(self).chan_to(e),
    {
        let clear_in = matches!(which, ClearBuffer::Input) || matches!(which, ClearBuffer::All);
        let clear_out = matches!(which, ClearBuffer::Output) || matches!(which, ClearBuffer::All);
        if clear_in {
            match e {
                Endpoint::A => self.ba.discard_all(),
                Endpoint::B => self.ab.discard_all(),
            }
        }
        if clear_out {
            match e {
                Endpoint::A => self.ab.discard_all(),
                Endpoint::B => self.ba.discard_all(),
            }
        }
        Result::Ok(())
    }

    /// Assert a break condition at endpoint `e`.
    pub fn set_break(&mut self, e: Endpoint) -> (r: Result<(), DeviceError>)
        requires
            old(self).open_spec(e),
        ensures
            final(self).ab == old(self).ab,
            final(self).ba == old(self).ba,
            final(self).end_of(peer_of(e)) == old(self).end_of(peer_of(e)),
            r == Ok::<(), DeviceError>(()),
            final(self).end_of(e) == (EndDevice {
                lines: LineState { break_active: true, ..old(self).end_of(e).lines },
                ..old(self).end_of(e)
            }),
    {
        match e {
            Endpoint::A => self.end_a.lines.break_active = true,
            Endpoint::B => self.end_b.lines.break_active = true,
        }
        Result::Ok(())
    }

    /// Stop asserting a break condition at endpoint `e`.
    pub fn clear_break(&mut self, e: Endpoint) -> (r: Result<(), DeviceError>)
        requires
            old(self).open_spec(e),
        ensures
            final(self).ab == old(self).ab,
            final(self).ba == old(self).ba,
            final(self).end_of(peer_of(e)) == old(self).end_of(peer_of(e)),
            r == Ok::<(), DeviceError>(()),
            final(self).end_of(e) == (EndDevice {
                lines: LineState { break_active: false, ..old(self).end_of(e).lines },
                ..old(self).end_of(e)
            }),
    {
        match e {
            Endpoint::A => self.end_a.lines.break_active = false,
            Endpoint::B => self.end_b.lines.break_active = false,
        }
        Result::Ok(())
    }

    /// Cloning an endpoint is not supported: the reactor registration
    /// behind it cannot be safely duplicated, so the attempt fails with
    /// the dedicated error.
    pub fn try_clone(&self, e: Endpoint) -> (r: Result<(), DeviceError>)
        requires
            self.open_spec(e),
        ensures
            r == Err::<(), DeviceError>(DeviceError::Unsupported),
    {
        Result::Err(DeviceError::Unsupported)
    }
}

} // verus!
