//! Device settings and control-line state.
//!
//! The stream forwards device control to the raw handle; what those
//! calls mean is modelled here as plain values: the line settings (baud
//! rate, character size, stop bits, parity, flow control) and the state
//! of the modem control lines.

use vstd::prelude::*;

verus! {

/// Number of data bits per character.
#[derive(Clone, Copy, Debug, PartialEq, Eq, Structural)]
pub enum DataBits {
    /// Five data bits.
    Five,
    /// Six data bits.
    Six,
    /// Seven data bits.
    Seven,
    /// Eight data bits.
    Eight,
}

/// Number of stop bits after each character.
#[derive(Clone, Copy, Debug, PartialEq, Eq, Structural)]
pub enum StopBits {
    /// One stop bit.
    One,
    /// Two stop bits.
    Two,
}

/// The parity bit carried with each character, if any.
#[derive(Clone, Copy, Debug, PartialEq, Eq, Structural)]
pub enum Parity {
    /// No parity bit.
    Disabled,
    /// Odd parity.
    Odd,
    /// Even parity.
    Even,
}

/// Flow control over the line.
#[derive(Clone, Copy, Debug, PartialEq, Eq, Structural)]
pub enum FlowControl {
    /// No flow control.
    Disabled,
    /// Software flow control (XON/XOFF).
    Software,
    /// Hardware flow control (RTS/CTS).
    Hardware,
}

/// Which buffered bytes a clear request discards.
#[derive(Clone, Copy, Debug, PartialEq, Eq, Structural)]
pub enum ClearBuffer {
    /// Bytes received but not yet read.
    Input,
    /// Bytes written but not yet transmitted.
    Output,
    /// Both directions.
    All,
}

/// The line settings of a device.
#[derive(Clone, Copy, Debug, PartialEq, Eq, Structural)]
pub struct DeviceConfig {
    /// Symbols per second on the line.
    pub baud_rate: u32,
    /// Data bits per character.
    pub data_bits: DataBits,
    /// Stop bits per character.
    pub stop_bits: StopBits,
    /// Parity mode.
    pub parity: Parity,
    /// Flow control mode.
    pub flow_control: FlowControl,
}

/// The modem control lines an endpoint drives (RTS, DTR) and whether a
/// break condition is being asserted on the line.
#[derive(Clone, Copy, Debug, PartialEq, Eq, Structural)]
pub struct LineState {
    /// Request-to-send, driven by this endpoint.
    pub rts: bool,
    /// Data-terminal-ready, driven by this endpoint.
    pub dtr: bool,
    /// Whether this endpoint is asserting a break condition.
    pub break_active: bool,
}

/// The baud rates a device accepts: the standard line speeds.
pub open spec fn supported_baud(b: u32) -> bool {
    b == 50 || b == 75 || b == 110 || b == 134 || b == 150 || b == 200 || b == 300 || b == 600
        || b == 1200 || b == 1800 || b == 2400 || b == 4800 || b == 9600 || b == 19200 || b == 38400
        || b == 57600 || b == 115200 || b == 230400
}

/// Whether `b` is a baud rate the device accepts.
pub fn is_supported_baud(b: u32) -> (r: bool)
    ensures
        r == supported_baud(b),
{
    b == 50 || b == 75 || b == 110 || b == 134 || b == 150 || b == 200 || b == 300 || b == 600
        || b == 1200 || b == 1800 || b == 2400 || b == 4800 || b == 9600 || b == 19200 || b == 38400
        || b == 57600 || b == 115200 || b == 230400
}

impl DeviceConfig {
    /// The settings a loopback endpoint starts with: 9600 baud, eight
    /// data bits, one stop bit, no parity, no flow control.
    pub fn default_loopback() -> (r: DeviceConfig)
        ensures
            r.baud_rate == 9600,
            r.data_bits == DataBits::Eight,
            r.stop_bits == StopBits::One,
            r.parity == Parity::Disabled,
            r.flow_control == FlowControl::Disabled,
            supported_baud(r.baud_rate),
    {
        DeviceConfig {
            baud_rate: 9600,
            data_bits: DataBits::Eight,
            stop_bits: StopBits::One,
            parity: Parity::Disabled,
            flow_control: FlowControl::Disabled,
        }
    }
}

impl LineState {
    /// The control lines of a fresh endpoint: nothing asserted.
    pub fn idle() -> (r: LineState)
        ensures
            !r.rts,
            !r.dtr,
            !r.break_active,
    {
        LineState { rts: false, dtr: false, break_active: false }
    }
}

} // verus!
