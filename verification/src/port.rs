//! The serial-port builder and the frame capability.
//!
//! The builder collects the parameters of one physical port; the runtime
//! opens the OS handle from the configuration it produces. Frames are
//! supplied by the caller's codec; the core only asks one question of a
//! frame — whether it is an acknowledgement.

use vstd::prelude::*;

use crate::config::DataBits;
use crate::config::FlowControl;
use crate::config::Parity;
use crate::config::SerialPortConfig;
use crate::config::StopBits;

verus! {

/// The one capability the transport needs from a decoded frame: whether the
/// remote end meant it as an acknowledgement of the last write.
pub trait FrameAck {
    fn is_ack(&self) -> bool;
}

/// Builder for the settings of one serial port. Defaults are 8 data bits,
/// one stop bit, no parity, no flow control and no timeout.
#[derive(Clone, Debug)]
pub struct SerialPortBuilder {
    pub path: String,
    pub baud_rate: u32,
    pub data_bits: DataBits,
    pub flow_control: FlowControl,
    pub parity: Parity,
    pub stop_bits: StopBits,
    pub timeout_ms: u64,
}

impl SerialPortBuilder {
    /// Start from a path and baud rate with the default line settings.
    pub fn new(path: &str, baud_rate: u32) -> (r: Self)
        ensures
            r.path@ == path@,
            r.baud_rate == baud_rate,
            r.data_bits == DataBits::Eight,
            r.flow_control == FlowControl::Off,
            r.parity == Parity::Off,
            r.stop_bits == StopBits::One,
            r.timeout_ms == 0,
    {
        SerialPortBuilder {
            path: path.to_owned(),
            baud_rate,
            data_bits: DataBits::Eight,
            flow_control: FlowControl::Off,
            parity: Parity::Off,
            stop_bits: StopBits::One,
            timeout_ms: 0,
        }
    }

    /// Replace the data bits; everything else is kept.
    pub fn with_data_bits(self, data_bits: DataBits) -> (r: Self)
        ensures
            r == (SerialPortBuilder { data_bits, ..self }),
    {
        SerialPortBuilder { data_bits, ..self }
    }

    /// Replace the flow control; everything else is kept.
    pub fn with_flow_control(self, flow_control: FlowControl) -> (r: Self)
        ensures
            r == (SerialPortBuilder { flow_control, ..self }),
    {
        SerialPortBuilder { flow_control, ..self }
    }

    /// Replace the parity; everything else is kept.
    pub fn with_parity(self, parity: Parity) -> (r: Self)
        ensures
            r == (SerialPortBuilder { parity, ..self }),
    {
        SerialPortBuilder { parity, ..self }
    }

    /// Replace the stop bits; everything else is kept.
    pub fn with_stop_bits(self, stop_bits: StopBits) -> (r: Self)
        ensures
            r == (SerialPortBuilder { stop_bits, ..self }),
    {
        SerialPortBuilder { stop_bits, ..self }
    }

    /// Replace the timeout window, in milliseconds; everything else is
    /// kept. Zero means writes on this port never wait for an
    /// acknowledgement.
    pub fn with_timeout(self, timeout_ms: u64) -> (r: Self)
        ensures
            r == (SerialPortBuilder { timeout_ms, ..self }),
    {
        SerialPortBuilder { timeout_ms, ..self }
    }

    /// The finished configuration, field for field.
    pub fn build(self) -> (r: SerialPortConfig)
        ensures
            r.path == self.path,
            r.baud_rate == self.baud_rate,
            r.data_bits == self.data_bits,
            r.flow_control == self.flow_control,
            r.parity == self.parity,
            r.stop_bits == self.stop_bits,
            r.timeout_ms == self.timeout_ms,
    {
        SerialPortConfig {
            path: self.path,
            baud_rate: self.baud_rate,
            data_bits: self.data_bits,
            stop_bits: self.stop_bits,
            parity: self.parity,
            flow_control: self.flow_control,
            timeout_ms: self.timeout_ms,
        }
    }
}

} // verus!
