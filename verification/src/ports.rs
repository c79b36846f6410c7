//! Plain description of a serial port: its name and whether its physical
//! interface kind is known.

use vstd::prelude::*;

verus! {

/// Classification of a serial port's physical interface.
///
/// A port whose interface the platform can identify (a USB adapter, a PCI
/// device) is `Known`; one it cannot (typically a bare internal UART) is
/// `Unknown`. An unknown port is assumed to have no usable DTR or RTS line,
/// so opening one demands explicit GPIO pins for both lines.
#[derive(Clone, Copy, PartialEq, Eq, Structural, Debug)]
pub enum PortType {
    /// The platform identified the physical interface behind the port.
    Known,
    /// The physical interface could not be identified; treated as an
    /// internal UART without usable control lines.
    Unknown,
}

/// A serial port descriptor: the device name to open and the port's
/// interface classification.
#[derive(Debug)]
pub struct PortInfo {
    /// Device name handed to the serial provider (for instance "COM7" or
    /// "/dev/ttyAMA0").
    pub port_name: String,
    /// Whether the physical interface behind the port is known.
    pub port_type: PortType,
}

} // verus!
