//! Error types reported by the control-line interface.

use vstd::prelude::*;

verus! {

/// Errors relating to the configuration of a serial port's control lines.
#[derive(Clone, Copy, PartialEq, Eq, Structural, Debug)]
pub enum SerialConfigError {
    /// An unknown-type port (assumed to be an internal UART without usable
    /// control lines) was requested without both GPIO pins supplied.
    MissingDtrRtsForInternalUart,
    /// The named GPIO pin could not be claimed for output.
    GpioUnavailable(u8),
}

/// Errors that can abort construction of an [`Interface`](crate::Interface).
#[derive(Debug)]
pub enum OpenError {
    /// The requested combination of port type and GPIO pins is incoherent,
    /// or a pin could not be claimed.
    Config(SerialConfigError),
    /// The serial provider failed to open the port; carries the name of the
    /// port that was being opened together with the provider's error.
    Serial { port_name: String, source: serialport::Error },
}

/// Errors returned by line-control and byte-read operations after
/// construction.
#[derive(Debug)]
pub enum IoError {
    /// The serial transport provider reported a failure; propagated
    /// unchanged from the provider.
    Transport(serialport::Error),
}

} // verus!
