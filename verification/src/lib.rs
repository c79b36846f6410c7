//! Control-line abstraction over a serial channel.
//!
//! A serial connection exposes two control lines, Data Terminal Ready (DTR)
//! and Request To Send (RTS). On an ordinary port (for instance a USB-to-UART
//! adapter) those lines are driven through the port's own driver; on a host
//! whose internal UART has no such lines they must be driven through GPIO
//! pins instead. This crate decides, per line, which mechanism backs it, and
//! validates that a coherent combination was requested.

mod errors;
mod interface;
mod laws;
mod ports;
mod providers;

pub use errors::IoError;
pub use errors::OpenError;
pub use errors::SerialConfigError;
pub use interface::DEFAULT_BAUD;
pub use interface::Interface;
pub use interface::InterfaceView;
pub use interface::LineState;
pub use interface::missing_control_pins;
pub use laws::lemma_known_port_needs_no_pins;
pub use laws::lemma_set_line_idempotent;
pub use laws::lemma_set_line_round_trip;
pub use laws::lemma_unknown_port_both_pins_accepted;
pub use laws::lemma_unknown_port_missing_pin_rejected;
pub use ports::PortInfo;
pub use ports::PortType;
