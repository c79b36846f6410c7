//! The control-line interface: an open serial transport together with the
//! mechanism that backs each control line.

use vstd::prelude::*;

use crate::errors::IoError;
use crate::errors::OpenError;
use crate::errors::SerialConfigError;
use crate::ports::PortInfo;
use crate::ports::PortType;
use crate::providers;

verus! {

/// Baud rate at which every port is opened.
pub const DEFAULT_BAUD: u32 = 115_200;

/// A GPIO output handle together with the BCM pin number it was claimed
/// under.
pub struct GpioLine {
    /// The BCM number of the claimed pin.
    pub pin_id: u8,
    handle: rppal::gpio::OutputPin,
}

/// The abstract state of one control line: which mechanism backs it, and the
/// level it was last successfully commanded to.
pub ghost struct LineState {
    /// `Some(p)`: the line is driven through GPIO pin `p`; `None`: the line
    /// is forwarded to the transport's own driver.
    pub gpio_pin: Option<u8>,
    /// The level the line was last successfully set to through this
    /// interface; `None` when it was never set, or when the last attempt
    /// failed and left the line in an unknown state.
    pub level: Option<bool>,
}

/// The abstract state of an [`Interface`]: one [`LineState`] per control
/// line.
pub ghost struct InterfaceView {
    /// State of the Data Terminal Ready line.
    pub dtr: LineState,
    /// State of the Request To Send line.
    pub rts: LineState,
}

impl InterfaceView {
    /// The state after the DTR line was commanded to `level` (or left in an
    /// unknown state, for `None`); everything else is unchanged.
    pub open spec fn with_dtr_level(self, level: Option<bool>) -> InterfaceView {
        InterfaceView {
            dtr: LineState { gpio_pin: self.dtr.gpio_pin, level },
            rts: self.rts,
        }
    }

    /// The state after the RTS line was commanded to `level` (or left in an
    /// unknown state, for `None`); everything else is unchanged.
    pub open spec fn with_rts_level(self, level: Option<bool>) -> InterfaceView {
        InterfaceView {
            dtr: self.dtr,
            rts: LineState { gpio_pin: self.rts.gpio_pin, level },
        }
    }
}

/// The pin number under which a GPIO-backed line was claimed, if any.
pub closed spec fn spec_line_pin(line: Option<GpioLine>) -> Option<u8> {
    match line {
        Some(l) => Some(l.pin_id),
        None => None,
    }
}

/// An unknown-type port (assumed to be an internal UART) was requested
/// without both control pins supplied: the one configuration that is
/// rejected outright.
pub open spec fn missing_control_pins(port_type: PortType, dtr: Option<u8>, rts: Option<u8>) -> bool {
    port_type is Unknown && (dtr is None || rts is None)
}

/// Wrapper around an open serial transport where each control line is
/// dispatched either to the transport's own driver or to an owned GPIO pin.
pub struct Interface {
    serial_port: serialport::TTYPort,
    dtr: Option<GpioLine>,
    rts: Option<GpioLine>,
    dtr_level: Ghost<Option<bool>>,
    rts_level: Ghost<Option<bool>>,
}

impl View for Interface {
    type V = InterfaceView;

    closed spec fn view(&self) -> InterfaceView {
        InterfaceView {
            dtr: LineState { gpio_pin: spec_line_pin(self.dtr), level: self.dtr_level@ },
            rts: LineState { gpio_pin: spec_line_pin(self.rts), level: self.rts_level@ },
        }
    }
}

impl Interface {
    /// The transport handle this interface owns.
    pub closed spec fn spec_serial(&self) -> serialport::TTYPort {
        self.serial_port
    }

    /// Decide whether the requested combination of port type and control
    /// pins is coherent: an unknown-type port demands both pins; every other
    /// combination is accepted.
    pub fn check_control_pins(port_type: PortType, dtr: Option<u8>, rts: Option<u8>) -> (r: Result<(), SerialConfigError>)
        ensures
            r is Ok <==> !missing_control_pins(port_type, dtr, rts),
            r matches Err(e) ==> e == SerialConfigError::MissingDtrRtsForInternalUart,
    {
        if port_type == PortType::Unknown && (dtr.is_none() || rts.is_none()) {
            Err(SerialConfigError::MissingDtrRtsForInternalUart)
        } else {
            Ok(())
        }
    }

    /// Open the named port at [`DEFAULT_BAUD`] with flow control disabled
    /// and, for each control pin requested, claim that GPIO pin for output.
    ///
    /// An unknown-type port without both pins is rejected before anything is
    /// acquired. Pins are claimed before the port is opened, RTS first; on
    /// any later failure every handle already claimed is dropped again, so
    /// no resource outlives a failed construction.
    pub fn new(port_info: &PortInfo, dtr: Option<u8>, rts: Option<u8>) -> (r: Result<Interface, OpenError>)
        ensures
            (r matches Err(OpenError::Config(e)) && e == SerialConfigError::MissingDtrRtsForInternalUart)
                <==> missing_control_pins(port_info.port_type, dtr, rts),
            r matches Err(OpenError::Config(SerialConfigError::GpioUnavailable(p)))
                ==> !missing_control_pins(port_info.port_type, dtr, rts)
                    && (dtr == Some(p) || rts == Some(p)),
            r matches Err(OpenError::Serial { port_name, .. })
                ==> !missing_control_pins(port_info.port_type, dtr, rts)
                    && port_name@ == port_info.port_name@,
            r matches Ok(i)
                ==> !missing_control_pins(port_info.port_type, dtr, rts)
                    && i@.dtr == (LineState { gpio_pin: dtr, level: None })
                    && i@.rts == (LineState { gpio_pin: rts, level: None }),
            port_info.port_type is Known && dtr is None && rts is None
                ==> r is Ok || (r matches Err(OpenError::Serial { .. })),
    {
        if let Err(e) = Self::check_control_pins(port_info.port_type, dtr, rts) {
            return Err(OpenError::Config(e));
        }

        let mut dtr_line: Option<GpioLine> = None;
        let mut rts_line: Option<GpioLine> = None;
        if dtr.is_some() || rts.is_some() {
            let gpio = match providers::gpio_new() {
                Ok(g) => g,
                Err(_) => {
                    // The peripheral itself could not be accessed, so the
                    // first pin that was about to be claimed is reported as
                    // unavailable.
                    let blamed: u8 = match rts {
                        Some(p) => p,
                        None => match dtr {
                            Some(p) => p,
                            None => 0,
                        },
                    };
                    return Err(OpenError::Config(SerialConfigError::GpioUnavailable(blamed)));
                }
            };
            rts_line = match rts {
                Some(p) => match providers::acquire_output_pin(&gpio, p) {
                    Ok(handle) => Some(GpioLine { pin_id: p, handle }),
                    Err(_) => {
                        return Err(OpenError::Config(SerialConfigError::GpioUnavailable(p)));
                    }
                },
                None => None,
            };
            dtr_line = match dtr {
                Some(p) => match providers::acquire_output_pin(&gpio, p) {
                    Ok(handle) => Some(GpioLine { pin_id: p, handle }),
                    Err(_) => {
                        return Err(OpenError::Config(SerialConfigError::GpioUnavailable(p)));
                    }
                },
                None => None,
            };
        }

        let serial_port = match providers::open_serial(port_info.port_name.as_str(), DEFAULT_BAUD) {
            Ok(port) => port,
            Err(source) => {
                return Err(OpenError::Serial { port_name: port_info.port_name.clone(), source });
            }
        };

        Ok(Interface {
            serial_port,
            dtr: dtr_line,
            rts: rts_line,
            dtr_level: Ghost(None),
            rts_level: Ghost(None),
        })
    }

    /// Wrap an already-open transport with both control lines forwarded to
    /// its driver, as on a deployment without GPIO support.
    pub fn from_transport(serial_port: serialport::TTYPort) -> (r: Interface)
        ensures
            r@.dtr == (LineState { gpio_pin: None::<u8>, level: None::<bool> }),
            r@.rts == (LineState { gpio_pin: None::<u8>, level: None::<bool> }),
            r.spec_serial() == serial_port,
    {
        Interface {
            serial_port,
            dtr: None,
            rts: None,
            dtr_level: Ghost(None),
            rts_level: Ghost(None),
        }
    }

    /// Set the level of the DTR line.
    ///
    /// A GPIO-backed line is driven directly and cannot fail; a
    /// transport-backed line forwards to the transport's own DTR operation
    /// and propagates its error unchanged, leaving the line's level unknown
    /// on failure.
    pub fn write_data_terminal_ready(&mut self, pin_state: bool) -> (r: Result<(), IoError>)
        ensures
            old(self)@.dtr.gpio_pin is Some ==> r is Ok,
            r is Ok ==> final(self)@ == old(self)@.with_dtr_level(Some(pin_state)),
            r is Err ==> old(self)@.dtr.gpio_pin is None
                && final(self)@ == old(self)@.with_dtr_level(None::<bool>),
    {
        match &mut self.dtr {
            Some(line) => {
                providers::set_pin_level(&mut line.handle, pin_state);
                self.dtr_level = Ghost(Some(pin_state));
                Ok(())
            }
            None => match providers::serial_set_dtr(&mut self.serial_port, pin_state) {
                Ok(()) => {
                    self.dtr_level = Ghost(Some(pin_state));
                    Ok(())
                }
                Err(e) => {
                    self.dtr_level = Ghost(None);
                    Err(IoError::Transport(e))
                }
            },
        }
    }

    /// Set the level of the RTS line; symmetric to
    /// [`Self::write_data_terminal_ready`].
    pub fn write_request_to_send(&mut self, pin_state: bool) -> (r: Result<(), IoError>)
        ensures
            old(self)@.rts.gpio_pin is Some ==> r is Ok,
            r is Ok ==> final(self)@ == old(self)@.with_rts_level(Some(pin_state)),
            r is Err ==> old(self)@.rts.gpio_pin is None
                && final(self)@ == old(self)@.with_rts_level(None::<bool>),
    {
        match &mut self.rts {
            Some(line) => {
                providers::set_pin_level(&mut line.handle, pin_state);
                self.rts_level = Ghost(Some(pin_state));
                Ok(())
            }
            None => match providers::serial_set_rts(&mut self.serial_port, pin_state) {
                Ok(()) => {
                    self.rts_level = Ghost(Some(pin_state));
                    Ok(())
                }
                Err(e) => {
                    self.rts_level = Ghost(None);
                    Err(IoError::Transport(e))
                }
            },
        }
    }

    /// Read bytes from the transport into the front of `buf`, exactly as
    /// reading from the transport itself would: same short-read semantics,
    /// same errors, no buffering or transformation, and no effect on the
    /// control lines.
    pub fn read(&mut self, buf: &mut Vec<u8>) -> (r: Result<usize, IoError>)
        ensures
            final(self)@ == old(self)@,
            final(buf)@.len() == old(buf)@.len(),
            r matches Ok(n) ==> n <= final(buf)@.len(),
    {
        match providers::read_bytes(&mut self.serial_port, buf) {
            Ok(n) => Ok(n),
            Err(e) => Err(IoError::Transport(e)),
        }
    }

    /// Consume the interface, dropping any owned GPIO handles (which
    /// releases their pins) and returning sole ownership of the transport.
    pub fn into_serial(self) -> (r: serialport::TTYPort)
        ensures
            r == self.spec_serial(),
    {
        let Interface { serial_port, dtr: _, rts: _, dtr_level: _, rts_level: _ } = self;
        serial_port
    }

    /// Borrow the underlying transport for operations that do not concern
    /// the control lines.
    pub fn serial_port(&self) -> (r: &serialport::TTYPort)
        ensures
            *r == self.spec_serial(),
    {
        &self.serial_port
    }

    /// Mutably borrow the underlying transport for operations that do not
    /// concern the control lines; the line states recorded here are
    /// untouched.
    pub fn serial_port_mut(&mut self) -> (r: &mut serialport::TTYPort)
        ensures
            *r == old(self).spec_serial(),
            final(self).spec_serial() == *final(r),
            final(self)@ == old(self)@,
    {
        &mut self.serial_port
    }
}

} // verus!
