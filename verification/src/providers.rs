//! Trusted boundary to the two outside providers: the serial transport
//! (the `serialport` crate) and the GPIO peripheral (the `rppal` crate).
//!
//! Every item here is believed, not verified: each wrapper's body makes one
//! call into a provider, and its contract states only what that provider's
//! own source and documentation show.

use vstd::prelude::*;

use serialport::SerialPort;

verus! {

#[verifier::external_type_specification]
#[verifier::external_body]
pub struct ExTtyPort(serialport::TTYPort);

#[verifier::external_type_specification]
#[verifier::external_body]
pub struct ExSerialError(serialport::Error);

#[verifier::external_type_specification]
#[verifier::external_body]
pub struct ExGpio(rppal::gpio::Gpio);

#[verifier::external_type_specification]
#[verifier::external_body]
pub struct ExOutputPin(rppal::gpio::OutputPin);

#[verifier::external_type_specification]
#[verifier::external_body]
pub struct ExGpioError(rppal::gpio::Error);

/// Relies on `serialport::new` and `SerialPortBuilder::open_native`: opens
/// the named port at the given baud rate, with flow control disabled
/// (`SerialPortBuilder::flow_control` with `FlowControl::None`), and returns
/// an exclusively owned handle to it, or the provider's error.
#[verifier::external_body]
pub(crate) fn open_serial(name: &str, baud: u32) -> (r: Result<serialport::TTYPort, serialport::Error>) {
    serialport::new(name, baud)
        .flow_control(serialport::FlowControl::None)
        .open_native()
}

/// Relies on `rppal::gpio::Gpio::new`: returns a handle to the GPIO
/// peripheral, or an error when the peripheral cannot be accessed (unknown
/// board model, permission denied, I/O failure).
#[verifier::external_body]
pub(crate) fn gpio_new() -> (r: Result<rppal::gpio::Gpio, rppal::gpio::Error>) {
    rppal::gpio::Gpio::new()
}

/// Relies on `rppal::gpio::Gpio::get` and `Pin::into_output`: claims the pin
/// with the given BCM number for exclusive use and configures it as an
/// output, or fails when the pin does not exist or is already claimed. The
/// claim is released when the returned handle is dropped.
#[verifier::external_body]
pub(crate) fn acquire_output_pin(gpio: &rppal::gpio::Gpio, pin: u8) -> (r: Result<rppal::gpio::OutputPin, rppal::gpio::Error>) {
    gpio.get(pin).map(rppal::gpio::Pin::into_output)
}

/// Relies on `rppal::gpio::OutputPin::write`: sets the pin's electrical
/// level (`true` is logic high). The provider defines this operation as
/// non-failing: it returns no error.
#[verifier::external_body]
pub(crate) fn set_pin_level(pin: &mut rppal::gpio::OutputPin, level: bool) {
    pin.write(rppal::gpio::Level::from(level));
}

/// Relies on `TTYPort`'s `SerialPort::write_data_terminal_ready`: asks the
/// port's driver to set the DTR line to the given level, propagating the
/// driver's error.
#[verifier::external_body]
pub(crate) fn serial_set_dtr(port: &mut serialport::TTYPort, level: bool) -> (r: Result<(), serialport::Error>) {
    port.write_data_terminal_ready(level)
}

/// Relies on `TTYPort`'s `SerialPort::write_request_to_send`: asks the
/// port's driver to set the RTS line to the given level, propagating the
/// driver's error.
#[verifier::external_body]
pub(crate) fn serial_set_rts(port: &mut serialport::TTYPort, level: bool) -> (r: Result<(), serialport::Error>) {
    port.write_request_to_send(level)
}

/// Relies on `TTYPort`'s `std::io::Read::read`: reads at most `buf.len()`
/// bytes into the front of `buf` and returns how many were read; a slice
/// read never changes the buffer's length. The provider's `io::Error` is
/// carried over into its own error type through the conversion the provider
/// itself defines.
#[verifier::external_body]
pub(crate) fn read_bytes(port: &mut serialport::TTYPort, buf: &mut Vec<u8>) -> (r: Result<usize, serialport::Error>)
    ensures
        final(buf)@.len() == old(buf)@.len(),
        r matches Ok(n) ==> n <= final(buf)@.len(),
{
    std::io::Read::read(port, buf.as_mut_slice()).map_err(serialport::Error::from)
}

} // verus!
