//! Capability negotiation: which combinations of port type and control pins
//! are accepted, and which error each rejected combination reports.

use serial_ctrl::Interface;
use serial_ctrl::OpenError;
use serial_ctrl::PortInfo;
use serial_ctrl::PortType;
use serial_ctrl::SerialConfigError;

#[test]
fn known_port_without_pins_passes_negotiation() {
    assert!(Interface::check_control_pins(PortType::Known, None, None).is_ok());
}

#[test]
fn known_port_with_pins_passes_negotiation() {
    assert!(Interface::check_control_pins(PortType::Known, Some(4), Some(17)).is_ok());
}

#[test]
fn unknown_port_without_dtr_pin_is_rejected() {
    let r = Interface::check_control_pins(PortType::Unknown, None, Some(17));
    assert_eq!(r, Err(SerialConfigError::MissingDtrRtsForInternalUart));
}

#[test]
fn unknown_port_without_rts_pin_is_rejected() {
    let r = Interface::check_control_pins(PortType::Unknown, Some(4), None);
    assert_eq!(r, Err(SerialConfigError::MissingDtrRtsForInternalUart));
}

#[test]
fn unknown_port_without_any_pin_is_rejected() {
    let r = Interface::check_control_pins(PortType::Unknown, None, None);
    assert_eq!(r, Err(SerialConfigError::MissingDtrRtsForInternalUart));
}

#[test]
fn unknown_port_with_both_pins_passes_negotiation() {
    assert!(Interface::check_control_pins(PortType::Unknown, Some(4), Some(17)).is_ok());
}

#[test]
fn open_unknown_port_missing_pin_fails_with_missing_control_pins() {
    let info = PortInfo {
        port_name: String::from("ttyAMA0"),
        port_type: PortType::Unknown,
    };
    let r = Interface::new(&info, None, Some(17));
    assert!(matches!(
        r,
        Err(OpenError::Config(SerialConfigError::MissingDtrRtsForInternalUart))
    ));
}

#[test]
fn open_nonexistent_known_port_reports_serial_error_with_port_name() {
    let info = PortInfo {
        port_name: String::from("/dev/tty_serial_ctrl_no_such_port"),
        port_type: PortType::Known,
    };
    match Interface::new(&info, None, None) {
        Err(OpenError::Serial { port_name, .. }) => {
            assert_eq!(port_name, "/dev/tty_serial_ctrl_no_such_port");
        }
        Err(other) => panic!("expected a transport-open error, got {:?}", other),
        Ok(_) => panic!("opening a nonexistent port succeeded"),
    }
}

#[test]
fn open_with_pins_where_gpio_is_unavailable_blames_the_rts_pin() {
    // On a host without an accessible GPIO peripheral, pin acquisition fails
    // for the first pin claimed, which is the RTS pin.
    let info = PortInfo {
        port_name: String::from("ttyAMA0"),
        port_type: PortType::Unknown,
    };
    let r = Interface::new(&info, Some(4), Some(17));
    assert!(matches!(
        r,
        Err(OpenError::Config(SerialConfigError::GpioUnavailable(17)))
    ));
}

#[test]
fn config_errors_compare_by_pin_number() {
    assert_eq!(
        SerialConfigError::GpioUnavailable(17),
        SerialConfigError::GpioUnavailable(17)
    );
    assert_ne!(
        SerialConfigError::GpioUnavailable(17),
        SerialConfigError::GpioUnavailable(4)
    );
    assert_ne!(
        SerialConfigError::GpioUnavailable(17),
        SerialConfigError::MissingDtrRtsForInternalUart
    );
}
