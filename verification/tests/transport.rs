//! Behaviour of a transport-backed interface, exercised over a
//! pseudo-terminal pair: byte reads pass straight through to the transport,
//! and releasing the interface hands the same open transport back.

use std::io::Read;
use std::io::Write;

use serial_ctrl::Interface;
use serialport::SerialPort;
use serialport::TTYPort;

fn read_exactly(interface: &mut Interface, want: usize) -> Vec<u8> {
    let mut collected: Vec<u8> = Vec::new();
    let mut attempts = 0;
    while collected.len() < want && attempts < 100 {
        let mut buf = vec![0u8; want];
        match interface.read(&mut buf) {
            Ok(n) => collected.extend_from_slice(&buf[..n]),
            Err(_) => {}
        }
        attempts += 1;
    }
    collected
}

#[test]
fn read_passes_bytes_through_unchanged() {
    let (mut master, slave) = TTYPort::pair().expect("opening a pseudo-terminal pair");
    master.write_all(b"hello").expect("writing into the pair");

    let mut interface = Interface::from_transport(slave);
    let collected = read_exactly(&mut interface, 5);
    assert_eq!(collected, b"hello");
}

#[test]
fn read_never_grows_the_buffer() {
    let (mut master, slave) = TTYPort::pair().expect("opening a pseudo-terminal pair");
    master.write_all(b"abcdefgh").expect("writing into the pair");

    let mut interface = Interface::from_transport(slave);
    let mut buf = vec![0u8; 3];
    let mut got: usize = 0;
    let mut attempts = 0;
    while got == 0 && attempts < 100 {
        if let Ok(n) = interface.read(&mut buf) {
            got = n;
        }
        attempts += 1;
    }
    assert!(got > 0 && got <= 3);
    assert_eq!(buf.len(), 3);
}

#[test]
fn into_serial_returns_the_same_open_transport() {
    let (mut master, slave) = TTYPort::pair().expect("opening a pseudo-terminal pair");
    master.write_all(b"xyz").expect("writing into the pair");

    let interface = Interface::from_transport(slave);
    let mut port = interface.into_serial();

    let mut collected: Vec<u8> = Vec::new();
    let mut attempts = 0;
    while collected.len() < 3 && attempts < 100 {
        let mut buf = [0u8; 8];
        if let Ok(n) = port.read(&mut buf) {
            collected.extend_from_slice(&buf[..n]);
        }
        attempts += 1;
    }
    assert_eq!(collected, b"xyz");
}

#[test]
fn borrowed_accessors_reach_the_underlying_transport() {
    let (mut master, slave) = TTYPort::pair().expect("opening a pseudo-terminal pair");
    master.write_all(b"ab").expect("writing into the pair");

    let mut interface = Interface::from_transport(slave);
    // The slave end of a pseudo-terminal pair carries a device name.
    assert!(interface.serial_port().name().is_some());

    let mut collected: Vec<u8> = Vec::new();
    let mut attempts = 0;
    while collected.len() < 2 && attempts < 100 {
        let mut buf = [0u8; 8];
        if let Ok(n) = interface.serial_port_mut().read(&mut buf) {
            collected.extend_from_slice(&buf[..n]);
        }
        attempts += 1;
    }
    assert_eq!(collected, b"ab");
}

#[test]
fn setting_a_line_twice_behaves_like_setting_it_once() {
    // On a transport-backed interface the outcome of a DTR set is the
    // driver's to decide, but repeating the same request must not change it.
    let (_master, slave) = TTYPort::pair().expect("opening a pseudo-terminal pair");
    let mut interface = Interface::from_transport(slave);

    let first = interface.write_data_terminal_ready(true);
    let second = interface.write_data_terminal_ready(true);
    assert_eq!(first.is_ok(), second.is_ok());

    let up = interface.write_request_to_send(true);
    let down = interface.write_request_to_send(false);
    assert_eq!(up.is_ok(), down.is_ok());
}
