use openpulse_repeater::error::PttError;
use openpulse_repeater::serial::{
    LineWrite, PortAttempt, SerialPin, SerialRtsDtrPtt, SERIAL_BAUD,
};

/// Opening a serial device that does not exist is an error, not a panic.
#[test]
fn open_on_a_nonexistent_device_errors() {
    let attempt =
        match serialport::new("/dev/nonexistent-openpulse-tty-xyz", SERIAL_BAUD).open() {
            Ok(_) => PortAttempt::Opened,
            Err(e) => PortAttempt::Failed(e.to_string()),
        };
    let r = SerialRtsDtrPtt::open(SerialPin::Rts, attempt);
    assert!(r.is_err(), "opening a missing serial device must error");
    assert!(matches!(r, Err(PttError::Serial(_))));
}

#[test]
fn a_build_without_serial_ports_says_so() {
    let e = SerialRtsDtrPtt::open(SerialPin::Dtr, PortAttempt::NotCompiledIn)
        .expect_err("there are no ports");
    assert_eq!(
        e.to_string(),
        "PTT configuration error: serial PTT not compiled in; rebuild with --features serial"
    );
}

#[test]
fn the_line_follows_the_key() {
    for pin in [SerialPin::Rts, SerialPin::Dtr] {
        let mut c = SerialRtsDtrPtt::open(pin, PortAttempt::Opened).expect("open");
        assert!(!c.is_asserted());
        assert_eq!(c.assert_write(), LineWrite { pin, level: true });
        assert_eq!(c.release_write(), LineWrite { pin, level: false });
        assert!(c.assert_ptt(Ok(())).is_ok());
        assert!(c.is_asserted());
        assert!(c.release_ptt(Ok(())).is_ok());
        assert!(!c.is_asserted());
    }
}

#[test]
fn a_failed_write_changes_nothing() {
    let mut c = SerialRtsDtrPtt::open(SerialPin::Rts, PortAttempt::Opened).expect("open");
    let e = c.assert_ptt(Err("unplugged".into())).expect_err("failed");
    assert_eq!(e.to_string(), "serial port error: unplugged");
    assert!(!c.is_asserted());
    c.assert_ptt(Ok(())).expect("keyed");
    assert!(c.release_ptt(Err("unplugged".into())).is_err());
    assert!(c.is_asserted(), "a line that could not be driven low is still high");
}
