use openpulse_repeater::config::RepeaterConfig;
use openpulse_repeater::error::{PttError, RadioError, RepeaterError};

#[test]
fn keying_errors_read_as_documented() {
    let cases = [
        (PttError::Serial("a".into()), "serial port error: a"),
        (PttError::Rigctld("b".into()), "rigctld connection error: b"),
        (PttError::Io("c".into()), "io error: c"),
        (PttError::Config("d".into()), "PTT configuration error: d"),
        (
            PttError::AlreadyKeyed { held_by: "beacon" },
            "PTT already keyed by beacon",
        ),
    ];
    for (error, text) in cases {
        assert_eq!(error.to_string(), text);
    }
}

#[test]
fn rig_errors_read_as_documented() {
    let cases = [
        (RadioError::RigctldIo("a".into()), "rigctld I/O error: a"),
        (
            RadioError::RigctldProtocol("b".into()),
            "rigctld protocol error: b",
        ),
        (RadioError::Parse("c".into()), "parse error: c"),
        (
            RadioError::Unsupported("split"),
            "operation not supported by this rig: split",
        ),
        (RadioError::GenericCat("d".into()), "generic CAT error: d"),
    ];
    for (error, text) in cases {
        assert_eq!(error.to_string(), text);
    }
}

#[test]
fn repeater_errors_read_as_documented() {
    assert_eq!(
        RepeaterError::Modem("no plugin".into()).to_string(),
        "modem error: no plugin"
    );
    assert_eq!(
        RepeaterError::from(PttError::Config("x".into())).to_string(),
        "PTT error: PTT configuration error: x"
    );
}

#[test]
fn the_default_configuration() {
    let c = RepeaterConfig::default();
    assert!(c.enabled);
    assert_eq!(c.mode, "BPSK250");
    assert_eq!(c.tx_hang_ms, 0);
    assert!(!c.full_duplex);
    assert_eq!(c.callsign, "");
    assert_eq!(c.id_interval_secs, 600);
    assert!(c.carrier_sense);
    assert_eq!(c.id_interval_ms(), None);
}

fn interval(callsign: &str, id_interval_secs: u64) -> Option<u64> {
    RepeaterConfig {
        callsign: callsign.into(),
        id_interval_secs,
        ..Default::default()
    }
    .id_interval_ms()
}

#[test]
fn a_station_identifies_itself_with_a_callsign_and_an_interval() {
    assert_eq!(interval("W1AW", 600), Some(600_000));
    assert_eq!(interval("  W1AW\n", 1), Some(1_000));
    assert_eq!(interval("W1AW", 0), None);
    assert_eq!(interval("", 600), None);
}

#[test]
fn a_blank_callsign_is_no_callsign() {
    assert_eq!(interval("   ", 600), None);
    assert_eq!(interval("\t\n\u{3000}", 600), None);
    assert_eq!(interval("\u{200B}", 600), Some(600_000));
    assert_eq!(interval(" \t W", 600), Some(600_000));
}

#[test]
fn white_space_is_what_trimming_takes_off() {
    for c in (0..=0x3100u32).chain(0xFE00..=0xFFFF).filter_map(char::from_u32) {
        let callsign = c.to_string();
        assert_eq!(
            interval(&callsign, 600).is_none(),
            callsign.trim().is_empty(),
            "{c:?}"
        );
    }
}

#[test]
fn a_huge_interval_saturates() {
    assert_eq!(
        interval("W1AW", u64::MAX / 1000),
        Some(u64::MAX / 1000 * 1000)
    );
    assert_eq!(interval("W1AW", u64::MAX / 1000 + 1), Some(u64::MAX));
    assert_eq!(interval("W1AW", u64::MAX), Some(u64::MAX));
}
