use openpulse_repeater::error::PttError;
use openpulse_repeater::ptt_builder::{build_ptt, no_ptt, NoOpPtt, PttBackend, PttSpec};
use openpulse_repeater::retry::{EnsureStep, OwnedPttSpec, RetryingPtt, RETRY_INTERVAL};
use openpulse_repeater::serial::SerialPin;
use openpulse_repeater::shared_ptt::SharedPtt;

fn spec(backend: &str) -> PttSpec<'_> {
    PttSpec {
        backend,
        ..Default::default()
    }
}

/// Only `"none"` yields `Ok(None)`. Everything else is a backend or an error.
#[test]
fn only_none_means_no_ptt_was_configured() {
    assert!(build_ptt(&spec("none")).expect("none is legal").is_none());
    assert!(build_ptt(&spec("")).expect("empty is legal").is_none());
    assert!(build_ptt(&spec("vox")).expect("vox is legal").is_some());
}

/// Each of the four is recognised: it is either to be opened, or refused for a real reason.
#[test]
fn the_four_backends_ardop_used_to_drop_are_recognised() {
    for backend in ["rts", "dtr", "cm108", "gpio"] {
        match build_ptt(&spec(backend)) {
            Err(PttError::Config(msg)) => assert!(
                !msg.contains("unknown PTT backend"),
                "`{backend}` is a documented backend and must not be reported as unknown: {msg}"
            ),
            Err(_) => {}
            Ok(_) => {}
        }
    }
}

/// An unknown name is a `Config` error, and names the alternatives.
#[test]
fn an_unknown_backend_is_a_config_error_not_a_silent_noop() {
    let Err(err) = build_ptt(&spec("rigctl")) else {
        panic!("a typo must not succeed");
    };
    assert!(matches!(err, PttError::Config(_)));
    assert!(
        err.to_string().contains("rigctld"),
        "the message must name the alternatives"
    );
}

/// `rts` and `dtr` without a device path are a config error, not an attempt to open "".
#[test]
fn serial_without_a_device_path_is_a_config_error() {
    let Err(err) = build_ptt(&spec("rts")) else {
        panic!("rts with no device path must not succeed");
    };
    assert!(matches!(err, PttError::Config(_)));
}

#[test]
fn every_backend_carries_what_opening_it_takes() {
    let full = |backend| PttSpec {
        backend,
        rigctld_addr: "127.0.0.1:4532",
        device: "/dev/radio",
        gpio_pin: 3,
    };
    assert!(matches!(
        build_ptt(&full("vox")),
        Ok(Some(PttBackend::Vox))
    ));
    match build_ptt(&full("rigctld")) {
        Ok(Some(PttBackend::Rigctld { addr })) => assert_eq!(addr, "127.0.0.1:4532"),
        other => panic!("{other:?}"),
    }
    match build_ptt(&full("cm108")) {
        Ok(Some(PttBackend::Cm108 { device, gpio_pin })) => {
            assert_eq!((device.as_str(), gpio_pin), ("/dev/radio", 3))
        }
        other => panic!("{other:?}"),
    }
    match build_ptt(&full("gpio")) {
        Ok(Some(PttBackend::Gpio { device })) => assert_eq!(device, "/dev/radio"),
        other => panic!("{other:?}"),
    }
    for (backend, line) in [("rts", SerialPin::Rts), ("dtr", SerialPin::Dtr)] {
        match build_ptt(&full(backend)) {
            Ok(Some(PttBackend::Serial { device, pin })) => {
                assert_eq!((device.as_str(), pin), ("/dev/radio", line))
            }
            other => panic!("{other:?}"),
        }
    }
}

#[test]
fn a_refusal_says_what_is_wrong() {
    let text = |backend| build_ptt(&spec(backend)).expect_err("refused").to_string();
    assert_eq!(
        text("dtr"),
        "PTT configuration error: the `dtr` PTT backend requires [modem] ptt_device (the serial \
         port path)"
    );
    assert_eq!(
        text("None"),
        "PTT configuration error: unknown PTT backend `None`; expected one of none, vox, rigctld, \
         cm108, gpio, rts, dtr"
    );
}

// A backend that is out of reach.

fn unreachable_spec() -> OwnedPttSpec {
    OwnedPttSpec {
        backend: "rigctld".into(),
        rigctld_addr: "127.0.0.1:1".into(),
        ..Default::default()
    }
}

/// A controller whose next key fails where it is told to.
#[derive(Debug, Default)]
struct Handle {
    broken: bool,
}

/// A world in which opening a backend fails or yields a handle.
struct World {
    reachable: bool,
    opens: usize,
}

impl World {
    fn open(&mut self, backend: PttBackend) -> Result<Handle, PttError> {
        self.opens += 1;
        match backend {
            PttBackend::Rigctld { addr } if self.reachable => {
                assert_eq!(addr, "127.0.0.1:1");
                Ok(Handle::default())
            }
            _ => Err(PttError::Rigctld("connection refused".into())),
        }
    }

    /// Keys through the retrying controller, as its caller does.
    fn key(&mut self, c: &mut RetryingPtt<Handle>, now_ms: u64) -> Result<(), PttError> {
        match c.ensure(now_ms) {
            EnsureStep::Ready => {}
            EnsureStep::Open(backend) => {
                let opened = self.open(backend);
                c.opened(opened)?;
            }
            EnsureStep::Refused(e) => return Err(e),
        }
        let keyed = if c.assert_target()?.broken {
            Err(PttError::Rigctld("no answer".into()))
        } else {
            Ok(())
        };
        c.assert_ptt(keyed)
    }
}

fn down() -> World {
    World {
        reachable: false,
        opens: 0,
    }
}

fn up() -> World {
    World {
        reachable: true,
        opens: 0,
    }
}

/// A backend that is out of reach refuses the key, and nothing is left armed.
#[test]
fn an_unreachable_backend_refuses_the_key_instead_of_permitting_an_unkeyed_transmit() {
    let mut world = down();
    for now_ms in [0, 180_000] {
        let mut ptt = SharedPtt::new(Some(RetryingPtt::new(unreachable_spec(), 0)), 180_000);
        assert!(ptt.may_key().is_ok());
        let hardware = world.key(ptt.controller().expect("a controller"), now_ms);
        assert!(
            ptt.keyed("test", now_ms, hardware).is_err(),
            "an unreachable PTT backend must REFUSE the key"
        );
        assert!(!ptt.is_keyed(), "and nothing may be left armed");
    }
}

/// The control: a station without a keying backend still keys.
#[test]
fn no_ptt_configured_still_keys() {
    let mut ptt = SharedPtt::new(Some(no_ptt()), 180_000);
    let hardware = ptt.controller().expect("a controller").assert_ptt();
    assert!(ptt.keyed("test", 0, hardware).is_ok());

    let mut bare: SharedPtt<NoOpPtt> = SharedPtt::new(None, 180_000);
    assert!(bare.controller().is_none());
    assert!(bare.keyed("test", 0, Ok(())).is_ok());
}

/// A dead rig costs one attempt per interval, not one per transmission.
#[test]
fn the_retry_is_rate_limited() {
    let mut world = down();
    let mut c = RetryingPtt::new(unreachable_spec(), 0);
    let before = c.last_attempt();
    assert!(world.key(&mut c, 0).is_err());
    assert_eq!(
        c.last_attempt(),
        before,
        "a second assert inside RETRY_INTERVAL must not launch another connect"
    );
    assert_eq!(world.opens, 0);
}

/// The refusal is not `AlreadyKeyed`.
#[test]
fn the_refusal_is_not_mistaken_for_a_busy_rig() {
    let mut c = RetryingPtt::new(unreachable_spec(), 0);
    let e = down().key(&mut c, 0).expect_err("unreachable");
    assert!(!matches!(e, PttError::AlreadyKeyed { .. }));
    assert_eq!(
        e.to_string(),
        "rigctld connection error: PTT backend `rigctld` is unavailable; retrying"
    );
}

#[test]
fn the_backend_is_tried_once_per_interval() {
    let mut world = down();
    let mut c = RetryingPtt::new(unreachable_spec(), 1_000);
    for now_ms in (1_000..21_000).step_by(50) {
        assert!(world.key(&mut c, now_ms).is_err());
    }
    // At 6000, 11000 and 16000.
    assert_eq!(world.opens, 3);
    assert_eq!(c.last_attempt(), Some(16_000));
}

#[test]
fn a_rig_that_comes_up_is_keyed_after_the_interval() {
    let mut world = up();
    let mut c = RetryingPtt::new(unreachable_spec(), 0);
    assert!(world.key(&mut c, RETRY_INTERVAL - 1).is_err());
    assert!(world.key(&mut c, RETRY_INTERVAL).is_ok());
    assert!(world.key(&mut c, RETRY_INTERVAL + 1).is_ok());
    assert_eq!(world.opens, 1);
    assert!(c.is_asserted(true));
    assert!(!c.is_asserted(false));
}

#[test]
fn a_controller_that_fails_is_dropped_and_reached_for_again() {
    let mut world = up();
    let mut c = RetryingPtt::new(unreachable_spec(), 0);
    world.key(&mut c, 5_000).expect("keyed");
    c.controller().expect("a controller").broken = true;
    let e = world.key(&mut c, 6_000).expect_err("the handle is dead");
    assert_eq!(e.to_string(), "rigctld connection error: no answer");
    assert!(c.controller().is_none());
    assert!(!c.is_asserted(true));
    assert!(world.key(&mut c, 9_999).is_err(), "too soon");
    assert!(world.key(&mut c, 10_000).is_ok());
    assert_eq!(world.opens, 2);
}

#[test]
fn a_release_without_a_controller_is_no_error() {
    let mut c = RetryingPtt::<Handle>::new(unreachable_spec(), 0);
    assert!(c.release_ptt(Err(PttError::Io("gone".into()))).is_ok());
    assert_eq!(
        c.assert_target().expect_err("nothing to key").to_string(),
        "rigctld connection error: PTT backend unavailable"
    );
    assert_eq!(
        c.assert_ptt(Ok(())).expect_err("nothing keyed").to_string(),
        "rigctld connection error: PTT backend unavailable"
    );
    up().key(&mut c, 5_000).expect("keyed");
    assert!(c.release_ptt(Ok(())).is_ok());
    assert!(c.release_ptt(Err(PttError::Io("gone".into()))).is_err());
}

#[test]
fn a_backend_that_names_no_controller_is_refused() {
    let mut c = RetryingPtt::<Handle>::new(
        OwnedPttSpec {
            backend: "none".into(),
            ..Default::default()
        },
        0,
    );
    let e = up().key(&mut c, 5_000).expect_err("no controller");
    assert_eq!(
        e.to_string(),
        "PTT configuration error: PTT backend `none` resolved to no controller"
    );
}

#[test]
fn a_misspelt_backend_is_refused_as_such_on_retry() {
    let mut c = RetryingPtt::<Handle>::new(
        OwnedPttSpec {
            backend: "serial".into(),
            ..Default::default()
        },
        0,
    );
    let e = up().key(&mut c, 5_000).expect_err("unknown");
    assert!(matches!(e, PttError::Config(_)));
}

#[test]
fn the_controller_that_keys_nothing_always_succeeds() {
    let mut c = no_ptt();
    assert!(c.assert_ptt().is_ok());
    assert!(!c.is_asserted());
    assert!(c.release_ptt().is_ok());
}
