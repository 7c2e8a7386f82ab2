use openpulse_repeater::error::PttError;
use openpulse_repeater::ptt_builder::{no_ptt, NoOpPtt};
use openpulse_repeater::shared_ptt::{SharedPtt, DEFAULT_PTT_MAX};

fn rig(max_ms: u64) -> SharedPtt<NoOpPtt> {
    SharedPtt::new(Some(no_ptt()), max_ms)
}

fn broken() -> Result<(), PttError> {
    Err(PttError::Rigctld("no answer".into()))
}

#[test]
fn a_key_is_taken_and_released() {
    let mut ptt = rig(DEFAULT_PTT_MAX);
    assert!(!ptt.is_keyed());
    let key = ptt.keyed("relay", 0, Ok(())).expect("keyed");
    assert!(ptt.is_keyed());
    assert!(ptt.holds(key));
    assert_eq!(ptt.keys_issued(), 1);
    assert!(ptt.released(key, Ok(())).is_ok());
    assert!(!ptt.is_keyed());
    assert!(!ptt.holds(key));
}

#[test]
fn a_second_key_is_refused_while_one_is_live() {
    let mut ptt = rig(DEFAULT_PTT_MAX);
    let key = ptt.keyed("relay", 0, Ok(())).expect("keyed");
    for refusal in [
        ptt.may_key().expect_err("busy"),
        ptt.keyed("beacon", 10, Ok(())).expect_err("busy"),
    ] {
        assert!(matches!(refusal, PttError::AlreadyKeyed { held_by: "relay" }));
        assert_eq!(refusal.to_string(), "PTT already keyed by relay");
    }
    assert!(ptt.holds(key));
    assert_eq!(ptt.keys_issued(), 1);
}

#[test]
fn a_key_that_the_hardware_refuses_arms_nothing() {
    let mut ptt = rig(DEFAULT_PTT_MAX);
    let e = ptt.keyed("relay", 0, broken()).expect_err("refused");
    assert!(matches!(e, PttError::Rigctld(_)));
    assert!(!ptt.is_keyed());
    assert_eq!(ptt.keys_issued(), 0);
    assert!(!ptt.watchdog_due(u64::MAX));
}

#[test]
fn without_a_controller_the_hardware_is_not_asked() {
    let mut ptt: SharedPtt<NoOpPtt> = SharedPtt::new(None, 100);
    let key = ptt.keyed("relay", 0, broken()).expect("keyed");
    assert!(ptt.watchdog_due(100), "it is bounded all the same");
    assert!(ptt.released(key, broken()).is_ok());
    assert!(!ptt.is_keyed());
}

#[test]
fn the_default_bound_is_three_minutes() {
    let mut ptt = rig(DEFAULT_PTT_MAX);
    ptt.keyed("relay", 1_000, Ok(())).expect("keyed");
    assert!(!ptt.watchdog_due(180_999));
    assert!(ptt.watchdog_due(181_000));
}

#[test]
fn the_watchdog_takes_a_silent_key_and_the_guard_is_then_stale() {
    let mut ptt = rig(120);
    let key = ptt.keyed("relay", 0, Ok(())).expect("keyed");
    assert!(ptt.watchdog_released(119, Ok(())).is_ok());
    assert!(ptt.is_keyed(), "not yet");
    assert!(ptt.watchdog_released(120, Ok(())).is_ok());
    assert!(!ptt.is_keyed());
    assert!(!ptt.extend(key, 121));

    let other = ptt.keyed("beacon", 200, Ok(())).expect("keyed");
    assert!(!ptt.extend(key, 201));
    assert!(ptt.released(key, Ok(())).is_ok());
    assert!(ptt.holds(other), "a stale guard released the key of somebody else");
}

#[test]
fn a_stamp_moves_the_deadline() {
    let mut ptt = rig(250);
    let key = ptt.keyed("relay", 0, Ok(())).expect("keyed");
    for now_ms in [200, 400, 600, 800] {
        assert!(!ptt.watchdog_due(now_ms));
        assert!(ptt.extend(key, now_ms));
    }
    assert!(!ptt.watchdog_due(1_049));
    assert!(ptt.watchdog_due(1_050));
}

#[test]
fn a_release_that_the_hardware_refuses_stays_armed() {
    let mut ptt = rig(100);
    let key = ptt.keyed("relay", 0, Ok(())).expect("keyed");
    assert!(ptt.released(key, broken()).is_err());
    assert!(ptt.is_keyed());
    assert!(ptt.watchdog_due(100));
    assert!(ptt.watchdog_released(100, broken()).is_err());
    assert!(ptt.watchdog_due(150), "it is tried again");
    assert!(ptt.watchdog_released(150, Ok(())).is_ok());
    assert!(!ptt.is_keyed());
}

#[test]
fn the_bound_can_be_set_and_does_not_overflow() {
    let mut ptt = rig(100);
    ptt.set_max_duration(u64::MAX);
    ptt.keyed("relay", 5, Ok(())).expect("keyed");
    assert!(!ptt.watchdog_due(u64::MAX - 1));
    assert!(ptt.watchdog_due(u64::MAX));
}
