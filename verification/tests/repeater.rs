use std::collections::VecDeque;

use openpulse_repeater::config::RepeaterConfig;
use openpulse_repeater::error::{PttError, RepeaterError};
use openpulse_repeater::relay::{BandState, Reception, RelayAction, RelayEvent, MAX_SENSE_FAULTS};
use openpulse_repeater::repeater::CrossBandRepeater;
use openpulse_repeater::shared_ptt::{SharedPtt, DEFAULT_PTT_MAX};

/// A transmitter that records the edges of its key.
#[derive(Debug, Default)]
struct SpyPtt {
    edges: Vec<&'static str>,
    asserted: bool,
    double_keyed: bool,
    dead: bool,
}

impl SpyPtt {
    fn assert_ptt(&mut self) -> Result<(), PttError> {
        if self.dead {
            return Err(PttError::Rigctld("no answer".into()));
        }
        self.double_keyed |= self.asserted;
        self.asserted = true;
        self.edges.push("assert");
        Ok(())
    }

    fn release_ptt(&mut self) -> Result<(), PttError> {
        self.asserted = false;
        self.edges.push("release");
        Ok(())
    }
}

/// Identifies a transmission that is due after an interval.
#[derive(Debug)]
struct IdTimer {
    interval_ms: u64,
    last_id_ms: u64,
    tx_since_id: bool,
}

/// What a burst decodes to.
type Burst = Result<Vec<u8>, String>;

/// The repeater with everything around it.
struct Station {
    repeater: CrossBandRepeater,
    ptt: SharedPtt<SpyPtt>,
    id_timer: Option<IdTimer>,
    /// The clock of the watchdog.
    clock_ms: u64,
    /// A session is asked to stop from this time on.
    stop_at_ms: Option<u64>,
    queue: VecDeque<Burst>,
    drained: usize,
    disconnected: bool,
    sensor: Result<(), String>,
    /// What the output band is like at each reading; the last one stays.
    band: VecDeque<BandState>,
    readings: usize,
    tx: Result<(), String>,
    id_tx: Result<(), String>,
    aired: Vec<Vec<u8>>,
    log: Vec<RelayAction>,
}

impl Station {
    fn new(config: RepeaterConfig) -> Self {
        let repeater = CrossBandRepeater::new(config);
        let id_timer = repeater.id_interval_ms().map(|interval_ms| IdTimer {
            interval_ms,
            last_id_ms: 0,
            tx_since_id: false,
        });
        Station {
            repeater,
            ptt: SharedPtt::new(Some(SpyPtt::default()), DEFAULT_PTT_MAX),
            id_timer,
            clock_ms: 0,
            stop_at_ms: None,
            queue: VecDeque::new(),
            drained: 0,
            disconnected: false,
            sensor: Ok(()),
            band: VecDeque::from([BandState::Clear]),
            readings: 0,
            tx: Ok(()),
            id_tx: Ok(()),
            aired: Vec::new(),
            log: Vec::new(),
        }
    }

    fn spy(&mut self) -> &mut SpyPtt {
        self.ptt.controller().expect("a controller")
    }

    fn edges(&mut self) -> Vec<&'static str> {
        self.spy().edges.clone()
    }

    fn asserted(&mut self) -> bool {
        self.spy().asserted
    }

    fn keys(&mut self) -> usize {
        self.edges().iter().filter(|e| **e == "assert").count()
    }

    /// Lets time pass, with the watchdog looking every ten milliseconds.
    fn sleep(&mut self, ms: u64) {
        let until = self.clock_ms + ms;
        while self.clock_ms < until {
            self.clock_ms = (self.clock_ms + 10).min(until);
            if self.ptt.watchdog_due(self.clock_ms) {
                let hardware = self.spy().release_ptt();
                self.ptt
                    .watchdog_released(self.clock_ms, hardware)
                    .expect("released");
            }
        }
    }

    fn key(&mut self) -> RelayEvent {
        if let Err(e) = self.ptt.may_key() {
            return RelayEvent::Keyed(Err(e));
        }
        let hardware = self.spy().assert_ptt();
        RelayEvent::Keyed(self.ptt.keyed("relay", self.clock_ms, hardware))
    }

    fn read_band(&mut self) -> BandState {
        self.readings += 1;
        if self.band.len() > 1 {
            self.band.pop_front().expect("a reading")
        } else {
            self.band[0]
        }
    }

    /// Does what the repeater asks for, until it asks for nothing.
    fn serve(&mut self, mut burst: Option<Burst>) {
        for _ in 0..10_000 {
            let action = self.repeater.action();
            self.log.push(action);
            let event = match action {
                RelayAction::Rest => return,
                RelayAction::DrainBursts => {
                    self.drained += self.queue.len();
                    self.queue.clear();
                    RelayEvent::Drained
                }
                RelayAction::OpenSensor => RelayEvent::SensorOpened(self.sensor.clone()),
                RelayAction::ReadStop => {
                    RelayEvent::StopRead(self.stop_at_ms.is_some_and(|t| self.clock_ms >= t))
                }
                RelayAction::Receive { timeout_ms } => match self.queue.pop_front() {
                    Some(next) => {
                        burst = Some(next);
                        RelayEvent::Received(Reception::Burst {
                            now_ms: self.clock_ms,
                        })
                    }
                    None if self.disconnected => RelayEvent::Received(Reception::Disconnected),
                    None => {
                        self.sleep(timeout_ms);
                        RelayEvent::Received(Reception::Timeout)
                    }
                },
                RelayAction::Decode => RelayEvent::Decoded(burst.clone().expect("a burst")),
                RelayAction::Extend(key) => {
                    RelayEvent::Extended(self.ptt.extend(key, self.clock_ms))
                }
                RelayAction::Sense => RelayEvent::Sensed(self.read_band()),
                RelayAction::Key => self.key(),
                RelayAction::NoteTx { .. } => {
                    self.id_timer.as_mut().expect("a timer").tx_since_id = true;
                    RelayEvent::TxNoted
                }
                RelayAction::TransmitFrame => {
                    assert!(self.asserted(), "transmitted into an unkeyed rig");
                    let frame = self.repeater.frame().expect("a frame").clone();
                    self.aired.push(frame);
                    RelayEvent::Transmitted(self.tx.clone())
                }
                RelayAction::AskIdDue { now_ms } => {
                    let t = self.id_timer.as_ref().expect("a timer");
                    RelayEvent::IdDue(t.tx_since_id && now_ms - t.last_id_ms >= t.interval_ms)
                }
                RelayAction::TransmitId => {
                    assert!(self.asserted(), "identified into an unkeyed rig");
                    self.aired.push(self.repeater.id_body().into_bytes());
                    RelayEvent::Transmitted(self.id_tx.clone())
                }
                RelayAction::MarkIdentified { now_ms } => {
                    let t = self.id_timer.as_mut().expect("a timer");
                    t.last_id_ms = now_ms;
                    t.tx_since_id = false;
                    RelayEvent::IdMarked
                }
                RelayAction::Hang { ms } => {
                    self.sleep(ms);
                    RelayEvent::HangOver
                }
                RelayAction::Release(key) => {
                    if self.ptt.holds(key) {
                        let hardware = self.spy().release_ptt();
                        self.ptt.released(key, hardware).expect("released");
                    }
                    RelayEvent::Released
                }
            };
            self.repeater.step(event);
        }
        panic!("the repeater never came to rest");
    }

    fn relay(&mut self, burst: Burst, now_ms: u64) -> Result<Option<usize>, RepeaterError> {
        self.repeater.relay_burst_at(now_ms);
        self.serve(Some(burst));
        self.repeater.take_relayed().expect("a relay is over")
    }

    fn session(&mut self) -> Result<u64, RepeaterError> {
        self.repeater.run_full_duplex();
        self.serve(None);
        self.repeater.take_finished().expect("a session is over")
    }

    fn abnormal_exit(&mut self) {
        self.repeater.release_after_abnormal_exit();
        self.serve(None);
    }
}

fn frame() -> Burst {
    Ok(b"relay me".to_vec())
}

fn noise() -> Burst {
    Err("no frame".into())
}

fn full_duplex() -> RepeaterConfig {
    RepeaterConfig {
        full_duplex: true,
        ..Default::default()
    }
}

fn station(carrier_sense: bool) -> Station {
    Station::new(RepeaterConfig {
        mode: "BPSK250".into(),
        tx_hang_ms: 0,
        full_duplex: false,
        carrier_sense,
        ..Default::default()
    })
}

/// A full-duplex key that the watchdog took is taken again by the next frame.
#[test]
fn a_full_duplex_key_lost_to_silence_is_re_taken_on_the_next_frame() {
    let mut st = Station::new(full_duplex());
    st.ptt.set_max_duration(120);

    assert_eq!(st.relay(frame(), 0).expect("relay"), Some(8));
    assert_eq!(
        st.edges(),
        vec!["assert"],
        "the first burst takes the key and holds it"
    );

    st.sleep(400);
    assert_eq!(
        st.edges(),
        vec!["assert", "release"],
        "the watchdog must drop a full-duplex carrier that has gone silent"
    );

    assert_eq!(st.relay(frame(), 1_000).expect("relay"), Some(8));
    assert_eq!(
        st.edges(),
        vec!["assert", "release", "assert"],
        "the next burst must RE-KEY; a stale guard would transmit into an unkeyed rig"
    );
    assert_eq!(st.keys(), 2);
}

/// The control: steady traffic keeps one key.
#[test]
fn steady_traffic_extends_the_deadline_instead_of_re_keying() {
    let mut st = Station::new(full_duplex());
    st.ptt.set_max_duration(250);
    for i in 0..4u64 {
        assert_eq!(st.relay(frame(), i * 100).expect("relay"), Some(8));
        st.sleep(100);
    }
    assert_eq!(
        st.edges(),
        vec!["assert"],
        "a repeater relaying continuously must hold ONE key across 400 ms with a 250 ms bound"
    );
}

/// A key that a full-duplex session holds is released when the session ends abnormally.
#[test]
fn an_abnormal_exit_releases_a_key_the_session_was_holding() {
    let mut st = Station::new(RepeaterConfig {
        mode: "BPSK250".into(),
        full_duplex: true,
        carrier_sense: false,
        ..Default::default()
    });
    st.relay(frame(), 0)
        .expect("relay")
        .expect("the burst must relay, or no key is held and this proves nothing");
    assert!(st.asserted(), "full duplex did not hold the key across the relay");

    st.abnormal_exit();

    assert!(
        !st.asserted(),
        "the repeater was left holding the rig keyed after an abnormal exit"
    );
    assert!(
        st.relay(frame(), 1_000).is_ok(),
        "the repeater could not relay after an abnormal-exit release"
    );
}

/// A decodable frame must not key the rig while its band carries a signal.
#[test]
fn a_busy_output_band_stops_the_relay_from_keying() {
    let mut st = station(true);
    st.band = VecDeque::from([BandState::Busy]);

    let relayed = st.relay(frame(), 0).expect("relay must not error");

    assert_eq!(
        relayed, None,
        "the burst was relayed onto a busy output band"
    );
    assert_eq!(st.keys(), 0, "the rig was KEYED while its band was busy");
    assert_eq!(
        st.repeater.bursts_deferred(),
        1,
        "the deferral must be counted"
    );
}

/// The control: with sensing off the same band and burst do key the rig.
#[test]
fn the_same_burst_and_band_relay_when_sensing_is_off() {
    let mut st = station(false);
    st.band = VecDeque::from([BandState::Busy]);

    let relayed = st.relay(frame(), 0).expect("relay must not error");

    assert!(relayed.is_some());
    assert!(
        st.keys() > 0,
        "rig_b was never keyed even with sensing off"
    );
    assert_eq!(
        st.repeater.bursts_deferred(),
        0,
        "nothing was deferred, because nothing was sensed"
    );
}

/// Sensing governs how a channel is acquired, not how it is kept.
#[test]
fn a_full_duplex_session_does_not_sense_against_its_own_carrier() {
    let mut st = Station::new(RepeaterConfig {
        mode: "BPSK250".into(),
        full_duplex: true,
        carrier_sense: true,
        ..Default::default()
    });
    st.band = VecDeque::from([BandState::Clear, BandState::Busy]);
    let first = st.relay(frame(), 0).expect("relay");
    assert!(
        first.is_some(),
        "the first frame should relay on a clear band"
    );

    // Now the band carries the repeater's own carrier. The second frame must still relay.
    let second = st.relay(frame(), 0).expect("relay");
    assert!(second.is_some());
    assert_eq!(
        st.repeater.bursts_deferred(),
        0,
        "a session holding the key must defer nothing"
    );
    assert!(st.keys() > 0);
    assert_eq!(st.readings, 1);
}

/// Silence from a device that does not work is no evidence that the band is clear.
#[test]
fn an_unreadable_band_is_treated_as_busy_not_as_clear() {
    let mut st = station(true);
    st.band = VecDeque::from([BandState::Unreadable]);
    let relayed = st.relay(frame(), 0).expect("relay must not error");
    assert_eq!(relayed, None);
    assert_eq!(st.keys(), 0);
    assert_eq!(st.repeater.bursts_deferred(), 1);
}

/// Runs a session with no traffic for a while, then stops it.
fn run_session(full_duplex: bool) -> Station {
    let mut st = Station::new(RepeaterConfig {
        enabled: true,
        full_duplex,
        ..Default::default()
    });
    st.stop_at_ms = Some(60);
    let _ = st.session();
    st
}

/// An idle session in half duplex must never key the rig.
#[test]
fn half_duplex_session_does_not_hold_ptt() {
    let mut st = run_session(false);
    assert_eq!(st.edges(), Vec::<&str>::new());
    assert!(
        !st.asserted(),
        "transmitter left keyed after the session ended"
    );
}

/// Nor must one in full duplex.
#[test]
fn full_duplex_idle_session_does_not_hold_ptt_either() {
    let mut st = run_session(true);
    assert_eq!(
        st.edges(),
        Vec::<&str>::new(),
        "a full-duplex session with nothing to relay keyed the transmitter"
    );
    assert!(
        !st.asserted(),
        "transmitter left keyed after a full-duplex session"
    );
}

/// A failed transmission in the middle of a relay must not leave the rig keyed.
#[test]
fn a_failed_relay_transmit_does_not_leave_the_transmitter_keyed() {
    let mut st = Station::new(RepeaterConfig {
        enabled: true,
        ..Default::default()
    });
    st.tx = Err("no plugin for BPSK250".into());
    let err = st
        .relay(Ok(b"relay frame".to_vec()), 0)
        .expect_err("the transmitter has no plugin, so the relay must fail");
    assert_eq!(err.to_string(), "modem error: no plugin for BPSK250");
    assert!(!st.asserted());
    assert_eq!(
        st.edges(),
        vec!["assert", "release"],
        "the key must be taken and then released exactly once on the error path"
    );
}

/// A disabled repeater must not key at all, in either mode.
#[test]
fn disabled_repeater_never_keys() {
    for full_duplex in [false, true] {
        let mut st = Station::new(RepeaterConfig {
            enabled: false,
            full_duplex,
            ..Default::default()
        });
        st.queue.push_back(frame());
        let relayed = st
            .session()
            .expect("a disabled repeater returns Ok(0) immediately");

        assert_eq!(relayed, 0);
        assert_eq!(
            st.edges(),
            Vec::<&str>::new(),
            "a disabled repeater keyed the transmitter (full_duplex={full_duplex})"
        );
        assert_eq!(st.relay(frame(), 0).expect("a no-op"), None);
        assert_eq!(st.log, vec![RelayAction::Rest, RelayAction::Rest]);
    }
}

#[test]
fn one_half_duplex_relay_step_by_step() {
    let mut st = Station::new(RepeaterConfig {
        tx_hang_ms: 30,
        callsign: "W1AW".into(),
        ..Default::default()
    });
    assert_eq!(st.repeater.mode(), "BPSK250");
    assert_eq!(st.repeater.id_body(), "DE W1AW");
    assert_eq!(st.relay(frame(), 600_000).expect("relay"), Some(8));
    let names: Vec<String> = st
        .log
        .iter()
        .map(|a| {
            let text = format!("{a:?}");
            text.split([' ', '(']).next().expect("a name").to_string()
        })
        .collect();
    assert_eq!(
        names,
        [
            "Decode",
            "Sense",
            "Key",
            "NoteTx",
            "TransmitFrame",
            "AskIdDue",
            "TransmitId",
            "MarkIdentified",
            "Hang",
            "Release",
            "Rest"
        ]
    );
    assert_eq!(st.aired, [b"relay me".to_vec(), b"DE W1AW".to_vec()]);
    assert_eq!(
        st.edges(),
        vec!["assert", "release"],
        "frame and identification go out under one key"
    );
    assert_eq!(st.clock_ms, 30);
    assert_eq!(st.repeater.held_key(), None);
}

#[test]
fn the_identification_comes_once_per_interval_and_only_after_traffic() {
    let mut st = Station::new(RepeaterConfig {
        callsign: "W1AW".into(),
        id_interval_secs: 600,
        ..Default::default()
    });
    let ids = |st: &Station| st.aired.iter().filter(|b| b.starts_with(b"DE ")).count();
    st.relay(frame(), 300_000).expect("relay");
    assert_eq!(ids(&st), 0);
    st.relay(noise(), 700_000).expect("nothing to relay");
    assert_eq!(ids(&st), 0, "identified without traffic");
    st.relay(frame(), 700_000).expect("relay");
    assert_eq!(ids(&st), 1);
    st.relay(frame(), 1_299_999).expect("relay");
    assert_eq!(ids(&st), 1);
    st.relay(frame(), 1_300_000).expect("relay");
    assert_eq!(ids(&st), 2);
}

#[test]
fn a_failed_identification_fails_the_relay_and_releases_the_key() {
    for full_duplex in [false, true] {
        let mut st = Station::new(RepeaterConfig {
            callsign: "W1AW".into(),
            full_duplex,
            ..Default::default()
        });
        st.id_tx = Err("flush timeout".into());
        let e = st.relay(frame(), 600_000).expect_err("failed");
        assert!(matches!(e, RepeaterError::Modem(_)));
        assert_eq!(st.edges(), vec!["assert", "release"]);
        let timer = st.id_timer.as_ref().expect("a timer");
        assert!(timer.tx_since_id, "the identification is still owed");
    }
}

#[test]
fn what_does_not_decode_is_not_relayed_and_not_counted() {
    let mut st = Station::new(full_duplex());
    st.band = VecDeque::from([BandState::Busy]);
    for burst in [noise(), Ok(Vec::new())] {
        assert_eq!(st.relay(burst, 0).expect("no fault"), None);
    }
    assert_eq!(st.repeater.bursts_deferred(), 0);
    assert_eq!(st.readings, 0, "the band is sensed only to key");
}

#[test]
fn a_key_that_is_refused_is_an_error() {
    let mut st = station(false);
    st.spy().dead = true;
    let e = st.relay(frame(), 0).expect_err("refused");
    assert_eq!(
        e.to_string(),
        "PTT error: rigctld connection error: no answer"
    );
    assert!(st.aired.is_empty());

    let mut st = station(false);
    let theirs = st.ptt.keyed("beacon", 0, Ok(())).expect("keyed");
    let e = st.relay(frame(), 0).expect_err("busy");
    assert!(matches!(
        e,
        RepeaterError::Ptt(PttError::AlreadyKeyed { held_by: "beacon" })
    ));
    assert!(st.ptt.holds(theirs));
}

#[test]
fn a_session_counts_what_it_relays_and_releases_at_its_end() {
    for full_duplex in [false, true] {
        let mut st = Station::new(RepeaterConfig {
            full_duplex,
            carrier_sense: false,
            ..Default::default()
        });
        st.repeater.run_full_duplex();
        st.repeater.step(RelayEvent::Drained);
        st.queue.extend([frame(), noise(), frame(), frame()]);
        st.disconnected = true;
        st.serve(None);
        let counted = st.repeater.take_finished().expect("over").expect("fine");
        assert_eq!(counted, 3);
        assert_eq!(st.aired.len(), 3);
        let pairs = if full_duplex { 1 } else { 3 };
        assert_eq!(st.edges(), ["assert", "release"].repeat(pairs));
        assert!(!st.asserted());
        assert!(!st.spy().double_keyed);
    }
}

#[test]
fn a_session_ends_with_the_first_failure() {
    let mut st = Station::new(full_duplex());
    st.repeater.run_full_duplex();
    st.repeater.step(RelayEvent::Drained);
    st.queue.extend([frame(), frame()]);
    st.tx = Err("no plugin".into());
    st.serve(None);
    let e = st
        .repeater
        .take_finished()
        .expect("over")
        .expect_err("the transmission failed");
    assert_eq!(e.to_string(), "modem error: no plugin");
    assert_eq!(st.queue.len(), 1);
    assert_eq!(st.edges(), vec!["assert", "release"]);
}

#[test]
fn a_session_does_not_relay_what_was_queued_before_it() {
    let mut st = Station::new(RepeaterConfig::default());
    st.queue.extend([frame(), frame()]);
    st.disconnected = true;
    assert_eq!(st.session().expect("over"), 0);
    assert_eq!(st.drained, 2);
    assert!(st.aired.is_empty());
}

#[test]
fn a_session_that_cannot_sense_does_not_start() {
    let mut st = Station::new(RepeaterConfig::default());
    st.sensor = Err("no such device".into());
    let e = st.session().expect_err("deaf");
    assert_eq!(
        e.to_string(),
        "modem error: carrier sense is on and the output band cannot be received: no such device"
    );
    assert!(!st.log.contains(&RelayAction::ReadStop));

    let mut st = station(false);
    st.sensor = Err("no such device".into());
    st.disconnected = true;
    assert_eq!(st.session().expect("sensing is off"), 0);
}

#[test]
fn a_station_that_goes_deaf_stops_and_can_be_started_again() {
    let mut st = Station::new(RepeaterConfig::default());
    for _ in 0..2 {
        st.repeater.run_full_duplex();
        st.repeater.step(RelayEvent::Drained);
        st.queue = (0..20).map(|_| frame()).collect();
        st.band = VecDeque::from([BandState::Unreadable]);
        let before = st.repeater.bursts_deferred();
        st.serve(None);
        let e = st
            .repeater
            .take_finished()
            .expect("over")
            .expect_err("it hears nothing");
        assert_eq!(
            e.to_string(),
            "modem error: the output band could not be sensed too many times in a row"
        );
        assert_eq!(st.repeater.bursts_deferred() - before, MAX_SENSE_FAULTS);
        assert_eq!(st.queue.len(), 10);
    }
    assert_eq!(st.keys(), 0);
}

#[test]
fn a_clear_reading_forgives_and_a_busy_one_does_not() {
    let mut st = station(true);
    let unreadable = |n: usize| std::iter::repeat(BandState::Unreadable).take(n);
    st.band = unreadable(9)
        .chain([BandState::Busy, BandState::Clear])
        .chain(unreadable(9))
        .chain([BandState::Busy])
        .chain(unreadable(2))
        .collect();
    for _ in 0..10 {
        assert_eq!(st.relay(frame(), 0).expect("deferred"), None);
    }
    assert_eq!(st.relay(frame(), 0).expect("clear"), Some(8));
    for _ in 0..10 {
        assert_eq!(st.relay(frame(), 0).expect("deferred"), None);
    }
    assert!(st.relay(frame(), 0).is_err(), "ten unreadable readings");
    assert_eq!(st.repeater.bursts_deferred(), 21);
}

#[test]
fn a_lost_key_is_acquired_like_the_first_one() {
    let mut st = Station::new(full_duplex());
    st.ptt.set_max_duration(100);
    st.band = VecDeque::from([BandState::Clear, BandState::Busy]);
    assert_eq!(st.relay(frame(), 0).expect("relay"), Some(8));
    st.sleep(100);
    assert_eq!(
        st.relay(frame(), 0).expect("deferred"),
        None,
        "somebody else has the band now"
    );
    assert_eq!(st.repeater.bursts_deferred(), 1);
    assert_eq!(st.repeater.held_key(), None);
    assert_eq!(st.keys(), 1);
}

#[test]
fn an_abnormal_exit_in_the_middle_of_a_relay_releases_the_key() {
    for answered in 0..4 {
        let mut st = station(true);
        st.repeater.relay_burst_at(0);
        st.repeater.step(RelayEvent::Decoded(frame()));
        st.repeater.step(RelayEvent::Sensed(BandState::Clear));
        let event = st.key();
        st.repeater.step(event);
        for _ in 0..answered {
            st.repeater.step(RelayEvent::Transmitted(Ok(())));
        }
        assert!(st.asserted());
        assert!(st.repeater.held_key().is_some());
        st.abnormal_exit();
        assert!(!st.asserted());
        assert!(st.repeater.is_at_rest());
        assert_eq!(st.relay(frame(), 0).expect("usable again"), Some(8));
    }
}

#[test]
fn a_reply_to_something_else_is_ignored() {
    let mut st = station(true);
    st.repeater.relay_burst_at(0);
    for event in [
        RelayEvent::Released,
        RelayEvent::Transmitted(Ok(())),
        RelayEvent::Sensed(BandState::Clear),
        RelayEvent::StopRead(true),
    ] {
        st.repeater.step(event);
        assert_eq!(st.repeater.action(), RelayAction::Decode);
    }
    st.repeater.relay_burst_at(5);
    st.repeater.run_full_duplex();
    assert_eq!(st.repeater.action(), RelayAction::Decode);
    assert!(st.repeater.take_relayed().is_none());
    assert!(st.repeater.take_finished().is_none());
    assert!(!st.repeater.is_at_rest());
}

#[test]
fn a_missing_reading_is_unreadable() {
    assert_eq!(BandState::of_reading(None), BandState::Unreadable);
    for band in [BandState::Clear, BandState::Busy, BandState::Unreadable] {
        assert_eq!(BandState::of_reading(Some(band)), band);
    }
}

#[test]
fn a_relay_within_the_bound_keeps_the_key_and_moves_its_deadline() {
    let mut st = Station::new(full_duplex());
    st.ptt.set_max_duration(250);
    assert_eq!(st.relay(frame(), 0).expect("relay"), Some(8));
    let key = st.repeater.held_key().expect("a key held across frames");
    assert!(!st.ptt.watchdog_due(249));
    assert!(st.ptt.watchdog_due(250));

    st.sleep(240);
    assert_eq!(st.relay(frame(), 240).expect("relay"), Some(8));
    assert_eq!(st.repeater.held_key(), Some(key));
    assert!(st.ptt.holds(key));
    assert_eq!(st.ptt.keys_issued(), 1);
    assert!(!st.ptt.watchdog_due(489));
    assert!(st.ptt.watchdog_due(490));
}

#[test]
fn a_key_lost_to_silence_is_followed_by_one_of_a_later_generation() {
    let mut st = Station::new(full_duplex());
    st.ptt.set_max_duration(250);
    assert_eq!(st.relay(frame(), 0).expect("relay"), Some(8));
    let lost = st.repeater.held_key().expect("a key held across frames");
    st.sleep(250);
    assert!(!st.ptt.is_keyed());

    assert_eq!(st.relay(frame(), 250).expect("relay"), Some(8));
    let taken = st.repeater.held_key().expect("a new key");
    assert_ne!(taken, lost);
    assert!(st.ptt.holds(taken));
    assert!(!st.ptt.holds(lost));
    assert_eq!(st.ptt.keys_issued(), 2);
    assert!(!st.ptt.watchdog_due(499));
    assert!(st.ptt.watchdog_due(500));
}

#[test]
fn the_key_that_is_taken_is_the_key_that_is_used_and_released() {
    let mut st = Station::new(RepeaterConfig {
        callsign: "W1AW".into(),
        ..Default::default()
    });
    st.repeater.relay_burst_at(600_000);
    st.repeater.step(RelayEvent::Decoded(frame()));
    st.repeater.step(RelayEvent::Sensed(BandState::Clear));
    let event = st.key();
    st.repeater.step(event);
    let key = st.repeater.held_key().expect("a key");
    st.repeater.step(RelayEvent::TxNoted);
    assert_eq!(st.repeater.action(), RelayAction::TransmitFrame);
    assert_eq!(st.repeater.held_key(), Some(key));
    st.repeater.step(RelayEvent::Transmitted(Ok(())));
    st.repeater.step(RelayEvent::IdDue(true));
    assert_eq!(st.repeater.action(), RelayAction::TransmitId);
    assert_eq!(st.repeater.held_key(), Some(key));
    st.repeater.step(RelayEvent::Transmitted(Ok(())));
    st.repeater.step(RelayEvent::IdMarked);
    while st.repeater.action() != RelayAction::Release(key) {
        assert!(matches!(st.repeater.action(), RelayAction::Hang { .. }));
        st.repeater.step(RelayEvent::HangOver);
    }
    st.repeater.step(RelayEvent::Released);
    assert_eq!(st.repeater.held_key(), None);
    assert!(matches!(st.repeater.take_relayed(), Some(Ok(Some(8)))));
}
