//! The cross-band repeater.
//!
//! The caller owns the two modems, the transmitter's keying, the identification timer and the
//! burst queue. It asks [`CrossBandRepeater::action`] what to do, does it, and reports how it went
//! with [`CrossBandRepeater::step`], until the repeater is at rest again.

use vstd::prelude::*;

use crate::config::{id_interval_spec, RepeaterConfig};
use crate::error::RepeaterError;
use crate::relay::{
    id_text, outcome_view, session_view, BandState, Reception, RelayAction, RelayEvent,
    RepeaterState, Stage, IDLE_POLL_MS, MAX_SENSE_FAULTS,
};
use crate::shared_ptt::PttKeyGuard;
use crate::text::join;

verus! {

/// Relays decoded frames onto a second rig, which it keys, identifies and releases.
#[derive(Debug)]
pub struct CrossBandRepeater {
    config: RepeaterConfig,
    id_interval_ms: Option<u64>,
    session_guard: Option<PttKeyGuard>,
    session: Option<u64>,
    bursts_deferred: u64,
    sense_faults: u64,
    phase: Phase,
}

#[derive(Debug)]
enum Phase {
    Rest,
    DrainBursts,
    OpenSensor,
    ReadStop,
    Receive,
    Decode { now_ms: u64 },
    Extend { now_ms: u64, frame: Vec<u8>, key: PttKeyGuard },
    Sense { now_ms: u64, frame: Vec<u8> },
    Key { now_ms: u64, frame: Vec<u8> },
    NoteTx { now_ms: u64, frame: Vec<u8>, key: PttKeyGuard },
    TransmitFrame { now_ms: u64, frame: Vec<u8>, key: PttKeyGuard },
    AskIdDue { now_ms: u64, sent: usize, key: PttKeyGuard },
    TransmitId { now_ms: u64, sent: usize, key: PttKeyGuard },
    MarkIdentified { now_ms: u64, sent: usize, key: PttKeyGuard },
    Restamp { sent: usize, key: PttKeyGuard },
    Hang { sent: usize, key: PttKeyGuard },
    Release { key: PttKeyGuard, outcome: Result<Option<usize>, RepeaterError> },
    EndSession { key: PttKeyGuard, result: Result<u64, RepeaterError> },
    Abandon { key: PttKeyGuard },
    Relayed(Result<Option<usize>, RepeaterError>),
    Finished(Result<u64, RepeaterError>),
}

impl Phase {
    spec fn stage(self) -> Stage {
        match self {
            Phase::Rest => Stage::Rest,
            Phase::DrainBursts => Stage::DrainBursts,
            Phase::OpenSensor => Stage::OpenSensor,
            Phase::ReadStop => Stage::ReadStop,
            Phase::Receive => Stage::Receive,
            Phase::Decode { now_ms } => Stage::Decode { now_ms },
            Phase::Extend { now_ms, frame, key } => Stage::Extend { now_ms, frame: frame@, key },
            Phase::Sense { now_ms, frame } => Stage::Sense { now_ms, frame: frame@ },
            Phase::Key { now_ms, frame } => Stage::Key { now_ms, frame: frame@ },
            Phase::NoteTx { now_ms, frame, key } => Stage::NoteTx { now_ms, frame: frame@, key },
            Phase::TransmitFrame { now_ms, frame, key } => Stage::TransmitFrame {
                now_ms,
                frame: frame@,
                key,
            },
            Phase::AskIdDue { now_ms, sent, key } => Stage::AskIdDue {
                now_ms,
                sent: sent as nat,
                key,
            },
            Phase::TransmitId { now_ms, sent, key } => Stage::TransmitId {
                now_ms,
                sent: sent as nat,
                key,
            },
            Phase::MarkIdentified { now_ms, sent, key } => Stage::MarkIdentified {
                now_ms,
                sent: sent as nat,
                key,
            },
            Phase::Restamp { sent, key } => Stage::Restamp { sent: sent as nat, key },
            Phase::Hang { sent, key } => Stage::Hang { sent: sent as nat, key },
            Phase::Release { key, outcome } => Stage::Release {
                key,
                outcome: outcome_view(outcome),
            },
            Phase::EndSession { key, result } => Stage::EndSession {
                key,
                result: session_view(result),
            },
            Phase::Abandon { key } => Stage::Abandon { key },
            Phase::Relayed(outcome) => Stage::Relayed(outcome_view(outcome)),
            Phase::Finished(result) => Stage::Finished(session_view(result)),
        }
    }
}

impl View for CrossBandRepeater {
    type V = RepeaterState;

    closed spec fn view(&self) -> RepeaterState {
        RepeaterState {
            settings: self.config@,
            id_interval_ms: self.id_interval_ms,
            session_key: self.session_guard,
            session: match self.session {
                Some(relayed) => Some(relayed as nat),
                None => None,
            },
            deferred: self.bursts_deferred as nat,
            sense_faults: self.sense_faults as nat,
            stage: self.phase.stage(),
        }
    }
}

impl CrossBandRepeater {
    /// A repeater at rest, which holds no key and has relayed nothing.
    ///
    /// It identifies the transmitting rig where the configuration names a callsign that is not
    /// blank and an interval that is not zero.
    pub fn new(config: RepeaterConfig) -> (repeater: Self)
        ensures
            repeater@ == RepeaterState::initial(
                config@,
                id_interval_spec(config@.callsign, config@.id_interval_secs),
            ),
            repeater@.wf(),
    {
        let id_interval_ms = config.id_interval_ms();
        CrossBandRepeater {
            config,
            id_interval_ms,
            session_guard: None,
            session: None,
            bursts_deferred: 0,
            sense_faults: 0,
            phase: Phase::Rest,
        }
    }

    /// The mode in which the repeater receives and transmits.
    pub fn mode(&self) -> (mode: &str)
        ensures
            mode@ == self@.settings.mode,
    {
        self.config.mode.as_str()
    }

    /// The milliseconds between identifications of the transmitting rig, where it identifies
    /// itself: what the identification timer is set to.
    pub fn id_interval_ms(&self) -> (interval_ms: Option<u64>)
        ensures
            interval_ms == self@.id_interval_ms,
    {
        self.id_interval_ms
    }

    /// What is transmitted to identify the transmitting rig.
    pub fn id_body(&self) -> (body: String)
        ensures
            body@ == id_text(self@.settings.callsign),
    {
        join("DE ", self.config.callsign.as_str())
    }

    /// How many bursts were dropped because the output band was not known to be clear.
    pub fn bursts_deferred(&self) -> (deferred: u64)
        ensures
            deferred == self@.deferred,
    {
        self.bursts_deferred
    }

    /// The key that the repeater holds.
    pub fn held_key(&self) -> (key: Option<PttKeyGuard>)
        ensures
            key == self@.held(),
    {
        match &self.phase {
            Phase::Extend { key, .. } => Some(*key),
            Phase::NoteTx { key, .. } => Some(*key),
            Phase::TransmitFrame { key, .. } => Some(*key),
            Phase::AskIdDue { key, .. } => Some(*key),
            Phase::TransmitId { key, .. } => Some(*key),
            Phase::MarkIdentified { key, .. } => Some(*key),
            Phase::Restamp { key, .. } => Some(*key),
            Phase::Hang { key, .. } => Some(*key),
            Phase::Release { key, .. } => Some(*key),
            Phase::EndSession { key, .. } => Some(*key),
            Phase::Abandon { key } => Some(*key),
            _ => self.session_guard,
        }
    }

    /// The frame that is being relayed, while there is one.
    pub fn frame(&self) -> (frame: Option<&Vec<u8>>)
        ensures
            match self@.frame() {
                Some(bytes) => frame matches Some(f) && f@ == bytes,
                None => frame is None,
            },
    {
        match &self.phase {
            Phase::Extend { frame, .. } => Some(frame),
            Phase::Sense { frame, .. } => Some(frame),
            Phase::Key { frame, .. } => Some(frame),
            Phase::NoteTx { frame, .. } => Some(frame),
            Phase::TransmitFrame { frame, .. } => Some(frame),
            _ => None,
        }
    }

    /// What is to be done next.
    pub fn action(&self) -> (action: RelayAction)
        ensures
            action == self@.action(),
    {
        match &self.phase {
            Phase::Rest => RelayAction::Rest,
            Phase::DrainBursts => RelayAction::DrainBursts,
            Phase::OpenSensor => RelayAction::OpenSensor,
            Phase::ReadStop => RelayAction::ReadStop,
            Phase::Receive => RelayAction::Receive { timeout_ms: IDLE_POLL_MS },
            Phase::Decode { .. } => RelayAction::Decode,
            Phase::Extend { key, .. } => RelayAction::Extend(*key),
            Phase::Sense { .. } => RelayAction::Sense,
            Phase::Key { .. } => RelayAction::Key,
            Phase::NoteTx { now_ms, .. } => RelayAction::NoteTx { now_ms: *now_ms },
            Phase::TransmitFrame { .. } => RelayAction::TransmitFrame,
            Phase::AskIdDue { now_ms, .. } => RelayAction::AskIdDue { now_ms: *now_ms },
            Phase::TransmitId { .. } => RelayAction::TransmitId,
            Phase::MarkIdentified { now_ms, .. } => RelayAction::MarkIdentified {
                now_ms: *now_ms,
            },
            Phase::Restamp { key, .. } => RelayAction::Extend(*key),
            Phase::Hang { .. } => RelayAction::Hang { ms: self.config.tx_hang_ms },
            Phase::Release { key, .. } => RelayAction::Release(*key),
            Phase::EndSession { key, .. } => RelayAction::Release(*key),
            Phase::Abandon { key } => RelayAction::Release(*key),
            Phase::Relayed(_) => RelayAction::Rest,
            Phase::Finished(_) => RelayAction::Rest,
        }
    }

    /// Begins to relay a burst that arrived at `now_ms`. A disabled repeater relays nothing, and
    /// one that is at work goes on with what it does.
    pub fn relay_burst_at(&mut self, now_ms: u64)
        ensures
            final(self)@ == old(self)@.relay_started(now_ms),
            old(self)@.wf() ==> final(self)@.wf(),
    {
        if self.is_at_rest() {
            self.phase = if self.config.enabled {
                Phase::Decode { now_ms }
            } else {
                Phase::Relayed(Ok(None))
            };
        }
    }

    /// Begins a session, which relays bursts until it is asked to stop, there are no more, or a
    /// relay fails. A disabled repeater has nothing to do in it, and one that is at work goes on
    /// with what it does.
    pub fn run_full_duplex(&mut self)
        ensures
            final(self)@ == old(self)@.session_started(),
            old(self)@.wf() ==> final(self)@.wf(),
    {
        if self.is_at_rest() {
            if self.config.enabled {
                self.session = Some(0);
                self.sense_faults = 0;
                self.phase = Phase::DrainBursts;
            } else {
                self.phase = Phase::Finished(Ok(0));
            }
        }
    }

    /// Breaks off whatever is under way, after the caller lost control of it. A key that is held is
    /// released, so that the repeater can be used again.
    pub fn release_after_abnormal_exit(&mut self)
        ensures
            final(self)@ == old(self)@.abandoned(),
            old(self)@.wf() ==> final(self)@.wf(),
    {
        let held = self.held_key();
        self.session_guard = None;
        self.session = None;
        self.sense_faults = 0;
        self.phase = match held {
            Some(key) => Phase::Abandon { key },
            None => Phase::Rest,
        };
    }

    /// Whether no relay and no session is under way.
    pub fn is_at_rest(&self) -> (rest: bool)
        ensures
            rest == self@.at_rest(),
    {
        match &self.phase {
            Phase::Rest => true,
            Phase::Relayed(_) => true,
            Phase::Finished(_) => true,
            _ => false,
        }
    }

    /// Hands out what the last relay came to: how many bytes were relayed, or none where the burst
    /// did not decode, was empty, or was deferred.
    pub fn take_relayed(&mut self) -> (relayed: Option<Result<Option<usize>, RepeaterError>>)
        ensures
            match old(self)@.stage {
                Stage::Relayed(outcome) => {
                    &&& relayed matches Some(result) && outcome_view(result) == outcome
                    &&& final(self)@ == old(self)@.at(Stage::Rest)
                },
                _ => relayed is None && final(self)@ == old(self)@,
            },
            old(self)@.wf() ==> final(self)@.wf(),
    {
        match self.take_phase() {
            Phase::Relayed(outcome) => Some(outcome),
            phase => {
                self.phase = phase;
                None
            },
        }
    }

    /// Hands out what the last session came to: how many frames were relayed, or why it ended.
    pub fn take_finished(&mut self) -> (finished: Option<Result<u64, RepeaterError>>)
        ensures
            match old(self)@.stage {
                Stage::Finished(result) => {
                    &&& finished matches Some(r) && session_view(r) == result
                    &&& final(self)@ == old(self)@.at(Stage::Rest)
                },
                _ => finished is None && final(self)@ == old(self)@,
            },
            old(self)@.wf() ==> final(self)@.wf(),
    {
        match self.take_phase() {
            Phase::Finished(result) => Some(result),
            phase => {
                self.phase = phase;
                None
            },
        }
    }

    fn take_phase(&mut self) -> (phase: Phase)
        ensures
            phase.stage() == old(self)@.stage,
            final(self)@ == old(self)@.at(Stage::Rest),
    {
        let mut phase = Phase::Rest;
        core::mem::swap(&mut phase, &mut self.phase);
        phase
    }

    fn end(&mut self, result: Result<u64, RepeaterError>)
        ensures
            final(self)@ == old(self)@.ended(session_view(result)),
    {
        self.session = None;
        self.phase = match self.session_guard.take() {
            Some(key) => Phase::EndSession { key, result },
            None => Phase::Finished(result),
        };
    }

    fn stop(&mut self)
        ensures
            final(self)@ == old(self)@.stopped(),
    {
        let relayed: u64 = match self.session {
            Some(relayed) => relayed,
            None => 0,
        };
        self.end(Ok(relayed));
    }

    fn conclude(&mut self, outcome: Result<Option<usize>, RepeaterError>)
        ensures
            final(self)@ == old(self)@.concluded(outcome_view(outcome)),
    {
        match self.session {
            None => {
                self.phase = Phase::Relayed(outcome);
            },
            Some(relayed) => match outcome {
                Ok(Some(_)) => {
                    self.session = Some(relayed.saturating_add(1));
                    self.phase = Phase::ReadStop;
                },
                Ok(None) => {
                    self.phase = Phase::ReadStop;
                },
                Err(e) => {
                    self.end(Err(e));
                },
            },
        }
    }

    fn acquire(&mut self, now_ms: u64, frame: Vec<u8>)
        ensures
            final(self)@ == old(self)@.acquiring(now_ms, frame@),
    {
        self.phase = if self.config.carrier_sense {
            Phase::Sense { now_ms, frame }
        } else {
            Phase::Key { now_ms, frame }
        };
    }

    fn on_decoded(&mut self, now_ms: u64, frame: Vec<u8>)
        ensures
            final(self)@ == old(self)@.decoded(now_ms, frame@),
    {
        if frame.len() == 0 {
            self.conclude(Ok(None));
            return ;
        }
        match self.session_guard.take() {
            Some(key) => {
                self.phase = Phase::Extend { now_ms, frame, key };
            },
            None => {
                self.acquire(now_ms, frame);
            },
        }
    }

    fn on_sensed(&mut self, now_ms: u64, frame: Vec<u8>, band: BandState)
        ensures
            final(self)@ == old(self)@.sensed(now_ms, frame@, band),
    {
        match band {
            BandState::Clear => {
                self.sense_faults = 0;
                self.phase = Phase::Key { now_ms, frame };
            },
            BandState::Busy => {
                self.bursts_deferred = self.bursts_deferred.saturating_add(1);
                self.conclude(Ok(None));
            },
            BandState::Unreadable => {
                self.bursts_deferred = self.bursts_deferred.saturating_add(1);
                self.sense_faults = self.sense_faults.saturating_add(1);
                if self.sense_faults >= MAX_SENSE_FAULTS {
                    self.conclude(
                        Err(
                            RepeaterError::Modem(
                                "the output band could not be sensed too many times in a row".to_owned(),
                            ),
                        ),
                    );
                } else {
                    self.conclude(Ok(None));
                }
            },
        }
    }

    fn transmit(&mut self, now_ms: u64, frame: Vec<u8>, key: PttKeyGuard)
        ensures
            final(self)@ == old(self)@.transmitting(now_ms, frame@, key),
    {
        self.phase = if self.id_interval_ms.is_some() {
            Phase::NoteTx { now_ms, frame, key }
        } else {
            Phase::TransmitFrame { now_ms, frame, key }
        };
    }

    fn on_sent(&mut self, sent: usize, key: PttKeyGuard)
        ensures
            final(self)@ == old(self)@.sent(sent as nat, key),
    {
        self.phase = if self.config.full_duplex {
            Phase::Restamp { sent, key }
        } else if self.config.tx_hang_ms > 0 {
            Phase::Hang { sent, key }
        } else {
            Phase::Release { key, outcome: Ok(Some(sent)) }
        };
    }

    /// Takes the reply to what was asked for. A reply to something else is ignored.
    pub fn step(&mut self, event: RelayEvent)
        ensures
            final(self)@ == old(self)@.next(event@),
            old(self)@.wf() ==> final(self)@.wf(),
    {
        match (self.take_phase(), event) {
            (Phase::DrainBursts, RelayEvent::Drained) => {
                self.phase = if self.config.carrier_sense {
                    Phase::OpenSensor
                } else {
                    Phase::ReadStop
                };
            },
            (Phase::OpenSensor, RelayEvent::SensorOpened(Ok(_))) => {
                self.phase = Phase::ReadStop;
            },
            (Phase::OpenSensor, RelayEvent::SensorOpened(Err(reason))) => {
                self.end(
                    Err(
                        RepeaterError::Modem(
                            join(
                                "carrier sense is on and the output band cannot be received: ",
                                reason.as_str(),
                            ),
                        ),
                    ),
                );
            },
            (Phase::ReadStop, RelayEvent::StopRead(stop)) => {
                if stop {
                    self.stop();
                } else {
                    self.phase = Phase::Receive;
                }
            },
            (Phase::Receive, RelayEvent::Received(reception)) => {
                match reception {
                    Reception::Burst { now_ms } => {
                        self.phase = Phase::Decode { now_ms };
                    },
                    Reception::Timeout => {
                        self.phase = Phase::ReadStop;
                    },
                    Reception::Disconnected => {
                        self.stop();
                    },
                }
            },
            (Phase::Decode { now_ms }, RelayEvent::Decoded(decoded)) => {
                match decoded {
                    Ok(frame) => {
                        self.on_decoded(now_ms, frame);
                    },
                    Err(_) => {
                        self.conclude(Ok(None));
                    },
                }
            },
            (Phase::Extend { now_ms, frame, key }, RelayEvent::Extended(alive)) => {
                if alive {
                    self.transmit(now_ms, frame, key);
                } else {
                    self.acquire(now_ms, frame);
                }
            },
            (Phase::Sense { now_ms, frame }, RelayEvent::Sensed(band)) => {
                self.on_sensed(now_ms, frame, band);
            },
            (Phase::Key { now_ms, frame }, RelayEvent::Keyed(Ok(key))) => {
                self.transmit(now_ms, frame, key);
            },
            (Phase::Key { .. }, RelayEvent::Keyed(Err(e))) => {
                self.conclude(Err(RepeaterError::from(e)));
            },
            (Phase::NoteTx { now_ms, frame, key }, RelayEvent::TxNoted) => {
                self.phase = Phase::TransmitFrame { now_ms, frame, key };
            },
            (Phase::TransmitFrame { now_ms, frame, key }, RelayEvent::Transmitted(Ok(_))) => {
                let sent: usize = frame.len();
                if self.id_interval_ms.is_some() {
                    self.phase = Phase::AskIdDue { now_ms, sent, key };
                } else {
                    self.on_sent(sent, key);
                }
            },
            (Phase::TransmitFrame { key, .. }, RelayEvent::Transmitted(Err(reason))) => {
                self.phase = Phase::Release { key, outcome: Err(RepeaterError::Modem(reason)) };
            },
            (Phase::AskIdDue { now_ms, sent, key }, RelayEvent::IdDue(due)) => {
                if due {
                    self.phase = Phase::TransmitId { now_ms, sent, key };
                } else {
                    self.on_sent(sent, key);
                }
            },
            (Phase::TransmitId { now_ms, sent, key }, RelayEvent::Transmitted(Ok(_))) => {
                self.phase = Phase::MarkIdentified { now_ms, sent, key };
            },
            (Phase::TransmitId { key, .. }, RelayEvent::Transmitted(Err(reason))) => {
                self.phase = Phase::Release { key, outcome: Err(RepeaterError::Modem(reason)) };
            },
            (Phase::MarkIdentified { sent, key, .. }, RelayEvent::IdMarked) => {
                self.on_sent(sent, key);
            },
            (Phase::Restamp { sent, key }, RelayEvent::Extended(_)) => {
                self.session_guard = Some(key);
                self.conclude(Ok(Some(sent)));
            },
            (Phase::Hang { sent, key }, RelayEvent::HangOver) => {
                self.phase = Phase::Release { key, outcome: Ok(Some(sent)) };
            },
            (Phase::Release { outcome, .. }, RelayEvent::Released) => {
                self.conclude(outcome);
            },
            (Phase::EndSession { result, .. }, RelayEvent::Released) => {
                self.phase = Phase::Finished(result);
            },
            (Phase::Abandon { .. }, RelayEvent::Released) => {
                self.phase = Phase::Rest;
            },
            (phase, _) => {
                self.phase = phase;
            },
        }
    }
}

} // verus!
