//! What the repeater does, as a machine of stages.
//!
//! In each stage the repeater asks for one thing: a burst to be decoded, a key to be taken, a frame
//! to be transmitted. The reply moves it to the next stage. [`RepeaterState::next`] is that step;
//! everything the repeater does follows from it.

use vstd::prelude::*;

use crate::config::Settings;
use crate::error::{PttError, PttFault, RelayFault, RepeaterError};
use crate::shared_ptt::PttKeyGuard;

verus! {

/// How long, in milliseconds, a session waits for a burst before it looks again whether it was
/// asked to stop.
pub const IDLE_POLL_MS: u64 = 100;

/// How many times in a row the output band may be unreadable. The last of them ends the session:
/// an unattended station must not go on without hearing the band it transmits on.
pub const MAX_SENSE_FAULTS: u64 = 10;

/// What sensing the output band found.
#[derive(Debug, Clone, Copy, PartialEq, Eq, Structural)]
pub enum BandState {
    /// The band was read, and carries nothing.
    Clear,
    /// The band carries a signal.
    Busy,
    /// The band could not be read. Silence from a device that does not work is no evidence.
    Unreadable,
}

impl BandState {
    /// What a reading tells of the band. Where there is nothing to read it with, it is unreadable.
    pub fn of_reading(reading: Option<BandState>) -> (band: BandState)
        ensures
            band == match reading {
                Some(band) => band,
                None => BandState::Unreadable,
            },
    {
        match reading {
            Some(band) => band,
            None => BandState::Unreadable,
        }
    }
}

/// What waiting for a burst came to.
#[derive(Debug, Clone, Copy, PartialEq, Eq, Structural)]
pub enum Reception {
    /// A burst arrived, at this time.
    Burst { now_ms: u64 },
    /// Nothing arrived in time.
    Timeout,
    /// There will be no more bursts.
    Disconnected,
}

/// What the repeater asks for.
#[derive(Debug, Clone, Copy, PartialEq, Eq, Structural)]
pub enum RelayAction {
    /// Nothing: no relay and no session is under way.
    Rest,
    /// Throw away the bursts that queued up before this session.
    DrainBursts,
    /// Open the receiver of the output band.
    OpenSensor,
    /// Look whether the session was asked to stop.
    ReadStop,
    /// Wait this long for a burst.
    Receive { timeout_ms: u64 },
    /// Decode the burst, in the configured mode.
    Decode,
    /// Re-stamp this key.
    Extend(PttKeyGuard),
    /// Sense the output band.
    Sense,
    /// Take a key.
    Key,
    /// Note in the identification timer that a transmission is made.
    NoteTx { now_ms: u64 },
    /// Transmit the frame, in the configured mode.
    TransmitFrame,
    /// Ask the identification timer whether an identification is due.
    AskIdDue { now_ms: u64 },
    /// Transmit the identification, in the configured mode.
    TransmitId,
    /// Note in the identification timer that the station identified itself.
    MarkIdentified { now_ms: u64 },
    /// Hold the key this long.
    Hang { ms: u64 },
    /// Release this key.
    Release(PttKeyGuard),
}

/// The reply to a [`RelayAction`].
#[derive(Debug)]
pub enum RelayEvent {
    /// To `DrainBursts`.
    Drained,
    /// To `OpenSensor`: done, or the reason why not.
    SensorOpened(Result<(), String>),
    /// To `ReadStop`.
    StopRead(bool),
    /// To `Receive`.
    Received(Reception),
    /// To `Decode`: the decoded bytes, or the reason why there are none.
    Decoded(Result<Vec<u8>, String>),
    /// To `Extend`: whether the key was still there.
    Extended(bool),
    /// To `Sense`.
    Sensed(BandState),
    /// To `Key`.
    Keyed(Result<PttKeyGuard, PttError>),
    /// To `NoteTx`.
    TxNoted,
    /// To `TransmitFrame` and to `TransmitId`: done, or the reason why not.
    Transmitted(Result<(), String>),
    /// To `AskIdDue`.
    IdDue(bool),
    /// To `MarkIdentified`.
    IdMarked,
    /// To `Hang`.
    HangOver,
    /// To `Release`.
    Released,
}

/// What a [`RelayEvent`] says.
pub ghost enum Reply {
    Drained,
    SensorOpened(Result<(), Seq<char>>),
    StopRead(bool),
    Received(Reception),
    Decoded(Result<Seq<u8>, Seq<char>>),
    Extended(bool),
    Sensed(BandState),
    Keyed(Result<PttKeyGuard, PttFault>),
    TxNoted,
    Transmitted(Result<(), Seq<char>>),
    IdDue(bool),
    IdMarked,
    HangOver,
    Released,
}

/// A result without a value, with the reason of a failure taken by its characters.
pub open spec fn done_view(result: Result<(), String>) -> Result<(), Seq<char>> {
    match result {
        Ok(_) => Ok(()),
        Err(m) => Err(m@),
    }
}

impl View for RelayEvent {
    type V = Reply;

    open spec fn view(&self) -> Reply {
        match self {
            RelayEvent::Drained => Reply::Drained,
            RelayEvent::SensorOpened(r) => Reply::SensorOpened(done_view(*r)),
            RelayEvent::StopRead(stop) => Reply::StopRead(*stop),
            RelayEvent::Received(r) => Reply::Received(*r),
            RelayEvent::Decoded(Ok(bytes)) => Reply::Decoded(Ok(bytes@)),
            RelayEvent::Decoded(Err(m)) => Reply::Decoded(Err(m@)),
            RelayEvent::Extended(alive) => Reply::Extended(*alive),
            RelayEvent::Sensed(band) => Reply::Sensed(*band),
            RelayEvent::Keyed(Ok(key)) => Reply::Keyed(Ok(*key)),
            RelayEvent::Keyed(Err(e)) => Reply::Keyed(Err(e@)),
            RelayEvent::TxNoted => Reply::TxNoted,
            RelayEvent::Transmitted(r) => Reply::Transmitted(done_view(*r)),
            RelayEvent::IdDue(due) => Reply::IdDue(*due),
            RelayEvent::IdMarked => Reply::IdMarked,
            RelayEvent::HangOver => Reply::HangOver,
            RelayEvent::Released => Reply::Released,
        }
    }
}

/// What one relay came to: how many bytes were relayed, none where the burst was not relayed, or
/// why it failed.
pub type Outcome = Result<Option<nat>, RelayFault>;

/// What a session came to: how many frames it relayed, or why it ended.
pub type SessionResult = Result<nat, RelayFault>;

/// The outcome that a relay's result stands for.
pub open spec fn outcome_view(result: Result<Option<usize>, RepeaterError>) -> Outcome {
    match result {
        Ok(Some(n)) => Ok(Some(n as nat)),
        Ok(None) => Ok(None),
        Err(e) => Err(e@),
    }
}

/// What a session's result stands for.
pub open spec fn session_view(result: Result<u64, RepeaterError>) -> SessionResult {
    match result {
        Ok(n) => Ok(n as nat),
        Err(e) => Err(e@),
    }
}

/// Where the repeater is.
pub ghost enum Stage {
    /// No relay and no session is under way.
    Rest,
    /// A session begins: bursts of an earlier one are thrown away.
    DrainBursts,
    /// A session begins: the receiver of the output band is opened.
    OpenSensor,
    /// A session looks whether it was asked to stop.
    ReadStop,
    /// A session waits for a burst.
    Receive,
    /// The burst is decoded.
    Decode { now_ms: u64 },
    /// The key that was held across frames is re-stamped.
    Extend { now_ms: u64, frame: Seq<u8>, key: PttKeyGuard },
    /// The output band is sensed.
    Sense { now_ms: u64, frame: Seq<u8> },
    /// A key is taken.
    Key { now_ms: u64, frame: Seq<u8> },
    /// The transmission is noted in the identification timer.
    NoteTx { now_ms: u64, frame: Seq<u8>, key: PttKeyGuard },
    /// The frame is transmitted.
    TransmitFrame { now_ms: u64, frame: Seq<u8>, key: PttKeyGuard },
    /// The identification timer is asked.
    AskIdDue { now_ms: u64, sent: nat, key: PttKeyGuard },
    /// The identification is transmitted.
    TransmitId { now_ms: u64, sent: nat, key: PttKeyGuard },
    /// The identification is noted in the timer.
    MarkIdentified { now_ms: u64, sent: nat, key: PttKeyGuard },
    /// The key is re-stamped, to be held until the next frame.
    Restamp { sent: nat, key: PttKeyGuard },
    /// The key is held a little longer.
    Hang { sent: nat, key: PttKeyGuard },
    /// The key is released, and the relay is over.
    Release { key: PttKeyGuard, outcome: Outcome },
    /// The key is released, and the session is over.
    EndSession { key: PttKeyGuard, result: SessionResult },
    /// The key is released after whatever was under way broke off.
    Abandon { key: PttKeyGuard },
    /// A relay is over.
    Relayed(Outcome),
    /// A session is over.
    Finished(SessionResult),
}

/// The repeater.
pub ghost struct RepeaterState {
    /// Its configuration.
    pub settings: Settings,
    /// The milliseconds between identifications, where it identifies itself.
    pub id_interval_ms: Option<u64>,
    /// The key held across frames.
    pub session_key: Option<PttKeyGuard>,
    /// How many frames the session under way has relayed.
    pub session: Option<nat>,
    /// How many bursts were dropped because the output band was not known to be clear.
    pub deferred: nat,
    /// How many times in a row the output band was unreadable.
    pub sense_faults: nat,
    /// Where it is.
    pub stage: Stage,
}

/// One more, up to the largest number that a counter holds.
pub open spec fn bump(n: nat) -> nat {
    if n < u64::MAX {
        n + 1
    } else {
        n
    }
}

/// Why a session does not begin without a receiver for the output band.
pub open spec fn no_sensor_text(reason: Seq<char>) -> Seq<char> {
    "carrier sense is on and the output band cannot be received: "@ + reason
}

/// Why a station that hears nothing of its output band stops.
pub open spec fn deaf_text() -> Seq<char> {
    "the output band could not be sensed too many times in a row"@
}

/// What is transmitted to identify the station.
pub open spec fn id_text(callsign: Seq<char>) -> Seq<char> {
    "DE "@ + callsign
}

impl RepeaterState {
    /// A repeater that has done nothing yet.
    pub open spec fn initial(settings: Settings, id_interval_ms: Option<u64>) -> RepeaterState {
        RepeaterState {
            settings,
            id_interval_ms,
            session_key: None,
            session: None,
            deferred: 0,
            sense_faults: 0,
            stage: Stage::Rest,
        }
    }

    /// The same repeater in another stage.
    pub open spec fn at(self, stage: Stage) -> RepeaterState {
        RepeaterState { stage, ..self }
    }

    /// Whether no relay and no session is under way.
    pub open spec fn at_rest(self) -> bool {
        self.stage is Rest || self.stage is Relayed || self.stage is Finished
    }

    /// The key that the relay under way, or the end of one, is about.
    pub open spec fn stage_key(self) -> Option<PttKeyGuard> {
        match self.stage {
            Stage::Extend { key, .. } => Some(key),
            Stage::NoteTx { key, .. } => Some(key),
            Stage::TransmitFrame { key, .. } => Some(key),
            Stage::AskIdDue { key, .. } => Some(key),
            Stage::TransmitId { key, .. } => Some(key),
            Stage::MarkIdentified { key, .. } => Some(key),
            Stage::Restamp { key, .. } => Some(key),
            Stage::Hang { key, .. } => Some(key),
            Stage::Release { key, .. } => Some(key),
            Stage::EndSession { key, .. } => Some(key),
            Stage::Abandon { key } => Some(key),
            _ => None,
        }
    }

    /// The key that the repeater holds, whether for the relay under way or across frames.
    pub open spec fn held(self) -> Option<PttKeyGuard> {
        if self.stage_key() is Some {
            self.stage_key()
        } else {
            self.session_key
        }
    }

    /// What holds of every repeater, whatever it was told and whatever it was answered.
    pub open spec fn wf(self) -> bool {
        // There is never a second key, and a key is looked for only while none is held.
        &&& self.stage_key() is Some || self.stage is Sense || self.stage is Key
            ==> self.session_key is None
        // Only full duplex keeps a key between frames, and no ended session and no failure does.
        &&& self.session_key is Some ==> self.settings.full_duplex
        &&& self.stage is Finished ==> self.session_key is None
        &&& self.stage matches Stage::Relayed(Err(_)) ==> self.session_key is None
        // A disabled repeater does nothing.
        &&& !self.settings.enabled ==> self.at_rest() && self.held() is None
        // The session's own stages belong to a session, and nothing that is over does.
        &&& self.stage is DrainBursts || self.stage is OpenSensor || self.stage is ReadStop
            || self.stage is Receive ==> self.session is Some
        &&& self.at_rest() || self.stage is EndSession || self.stage is Abandon
            ==> self.session is None
        // The band is sensed only where that is configured, and the identification timer is used
        // only where the station identifies itself.
        &&& self.stage is Sense ==> self.settings.carrier_sense
        &&& self.stage is NoteTx || self.stage is AskIdDue || self.stage is TransmitId
            || self.stage is MarkIdentified ==> self.id_interval_ms is Some
        // A frame is never empty.
        &&& self.frame() matches Some(frame) ==> frame.len() > 0
        &&& match self.stage {
            Stage::AskIdDue { sent, .. } => sent > 0,
            Stage::TransmitId { sent, .. } => sent > 0,
            Stage::MarkIdentified { sent, .. } => sent > 0,
            // The key is kept in full duplex, and given back otherwise.
            Stage::Restamp { sent, .. } => sent > 0 && self.settings.full_duplex,
            Stage::Hang { sent, .. } => sent > 0 && !self.settings.full_duplex,
            Stage::Release { outcome: Ok(sent), .. } => sent matches Some(n) && n > 0
                && !self.settings.full_duplex,
            Stage::Relayed(Ok(Some(n))) => n > 0,
            _ => true,
        }
    }

    /// What the repeater asks for.
    pub open spec fn action(self) -> RelayAction {
        match self.stage {
            Stage::Rest => RelayAction::Rest,
            Stage::DrainBursts => RelayAction::DrainBursts,
            Stage::OpenSensor => RelayAction::OpenSensor,
            Stage::ReadStop => RelayAction::ReadStop,
            Stage::Receive => RelayAction::Receive { timeout_ms: IDLE_POLL_MS },
            Stage::Decode { .. } => RelayAction::Decode,
            Stage::Extend { key, .. } => RelayAction::Extend(key),
            Stage::Sense { .. } => RelayAction::Sense,
            Stage::Key { .. } => RelayAction::Key,
            Stage::NoteTx { now_ms, .. } => RelayAction::NoteTx { now_ms },
            Stage::TransmitFrame { .. } => RelayAction::TransmitFrame,
            Stage::AskIdDue { now_ms, .. } => RelayAction::AskIdDue { now_ms },
            Stage::TransmitId { .. } => RelayAction::TransmitId,
            Stage::MarkIdentified { now_ms, .. } => RelayAction::MarkIdentified { now_ms },
            Stage::Restamp { key, .. } => RelayAction::Extend(key),
            Stage::Hang { .. } => RelayAction::Hang { ms: self.settings.tx_hang_ms },
            Stage::Release { key, .. } => RelayAction::Release(key),
            Stage::EndSession { key, .. } => RelayAction::Release(key),
            Stage::Abandon { key } => RelayAction::Release(key),
            Stage::Relayed(_) => RelayAction::Rest,
            Stage::Finished(_) => RelayAction::Rest,
        }
    }

    /// The frame that is being relayed.
    pub open spec fn frame(self) -> Option<Seq<u8>> {
        match self.stage {
            Stage::Extend { frame, .. } => Some(frame),
            Stage::Sense { frame, .. } => Some(frame),
            Stage::Key { frame, .. } => Some(frame),
            Stage::NoteTx { frame, .. } => Some(frame),
            Stage::TransmitFrame { frame, .. } => Some(frame),
            _ => None,
        }
    }

    /// A relay of a burst that arrived at `now_ms` begins. A disabled repeater relays nothing, and
    /// one that is at work goes on with what it does.
    pub open spec fn relay_started(self, now_ms: u64) -> RepeaterState {
        if !self.at_rest() {
            self
        } else if !self.settings.enabled {
            self.at(Stage::Relayed(Ok(None)))
        } else {
            self.at(Stage::Decode { now_ms })
        }
    }

    /// A session begins, with a fresh count of sensing faults. A disabled repeater has nothing to
    /// do in it, and one that is at work goes on with what it does.
    pub open spec fn session_started(self) -> RepeaterState {
        if !self.at_rest() {
            self
        } else if !self.settings.enabled {
            self.at(Stage::Finished(Ok(0)))
        } else {
            RepeaterState {
                session: Some(0),
                sense_faults: 0,
                stage: Stage::DrainBursts,
                ..self
            }
        }
    }

    /// Whatever is under way breaks off; a key that is held is released.
    pub open spec fn abandoned(self) -> RepeaterState {
        RepeaterState {
            session_key: None,
            session: None,
            sense_faults: 0,
            stage: match self.held() {
                Some(key) => Stage::Abandon { key },
                None => Stage::Rest,
            },
            ..self
        }
    }

    /// The session ends. A key that is still held is released first.
    pub open spec fn ended(self, result: SessionResult) -> RepeaterState {
        RepeaterState {
            session_key: None,
            session: None,
            stage: match self.session_key {
                Some(key) => Stage::EndSession { key, result },
                None => Stage::Finished(result),
            },
            ..self
        }
    }

    /// The session ends as it was asked to.
    pub open spec fn stopped(self) -> RepeaterState {
        self.ended(
            Ok(
                match self.session {
                    Some(relayed) => relayed,
                    None => 0,
                },
            ),
        )
    }

    /// The relay is over. In a session a relayed frame is counted, and a failure ends the session.
    pub open spec fn concluded(self, outcome: Outcome) -> RepeaterState {
        match (self.session, outcome) {
            (None, _) => self.at(Stage::Relayed(outcome)),
            (Some(relayed), Ok(Some(_))) => RepeaterState {
                session: Some(bump(relayed)),
                stage: Stage::ReadStop,
                ..self
            },
            (Some(_), Ok(None)) => self.at(Stage::ReadStop),
            (Some(_), Err(fault)) => self.ended(Err(fault)),
        }
    }

    /// A key is needed that is not held: the output band is sensed first, where that is configured.
    pub open spec fn acquiring(self, now_ms: u64, frame: Seq<u8>) -> RepeaterState {
        if self.settings.carrier_sense {
            self.at(Stage::Sense { now_ms, frame })
        } else {
            self.at(Stage::Key { now_ms, frame })
        }
    }

    /// A burst was decoded. A key that is held across frames is used again if it is still there.
    pub open spec fn decoded(self, now_ms: u64, frame: Seq<u8>) -> RepeaterState {
        if frame.len() == 0 {
            self.concluded(Ok(None))
        } else {
            match self.session_key {
                Some(key) => RepeaterState {
                    session_key: None,
                    stage: Stage::Extend { now_ms, frame, key },
                    ..self
                },
                None => self.acquiring(now_ms, frame),
            }
        }
    }

    /// The output band was sensed. Only a band that was read and carries nothing lets the repeater
    /// key; in every other case the burst is dropped, and that is counted.
    pub open spec fn sensed(self, now_ms: u64, frame: Seq<u8>, band: BandState) -> RepeaterState {
        match band {
            BandState::Clear => RepeaterState {
                sense_faults: 0,
                stage: Stage::Key { now_ms, frame },
                ..self
            },
            BandState::Busy => RepeaterState {
                deferred: bump(self.deferred),
                ..self
            }.concluded(Ok(None)),
            BandState::Unreadable => RepeaterState {
                deferred: bump(self.deferred),
                sense_faults: bump(self.sense_faults),
                ..self
            }.concluded(
                if bump(self.sense_faults) >= MAX_SENSE_FAULTS {
                    Err(RelayFault::Modem(deaf_text()))
                } else {
                    Ok(None)
                },
            ),
        }
    }

    /// A key is held, and the frame goes out under it.
    pub open spec fn transmitting(
        self,
        now_ms: u64,
        frame: Seq<u8>,
        key: PttKeyGuard,
    ) -> RepeaterState {
        if self.id_interval_ms is Some {
            self.at(Stage::NoteTx { now_ms, frame, key })
        } else {
            self.at(Stage::TransmitFrame { now_ms, frame, key })
        }
    }

    /// Everything was transmitted. In full duplex the key is kept, otherwise it is released, after
    /// the configured hang.
    pub open spec fn sent(self, sent: nat, key: PttKeyGuard) -> RepeaterState {
        if self.settings.full_duplex {
            self.at(Stage::Restamp { sent, key })
        } else if self.settings.tx_hang_ms > 0 {
            self.at(Stage::Hang { sent, key })
        } else {
            self.at(Stage::Release { key, outcome: Ok(Some(sent)) })
        }
    }

    /// One step: what a reply leads to. A reply to something that was not asked for is ignored.
    pub open spec fn next(self, reply: Reply) -> RepeaterState {
        match (self.stage, reply) {
            (Stage::DrainBursts, Reply::Drained) => if self.settings.carrier_sense {
                self.at(Stage::OpenSensor)
            } else {
                self.at(Stage::ReadStop)
            },
            (Stage::OpenSensor, Reply::SensorOpened(Ok(_))) => self.at(Stage::ReadStop),
            (Stage::OpenSensor, Reply::SensorOpened(Err(reason))) => self.ended(
                Err(RelayFault::Modem(no_sensor_text(reason))),
            ),
            (Stage::ReadStop, Reply::StopRead(true)) => self.stopped(),
            (Stage::ReadStop, Reply::StopRead(false)) => self.at(Stage::Receive),
            (Stage::Receive, Reply::Received(Reception::Burst { now_ms })) => self.at(
                Stage::Decode { now_ms },
            ),
            (Stage::Receive, Reply::Received(Reception::Timeout)) => self.at(Stage::ReadStop),
            (Stage::Receive, Reply::Received(Reception::Disconnected)) => self.stopped(),
            (Stage::Decode { now_ms }, Reply::Decoded(Ok(frame))) => self.decoded(now_ms, frame),
            (Stage::Decode { .. }, Reply::Decoded(Err(_))) => self.concluded(Ok(None)),
            (Stage::Extend { now_ms, frame, key }, Reply::Extended(true)) => self.transmitting(
                now_ms,
                frame,
                key,
            ),
            (Stage::Extend { now_ms, frame, .. }, Reply::Extended(false)) => self.acquiring(
                now_ms,
                frame,
            ),
            (Stage::Sense { now_ms, frame }, Reply::Sensed(band)) => self.sensed(
                now_ms,
                frame,
                band,
            ),
            (Stage::Key { now_ms, frame }, Reply::Keyed(Ok(key))) => self.transmitting(
                now_ms,
                frame,
                key,
            ),
            (Stage::Key { .. }, Reply::Keyed(Err(fault))) => self.concluded(
                Err(RelayFault::Ptt(fault)),
            ),
            (Stage::NoteTx { now_ms, frame, key }, Reply::TxNoted) => self.at(
                Stage::TransmitFrame { now_ms, frame, key },
            ),
            (Stage::TransmitFrame { now_ms, frame, key }, Reply::Transmitted(Ok(_))) => {
                if self.id_interval_ms is Some {
                    self.at(Stage::AskIdDue { now_ms, sent: frame.len(), key })
                } else {
                    self.sent(frame.len(), key)
                }
            },
            (Stage::TransmitFrame { key, .. }, Reply::Transmitted(Err(reason))) => self.at(
                Stage::Release { key, outcome: Err(RelayFault::Modem(reason)) },
            ),
            (Stage::AskIdDue { now_ms, sent, key }, Reply::IdDue(true)) => self.at(
                Stage::TransmitId { now_ms, sent, key },
            ),
            (Stage::AskIdDue { sent, key, .. }, Reply::IdDue(false)) => self.sent(sent, key),
            (Stage::TransmitId { now_ms, sent, key }, Reply::Transmitted(Ok(_))) => self.at(
                Stage::MarkIdentified { now_ms, sent, key },
            ),
            (Stage::TransmitId { key, .. }, Reply::Transmitted(Err(reason))) => self.at(
                Stage::Release { key, outcome: Err(RelayFault::Modem(reason)) },
            ),
            (Stage::MarkIdentified { sent, key, .. }, Reply::IdMarked) => self.sent(sent, key),
            (Stage::Restamp { sent, key }, Reply::Extended(_)) => RepeaterState {
                session_key: Some(key),
                ..self
            }.concluded(Ok(Some(sent))),
            (Stage::Hang { sent, key }, Reply::HangOver) => self.at(
                Stage::Release { key, outcome: Ok(Some(sent)) },
            ),
            (Stage::Release { outcome, .. }, Reply::Released) => self.concluded(outcome),
            (Stage::EndSession { result, .. }, Reply::Released) => self.at(
                Stage::Finished(result),
            ),
            (Stage::Abandon { .. }, Reply::Released) => self.at(Stage::Rest),
            _ => self,
        }
    }
}

/// What an event says is what it holds, whole and unchanged: every byte that was decoded, every
/// reason, the time of a burst, and the key that was granted.
pub proof fn an_event_says_what_it_holds(event: RelayEvent)
    ensures
        match event {
            RelayEvent::Drained => event@ == Reply::Drained,
            RelayEvent::SensorOpened(Ok(_)) => event@ matches Reply::SensorOpened(Ok(_)),
            RelayEvent::SensorOpened(Err(m)) => event@ == Reply::SensorOpened(Err(m@)),
            RelayEvent::StopRead(stop) => event@ == Reply::StopRead(stop),
            RelayEvent::Received(reception) => event@ == Reply::Received(reception),
            RelayEvent::Decoded(Ok(bytes)) => event@ == Reply::Decoded(Ok(bytes@)),
            RelayEvent::Decoded(Err(m)) => event@ == Reply::Decoded(Err(m@)),
            RelayEvent::Extended(alive) => event@ == Reply::Extended(alive),
            RelayEvent::Sensed(band) => event@ == Reply::Sensed(band),
            RelayEvent::Keyed(Ok(key)) => event@ == Reply::Keyed(Ok(key)),
            RelayEvent::Keyed(Err(e)) => event@ == Reply::Keyed(Err(e@)),
            RelayEvent::TxNoted => event@ == Reply::TxNoted,
            RelayEvent::Transmitted(Ok(_)) => event@ matches Reply::Transmitted(Ok(_)),
            RelayEvent::Transmitted(Err(m)) => event@ == Reply::Transmitted(Err(m@)),
            RelayEvent::IdDue(due) => event@ == Reply::IdDue(due),
            RelayEvent::IdMarked => event@ == Reply::IdMarked,
            RelayEvent::HangOver => event@ == Reply::HangOver,
            RelayEvent::Released => event@ == Reply::Released,
        },
{
}

/// A result stands for one outcome only: the number of bytes, or of frames, is told as it is, and so
/// is the failure.
pub proof fn a_result_stands_for_its_outcome(
    relayed: Result<Option<usize>, RepeaterError>,
    finished: Result<u64, RepeaterError>,
)
    ensures
        match relayed {
            Ok(Some(n)) => outcome_view(relayed) == Ok::<Option<nat>, RelayFault>(Some(n as nat)),
            Ok(None) => outcome_view(relayed) == Ok::<Option<nat>, RelayFault>(None),
            Err(e) => outcome_view(relayed) == Err::<Option<nat>, RelayFault>(e@),
        },
        match finished {
            Ok(n) => session_view(finished) == Ok::<nat, RelayFault>(n as nat),
            Err(e) => session_view(finished) == Err::<nat, RelayFault>(e@),
        },
{
}

/// A reading is taken for what it is, and a missing one for an unreadable band: nothing but a reading
/// that found the band clear makes it clear.
pub proof fn only_a_reading_makes_a_band_clear(reading: Option<BandState>, band: BandState)
    requires
        call_ensures(BandState::of_reading, (reading,), band),
    ensures
        reading is None ==> band == BandState::Unreadable,
        reading is Some ==> Some(band) == reading,
{
}

/// The identification is `DE`, a space, and the whole callsign, so that it tells any two stations
/// apart.
pub proof fn the_identification_names_the_station(callsign: Seq<char>, other: Seq<char>)
    ensures
        id_text(callsign).len() == callsign.len() + 3,
        id_text(callsign)[0] == 'D',
        id_text(callsign)[1] == 'E',
        id_text(callsign)[2] == ' ',
        id_text(callsign).skip(3) =~= callsign,
        id_text(callsign) == id_text(other) ==> callsign == other,
{
    reveal_strlit("DE ");
    assert(id_text(callsign).skip(3) =~= callsign);
    assert(id_text(other).skip(3) =~= other);
}

} // verus!
