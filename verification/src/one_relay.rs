//! What one relay comes to, from beginning to end.
//!
//! Given what the modem, the band, the transmitter and the identification timer have to say, the
//! relay of one burst is settled. Here it is stated in one piece what it returns, what goes on the
//! air, and which key is held afterwards, and shown that the stages arrive at just that.

use vstd::prelude::*;

use crate::error::{PttFault, RelayFault};
use crate::laws::{Happening, KeyEdge};
use crate::relay::{
    bump, deaf_text, id_text, BandState, Outcome, Reply, RepeaterState, Stage, MAX_SENSE_FAULTS,
};
use crate::shared_ptt::PttKeyGuard;

verus! {

/// What everything around the repeater has to say during one relay, where it is asked.
pub ghost struct Surroundings {
    /// What the burst decodes to.
    pub decoded: Result<Seq<u8>, Seq<char>>,
    /// Whether the key held across frames is still there.
    pub alive: bool,
    /// What the output band is like.
    pub band: BandState,
    /// What asking for a key yields.
    pub keyed: Result<PttKeyGuard, PttFault>,
    /// How transmitting the frame goes.
    pub sent: Result<(), Seq<char>>,
    /// Whether an identification is due after it.
    pub id_due: bool,
    /// How transmitting the identification goes.
    pub id_sent: Result<(), Seq<char>>,
}

/// Something that was put on the air, or was tried to be, and the key that was held meanwhile.
pub ghost enum Emission {
    Frame(Seq<u8>, PttKeyGuard),
    Id(Seq<char>, PttKeyGuard),
}

impl Surroundings {
    /// The reply to what the repeater asks for.
    pub open spec fn reply_to(self, stage: Stage) -> Reply {
        match stage {
            Stage::Decode { .. } => Reply::Decoded(self.decoded),
            Stage::Extend { .. } => Reply::Extended(self.alive),
            Stage::Sense { .. } => Reply::Sensed(self.band),
            Stage::Key { .. } => Reply::Keyed(self.keyed),
            Stage::NoteTx { .. } => Reply::TxNoted,
            Stage::TransmitFrame { .. } => Reply::Transmitted(self.sent),
            Stage::AskIdDue { .. } => Reply::IdDue(self.id_due),
            Stage::TransmitId { .. } => Reply::Transmitted(self.id_sent),
            Stage::MarkIdentified { .. } => Reply::IdMarked,
            Stage::Restamp { .. } => Reply::Extended(self.alive),
            Stage::Hang { .. } => Reply::HangOver,
            _ => Reply::Released,
        }
    }

    /// The repeater after that many replies.
    pub open spec fn driven(self, s: RepeaterState, replies: nat) -> RepeaterState
        decreases replies,
    {
        if replies == 0 {
            s
        } else {
            self.driven(s.next(self.reply_to(s.stage)), (replies - 1) as nat)
        }
    }

    /// What is put on the air over that many replies.
    pub open spec fn aired(self, s: RepeaterState, replies: nat) -> Seq<Emission>
        decreases replies,
    {
        if replies == 0 {
            Seq::empty()
        } else {
            let rest = self.aired(s.next(self.reply_to(s.stage)), (replies - 1) as nat);
            match s.stage {
                Stage::TransmitFrame { frame, key, .. } => seq![Emission::Frame(frame, key)]
                    + rest,
                Stage::TransmitId { key, .. } => seq![
                    Emission::Id(id_text(s.settings.callsign), key),
                ] + rest,
                _ => rest,
            }
        }
    }

    /// What happens to the key over that many replies.
    pub open spec fn touched(self, s: RepeaterState, replies: nat) -> Seq<KeyEdge>
        decreases replies,
    {
        if replies == 0 {
            Seq::empty()
        } else {
            let reply = self.reply_to(s.stage);
            let rest = self.touched(s.next(reply), (replies - 1) as nat);
            match s.edge(Happening::Reply(reply)) {
                Some(edge) => seq![edge] + rest,
                None => rest,
            }
        }
    }

    /// Whether the burst holds something to relay.
    pub open spec fn has_frame(self) -> bool {
        self.decoded matches Ok(frame) && frame.len() > 0
    }

    /// Whether the frame goes out under the key that was held across frames.
    pub open spec fn goes_on(self, s: RepeaterState) -> bool {
        s.session_key is Some && self.alive
    }

    /// Whether the output band keeps the repeater from keying.
    pub open spec fn barred(self, s: RepeaterState) -> bool {
        !self.goes_on(s) && s.settings.carrier_sense && !(self.band is Clear)
    }

    /// Whether the frame is transmitted: there is one, nothing bars the way, and a key is held.
    pub open spec fn transmits(self, s: RepeaterState) -> bool {
        self.has_frame() && !self.barred(s) && (self.goes_on(s) || self.keyed is Ok)
    }

    /// Whether the identification is transmitted: after a frame that was, where it is due.
    pub open spec fn identifies(self, s: RepeaterState) -> bool {
        self.transmits(s) && self.sent is Ok && s.id_interval_ms is Some && self.id_due
    }

    /// The key under which the frame goes out.
    pub open spec fn key(self, s: RepeaterState) -> PttKeyGuard {
        if self.goes_on(s) {
            s.session_key->0
        } else {
            self.keyed->Ok_0
        }
    }

    /// What the relay returns.
    pub open spec fn outcome(self, s: RepeaterState) -> Outcome {
        if !self.has_frame() {
            Ok(None)
        } else if self.barred(s) {
            if self.band is Unreadable && bump(s.sense_faults) >= MAX_SENSE_FAULTS {
                Err(RelayFault::Modem(deaf_text()))
            } else {
                Ok(None)
            }
        } else if !self.transmits(s) {
            Err(RelayFault::Ptt(self.keyed->Err_0))
        } else if self.sent is Err {
            Err(RelayFault::Modem(self.sent->Err_0))
        } else if self.identifies(s) && self.id_sent is Err {
            Err(RelayFault::Modem(self.id_sent->Err_0))
        } else {
            Ok(Some(self.decoded->Ok_0.len()))
        }
    }

    /// The key that is held when the relay is over: in full duplex the one that the frame went out
    /// under, or the one from before where there was nothing to relay. Otherwise none.
    pub open spec fn key_after(self, s: RepeaterState) -> Option<PttKeyGuard> {
        if !self.has_frame() {
            s.session_key
        } else if self.outcome(s) matches Ok(Some(_)) && s.settings.full_duplex {
            Some(self.key(s))
        } else {
            None
        }
    }

    /// How many times in a row the output band was unreadable, when the relay is over.
    pub open spec fn faults_after(self, s: RepeaterState) -> nat {
        if !self.has_frame() || self.goes_on(s) || !s.settings.carrier_sense {
            s.sense_faults
        } else {
            match self.band {
                BandState::Clear => 0,
                BandState::Busy => s.sense_faults,
                BandState::Unreadable => bump(s.sense_faults),
            }
        }
    }

    /// The repeater with what the relay left behind.
    pub open spec fn settled(self, s: RepeaterState) -> RepeaterState {
        RepeaterState {
            session_key: self.key_after(s),
            sense_faults: self.faults_after(s),
            deferred: if self.has_frame() && self.barred(s) {
                bump(s.deferred)
            } else {
                s.deferred
            },
            ..s
        }
    }

    /// What goes on the air: nothing, the frame, or the frame and then the identification, both
    /// under one key.
    pub open spec fn on_air(self, s: RepeaterState) -> Seq<Emission> {
        if !self.transmits(s) {
            Seq::empty()
        } else if !self.identifies(s) {
            seq![Emission::Frame(self.decoded->Ok_0, self.key(s))]
        } else {
            seq![
                Emission::Frame(self.decoded->Ok_0, self.key(s)),
                Emission::Id(id_text(s.settings.callsign), self.key(s)),
            ]
        }
    }

    /// What is found out about the key held across frames: where there is something to relay, that
    /// it is gone, if it is.
    pub open spec fn loss(self, s: RepeaterState) -> Seq<KeyEdge> {
        if self.has_frame() && s.session_key is Some && !self.alive {
            seq![KeyEdge::Lost(s.session_key->0)]
        } else {
            Seq::empty()
        }
    }

    /// What happens to the key: one is taken where a frame goes out and none is held, and it is
    /// released again unless the frame was relayed in full duplex.
    pub open spec fn key_use(self, s: RepeaterState) -> Seq<KeyEdge> {
        let kept = self.outcome(s) matches Ok(Some(_)) && s.settings.full_duplex;
        self.loss(s) + if self.transmits(s) && !self.goes_on(s) {
            seq![KeyEdge::Taken(self.key(s))]
        } else {
            Seq::empty()
        } + if self.transmits(s) && !kept {
            seq![KeyEdge::Released(self.key(s))]
        } else {
            Seq::empty()
        }
    }
}

/// The most replies that one relay takes.
pub open spec fn longest_relay() -> nat {
    11
}

/// How far a relay is from its end.
pub open spec fn remaining(stage: Stage) -> nat {
    match stage {
        Stage::Decode { .. } => 12,
        Stage::Extend { .. } => 11,
        Stage::Sense { .. } => 10,
        Stage::Key { .. } => 9,
        Stage::NoteTx { .. } => 8,
        Stage::TransmitFrame { .. } => 7,
        Stage::AskIdDue { .. } => 6,
        Stage::TransmitId { .. } => 5,
        Stage::MarkIdentified { .. } => 4,
        Stage::Restamp { .. } => 3,
        Stage::Hang { .. } => 3,
        Stage::Release { .. } => 2,
        Stage::EndSession { .. } => 1,
        Stage::Abandon { .. } => 1,
        _ => 0,
    }
}

/// Every answer brings a relay nearer to its end, in a session as outside of one, whatever the
/// answer is.
pub proof fn every_answer_brings_the_end_nearer(s: RepeaterState, around: Surroundings)
    requires
        s.wf(),
        remaining(s.stage) > 0,
    ensures
        remaining(s.next(around.reply_to(s.stage)).stage) < remaining(s.stage),
{
}

/// A relay is over after at most [`longest_relay`] replies, whatever they are. It comes to what was
/// decoded and transmitted, or to the first thing that went wrong; only a frame that was decoded
/// goes on the air, at most once, and the identification only after it.
pub proof fn a_relay_comes_to_its_outcome(s: RepeaterState, around: Surroundings)
    requires
        s.wf(),
        s.stage is Decode,
    ensures
        around.driven(s, longest_relay()) == around.settled(s).concluded(around.outcome(s)),
        around.aired(s, longest_relay()) =~= around.on_air(s),
        around.touched(s, longest_relay()) =~= around.key_use(s),
{
    let now_ms = s.stage->Decode_now_ms;
    let second = s.next(around.reply_to(s.stage));
    if !around.has_frame() {
        assert(second == around.settled(s).concluded(Ok(None)));
        lemma_over(around, second, 10);
    } else {
        let frame = around.decoded->Ok_0;
        match s.session_key {
            None => {
                assert(second == s.acquiring(now_ms, frame));
                lemma_acquire(around, s, now_ms, frame, 10);
            },
            Some(key) => {
                let u = RepeaterState { session_key: None, ..s };
                assert(second == u.at(Stage::Extend { now_ms, frame, key }));
                let third = second.next(around.reply_to(second.stage));
                assert(around.driven(second, 10) == around.driven(third, 9));
                assert(around.aired(second, 10) == around.aired(third, 9));
                assert(around.touched(s, 11) =~= around.loss(s) + around.touched(third, 9)) by {
                    assert(around.touched(s, 11) == around.touched(second, 10));
                }
                if around.alive {
                    assert(third == u.transmitting(now_ms, frame, key));
                    lemma_transmit(around, u, now_ms, frame, key, 9);
                } else {
                    assert(third == u.acquiring(now_ms, frame));
                    lemma_acquire(around, u, now_ms, frame, 9);
                }
            },
        }
    }
}

/// A single relay returns its outcome, puts that on the air, and keeps a key only where full duplex
/// does.
pub proof fn a_single_relay_returns_its_outcome(
    s: RepeaterState,
    around: Surroundings,
    now_ms: u64,
)
    requires
        s.wf(),
        s.at_rest(),
        s.settings.enabled,
    ensures
        ({
            let done = around.driven(s.relay_started(now_ms), longest_relay());
            &&& done.stage == Stage::Relayed(around.outcome(s))
            &&& done.held() == around.key_after(s)
            &&& done.deferred == around.settled(s).deferred
            &&& around.aired(s.relay_started(now_ms), longest_relay()) =~= around.on_air(s)
            &&& around.touched(s.relay_started(now_ms), longest_relay()) =~= around.key_use(s)
        }),
{
    let t = s.relay_started(now_ms);
    a_relay_comes_to_its_outcome(t, around);
}

/// The frame and the identification go out under one key, which is held whenever something is
/// transmitted: the one that was held across frames, or the one that was taken for this relay.
pub proof fn everything_goes_out_under_one_key(s: RepeaterState, around: Surroundings, replies: nat)
    requires
        s.wf(),
        s.stage is Decode,
    ensures
        ({
            let now = around.driven(s, replies);
            now.stage is TransmitFrame || now.stage is TransmitId ==> now.held() == Some(
                around.key(s),
            )
        }),
{
    lemma_one_key(s, around, replies);
}

/// A half-duplex relay of a frame takes one key, transmits under it, and releases that key.
pub proof fn a_half_duplex_relay_takes_one_key_and_releases_it(
    s: RepeaterState,
    around: Surroundings,
    now_ms: u64,
)
    requires
        s.wf(),
        s.at_rest(),
        s.settings.enabled,
        !s.settings.full_duplex,
        around.outcome(s) matches Ok(Some(_)),
    ensures
        ({
            let start = s.relay_started(now_ms);
            let key = around.key(s);
            &&& around.keyed == Ok::<PttKeyGuard, PttFault>(key)
            &&& around.touched(start, longest_relay()) =~= seq![
                KeyEdge::Taken(key),
                KeyEdge::Released(key),
            ]
            &&& forall|replies: nat|
                {
                    let now = #[trigger] around.driven(start, replies);
                    now.stage is TransmitFrame || now.stage is TransmitId ==> now.held() == Some(
                        key,
                    )
                }
        }),
{
    let start = s.relay_started(now_ms);
    a_relay_comes_to_its_outcome(start, around);
    assert forall|replies: nat|
        {
            let now = #[trigger] around.driven(start, replies);
            now.stage is TransmitFrame || now.stage is TransmitId ==> now.held() == Some(
                around.key(s),
            )
        } by {
        everything_goes_out_under_one_key(start, around, replies);
    }
}

impl Surroundings {
    /// Where a relay that began as `s` can be.
    spec fn on_its_way(self, s: RepeaterState, now: RepeaterState) -> bool {
        match now.stage {
            Stage::Decode { .. } => now.session_key == s.session_key,
            Stage::Extend { key, .. } => s.session_key == Some(key),
            Stage::Sense { .. } => !self.goes_on(s),
            Stage::Key { .. } => !self.goes_on(s),
            Stage::Relayed(_) => true,
            Stage::ReadStop => true,
            Stage::Finished(_) => true,
            _ => now.stage_key() == Some(self.key(s)) && !(now.stage is EndSession || now.stage
                is Abandon),
        }
    }
}

proof fn lemma_one_key(s: RepeaterState, around: Surroundings, n: nat)
    requires
        s.wf(),
        s.stage is Decode,
    ensures
        around.driven(s, n).wf(),
        around.on_its_way(s, around.driven(s, n)),
    decreases n,
{
    if n > 0 {
        let before = around.driven(s, (n - 1) as nat);
        lemma_one_key(s, around, (n - 1) as nat);
        lemma_driven_last(s, around, n);
    }
}

proof fn lemma_driven_last(s: RepeaterState, around: Surroundings, n: nat)
    requires
        n > 0,
    ensures
        ({
            let before = around.driven(s, (n - 1) as nat);
            around.driven(s, n) == before.next(around.reply_to(before.stage))
        }),
    decreases n,
{
    if n == 1 {
        reveal_with_fuel(Surroundings::driven, 2);
    } else {
        lemma_driven_last(s.next(around.reply_to(s.stage)), around, (n - 1) as nat);
    }
}

/// Nothing happens any more once a relay is over.
proof fn lemma_over(around: Surroundings, t: RepeaterState, n: nat)
    requires
        t.stage is Relayed || t.stage is ReadStop || t.stage is Finished,
    ensures
        around.driven(t, n) == t,
        around.aired(t, n) =~= Seq::<Emission>::empty(),
        around.touched(t, n) =~= Seq::<KeyEdge>::empty(),
    decreases n,
{
    if n > 0 {
        lemma_over(around, t, (n - 1) as nat);
    }
}

/// The repeater when a frame was relayed.
spec fn relayed(t: RepeaterState, sent: nat, key: PttKeyGuard) -> RepeaterState {
    RepeaterState {
        session_key: if t.settings.full_duplex {
            Some(key)
        } else {
            None
        },
        ..t
    }.concluded(Ok(Some(sent)))
}

/// The release of a key, unless it is kept.
spec fn released_unless(kept: bool, key: PttKeyGuard) -> Seq<KeyEdge> {
    if kept {
        Seq::empty()
    } else {
        seq![KeyEdge::Released(key)]
    }
}

/// The frame and the identification are out.
proof fn lemma_sent(around: Surroundings, t: RepeaterState, sent: nat, key: PttKeyGuard, n: nat)
    requires
        t.session_key is None,
        n >= 2,
    ensures
        around.driven(t.sent(sent, key), n) == relayed(t, sent, key),
        around.aired(t.sent(sent, key), n) =~= Seq::<Emission>::empty(),
        around.touched(t.sent(sent, key), n) =~= released_unless(t.settings.full_duplex, key),
{
    let s1 = t.sent(sent, key);
    let s2 = s1.next(around.reply_to(s1.stage));
    if s1.stage is Hang {
        let s3 = s2.next(around.reply_to(s2.stage));
        assert(around.driven(s2, (n - 1) as nat) == around.driven(s3, (n - 2) as nat));
        assert(around.aired(s2, (n - 1) as nat) == around.aired(s3, (n - 2) as nat));
        assert(around.touched(s1, n) == around.touched(s2, (n - 1) as nat));
        assert(around.touched(s2, (n - 1) as nat) =~= seq![KeyEdge::Released(key)]
            + around.touched(s3, (n - 2) as nat));
        lemma_over(around, s3, (n - 2) as nat);
    } else {
        lemma_over(around, s2, (n - 1) as nat);
    }
}

/// A transmission failed, and the key is given up.
proof fn lemma_failed(
    around: Surroundings,
    t: RepeaterState,
    key: PttKeyGuard,
    fault: RelayFault,
    n: nat,
)
    requires
        t.session_key is None,
        n >= 1,
    ensures
        ({
            let releasing = t.at(Stage::Release { key, outcome: Err(fault) });
            &&& around.driven(releasing, n) == t.concluded(Err(fault))
            &&& around.aired(releasing, n) =~= Seq::<Emission>::empty()
            &&& around.touched(releasing, n) =~= seq![KeyEdge::Released(key)]
        }),
{
    lemma_over(around, t.concluded(Err(fault)), (n - 1) as nat);
}

impl Surroundings {
    /// Whether the identification follows a frame that went out.
    spec fn id_follows(self, t: RepeaterState) -> bool {
        self.sent is Ok && t.id_interval_ms is Some && self.id_due
    }

    /// The repeater after a frame for which a key is held.
    spec fn after_transmitting(
        self,
        t: RepeaterState,
        frame: Seq<u8>,
        key: PttKeyGuard,
    ) -> RepeaterState {
        if self.sent is Err {
            t.concluded(Err(RelayFault::Modem(self.sent->Err_0)))
        } else if self.id_follows(t) && self.id_sent is Err {
            t.concluded(Err(RelayFault::Modem(self.id_sent->Err_0)))
        } else {
            relayed(t, frame.len(), key)
        }
    }

    /// What goes on the air for a frame for which a key is held.
    spec fn air_of(self, t: RepeaterState, frame: Seq<u8>, key: PttKeyGuard) -> Seq<Emission> {
        if self.id_follows(t) {
            seq![Emission::Frame(frame, key), Emission::Id(id_text(t.settings.callsign), key)]
        } else {
            seq![Emission::Frame(frame, key)]
        }
    }

    /// Whether the key under which a frame goes out is kept.
    spec fn keeps(self, t: RepeaterState) -> bool {
        self.sent is Ok && !(self.id_follows(t) && self.id_sent is Err) && t.settings.full_duplex
    }

    /// The repeater after the band was sensed, where it is, before it is decided what follows.
    spec fn after_sensing(self, t: RepeaterState) -> RepeaterState {
        if !t.settings.carrier_sense {
            t
        } else {
            match self.band {
                BandState::Clear => RepeaterState { sense_faults: 0, ..t },
                BandState::Busy => RepeaterState { deferred: bump(t.deferred), ..t },
                BandState::Unreadable => RepeaterState {
                    deferred: bump(t.deferred),
                    sense_faults: bump(t.sense_faults),
                    ..t
                },
            }
        }
    }

    /// The repeater after a frame for which a key is needed.
    spec fn after_acquiring(self, t: RepeaterState, frame: Seq<u8>) -> RepeaterState {
        let u = self.after_sensing(t);
        if t.settings.carrier_sense && !(self.band is Clear) {
            u.concluded(
                if self.band is Unreadable && bump(t.sense_faults) >= MAX_SENSE_FAULTS {
                    Err(RelayFault::Modem(deaf_text()))
                } else {
                    Ok(None)
                },
            )
        } else {
            match self.keyed {
                Err(fault) => u.concluded(Err(RelayFault::Ptt(fault))),
                Ok(key) => self.after_transmitting(u, frame, key),
            }
        }
    }
}

/// The identification is asked about, and follows where it is due.
proof fn lemma_identify(
    around: Surroundings,
    t: RepeaterState,
    now_ms: u64,
    sent: nat,
    key: PttKeyGuard,
    n: nat,
)
    requires
        t.session_key is None,
        n >= 5,
    ensures
        ({
            let asking = t.at(Stage::AskIdDue { now_ms, sent, key });
            &&& around.driven(asking, n) == if around.id_due && around.id_sent is Err {
                t.concluded(Err(RelayFault::Modem(around.id_sent->Err_0)))
            } else {
                relayed(t, sent, key)
            }
            &&& around.aired(asking, n) =~= if around.id_due {
                seq![Emission::Id(id_text(t.settings.callsign), key)]
            } else {
                Seq::<Emission>::empty()
            }
            &&& around.touched(asking, n) =~= released_unless(
                !(around.id_due && around.id_sent is Err) && t.settings.full_duplex,
                key,
            )
        }),
{
    let asking = t.at(Stage::AskIdDue { now_ms, sent, key });
    if around.id_due {
        let sending = t.at(Stage::TransmitId { now_ms, sent, key });
        assert(asking.next(around.reply_to(asking.stage)) == sending);
        assert(around.driven(asking, n) == around.driven(sending, (n - 1) as nat));
        assert(around.aired(asking, n) == around.aired(sending, (n - 1) as nat));
        assert(around.touched(asking, n) == around.touched(sending, (n - 1) as nat));
        match around.id_sent {
            Err(reason) => {
                lemma_failed(around, t, key, RelayFault::Modem(reason), (n - 2) as nat);
            },
            Ok(_) => {
                let marking = t.at(Stage::MarkIdentified { now_ms, sent, key });
                assert(sending.next(around.reply_to(sending.stage)) == marking);
                assert(around.driven(sending, (n - 1) as nat) == around.driven(
                    marking,
                    (n - 2) as nat,
                ));
                assert(marking.next(around.reply_to(marking.stage)) == t.sent(sent, key));
                assert(around.aired(marking, (n - 2) as nat) == around.aired(
                    t.sent(sent, key),
                    (n - 3) as nat,
                ));
                assert(around.touched(sending, (n - 1) as nat) == around.touched(
                    marking,
                    (n - 2) as nat,
                ));
                assert(around.touched(marking, (n - 2) as nat) == around.touched(
                    t.sent(sent, key),
                    (n - 3) as nat,
                ));
                lemma_sent(around, t, sent, key, (n - 3) as nat);
            },
        }
    } else {
        assert(asking.next(around.reply_to(asking.stage)) == t.sent(sent, key));
        lemma_sent(around, t, sent, key, (n - 1) as nat);
    }
}

/// A key is held, and the frame goes out under it.
proof fn lemma_transmit(
    around: Surroundings,
    t: RepeaterState,
    now_ms: u64,
    frame: Seq<u8>,
    key: PttKeyGuard,
    n: nat,
)
    requires
        t.session_key is None,
        n >= 7,
    ensures
        around.driven(t.transmitting(now_ms, frame, key), n) == around.after_transmitting(
            t,
            frame,
            key,
        ),
        around.aired(t.transmitting(now_ms, frame, key), n) =~= around.air_of(t, frame, key),
        around.touched(t.transmitting(now_ms, frame, key), n) =~= released_unless(
            around.keeps(t),
            key,
        ),
{
    let first = t.transmitting(now_ms, frame, key);
    let sending = t.at(Stage::TransmitFrame { now_ms, frame, key });
    let m: nat = if t.id_interval_ms is Some {
        (n - 1) as nat
    } else {
        n
    };
    assert(around.driven(first, n) == around.driven(sending, m));
    assert(around.aired(first, n) == around.aired(sending, m));
    assert(around.touched(first, n) == around.touched(sending, m));
    match around.sent {
        Err(reason) => {
            lemma_failed(around, t, key, RelayFault::Modem(reason), (m - 1) as nat);
        },
        Ok(_) => {
            if t.id_interval_ms is Some {
                let asking = t.at(Stage::AskIdDue { now_ms, sent: frame.len(), key });
                assert(sending.next(around.reply_to(sending.stage)) == asking);
                lemma_identify(around, t, now_ms, frame.len(), key, (m - 1) as nat);
            } else {
                assert(sending.next(around.reply_to(sending.stage)) == t.sent(frame.len(), key));
                lemma_sent(around, t, frame.len(), key, (m - 1) as nat);
            }
        },
    }
}

/// A key is needed.
proof fn lemma_acquire(
    around: Surroundings,
    t: RepeaterState,
    now_ms: u64,
    frame: Seq<u8>,
    n: nat,
)
    requires
        t.session_key is None,
        n >= 9,
    ensures
        around.driven(t.acquiring(now_ms, frame), n) == around.after_acquiring(t, frame),
        around.aired(t.acquiring(now_ms, frame), n) =~= (if (t.settings.carrier_sense && !(
        around.band is Clear)) || around.keyed is Err {
            Seq::<Emission>::empty()
        } else {
            around.air_of(t, frame, around.keyed->Ok_0)
        }),
        around.touched(t.acquiring(now_ms, frame), n) =~= (if (t.settings.carrier_sense && !(
        around.band is Clear)) || around.keyed is Err {
            Seq::<KeyEdge>::empty()
        } else {
            seq![KeyEdge::Taken(around.keyed->Ok_0)] + released_unless(
                around.keeps(t),
                around.keyed->Ok_0,
            )
        }),
{
    let first = t.acquiring(now_ms, frame);
    let second = first.next(around.reply_to(first.stage));
    let u = around.after_sensing(t);
    if t.settings.carrier_sense && !(around.band is Clear) {
        assert(second == around.after_acquiring(t, frame));
        lemma_over(around, second, (n - 1) as nat);
    } else {
        let m: nat = if t.settings.carrier_sense {
            (n - 1) as nat
        } else {
            n
        };
        let keying = u.at(Stage::Key { now_ms, frame });
        assert(around.driven(first, n) == around.driven(keying, m));
        assert(around.aired(first, n) == around.aired(keying, m));
        assert(around.touched(first, n) == around.touched(keying, m));
        match around.keyed {
            Err(fault) => {
                lemma_over(around, u.concluded(Err(RelayFault::Ptt(fault))), (m - 1) as nat);
            },
            Ok(key) => {
                assert(keying.next(around.reply_to(keying.stage)) == u.transmitting(
                    now_ms,
                    frame,
                    key,
                ));
                lemma_transmit(around, u, now_ms, frame, key, (m - 1) as nat);
            },
        }
    }
}

} // verus!
