//! What a caller sees of one relay.
//!
//! The caller sees what the repeater asks for, and the frame that it lends meanwhile. Everything that
//! a relay does to the world, it does through what it asks for: so the transcript of its requests is
//! the whole of it. Here that transcript is stated in one piece.

use vstd::prelude::*;

use crate::config::RepeaterConfig;
use crate::error::RelayFault;
use crate::laws::{
    every_course_keeps_the_repeater_sound, keys_are_taken_and_given_up_in_turn, replay, Happening,
};
use crate::one_relay::{a_relay_comes_to_its_outcome, longest_relay, Surroundings};
use crate::relay::{BandState, Reception, RelayAction, Reply, RepeaterState, Stage};
use crate::repeater::CrossBandRepeater;
use crate::shared_ptt::PttKeyGuard;

verus! {

/// One request: what is asked for, and the frame that is lent meanwhile.
pub ghost struct Ask {
    pub action: RelayAction,
    pub frame: Option<Seq<u8>>,
}

/// A request made while a frame waits, or is transmitted.
pub open spec fn with(frame: Seq<u8>, action: RelayAction) -> Seq<Ask> {
    seq![Ask { action, frame: Some(frame) }]
}

/// A request made while there is no frame.
pub open spec fn bare(action: RelayAction) -> Seq<Ask> {
    seq![Ask { action, frame: None }]
}

/// `asks` where the condition holds, and nothing elsewhere.
pub open spec fn only_if(condition: bool, asks: Seq<Ask>) -> Seq<Ask> {
    if condition {
        asks
    } else {
        Seq::empty()
    }
}

impl Surroundings {
    /// The reply to a request.
    pub open spec fn answer(self, action: RelayAction) -> Reply {
        match action {
            RelayAction::Decode => Reply::Decoded(self.decoded),
            RelayAction::Extend(_) => Reply::Extended(self.alive),
            RelayAction::Sense => Reply::Sensed(self.band),
            RelayAction::Key => Reply::Keyed(self.keyed),
            RelayAction::NoteTx { .. } => Reply::TxNoted,
            RelayAction::TransmitFrame => Reply::Transmitted(self.sent),
            RelayAction::AskIdDue { .. } => Reply::IdDue(self.id_due),
            RelayAction::TransmitId => Reply::Transmitted(self.id_sent),
            RelayAction::MarkIdentified { .. } => Reply::IdMarked,
            RelayAction::Hang { .. } => Reply::HangOver,
            _ => Reply::Released,
        }
    }

    /// What is asked for, over at most that many replies, until the relay is over.
    pub open spec fn asked(self, s: RepeaterState, replies: nat) -> Seq<Ask>
        decreases replies,
    {
        if replies == 0 || s.action() is Rest || s.action() is ReadStop {
            Seq::empty()
        } else {
            seq![Ask { action: s.action(), frame: s.frame() }] + self.asked(
                s.next(self.answer(s.action())),
                (replies - 1) as nat,
            )
        }
    }

    /// The end of a relay whose frame is out: in full duplex the key is re-stamped and kept. In half
    /// duplex it is held for the configured hang, where there is one, and released.
    spec fn ending(self, s: RepeaterState, key: PttKeyGuard) -> Seq<Ask> {
        if s.settings.full_duplex {
            bare(RelayAction::Extend(key))
        } else {
            only_if(
                s.settings.tx_hang_ms > 0,
                bare(RelayAction::Hang { ms: s.settings.tx_hang_ms }),
            ) + bare(RelayAction::Release(key))
        }
    }

    /// What follows a frame that is out, where the station identifies itself.
    spec fn identifying(self, s: RepeaterState, now_ms: u64, key: PttKeyGuard) -> Seq<Ask> {
        bare(RelayAction::AskIdDue { now_ms }) + if !self.id_due {
            self.ending(s, key)
        } else {
            bare(RelayAction::TransmitId) + if self.id_sent is Ok {
                bare(RelayAction::MarkIdentified { now_ms }) + self.ending(s, key)
            } else {
                bare(RelayAction::Release(key))
            }
        }
    }

    /// What is asked for once a key is held.
    spec fn sending(
        self,
        s: RepeaterState,
        now_ms: u64,
        frame: Seq<u8>,
        key: PttKeyGuard,
    ) -> Seq<Ask> {
        only_if(s.id_interval_ms is Some, with(frame, RelayAction::NoteTx { now_ms })) + with(
            frame,
            RelayAction::TransmitFrame,
        ) + if self.sent is Err {
            bare(RelayAction::Release(key))
        } else if s.id_interval_ms is Some {
            self.identifying(s, now_ms, key)
        } else {
            self.ending(s, key)
        }
    }

    /// What is asked for where no key is held.
    spec fn seeking(self, s: RepeaterState, now_ms: u64, frame: Seq<u8>) -> Seq<Ask> {
        only_if(s.settings.carrier_sense, with(frame, RelayAction::Sense)) + only_if(
            !s.settings.carrier_sense || self.band is Clear,
            with(frame, RelayAction::Key) + only_if(
                self.keyed is Ok,
                self.sending(s, now_ms, frame, self.keyed->Ok_0),
            ),
        )
    }
}

/// The relay of a burst that arrived at `now_ms`, from beginning to end, as its caller sees it.
///
/// The burst is decoded. Where that yields something, a key held across frames is re-stamped, and
/// used if it is still there; otherwise the band is sensed, where that is configured, and a key is
/// taken, unless the band bars it. The timer hears of the transmission, where there is one, and the
/// frame that was decoded is lent to be transmitted. If that succeeds, the timer is asked about the
/// identification, which follows where it is due, and is marked if it went out. In full duplex the
/// key is then re-stamped and kept; in half duplex it is held for the configured hang, if any, and
/// released. After a failed transmission it is released at once. The timer always gets the time at
/// which the burst arrived.
pub proof fn a_relay_asks_for_just_this(s: RepeaterState, around: Surroundings, now_ms: u64)
    requires
        s.wf(),
        s.action() == RelayAction::Rest,
        s.settings.enabled,
    ensures
        ({
            let settings = s.settings;
            let identifies = s.id_interval_ms is Some;
            let frame = around.decoded->Ok_0;
            let kept = s.held() is Some && around.alive;
            let key = if kept {
                s.held()->0
            } else {
                around.keyed->Ok_0
            };
            let ending = if settings.full_duplex {
                bare(RelayAction::Extend(key))
            } else {
                only_if(
                    settings.tx_hang_ms > 0,
                    bare(RelayAction::Hang { ms: settings.tx_hang_ms }),
                ) + bare(RelayAction::Release(key))
            };
            let identifying = bare(RelayAction::AskIdDue { now_ms }) + if !around.id_due {
                ending
            } else {
                bare(RelayAction::TransmitId) + if around.id_sent is Ok {
                    bare(RelayAction::MarkIdentified { now_ms }) + ending
                } else {
                    bare(RelayAction::Release(key))
                }
            };
            let sending = only_if(identifies, with(frame, RelayAction::NoteTx { now_ms })) + with(
                frame,
                RelayAction::TransmitFrame,
            ) + if around.sent is Err {
                bare(RelayAction::Release(key))
            } else if identifies {
                identifying
            } else {
                ending
            };
            let seeking = only_if(settings.carrier_sense, with(frame, RelayAction::Sense))
                + only_if(
                !settings.carrier_sense || around.band is Clear,
                with(frame, RelayAction::Key) + only_if(around.keyed is Ok, sending),
            );
            around.asked(s.relay_started(now_ms), longest_relay()) =~= bare(RelayAction::Decode)
                + if around.decoded is Err || frame.len() == 0 {
                Seq::empty()
            } else if s.held() is None {
                seeking
            } else if around.alive {
                with(frame, RelayAction::Extend(s.held()->0)) + sending
            } else {
                with(frame, RelayAction::Extend(s.held()->0)) + seeking
            }
        }),
{
    lemma_whole(s.relay_started(now_ms), around, now_ms);
}

impl Surroundings {
    /// The transcript of a relay, by its parts.
    spec fn whole(self, s: RepeaterState, now_ms: u64) -> Seq<Ask> {
        let frame = self.decoded->Ok_0;
        bare(RelayAction::Decode) + if !(self.decoded is Ok && frame.len() > 0) {
            Seq::empty()
        } else {
            match s.session_key {
                None => self.seeking(s, now_ms, frame),
                Some(key) => with(frame, RelayAction::Extend(key)) + if self.alive {
                    self.sending(s, now_ms, frame, key)
                } else {
                    self.seeking(s, now_ms, frame)
                },
            }
        }
    }
}

proof fn lemma_asked_once(around: Surroundings, s: RepeaterState, n: nat)
    requires
        n > 0,
        !(s.action() is Rest),
        !(s.action() is ReadStop),
    ensures
        around.asked(s, n) == seq![Ask { action: s.action(), frame: s.frame() }] + around.asked(
            s.next(around.answer(s.action())),
            (n - 1) as nat,
        ),
{
}

proof fn lemma_ending(
    around: Surroundings,
    t: RepeaterState,
    sent: nat,
    key: PttKeyGuard,
    n: nat,
)
    requires
        t.session_key is None,
        n >= 2,
    ensures
        around.asked(t.sent(sent, key), n) =~= around.ending(t, key),
{
    let first = t.sent(sent, key);
    lemma_asked_once(around, first, n);
    let second = first.next(around.answer(first.action()));
    if first.stage is Hang {
        lemma_asked_once(around, second, (n - 1) as nat);
        let third = second.next(around.answer(second.action()));
        assert(around.asked(third, (n - 2) as nat) =~= Seq::<Ask>::empty());
    } else {
        assert(around.asked(second, (n - 1) as nat) =~= Seq::<Ask>::empty());
    }
}

proof fn lemma_giving_up(around: Surroundings, t: RepeaterState, n: nat)
    requires
        t.session_key is None,
        t.stage is Release,
        t.stage->Release_outcome is Err,
        n >= 1,
    ensures
        around.asked(t, n) =~= bare(RelayAction::Release(t.stage->Release_key)),
{
    lemma_asked_once(around, t, n);
    let over = t.next(around.answer(t.action()));
    assert(around.asked(over, (n - 1) as nat) =~= Seq::<Ask>::empty());
}

proof fn lemma_identifying(
    around: Surroundings,
    t: RepeaterState,
    now_ms: u64,
    sent: nat,
    key: PttKeyGuard,
    n: nat,
)
    requires
        t.session_key is None,
        n >= 5,
    ensures
        around.asked(t.at(Stage::AskIdDue { now_ms, sent, key }), n) =~= around.identifying(
            t,
            now_ms,
            key,
        ),
{
    let asking = t.at(Stage::AskIdDue { now_ms, sent, key });
    lemma_asked_once(around, asking, n);
    if around.id_due {
        let sending = t.at(Stage::TransmitId { now_ms, sent, key });
        assert(asking.next(around.answer(asking.action())) == sending);
        lemma_asked_once(around, sending, (n - 1) as nat);
        let third = sending.next(around.answer(sending.action()));
        if around.id_sent is Ok {
            assert(third == t.at(Stage::MarkIdentified { now_ms, sent, key }));
            lemma_asked_once(around, third, (n - 2) as nat);
            assert(third.next(around.answer(third.action())) == t.sent(sent, key));
            lemma_ending(around, t, sent, key, (n - 3) as nat);
        } else {
            lemma_giving_up(around, third, (n - 2) as nat);
        }
    } else {
        assert(asking.next(around.answer(asking.action())) == t.sent(sent, key));
        lemma_ending(around, t, sent, key, (n - 1) as nat);
    }
}

proof fn lemma_sending(
    around: Surroundings,
    t: RepeaterState,
    now_ms: u64,
    frame: Seq<u8>,
    key: PttKeyGuard,
    n: nat,
)
    requires
        t.session_key is None,
        n >= 7,
    ensures
        around.asked(t.transmitting(now_ms, frame, key), n) =~= around.sending(
            t,
            now_ms,
            frame,
            key,
        ),
{
    let first = t.transmitting(now_ms, frame, key);
    let sending = t.at(Stage::TransmitFrame { now_ms, frame, key });
    let m: nat = if t.id_interval_ms is Some {
        lemma_asked_once(around, first, n);
        assert(first.next(around.answer(first.action())) == sending);
        (n - 1) as nat
    } else {
        n
    };
    lemma_asked_once(around, sending, m);
    let next = sending.next(around.answer(sending.action()));
    if around.sent is Err {
        lemma_giving_up(around, next, (m - 1) as nat);
    } else if t.id_interval_ms is Some {
        assert(next == t.at(Stage::AskIdDue { now_ms, sent: frame.len(), key }));
        lemma_identifying(around, t, now_ms, frame.len(), key, (m - 1) as nat);
    } else {
        assert(next == t.sent(frame.len(), key));
        lemma_ending(around, t, frame.len(), key, (m - 1) as nat);
    }
}

proof fn lemma_seeking(
    around: Surroundings,
    t: RepeaterState,
    now_ms: u64,
    frame: Seq<u8>,
    n: nat,
)
    requires
        t.session_key is None,
        n >= 9,
    ensures
        around.asked(t.acquiring(now_ms, frame), n) =~= around.seeking(t, now_ms, frame),
{
    let first = t.acquiring(now_ms, frame);
    lemma_asked_once(around, first, n);
    let second = first.next(around.answer(first.action()));
    if t.settings.carrier_sense && !(around.band is Clear) {
        assert(around.asked(second, (n - 1) as nat) =~= Seq::<Ask>::empty());
    } else {
        let u = if t.settings.carrier_sense {
            RepeaterState { sense_faults: 0, ..t }
        } else {
            t
        };
        let keying = u.at(Stage::Key { now_ms, frame });
        let m: nat = if t.settings.carrier_sense {
            assert(second == keying);
            (n - 1) as nat
        } else {
            assert(first == keying);
            n
        };
        lemma_asked_once(around, keying, m);
        let next = keying.next(around.answer(keying.action()));
        match around.keyed {
            Err(_) => {
                assert(around.asked(next, (m - 1) as nat) =~= Seq::<Ask>::empty());
            },
            Ok(key) => {
                assert(next == u.transmitting(now_ms, frame, key));
                lemma_sending(around, u, now_ms, frame, key, (m - 1) as nat);
                assert(around.sending(u, now_ms, frame, key) == around.sending(
                    t,
                    now_ms,
                    frame,
                    key,
                ));
            },
        }
    }
}

proof fn lemma_whole(s: RepeaterState, around: Surroundings, now_ms: u64)
    requires
        s.wf(),
        s.stage == (Stage::Decode { now_ms }),
    ensures
        around.asked(s, longest_relay()) =~= around.whole(s, now_ms),
{
    lemma_asked_once(around, s, 11);
    let second = s.next(around.answer(s.action()));
    if !(around.decoded is Ok && around.decoded->Ok_0.len() > 0) {
        assert(around.asked(second, 10) =~= Seq::<Ask>::empty());
    } else {
        let frame = around.decoded->Ok_0;
        match s.session_key {
            None => {
                assert(second == s.acquiring(now_ms, frame));
                lemma_seeking(around, s, now_ms, frame, 10);
            },
            Some(key) => {
                let u = RepeaterState { session_key: None, ..s };
                assert(second == u.at(Stage::Extend { now_ms, frame, key }));
                lemma_asked_once(around, second, 10);
                let third = second.next(around.answer(second.action()));
                if around.alive {
                    assert(third == u.transmitting(now_ms, frame, key));
                    lemma_sending(around, u, now_ms, frame, key, 9);
                    assert(around.sending(u, now_ms, frame, key) == around.sending(
                        s,
                        now_ms,
                        frame,
                        key,
                    ));
                } else {
                    assert(third == u.acquiring(now_ms, frame));
                    lemma_seeking(around, u, now_ms, frame, 9);
                    assert(around.seeking(u, now_ms, frame) == around.seeking(s, now_ms, frame));
                }
            },
        }
    }
}

/// A relay asks for the same things within a session and outside of one.
pub(crate) proof fn lemma_same_transcript(
    s: RepeaterState,
    t: RepeaterState,
    around: Surroundings,
    now_ms: u64,
)
    requires
        s.wf(),
        t.wf(),
        s.stage == (Stage::Decode { now_ms }),
        t.stage == s.stage,
        t.settings == s.settings,
        t.id_interval_ms == s.id_interval_ms,
        t.session_key == s.session_key,
    ensures
        around.asked(s, longest_relay()) =~= around.asked(t, longest_relay()),
{
    lemma_whole(s, around, now_ms);
    lemma_whole(t, around, now_ms);
    let frame = around.decoded->Ok_0;
    assert(around.seeking(s, now_ms, frame) == around.seeking(t, now_ms, frame));
    if s.session_key is Some {
        let key = s.session_key->0;
        assert(around.sending(s, now_ms, frame, key) == around.sending(t, now_ms, frame, key));
    }
}

/// What a relay returns, by what it met. It reports a frame exactly where one was decoded, a key was
/// there for it, and everything that was transmitted went out; the number is that of the bytes that
/// were decoded. A burst without a frame, and one that the band barred, is no failure, unless the
/// band has now been unreadable ten times in a row. Otherwise the relay returns what went wrong.
pub proof fn a_relay_reports_what_it_did(s: RepeaterState, around: Surroundings, now_ms: u64)
    requires
        s.wf(),
        s.action() == RelayAction::Rest,
        s.settings.enabled,
        s.sense_faults < u64::MAX,
    ensures
        ({
            let done = around.driven(s.relay_started(now_ms), longest_relay());
            let found = around.decoded is Ok && around.decoded->Ok_0.len() > 0;
            let kept = s.held() is Some && around.alive;
            let barred = !kept && s.settings.carrier_sense && !(around.band is Clear);
            let id_out = s.id_interval_ms is Some && around.id_due;
            &&& done.action() is Rest
            &&& done.stage == Stage::Relayed(
                if !found {
                    Ok(None)
                } else if barred {
                    if around.band is Unreadable && s.sense_faults + 1 >= 10 {
                        Err(
                            RelayFault::Modem(
                                "the output band could not be sensed too many times in a row"@,
                            ),
                        )
                    } else {
                        Ok(None)
                    }
                } else if !kept && around.keyed is Err {
                    Err(RelayFault::Ptt(around.keyed->Err_0))
                } else if around.sent is Err {
                    Err(RelayFault::Modem(around.sent->Err_0))
                } else if id_out && around.id_sent is Err {
                    Err(RelayFault::Modem(around.id_sent->Err_0))
                } else {
                    Ok(Some(around.decoded->Ok_0.len()))
                },
            )
            &&& done.deferred == if found && barred && s.deferred < u64::MAX {
                s.deferred + 1
            } else {
                s.deferred
            }
            &&& done.sense_faults == if !found || kept || !s.settings.carrier_sense {
                s.sense_faults
            } else {
                match around.band {
                    BandState::Clear => 0,
                    BandState::Busy => s.sense_faults,
                    BandState::Unreadable => s.sense_faults + 1,
                }
            }
        }),
{
    a_relay_comes_to_its_outcome(s.relay_started(now_ms), around);
}

/// What is answered is what is asked for: the replies by which a relay is driven go by its requests.
pub proof fn replies_go_by_what_is_asked(s: RepeaterState, around: Surroundings)
    ensures
        around.reply_to(s.stage) == around.answer(s.action()),
{
}

impl RepeaterState {
    /// What the last burst decoded to, over a course of events: the bytes of the last reply to a
    /// request to decode.
    pub open spec fn last_decoded(self, course: Seq<Happening>) -> Option<Seq<u8>>
        decreases course.len(),
    {
        if course.len() == 0 {
            None
        } else {
            match (self.after_all(course.drop_last()).action(), course.last()) {
                (RelayAction::Decode, Happening::Reply(Reply::Decoded(Ok(bytes)))) => Some(bytes),
                (RelayAction::Decode, Happening::Reply(Reply::Decoded(Err(_)))) => None,
                _ => self.last_decoded(course.drop_last()),
            }
        }
    }

    /// When the last burst arrived, over a course of events: the time with which a relay was begun,
    /// or that of the last burst that was received when it was asked for.
    pub open spec fn last_arrival(self, course: Seq<Happening>) -> Option<u64>
        decreases course.len(),
    {
        if course.len() == 0 {
            None
        } else {
            match (self.after_all(course.drop_last()).action(), course.last()) {
                (RelayAction::Rest, Happening::Relay(now_ms)) => Some(now_ms),
                (
                    RelayAction::Receive { .. },
                    Happening::Reply(Reply::Received(Reception::Burst { now_ms })),
                ) => Some(now_ms),
                _ => self.last_arrival(course.drop_last()),
            }
        }
    }

    /// When the burst that is being relayed arrived.
    spec fn burst_time(self) -> Option<u64> {
        match self.stage {
            Stage::Decode { now_ms } => Some(now_ms),
            Stage::Extend { now_ms, .. } => Some(now_ms),
            Stage::Sense { now_ms, .. } => Some(now_ms),
            Stage::Key { now_ms, .. } => Some(now_ms),
            Stage::NoteTx { now_ms, .. } => Some(now_ms),
            Stage::TransmitFrame { now_ms, .. } => Some(now_ms),
            Stage::AskIdDue { now_ms, .. } => Some(now_ms),
            Stage::TransmitId { now_ms, .. } => Some(now_ms),
            Stage::MarkIdentified { now_ms, .. } => Some(now_ms),
            _ => None,
        }
    }
}

/// The frame that is lent is the one that was decoded, byte for byte and of whatever length, in a
/// session as outside of one, and it is there whenever it is to be transmitted. The same holds while
/// it waits for the band, for a key or for the timer.
pub proof fn the_frame_that_is_lent_is_what_was_decoded(s: RepeaterState, course: Seq<Happening>)
    requires
        s.wf(),
        s.action() == RelayAction::Rest,
    ensures
        ({
            let now = s.after_all(course);
            &&& now.frame() is Some ==> now.frame() == s.last_decoded(course)
            &&& match now.action() {
                RelayAction::Sense | RelayAction::Key | RelayAction::TransmitFrame => now.frame()
                    is Some,
                RelayAction::NoteTx { .. } => now.frame() is Some,
                RelayAction::Extend(_) | RelayAction::Release(_) => true,
                _ => now.frame() is None,
            }
        }),
    decreases course.len(),
{
    if course.len() > 0 {
        the_frame_that_is_lent_is_what_was_decoded(s, course.drop_last());
    }
}

/// A caller that is asked to transmit the frame gets the bytes that were decoded.
pub proof fn a_caller_gets_the_frame_to_transmit(
    s: RepeaterState,
    course: Seq<Happening>,
    repeater: CrossBandRepeater,
    action: RelayAction,
    frame: Option<&Vec<u8>>,
)
    requires
        s.wf(),
        s.action() == RelayAction::Rest,
        repeater@ == s.after_all(course),
        call_ensures(CrossBandRepeater::action, (&repeater,), action),
        call_ensures(CrossBandRepeater::frame, (&repeater,), frame),
        action == RelayAction::TransmitFrame,
    ensures
        frame matches Some(bytes) && s.last_decoded(course) == Some(bytes@),
{
    the_frame_that_is_lent_is_what_was_decoded(s, course);
}

/// The identification timer gets the time at which the burst arrived that is being relayed: the one
/// with which the relay was begun, or in a session the one with which the burst was received.
pub proof fn the_timer_gets_the_time_of_the_burst(s: RepeaterState, course: Seq<Happening>)
    requires
        s.wf(),
        s.action() == RelayAction::Rest,
    ensures
        match s.after_all(course).action() {
            RelayAction::NoteTx { now_ms } => s.last_arrival(course) == Some(now_ms),
            RelayAction::AskIdDue { now_ms } => s.last_arrival(course) == Some(now_ms),
            RelayAction::MarkIdentified { now_ms } => s.last_arrival(course) == Some(now_ms),
            _ => true,
        },
{
    lemma_burst_time(s, course);
}

proof fn lemma_burst_time(s: RepeaterState, course: Seq<Happening>)
    requires
        s.wf(),
        s.action() == RelayAction::Rest,
    ensures
        s.after_all(course).burst_time() is Some ==> s.after_all(course).burst_time()
            == s.last_arrival(course),
    decreases course.len(),
{
    if course.len() > 0 {
        lemma_burst_time(s, course.drop_last());
    }
}

/// In half duplex with a hang configured, a key is released only after it was held that long, with
/// and without identification, alone and in a session. Only a transmission that failed has it
/// released at once.
pub proof fn the_key_hangs_before_it_is_released(s: RepeaterState, what: Happening)
    requires
        s.wf(),
        !s.settings.full_duplex,
        s.settings.tx_hang_ms > 0,
        !(what is Abandon),
        !(s.action() is Release),
        s.after(what).action() is Release,
    ensures
        s.action() == (RelayAction::Hang { ms: s.settings.tx_hang_ms }) && what == Happening::Reply(
            Reply::HangOver,
        ) || what matches Happening::Reply(Reply::Transmitted(Err(_))),
{
}

/// The key is held on after a transmission only in half duplex, only where a hang is configured, and
/// for just that long. It comes after the last thing that was transmitted, and the timer was told.
pub proof fn a_hang_is_as_configured(s: RepeaterState, what: Happening, ms: u64)
    requires
        s.wf(),
        !(s.action() is Hang),
        s.after(what).action() == (RelayAction::Hang { ms }),
    ensures
        ms == s.settings.tx_hang_ms,
        ms > 0,
        !s.settings.full_duplex,
        match s.action() {
            RelayAction::TransmitFrame => s.id_interval_ms is None && (
            what matches Happening::Reply(Reply::Transmitted(Ok(_)))),
            RelayAction::AskIdDue { .. } => what == Happening::Reply(Reply::IdDue(false)),
            RelayAction::MarkIdentified { .. } => what == Happening::Reply(Reply::IdMarked),
            _ => false,
        },
{
}

/// Whether a reply is to this request.
pub open spec fn is_reply_to(reply: Reply, action: RelayAction) -> bool {
    match reply {
        Reply::Drained => action is DrainBursts,
        Reply::SensorOpened(_) => action is OpenSensor,
        Reply::StopRead(_) => action is ReadStop,
        Reply::Received(_) => action is Receive,
        Reply::Decoded(_) => action is Decode,
        Reply::Extended(_) => action is Extend,
        Reply::Sensed(_) => action is Sense,
        Reply::Keyed(_) => action is Key,
        Reply::TxNoted => action is NoteTx,
        Reply::Transmitted(_) => action is TransmitFrame || action is TransmitId,
        Reply::IdDue(_) => action is AskIdDue,
        Reply::IdMarked => action is MarkIdentified,
        Reply::HangOver => action is Hang,
        Reply::Released => action is Release,
    }
}

/// The reply to a request moves the repeater on, and any other reply leaves it exactly as it was.
pub proof fn only_the_reply_to_a_request_counts(s: RepeaterState, reply: Reply)
    ensures
        is_reply_to(reply, s.action()) ==> s.next(reply).stage != s.stage,
        !is_reply_to(reply, s.action()) ==> s.next(reply) == s,
{
}

/// A repeater that is at work is not disturbed: neither a relay nor a session that is asked for then
/// changes anything, and there is no result to take. It is at work exactly while it asks for
/// something.
pub proof fn work_under_way_is_not_disturbed(s: RepeaterState, now_ms: u64)
    ensures
        s.at_rest() <==> s.action() == RelayAction::Rest,
        s.action() != RelayAction::Rest ==> s.relay_started(now_ms) == s,
        s.action() != RelayAction::Rest ==> s.session_started() == s,
        s.action() != RelayAction::Rest ==> s.collected() == s,
{
}

/// A relay that is asked for begins with the decoding of the burst, and with nothing else: what is
/// held and what was counted stays. It begins whatever the last relay or session came to.
pub proof fn a_relay_begins_with_the_decoding(s: RepeaterState, now_ms: u64)
    requires
        s.action() == RelayAction::Rest,
        s.settings.enabled,
    ensures
        ({
            let begun = s.relay_started(now_ms);
            &&& begun.action() == RelayAction::Decode
            &&& begun.frame() is None
            &&& begun.held() == s.session_key
            &&& begun.session == s.session
            &&& begun.deferred == s.deferred
            &&& begun.sense_faults == s.sense_faults
            &&& begun.settings == s.settings
            &&& begun.id_interval_ms == s.id_interval_ms
        }),
{
}

/// What is counted changes with what is counted, and with nothing else. A burst is counted as
/// dropped exactly where the band was sensed and not found clear, whatever else happens. Sensing
/// faults in a row are counted up by a band that cannot be read, and forgotten when it is found
/// clear, when a session begins and when whatever is under way breaks off.
pub proof fn counts_change_only_with_what_they_count(s: RepeaterState, what: Happening)
    ensures
        ({
            let after = s.after(what);
            let reading = if s.action() == RelayAction::Sense {
                match what {
                    Happening::Reply(Reply::Sensed(band)) => Some(band),
                    _ => None,
                }
            } else {
                None
            };
            let barred = reading is Some && reading->0 != BandState::Clear;
            let starts = what is Session && s.action() == RelayAction::Rest && s.settings.enabled;
            &&& barred && s.deferred < u64::MAX ==> after.deferred == s.deferred + 1
            &&& !barred ==> after.deferred == s.deferred
            &&& after.sense_faults == if starts || what is Abandon {
                0
            } else {
                match reading {
                    Some(BandState::Clear) => 0,
                    Some(BandState::Unreadable) => if s.sense_faults < u64::MAX {
                        s.sense_faults + 1
                    } else {
                        s.sense_faults
                    },
                    _ => s.sense_faults,
                }
            }
        }),
{
}

/// A new repeater is as it was configured, and identifies itself as often as the configuration says.
/// It holds no key, has counted nothing, and asks for nothing.
pub proof fn a_new_repeater_is_as_configured(
    config: RepeaterConfig,
    repeater: CrossBandRepeater,
    interval_ms: Option<u64>,
)
    requires
        call_ensures(CrossBandRepeater::new, (config,), repeater),
        call_ensures(RepeaterConfig::id_interval_ms, (&config,), interval_ms),
    ensures
        repeater@.settings == config@,
        repeater@.held() is None,
        repeater@.session is None,
        repeater@.deferred == 0,
        repeater@.sense_faults == 0,
        repeater@.action() == RelayAction::Rest,
        repeater@.wf(),
        repeater@.id_interval_ms == interval_ms,
{
}

/// What a caller can ask a repeater about itself, at any time after it was made: the mode and the
/// identification are those of its configuration, the key is the one that was taken and not given
/// up since, and it is at rest exactly while it asks for nothing.
pub proof fn a_caller_is_told_what_is(
    config: RepeaterConfig,
    fresh: CrossBandRepeater,
    course: Seq<Happening>,
    repeater: CrossBandRepeater,
    mode: &str,
    body: String,
    deferred: u64,
    key: Option<PttKeyGuard>,
    rest: bool,
    action: RelayAction,
)
    requires
        call_ensures(CrossBandRepeater::new, (config,), fresh),
        repeater@ == fresh@.after_all(course),
        call_ensures(CrossBandRepeater::mode, (&repeater,), mode),
        call_ensures(CrossBandRepeater::id_body, (&repeater,), body),
        call_ensures(CrossBandRepeater::bursts_deferred, (&repeater,), deferred),
        call_ensures(CrossBandRepeater::held_key, (&repeater,), key),
        call_ensures(CrossBandRepeater::is_at_rest, (&repeater,), rest),
        call_ensures(CrossBandRepeater::action, (&repeater,), action),
    ensures
        mode@ == config.mode@,
        body@ == "DE "@ + config.callsign@,
        deferred == fresh@.after_all(course).deferred,
        replay(None, fresh@.edges(course)) == Some(key),
        rest <==> action == RelayAction::Rest,
        match action {
            RelayAction::Extend(k) => key == Some(k),
            RelayAction::Release(k) => key == Some(k),
            RelayAction::TransmitFrame | RelayAction::TransmitId => key is Some,
            RelayAction::Sense | RelayAction::Key => key is None,
            RelayAction::Receive { timeout_ms } => timeout_ms == 100,
            RelayAction::Hang { ms } => ms == config.tx_hang_ms,
            _ => true,
        },
{
    every_course_keeps_the_repeater_sound(fresh@, course);
    keys_are_taken_and_given_up_in_turn(fresh@, course);
}

} // verus!
