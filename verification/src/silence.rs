//! The repeater and the transmitter's key together.
//!
//! The repeater believes in a key, and the keying state knows whether it is live. Here both run side
//! by side, with the watchdog looking in between, and it is shown that the bound on a key held
//! across frames measures silence: traffic keeps the key, and a key lost to silence is replaced.

use vstd::prelude::*;

use crate::laws::Happening;
use crate::relay::{Reply, RepeaterState, Stage};
use crate::shared_ptt::{KeyEvent, KeyState, PttKeyGuard};

verus! {

/// A repeater and the keying state of its transmitter.
pub ghost struct Station {
    pub repeater: RepeaterState,
    pub ptt: KeyState,
    /// The name that the repeater takes its keys under.
    pub held_by: Seq<char>,
}

/// What can happen to a station.
pub ghost enum Beat {
    /// Something happens to the repeater at this time. `hardware_ok` says how the hardware fares
    /// where it is driven.
    Does { what: Happening, at_ms: nat, hardware_ok: bool },
    /// The watchdog looks at this time.
    Watch { at_ms: nat, hardware_ok: bool },
}

impl Station {
    /// What a happening at the repeater does to the keying state: the repeater's request for a key,
    /// a stamp or a release is carried out before it is answered.
    pub open spec fn request(self, what: Happening, at_ms: nat, hardware_ok: bool) -> Option<
        KeyEvent,
    > {
        match (self.repeater.stage, what) {
            (Stage::Extend { key, .. }, Happening::Reply(Reply::Extended(_))) => Some(
                KeyEvent::Extended { generation: key.generation(), now_ms: at_ms },
            ),
            (Stage::Restamp { key, .. }, Happening::Reply(Reply::Extended(_))) => Some(
                KeyEvent::Extended { generation: key.generation(), now_ms: at_ms },
            ),
            (Stage::Key { .. }, Happening::Reply(Reply::Keyed(_))) => Some(
                KeyEvent::Keyed { held_by: self.held_by, now_ms: at_ms, hardware_ok },
            ),
            (Stage::Release { key, .. }, Happening::Reply(Reply::Released)) => Some(
                KeyEvent::Released { generation: key.generation(), hardware_ok },
            ),
            (Stage::EndSession { key, .. }, Happening::Reply(Reply::Released)) => Some(
                KeyEvent::Released { generation: key.generation(), hardware_ok },
            ),
            (Stage::Abandon { key }, Happening::Reply(Reply::Released)) => Some(
                KeyEvent::Released { generation: key.generation(), hardware_ok },
            ),
            _ => None,
        }
    }

    /// Whether the repeater is answered as the keying state answers: a stamp succeeds where the key
    /// is live, and a key is granted, under the next generation, where none is live and the
    /// hardware keys.
    pub open spec fn truthful(self, beat: Beat) -> bool {
        match beat {
            Beat::Does { what, hardware_ok, .. } => match (self.repeater.stage, what) {
                (Stage::Extend { key, .. }, Happening::Reply(Reply::Extended(alive))) => alive
                    == self.ptt.holds(key.generation()),
                (Stage::Restamp { key, .. }, Happening::Reply(Reply::Extended(alive))) => alive
                    == self.ptt.holds(key.generation()),
                (Stage::Key { .. }, Happening::Reply(Reply::Keyed(Ok(key)))) => {
                    &&& self.ptt.live is None
                    &&& self.ptt.done(hardware_ok)
                    &&& key.generation() == self.ptt.issued + 1
                },
                (Stage::Key { .. }, Happening::Reply(Reply::Keyed(Err(_)))) => self.ptt.live is Some
                    || !self.ptt.done(hardware_ok),
                _ => true,
            },
            Beat::Watch { .. } => true,
        }
    }

    /// After one beat.
    pub open spec fn after(self, beat: Beat) -> Station {
        match beat {
            Beat::Does { what, at_ms, hardware_ok } => Station {
                repeater: self.repeater.after(what),
                ptt: match self.request(what, at_ms, hardware_ok) {
                    Some(event) => self.ptt.after(event),
                    None => self.ptt,
                },
                ..self
            },
            Beat::Watch { at_ms, hardware_ok } => Station {
                ptt: self.ptt.watched(at_ms, hardware_ok),
                ..self
            },
        }
    }

    /// After a sequence of beats.
    pub open spec fn after_all(self, beats: Seq<Beat>) -> Station
        decreases beats.len(),
    {
        if beats.len() == 0 {
            self
        } else {
            self.after_all(beats.drop_last()).after(beats.last())
        }
    }

    /// Whether every answer in a sequence of beats is the keying state's.
    pub open spec fn all_truthful(self, beats: Seq<Beat>) -> bool
        decreases beats.len(),
    {
        beats.len() == 0 || {
            &&& self.all_truthful(beats.drop_last())
            &&& self.after_all(beats.drop_last()).truthful(beats.last())
        }
    }

    /// Whether the beat completes the relay of a frame.
    pub open spec fn completes(self, beat: Beat) -> bool {
        match beat {
            Beat::Does { what: Happening::Reply(reply), .. } => self.repeater.completes(reply),
            _ => false,
        }
    }

    /// Whether the beat is a stamp of the key.
    pub open spec fn stamps(self, beat: Beat) -> bool {
        match beat {
            Beat::Does { what: Happening::Reply(Reply::Extended(_)), .. } => self.repeater.stage
                is Extend || self.repeater.stage is Restamp,
            _ => false,
        }
    }

    /// When the key was last stamped, after a stamp at `from_ms` and a sequence of beats.
    pub open spec fn last_stamp(self, beats: Seq<Beat>, from_ms: nat) -> nat
        decreases beats.len(),
    {
        if beats.len() == 0 {
            from_ms
        } else if self.after_all(beats.drop_last()).stamps(beats.last()) {
            time_of(beats.last())
        } else {
            self.last_stamp(beats.drop_last(), from_ms)
        }
    }

    /// Whether the repeater is giving its key up.
    pub open spec fn gives_up(self) -> bool {
        self.repeater.stage is Release || self.repeater.stage is EndSession || self.repeater.stage
            is Abandon
    }

    /// Whether the traffic is steady, after a stamp at `from_ms`: the repeater does not give its key
    /// up, and the watchdog never finds a whole bound gone since the last stamp.
    pub open spec fn steady(self, beats: Seq<Beat>, from_ms: nat) -> bool
        decreases beats.len(),
    {
        beats.len() == 0 || {
            let earlier = beats.drop_last();
            let before = self.after_all(earlier);
            &&& self.steady(earlier, from_ms)
            &&& match beats.last() {
                Beat::Watch { at_ms, .. } => at_ms < self.last_stamp(earlier, from_ms)
                    + self.ptt.max_ms,
                Beat::Does { at_ms, .. } => at_ms + self.ptt.max_ms <= u64::MAX && !before.after(
                    beats.last(),
                ).gives_up(),
            }
        }
    }

    /// Whether the repeater holds `key`, and it is live, stamped at `stamp_ms`.
    pub open spec fn holds_live(self, key: PttKeyGuard, stamp_ms: nat) -> bool {
        &&& self.repeater.wf()
        &&& self.repeater.held() == Some(key)
        &&& !self.gives_up()
        &&& self.ptt.live matches Some(live) && live.generation == key.generation()
            && live.deadline_ms == stamp_ms + self.ptt.max_ms
    }
}

/// When a beat happens.
pub open spec fn time_of(beat: Beat) -> nat {
    match beat {
        Beat::Does { at_ms, .. } => at_ms,
        Beat::Watch { at_ms, .. } => at_ms,
    }
}

/// Traffic keeps the key, however long it lasts and however many frames there are: as long as the
/// watchdog never finds a whole bound gone since the last stamp, the repeater holds the same key, it
/// is live until a whole bound after the last stamp, and no other was issued.
pub proof fn steady_traffic_keeps_the_repeaters_key(
    st: Station,
    key: PttKeyGuard,
    beats: Seq<Beat>,
    from_ms: nat,
)
    requires
        st.holds_live(key, from_ms),
        st.all_truthful(beats),
        st.steady(beats, from_ms),
    ensures
        st.after_all(beats).holds_live(key, st.last_stamp(beats, from_ms)),
        st.after_all(beats).ptt.issued == st.ptt.issued,
        st.after_all(beats).ptt.max_ms == st.ptt.max_ms,
    decreases beats.len(),
{
    if beats.len() > 0 {
        steady_traffic_keeps_the_repeaters_key(st, key, beats.drop_last(), from_ms);
        lemma_steady_beat(
            st.after_all(beats.drop_last()),
            key,
            beats.last(),
            st.last_stamp(beats.drop_last(), from_ms),
        );
    }
}

proof fn lemma_steady_beat(st: Station, key: PttKeyGuard, beat: Beat, stamp_ms: nat)
    requires
        st.holds_live(key, stamp_ms),
        st.truthful(beat),
        match beat {
            Beat::Watch { at_ms, .. } => at_ms < stamp_ms + st.ptt.max_ms,
            Beat::Does { at_ms, .. } => at_ms + st.ptt.max_ms <= u64::MAX && !st.after(
                beat,
            ).gives_up(),
        },
    ensures
        st.after(beat).holds_live(
            key,
            if st.stamps(beat) {
                time_of(beat)
            } else {
                stamp_ms
            },
        ),
        st.after(beat).ptt.issued == st.ptt.issued,
        st.after(beat).ptt.max_ms == st.ptt.max_ms,
{
}

/// A frame that comes before the bound has passed goes out under the key that is held, alone or in
/// a session. When its relay is complete, that key is still held, of the same generation, with a new
/// deadline, a whole bound after the relay's end. No other key was issued.
pub proof fn a_relay_within_the_bound_keeps_the_key(
    st: Station,
    key: PttKeyGuard,
    beats: Seq<Beat>,
    from_ms: nat,
)
    requires
        st.holds_live(key, from_ms),
        st.repeater.session_key == Some(key),
        st.all_truthful(beats),
        st.steady(beats, from_ms),
        beats.len() > 0,
        st.after_all(beats.drop_last()).completes(beats.last()),
    ensures
        st.after_all(beats).repeater.session_key == Some(key),
        st.after_all(beats).ptt.live matches Some(live) && live.generation == key.generation()
            && live.deadline_ms == time_of(beats.last()) + st.ptt.max_ms,
        st.after_all(beats).ptt.issued == st.ptt.issued,
{
    steady_traffic_keeps_the_repeaters_key(st, key, beats, from_ms);
    steady_traffic_keeps_the_repeaters_key(st, key, beats.drop_last(), from_ms);
}

/// A key lost to silence is replaced: once the watchdog took the key that the repeater holds across
/// frames, nothing goes out under it any more, and whatever goes out does so under a key of a later
/// generation.
pub proof fn a_key_lost_to_silence_is_followed_by_a_later_one(
    st: Station,
    key: PttKeyGuard,
    beats: Seq<Beat>,
)
    requires
        st.repeater.wf(),
        st.repeater.at_rest(),
        st.repeater.session_key == Some(key),
        st.ptt.wf(),
        key.generation() <= st.ptt.issued,
        !st.ptt.holds(key.generation()),
        st.all_truthful(beats),
    ensures
        ({
            let now = st.after_all(beats).repeater;
            now.stage is TransmitFrame || now.stage is TransmitId ==> (now.held() matches Some(k)
                && k.generation() > key.generation())
        }),
        !st.after_all(beats).ptt.holds(key.generation()),
        forall|granted: PttKeyGuard, at_ms: nat, hardware_ok: bool|
            st.after_all(beats).repeater.stage is Key && #[trigger] st.after_all(beats).truthful(
                says(Reply::Keyed(Ok(granted)), at_ms, hardware_ok),
            ) ==> granted.generation() > key.generation(),
{
    lemma_lost(st, key.generation(), beats);
}

impl Station {
    /// What holds once the key of a generation is gone: it is used for nothing but to find that out.
    spec fn without(self, generation: nat) -> bool {
        &&& self.repeater.wf()
        &&& self.ptt.wf()
        &&& generation <= self.ptt.issued
        &&& !self.ptt.holds(generation)
        &&& self.repeater.session_key matches Some(k) ==> k.generation() >= generation
        &&& match self.repeater.stage {
            Stage::Extend { key, .. } => key.generation() >= generation,
            Stage::EndSession { .. } => true,
            Stage::Abandon { .. } => true,
            _ => self.repeater.stage_key() matches Some(k) ==> k.generation() > generation,
        }
    }
}

proof fn lemma_lost(st: Station, generation: nat, beats: Seq<Beat>)
    requires
        st.without(generation),
        st.all_truthful(beats),
    ensures
        st.after_all(beats).without(generation),
    decreases beats.len(),
{
    if beats.len() > 0 {
        lemma_lost(st, generation, beats.drop_last());
        lemma_lost_beat(st.after_all(beats.drop_last()), generation, beats.last());
    }
}

proof fn lemma_lost_beat(st: Station, generation: nat, beat: Beat)
    requires
        st.without(generation),
        st.truthful(beat),
    ensures
        st.after(beat).without(generation),
{
}

/// Silence takes the key, and the next frame finds that out: when the watchdog looks a whole bound
/// after the last stamp, and the hardware releases, the key is gone. The next frame that decodes is
/// then answered so, and asks for a new key, which has a later generation.
pub proof fn silence_takes_the_key_and_the_next_frame_asks_for_another(
    st: Station,
    key: PttKeyGuard,
    stamp_ms: nat,
    look_ms: nat,
    now_ms: u64,
    frame: Seq<u8>,
    alive: bool,
    at_ms: nat,
    hardware_ok: bool,
)
    requires
        st.holds_live(key, stamp_ms),
        st.ptt.wf(),
        st.repeater.at_rest(),
        st.repeater.settings.enabled,
        look_ms >= stamp_ms + st.ptt.max_ms,
        frame.len() > 0,
        st.after(Beat::Watch { at_ms: look_ms, hardware_ok: true }).extending(
            now_ms,
            frame,
        ).truthful(says(Reply::Extended(alive), at_ms, hardware_ok)),
    ensures
        ({
            let silent = st.after(Beat::Watch { at_ms: look_ms, hardware_ok: true });
            let found = silent.extending(now_ms, frame).after(
                says(Reply::Extended(alive), at_ms, hardware_ok),
            );
            &&& silent.ptt.live is None
            &&& !alive
            &&& found.repeater.held() is None
            &&& found.repeater.stage == if st.repeater.settings.carrier_sense {
                Stage::Sense { now_ms, frame }
            } else {
                Stage::Key { now_ms, frame }
            }
            &&& found.ptt.issued + 1 > key.generation()
        }),
{
}

/// A reply that reaches the repeater at a time.
pub open spec fn says(reply: Reply, at_ms: nat, hardware_ok: bool) -> Beat {
    Beat::Does { what: Happening::Reply(reply), at_ms, hardware_ok }
}

impl Station {
    /// The station after a relay began with a burst that decodes to `frame`.
    pub open spec fn extending(self, now_ms: u64, frame: Seq<u8>) -> Station {
        Station {
            repeater: self.repeater.relay_started(now_ms).next(Reply::Decoded(Ok(frame))),
            ..self
        }
    }
}

} // verus!
