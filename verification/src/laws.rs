//! What holds of the repeater over any course of events.
//!
//! A course is a sequence of commands and replies, in any order and with any content: nothing is
//! presumed of the modem, the transmitter, the timer or the caller.

use vstd::prelude::*;

use crate::error::RelayFault;
use crate::relay::{
    bump, deaf_text, BandState, Reception, RelayAction, Reply, RepeaterState, Stage,
    MAX_SENSE_FAULTS,
};
use crate::shared_ptt::PttKeyGuard;

verus! {

/// What can happen to the repeater.
pub ghost enum Happening {
    /// A relay is asked for, of a burst that arrived at this time.
    Relay(u64),
    /// A session is asked for.
    Session,
    /// The caller lost control of what was under way.
    Abandon,
    /// The result of what is over is taken.
    Collect,
    /// A reply arrives.
    Reply(Reply),
}

impl RepeaterState {
    /// The repeater whose result was taken.
    pub open spec fn collected(self) -> RepeaterState {
        if self.stage is Relayed || self.stage is Finished {
            self.at(Stage::Rest)
        } else {
            self
        }
    }

    /// After one happening.
    pub open spec fn after(self, what: Happening) -> RepeaterState {
        match what {
            Happening::Relay(now_ms) => self.relay_started(now_ms),
            Happening::Session => self.session_started(),
            Happening::Abandon => self.abandoned(),
            Happening::Collect => self.collected(),
            Happening::Reply(reply) => self.next(reply),
        }
    }

    /// After a course of events.
    pub open spec fn after_all(self, course: Seq<Happening>) -> RepeaterState
        decreases course.len(),
    {
        if course.len() == 0 {
            self
        } else {
            self.after_all(course.drop_last()).after(course.last())
        }
    }
}

/// What every repeater is like stays so over any course of events.
pub proof fn every_course_keeps_the_repeater_sound(s: RepeaterState, course: Seq<Happening>)
    requires
        s.wf(),
    ensures
        s.after_all(course).wf(),
        s.after_all(course).settings == s.settings,
        s.after_all(course).id_interval_ms == s.id_interval_ms,
    decreases course.len(),
{
    if course.len() > 0 {
        every_course_keeps_the_repeater_sound(s, course.drop_last());
    }
}

/// In half duplex no key is held once a relay is over. In either mode none is held once a session
/// is over, or a relay failed.
pub proof fn no_key_outlives_its_use(s: RepeaterState, course: Seq<Happening>)
    requires
        s.wf(),
    ensures
        ({
            let now = s.after_all(course);
            &&& now.at_rest() && !s.settings.full_duplex ==> now.held() is None
            &&& now.stage is Finished ==> now.held() is None
            &&& now.stage matches Stage::Relayed(Err(_)) ==> now.held() is None
        }),
{
    every_course_keeps_the_repeater_sound(s, course);
}

/// A disabled repeater never asks for anything, and so never keys: a relay relays nothing, and a
/// session is over at once, with nothing relayed.
pub proof fn a_disabled_repeater_does_nothing(
    s: RepeaterState,
    course: Seq<Happening>,
    now_ms: u64,
)
    requires
        s.wf(),
        !s.settings.enabled,
    ensures
        s.after_all(course).action() is Rest,
        s.after_all(course).held() is None,
        s.after_all(course).relay_started(now_ms).stage == Stage::Relayed(Ok(None)),
        s.after_all(course).session_started().stage == Stage::Finished(Ok(0)),
{
    every_course_keeps_the_repeater_sound(s, course);
}

/// What happens to the transmitter's key.
pub ghost enum KeyEdge {
    /// It was taken.
    Taken(PttKeyGuard),
    /// It was released.
    Released(PttKeyGuard),
    /// It turned out that the watchdog had taken it away.
    Lost(PttKeyGuard),
}

impl RepeaterState {
    /// What a happening does to the key.
    pub open spec fn edge(self, what: Happening) -> Option<KeyEdge> {
        match (self.stage, what) {
            (Stage::Key { .. }, Happening::Reply(Reply::Keyed(Ok(key)))) => Some(
                KeyEdge::Taken(key),
            ),
            (Stage::Extend { key, .. }, Happening::Reply(Reply::Extended(false))) => Some(
                KeyEdge::Lost(key),
            ),
            (Stage::Release { key, .. }, Happening::Reply(Reply::Released)) => Some(
                KeyEdge::Released(key),
            ),
            (Stage::EndSession { key, .. }, Happening::Reply(Reply::Released)) => Some(
                KeyEdge::Released(key),
            ),
            (Stage::Abandon { key }, Happening::Reply(Reply::Released)) => Some(
                KeyEdge::Released(key),
            ),
            _ => None,
        }
    }

    /// What a course of events does to the key.
    pub open spec fn edges(self, course: Seq<Happening>) -> Seq<KeyEdge>
        decreases course.len(),
    {
        if course.len() == 0 {
            Seq::empty()
        } else {
            let before = self.edges(course.drop_last());
            match self.after_all(course.drop_last()).edge(course.last()) {
                Some(edge) => before.push(edge),
                None => before,
            }
        }
    }
}

/// The key that is held after `edges`, or nothing where they are out of order: a key taken while
/// one is held, or one given up that is not held.
pub open spec fn replay(held: Option<PttKeyGuard>, edges: Seq<KeyEdge>) -> Option<
    Option<PttKeyGuard>,
>
    decreases edges.len(),
{
    if edges.len() == 0 {
        Some(held)
    } else {
        match (replay(held, edges.drop_last()), edges.last()) {
            (Some(None), KeyEdge::Taken(key)) => Some(Some(key)),
            (Some(Some(key)), KeyEdge::Released(k)) => if k == key {
                Some(None)
            } else {
                None
            },
            (Some(Some(key)), KeyEdge::Lost(k)) => if k == key {
                Some(None)
            } else {
                None
            },
            _ => None,
        }
    }
}

/// The key is taken and given up in turn: over any course of events no key is taken while another
/// is held, each is given up at most once, and what is held at the end is what was taken and not
/// given up. Whatever fails, and wherever, no key is forgotten.
pub proof fn keys_are_taken_and_given_up_in_turn(s: RepeaterState, course: Seq<Happening>)
    requires
        s.wf(),
    ensures
        replay(s.held(), s.edges(course)) == Some(s.after_all(course).held()),
    decreases course.len(),
{
    if course.len() > 0 {
        let before = course.drop_last();
        keys_are_taken_and_given_up_in_turn(s, before);
        every_course_keeps_the_repeater_sound(s, before);
        match s.after_all(before).edge(course.last()) {
            Some(edge) => {
                assert(s.edges(course).drop_last() =~= s.edges(before));
            },
            None => {},
        }
    }
}

/// Something is put on the air only under a key that was taken and not given up since.
pub proof fn nothing_is_transmitted_unkeyed(s: RepeaterState, course: Seq<Happening>)
    requires
        s.wf(),
    ensures
        ({
            let now = s.after_all(course);
            now.action() is TransmitFrame || now.action() is TransmitId ==> now.held() is Some
                && replay(s.held(), s.edges(course)) == Some(now.held())
        }),
{
    keys_are_taken_and_given_up_in_turn(s, course);
}

/// Whether a course brings nothing to relay.
pub open spec fn idle(course: Seq<Happening>) -> bool {
    forall|i: int|
        0 <= i < course.len() ==> {
            &&& !(#[trigger] course[i] is Relay)
            &&& course[i] matches Happening::Reply(Reply::Received(r)) ==> !(r is Burst)
        }
}

/// A session with nothing to relay never keys, in full duplex as little as in half duplex.
pub proof fn an_idle_session_never_keys(s: RepeaterState, course: Seq<Happening>)
    requires
        s.wf(),
        s.at_rest(),
        s.held() is None,
        idle(course),
    ensures
        s.edges(course) =~= Seq::<KeyEdge>::empty(),
        s.after_all(course).held() is None,
        !(s.after_all(course).action() is Key),
{
    lemma_idle(s, course);
}

proof fn lemma_idle(s: RepeaterState, course: Seq<Happening>)
    requires
        s.wf(),
        s.at_rest(),
        s.held() is None,
        idle(course),
    ensures
        s.edges(course) =~= Seq::<KeyEdge>::empty(),
        s.after_all(course).session_key is None,
        s.after_all(course).at_rest() || s.after_all(course).stage is DrainBursts || s.after_all(
            course,
        ).stage is OpenSensor || s.after_all(course).stage is ReadStop || s.after_all(
            course,
        ).stage is Receive,
    decreases course.len(),
{
    if course.len() > 0 {
        let before = course.drop_last();
        assert(idle(before)) by {
            assert forall|i: int| 0 <= i < before.len() implies {
                &&& !(#[trigger] before[i] is Relay)
                &&& before[i] matches Happening::Reply(Reply::Received(r)) ==> !(r is Burst)
            } by {
                assert(before[i] == course[i]);
            }
        }
        lemma_idle(s, before);
        assert(course.last() == course[course.len() - 1]);
    }
}

impl RepeaterState {
    /// How many frames the session has relayed, while it runs and where it ended as asked.
    pub open spec fn tally(self) -> Option<nat> {
        match self.stage {
            Stage::EndSession { result: Ok(relayed), .. } => Some(relayed),
            Stage::Finished(Ok(relayed)) => Some(relayed),
            _ => self.session,
        }
    }

    /// Whether the reply completes the relay of a frame.
    pub open spec fn completes(self, reply: Reply) -> bool {
        match (self.stage, reply) {
            (Stage::Release { outcome: Ok(_), .. }, Reply::Released) => true,
            (Stage::Restamp { .. }, Reply::Extended(_)) => true,
            _ => false,
        }
    }

    /// How many frames are relayed over a course of replies.
    pub open spec fn relays(self, replies: Seq<Reply>) -> nat
        decreases replies.len(),
    {
        if replies.len() == 0 {
            0
        } else {
            let before = self.replied(replies.drop_last());
            self.relays(replies.drop_last()) + if before.completes(replies.last()) {
                1nat
            } else {
                0
            }
        }
    }

    /// After a course of replies.
    pub open spec fn replied(self, replies: Seq<Reply>) -> RepeaterState
        decreases replies.len(),
    {
        if replies.len() == 0 {
            self
        } else {
            self.replied(replies.drop_last()).next(replies.last())
        }
    }
}

/// A session reports as many frames as it relayed: at every point the count is that of the relays
/// completed so far, and it is what the session returns when it ends as asked.
pub proof fn a_session_counts_what_it_relayed(s: RepeaterState, replies: Seq<Reply>)
    requires
        s.wf(),
        s.at_rest(),
        s.settings.enabled,
        s.session_started().relays(replies) <= u64::MAX,
    ensures
        s.session_started().replied(replies).tally() matches Some(n) ==> n
            == s.session_started().relays(replies),
        s.session_started().replied(replies).stage matches Stage::Finished(Ok(n)) ==> n
            == s.session_started().relays(replies),
{
    lemma_tally(s.session_started(), replies);
}

proof fn lemma_tally(s: RepeaterState, replies: Seq<Reply>)
    requires
        s.wf(),
        s.session == Some(0nat),
        s.stage is DrainBursts,
        s.relays(replies) <= u64::MAX,
    ensures
        s.replied(replies).wf(),
        s.replied(replies).tally() matches Some(n) ==> n == s.relays(replies),
        s.replied(replies).session is Some || s.replied(replies).stage is EndSession || s.replied(
            replies,
        ).stage is Finished,
    decreases replies.len(),
{
    if replies.len() > 0 {
        lemma_tally(s, replies.drop_last());
    }
}

/// The course of events that a sequence of replies is.
pub open spec fn as_course(replies: Seq<Reply>) -> Seq<Happening> {
    replies.map_values(|reply: Reply| Happening::Reply(reply))
}

/// Whether no key was found to have been taken away.
pub open spec fn no_key_lost(edges: Seq<KeyEdge>) -> bool {
    forall|i: int| 0 <= i < edges.len() ==> !(#[trigger] edges[i] is Lost)
}

/// Whether a key is taken and then released.
pub open spec fn is_pair(first: KeyEdge, second: KeyEdge) -> bool {
    first matches KeyEdge::Taken(key) && second == KeyEdge::Released(key)
}

/// Whether `edges` are that many pairs, in each of which a key is taken and the same key released.
pub open spec fn in_pairs(edges: Seq<KeyEdge>, pairs: nat) -> bool {
    &&& edges.len() == 2 * pairs
    &&& forall|i: int|
        #![trigger edges[2 * i]]
        0 <= i < pairs ==> is_pair(edges[2 * i], edges[2 * i + 1])
}

/// What a session does with the transmitter's key, where none of its keys is taken away by the
/// watchdog. When it ends as asked, after relaying `relayed` frames, full duplex has taken one key
/// and released that key, however many frames there were, and half duplex has taken and released a
/// key for each of them, in strict turn. Where nothing was relayed, no key was taken.
///
/// The session begins without a key: one that is held from an earlier single relay in full duplex
/// is used for the first frame, and none is taken.
pub proof fn a_session_keys_as_its_mode_says(s: RepeaterState, replies: Seq<Reply>, relayed: nat)
    requires
        s.wf(),
        s.at_rest(),
        s.settings.enabled,
        s.held() is None,
        s.session_started().relays(replies) <= u64::MAX,
        s.session_started().replied(replies).stage == Stage::Finished(Ok(relayed)),
        no_key_lost(s.session_started().edges(as_course(replies))),
    ensures
        ({
            let edges = s.session_started().edges(as_course(replies));
            &&& relayed == 0 ==> edges.len() == 0
            &&& relayed > 0 && s.settings.full_duplex ==> in_pairs(edges, 1)
            &&& relayed > 0 && !s.settings.full_duplex ==> in_pairs(edges, relayed)
        }),
{
    let t = s.session_started();
    lemma_tally(t, replies);
    lemma_session_edges(t, replies);
}

impl RepeaterState {
    /// Whether the session under way is bound to end with a failure, or did.
    spec fn failing(self) -> bool {
        match self.stage {
            Stage::Release { outcome: Err(_), .. } => true,
            Stage::EndSession { result: Err(_), .. } => true,
            Stage::Finished(Err(_)) => true,
            _ => false,
        }
    }

    /// What a session has done with its keys so far, after relaying `n` frames.
    spec fn edges_so_far(self, edges: Seq<KeyEdge>, n: nat) -> bool {
        if self.settings.full_duplex {
            match self.held() {
                Some(key) => edges =~= seq![KeyEdge::Taken(key)] && (self.session_key is Some
                    || self.stage is EndSession ==> n > 0),
                None => if n == 0 {
                    edges.len() == 0
                } else {
                    self.stage is Finished && in_pairs(edges, 1)
                },
            }
        } else {
            match self.held() {
                Some(key) => !(self.stage is EndSession) && edges.len() == 2 * n + 1 && in_pairs(edges.drop_last(), n)
                    && edges.last() == KeyEdge::Taken(key),
                None => in_pairs(edges, n),
            }
        }
    }
}

proof fn lemma_course(s: RepeaterState, replies: Seq<Reply>)
    ensures
        s.after_all(as_course(replies)) == s.replied(replies),
        replies.len() > 0 ==> as_course(replies).drop_last() =~= as_course(replies.drop_last()),
        replies.len() > 0 ==> as_course(replies).last() == Happening::Reply(replies.last()),
    decreases replies.len(),
{
    if replies.len() > 0 {
        assert(as_course(replies).drop_last() =~= as_course(replies.drop_last()));
        lemma_course(s, replies.drop_last());
    }
}

proof fn lemma_session_edges(t: RepeaterState, replies: Seq<Reply>)
    requires
        t.wf(),
        t.stage is DrainBursts,
        t.session == Some(0nat),
        t.held() is None,
        t.relays(replies) <= u64::MAX,
        no_key_lost(t.edges(as_course(replies))),
    ensures
        t.replied(replies).failing() || t.replied(replies).edges_so_far(
            t.edges(as_course(replies)),
            t.relays(replies),
        ),
        t.replied(replies).settings == t.settings,
    decreases replies.len(),
{
    let edges = t.edges(as_course(replies));
    if replies.len() > 0 {
        let before = replies.drop_last();
        let reply = replies.last();
        let now = t.replied(before);
        let old_edges = t.edges(as_course(before));
        lemma_course(t, replies);
        lemma_course(t, before);
        lemma_tally(t, before);
        let edge = now.edge(Happening::Reply(reply));
        assert(edges == match edge {
            Some(e) => old_edges.push(e),
            None => old_edges,
        });
        assert(no_key_lost(old_edges)) by {
            assert forall|i: int| 0 <= i < old_edges.len() implies !(
            #[trigger] old_edges[i] is Lost) by {
                assert(edges[i] == old_edges[i]);
            }
        }
        lemma_session_edges(t, before);
        assert(edge matches Some(e) ==> !(e is Lost)) by {
            assert(edge is Some ==> edges[edges.len() - 1] == edge->0);
        }
        if now.failing() {
            lemma_failing_stays(now, reply);
        } else {
            lemma_session_step(now, reply, old_edges, t.relays(before));
        }
    }
}

proof fn lemma_failing_stays(now: RepeaterState, reply: Reply)
    requires
        now.wf(),
        now.session is Some || now.stage is EndSession || now.stage is Finished,
        now.failing(),
    ensures
        now.next(reply).failing(),
        now.next(reply).settings == now.settings,
{
}

proof fn lemma_session_step(now: RepeaterState, reply: Reply, edges: Seq<KeyEdge>, n: nat)
    requires
        now.wf(),
        now.session is Some || now.stage is EndSession || now.stage is Finished,
        !now.failing(),
        now.edges_so_far(edges, n),
        now.edge(Happening::Reply(reply)) matches Some(e) ==> !(e is Lost),
    ensures
        ({
            let next = now.next(reply);
            let m = n + if now.completes(reply) {
                1nat
            } else {
                0
            };
            let all = match now.edge(Happening::Reply(reply)) {
                Some(e) => edges.push(e),
                None => edges,
            };
            next.failing() || next.edges_so_far(all, m)
        }),
        now.next(reply).settings == now.settings,
{
    let next = now.next(reply);
    match now.edge(Happening::Reply(reply)) {
        Some(KeyEdge::Taken(key)) => {
            assert(edges.push(KeyEdge::Taken(key)).drop_last() =~= edges);
            assert(next.held() == Some(key));
        },
        Some(KeyEdge::Released(key)) => {
            let pairs: nat = if now.settings.full_duplex {
                0
            } else {
                n
            };
            lemma_pair_closed(edges, key, pairs);
            assert(next.held() is None);
        },
        _ => {
            if now.stage is Restamp {
                assert(next.held() == now.held());
            }
        },
    }
}

proof fn lemma_pair_closed(edges: Seq<KeyEdge>, key: PttKeyGuard, n: nat)
    ensures
        edges.len() == 2 * n + 1 && in_pairs(edges.drop_last(), n) && edges.last()
            == KeyEdge::Taken(key) ==> in_pairs(edges.push(KeyEdge::Released(key)), n + 1),
{
    let all = edges.push(KeyEdge::Released(key));
    let closed = edges.drop_last();
    if edges.len() == 2 * n + 1 && in_pairs(closed, n) && edges.last() == KeyEdge::Taken(key) {
        assert forall|i: int| #![trigger all[2 * i]] 0 <= i < n + 1 implies is_pair(
            all[2 * i],
            all[2 * i + 1],
        ) by {
            if i < n {
                assert(closed[2 * i] == all[2 * i]);
                assert(closed[2 * i + 1] == all[2 * i + 1]);
            }
        }
    }
}

/// A band that is busy, or that cannot be read, is never keyed on: the burst is dropped and counted,
/// and only a band found clear leads to a key.
pub proof fn only_a_clear_band_is_keyed_on(s: RepeaterState, band: BandState)
    requires
        s.wf(),
        s.stage is Sense,
    ensures
        s.next(Reply::Sensed(band)).stage is Key <==> band is Clear,
        !(band is Clear) ==> s.next(Reply::Sensed(band)).deferred == bump(s.deferred) && s.next(
            Reply::Sensed(band),
        ).held() is None,
        band is Clear ==> s.next(Reply::Sensed(band)).deferred == s.deferred,
{
}

/// Where carrier sense is on, a key is asked for only after the band was found clear.
pub proof fn a_key_is_asked_for_only_on_a_clear_band(s: RepeaterState, what: Happening)
    requires
        s.wf(),
        s.settings.carrier_sense,
        !(s.stage is Key),
        s.after(what).stage is Key,
    ensures
        s.stage is Sense,
        what == Happening::Reply(Reply::Sensed(BandState::Clear)),
{
}

/// A repeater that holds its key across frames does not sense against its own carrier: as long as
/// the key is there, the next frame goes out under it.
pub proof fn a_held_key_is_used_without_sensing(
    s: RepeaterState,
    now_ms: u64,
    frame: Seq<u8>,
    key: PttKeyGuard,
)
    requires
        s.stage == (Stage::Decode { now_ms }),
        s.session_key == Some(key),
        frame.len() > 0,
    ensures
        ({
            let extending = s.next(Reply::Decoded(Ok(frame)));
            let going_on = extending.next(Reply::Extended(true));
            &&& extending.action() == RelayAction::Extend(key)
            &&& going_on.stage == (Stage::TransmitFrame { now_ms, frame, key }) || going_on.stage
                == (Stage::NoteTx { now_ms, frame, key })
            &&& going_on.deferred == s.deferred
        }),
{
}

/// A key that was lost to silence is taken again: the next frame goes through sensing and keying as
/// the first one did, and is not transmitted into an unkeyed rig.
pub proof fn a_lost_key_is_taken_again(
    s: RepeaterState,
    now_ms: u64,
    frame: Seq<u8>,
    key: PttKeyGuard,
)
    requires
        s.stage == (Stage::Extend { now_ms, frame, key }),
        s.wf(),
    ensures
        s.next(Reply::Extended(false)).held() is None,
        s.next(Reply::Extended(false)).stage == if s.settings.carrier_sense {
            Stage::Sense { now_ms, frame }
        } else {
            Stage::Key { now_ms, frame }
        },
{
}

/// However a session or a relay broke off, and wherever, the key that was held is released, and
/// the repeater can be used again.
pub proof fn an_abnormal_exit_gives_the_key_back(s: RepeaterState)
    ensures
        match s.held() {
            Some(key) => {
                &&& s.abandoned().action() == RelayAction::Release(key)
                &&& s.abandoned().next(Reply::Released) == RepeaterState {
                    session_key: None,
                    session: None,
                    sense_faults: 0,
                    stage: Stage::Rest,
                    ..s
                }
            },
            None => s.abandoned().stage is Rest && s.abandoned().held() is None,
        },
{
}

/// A station that cannot hear its output band stops: every unreadable reading counts, a clear one
/// wipes the count out, a busy one leaves it, and the session ends with the reading that brings the
/// count to [`MAX_SENSE_FAULTS`], and not before.
pub proof fn a_deaf_station_stops(s: RepeaterState, now_ms: u64, frame: Seq<u8>)
    requires
        s.stage == (Stage::Sense { now_ms, frame }),
        s.wf(),
        s.session is Some,
        s.sense_faults < u64::MAX,
    ensures
        s.sense_faults + 1 < MAX_SENSE_FAULTS ==> s.next(
            Reply::Sensed(BandState::Unreadable),
        ).stage is ReadStop && s.next(Reply::Sensed(BandState::Unreadable)).sense_faults
            == s.sense_faults + 1,
        s.sense_faults + 1 >= MAX_SENSE_FAULTS ==> s.next(
            Reply::Sensed(BandState::Unreadable),
        ).stage == Stage::Finished(Err(RelayFault::Modem(deaf_text()))),
        s.next(Reply::Sensed(BandState::Clear)).sense_faults == 0,
        s.next(Reply::Sensed(BandState::Busy)).sense_faults == s.sense_faults,
{
}

/// A session starts with its whole budget of sensing faults, whatever came before.
pub proof fn a_session_starts_with_no_sense_faults(s: RepeaterState)
    requires
        s.wf(),
        s.at_rest(),
        s.settings.enabled,
    ensures
        s.session_started().sense_faults == 0,
        s.session_started().deferred == s.deferred,
{
}

/// The identification timer hears of a transmission before it is made, so that one which fails
/// after it reached the air is not forgotten, and of an identification only after it went out.
pub proof fn the_timer_is_told_in_order(s: RepeaterState, what: Happening)
    requires
        s.wf(),
        s.id_interval_ms is Some,
    ensures
        s.after(what).stage is TransmitFrame && !(s.stage is TransmitFrame) ==> s.stage is NoteTx
            && what == Happening::Reply(Reply::TxNoted),
        s.after(what).stage is TransmitId && !(s.stage is TransmitId) ==> s.stage is AskIdDue
            && what == Happening::Reply(Reply::IdDue(true)),
        s.after(what).stage is MarkIdentified && !(s.stage is MarkIdentified)
            ==> s.stage is TransmitId && what matches Happening::Reply(Reply::Transmitted(Ok(_))),
{
}

/// A key is kept between frames only after it was re-stamped, which comes after everything was
/// transmitted: what counts against the watchdog's bound is the silence since the transmission
/// ended.
pub proof fn a_kept_key_was_just_stamped(s: RepeaterState, what: Happening, key: PttKeyGuard)
    requires
        s.wf(),
        s.session_key is None,
        s.after(what).session_key == Some(key),
    ensures
        s.stage is Restamp,
        s.action() == RelayAction::Extend(key),
        s.settings.full_duplex,
{
}

/// A burst that does not decode, or decodes to nothing, is the ordinary case on a live band: it
/// neither ends the session nor touches the key.
pub proof fn an_undecodable_burst_is_no_fault(s: RepeaterState, reason: Seq<char>)
    requires
        s.wf(),
        s.stage is Decode,
        s.session is Some,
    ensures
        s.next(Reply::Decoded(Err(reason))) == s.at(Stage::ReadStop),
        s.next(Reply::Decoded(Ok(Seq::empty()))) == s.at(Stage::ReadStop),
{
}

/// A session that is asked to stop, or that gets no more bursts, ends with its count, after at most
/// the release of the key it holds.
pub proof fn a_session_that_is_asked_to_stop_ends(s: RepeaterState, relayed: nat)
    requires
        s.wf(),
        s.session == Some(relayed),
    ensures
        s.stage is ReadStop ==> {
            let stopped = s.next(Reply::StopRead(true));
            if s.held() is Some {
                stopped.next(Reply::Released).stage == Stage::Finished(Ok(relayed))
            } else {
                stopped.stage == Stage::Finished(Ok(relayed))
            }
        },
        s.stage is Receive ==> {
            let stopped = s.next(Reply::Received(Reception::Disconnected));
            if s.held() is Some {
                stopped.next(Reply::Released).stage == Stage::Finished(Ok(relayed))
            } else {
                stopped.stage == Stage::Finished(Ok(relayed))
            }
        },
{
}

} // verus!
