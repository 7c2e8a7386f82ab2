//! One transmitter, one key, and a bound on how long the key may go without traffic.
//!
//! A key is taken by whoever wants to transmit and named by a guard. Every guard carries the
//! generation of the key it was issued for, so that a guard whose key is gone can neither keep nor
//! release the key of somebody else. A key that is not re-stamped within the bound is taken away by
//! the watchdog; the bound therefore measures silence, not how long a session lasts.
//!
//! The hardware is driven by the caller, while it holds the lock around this state: it asks what to
//! do, drives the controller, and reports how that went.

use vstd::prelude::*;

use crate::error::{PttError, PttFault};

verus! {

/// How long, in milliseconds, a key may go without being re-stamped, unless set otherwise.
pub const DEFAULT_PTT_MAX: u64 = 180_000;

/// Names the key that was taken, by its generation.
#[derive(Debug, Clone, Copy, PartialEq, Eq, Structural)]
pub struct PttKeyGuard {
    generation: u64,
}

impl PttKeyGuard {
    /// The generation of the key that this guard was issued for.
    pub closed spec fn generation(self) -> nat {
        self.generation as nat
    }
}

/// The key that is live.
#[derive(Debug)]
struct HeldKey {
    generation: u64,
    deadline_ms: u64,
    held_by: &'static str,
}

/// The keying state of one transmitter, around the controller that drives it.
///
/// Without a controller the rig is keyed by its operator or by its audio: a key is then taken and
/// bounded like any other, and no hardware is driven.
#[derive(Debug)]
#[verifier::reject_recursive_types(C)]
pub struct SharedPtt<C> {
    controller: Option<C>,
    max_ms: u64,
    issued: u64,
    live: Option<HeldKey>,
}

/// A live key: its generation, the time from which the watchdog takes it, and who holds it.
pub ghost struct LiveKey {
    pub generation: nat,
    pub deadline_ms: nat,
    pub held_by: Seq<char>,
}

/// What a [`SharedPtt`] is, apart from its controller.
pub ghost struct KeyState {
    /// Whether there is hardware to drive.
    pub has_controller: bool,
    /// The bound on silence, in milliseconds.
    pub max_ms: nat,
    /// How many keys were issued. The latest one has this generation.
    pub issued: nat,
    /// The live key.
    pub live: Option<LiveKey>,
}

impl KeyState {
    /// No live key is newer than the latest one issued.
    pub open spec fn wf(self) -> bool {
        self.live matches Some(key) ==> key.generation <= self.issued
    }

    /// Whether the key of this generation is live.
    pub open spec fn holds(self, generation: nat) -> bool {
        self.live matches Some(key) && key.generation == generation
    }

    /// The time from which a key stamped at `now_ms` may be taken away.
    pub open spec fn deadline_from(self, now_ms: nat) -> nat {
        if now_ms + self.max_ms <= u64::MAX {
            now_ms + self.max_ms
        } else {
            u64::MAX as nat
        }
    }

    /// Whether a hardware outcome counts as success: without hardware everything does.
    pub open spec fn done(self, hardware_ok: bool) -> bool {
        !self.has_controller || hardware_ok
    }

    /// After a request for a key. It is granted when no key is live and the hardware keyed.
    pub open spec fn keyed(self, held_by: Seq<char>, now_ms: nat, hardware_ok: bool) -> KeyState {
        if self.live is None && self.done(hardware_ok) {
            KeyState {
                issued: self.issued + 1,
                live: Some(
                    LiveKey {
                        generation: self.issued + 1,
                        deadline_ms: self.deadline_from(now_ms),
                        held_by,
                    },
                ),
                ..self
            }
        } else {
            self
        }
    }

    /// After the holder re-stamped its key at `now_ms`.
    pub open spec fn extended(self, generation: nat, now_ms: nat) -> KeyState {
        if self.holds(generation) {
            KeyState {
                live: Some(
                    LiveKey { deadline_ms: self.deadline_from(now_ms), ..self.live->0 },
                ),
                ..self
            }
        } else {
            self
        }
    }

    /// After the holder gave its key up. A release that the hardware refused leaves the key armed,
    /// so that the watchdog tries again.
    pub open spec fn released(self, generation: nat, hardware_ok: bool) -> KeyState {
        if self.holds(generation) && self.done(hardware_ok) {
            KeyState { live: None, ..self }
        } else {
            self
        }
    }

    /// Whether the watchdog is to take the key away at `now_ms`.
    pub open spec fn expired(self, now_ms: nat) -> bool {
        self.live matches Some(key) && now_ms >= key.deadline_ms
    }

    /// After the watchdog looked at `now_ms`.
    pub open spec fn watched(self, now_ms: nat, hardware_ok: bool) -> KeyState {
        if self.expired(now_ms) && self.done(hardware_ok) {
            KeyState { live: None, ..self }
        } else {
            self
        }
    }
}

impl<C> View for SharedPtt<C> {
    type V = KeyState;

    closed spec fn view(&self) -> KeyState {
        KeyState {
            has_controller: self.controller is Some,
            max_ms: self.max_ms as nat,
            issued: self.issued as nat,
            live: match self.live {
                Some(key) => Some(
                    LiveKey {
                        generation: key.generation as nat,
                        deadline_ms: key.deadline_ms as nat,
                        held_by: key.held_by@,
                    },
                ),
                None => None,
            },
        }
    }
}

impl<C> SharedPtt<C> {
    /// The controller that drives the transmitter.
    pub closed spec fn hardware(self) -> Option<C> {
        self.controller
    }

    /// An unkeyed transmitter whose keys are bounded by `max_ms` of silence.
    pub fn new(controller: Option<C>, max_ms: u64) -> (ptt: Self)
        ensures
            ptt@ == (KeyState {
                has_controller: controller is Some,
                max_ms: max_ms as nat,
                issued: 0,
                live: None,
            }),
            ptt.hardware() == controller,
            ptt@.wf(),
    {
        SharedPtt { controller, max_ms, issued: 0, live: None }
    }

    /// Sets the bound on silence. It counts from the next stamp on.
    pub fn set_max_duration(&mut self, max_ms: u64)
        ensures
            final(self)@ == (KeyState { max_ms: max_ms as nat, ..old(self)@ }),
            final(self).hardware() == old(self).hardware(),
    {
        self.max_ms = max_ms;
    }

    /// Whether a key is live.
    pub fn is_keyed(&self) -> (keyed: bool)
        ensures
            keyed == (self@.live is Some),
    {
        self.live.is_some()
    }

    /// How many keys were issued.
    pub fn keys_issued(&self) -> (issued: u64)
        ensures
            issued == self@.issued,
    {
        self.issued
    }

    /// The controller to drive, where there is one.
    pub fn controller(&mut self) -> (controller: Option<&mut C>)
        ensures
            final(self)@ == old(self)@,
            match old(self).hardware() {
                Some(c) => controller matches Some(lent) && *lent == c && final(self).hardware()
                    == Some(*final(lent)),
                None => controller is None && final(self).hardware() is None,
            },
    {
        self.controller.as_mut()
    }

    /// Whether a key may be asked for now. While another key is live it may not, and the hardware
    /// must not be touched.
    pub fn may_key(&self) -> (admitted: Result<(), PttError>)
        ensures
            match self@.live {
                None => admitted is Ok,
                Some(key) => admitted matches Err(e) && e@ == PttFault::AlreadyKeyed(key.held_by),
            },
    {
        match &self.live {
            None => Ok(()),
            Some(key) => Err(PttError::AlreadyKeyed { held_by: key.held_by }),
        }
    }

    /// Takes a key at `now_ms`, given how keying the hardware went.
    ///
    /// A key that is refused, whether because one is live or because the hardware failed, leaves
    /// nothing armed that was not armed before.
    pub fn keyed(
        &mut self,
        held_by: &'static str,
        now_ms: u64,
        hardware: Result<(), PttError>,
    ) -> (guard: Result<PttKeyGuard, PttError>)
        requires
            old(self)@.issued < u64::MAX,
        ensures
            final(self)@ == old(self)@.keyed(held_by@, now_ms as nat, hardware is Ok),
            final(self).hardware() == old(self).hardware(),
            old(self)@.wf() ==> final(self)@.wf(),
            match old(self)@.live {
                Some(key) => guard matches Err(e) && e@ == PttFault::AlreadyKeyed(key.held_by),
                None => if old(self)@.done(hardware is Ok) {
                    guard matches Ok(g) && g.generation() == final(self)@.issued
                } else {
                    guard matches Err(e) && e == hardware->Err_0
                },
            },
    {
        if let Some(key) = &self.live {
            return Err(PttError::AlreadyKeyed { held_by: key.held_by });
        }
        if self.controller.is_some() {
            if let Err(e) = hardware {
                return Err(e);
            }
        }
        self.issued = self.issued + 1;
        let deadline_ms: u64 = now_ms.saturating_add(self.max_ms);
        self.live = Some(HeldKey { generation: self.issued, deadline_ms, held_by });
        Ok(PttKeyGuard { generation: self.issued })
    }

    /// Whether the guard's key is still live, that is, whether a release has to drive the hardware.
    pub fn holds(&self, guard: PttKeyGuard) -> (held: bool)
        ensures
            held == self@.holds(guard.generation()),
    {
        match &self.live {
            Some(key) => key.generation == guard.generation,
            None => false,
        }
    }

    /// Re-stamps the guard's key at `now_ms`. `false` means that the key is gone, which is the
    /// signal to take a new one rather than to transmit into an unkeyed rig.
    pub fn extend(&mut self, guard: PttKeyGuard, now_ms: u64) -> (alive: bool)
        ensures
            alive == old(self)@.holds(guard.generation()),
            final(self)@ == old(self)@.extended(guard.generation(), now_ms as nat),
            final(self).hardware() == old(self).hardware(),
            old(self)@.wf() ==> final(self)@.wf(),
    {
        if !self.holds(guard) {
            return false;
        }
        let deadline_ms: u64 = now_ms.saturating_add(self.max_ms);
        if let Some(key) = self.live.take() {
            self.live = Some(
                HeldKey { generation: key.generation, deadline_ms, held_by: key.held_by },
            );
        }
        true
    }

    /// Gives the guard's key up, given how releasing the hardware went. For a guard whose key is
    /// gone this does nothing, and succeeds.
    pub fn released(&mut self, guard: PttKeyGuard, hardware: Result<(), PttError>) -> (result:
        Result<(), PttError>)
        ensures
            final(self)@ == old(self)@.released(guard.generation(), hardware is Ok),
            final(self).hardware() == old(self).hardware(),
            old(self)@.wf() ==> final(self)@.wf(),
            if old(self)@.holds(guard.generation()) && !old(self)@.done(hardware is Ok) {
                result == hardware
            } else {
                result is Ok
            },
    {
        if !self.holds(guard) {
            return Ok(());
        }
        self.disarm(hardware)
    }

    /// Whether the watchdog is to take the key away at `now_ms`.
    pub fn watchdog_due(&self, now_ms: u64) -> (due: bool)
        ensures
            due == self@.expired(now_ms as nat),
    {
        match &self.live {
            Some(key) => now_ms >= key.deadline_ms,
            None => false,
        }
    }

    /// Takes a key away that has outlived its silence, given how releasing the hardware went.
    /// Where the hardware refused, the key stays armed and the watchdog tries again.
    pub fn watchdog_released(&mut self, now_ms: u64, hardware: Result<(), PttError>) -> (result:
        Result<(), PttError>)
        ensures
            final(self)@ == old(self)@.watched(now_ms as nat, hardware is Ok),
            final(self).hardware() == old(self).hardware(),
            old(self)@.wf() ==> final(self)@.wf(),
            if old(self)@.expired(now_ms as nat) && !old(self)@.done(hardware is Ok) {
                result == hardware
            } else {
                result is Ok
            },
    {
        if !self.watchdog_due(now_ms) {
            return Ok(());
        }
        self.disarm(hardware)
    }

    fn disarm(&mut self, hardware: Result<(), PttError>) -> (result: Result<(), PttError>)
        ensures
            final(self).hardware() == old(self).hardware(),
            if old(self)@.done(hardware is Ok) {
                &&& final(self)@ == (KeyState { live: None, ..old(self)@ })
                &&& result is Ok
            } else {
                &&& final(self)@ == old(self)@
                &&& result == hardware
            },
    {
        if self.controller.is_some() {
            if let Err(e) = hardware {
                return Err(e);
            }
        }
        self.live = None;
        Ok(())
    }
}

/// A key whose hardware refused leaves the state exactly as it was: nothing is armed.
pub proof fn a_refused_key_arms_nothing(s: KeyState, held_by: Seq<char>, now_ms: nat)
    requires
        s.has_controller,
    ensures
        s.keyed(held_by, now_ms, false) == s,
{
}

/// Without a controller a key is granted whenever none is live: no hardware is asked.
pub proof fn no_controller_still_keys(
    s: KeyState,
    held_by: Seq<char>,
    now_ms: nat,
    hardware_ok: bool,
)
    requires
        !s.has_controller,
        s.live is None,
    ensures
        s.keyed(held_by, now_ms, hardware_ok).holds(s.issued + 1),
{
}

/// While one key is live, no second one is granted and the first is untouched.
pub proof fn one_key_at_a_time(s: KeyState, held_by: Seq<char>, now_ms: nat, hardware_ok: bool)
    requires
        s.live is Some,
    ensures
        s.keyed(held_by, now_ms, hardware_ok) == s,
{
}

/// What can happen to the keying state.
pub ghost enum KeyEvent {
    Keyed { held_by: Seq<char>, now_ms: nat, hardware_ok: bool },
    Extended { generation: nat, now_ms: nat },
    Released { generation: nat, hardware_ok: bool },
    Watched { now_ms: nat, hardware_ok: bool },
    MaxSet { max_ms: nat },
}

impl KeyState {
    /// After one event.
    pub open spec fn after(self, event: KeyEvent) -> KeyState {
        match event {
            KeyEvent::Keyed { held_by, now_ms, hardware_ok } => self.keyed(
                held_by,
                now_ms,
                hardware_ok,
            ),
            KeyEvent::Extended { generation, now_ms } => self.extended(generation, now_ms),
            KeyEvent::Released { generation, hardware_ok } => self.released(
                generation,
                hardware_ok,
            ),
            KeyEvent::Watched { now_ms, hardware_ok } => self.watched(now_ms, hardware_ok),
            KeyEvent::MaxSet { max_ms } => KeyState { max_ms, ..self },
        }
    }

    /// After a history of events.
    pub open spec fn after_all(self, events: Seq<KeyEvent>) -> KeyState
        decreases events.len(),
    {
        if events.len() == 0 {
            self
        } else {
            self.after_all(events.drop_last()).after(events.last())
        }
    }
}

/// A guard whose key is gone changes nothing: it can neither keep nor release the key of somebody
/// else.
pub proof fn a_stale_guard_does_nothing(
    s: KeyState,
    generation: nat,
    now_ms: nat,
    hardware_ok: bool,
)
    requires
        !s.holds(generation),
    ensures
        s.extended(generation, now_ms) == s,
        s.released(generation, hardware_ok) == s,
{
}

/// A key that is gone never comes back, whatever happens next: later keys have later generations.
pub proof fn a_lost_key_stays_lost(s: KeyState, generation: nat, events: Seq<KeyEvent>)
    requires
        s.wf(),
        generation <= s.issued,
        !s.holds(generation),
    ensures
        !s.after_all(events).holds(generation),
        s.after_all(events).wf(),
        s.issued <= s.after_all(events).issued,
    decreases events.len(),
{
    if events.len() > 0 {
        a_lost_key_stays_lost(s, generation, events.drop_last());
    }
}

/// The bound measures silence: after a stamp at `now_ms` the watchdog leaves the key alone until
/// the whole bound has passed, and takes it from then on.
pub proof fn the_bound_counts_from_the_last_stamp(
    s: KeyState,
    generation: nat,
    now_ms: nat,
    later_ms: nat,
)
    requires
        s.holds(generation),
        now_ms + s.max_ms <= u64::MAX,
    ensures
        s.extended(generation, now_ms).expired(later_ms) <==> later_ms >= now_ms + s.max_ms,
        later_ms < now_ms + s.max_ms ==> s.extended(generation, now_ms).watched(later_ms, true)
            == s.extended(generation, now_ms),
        later_ms >= now_ms + s.max_ms ==> s.extended(generation, now_ms).watched(
            later_ms,
            true,
        ).live is None,
{
}

/// Whether `events` are stamps of the key and watchdog looks, each look less than a whole bound after
/// the stamp before it. The first of them comes after a stamp at `from_ms`.
pub open spec fn steady(max_ms: nat, generation: nat, events: Seq<KeyEvent>, from_ms: nat) -> bool
    decreases events.len(),
{
    events.len() == 0 || {
        let rest = events.drop_first();
        match events[0] {
            KeyEvent::Extended { generation: g, now_ms } => {
                &&& g == generation
                &&& now_ms + max_ms <= u64::MAX
                &&& steady(max_ms, generation, rest, now_ms)
            },
            KeyEvent::Watched { now_ms, .. } => {
                &&& now_ms < from_ms + max_ms
                &&& steady(max_ms, generation, rest, from_ms)
            },
            _ => false,
        }
    }
}

/// Steady traffic keeps one key, however long it lasts: as long as every watchdog look comes less
/// than the bound after the stamp before it, the key is never taken.
pub proof fn steady_traffic_keeps_the_key(
    s: KeyState,
    generation: nat,
    events: Seq<KeyEvent>,
    from_ms: nat,
)
    requires
        s.live matches Some(key) && key.generation == generation && key.deadline_ms == from_ms
            + s.max_ms,
        steady(s.max_ms, generation, events, from_ms),
    ensures
        s.after_all(events).holds(generation),
        s.after_all(events).issued == s.issued,
    decreases events.len(),
{
    if events.len() > 0 {
        let next = s.after(events[0]);
        let rest = events.drop_first();
        lemma_after_all_first(s, events);
        match events[0] {
            KeyEvent::Extended { generation: g, now_ms } => {
                steady_traffic_keeps_the_key(next, generation, rest, now_ms);
            },
            _ => {
                assert(next == s);
                steady_traffic_keeps_the_key(next, generation, rest, from_ms);
            },
        }
    }
}

proof fn lemma_after_all_first(s: KeyState, events: Seq<KeyEvent>)
    requires
        events.len() > 0,
    ensures
        s.after_all(events) == s.after(events[0]).after_all(events.drop_first()),
    decreases events.len(),
{
    reveal_with_fuel(KeyState::after_all, 2);
    if events.len() == 1 {
        assert(events.drop_last() =~= Seq::<KeyEvent>::empty());
        assert(events.drop_first() =~= Seq::<KeyEvent>::empty());
    } else {
        lemma_after_all_first(s, events.drop_last());
        assert(events.drop_last().drop_first() =~= events.drop_first().drop_last());
    }
}

/// A key that is taken lasts until a whole bound after it was taken, if nothing stamps it: until then
/// the watchdog leaves it alone, and from then on it takes it. It is the latest that was issued, it
/// is held by whoever took it, and one more was issued.
pub proof fn a_key_lasts_from_when_it_was_taken(
    s: KeyState,
    held_by: Seq<char>,
    now_ms: nat,
    later_ms: nat,
)
    requires
        s.live is None,
        now_ms + s.max_ms <= u64::MAX,
    ensures
        ({
            let taken = s.keyed(held_by, now_ms, true);
            &&& taken.issued == s.issued + 1
            &&& taken.holds(taken.issued)
            &&& taken.live->0.held_by == held_by
            &&& taken.expired(later_ms) <==> later_ms >= now_ms + s.max_ms
            &&& taken.max_ms == s.max_ms
            &&& taken.has_controller == s.has_controller
        }),
{
}

/// A stamp moves the deadline and nothing else: the key keeps its generation and its holder.
pub proof fn a_stamp_only_moves_the_deadline(s: KeyState, generation: nat, now_ms: nat)
    requires
        s.holds(generation),
    ensures
        ({
            let stamped = s.extended(generation, now_ms);
            &&& stamped.holds(generation)
            &&& stamped.live->0.held_by == s.live->0.held_by
            &&& stamped.issued == s.issued
            &&& stamped.max_ms == s.max_ms
            &&& stamped.has_controller == s.has_controller
        }),
{
}

/// A bound that reaches beyond the end of time never takes a key before that.
pub proof fn a_bound_without_end_takes_no_key(
    s: KeyState,
    held_by: Seq<char>,
    generation: nat,
    now_ms: nat,
    later_ms: nat,
)
    requires
        now_ms + s.max_ms >= u64::MAX,
        later_ms < u64::MAX,
    ensures
        s.live is None ==> !s.keyed(held_by, now_ms, true).expired(later_ms),
        s.holds(generation) ==> !s.extended(generation, now_ms).expired(later_ms),
{
}

/// The holder's release frees the transmitter, so that the next key is granted. Where the hardware
/// refuses to release, the key stays just as it is, and the watchdog takes it at its deadline if the
/// hardware then gives way. The same holds of the watchdog's own release.
pub proof fn a_release_frees_the_transmitter(
    s: KeyState,
    generation: nat,
    held_by: Seq<char>,
    now_ms: nat,
)
    requires
        s.holds(generation),
    ensures
        s.released(generation, true) == (KeyState { live: None, ..s }),
        s.released(generation, true).keyed(held_by, now_ms, true).holds(s.issued + 1),
        s.has_controller ==> s.released(generation, false) == s,
        !s.has_controller ==> s.released(generation, false) == s.released(generation, true),
        now_ms >= s.live->0.deadline_ms ==> s.watched(now_ms, true) == (KeyState {
            live: None,
            ..s
        }),
        now_ms >= s.live->0.deadline_ms && s.has_controller ==> s.watched(now_ms, false) == s,
        now_ms >= s.live->0.deadline_ms && !s.has_controller ==> s.watched(now_ms, false)
            == s.watched(now_ms, true),
        now_ms < s.live->0.deadline_ms ==> s.watched(now_ms, true) == s,
{
}

/// Without a live key there is nothing for the watchdog to take.
pub proof fn an_idle_transmitter_is_left_alone(s: KeyState, now_ms: nat, hardware_ok: bool)
    requires
        s.live is None,
    ensures
        !s.expired(now_ms),
        s.watched(now_ms, hardware_ok) == s,
{
}

/// A new transmitter holds no key, whatever drives it; whether it is keyed, and whether a key may be
/// asked for, is told from the live key alone.
pub proof fn a_new_transmitter_is_free<C>(
    controller: Option<C>,
    max_ms: u64,
    ptt: SharedPtt<C>,
    keyed: bool,
    admitted: Result<(), PttError>,
    issued: u64,
)
    requires
        call_ensures(SharedPtt::<C>::new, (controller, max_ms), ptt),
        call_ensures(SharedPtt::<C>::is_keyed, (&ptt,), keyed),
        call_ensures(SharedPtt::<C>::may_key, (&ptt,), admitted),
        call_ensures(SharedPtt::<C>::keys_issued, (&ptt,), issued),
    ensures
        !keyed,
        admitted is Ok,
        issued == 0,
        ptt.hardware() == controller,
        ptt@.has_controller == controller is Some,
        ptt@.max_ms == max_ms,
{
}

/// Whoever finds the transmitter taken is told who holds it.
pub proof fn a_busy_transmitter_names_its_holder<C>(
    ptt: SharedPtt<C>,
    s: KeyState,
    held_by: Seq<char>,
    now_ms: nat,
    keyed: bool,
    admitted: Result<(), PttError>,
)
    requires
        s.live is None,
        ptt@ == s.keyed(held_by, now_ms, true),
        call_ensures(SharedPtt::<C>::is_keyed, (&ptt,), keyed),
        call_ensures(SharedPtt::<C>::may_key, (&ptt,), admitted),
    ensures
        keyed,
        admitted matches Err(e) && e@ == PttFault::AlreadyKeyed(held_by),
{
}

/// The watchdog and the holder agree with the state: the watchdog is due from the deadline on, and
/// a guard holds exactly while its generation is live.
pub proof fn the_watchdog_is_due_from_the_deadline<C>(
    ptt: SharedPtt<C>,
    guard: PttKeyGuard,
    now_ms: u64,
    due: bool,
    held: bool,
)
    requires
        call_ensures(SharedPtt::<C>::watchdog_due, (&ptt, now_ms), due),
        call_ensures(SharedPtt::<C>::holds, (&ptt, guard), held),
    ensures
        due <==> ptt@.live is Some && now_ms >= ptt@.live->0.deadline_ms,
        held <==> ptt@.live is Some && guard.generation() == ptt@.live->0.generation,
{
}

} // verus!
