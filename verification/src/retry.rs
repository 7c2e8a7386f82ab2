//! A configured backend that is not usable at the moment: it refuses every key, and keeps trying.
//!
//! A backend that is down must not look like a station that keys by other means. Keying without a
//! controller succeeds, so an unreachable backend is kept as a controller that fails: the
//! transmission is then skipped, and nothing is radiated unkeyed. The next attempt to reach the
//! backend is made when something wants to transmit, at most once per [`RETRY_INTERVAL`].

use vstd::prelude::*;

use crate::error::{PttError, PttFault};
use crate::ptt_builder::{
    build_ptt, every_documented_backend_is_recognised, BackendChoice, PttBackend, PttRequest, PttSpec,
};
use crate::serial::SerialPin;
use crate::shared_ptt::KeyState;
use crate::text::enclose;

verus! {

/// Milliseconds between attempts to reach a backend that is configured but not usable.
pub const RETRY_INTERVAL: u64 = 5_000;

/// An owned [`PttSpec`], so that a controller can be built again later.
#[derive(Debug, Clone, Default)]
pub struct OwnedPttSpec {
    pub backend: String,
    pub rigctld_addr: String,
    pub device: String,
    pub gpio_pin: u8,
}

impl View for OwnedPttSpec {
    type V = PttRequest;

    open spec fn view(&self) -> PttRequest {
        PttRequest {
            backend: self.backend@,
            rigctld_addr: self.rigctld_addr@,
            device: self.device@,
            gpio_pin: self.gpio_pin,
        }
    }
}

impl OwnedPttSpec {
    /// The same request, borrowed.
    pub fn as_spec(&self) -> (spec: PttSpec<'_>)
        ensures
            spec@ == self@,
    {
        PttSpec {
            backend: self.backend.as_str(),
            rigctld_addr: self.rigctld_addr.as_str(),
            device: self.device.as_str(),
            gpio_pin: self.gpio_pin,
        }
    }
}

/// What has to happen before a key can be asked of the backend.
#[derive(Debug)]
pub enum EnsureStep {
    /// Nothing: a controller is there.
    Ready,
    /// Open this backend, and report how that went.
    Open(PttBackend),
    /// Nothing can be done now; the key is refused.
    Refused(PttError),
}

/// What an [`EnsureStep`] says.
pub ghost enum EnsureChoice {
    Ready,
    Open(BackendChoice),
    Refused(PttFault),
}

impl View for EnsureStep {
    type V = EnsureChoice;

    open spec fn view(&self) -> EnsureChoice {
        match self {
            EnsureStep::Ready => EnsureChoice::Ready,
            EnsureStep::Open(backend) => EnsureChoice::Open(backend@),
            EnsureStep::Refused(e) => EnsureChoice::Refused(e@),
        }
    }
}

/// A backend that is real but may be out of reach, and the controller for it while there is one.
#[derive(Debug)]
#[verifier::reject_recursive_types(C)]
pub struct RetryingPtt<C> {
    spec: OwnedPttSpec,
    inner: Option<C>,
    last_attempt: Option<u64>,
}

/// What a [`RetryingPtt`] is.
#[verifier::reject_recursive_types(C)]
pub ghost struct RetryState<C> {
    /// The backend that is configured.
    pub request: PttRequest,
    /// The controller, while there is one.
    pub inner: Option<C>,
    /// When the backend was last tried.
    pub last_attempt: Option<nat>,
}

impl<C> View for RetryingPtt<C> {
    type V = RetryState<C>;

    closed spec fn view(&self) -> RetryState<C> {
        RetryState {
            request: self.spec@,
            inner: self.inner,
            last_attempt: match self.last_attempt {
                Some(t) => Some(t as nat),
                None => None,
            },
        }
    }
}

/// The refusal while the next attempt is not due.
pub open spec fn unavailable_text(backend: Seq<char>) -> Seq<char> {
    "PTT backend `"@ + backend + "` is unavailable; retrying"@
}

/// The refusal of a backend that names no controller.
pub open spec fn no_controller_text(backend: Seq<char>) -> Seq<char> {
    "PTT backend `"@ + backend + "` resolved to no controller"@
}

impl<C> RetryState<C> {
    /// Whether the last attempt is too recent for another one at `now_ms`.
    pub open spec fn waiting(self, now_ms: nat) -> bool {
        self.last_attempt matches Some(t) && now_ms - t < RETRY_INTERVAL
    }

    /// Whether the backend is tried at `now_ms`.
    pub open spec fn attempts(self, now_ms: nat) -> bool {
        self.inner is None && !self.waiting(now_ms)
    }

    /// What is to be done at `now_ms` before a key can be asked of the backend.
    pub open spec fn step(self, now_ms: nat) -> EnsureChoice {
        if self.inner is Some {
            EnsureChoice::Ready
        } else if self.waiting(now_ms) {
            EnsureChoice::Refused(PttFault::Rigctld(unavailable_text(self.request.backend)))
        } else {
            match self.request.choice() {
                Ok(Some(backend)) => EnsureChoice::Open(backend),
                Ok(None) => EnsureChoice::Refused(
                    PttFault::Config(no_controller_text(self.request.backend)),
                ),
                Err(fault) => EnsureChoice::Refused(fault),
            }
        }
    }

    /// After that was decided.
    pub open spec fn ensured(self, now_ms: nat) -> RetryState<C> {
        if self.attempts(now_ms) {
            RetryState { last_attempt: Some(now_ms), ..self }
        } else {
            self
        }
    }

    /// After the backend was opened, or could not be.
    pub open spec fn opened(self, controller: Option<C>) -> RetryState<C> {
        match controller {
            Some(c) => RetryState { inner: Some(c), ..self },
            None => self,
        }
    }

    /// Whether a key is granted, given whether the controller keyed: there has to be one.
    pub open spec fn grants(self, keyed: bool) -> bool {
        self.inner is Some && keyed
    }

    /// After the controller keyed, or failed to, in which case it is dropped.
    pub open spec fn asserted(self, keyed: bool) -> RetryState<C> {
        if keyed {
            self
        } else {
            RetryState { inner: None, ..self }
        }
    }

    /// The backend as it is when the controller is to key at `now_ms`: first it is decided what to
    /// do, and where that is to open the backend, it is opened.
    pub open spec fn prepared(self, now_ms: nat, opening: Option<C>) -> RetryState<C> {
        if self.step(now_ms) is Open {
            self.ensured(now_ms).opened(opening)
        } else {
            self.ensured(now_ms)
        }
    }

    /// Whether a key wanted at `now_ms` is granted at the end of all steps, given what opening the
    /// backend yields and whether the controller keys, where they are asked.
    pub open spec fn keys(self, now_ms: nat, opening: Option<C>, keyed: bool) -> bool {
        self.prepared(now_ms, opening).grants(keyed)
    }
}

/// What opening the backend yielded.
pub open spec fn opening_view<C>(opened: Result<C, PttError>) -> Option<C> {
    match opened {
        Ok(c) => Some(c),
        Err(_) => None,
    }
}

impl<C> RetryingPtt<C> {
    /// Wraps a backend that is real but out of reach at `now_ms`, when it was tried.
    pub fn new(spec: OwnedPttSpec, now_ms: u64) -> (ptt: Self)
        ensures
            ptt@ == (RetryState::<C> {
                request: spec@,
                inner: None,
                last_attempt: Some(now_ms as nat),
            }),
    {
        RetryingPtt { spec, inner: None, last_attempt: Some(now_ms) }
    }

    /// When the backend was last tried.
    pub fn last_attempt(&self) -> (at_ms: Option<u64>)
        ensures
            match self@.last_attempt {
                Some(t) => at_ms matches Some(at) && at == t,
                None => at_ms is None,
            },
    {
        self.last_attempt
    }

    /// Decides what to do at `now_ms` so that there is a controller. The backend is tried at most
    /// once per [`RETRY_INTERVAL`].
    ///
    /// A backend that names no controller counts as unavailable, not as success: a refusal must
    /// never turn into a permitted unkeyed transmission.
    pub fn ensure(&mut self, now_ms: u64) -> (step: EnsureStep)
        ensures
            step@ == old(self)@.step(now_ms as nat),
            final(self)@ == old(self)@.ensured(now_ms as nat),
    {
        if self.inner.is_some() {
            return EnsureStep::Ready;
        }
        if let Some(t) = self.last_attempt {
            if now_ms < t || now_ms - t < RETRY_INTERVAL {
                return EnsureStep::Refused(
                    PttError::Rigctld(
                        enclose(
                            "PTT backend `",
                            self.spec.backend.as_str(),
                            "` is unavailable; retrying",
                        ),
                    ),
                );
            }
        }
        self.last_attempt = Some(now_ms);
        match build_ptt(&self.spec.as_spec()) {
            Ok(Some(backend)) => EnsureStep::Open(backend),
            Ok(None) => EnsureStep::Refused(
                PttError::Config(
                    enclose(
                        "PTT backend `",
                        self.spec.backend.as_str(),
                        "` resolved to no controller",
                    ),
                ),
            ),
            Err(e) => EnsureStep::Refused(e),
        }
    }

    /// Records how opening the backend went.
    pub fn opened(&mut self, opened: Result<C, PttError>) -> (result: Result<(), PttError>)
        ensures
            final(self)@ == old(self)@.opened(opening_view(opened)),
            match opened {
                Ok(_) => result is Ok,
                Err(e) => result == Err::<(), PttError>(e),
            },
    {
        match opened {
            Ok(c) => {
                self.inner = Some(c);
                Ok(())
            },
            Err(e) => Err(e),
        }
    }

    /// The controller to key, or the refusal where there is none.
    pub fn assert_target(&mut self) -> (target: Result<&mut C, PttError>)
        ensures
            match old(self)@.inner {
                Some(c) => target matches Ok(lent) && *lent == c && final(self)@ == (RetryState {
                    inner: Some(*final(lent)),
                    ..old(self)@
                }),
                None => {
                    &&& target matches Err(e) && e@ == PttFault::Rigctld(
                        "PTT backend unavailable"@,
                    )
                    &&& final(self)@ == old(self)@
                },
            },
    {
        match self.inner.as_mut() {
            Some(c) => Ok(c),
            None => Err(PttError::Rigctld("PTT backend unavailable".to_owned())),
        }
    }

    /// Records how keying the controller went. One that failed is dropped, so that the next
    /// transmission reaches for the backend again rather than keying a handle that the rig no
    /// longer honours. Without a controller nothing was keyed, whatever is reported: the key is
    /// refused.
    pub fn assert_ptt(&mut self, hardware: Result<(), PttError>) -> (result: Result<(), PttError>)
        ensures
            result is Ok <==> old(self)@.grants(hardware is Ok),
            match old(self)@.inner {
                Some(_) => result == hardware,
                None => result matches Err(e) && e@ == PttFault::Rigctld(
                    "PTT backend unavailable"@,
                ),
            },
            final(self)@ == old(self)@.asserted(hardware is Ok),
    {
        if self.inner.is_none() {
            return Err(PttError::Rigctld("PTT backend unavailable".to_owned()));
        }
        if hardware.is_err() {
            self.inner = None;
        }
        hardware
    }

    /// The controller to release, where there is one.
    pub fn controller(&mut self) -> (controller: Option<&mut C>)
        ensures
            match old(self)@.inner {
                Some(c) => controller matches Some(lent) && *lent == c && final(self)@ == (
                RetryState { inner: Some(*final(lent)), ..old(self)@ }),
                None => controller is None && final(self)@ == old(self)@,
            },
    {
        self.inner.as_mut()
    }

    /// The controller, where there is one.
    pub fn inner(&self) -> (controller: Option<&C>)
        ensures
            match self@.inner {
                Some(c) => controller == Some(&c),
                None => controller is None,
            },
    {
        self.inner.as_ref()
    }

    /// What a release comes to, given how the controller's own release went. Without a controller
    /// nothing is keyed, so there is nothing to release, and that is no error.
    pub fn release_ptt(&self, hardware: Result<(), PttError>) -> (result: Result<(), PttError>)
        ensures
            result == (if self@.inner is Some {
                hardware
            } else {
                Ok::<(), PttError>(())
            }),
    {
        if self.inner.is_some() {
            hardware
        } else {
            Ok(())
        }
    }

    /// Whether the transmitter is keyed, given what the controller says.
    pub fn is_asserted(&self, hardware: bool) -> (asserted: bool)
        ensures
            asserted == (self@.inner is Some && hardware),
    {
        self.inner.is_some() && hardware
    }
}

/// A refusal is never mistaken for a busy rig: a rig that is out of reach must not be retried as if
/// it were only keyed by somebody else.
pub proof fn a_refusal_is_not_a_busy_rig<C>(s: RetryState<C>, now_ms: nat)
    ensures
        s.step(now_ms) matches EnsureChoice::Refused(fault) ==> fault !is AlreadyKeyed,
{
}

/// A key wanted of the backend is granted exactly where there is a controller and it keys: the one
/// that was there, or the one that opening the backend yielded. A refusal grants none.
pub proof fn a_key_is_granted_by_a_controller_that_keyed<C>(
    s: RetryState<C>,
    now_ms: nat,
    opening: Option<C>,
    keyed: bool,
)
    ensures
        s.keys(now_ms, opening, keyed) == match s.step(now_ms) {
            EnsureChoice::Ready => keyed,
            EnsureChoice::Open(_) => opening is Some && keyed,
            EnsureChoice::Refused(_) => false,
        },
{
}

/// Nothing is radiated unkeyed: behind a backend that may be out of reach, a key is granted only
/// where a controller was there and keyed. A refusal arms nothing.
pub proof fn a_key_needs_a_controller_that_keyed<C>(
    s: RetryState<C>,
    ptt: KeyState,
    held_by: Seq<char>,
    now_ms: nat,
    opening: Option<C>,
    keyed: bool,
)
    requires
        ptt.has_controller,
        ptt.live is None,
    ensures
        ({
            let granted = s.keys(now_ms, opening, keyed);
            let after = ptt.keyed(held_by, now_ms, granted);
            &&& after.live is Some ==> keyed && (s.inner is Some || opening is Some)
            &&& !granted ==> after == ptt
        }),
{
}

/// A request for no keying never yields a controller: whatever is asked, it is refused.
pub proof fn none_is_never_reconnected<C>(s: RetryState<C>, now_ms: nat)
    requires
        s.request.wants_none(),
        s.inner is None,
    ensures
        s.step(now_ms) is Refused,
{
}

/// After a controller failed, the backend is tried again as soon as the interval since the last
/// attempt has passed, and not before.
pub proof fn a_failed_controller_is_reached_for_again<C>(s: RetryState<C>, now_ms: nat)
    requires
        s.last_attempt is Some,
    ensures
        ({
            let dropped = s.asserted(false);
            dropped.attempts(now_ms) <==> now_ms >= s.last_attempt->0 + RETRY_INTERVAL
        }),
{
}

/// What can happen to a [`RetryingPtt`].
#[verifier::reject_recursive_types(C)]
pub ghost enum RetryEvent<C> {
    /// A key was wanted at this time.
    Wanted(nat),
    /// The backend was opened, or could not be.
    Opened(Option<C>),
    /// Keying the controller succeeded, or failed.
    Asserted(bool),
}

impl<C> RetryState<C> {
    /// After one event.
    pub open spec fn after(self, event: RetryEvent<C>) -> RetryState<C> {
        match event {
            RetryEvent::Wanted(now_ms) => self.ensured(now_ms),
            RetryEvent::Opened(controller) => self.opened(controller),
            RetryEvent::Asserted(keyed) => self.asserted(keyed),
        }
    }

    /// After a history of events.
    pub open spec fn after_all(self, events: Seq<RetryEvent<C>>) -> RetryState<C>
        decreases events.len(),
    {
        if events.len() == 0 {
            self
        } else {
            self.after_all(events.drop_last()).after(events.last())
        }
    }

    /// When the backend was tried, over a history of events.
    pub open spec fn tries(self, events: Seq<RetryEvent<C>>) -> Seq<nat>
        decreases events.len(),
    {
        if events.len() == 0 {
            Seq::empty()
        } else {
            let before = self.tries(events.drop_last());
            match events.last() {
                RetryEvent::Wanted(now_ms) => if self.after_all(events.drop_last()).attempts(
                    now_ms,
                ) {
                    before.push(now_ms)
                } else {
                    before
                },
                _ => before,
            }
        }
    }
}

/// A dead rig costs one attempt per interval, however often a key is wanted: over any history, each
/// attempt comes at least [`RETRY_INTERVAL`] after the one before it, and the first of them that
/// long after the attempt that the controller was made after.
pub proof fn attempts_are_an_interval_apart<C>(s: RetryState<C>, events: Seq<RetryEvent<C>>, i: int)
    requires
        0 <= i < s.tries(events).len(),
    ensures
        i > 0 ==> s.tries(events)[i] - s.tries(events)[i - 1] >= RETRY_INTERVAL,
        i == 0 ==> (s.last_attempt matches Some(t) ==> s.tries(events)[0] - t >= RETRY_INTERVAL),
    decreases events.len(),
{
    lemma_last_attempt_is_the_last_try(s, events.drop_last());
    if i < s.tries(events.drop_last()).len() {
        attempts_are_an_interval_apart(s, events.drop_last(), i);
    }
}

proof fn lemma_last_attempt_is_the_last_try<C>(s: RetryState<C>, events: Seq<RetryEvent<C>>)
    ensures
        s.after_all(events).last_attempt == (if s.tries(events).len() == 0 {
            s.last_attempt
        } else {
            Some(s.tries(events).last())
        }),
    decreases events.len(),
{
    if events.len() > 0 {
        lemma_last_attempt_is_the_last_try(s, events.drop_last());
    }
}

/// A backend that is out of reach is reached for as it was configured: when there is no controller,
/// and five seconds have passed since the last attempt, the backend that is to be opened is the one
/// that the configured request builds, and no other. In every other case none is opened.
pub proof fn the_configured_backend_is_reopened<C>(
    s: RetryState<C>,
    now_ms: nat,
    spec: PttSpec<'_>,
    built: Result<Option<PttBackend>, PttError>,
    backend: BackendChoice,
)
    requires
        spec@ == s.request,
        call_ensures(build_ptt, (&spec,), built),
    ensures
        s.step(now_ms) == EnsureChoice::Open(backend) <==> {
            &&& s.inner is None
            &&& s.last_attempt matches Some(t) ==> now_ms >= t + 5000
            &&& built matches Ok(Some(b)) && b@ == backend
        },
{
}

/// Each kind of backend comes back as what it is, with the device, the line, the pin and the address
/// that were configured: none of them is ever replaced by another.
pub proof fn every_backend_comes_back_as_itself<C>(s: RetryState<C>, now_ms: nat)
    requires
        s.inner is None,
        s.last_attempt matches Some(t) ==> now_ms >= t + 5000,
    ensures
        s.request.backend == "vox"@ ==> s.step(now_ms) == EnsureChoice::Open(BackendChoice::Vox),
        s.request.backend == "rigctld"@ ==> s.step(now_ms) == EnsureChoice::Open(
            BackendChoice::Rigctld(s.request.rigctld_addr),
        ),
        s.request.backend == "cm108"@ ==> s.step(now_ms) == EnsureChoice::Open(
            BackendChoice::Cm108(s.request.device, s.request.gpio_pin),
        ),
        s.request.backend == "gpio"@ ==> s.step(now_ms) == EnsureChoice::Open(
            BackendChoice::Gpio(s.request.device),
        ),
        s.request.backend == "rts"@ && s.request.device.len() > 0 ==> s.step(now_ms)
            == EnsureChoice::Open(BackendChoice::Serial(s.request.device, SerialPin::Rts)),
        s.request.backend == "dtr"@ && s.request.device.len() > 0 ==> s.step(now_ms)
            == EnsureChoice::Open(BackendChoice::Serial(s.request.device, SerialPin::Dtr)),
        s.step(now_ms) == EnsureChoice::Open(BackendChoice::Vox) ==> s.request.backend == "vox"@,
{
    reveal_strlit("rts");
    reveal_strlit("dtr");
    assert("rts"@[0] != "dtr"@[0]);
    every_documented_backend_is_recognised(s.request);
}

/// Nothing is to be done exactly where a controller is there. Without one a key is refused, with the
/// backend's name, as long as the last attempt is less than five seconds ago; then the attempt is
/// made, and where the request cannot be honoured it is refused for that reason.
pub proof fn a_key_is_refused_for_its_reason<C>(s: RetryState<C>, now_ms: nat)
    ensures
        s.step(now_ms) is Ready <==> s.inner is Some,
        s.inner is None ==> match s.last_attempt {
            Some(t) => now_ms < t + 5000 ==> s.step(now_ms) == EnsureChoice::Refused(
                PttFault::Rigctld(
                    "PTT backend `"@ + s.request.backend + "` is unavailable; retrying"@,
                ),
            ),
            None => true,
        },
        s.inner is None && (s.last_attempt matches Some(t) ==> now_ms >= t + 5000)
            ==> match s.request.choice() {
            Ok(Some(_)) => s.step(now_ms) is Open,
            Ok(None) => s.step(now_ms) == EnsureChoice::Refused(
                PttFault::Config(
                    "PTT backend `"@ + s.request.backend + "` resolved to no controller"@,
                ),
            ),
            Err(fault) => s.step(now_ms) == EnsureChoice::Refused(fault),
        },
{
}

/// What each step does to the backend. Wanting a key records an attempt exactly where one is made,
/// and otherwise changes nothing. Opening it puts that controller in place, and failing to open it
/// changes nothing. A controller that keyed stays, and one that failed is dropped. What is
/// configured never changes.
pub proof fn each_step_does_its_own<C>(s: RetryState<C>, now_ms: nat, controller: C)
    ensures
        s.ensured(now_ms).inner == s.inner,
        s.ensured(now_ms).request == s.request,
        s.ensured(now_ms).last_attempt == if s.inner is None && (s.last_attempt matches Some(t)
            ==> now_ms >= t + 5000) {
            Some(now_ms)
        } else {
            s.last_attempt
        },
        s.opened(Some(controller)) == (RetryState { inner: Some(controller), ..s }),
        s.opened(None) == s,
        s.asserted(true) == s,
        s.asserted(false) == (RetryState { inner: None, ..s }),
{
}

/// Over any history the backend stays the one that was configured, and a station without a
/// controller tries again as soon as five seconds have passed since its last try, however often a
/// key was wanted in between.
pub proof fn a_dead_rig_is_tried_again_in_time<C>(
    s: RetryState<C>,
    events: Seq<RetryEvent<C>>,
    now_ms: nat,
)
    ensures
        s.after_all(events).request == s.request,
        s.tries(events).len() > 0 ==> (s.after_all(events).attempts(now_ms) <==> s.after_all(
            events,
        ).inner is None && now_ms >= s.tries(events).last() + 5000),
        s.tries(events).len() == 0 && s.last_attempt is Some ==> (s.after_all(events).attempts(
            now_ms,
        ) <==> s.after_all(events).inner is None && now_ms >= s.last_attempt->0 + 5000),
    decreases events.len(),
{
    lemma_last_attempt_is_the_last_try(s, events);
    if events.len() > 0 {
        a_dead_rig_is_tried_again_in_time(s, events.drop_last(), now_ms);
    }
}

/// A backend that is wrapped because it was out of reach has no controller, is the one that was
/// configured, and was tried just then.
pub proof fn a_wrapped_backend_is_as_configured<C>(
    spec: OwnedPttSpec,
    now_ms: u64,
    ptt: RetryingPtt<C>,
    at_ms: Option<u64>,
    asserted: bool,
)
    requires
        call_ensures(RetryingPtt::<C>::new, (spec, now_ms), ptt),
        call_ensures(RetryingPtt::<C>::last_attempt, (&ptt,), at_ms),
        call_ensures(RetryingPtt::<C>::is_asserted, (&ptt, true), asserted),
    ensures
        ptt@.request == spec@,
        ptt@.inner is None,
        at_ms == Some(now_ms),
        !asserted,
{
}

/// A request that is kept for later is the one that was made, in every part.
pub proof fn a_kept_request_is_the_same(spec: OwnedPttSpec, lent: PttSpec<'_>)
    requires
        call_ensures(OwnedPttSpec::as_spec, (&spec,), lent),
    ensures
        lent.backend@ == spec.backend@,
        lent.rigctld_addr@ == spec.rigctld_addr@,
        lent.device@ == spec.device@,
        lent.gpio_pin == spec.gpio_pin,
{
}

/// Without a controller nothing is keyed, whatever is reported of one, and there is nothing to
/// release. With one, the controller's word counts.
pub proof fn only_a_controller_can_be_keyed<C>(
    ptt: RetryingPtt<C>,
    reported: bool,
    asserted: bool,
    hardware: Result<(), PttError>,
    released: Result<(), PttError>,
)
    requires
        call_ensures(RetryingPtt::<C>::is_asserted, (&ptt, reported), asserted),
        call_ensures(RetryingPtt::<C>::release_ptt, (&ptt, hardware), released),
    ensures
        ptt@.inner is None ==> !asserted && released is Ok,
        ptt@.inner is Some ==> asserted == reported && released == hardware,
{
}

} // verus!
