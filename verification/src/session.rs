//! What a session does between one burst and the next, and how it begins and ends.

use vstd::prelude::*;

use crate::error::{PttFault, RelayFault};
use crate::one_relay::{a_relay_comes_to_its_outcome, longest_relay, Surroundings};
use crate::relay::{Reception, RelayAction, Reply, RepeaterState, SessionResult, Stage};
use crate::transcript::lemma_same_transcript;

verus! {

impl RepeaterState {
    /// After that many rounds in which the session was not asked to stop, and nothing arrived.
    pub open spec fn after_quiet(self, rounds: nat) -> RepeaterState
        decreases rounds,
    {
        if rounds == 0 {
            self
        } else {
            self.after_quiet((rounds - 1) as nat).next(Reply::StopRead(false)).next(
                Reply::Received(Reception::Timeout),
            )
        }
    }

    /// Whether the session is over, or will be as soon as its key is released, with this result.
    pub open spec fn ends_with(self, result: SessionResult) -> bool {
        ||| self.stage == Stage::Finished(result)
        ||| self.action() is Release && self.next(Reply::Released).stage == Stage::Finished(result)
    }

    /// The same repeater with no session, at rest.
    pub open spec fn alone(self) -> RepeaterState {
        RepeaterState { session: None, stage: Stage::Rest, ..self }
    }
}

/// A session waits through quiet spells, however long they are: as often as nothing arrives in time
/// and it was not asked to stop, it is afterwards just where it was, with its count, its key and
/// everything else. It looks whether it was asked to stop every hundred milliseconds.
pub proof fn a_session_waits_through_quiet_spells(s: RepeaterState, rounds: nat)
    requires
        s.action() == RelayAction::ReadStop,
    ensures
        s.after_quiet(rounds) == s,
        s.after_quiet(rounds).next(Reply::StopRead(false)).action() == (RelayAction::Receive {
            timeout_ms: 100,
        }),
    decreases rounds,
{
    if rounds > 0 {
        a_session_waits_through_quiet_spells(s, (rounds - 1) as nat);
    }
}

/// While it waits, a session keeps what it has: looking whether it was asked to stop, waiting in
/// vain and receiving a burst change neither its count, nor its key, nor what it counted otherwise.
pub proof fn waiting_changes_nothing(s: RepeaterState, now_ms: u64)
    requires
        s.action() is Receive,
    ensures
        ({
            let quiet = s.next(Reply::Received(Reception::Timeout));
            let burst = s.next(Reply::Received(Reception::Burst { now_ms }));
            &&& quiet.action() == RelayAction::ReadStop
            &&& burst.action() == RelayAction::Decode
            &&& quiet.next(Reply::StopRead(false)) == s
            &&& burst == (RepeaterState { stage: burst.stage, ..s })
            &&& quiet == (RepeaterState { stage: quiet.stage, ..s })
        }),
{
}

/// A session ends as asked only if it was asked to: over any course of replies among which there is
/// neither a request to stop nor the end of the bursts, it goes on, or fails.
pub proof fn a_session_does_not_end_unasked(s: RepeaterState, replies: Seq<Reply>, relayed: nat)
    requires
        s.wf(),
        s.at_rest(),
        s.settings.enabled,
        s.session_started().replied(replies).ends_with(Ok(relayed)),
    ensures
        exists|i: int|
            0 <= i < replies.len() && (#[trigger] replies[i] == Reply::StopRead(true) || replies[i]
                == Reply::Received(Reception::Disconnected)),
{
    if forall|i: int|
        0 <= i < replies.len() ==> #[trigger] replies[i] != Reply::StopRead(true) && replies[i]
            != Reply::Received(Reception::Disconnected) {
        lemma_goes_on(s.session_started(), replies);
    }
}

proof fn lemma_goes_on(t: RepeaterState, replies: Seq<Reply>)
    requires
        t.wf(),
        t.session is Some,
        t.stage is DrainBursts,
        forall|i: int|
            0 <= i < replies.len() ==> #[trigger] replies[i] != Reply::StopRead(true) && replies[i]
                != Reply::Received(Reception::Disconnected),
    ensures
        t.replied(replies).wf(),
        t.replied(replies).session is Some || match t.replied(replies).stage {
            Stage::EndSession { result, .. } => result is Err,
            Stage::Finished(result) => result is Err,
            _ => false,
        },
    decreases replies.len(),
{
    if replies.len() > 0 {
        let before = replies.drop_last();
        assert forall|i: int| 0 <= i < before.len() implies #[trigger] before[i]
            != Reply::StopRead(true) && before[i] != Reply::Received(Reception::Disconnected) by {
            assert(before[i] == replies[i]);
        }
        lemma_goes_on(t, before);
        assert(replies.last() == replies[replies.len() - 1]);
    }
}

/// A session that is asked to stop, or for which there are no more bursts, ends with what it
/// counted. If it holds a key, it asks for the release of that key first, and for nothing else.
pub proof fn a_session_ends_when_asked(s: RepeaterState, relayed: nat)
    requires
        s.wf(),
        s.session == Some(relayed),
    ensures
        s.action() is ReadStop ==> {
            let stopped = s.next(Reply::StopRead(true));
            &&& stopped.ends_with(Ok(relayed))
            &&& stopped.action() == match s.held() {
                Some(key) => RelayAction::Release(key),
                None => RelayAction::Rest,
            }
        },
        s.action() is Receive ==> {
            let stopped = s.next(Reply::Received(Reception::Disconnected));
            &&& stopped.ends_with(Ok(relayed))
            &&& stopped.action() == match s.held() {
                Some(key) => RelayAction::Release(key),
                None => RelayAction::Rest,
            }
        },
{
}

/// A session begins by throwing away what queued up before it. Then, where carrier sense is on, it
/// opens the receiver of the output band, and only if that succeeds it goes on; otherwise it ends
/// with the reason, and nothing is keyed. Where carrier sense is off, it goes on at once. It keeps a
/// key that is held, starts its count at zero, and touches nothing else.
pub proof fn a_session_begins_in_order(s: RepeaterState, reason: Seq<char>)
    requires
        s.wf(),
        s.action() == RelayAction::Rest,
        s.settings.enabled,
    ensures
        ({
            let begun = s.session_started();
            let drained = begun.next(Reply::Drained);
            let ready = if s.settings.carrier_sense {
                drained.next(Reply::SensorOpened(Ok(())))
            } else {
                drained
            };
            let failed = drained.next(Reply::SensorOpened(Err(reason)));
            &&& begun.action() == RelayAction::DrainBursts
            &&& s.settings.carrier_sense ==> drained.action() == RelayAction::OpenSensor
            &&& ready.action() == RelayAction::ReadStop
            &&& ready.session == Some(0nat)
            &&& ready.held() == s.held()
            &&& ready.deferred == s.deferred
            &&& ready.sense_faults == 0
            &&& ready.settings == s.settings
            &&& s.settings.carrier_sense ==> {
                &&& failed.ends_with(
                    Err(
                        RelayFault::Modem(
                            "carrier sense is on and the output band cannot be received: "@
                                + reason,
                        ),
                    ),
                )
                &&& failed.action() == match s.held() {
                    Some(key) => RelayAction::Release(key),
                    None => RelayAction::Rest,
                }
            }
        }),
{
}

/// A session relays a burst as a single relay does: it asks for the same things in the same order,
/// and is left with the same key and the same counts. What the single relay returns as relayed, the
/// session counts; what that does not relay, the session passes over; and where that fails, the
/// session ends with the same failure.
pub proof fn a_session_relays_as_a_single_relay_does(
    s: RepeaterState,
    around: Surroundings,
    now_ms: u64,
    relayed: nat,
)
    requires
        s.wf(),
        s.action() is Receive,
        s.session == Some(relayed),
        relayed < u64::MAX,
    ensures
        ({
            let within = s.next(Reply::Received(Reception::Burst { now_ms }));
            let single = s.alone().relay_started(now_ms);
            let after = around.driven(within, longest_relay());
            let done = around.driven(single, longest_relay());
            &&& around.asked(within, longest_relay()) =~= around.asked(single, longest_relay())
            &&& after.held() == done.held()
            &&& after.deferred == done.deferred
            &&& after.sense_faults == done.sense_faults
            &&& match done.stage {
                Stage::Relayed(Ok(Some(_))) => after.action() == RelayAction::ReadStop
                    && after.session == Some(relayed + 1),
                Stage::Relayed(Ok(None)) => after.action() == RelayAction::ReadStop && after.session
                    == Some(relayed),
                Stage::Relayed(Err(fault)) => after.stage == Stage::Finished(Err(fault)),
                _ => false,
            }
        }),
{
    let within = s.next(Reply::Received(Reception::Burst { now_ms }));
    let single = s.alone().relay_started(now_ms);
    a_relay_comes_to_its_outcome(within, around);
    a_relay_comes_to_its_outcome(single, around);
    lemma_same_transcript(within, single, around, now_ms);
}

/// Whatever fails in a session, the session ends, and with the failure that came first: a key that
/// is refused, a transmission that fails. A frame that was not sent is not counted.
pub proof fn a_failure_ends_the_session(s: RepeaterState, reason: Seq<char>, fault: PttFault)
    requires
        s.wf(),
        s.session is Some,
    ensures
        s.action() is TransmitFrame || s.action() is TransmitId ==> s.next(
            Reply::Transmitted(Err(reason)),
        ).next(Reply::Released).stage == Stage::Finished(Err(RelayFault::Modem(reason))),
        s.action() is Key ==> s.next(Reply::Keyed(Err(fault))).stage == Stage::Finished(
            Err(RelayFault::Ptt(fault)),
        ),
{
}

/// A session that breaks off leaves nothing behind: the key that was held is to be released, and
/// only that; after it, as without a key, the repeater is at rest, with no session and no sensing
/// faults. How many bursts were dropped is not forgotten.
pub proof fn an_abnormal_exit_leaves_nothing_behind(s: RepeaterState)
    ensures
        ({
            let broken = s.abandoned();
            let over = broken.next(Reply::Released);
            &&& broken.action() == match s.held() {
                Some(key) => RelayAction::Release(key),
                None => RelayAction::Rest,
            }
            &&& over.action() == RelayAction::Rest
            &&& over == (RepeaterState {
                session_key: None,
                session: None,
                sense_faults: 0,
                stage: Stage::Rest,
                ..s
            })
        }),
{
}

} // verus!
