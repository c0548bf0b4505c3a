//! The life of one call.
//!
//! A call is created, dispatched to the service of its endpoint, and then
//! completed, with success or with failure. It is never dispatched twice:
//! whoever wants to try again makes a new call.
//!
//! Whoever drives the call does the waiting. The driver tells the call what
//! happened, one event at a time, and the call answers each event with what
//! is to be done about it. A value of a stream is handed on when it arrives
//! and is not kept.

use crate::status::Status;
use crate::Readiness;
use vstd::prelude::*;

verus! {

/// How a call ended.
#[derive(Clone, Copy, Debug, PartialEq, Eq, Structural)]
pub enum Outcome {
    Success,
    Failure,
}

/// Where a call stands.
#[derive(Clone, Copy, Debug, PartialEq, Eq, Structural)]
pub enum CallState {
    /// The request has not been handed to the service.
    Created,
    /// The request has been handed to the service and the call is still
    /// running. Only in this state does a call hold resources.
    Dispatched,
    /// The call is over.
    Completed(Outcome),
}

/// Something that happened to a call.
#[derive(Clone, Debug, PartialEq, Eq)]
pub enum CallEvent<T> {
    /// A readiness probe was answered.
    Probed(Readiness),
    /// The request was handed to the service.
    Dispatched,
    /// A value arrived.
    Arrived(T),
    /// The transport signalled that no more values will arrive.
    Finished,
    /// The transport signalled a failure.
    Failed(Status),
    /// The caller gave the call up.
    Abandoned,
}

/// What is to be done about an event.
#[derive(Clone, Debug, PartialEq, Eq)]
pub enum CallAction<T> {
    /// Nothing.
    Nothing,
    /// Hand this value on now.
    Forward(T),
    /// Tell the receiver that no more values will come, and let go of what
    /// the call held.
    Complete,
    /// Tell the receiver that the call failed with this status, and let go
    /// of what the call held.
    Fail(Status),
    /// Let go of what the call held.
    Release,
}

impl<T> CallAction<T> {
    /// Whether this answer asks to let go of what the call held.
    pub open spec fn spec_releases(&self) -> bool {
        match self {
            CallAction::Complete | CallAction::Fail(_) | CallAction::Release => true,
            CallAction::Nothing | CallAction::Forward(_) => false,
        }
    }

    /// Whether this answer asks to let go of what the call held.
    #[verifier::when_used_as_spec(spec_releases)]
    pub fn releases(&self) -> (released: bool)
        ensures
            released == self.spec_releases(),
    {
        match self {
            CallAction::Complete | CallAction::Fail(_) | CallAction::Release => true,
            CallAction::Nothing | CallAction::Forward(_) => false,
        }
    }
}

impl CallState {
    /// Whether the call holds resources.
    pub open spec fn spec_holds_resources(self) -> bool {
        self == CallState::Dispatched
    }

    /// Where the call stands after `event`, and what is to be done about it.
    ///
    /// An event that does not fit the state changes nothing and asks for
    /// nothing. An answered probe never fits: readiness is advice only.
    pub open spec fn spec_step<T>(self, event: CallEvent<T>) -> (CallState, CallAction<T>) {
        match (self, event) {
            (CallState::Created, CallEvent::Dispatched) => (
                CallState::Dispatched,
                CallAction::Nothing,
            ),
            (CallState::Dispatched, CallEvent::Arrived(value)) => (
                CallState::Dispatched,
                CallAction::Forward(value),
            ),
            (CallState::Dispatched, CallEvent::Finished) => (
                CallState::Completed(Outcome::Success),
                CallAction::Complete,
            ),
            (CallState::Dispatched, CallEvent::Failed(status)) => (
                CallState::Completed(Outcome::Failure),
                CallAction::Fail(status),
            ),
            (CallState::Dispatched, CallEvent::Abandoned) => (
                CallState::Completed(Outcome::Failure),
                CallAction::Release,
            ),
            _ => (self, CallAction::Nothing),
        }
    }

    /// Whether the call holds resources.
    #[verifier::when_used_as_spec(spec_holds_resources)]
    pub fn holds_resources(self) -> (held: bool)
        ensures
            held == self.spec_holds_resources(),
    {
        match self {
            CallState::Dispatched => true,
            _ => false,
        }
    }

    /// Takes in `event` and says what is to be done about it.
    pub fn step<T>(&mut self, event: CallEvent<T>) -> (action: CallAction<T>)
        ensures
            (*final(self), action) == old(self).spec_step(event),
    {
        match *self {
            CallState::Created => match event {
                CallEvent::Dispatched => {
                    *self = CallState::Dispatched;
                    CallAction::Nothing
                },
                _ => CallAction::Nothing,
            },
            CallState::Dispatched => match event {
                CallEvent::Arrived(value) => CallAction::Forward(value),
                CallEvent::Finished => {
                    *self = CallState::Completed(Outcome::Success);
                    CallAction::Complete
                },
                CallEvent::Failed(status) => {
                    *self = CallState::Completed(Outcome::Failure);
                    CallAction::Fail(status)
                },
                CallEvent::Abandoned => {
                    *self = CallState::Completed(Outcome::Failure);
                    CallAction::Release
                },
                _ => CallAction::Nothing,
            },
            CallState::Completed(_) => CallAction::Nothing,
        }
    }
}

/// Where a call that stands at `state` stands after `events`, in their order.
pub open spec fn state_after<T>(state: CallState, events: Seq<CallEvent<T>>) -> CallState
    decreases events.len(),
{
    if events.len() == 0 {
        state
    } else {
        state_after(state.spec_step(events[0]).0, events.drop_first())
    }
}

/// The values that a call which stands at `state` forwards over `events`, in
/// the order in which it forwards them.
pub open spec fn forwarded<T>(state: CallState, events: Seq<CallEvent<T>>) -> Seq<T>
    decreases events.len(),
{
    if events.len() == 0 {
        Seq::empty()
    } else {
        let (next, action) = state.spec_step(events[0]);
        let rest = forwarded(next, events.drop_first());
        match action {
            CallAction::Forward(value) => seq![value] + rest,
            _ => rest,
        }
    }
}

/// The values that arrive in `events` before the first event that ends a
/// running call, in the order of their arrival.
pub open spec fn arrivals<T>(events: Seq<CallEvent<T>>) -> Seq<T>
    decreases events.len(),
{
    if events.len() == 0 {
        Seq::empty()
    } else {
        match events[0] {
            CallEvent::Arrived(value) => seq![value] + arrivals(events.drop_first()),
            CallEvent::Finished | CallEvent::Failed(_) | CallEvent::Abandoned => Seq::empty(),
            CallEvent::Probed(_) | CallEvent::Dispatched => arrivals(events.drop_first()),
        }
    }
}

/// How many of `events` take up resources for a call that stands at `state`:
/// how often the call goes from holding nothing to holding some.
pub open spec fn acquisitions<T>(state: CallState, events: Seq<CallEvent<T>>) -> nat
    decreases events.len(),
{
    if events.len() == 0 {
        0
    } else {
        let next = state.spec_step(events[0]).0;
        let rest = acquisitions(next, events.drop_first());
        if !state.holds_resources() && next.holds_resources() {
            1 + rest
        } else {
            rest
        }
    }
}

/// How many of the answers that a call which stands at `state` gives to
/// `events` ask to let go of what the call held.
pub open spec fn releases<T>(state: CallState, events: Seq<CallEvent<T>>) -> nat
    decreases events.len(),
{
    if events.len() == 0 {
        0
    } else {
        let (next, action) = state.spec_step(events[0]);
        let rest = releases(next, events.drop_first());
        if action.releases() {
            1 + rest
        } else {
            rest
        }
    }
}

/// What a call holds, as a count: one if it holds resources, else nothing.
pub open spec fn held(state: CallState) -> nat {
    if state.holds_resources() {
        1
    } else {
        0
    }
}

/// A call that is over stays as it is and forwards nothing more, whatever
/// happens: nothing is tried again.
pub proof fn law_completed_is_final<T>(outcome: Outcome, events: Seq<CallEvent<T>>)
    ensures
        state_after(CallState::Completed(outcome), events) == CallState::Completed(outcome),
        forwarded(CallState::Completed(outcome), events) == Seq::<T>::empty(),
    decreases events.len(),
{
    if events.len() > 0 {
        law_completed_is_final(outcome, events.drop_first());
    }
}

/// A running call forwards the values that arrive, each one once and in the
/// order of arrival, until the transport signals completion or failure or
/// the caller gives the call up. After that it forwards nothing.
pub proof fn law_forwards_in_arrival_order<T>(events: Seq<CallEvent<T>>)
    ensures
        forwarded(CallState::Dispatched, events) == arrivals(events),
    decreases events.len(),
{
    if events.len() > 0 {
        let rest = events.drop_first();
        match events[0] {
            CallEvent::Finished => {
                law_completed_is_final(Outcome::Success, rest);
            },
            CallEvent::Failed(_) | CallEvent::Abandoned => {
                law_completed_is_final(Outcome::Failure, rest);
            },
            _ => {
                law_forwards_in_arrival_order(rest);
            },
        }
    }
}

/// A call that is dispatched, receives `values` one by one and is then told
/// that no more will arrive has forwarded exactly `values` and has
/// succeeded. With no value at all this still holds: the call completes.
pub proof fn law_stream_is_handed_on<T>(values: Seq<T>)
    ensures
        forwarded(
            CallState::Created,
            seq![CallEvent::Dispatched] + values.map_values(|v: T| CallEvent::Arrived(v))
                + seq![CallEvent::Finished],
        ) == values,
        state_after(
            CallState::Created,
            seq![CallEvent::<T>::Dispatched] + values.map_values(|v: T| CallEvent::Arrived(v))
                + seq![CallEvent::Finished],
        ) == CallState::Completed(Outcome::Success),
{
    let arrive = values.map_values(|v: T| CallEvent::Arrived(v));
    let events = seq![CallEvent::Dispatched] + arrive + seq![CallEvent::Finished];
    assert(events.drop_first() == arrive + seq![CallEvent::Finished]);
    lemma_values_then_finished(values);
}

proof fn lemma_values_then_finished<T>(values: Seq<T>)
    ensures
        forwarded(
            CallState::Dispatched,
            values.map_values(|v: T| CallEvent::Arrived(v)) + seq![CallEvent::Finished],
        ) == values,
        state_after(
            CallState::Dispatched,
            values.map_values(|v: T| CallEvent::Arrived(v)) + seq![CallEvent::<T>::Finished],
        ) == CallState::Completed(Outcome::Success),
    decreases values.len(),
{
    let events = values.map_values(|v: T| CallEvent::Arrived(v)) + seq![CallEvent::Finished];
    if values.len() == 0 {
        assert(forwarded(CallState::Completed(Outcome::Success), events.drop_first())
            == Seq::<T>::empty());
    } else {
        let rest = values.drop_first();
        assert(events.drop_first() =~= rest.map_values(|v: T| CallEvent::Arrived(v))
            + seq![CallEvent::Finished]);
        lemma_values_then_finished(rest);
    }
}

/// Readiness is advice only. One more answered probe, at any point of a
/// call's life and whatever it answered, changes neither where the call ends
/// nor what it forwards.
pub proof fn law_probe_changes_nothing<T>(
    state: CallState,
    events: Seq<CallEvent<T>>,
    at: int,
    readiness: Readiness,
)
    requires
        0 <= at <= events.len(),
    ensures
        state_after(state, events.insert(at, CallEvent::Probed(readiness))) == state_after(
            state,
            events,
        ),
        forwarded(state, events.insert(at, CallEvent::Probed(readiness))) == forwarded(
            state,
            events,
        ),
    decreases at,
{
    let probed = events.insert(at, CallEvent::Probed(readiness));
    if at == 0 {
        assert(probed.drop_first() =~= events);
    } else {
        assert(probed.drop_first() =~= events.drop_first().insert(
            at - 1,
            CallEvent::Probed(readiness),
        ));
        law_probe_changes_nothing(
            state.spec_step(events[0]).0,
            events.drop_first(),
            at - 1,
            readiness,
        );
    }
}

/// A call that is given up holds nothing afterwards, wherever it stood. If
/// it was running, the answer is to let go of what it held.
pub proof fn law_abandoned_call_holds_nothing<T>(state: CallState)
    ensures
        !state.spec_step(CallEvent::<T>::Abandoned).0.holds_resources(),
        state.holds_resources() ==> state.spec_step(CallEvent::<T>::Abandoned).1
            == CallAction::<T>::Release,
{
}

/// Giving a call up ends it at whatever point of its life: after any events,
/// once the caller has given it up, it holds nothing.
pub proof fn law_abandoning_lets_go<T>(state: CallState, events: Seq<CallEvent<T>>)
    ensures
        !state_after(state, events.push(CallEvent::Abandoned)).holds_resources(),
    decreases events.len(),
{
    let ended = events.push(CallEvent::Abandoned);
    if events.len() == 0 {
        assert(state_after(state.spec_step(ended[0]).0, ended.drop_first()) == state.spec_step(
            ended[0],
        ).0);
    } else {
        assert(ended.drop_first() =~= events.drop_first().push(CallEvent::Abandoned));
        law_abandoning_lets_go(state.spec_step(events[0]).0, events.drop_first());
    }
}

/// The answer to an event asks to let go of what the call held exactly if the
/// call held resources before the event and holds none after it.
pub proof fn law_release_is_asked_when_let_go<T>(state: CallState, event: CallEvent<T>)
    ensures
        state.spec_step(event).1.releases() <==> state.holds_resources() && !state.spec_step(
            event,
        ).0.holds_resources(),
{
}

/// Resources are accounted for. Whoever adds one for each event that takes
/// resources up and takes one off for each answer that asks to let go ends
/// with what the call holds: the count is back where it began once the call
/// holds nothing.
pub proof fn law_resources_are_balanced<T>(state: CallState, events: Seq<CallEvent<T>>)
    ensures
        held(state) + acquisitions(state, events) - releases(state, events) == held(
            state_after(state, events),
        ),
    decreases events.len(),
{
    if events.len() > 0 {
        law_release_is_asked_when_let_go(state, events[0]);
        law_resources_are_balanced(state.spec_step(events[0]).0, events.drop_first());
    }
}

} // verus!
