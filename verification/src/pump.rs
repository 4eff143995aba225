//! The input pump: captured events on their way to the host.
//!
//! The pump reads one raw event, rewrites it to external coordinates, sends
//! it to the host, and starts over. It ends in one of two ways. When the
//! host has dropped its end of the channel, a send fails and the pump stops:
//! this is how it is shut down. When a read fails, the pump gives up.
//!
//! Reading and sending block, so they are the caller's part. The decisions
//! are made here: the caller starts with `pump_start`, performs the action
//! it is given, and reports what came of it to `pump_step`.

use crate::event::{normalize_event_height, normalized_event, Event};
use vstd::prelude::*;

verus! {

/// Where the pump stands.
#[derive(Debug, Clone, Copy, PartialEq, Eq)]
pub enum PumpState {
    /// A read of the next raw event is under way.
    Reading,
    /// An event is on its way to the host.
    Sending,
    /// The host is gone, and the pump has ended.
    Stopped,
    /// A read failed, or the caller reported what the pump had not asked
    /// for, and the pump has ended.
    Failed,
}

/// What came of the last action.
#[derive(Debug, PartialEq)]
pub enum PumpInput {
    /// The read returned this raw event.
    Event(Event),
    /// The read failed.
    ReadFailed,
    /// The host has the event.
    Sent,
    /// The event could not be sent: the host has dropped its end.
    ReceiverGone,
}

/// What the caller does next.
#[derive(Debug, PartialEq)]
pub enum PumpAction {
    /// Read the next raw event.
    Read,
    /// Send this event to the host.
    Send(Event),
    /// Leave the loop.
    Stop,
}

/// Whether the pump has ended.
pub open spec fn is_finished(state: PumpState) -> bool {
    state is Stopped || state is Failed
}

/// The state after an input, and the action that it calls for.
pub open spec fn pump_transition(state: PumpState, input: PumpInput) -> (PumpState, PumpAction) {
    match (state, input) {
        (PumpState::Reading, PumpInput::Event(event)) => (
            PumpState::Sending,
            PumpAction::Send(normalized_event(event)),
        ),
        (PumpState::Sending, PumpInput::Sent) => (PumpState::Reading, PumpAction::Read),
        (PumpState::Sending, PumpInput::ReceiverGone) => (PumpState::Stopped, PumpAction::Stop),
        (PumpState::Stopped, _) => (PumpState::Stopped, PumpAction::Stop),
        _ => (PumpState::Failed, PumpAction::Stop),
    }
}

/// The state and the action that the pump starts with: a first read.
pub fn pump_start() -> (start: (PumpState, PumpAction))
    ensures
        start == (PumpState::Reading, PumpAction::Read),
{
    (PumpState::Reading, PumpAction::Read)
}

/// Takes what came of the last action and says what to do next.
pub fn pump_step(state: PumpState, input: PumpInput) -> (next: (PumpState, PumpAction))
    ensures
        next == pump_transition(state, input),
{
    match state {
        PumpState::Reading => match input {
            PumpInput::Event(event) => (
                PumpState::Sending,
                PumpAction::Send(normalize_event_height(event)),
            ),
            _ => (PumpState::Failed, PumpAction::Stop),
        },
        PumpState::Sending => match input {
            PumpInput::Sent => (PumpState::Reading, PumpAction::Read),
            PumpInput::ReceiverGone => (PumpState::Stopped, PumpAction::Stop),
            _ => (PumpState::Failed, PumpAction::Stop),
        },
        PumpState::Stopped => (PumpState::Stopped, PumpAction::Stop),
        PumpState::Failed => (PumpState::Failed, PumpAction::Stop),
    }
}

/// Whatever is sent to the host is a raw event that was just read, rewritten
/// to external coordinates.
pub proof fn lemma_pump_sends_normalized_events(state: PumpState, input: PumpInput)
    ensures
        pump_transition(state, input).1 matches PumpAction::Send(sent) ==> state is Reading && (
        input matches PumpInput::Event(event) && sent == normalized_event(event)),
        state is Reading && input is Event ==> pump_transition(state, input).1 is Send,
{
}

/// The pump goes on exactly while reads and sends succeed in turn, and asks
/// the caller to stop exactly when it has ended.
pub proof fn lemma_pump_stops_when_finished(state: PumpState, input: PumpInput)
    ensures
        pump_transition(state, input).1 is Stop <==> is_finished(pump_transition(state, input).0),
        pump_transition(state, input).1 is Send <==> pump_transition(state, input).0 is Sending,
        pump_transition(state, input).1 is Read <==> pump_transition(state, input).0 is Reading,
{
}

/// A running pump stops without a failure only when a send finds the host
/// gone, and every such send stops it.
pub proof fn lemma_pump_stops_only_without_receiver(state: PumpState, input: PumpInput)
    requires
        !is_finished(state),
    ensures
        pump_transition(state, input).0 is Stopped <==> state is Sending && input is ReceiverGone,
        state is Reading && input is ReadFailed ==> pump_transition(state, input).0 is Failed,
{
}

/// A pump that has ended stays as it is, whatever is reported to it.
pub proof fn lemma_pump_stays_finished(state: PumpState, input: PumpInput)
    requires
        is_finished(state),
    ensures
        pump_transition(state, input) == (state, PumpAction::Stop),
{
}

} // verus!
