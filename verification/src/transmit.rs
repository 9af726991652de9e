//! The decisions of the transmission loop. The loop itself, which sends and
//! sleeps, is the caller's: it reports what happened and is told what to do
//! next.

use vstd::prelude::*;
use crate::datagram::{destination_in, destination_of};

verus! {

/// Where the loop stands.
#[derive(Debug, Clone, Copy, PartialEq, Eq, Structural)]
pub enum LoopState {
    /// Nothing has been sent yet.
    Idle,
    /// The datagram is being sent, again and again.
    Sending,
}

/// What the caller reports.
#[derive(Debug, Clone, Copy, PartialEq, Eq, Structural)]
pub enum LoopEvent {
    /// The datagram has been built.
    Ready,
    /// The datagram went out.
    Sent,
    /// The interval has passed.
    Woke,
    /// The transport could not be opened, or the send failed.
    Failed,
}

/// What the caller is to do next.
#[derive(Debug, Clone, Copy, PartialEq, Eq)]
pub enum LoopAction {
    /// Send the whole datagram to this address.
    Transmit { destination: [u8; 4] },
    /// Confirm the send, then sleep for so many milliseconds.
    Sleep { millis: u64 },
    /// Stop for good.
    Abort,
    /// Nothing to do.
    Wait,
}

/// An action as the contracts speak of it: the destination address is a
/// sequence of bytes.
pub enum Decision {
    Transmit { destination: Seq<u8> },
    Sleep { millis: u64 },
    Abort,
    Wait,
}

impl LoopAction {
    pub open spec fn view(&self) -> Decision {
        match *self {
            LoopAction::Transmit { destination } => Decision::Transmit { destination: destination@ },
            LoopAction::Sleep { millis } => Decision::Sleep { millis },
            LoopAction::Abort => Decision::Abort,
            LoopAction::Wait => Decision::Wait,
        }
    }
}

/// To send is to read the destination out of the datagram itself; a
/// datagram without a header to read it from ends the loop.
pub open spec fn send_decision(datagram: Seq<u8>) -> Decision {
    match destination_in(datagram) {
        Some(destination) => Decision::Transmit { destination },
        None => Decision::Abort,
    }
}

/// The state after an event. The loop starts to send once and never stops.
pub open spec fn next_state(state: LoopState, event: LoopEvent) -> LoopState {
    match (state, event) {
        (LoopState::Idle, LoopEvent::Ready) => LoopState::Sending,
        _ => state,
    }
}

/// The action after an event: a failure ends the loop; a datagram that is
/// ready, or an interval that has passed, is followed by a send; a send is
/// followed by the interval.
pub open spec fn next_action(
    state: LoopState,
    event: LoopEvent,
    datagram: Seq<u8>,
    interval: u64,
) -> Decision {
    match (state, event) {
        (_, LoopEvent::Failed) => Decision::Abort,
        (LoopState::Idle, LoopEvent::Ready) => send_decision(datagram),
        (LoopState::Sending, LoopEvent::Woke) => send_decision(datagram),
        (LoopState::Sending, LoopEvent::Sent) => Decision::Sleep { millis: interval },
        _ => Decision::Wait,
    }
}

/// One step of the loop: from the state and what happened to the next state
/// and what to do.
pub fn step(state: LoopState, event: LoopEvent, datagram: &Vec<u8>, interval: u64) -> (r: (
    LoopState,
    LoopAction,
))
    ensures
        r.0 == next_state(state, event),
        r.1@ == next_action(state, event, datagram@, interval),
{
    match (state, event) {
        (_, LoopEvent::Failed) => (state, LoopAction::Abort),
        (LoopState::Idle, LoopEvent::Ready) => (LoopState::Sending, send(datagram)),
        (LoopState::Sending, LoopEvent::Woke) => (LoopState::Sending, send(datagram)),
        (LoopState::Sending, LoopEvent::Sent) => (
            LoopState::Sending,
            LoopAction::Sleep { millis: interval },
        ),
        _ => (state, LoopAction::Wait),
    }
}

/// The action that sends the datagram to the address in its header.
fn send(datagram: &Vec<u8>) -> (a: LoopAction)
    ensures
        a@ == send_decision(datagram@),
{
    match destination_of(datagram) {
        Some(destination) => LoopAction::Transmit { destination },
        None => LoopAction::Abort,
    }
}

/// Once the loop sends, it sends whatever happens.
pub proof fn lemma_sending_is_kept(event: LoopEvent)
    ensures
        next_state(LoopState::Sending, event) == LoopState::Sending,
{
}

/// Every send of the loop, the first one and each one after an interval, is
/// the same: it depends on the datagram alone.
pub proof fn lemma_every_send_is_alike(datagram: Seq<u8>, first: u64, later: u64)
    ensures
        next_action(LoopState::Idle, LoopEvent::Ready, datagram, first) == send_decision(datagram),
        next_action(LoopState::Sending, LoopEvent::Woke, datagram, later) == send_decision(
            datagram,
        ),
{
}

} // verus!
