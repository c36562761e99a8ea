//! The subscriber task's decision rules.
//!
//! One subscriber serves one input topic: it connects, subscribes, and then
//! relays each decoded payload into the fan-in channel.  A connect or
//! subscribe failure, a rejected enqueue (the receiver is gone), or the end
//! of the stream stops the task; a payload that does not decode as text is
//! skipped.  The I/O loop around the library performs each action and feeds
//! the outcome back as the next event.

use vstd::prelude::*;

verus! {

/// Where a subscriber task stands.
#[derive(Clone, Copy, PartialEq, Eq, Structural, Debug)]
pub enum SubscriberPhase {
    /// Acquiring a connection to the bus.
    Connecting,
    /// Connected; the subscribe call is outstanding.
    Subscribing,
    /// Subscribed; relaying messages.
    Receiving,
    /// Terminated; the task takes no further action.
    Stopped,
}

/// What the outside world reports to a subscriber task.
#[derive(PartialEq, Eq, Debug)]
pub enum SubscriberEvent {
    ConnectOk,
    ConnectFailed,
    SubscribeOk,
    SubscribeFailed,
    /// A payload arrived and decoded as text.
    Message(String),
    /// A payload arrived but was not representable as text.
    DecodeFailed,
    /// The subscription's stream ended.
    StreamEnded,
    EnqueueOk,
    /// The enqueue failed: the channel's receiver was dropped.
    EnqueueRejected,
}

/// What the subscriber task asks its I/O loop to do next.
#[derive(PartialEq, Eq, Debug)]
pub enum SubscriberAction {
    /// Issue the subscribe call.
    Subscribe,
    /// Await the next payload.
    Await,
    /// Send this payload into the fan-in channel.
    Enqueue(String),
    /// Terminate the task.
    Stop,
}

/// How a subscriber task moves from phase to phase.  Failures stop this
/// task alone; a decode failure merely skips the payload; any event that
/// its phase does not expect stops the task.
pub open spec fn subscriber_spec_step(phase: SubscriberPhase, event: SubscriberEvent) -> (
    SubscriberPhase,
    SubscriberAction,
) {
    match (phase, event) {
        (SubscriberPhase::Connecting, SubscriberEvent::ConnectOk) => (
            SubscriberPhase::Subscribing,
            SubscriberAction::Subscribe,
        ),
        (SubscriberPhase::Subscribing, SubscriberEvent::SubscribeOk) => (
            SubscriberPhase::Receiving,
            SubscriberAction::Await,
        ),
        (SubscriberPhase::Receiving, SubscriberEvent::Message(s)) => (
            SubscriberPhase::Receiving,
            SubscriberAction::Enqueue(s),
        ),
        (SubscriberPhase::Receiving, SubscriberEvent::DecodeFailed) => (
            SubscriberPhase::Receiving,
            SubscriberAction::Await,
        ),
        (SubscriberPhase::Receiving, SubscriberEvent::EnqueueOk) => (
            SubscriberPhase::Receiving,
            SubscriberAction::Await,
        ),
        _ => (SubscriberPhase::Stopped, SubscriberAction::Stop),
    }
}

/// One decision of a subscriber task, as run by its I/O loop.
pub fn subscriber_step(phase: SubscriberPhase, event: SubscriberEvent) -> (r: (
    SubscriberPhase,
    SubscriberAction,
))
    ensures
        r == subscriber_spec_step(phase, event),
{
    match (phase, event) {
        (SubscriberPhase::Connecting, SubscriberEvent::ConnectOk) => (
            SubscriberPhase::Subscribing,
            SubscriberAction::Subscribe,
        ),
        (SubscriberPhase::Subscribing, SubscriberEvent::SubscribeOk) => (
            SubscriberPhase::Receiving,
            SubscriberAction::Await,
        ),
        (SubscriberPhase::Receiving, SubscriberEvent::Message(s)) => (
            SubscriberPhase::Receiving,
            SubscriberAction::Enqueue(s),
        ),
        (SubscriberPhase::Receiving, SubscriberEvent::DecodeFailed) => (
            SubscriberPhase::Receiving,
            SubscriberAction::Await,
        ),
        (SubscriberPhase::Receiving, SubscriberEvent::EnqueueOk) => (
            SubscriberPhase::Receiving,
            SubscriberAction::Await,
        ),
        _ => (SubscriberPhase::Stopped, SubscriberAction::Stop),
    }
}

/// The phase a subscriber task is in after the events of `events`, starting
/// from `Connecting`.
pub open spec fn subscriber_phase_after(events: Seq<SubscriberEvent>) -> SubscriberPhase
    decreases events.len(),
{
    if events.len() == 0 {
        SubscriberPhase::Connecting
    } else {
        subscriber_spec_step(subscriber_phase_after(events.drop_last()), events.last()).0
    }
}

/// The payloads a subscriber task sends into the fan-in channel over a run,
/// in order.
pub open spec fn subscriber_enqueues(events: Seq<SubscriberEvent>) -> Seq<Seq<char>>
    decreases events.len(),
{
    if events.len() == 0 {
        Seq::empty()
    } else {
        let prev = subscriber_enqueues(events.drop_last());
        match subscriber_spec_step(subscriber_phase_after(events.drop_last()), events.last()).1 {
            SubscriberAction::Enqueue(s) => prev.push(s@),
            _ => prev,
        }
    }
}

/// Law: a stopped subscriber stays stopped and takes no further action.
pub proof fn lemma_stopped_is_final(event: SubscriberEvent)
    ensures
        subscriber_spec_step(SubscriberPhase::Stopped, event).0 == SubscriberPhase::Stopped,
        subscriber_spec_step(SubscriberPhase::Stopped, event).1 is Stop,
{
}

/// Law: a subscriber whose subscribe call never succeeds sends nothing into
/// the fan-in channel, whatever else happens to it; in particular a failed
/// subscribe stops the task without a single enqueue.
pub proof fn lemma_failed_subscribe_sends_nothing(events: Seq<SubscriberEvent>)
    requires
        forall|i: int| 0 <= i < events.len() ==> !(#[trigger] events[i] is SubscribeOk),
    ensures
        subscriber_phase_after(events) != SubscriberPhase::Receiving,
        subscriber_enqueues(events).len() == 0,
    decreases events.len(),
{
    if events.len() > 0 {
        assert(forall|i: int|
            0 <= i < events.drop_last().len() ==> !(#[trigger] events.drop_last()[i]
                is SubscribeOk));
        lemma_failed_subscribe_sends_nothing(events.drop_last());
        assert(!(events[events.len() - 1] is SubscribeOk));
    }
}

} // verus!
