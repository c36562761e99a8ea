use stream_aggregator::lifecycle::lifecycle_step;
use stream_aggregator::lifecycle::LifecycleEvent;
use stream_aggregator::lifecycle::LifecyclePhase;
use stream_aggregator::subscriber::subscriber_step;
use stream_aggregator::subscriber::SubscriberAction;
use stream_aggregator::subscriber::SubscriberEvent;
use stream_aggregator::subscriber::SubscriberPhase;

#[test]
fn failed_subscribe_terminates_without_sending() {
    // Connect succeeds, subscribe fails: the task stops, and no later event
    // can make it enqueue anything.
    let (phase, action) = subscriber_step(SubscriberPhase::Connecting, SubscriberEvent::ConnectOk);
    assert_eq!(phase, SubscriberPhase::Subscribing);
    assert_eq!(action, SubscriberAction::Subscribe);
    let (phase, action) = subscriber_step(phase, SubscriberEvent::SubscribeFailed);
    assert_eq!(phase, SubscriberPhase::Stopped);
    assert_eq!(action, SubscriberAction::Stop);
    // Even if messages were still to arrive, the stopped task sends nothing.
    let events = [
        SubscriberEvent::Message(String::from("late")),
        SubscriberEvent::StreamEnded,
    ];
    let mut phase = phase;
    for event in events {
        let (next, action) = subscriber_step(phase, event);
        assert_eq!(next, SubscriberPhase::Stopped);
        assert_eq!(action, SubscriberAction::Stop);
        phase = next;
    }
}

#[test]
fn failed_connect_terminates_the_task() {
    let (phase, action) =
        subscriber_step(SubscriberPhase::Connecting, SubscriberEvent::ConnectFailed);
    assert_eq!(phase, SubscriberPhase::Stopped);
    assert_eq!(action, SubscriberAction::Stop);
}

#[test]
fn decoded_payloads_are_relayed_in_order() {
    let mut phase = SubscriberPhase::Connecting;
    let mut sent: Vec<String> = Vec::new();
    let events = vec![
        SubscriberEvent::ConnectOk,
        SubscriberEvent::SubscribeOk,
        SubscriberEvent::Message(String::from("one")),
        SubscriberEvent::EnqueueOk,
        SubscriberEvent::DecodeFailed,
        SubscriberEvent::Message(String::from("two")),
        SubscriberEvent::EnqueueOk,
    ];
    for event in events {
        let (next, action) = subscriber_step(phase, event);
        phase = next;
        if let SubscriberAction::Enqueue(payload) = action {
            sent.push(payload);
        }
    }
    assert_eq!(phase, SubscriberPhase::Receiving);
    assert_eq!(sent, vec![String::from("one"), String::from("two")]);
}

#[test]
fn rejected_enqueue_stops_the_task() {
    let (phase, _) = subscriber_step(SubscriberPhase::Connecting, SubscriberEvent::ConnectOk);
    let (phase, _) = subscriber_step(phase, SubscriberEvent::SubscribeOk);
    let (phase, action) = subscriber_step(phase, SubscriberEvent::Message(String::from("m")));
    assert!(matches!(action, SubscriberAction::Enqueue(_)));
    let (phase, action) = subscriber_step(phase, SubscriberEvent::EnqueueRejected);
    assert_eq!(phase, SubscriberPhase::Stopped);
    assert_eq!(action, SubscriberAction::Stop);
}

#[test]
fn shutdown_follows_the_single_path() {
    let phase = LifecyclePhase::Running;
    let phase = lifecycle_step(phase, LifecycleEvent::SignalReceived);
    assert_eq!(phase, LifecyclePhase::ShutdownRequested);
    let phase = lifecycle_step(phase, LifecycleEvent::CancelIssued);
    assert_eq!(phase, LifecyclePhase::Terminating);
    let phase = lifecycle_step(phase, LifecycleEvent::ProcessExited);
    assert_eq!(phase, LifecyclePhase::Exited);
}

#[test]
fn out_of_order_events_change_nothing() {
    // Before the signal, a cancellation or exit report moves nothing.
    assert_eq!(
        lifecycle_step(LifecyclePhase::Running, LifecycleEvent::CancelIssued),
        LifecyclePhase::Running
    );
    assert_eq!(
        lifecycle_step(LifecyclePhase::Running, LifecycleEvent::ProcessExited),
        LifecyclePhase::Running
    );
    // A finished process stays finished.
    assert_eq!(
        lifecycle_step(LifecyclePhase::Exited, LifecycleEvent::SignalReceived),
        LifecyclePhase::Exited
    );
}
