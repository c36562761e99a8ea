use stream_aggregator::counts::CountState;
use stream_aggregator::counts::process_message;
use stream_aggregator::pipeline::aggregator_step;
use stream_aggregator::pipeline::continue_after_publish;
use stream_aggregator::pipeline::run_aggregator;
use stream_aggregator::pipeline::AggregatorAction;
use stream_aggregator::pipeline::AggregatorEvent;
use stream_aggregator::record::format_count;
use stream_aggregator::record::format_record;

#[test]
fn format_single_count_is_literal() {
    // A state holding count 1 for "x" yields exactly this record, including
    // the uncorrected "1 times".
    let mut state = CountState::new();
    let record = process_message(String::from("x"), &mut state);
    assert_eq!(record, "x appeared 1 times");
}

#[test]
fn format_record_exact_values() {
    assert_eq!(format_record("hello", 7), "hello appeared 7 times");
    assert_eq!(format_record("", 1), " appeared 1 times");
}

#[test]
fn format_count_decimal() {
    assert_eq!(format_count(0), "0");
    assert_eq!(format_count(9), "9");
    assert_eq!(format_count(10), "10");
    assert_eq!(format_count(907), "907");
    assert_eq!(format_count(1000), "1000");
    assert_eq!(format_count(u64::MAX), "18446744073709551615");
}

#[test]
fn foo_bar_foo_in_order() {
    let out = run_aggregator(vec![
        String::from("foo"),
        String::from("bar"),
        String::from("foo"),
    ]);
    assert_eq!(
        out,
        vec![
            String::from("foo appeared 1 times"),
            String::from("bar appeared 1 times"),
            String::from("foo appeared 2 times"),
        ]
    );
}

#[test]
fn counts_equal_occurrences() {
    let mut state = CountState::new();
    for msg in ["a", "b", "a", "a", "b"] {
        process_message(String::from(msg), &mut state);
    }
    assert_eq!(state.count(&String::from("a")), 3);
    assert_eq!(state.count(&String::from("b")), 2);
    assert_eq!(state.count(&String::from("c")), 0);
}

#[test]
fn empty_run_yields_nothing() {
    let out = run_aggregator(Vec::new());
    assert!(out.is_empty());
}

#[test]
fn publish_failure_does_not_stop_processing() {
    // The first record's publish fails; the next message must still be
    // processed and its count still incremented.
    let mut state = CountState::new();
    let action = aggregator_step(AggregatorEvent::Received(String::from("m")), &mut state);
    match action {
        AggregatorAction::Publish(record) => assert_eq!(record, "m appeared 1 times"),
        AggregatorAction::Stop => panic!("a dequeued message must be published"),
    }
    // The publish attempt failed: the loop goes on regardless.
    assert!(continue_after_publish(false));
    let action = aggregator_step(AggregatorEvent::Received(String::from("m")), &mut state);
    match action {
        AggregatorAction::Publish(record) => assert_eq!(record, "m appeared 2 times"),
        AggregatorAction::Stop => panic!("a dequeued message must be published"),
    }
    assert!(continue_after_publish(true));
}

#[test]
fn cancellation_stops_without_publishing() {
    let mut state = CountState::new();
    process_message(String::from("m"), &mut state);
    let action = aggregator_step(AggregatorEvent::Cancelled, &mut state);
    assert_eq!(action, AggregatorAction::Stop);
    // The state is untouched by the cancellation.
    assert_eq!(state.count(&String::from("m")), 1);
}

#[test]
fn closed_channel_stops_the_loop() {
    let mut state = CountState::new();
    let action = aggregator_step(AggregatorEvent::Closed, &mut state);
    assert_eq!(action, AggregatorAction::Stop);
}
