//! The decision rules of the pipeline's tasks, and the aggregator run.
//!
//! The aggregator task is modelled as a fold over the sequence of messages
//! it dequeues: each message bumps that value's count and yields one result
//! record.  The subscriber task and the lifecycle controller are modelled as
//! step functions from phase and event to next phase and action; the I/O
//! loop around them performs the actions and feeds back the events.

use crate::counts::CountState;
use crate::counts::count_of;
use crate::counts::process_message;
use crate::record::record_of;
use vstd::prelude::*;

verus! {

/// The number of occurrences of `v` in `msgs`.
pub open spec fn occurrences(msgs: Seq<Seq<char>>, v: Seq<char>) -> nat
    decreases msgs.len(),
{
    if msgs.len() == 0 {
        0
    } else {
        occurrences(msgs.drop_last(), v) + if msgs.last() == v {
            1nat
        } else {
            0nat
        }
    }
}

/// The aggregation state after the messages of `msgs` have been processed
/// in order, starting from the empty state.
pub open spec fn counts_after(msgs: Seq<Seq<char>>) -> Map<Seq<char>, nat>
    decreases msgs.len(),
{
    if msgs.len() == 0 {
        Map::empty()
    } else {
        counts_after(msgs.drop_last()).insert(
            msgs.last(),
            count_of(counts_after(msgs.drop_last()), msgs.last()) + 1,
        )
    }
}

/// The result records the aggregator emits for `msgs`, one per message, in
/// order.
pub open spec fn records_of(msgs: Seq<Seq<char>>) -> Seq<Seq<char>>
    decreases msgs.len(),
{
    if msgs.len() == 0 {
        Seq::empty()
    } else {
        records_of(msgs.drop_last()).push(
            record_of(msgs.last(), count_of(counts_after(msgs.drop_last()), msgs.last()) + 1),
        )
    }
}

/// The views of a sequence of strings.
pub open spec fn views_of(strs: Seq<String>) -> Seq<Seq<char>> {
    strs.map_values(|s: String| s@)
}

/// Law: after any sequence of messages has been processed, the stored count
/// for each value equals the number of occurrences of that value in the
/// sequence so far.
pub proof fn lemma_counts_are_occurrences(msgs: Seq<Seq<char>>, v: Seq<char>)
    ensures
        count_of(counts_after(msgs), v) == occurrences(msgs, v),
    decreases msgs.len(),
{
    if msgs.len() > 0 {
        lemma_counts_are_occurrences(msgs.drop_last(), v);
    }
}

/// Law: processing one message bumps exactly that value's count by one and
/// leaves every other count unchanged; in particular no count ever
/// decreases.
pub proof fn lemma_one_message_one_increment(
    m: Map<Seq<char>, nat>,
    msg: Seq<char>,
    v: Seq<char>,
)
    ensures
        count_of(m.insert(msg, count_of(m, msg) + 1), msg) == count_of(m, msg) + 1,
        v != msg ==> count_of(m.insert(msg, count_of(m, msg) + 1), v) == count_of(m, v),
        count_of(m.insert(msg, count_of(m, msg) + 1), v) >= count_of(m, v),
{
}

/// A value occurs at most as often as the sequence is long.
pub proof fn lemma_occurrences_le_len(msgs: Seq<Seq<char>>, v: Seq<char>)
    ensures
        occurrences(msgs, v) <= msgs.len(),
    decreases msgs.len(),
{
    if msgs.len() > 0 {
        lemma_occurrences_le_len(msgs.drop_last(), v);
    }
}

/// Runs the aggregator over a sequence of messages directly, with no bus:
/// starting from the empty state, each message is counted and its result
/// record collected, in order.
pub fn run_aggregator(msgs: Vec<String>) -> (out: Vec<String>)
    ensures
        out@.len() == msgs@.len(),
        views_of(out@) == records_of(views_of(msgs@)),
{
    let mut state = CountState::new();
    let mut out: Vec<String> = Vec::new();
    let n = msgs.len();
    let mut j: usize = 0;
    while j < n
        invariant
            n == msgs@.len(),
            j <= n,
            state@ == counts_after(views_of(msgs@).take(j as int)),
            out@.len() == j,
            views_of(out@) == records_of(views_of(msgs@).take(j as int)),
        decreases n - j,
    {
        let m = msgs[j].clone();
        proof {
            let vm = views_of(msgs@);
            let pre = vm.take(j as int);
            lemma_counts_are_occurrences(pre, m@);
            lemma_occurrences_le_len(pre, m@);
            assert(count_of(state@, m@) <= j);
            assert(count_of(state@, m@) < u64::MAX);
        }
        let rec = process_message(m, &mut state);
        out.push(rec);
        j += 1;
        proof {
            let vm = views_of(msgs@);
            assert(vm.take(j as int).drop_last() =~= vm.take(j as int - 1));
            assert(vm.take(j as int).last() == vm[j as int - 1]);
            assert(state@ =~= counts_after(vm.take(j as int)));
            assert(views_of(out@) =~= records_of(vm.take(j as int)));
        }
    }
    proof {
        assert(views_of(msgs@).take(n as int) =~= views_of(msgs@));
    }
    out
}

/// What the fan-in side reports to the aggregator task.
#[derive(PartialEq, Eq, Debug)]
pub enum AggregatorEvent {
    /// A message was dequeued from the fan-in channel.
    Received(String),
    /// The channel is closed: every sender has been dropped.
    Closed,
    /// The lifecycle controller cancelled the task.
    Cancelled,
}

/// What the aggregator task asks its I/O loop to do next.
#[derive(PartialEq, Eq, Debug)]
pub enum AggregatorAction {
    /// Publish this result record to the output topic.
    Publish(String),
    /// Terminate the task.
    Stop,
}

/// One turn of the aggregator loop.  A dequeued message bumps its count and
/// yields exactly one publish of its result record; a closed channel or a
/// cancellation stops the task with the state untouched and nothing
/// published, so no record is ever re-sent.
pub fn aggregator_step(event: AggregatorEvent, state: &mut CountState) -> (a: AggregatorAction)
    requires
        (match event {
            AggregatorEvent::Received(m) => count_of(old(state)@, m@) < u64::MAX,
            _ => true,
        }),
    ensures
        match event {
            AggregatorEvent::Received(m) => {
                &&& final(state)@ == old(state)@.insert(m@, count_of(old(state)@, m@) + 1)
                &&& (a matches AggregatorAction::Publish(r) && r@ == record_of(
                    m@,
                    count_of(old(state)@, m@) + 1,
                ))
            },
            AggregatorEvent::Closed => final(state)@ == old(state)@ && a is Stop,
            AggregatorEvent::Cancelled => final(state)@ == old(state)@ && a is Stop,
        },
{
    match event {
        AggregatorEvent::Received(m) => AggregatorAction::Publish(process_message(m, state)),
        AggregatorEvent::Closed => AggregatorAction::Stop,
        AggregatorEvent::Cancelled => AggregatorAction::Stop,
    }
}

/// Whether the aggregator loop goes on after a publish attempt: it always
/// does.  A failed publish is logged by the caller and neither stops the
/// loop nor rolls back the count, so the next message is still processed.
pub fn continue_after_publish(delivered: bool) -> (c: bool)
    ensures
        c,
{
    let _ = delivered;
    true
}

} // verus!
