//! A verified core for a stream-counting aggregator.
//!
//! The library models the logic of a fan-in pipeline: several subscriber
//! tasks relay text messages into one bounded channel, and a single
//! aggregator task counts occurrences of each message value and formats a
//! result record per message.  All I/O (the message bus, the channel, the
//! runtime) lives outside the library; what stands here is the counting
//! state, the record format, and the decision rules of each task, each with
//! a proved contract.

pub mod counts;
pub mod lifecycle;
pub mod pipeline;
pub mod record;
pub mod subscriber;
