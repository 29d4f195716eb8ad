//! The command-line settings of the trace search server.
use vstd::prelude::*;

use crate::common::Timestamp;

verus! {

/// The broker topics that the server reads.
#[derive(Clone, Debug)]
pub struct Topics {
    /// Kafka trace topic.
    pub trace_topic: String,
    /// Kafka digitiser event list topic.
    pub digitiser_event_topic: String,
}

/// What the server searches for: the time of a frame, in nanoseconds since the epoch.
#[derive(Clone, Debug)]
pub struct Select {
    pub timestamp: Option<Timestamp>,
}

} // verus!
