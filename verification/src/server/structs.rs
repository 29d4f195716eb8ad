//! The settings and the search state that the trace search server's pages share.
use vstd::prelude::*;

use crate::common::{Channel, DigitizerId, Timestamp};

verus! {

broadcast use vstd::string::group_string_axioms;

/// The broker topics that the server reads.
#[derive(Clone, Debug)]
pub struct Topics {
    /// Kafka trace topic.
    pub trace_topic: String,
    /// Kafka digitiser event list topic.
    pub digitiser_event_topic: String,
}

impl Default for Topics {
    fn default() -> (res: Self)
        ensures
            res.trace_topic@ == Seq::<char>::empty(),
            res.digitiser_event_topic@ == Seq::<char>::empty(),
    {
        Topics { trace_topic: String::new(), digitiser_event_topic: String::new() }
    }
}

/// What the server searches for: the time of a frame, in nanoseconds since the epoch.
#[derive(Clone, Debug)]
pub struct Select {
    pub timestamp: Option<Timestamp>,
}

impl Default for Select {
    fn default() -> (res: Self)
        ensures
            res.timestamp.is_none(),
    {
        Select { timestamp: None }
    }
}

/// How the server searches.
#[derive(Clone, Copy, Debug, PartialEq, Eq, Structural)]
pub enum SearchMode {
    Timestamp,
}

/// What the server searches by.
#[derive(Clone, Copy, Debug, PartialEq, Eq, Structural)]
pub enum SearchBy {
    ByChannels,
    ByDigitiserIds,
}

impl Default for SearchMode {
    fn default() -> (res: Self)
        ensures
            res == SearchMode::Timestamp,
    {
        SearchMode::Timestamp
    }
}

impl Default for SearchBy {
    fn default() -> (res: Self)
        ensures
            res == SearchBy::ByChannels,
    {
        SearchBy::ByChannels
    }
}

impl SearchMode {
    /// The label of the search mode.
    pub fn label(&self) -> (res: String)
        ensures
            res@ == "From Timestamp"@,
    {
        "From Timestamp".to_string()
    }
}

impl SearchBy {
    /// The label of what the search is by.
    pub fn label(&self) -> (res: String)
        ensures
            *self == SearchBy::ByChannels ==> res@ == "By Channels"@,
            *self == SearchBy::ByDigitiserIds ==> res@ == "By Digitiser Ids"@,
    {
        match self {
            SearchBy::ByChannels => "By Channels".to_string(),
            SearchBy::ByDigitiserIds => "By Digitiser Ids".to_string(),
        }
    }
}

/// The first and last offsets of a broker topic, and the times of the messages there.
#[derive(Clone, Copy, Debug)]
pub struct BrokerTopicInfo {
    pub offsets: (i64, i64),
    pub timestamps: (Timestamp, Timestamp),
}

impl BrokerTopicInfo {
    /// The number of messages between the two offsets.
    pub fn count(&self) -> (res: i64)
        requires
            i64::MIN <= self.offsets.1 - self.offsets.0 <= i64::MAX,
        ensures
            res == self.offsets.1 - self.offsets.0,
    {
        self.offsets.1 - self.offsets.0
    }
}

/// What the broker holds on the trace topic and on the event list topic.
#[derive(Clone, Copy, Debug)]
pub struct BrokerInfo {
    pub trace: BrokerTopicInfo,
    pub events: BrokerTopicInfo,
}

/// What a search looks for: frames at a time, selected by channel or by digitiser.
#[derive(Clone, Debug)]
pub enum SearchTargetBy {
    ByChannels { channels: Vec<Channel> },
    ByDigitiserIds { digitiser_ids: Vec<DigitizerId> },
}

/// Where a search starts.
#[derive(Clone, Copy, Debug)]
pub enum SearchTargetMode {
    Timestamp { timestamp: Timestamp },
}

/// A search: where it starts, whether by channels or digitisers, and for how many frames.
#[derive(Clone, Debug)]
pub struct SearchTarget {
    pub mode: SearchTargetMode,
    pub by: SearchTargetBy,
    pub number: usize,
}

} // verus!
