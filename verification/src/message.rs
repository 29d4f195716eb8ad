//! The contents of a digitiser analog trace message, as plain values.
//!
//! Messages travel as flatbuffers; the parts of the pipeline that examine them read
//! these fields only.
use vstd::prelude::*;

use crate::common::{Channel, DigitizerId, FrameNumber, Intensity, Timestamp};

verus! {

/// The trace of one channel: its identifier and, where present, its samples.
#[derive(Clone, Debug)]
pub struct ChannelTrace {
    pub channel: Channel,
    pub voltage: Option<Vec<Intensity>>,
}

/// The metadata of one frame.
#[derive(Clone, Copy, Debug, PartialEq, Eq, Structural)]
pub struct FrameMetadata {
    pub frame_number: FrameNumber,
    pub period_number: u64,
    pub protons_per_pulse: u8,
    pub running: bool,
    pub timestamp: Option<Timestamp>,
    pub veto_flags: u16,
}

/// A digitiser analog trace message.
#[derive(Clone, Debug)]
pub struct TraceMessage {
    pub digitizer_id: DigitizerId,
    pub metadata: FrameMetadata,
    pub sample_rate: u64,
    pub channels: Option<Vec<ChannelTrace>>,
}

/// Number of samples of a channel, an absent sample list counting as empty.
pub open spec fn voltage_len(c: ChannelTrace) -> nat {
    match c.voltage {
        Some(v) => v@.len(),
        None => 0,
    }
}

/// The samples of a channel, an absent sample list counting as empty.
pub open spec fn voltage_or_empty(c: ChannelTrace) -> Seq<Intensity> {
    match c.voltage {
        Some(v) => v@,
        None => Seq::empty(),
    }
}

/// The largest sample count among the channels, zero where there are none.
pub open spec fn max_voltage_len(chans: Seq<ChannelTrace>) -> nat
    decreases chans.len(),
{
    if chans.len() == 0 {
        0
    } else {
        let prev = max_voltage_len(chans.drop_last());
        let last = voltage_len(chans.last());
        if last > prev {
            last
        } else {
            prev
        }
    }
}

/// The largest sample count among the channels bounds every channel's count, and is one of them.
pub proof fn lemma_max_voltage_len(chans: Seq<ChannelTrace>)
    ensures
        forall|i: int| 0 <= i < chans.len() ==> voltage_len(#[trigger] chans[i]) <= max_voltage_len(
            chans,
        ),
        chans.len() > 0 ==> exists|i: int|
            0 <= i < chans.len() && voltage_len(#[trigger] chans[i]) == max_voltage_len(chans),
    decreases chans.len(),
{
    if chans.len() > 0 {
        let prev = chans.drop_last();
        lemma_max_voltage_len(prev);
        assert forall|i: int| 0 <= i < chans.len() implies voltage_len(#[trigger] chans[i])
            <= max_voltage_len(chans) by {
            if i < chans.len() - 1 {
                assert(chans[i] == prev[i]);
            }
        }
        if voltage_len(chans.last()) > max_voltage_len(prev) || prev.len() == 0 {
            assert(voltage_len(chans[chans.len() - 1]) == max_voltage_len(chans));
        } else {
            let j = choose|j: int| 0 <= j < prev.len() && voltage_len(#[trigger] prev[j]) == max_voltage_len(prev);
            assert(chans[j] == prev[j]);
        }
    }
}

/// The largest sample count among the channels, zero where there are none.
pub fn max_channel_samples(chans: &Vec<ChannelTrace>) -> (res: usize)
    ensures
        res == max_voltage_len(chans@),
{
    let mut best: usize = 0;
    let mut i: usize = 0;
    while i < chans.len()
        invariant
            i <= chans.len(),
            best == max_voltage_len(chans@.take(i as int)),
        decreases chans.len() - i,
    {
        assert(chans@.take(i + 1).drop_last() =~= chans@.take(i as int));
        let len: usize = match &chans[i].voltage {
            Some(v) => v.len(),
            None => 0,
        };
        if len > best {
            best = len;
        }
        i = i + 1;
    }
    assert(chans@.take(chans.len() as int) =~= chans@);
    best
}

/// A copy of a list of samples.
pub fn copy_samples(v: &Vec<Intensity>) -> (res: Vec<Intensity>)
    ensures
        res@ == v@,
{
    let mut out: Vec<Intensity> = Vec::new();
    let mut i: usize = 0;
    while i < v.len()
        invariant
            i <= v.len(),
            out@ == v@.take(i as int),
        decreases v.len() - i,
    {
        out.push(v[i]);
        i = i + 1;
        assert(out@ =~= v@.take(i as int));
    }
    assert(v@.take(v.len() as int) =~= v@);
    out
}

} // verus!
