//! Identifier and sample types shared by every part of the trace pipeline.
use vstd::prelude::*;

verus! {

/// Identifier of a channel within a digitiser message.
pub type Channel = u32;

/// A single raw trace sample.
pub type Intensity = u16;

/// Identifier of a digitiser.
pub type DigitizerId = u8;

/// Number of a frame.
pub type FrameNumber = u32;

/// Sampling rate of a digitiser, in samples per second.
pub type SampleRate = u64;

/// A point in time, as nanoseconds since the Unix epoch (UTC).
pub type Timestamp = i64;

/// Number of channels that one digitiser records.
pub const CHANNELS_PER_DIGITIZER: usize = 8;

/// Row of a channel in a detector-wide table: the digitiser's block of rows,
/// then the channel's place within that block.
pub open spec fn spec_channel_index(digitizer_index: int, channel: int) -> int {
    digitizer_index * CHANNELS_PER_DIGITIZER as int + channel
}

/// Row of a channel in a detector-wide table.
pub fn channel_index(digitizer_index: usize, channel: usize) -> (res: usize)
    requires
        spec_channel_index(digitizer_index as int, channel as int) <= usize::MAX,
    ensures
        res as int == spec_channel_index(digitizer_index as int, channel as int),
{
    digitizer_index * CHANNELS_PER_DIGITIZER + channel
}

} // verus!
