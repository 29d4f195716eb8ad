//! Placing the traces of each message in the detector data table of an archive.
//!
//! The table has one row per channel of every digitiser and grows in width as traces arrive.
//! Each digitiser fills its rows from the left; a frame already recorded by another digitiser
//! is placed at the column where that frame started.
use vstd::prelude::*;

use crate::common::{spec_channel_index, Intensity, CHANNELS_PER_DIGITIZER};
use crate::message::{copy_samples, voltage_len, TraceMessage};

use super::base::{first_position, timestamp_seconds, timestamp_subsec_nanos, BaseFile};

verus! {

/// The samples of one channel and the table row they go to.
pub struct ChannelWrite {
    pub row: usize,
    pub samples: Vec<Intensity>,
}

/// What archiving one message does to the detector data table: the new width of the table
/// where it changes, the column where the message's traces start, and the rows written.
pub struct PushPlan {
    pub resize_to: Option<usize>,
    pub start: usize,
    pub writes: Vec<ChannelWrite>,
}

/// Why a message cannot be archived.
#[derive(Clone, Copy, Debug, PartialEq, Eq, Structural)]
pub enum PushError {
    /// The message's sampling rate differs from that of the archive.
    SampleRateChanged { old: u64, new: u64 },
}

/// The largest entry of a list, zero for an empty list.
pub open spec fn seq_max(s: Seq<usize>) -> int
    decreases s.len(),
{
    if s.len() == 0 {
        0
    } else if s.last() as int > seq_max(s.drop_last()) {
        s.last() as int
    } else {
        seq_max(s.drop_last())
    }
}

/// The largest entry of a list, zero for an empty list.
pub fn max_extent(v: &Vec<usize>) -> (res: usize)
    ensures
        res as int == seq_max(v@),
{
    let mut best: usize = 0;
    let mut i: usize = 0;
    while i < v.len()
        invariant
            i <= v.len(),
            best as int == seq_max(v@.take(i as int)),
        decreases v.len() - i,
    {
        assert(v@.take(i + 1).drop_last() =~= v@.take(i as int));
        if v[i] > best {
            best = v[i];
        }
        i = i + 1;
    }
    assert(v@.take(v.len() as int) =~= v@);
    best
}

/// An archive's placement state: the frame metadata, the sampling rate (zero until the first
/// message), how far each digitiser has filled its rows, the row count and the table width.
pub struct TraceFile {
    pub base: BaseFile,
    pub sample_rate: u64,
    pub det_data_extents: Vec<usize>,
    pub channel_count: usize,
    pub width: usize,
}

/// The table rows of a message's channels, in channel order.
pub open spec fn write_rows_match(writes: Seq<ChannelWrite>, message: TraceMessage) -> bool {
    let chans = message.channels.unwrap()@;
    &&& writes.len() == chans.len()
    &&& forall|c: int|
        0 <= c < chans.len() ==> {
            &&& (#[trigger] writes[c]).row as int == spec_channel_index(
                message.digitizer_id as int,
                chans[c].channel as int,
            )
            &&& writes[c].samples@ == chans[c].voltage.unwrap()@
        }
}

impl TraceFile {
    /// The archive state and its frame metadata agree, and every digitiser has its fill level.
    pub open spec fn well_formed(&self) -> bool {
        &&& self.base.well_formed()
        &&& self.width as int == seq_max(self.det_data_extents@)
    }

    /// Whether archiving `message` succeeds without a fault: the message has a timestamp, at
    /// least one channel, samples in every channel, and a digitiser this archive holds; its frame,
    /// if recorded, carries the same time; and no count leaves the range of a size.
    pub open spec fn accepts(&self, message: TraceMessage) -> bool {
        let chans = message.channels.unwrap()@;
        let dig = message.digitizer_id as int;
        &&& message.metadata.timestamp.is_some()
        &&& message.channels.is_some()
        &&& chans.len() > 0
        &&& forall|c: int| 0 <= c < chans.len() ==> (#[trigger] chans[c]).voltage.is_some()
        &&& dig < self.det_data_extents@.len()
        &&& self.base.timestamp_consistent(
            message.metadata.frame_number,
            message.metadata.timestamp.unwrap(),
        )
        &&& self.det_data_extents@[dig] + voltage_len(chans[0]) <= usize::MAX
        &&& forall|c: int|
            0 <= c < chans.len() ==> spec_channel_index(dig, (#[trigger] chans[c]).channel as int)
                <= usize::MAX
        &&& message.metadata.frame_number >= self.base.next_frame() ==> message.metadata.frame_number
            < u32::MAX
    }

    /// Whether `message` carries a sampling rate other than the archive's.
    pub open spec fn rate_conflicts(&self, message: TraceMessage) -> bool {
        self.sample_rate > 0 && self.sample_rate != message.sample_rate
    }

    /// An archive for `digitizer_count` digitisers, with no frames and an empty table.
    pub fn create(digitizer_count: usize) -> (res: Self)
        requires
            digitizer_count * CHANNELS_PER_DIGITIZER <= usize::MAX,
        ensures
            res.well_formed(),
            res.base.frame_number@.len() == 0,
            res.sample_rate == 0,
            res.channel_count == digitizer_count * CHANNELS_PER_DIGITIZER,
            res.det_data_extents@ == Seq::new(digitizer_count as nat, |i: int| 0usize),
            res.width == 0,
    {
        let mut extents: Vec<usize> = Vec::new();
        let mut i: usize = 0;
        while i < digitizer_count
            invariant
                i <= digitizer_count,
                extents@ == Seq::new(i as nat, |k: int| 0usize),
            decreases digitizer_count - i,
        {
            extents.push(0);
            i = i + 1;
            assert(extents@ =~= Seq::new(i as nat, |k: int| 0usize));
        }
        let width = max_extent(&extents);
        proof {
            assert(seq_max(extents@) == 0) by {
                lemma_seq_max_zeros(digitizer_count as nat);
            }
        }
        TraceFile {
            base: BaseFile::create(),
            sample_rate: 0,
            det_data_extents: extents,
            channel_count: digitizer_count * CHANNELS_PER_DIGITIZER,
            width,
        }
    }

    /// Archives a message. A sampling rate other than the archive's is refused; the first message
    /// sets the archive's rate. The message's traces start where its frame started if the frame
    /// is recorded, and at its digitiser's fill level otherwise; the fill level then grows by the
    /// sample count of the first channel, and the table widens to the largest fill level.
    pub fn push(&mut self, data: &TraceMessage) -> (res: Result<PushPlan, PushError>)
        requires
            old(self).well_formed(),
            !old(self).rate_conflicts(*data) ==> old(self).accepts(*data),
        ensures
            final(self).well_formed(),
            old(self).rate_conflicts(*data) ==> {
                &&& res == Err::<PushPlan, PushError>(
                    PushError::SampleRateChanged { old: old(self).sample_rate, new: data.sample_rate },
                )
                &&& *final(self) == *old(self)
            },
            !old(self).rate_conflicts(*data) ==> {
                let chans = data.channels.unwrap()@;
                let dig = data.digitizer_id as int;
                let ts = data.metadata.timestamp.unwrap();
                let fnum = data.metadata.frame_number;
                let start = match first_position(old(self).base.frame_number@, fnum) {
                    Some(i) => old(self).base.frame_start_index@[i],
                    None => old(self).det_data_extents@[dig],
                };
                let extents = old(self).det_data_extents@.update(
                    dig,
                    (old(self).det_data_extents@[dig] + voltage_len(chans[0])) as usize,
                );
                &&& res matches Ok(plan)
                &&& plan.start == start
                &&& write_rows_match(plan.writes@, *data)
                &&& plan.resize_to == if seq_max(extents) != old(self).width {
                    Some(seq_max(extents) as usize)
                } else {
                    None
                }
                &&& final(self).sample_rate == if old(self).sample_rate == 0 {
                    data.sample_rate
                } else {
                    old(self).sample_rate
                }
                &&& final(self).det_data_extents@ == extents
                &&& final(self).width as int == seq_max(extents)
                &&& final(self).channel_count == old(self).channel_count
                &&& fnum < old(self).base.next_frame() ==> final(self).base == old(self).base
                &&& fnum >= old(self).base.next_frame() ==> {
                    &&& final(self).base.frame_number@ == old(self).base.frame_number@.push(fnum)
                    &&& final(self).base.frame_timestamp_seconds@
                        == old(self).base.frame_timestamp_seconds@.push(timestamp_seconds(ts))
                    &&& final(self).base.frame_timestamp_nanoseconds@
                        == old(self).base.frame_timestamp_nanoseconds@.push(
                        timestamp_subsec_nanos(ts),
                    )
                    &&& final(self).base.frame_start_index@
                        == old(self).base.frame_start_index@.push(start)
                }
            },
    {
        let old_sample_rate = self.sample_rate;
        if old_sample_rate > 0 && old_sample_rate != data.sample_rate {
            return Err(PushError::SampleRateChanged { old: old_sample_rate, new: data.sample_rate });
        }
        if old_sample_rate == 0 {
            self.sample_rate = data.sample_rate;
        }
        let ts = data.metadata.timestamp.unwrap();
        let channels = data.channels.as_ref().unwrap();
        let dig = data.digitizer_id as usize;
        let frame_number = data.metadata.frame_number;
        let start = match self.base.find_frame_metadata_index(frame_number, ts) {
            Some(i) => self.base.frame_start_index[i],
            None => self.det_data_extents[dig],
        };
        let first_len = match &channels[0].voltage {
            Some(v) => v.len(),
            None => 0,
        };
        let grown = self.det_data_extents[dig] + first_len;
        self.det_data_extents.set(dig, grown);
        let new_width = max_extent(&self.det_data_extents);
        let resize_to = if new_width != self.width {
            Some(new_width)
        } else {
            None
        };
        self.width = new_width;
        let mut writes: Vec<ChannelWrite> = Vec::new();
        let mut c: usize = 0;
        while c < channels.len()
            invariant
                c <= channels@.len(),
                data.channels == Some(*channels),
                dig == data.digitizer_id as int,
                forall|k: int| 0 <= k < channels@.len() ==> (#[trigger] channels@[k]).voltage.is_some(),
                forall|k: int|
                    0 <= k < channels@.len() ==> spec_channel_index(dig as int, (#[trigger] channels@[k]).channel as int)
                        <= usize::MAX,
                writes@.len() == c,
                forall|k: int|
                    0 <= k < c ==> {
                        &&& (#[trigger] writes@[k]).row as int == spec_channel_index(
                            dig as int,
                            channels@[k].channel as int,
                        )
                        &&& writes@[k].samples@ == channels@[k].voltage.unwrap()@
                    },
            decreases channels@.len() - c,
        {
            let channel = &channels[c];
            let row = crate::common::channel_index(dig, channel.channel as usize);
            let samples = match &channel.voltage {
                Some(v) => copy_samples(v),
                None => Vec::new(),
            };
            writes.push(ChannelWrite { row, samples });
            c = c + 1;
        }
        self.base.new_frame(frame_number, ts, start);
        Ok(PushPlan { resize_to, start, writes })
    }
}

/// The largest entry of a list of zeros is zero.
pub proof fn lemma_seq_max_zeros(n: nat)
    ensures
        seq_max(Seq::new(n, |i: int| 0usize)) == 0,
    decreases n,
{
    if n > 0 {
        lemma_seq_max_zeros((n - 1) as nat);
        assert(Seq::new(n, |i: int| 0usize).drop_last() =~= Seq::new((n - 1) as nat, |i: int| 0usize));
    }
}

} // verus!
