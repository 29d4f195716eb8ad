//! The columns that one trace message contributes to the trace table and to the frame table.
use vstd::prelude::*;

use crate::common::{Channel, Intensity, Timestamp};
use crate::message::{lemma_max_voltage_len, max_voltage_len, voltage_len, voltage_or_empty, ChannelTrace};

use super::error_reporter::{combined_code, report_codes, TDEngineErrorReporter};
use super::framedata::{measurement_time, measurement_time_in_range, FrameData};

verus! {

/// A sequence of `n` zero samples.
pub open spec fn zero_samples(n: nat) -> Seq<Intensity> {
    Seq::new(n, |i: int| 0u16)
}

/// The samples of a channel, made exactly `num_samples` long: extended with zeros where there are
/// fewer, cut short where there are more.
pub open spec fn padded_voltage(c: ChannelTrace, num_samples: nat) -> Seq<Intensity> {
    let v = voltage_or_empty(c);
    if v.len() < num_samples {
        v + zero_samples((num_samples - v.len()) as nat)
    } else {
        v.take(num_samples as int)
    }
}

/// The column of the channel at position `c` of the table: the padded samples of the message's
/// channel at that position, or zeros where the message has fewer channels.
pub open spec fn channel_column(frame: FrameData, chans: Seq<ChannelTrace>, c: int) -> Seq<
    Intensity,
> {
    if c < chans.len() {
        padded_voltage(chans[c], frame.num_samples as nat)
    } else {
        zero_samples(frame.num_samples as nat)
    }
}

/// The identifier of the channel at position `c` of the table, zero where the message has fewer
/// channels.
pub open spec fn channel_id_column(chans: Seq<ChannelTrace>, c: int) -> Channel {
    if c < chans.len() {
        chans[c].channel
    } else {
        0
    }
}

/// Every column of the trace table holds exactly one value per sample of the frame, whatever the
/// lengths of the channels' sample lists.
pub proof fn law_columns_rectangular(frame: FrameData, chans: Seq<ChannelTrace>, c: int)
    requires
        0 <= c,
    ensures
        channel_column(frame, chans, c).len() == frame.num_samples,
{
}

/// A vector of `n` zero samples.
pub fn zeros(n: usize) -> (res: Vec<Intensity>)
    ensures
        res@ == zero_samples(n as nat),
{
    let mut v: Vec<Intensity> = Vec::new();
    let mut i: usize = 0;
    while i < n
        invariant
            i <= n,
            v@ == zero_samples(i as nat),
        decreases n - i,
    {
        v.push(0);
        i = i + 1;
        assert(v@ =~= zero_samples(i as nat));
    }
    v
}

/// The samples of a channel, made exactly as long as the frame's sample count: extended with
/// zeros where there are fewer, cut short where there are more.
pub fn create_voltage_values_from_channel_trace(frame_data: &FrameData, channel: &ChannelTrace) -> (res:
    Vec<Intensity>)
    ensures
        res@ == padded_voltage(*channel, frame_data.num_samples as nat),
        res@.len() == frame_data.num_samples,
{
    let n = frame_data.num_samples;
    let mut values: Vec<Intensity> = Vec::new();
    match &channel.voltage {
        Some(v) => {
            let mut i: usize = 0;
            while i < v.len() && i < n
                invariant
                    i <= v.len(),
                    i <= n,
                    values@ == v@.take(i as int),
                decreases v.len() - i,
            {
                values.push(v[i]);
                i = i + 1;
                assert(values@ =~= v@.take(i as int));
            }
        },
        None => {},
    }
    let ghost full = voltage_or_empty(*channel);
    assert(values@ == full.take(values@.len() as int));
    assert(values@.len() == if full.len() < n { full.len() } else { n as nat });
    let ghost base = values@;
    let mut j: usize = values.len();
    while j < n
        invariant
            base.len() <= j <= n,
            values@ == base + zero_samples((j - base.len()) as nat),
        decreases n - j,
    {
        values.push(0);
        j = j + 1;
        assert(values@ =~= base + zero_samples((j - base.len()) as nat));
    }
    proof {
        if full.len() < n {
            assert(base =~= full);
        }
        assert(values@ =~= padded_voltage(*channel, n as nat));
    }
    values
}

/// The columns that a message contributes to the trace table: the time of each sample, then one
/// column of samples for each of the expected channels.
pub struct ColumnViews {
    pub timestamps: Vec<Timestamp>,
    pub channels: Vec<Vec<Intensity>>,
}

/// Builds the trace-table columns of a message: one timestamp per sample, and exactly the expected
/// number of channel columns; surplus channels are dropped, and missing ones filled with zeros.
pub fn create_column_views(frame_data: &FrameData, channels: &Vec<ChannelTrace>) -> (res: ColumnViews)
    requires
        forall|i: int| 0 <= i < frame_data.num_samples ==> measurement_time_in_range(*frame_data, i),
    ensures
        res.timestamps@.len() == frame_data.num_samples,
        forall|i: int|
            0 <= i < frame_data.num_samples ==> #[trigger] res.timestamps@[i] == measurement_time(
                *frame_data,
                i,
            ),
        res.channels@.len() == frame_data.num_channels,
        forall|c: int|
            0 <= c < frame_data.num_channels ==> (#[trigger] res.channels@[c])@ == channel_column(
                *frame_data,
                channels@,
                c,
            ),
{
    let mut timestamps: Vec<Timestamp> = Vec::new();
    let mut i: usize = 0;
    while i < frame_data.num_samples
        invariant
            i <= frame_data.num_samples,
            forall|k: int| 0 <= k < frame_data.num_samples ==> measurement_time_in_range(*frame_data, k),
            timestamps@.len() == i,
            forall|k: int| 0 <= k < i ==> #[trigger] timestamps@[k] == measurement_time(*frame_data, k),
        decreases frame_data.num_samples - i,
    {
        timestamps.push(frame_data.calc_measurement_time(i));
        i = i + 1;
    }
    let mut columns: Vec<Vec<Intensity>> = Vec::new();
    let mut c: usize = 0;
    while c < frame_data.num_channels
        invariant
            c <= frame_data.num_channels,
            columns@.len() == c,
            forall|k: int|
                0 <= k < c ==> (#[trigger] columns@[k])@ == channel_column(*frame_data, channels@, k),
        decreases frame_data.num_channels - c,
    {
        if c < channels.len() {
            columns.push(create_voltage_values_from_channel_trace(frame_data, &channels[c]));
        } else {
            columns.push(zeros(frame_data.num_samples));
        }
        c = c + 1;
    }
    ColumnViews { timestamps, channels: columns }
}

/// The values that a message contributes to the frame table.
pub struct FrameColumnViews {
    pub frame_timestamp: Timestamp,
    pub sample_count: u32,
    pub sampling_rate: u32,
    pub frame_number: u32,
    pub error_code: u32,
    pub channel_ids: Vec<Channel>,
}

/// Builds the frame-table values of a message: the time of its first sample, its sample count
/// and sampling rate (as 32-bit values), its frame number, the error code, and the identifiers of
/// exactly the expected number of channels, surplus ones dropped and missing ones given as zero.
pub fn create_frame_column_views(
    frame_data: &FrameData,
    error: &TDEngineErrorReporter,
    channels: &Vec<ChannelTrace>,
) -> (res: FrameColumnViews)
    requires
        error.well_formed(),
        measurement_time_in_range(*frame_data, 0),
    ensures
        res.frame_timestamp == measurement_time(*frame_data, 0),
        res.sample_count == frame_data.num_samples as u32,
        res.sampling_rate == frame_data.sample_rate as u32,
        res.frame_number == frame_data.frame_number,
        res.error_code == combined_code(report_codes(error.recorded())),
        res.channel_ids@.len() == frame_data.num_channels,
        forall|c: int|
            0 <= c < frame_data.num_channels ==> #[trigger] res.channel_ids@[c] == channel_id_column(
                channels@,
                c,
            ),
{
    let mut ids: Vec<Channel> = Vec::new();
    let mut c: usize = 0;
    while c < frame_data.num_channels
        invariant
            c <= frame_data.num_channels,
            ids@.len() == c,
            forall|k: int| 0 <= k < c ==> #[trigger] ids@[k] == channel_id_column(channels@, k),
        decreases frame_data.num_channels - c,
    {
        if c < channels.len() {
            ids.push(channels[c].channel);
        } else {
            ids.push(0);
        }
        c = c + 1;
    }
    FrameColumnViews {
        frame_timestamp: frame_data.calc_measurement_time(0),
        sample_count: frame_data.num_samples as u32,
        sampling_rate: frame_data.sample_rate as u32,
        frame_number: frame_data.frame_number,
        error_code: error.error_code(),
        channel_ids: ids,
    }
}

} // verus!
