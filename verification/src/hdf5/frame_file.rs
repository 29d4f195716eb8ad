//! The single-frame archive: one file per trace message, named after its time, digitiser and
//! frame, holding its metadata and a table of its channels' samples.
use vstd::prelude::*;

use super::base::{split_timestamp, timestamp_seconds, timestamp_subsec_nanos};
use crate::common::{Channel, DigitizerId, FrameNumber, Timestamp};
use crate::message::{max_channel_samples, max_voltage_len, ChannelTrace, TraceMessage};
use crate::text::{decimal, push_decimal};

verus! {

broadcast use vstd::string::group_string_axioms;

/// The RFC 3339 rendering of a time given in nanoseconds since the Unix epoch, as
/// `DateTime::<Utc>::to_rfc3339` writes it.
pub uninterp spec fn rfc3339_text(nanos: i64) -> Seq<char>;

/// `DateTime::<Utc>::from_timestamp_nanos(nanos).to_rfc3339()` (chrono): the RFC 3339 rendering of
/// a time, in UTC. The text is named, not spelled out; it depends on the time alone.
#[verifier::external_body]
fn rfc3339_of(nanos: i64) -> (res: String)
    ensures
        res@ == rfc3339_text(nanos),
{
    chrono::DateTime::<chrono::Utc>::from_timestamp_nanos(nanos).to_rfc3339()
}

/// Why a message cannot be archived.
#[derive(Debug, Clone, Copy, PartialEq, Eq, Structural)]
pub enum FrameFileError {
    /// The message has no timestamp.
    NoTimestamp,
    /// The message has no channel list.
    NoChannelData,
    /// The channel list is empty, so there is no largest sample count.
    NoDataLength,
}

/// The name of the archive of a message: its time, digitiser and frame.
pub open spec fn filename_text(time: Timestamp, digitizer_id: DigitizerId, frame_number: FrameNumber) -> Seq<
    char,
> {
    "frame_"@ + rfc3339_text(time) + "_"@ + decimal(digitizer_id as nat) + "_"@ + decimal(
        frame_number as nat,
    ) + ".h5"@
}

/// What goes into the archive of a message.
pub struct FramePlan {
    /// The name of the file.
    pub filename: String,
    /// The whole seconds of the frame's time.
    pub seconds: i64,
    /// The nanoseconds of the frame's time past its whole seconds.
    pub nanoseconds: u32,
    pub digitizer_id: DigitizerId,
    pub frame_number: FrameNumber,
    pub sample_rate: u64,
    /// The identifier of each channel, in order.
    pub channel_numbers: Vec<Channel>,
    /// The width of the sample table: the largest sample count of the channels.
    pub num_data_points: usize,
    /// The positions of the channels without samples, whose rows stay unwritten.
    pub missing: Vec<usize>,
}

/// The positions of the channels without samples, in order.
pub open spec fn missing_positions(chans: Seq<ChannelTrace>) -> Seq<int>
    decreases chans.len(),
{
    if chans.len() == 0 {
        Seq::empty()
    } else {
        let prev = missing_positions(chans.drop_last());
        if chans.last().voltage is None {
            prev.push(chans.len() - 1)
        } else {
            prev
        }
    }
}

/// Whether a plan holds what the archive of a message with the given time and channels holds.
pub open spec fn plan_matches(p: FramePlan, t: Timestamp, message: TraceMessage, c: Seq<ChannelTrace>) -> bool {
    &&& p.filename@ == filename_text(t, message.digitizer_id, message.metadata.frame_number)
    &&& p.seconds == timestamp_seconds(t)
    &&& p.nanoseconds == timestamp_subsec_nanos(t)
    &&& p.digitizer_id == message.digitizer_id
    &&& p.frame_number == message.metadata.frame_number
    &&& p.sample_rate == message.sample_rate
    &&& p.channel_numbers@ == c.map_values(|ch: ChannelTrace| ch.channel)
    &&& p.num_data_points == max_voltage_len(c)
    &&& p.missing@.map_values(|i: usize| i as int) == missing_positions(c)
}

/// Plans the archive of a message. A message without timestamp, without channel list or with an
/// empty channel list is refused, in that order.
pub fn plan_frame_file(message: &TraceMessage) -> (res: Result<FramePlan, FrameFileError>)
    ensures
        match (message.metadata.timestamp, message.channels) {
            (None, _) => res == Err::<FramePlan, _>(FrameFileError::NoTimestamp),
            (Some(_), None) => res == Err::<FramePlan, _>(FrameFileError::NoChannelData),
            (Some(t), Some(c)) => if c@.len() == 0 {
                res == Err::<FramePlan, _>(FrameFileError::NoDataLength)
            } else {
                res matches Ok(p) && plan_matches(p, t, *message, c@)
            },
        },
{
    let t = match message.metadata.timestamp {
        Some(t) => t,
        None => {
            return Err(FrameFileError::NoTimestamp);
        },
    };
    let mut filename = "frame_".to_string();
    let stamp = rfc3339_of(t);
    filename.append(stamp.as_str());
    filename.append("_");
    push_decimal(&mut filename, message.digitizer_id as u64);
    filename.append("_");
    push_decimal(&mut filename, message.metadata.frame_number as u64);
    filename.append(".h5");
    let (seconds, nanoseconds) = split_timestamp(t);
    let chans = match &message.channels {
        Some(c) => c,
        None => {
            return Err(FrameFileError::NoChannelData);
        },
    };
    let mut channel_numbers: Vec<Channel> = Vec::new();
    let mut missing: Vec<usize> = Vec::new();
    let mut i: usize = 0;
    while i < chans.len()
        invariant
            i <= chans.len(),
            channel_numbers@ == chans@.take(i as int).map_values(|ch: ChannelTrace| ch.channel),
            missing@.map_values(|k: usize| k as int) == missing_positions(chans@.take(i as int)),
        decreases chans.len() - i,
    {
        assert(chans@.take(i + 1).drop_last() =~= chans@.take(i as int));
        channel_numbers.push(chans[i].channel);
        assert(channel_numbers@ =~= chans@.take(i + 1).map_values(|ch: ChannelTrace| ch.channel));
        if chans[i].voltage.is_none() {
            let ghost before = missing@;
            missing.push(i);
            assert(missing@.map_values(|k: usize| k as int) =~= before.map_values(
                |k: usize| k as int,
            ).push(i as int));
        }
        i = i + 1;
    }
    assert(chans@.take(chans.len() as int) =~= chans@);
    if chans.len() == 0 {
        return Err(FrameFileError::NoDataLength);
    }
    let num_data_points = max_channel_samples(chans);
    Ok(
        FramePlan {
            filename,
            seconds,
            nanoseconds,
            digitizer_id: message.digitizer_id,
            frame_number: message.metadata.frame_number,
            sample_rate: message.sample_rate,
            channel_numbers,
            num_data_points,
            missing,
        },
    )
}

} // verus!
