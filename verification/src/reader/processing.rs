//! Trace messages made from a run of events of a legacy trace file: one frame per event, at
//! regular intervals, with channel identifiers from an offset.
use vstd::prelude::*;

use super::loader::TraceFileEvent;
use crate::common::{Channel, DigitizerId, FrameNumber, Timestamp};
use crate::message::{ChannelTrace, FrameMetadata, TraceMessage};
use crate::simulator::simulated_metadata;
use crate::text::{decimal, push_decimal};

use super::replay::create_channel;

verus! {

broadcast use vstd::string::group_string_axioms;

/// Nanoseconds in one millisecond.
pub const NANOS_PER_MILLI: i64 = 1_000_000;

/// The time of the frame made from the event at `index` of a run: the run's time plus `index`
/// frame intervals. The interval is read as an unsigned number of milliseconds.
pub open spec fn frame_time(timestamp: Timestamp, index: int, frame_interval_ms: i32) -> int {
    timestamp + index * ((frame_interval_ms as u64) as int) * NANOS_PER_MILLI as int
}

/// Whether the time of the frame at `index` can be computed: the offset in milliseconds fits in
/// 64 bits, and the time fits a timestamp.
pub open spec fn frame_time_in_range(timestamp: Timestamp, index: int, frame_interval_ms: i32) -> bool {
    &&& index * ((frame_interval_ms as u64) as int) <= u64::MAX
    &&& i64::MIN <= frame_time(timestamp, index, frame_interval_ms) <= i64::MAX
}

/// The time of the frame made from the event at `index` of a run.
pub fn event_frame_time(timestamp: Timestamp, index: usize, frame_interval_ms: i32) -> (res:
    Timestamp)
    requires
        frame_time_in_range(timestamp, index as int, frame_interval_ms),
    ensures
        res == frame_time(timestamp, index as int, frame_interval_ms),
{
    let interval = frame_interval_ms as u64;
    let ms: u64 = index as u64 * interval;
    let ns: i128 = ms as i128 * NANOS_PER_MILLI as i128;
    assert(ns == index * ((frame_interval_ms as u64) as int) * NANOS_PER_MILLI as int) by (nonlinear_arith)
        requires
            ms == index * interval,
            ns == ms * NANOS_PER_MILLI,
            interval == (frame_interval_ms as u64),
    ;
    (timestamp as i128 + ns) as i64
}

/// The frame number of the frame made from the event at `index` of a run.
pub fn event_frame_number(frame_number: FrameNumber, index: usize) -> (res: FrameNumber)
    requires
        frame_number + index <= u32::MAX,
    ensures
        res == frame_number + index,
{
    frame_number + index as FrameNumber
}

/// Whether a message holds the given metadata and sampling rate and, as channels numbered from
/// the offset, the first `number_of_channels` raw traces of an event.
pub open spec fn is_offset_event_message(
    m: TraceMessage,
    time: Timestamp,
    frame_number: FrameNumber,
    digitizer_id: DigitizerId,
    number_of_channels: usize,
    sampling_rate: u64,
    event: TraceFileEvent,
    channel_id_offset: Channel,
) -> bool {
    &&& m.digitizer_id == digitizer_id
    &&& m.metadata == simulated_metadata(time, frame_number)
    &&& m.sample_rate == sampling_rate
    &&& m.channels matches Some(c) && c@.len() == number_of_channels && forall|i: int|
        0 <= i < number_of_channels ==> (#[trigger] c@[i]).channel == i + channel_id_offset && (
        c@[i].voltage matches Some(v) && v@ == event.raw_trace@[i]@)
}

/// The report of a message made from an event.
pub open spec fn event_creation_text(
    digitizer_id: DigitizerId,
    frame_number: FrameNumber,
    num_channels: usize,
) -> Seq<char> {
    "New message created for digitizer "@ + decimal(digitizer_id as nat) + ", frame number "@
        + decimal(frame_number as nat) + ", and has "@ + decimal(num_channels as nat)
        + " channels."@
}

/// Fills `message` with the first `number_of_channels` raw traces of an event, as channels
/// numbered from `channel_id_offset`, with the given time, frame number, digitiser and sampling
/// rate, and reports it. The event must hold that many traces, and the channel identifiers must
/// fit.
pub fn create_message(
    message: &mut TraceMessage,
    time: Timestamp,
    frame_number: FrameNumber,
    digitizer_id: DigitizerId,
    number_of_channels: usize,
    sampling_rate: u64,
    event: &TraceFileEvent,
    channel_id_offset: Channel,
) -> (res: String)
    requires
        number_of_channels <= event.raw_trace@.len(),
        number_of_channels == 0 || number_of_channels - 1 + channel_id_offset <= u32::MAX,
    ensures
        is_offset_event_message(
            *final(message),
            time,
            frame_number,
            digitizer_id,
            number_of_channels,
            sampling_rate,
            *event,
            channel_id_offset,
        ),
        res@ == event_creation_text(digitizer_id, frame_number, number_of_channels),
{
    let mut channels: Vec<ChannelTrace> = Vec::new();
    let mut c: usize = 0;
    while c < number_of_channels
        invariant
            c <= number_of_channels,
            number_of_channels <= event.raw_trace@.len(),
            number_of_channels == 0 || number_of_channels - 1 + channel_id_offset <= u32::MAX,
            channels@.len() == c,
            forall|i: int|
                0 <= i < c ==> (#[trigger] channels@[i]).channel == i + channel_id_offset && (
                channels@[i].voltage matches Some(v) && v@ == event.raw_trace@[i]@),
        decreases number_of_channels - c,
    {
        let id: Channel = c as Channel + channel_id_offset;
        channels.push(create_channel(id, event.raw_trace[c].as_slice()));
        c = c + 1;
    }
    *message = TraceMessage {
        digitizer_id,
        metadata: FrameMetadata {
            frame_number,
            period_number: 0,
            protons_per_pulse: 0,
            running: true,
            timestamp: Some(time),
            veto_flags: 0,
        },
        sample_rate: sampling_rate,
        channels: Some(channels),
    };
    let mut s = "New message created for digitizer ".to_string();
    push_decimal(&mut s, digitizer_id as u64);
    s.append(", frame number ");
    push_decimal(&mut s, frame_number as u64);
    s.append(", and has ");
    push_decimal(&mut s, number_of_channels as u64);
    s.append(" channels.");
    s
}

/// The frames made from successive events of a run are one frame interval apart.
pub proof fn law_frames_step(timestamp: Timestamp, index: int, frame_interval_ms: i32)
    ensures
        frame_time(timestamp, index + 1, frame_interval_ms) == frame_time(
            timestamp,
            index,
            frame_interval_ms,
        ) + ((frame_interval_ms as u64) as int) * NANOS_PER_MILLI as int,
{
    let m = ((frame_interval_ms as u64) as int);
    assert((index + 1) * m * NANOS_PER_MILLI == index * m * NANOS_PER_MILLI + m * NANOS_PER_MILLI)
        by (nonlinear_arith);
}

} // verus!
