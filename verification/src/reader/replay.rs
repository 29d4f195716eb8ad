//! Trace messages made from the events of a legacy trace file, to be sent on to the broker.
use std::ops::RangeInclusive;
use vstd::prelude::*;

use super::loader::TraceFileEvent;
use crate::common::{Channel, DigitizerId, FrameNumber, Intensity, Timestamp};
use crate::message::{ChannelTrace, FrameMetadata, TraceMessage};
use crate::simulator::{
    creation_report, now_nanos, random_digitizer_id, random_frame_number, reports,
    simulated_metadata, SimulatorError, SIMULATED_SAMPLE_RATE,
};

verus! {

/// A channel trace with the given identifier and a copy of the given samples.
pub fn create_channel(channel: Channel, trace: &[Intensity]) -> (res: ChannelTrace)
    ensures
        res.channel == channel,
        res.voltage matches Some(v) && v@ == trace@,
{
    let mut items: Vec<Intensity> = Vec::new();
    let mut i: usize = 0;
    while i < trace.len()
        invariant
            i <= trace.len(),
            items@ == trace@.take(i as int),
        decreases trace.len() - i,
    {
        items.push(trace[i]);
        i = i + 1;
        assert(items@ =~= trace@.take(i as int));
    }
    assert(trace@.take(trace@.len() as int) =~= trace@);
    ChannelTrace { channel, voltage: Some(items) }
}

/// Whether a message holds the given metadata and, as channels numbered from zero, the first
/// `number_of_channels` raw traces of an event.
pub open spec fn is_event_message(
    m: TraceMessage,
    time: Timestamp,
    frame_number: FrameNumber,
    digitizer_id: DigitizerId,
    number_of_channels: usize,
    event: TraceFileEvent,
) -> bool {
    &&& m.digitizer_id == digitizer_id
    &&& m.metadata == simulated_metadata(time, frame_number)
    &&& m.sample_rate == SIMULATED_SAMPLE_RATE
    &&& m.channels matches Some(c) && c@.len() == number_of_channels && forall|i: int|
        0 <= i < number_of_channels ==> (#[trigger] c@[i]).channel == i as Channel && (
        c@[i].voltage matches Some(v) && v@ == event.raw_trace@[i]@)
}

/// Fills `message` with the first `number_of_channels` raw traces of an event, as channels
/// numbered from zero, with the given time, frame number and digitiser, and reports it. The event
/// must hold that many traces.
pub fn create_message(
    message: &mut TraceMessage,
    time: Timestamp,
    frame_number: FrameNumber,
    digitizer_id: DigitizerId,
    number_of_channels: usize,
    number_of_samples: usize,
    event: &TraceFileEvent,
) -> (res: Result<String, SimulatorError>)
    requires
        number_of_channels <= event.raw_trace@.len(),
    ensures
        is_event_message(
            *final(message),
            time,
            frame_number,
            digitizer_id,
            number_of_channels,
            *event,
        ),
        reports(res, digitizer_id, frame_number, number_of_channels, number_of_samples),
{
    let mut channels: Vec<ChannelTrace> = Vec::new();
    let mut c: usize = 0;
    while c < number_of_channels
        invariant
            c <= number_of_channels,
            number_of_channels <= event.raw_trace@.len(),
            channels@.len() == c,
            forall|i: int|
                0 <= i < c ==> (#[trigger] channels@[i]).channel == i as Channel && (
                channels@[i].voltage matches Some(v) && v@ == event.raw_trace@[i]@),
        decreases number_of_channels - c,
    {
        channels.push(create_channel(c as Channel, event.raw_trace[c].as_slice()));
        c = c + 1;
    }
    *message = TraceMessage {
        digitizer_id,
        metadata: FrameMetadata {
            frame_number,
            period_number: 0,
            protons_per_pulse: 0,
            running: true,
            timestamp: Some(time),
            veto_flags: 0,
        },
        sample_rate: SIMULATED_SAMPLE_RATE,
        channels: Some(channels),
    };
    Ok(creation_report(digitizer_id, frame_number, number_of_channels, number_of_samples))
}

/// As `create_message`, at the present time. Where the clock reads a time outside the range of a
/// timestamp, the message is left as it was.
pub fn create_message_with_now(
    message: &mut TraceMessage,
    frame_number: FrameNumber,
    digitizer_id: DigitizerId,
    number_of_channels: usize,
    number_of_samples: usize,
    event: &TraceFileEvent,
) -> (res: Result<String, SimulatorError>)
    requires
        number_of_channels <= event.raw_trace@.len(),
    ensures
        res is Ok ==> exists|time: Timestamp|
            is_event_message(
                *final(message),
                time,
                frame_number,
                digitizer_id,
                number_of_channels,
                *event,
            ),
        res is Ok ==> reports(res, digitizer_id, frame_number, number_of_channels, number_of_samples),
        res matches Err(e) ==> e == SimulatorError::ClockOutOfRange && *final(message) == *old(
            message,
        ),
{
    match now_nanos() {
        Some(time) => create_message(
            message,
            time,
            frame_number,
            digitizer_id,
            number_of_channels,
            number_of_samples,
            event,
        ),
        None => Err(SimulatorError::ClockOutOfRange),
    }
}

/// As `create_message`, with a frame number and a digitiser identifier drawn from the given
/// ranges, which must not be empty.
pub fn create_partly_random_message(
    message: &mut TraceMessage,
    time: Timestamp,
    frame_number: RangeInclusive<FrameNumber>,
    digitizer_id: RangeInclusive<DigitizerId>,
    number_of_channels: usize,
    number_of_samples: usize,
    event: &TraceFileEvent,
) -> (res: Result<String, SimulatorError>)
    requires
        frame_number@.start <= frame_number@.end,
        digitizer_id@.start <= digitizer_id@.end,
        number_of_channels <= event.raw_trace@.len(),
    ensures
        exists|f: FrameNumber, d: DigitizerId|
            frame_number@.start <= f <= frame_number@.end && digitizer_id@.start <= d
                <= digitizer_id@.end && is_event_message(
                *final(message),
                time,
                f,
                d,
                number_of_channels,
                *event,
            ) && reports(res, d, f, number_of_channels, number_of_samples),
{
    let f = random_frame_number(&frame_number);
    let d = random_digitizer_id(&digitizer_id);
    let res = create_message(message, time, f, d, number_of_channels, number_of_samples, event);
    assert(is_event_message(*message, time, f, d, number_of_channels, *event) && reports(
        res,
        d,
        f,
        number_of_channels,
        number_of_samples,
    ));
    res
}

/// As `create_partly_random_message`, at the present time. Where the clock reads a time outside
/// the range of a timestamp, the message is left as it was.
pub fn create_partly_random_message_with_now(
    message: &mut TraceMessage,
    frame_number: RangeInclusive<FrameNumber>,
    digitizer_id: RangeInclusive<DigitizerId>,
    number_of_channels: usize,
    number_of_samples: usize,
    event: &TraceFileEvent,
) -> (res: Result<String, SimulatorError>)
    requires
        frame_number@.start <= frame_number@.end,
        digitizer_id@.start <= digitizer_id@.end,
        number_of_channels <= event.raw_trace@.len(),
    ensures
        res is Ok ==> exists|time: Timestamp, f: FrameNumber, d: DigitizerId|
            frame_number@.start <= f <= frame_number@.end && digitizer_id@.start <= d
                <= digitizer_id@.end && is_event_message(
                *final(message),
                time,
                f,
                d,
                number_of_channels,
                *event,
            ) && reports(res, d, f, number_of_channels, number_of_samples),
        res matches Err(e) ==> e == SimulatorError::ClockOutOfRange && *final(message) == *old(
            message,
        ),
{
    match now_nanos() {
        Some(time) => create_partly_random_message(
            message,
            time,
            frame_number,
            digitizer_id,
            number_of_channels,
            number_of_samples,
            event,
        ),
        None => Err(SimulatorError::ClockOutOfRange),
    }
}

} // verus!
