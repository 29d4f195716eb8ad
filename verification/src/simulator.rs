//! Simulated digitiser trace messages: fixed or random metadata, random samples.
use std::ops::RangeInclusive;
use vstd::prelude::*;

use crate::common::{Channel, DigitizerId, FrameNumber, Intensity, Timestamp};
use crate::message::{ChannelTrace, FrameMetadata, TraceMessage};
use crate::text::{decimal, push_decimal};

verus! {

broadcast use vstd::string::group_string_axioms;

/// `rand::random::<u16>()`: a sample drawn from the thread's random generator. Nothing is stated
/// of its value.
#[verifier::external_body]
pub(crate) fn random_intensity() -> (res: Intensity) {
    rand::random::<Intensity>()
}

/// `Rng::gen_range` on the thread's random generator, over `lo..=hi`: a value drawn between the
/// two bounds, both included. It panics where `lo > hi`, which `requires` leaves out.
#[verifier::external_body]
pub(crate) fn random_between(lo: u64, hi: u64) -> (res: u64)
    requires
        lo <= hi,
    ensures
        lo <= res <= hi,
{
    rand::Rng::gen_range(&mut rand::thread_rng(), lo..=hi)
}

/// `Utc::now()` as nanoseconds since the Unix epoch (`timestamp_nanos_opt`): the current time,
/// `None` where it lies outside the range of a 64-bit count of nanoseconds. It depends on the
/// clock, so nothing is stated of it.
#[verifier::external_body]
pub(crate) fn now_nanos() -> (res: Option<Timestamp>) {
    chrono::Utc::now().timestamp_nanos_opt()
}

/// A value drawn from a non-empty inclusive range of frame numbers.
pub(crate) fn random_frame_number(r: &RangeInclusive<FrameNumber>) -> (res: FrameNumber)
    requires
        r@.start <= r@.end,
    ensures
        r@.start <= res <= r@.end,
{
    random_between(*r.start() as u64, *r.end() as u64) as FrameNumber
}

/// A value drawn from a non-empty inclusive range of digitiser identifiers.
pub(crate) fn random_digitizer_id(r: &RangeInclusive<DigitizerId>) -> (res: DigitizerId)
    requires
        r@.start <= r@.end,
    ensures
        r@.start <= res <= r@.end,
{
    random_between(*r.start() as u64, *r.end() as u64) as DigitizerId
}

/// A value drawn from a non-empty inclusive range of counts.
pub(crate) fn random_count(r: &RangeInclusive<usize>) -> (res: usize)
    requires
        r@.start <= r@.end,
    ensures
        r@.start <= res <= r@.end,
{
    random_between(*r.start() as u64, *r.end() as u64) as usize
}

/// Why a message could not be simulated.
#[derive(Debug, Clone, Copy, PartialEq, Eq, Structural)]
pub enum SimulatorError {
    /// The clock reads a time outside the range of a timestamp.
    ClockOutOfRange,
}

/// The metadata of a simulated frame: the given number and time, period zero, no protons, no veto,
/// and running.
pub open spec fn simulated_metadata(time: Timestamp, frame_number: FrameNumber) -> FrameMetadata {
    FrameMetadata {
        frame_number,
        period_number: 0,
        protons_per_pulse: 0,
        running: true,
        timestamp: Some(time),
        veto_flags: 0,
    }
}

/// The sampling rate of every simulated message, in samples per second.
pub const SIMULATED_SAMPLE_RATE: u64 = 1_000_000_000;

/// Whether a message is a simulated one with the given metadata and shape: channels numbered from
/// zero, each with the given number of samples.
pub open spec fn is_simulated(
    m: TraceMessage,
    time: Timestamp,
    frame_number: FrameNumber,
    digitizer_id: DigitizerId,
    measurements_per_frame: usize,
    num_channels: usize,
) -> bool {
    &&& m.digitizer_id == digitizer_id
    &&& m.metadata == simulated_metadata(time, frame_number)
    &&& m.sample_rate == SIMULATED_SAMPLE_RATE
    &&& m.channels matches Some(c) && c@.len() == num_channels && forall|i: int|
        0 <= i < num_channels ==> (#[trigger] c@[i]).channel == i as Channel && (c@[i].voltage matches Some(
            v,
        ) && v@.len() == measurements_per_frame)
}

/// The report of a simulated message.
pub open spec fn creation_text(
    digitizer_id: DigitizerId,
    frame_number: FrameNumber,
    num_channels: usize,
    measurements: usize,
) -> Seq<char> {
    "New message created for digitizer "@ + decimal(digitizer_id as nat) + ", frame number "@
        + decimal(frame_number as nat) + ", and has "@ + decimal(num_channels as nat)
        + " channels, and "@ + decimal(measurements as nat) + " measurements."@
}

/// Whether a result is the report of a simulated message.
pub open spec fn reports(
    res: Result<String, SimulatorError>,
    digitizer_id: DigitizerId,
    frame_number: FrameNumber,
    num_channels: usize,
    measurements: usize,
) -> bool {
    res matches Ok(s) && s@ == creation_text(digitizer_id, frame_number, num_channels, measurements)
}

/// The report of a simulated message.
pub fn creation_report(
    digitizer_id: DigitizerId,
    frame_number: FrameNumber,
    num_channels: usize,
    measurements: usize,
) -> (res: String)
    ensures
        res@ == creation_text(digitizer_id, frame_number, num_channels, measurements),
{
    let mut s = "New message created for digitizer ".to_string();
    push_decimal(&mut s, digitizer_id as u64);
    s.append(", frame number ");
    push_decimal(&mut s, frame_number as u64);
    s.append(", and has ");
    push_decimal(&mut s, num_channels as u64);
    s.append(" channels, and ");
    push_decimal(&mut s, measurements as u64);
    s.append(" measurements.");
    s
}

/// A channel trace with the given identifier and the given number of random samples.
pub fn create_channel(channel: Channel, measurements_per_frame: usize) -> (res: ChannelTrace)
    ensures
        res.channel == channel,
        res.voltage matches Some(v) && v@.len() == measurements_per_frame,
{
    let mut items: Vec<Intensity> = Vec::new();
    let mut i: usize = 0;
    while i < measurements_per_frame
        invariant
            i <= measurements_per_frame,
            items@.len() == i,
        decreases measurements_per_frame - i,
    {
        items.push(random_intensity());
        i = i + 1;
    }
    ChannelTrace { channel, voltage: Some(items) }
}

/// Fills `message` with a simulated message of the given time, frame number and digitiser, with
/// `num_channels` channels of `measurements_per_frame` random samples each, and reports it.
pub fn create_message(
    message: &mut TraceMessage,
    time: Timestamp,
    frame_number: FrameNumber,
    digitizer_id: DigitizerId,
    measurements_per_frame: usize,
    num_channels: usize,
) -> (res: Result<String, SimulatorError>)
    ensures
        is_simulated(
            *final(message),
            time,
            frame_number,
            digitizer_id,
            measurements_per_frame,
            num_channels,
        ),
        res matches Ok(s) && s@ == creation_text(
            digitizer_id,
            frame_number,
            num_channels,
            measurements_per_frame,
        ),
{
    let mut channels: Vec<ChannelTrace> = Vec::new();
    let mut c: usize = 0;
    while c < num_channels
        invariant
            c <= num_channels,
            channels@.len() == c,
            forall|i: int|
                0 <= i < c ==> (#[trigger] channels@[i]).channel == i as Channel && (
                channels@[i].voltage matches Some(v) && v@.len() == measurements_per_frame),
        decreases num_channels - c,
    {
        channels.push(create_channel(c as Channel, measurements_per_frame));
        c = c + 1;
    }
    *message = TraceMessage {
        digitizer_id,
        metadata: FrameMetadata {
            frame_number,
            period_number: 0,
            protons_per_pulse: 0,
            running: true,
            timestamp: Some(time),
            veto_flags: 0,
        },
        sample_rate: SIMULATED_SAMPLE_RATE,
        channels: Some(channels),
    };
    Ok(creation_report(digitizer_id, frame_number, num_channels, measurements_per_frame))
}

/// As `create_message`, at the present time. Where the clock reads a time outside the range of a
/// timestamp, the message is left as it was.
pub fn create_message_with_now(
    message: &mut TraceMessage,
    frame_number: FrameNumber,
    digitizer_id: DigitizerId,
    measurements_per_frame: usize,
    num_channels: usize,
) -> (res: Result<String, SimulatorError>)
    ensures
        res matches Ok(s) ==> exists|time: Timestamp|
            is_simulated(
                *final(message),
                time,
                frame_number,
                digitizer_id,
                measurements_per_frame,
                num_channels,
            ),
        res matches Ok(s) ==> s@ == creation_text(
            digitizer_id,
            frame_number,
            num_channels,
            measurements_per_frame,
        ),
        res matches Err(e) ==> e == SimulatorError::ClockOutOfRange && *final(message) == *old(
            message,
        ),
{
    match now_nanos() {
        Some(time) => create_message(
            message,
            time,
            frame_number,
            digitizer_id,
            measurements_per_frame,
            num_channels,
        ),
        None => Err(SimulatorError::ClockOutOfRange),
    }
}

/// As `create_message`, with a frame number and a digitiser identifier drawn from the given
/// ranges, which must not be empty.
pub fn create_partly_random_message(
    message: &mut TraceMessage,
    time: Timestamp,
    frame_number: RangeInclusive<FrameNumber>,
    digitizer_id: RangeInclusive<DigitizerId>,
    measurements_per_frame: usize,
    num_channels: usize,
) -> (res: Result<String, SimulatorError>)
    requires
        frame_number@.start <= frame_number@.end,
        digitizer_id@.start <= digitizer_id@.end,
    ensures
        exists|f: FrameNumber, d: DigitizerId|
            frame_number@.start <= f <= frame_number@.end && digitizer_id@.start <= d
                <= digitizer_id@.end && is_simulated(
                *final(message),
                time,
                f,
                d,
                measurements_per_frame,
                num_channels,
            ) && reports(res, d, f, num_channels, measurements_per_frame),
{
    let f = random_frame_number(&frame_number);
    let d = random_digitizer_id(&digitizer_id);
    let res = create_message(message, time, f, d, measurements_per_frame, num_channels);
    assert(is_simulated(*message, time, f, d, measurements_per_frame, num_channels) && reports(
        res,
        d,
        f,
        num_channels,
        measurements_per_frame,
    ));
    res
}

/// As `create_message`, with the frame number, the digitiser identifier, the number of samples and
/// the number of channels all drawn from the given ranges, which must not be empty.
pub fn create_random_message(
    message: &mut TraceMessage,
    time: Timestamp,
    frame_number: RangeInclusive<FrameNumber>,
    digitizer_id: RangeInclusive<DigitizerId>,
    measurements_per_frame: RangeInclusive<usize>,
    num_channels: RangeInclusive<usize>,
) -> (res: Result<String, SimulatorError>)
    requires
        frame_number@.start <= frame_number@.end,
        digitizer_id@.start <= digitizer_id@.end,
        measurements_per_frame@.start <= measurements_per_frame@.end,
        num_channels@.start <= num_channels@.end,
    ensures
        exists|f: FrameNumber, d: DigitizerId, m: usize, n: usize|
            frame_number@.start <= f <= frame_number@.end && digitizer_id@.start <= d
                <= digitizer_id@.end && measurements_per_frame@.start <= m
                <= measurements_per_frame@.end && num_channels@.start <= n <= num_channels@.end
                && is_simulated(*final(message), time, f, d, m, n) && reports(res, d, f, n, m),
{
    let m = random_count(&measurements_per_frame);
    let n = random_count(&num_channels);
    create_partly_random_message(message, time, frame_number, digitizer_id, m, n)
}

/// As `create_partly_random_message`, at the present time. Where the clock reads a time outside
/// the range of a timestamp, the message is left as it was.
pub fn create_partly_random_message_with_now(
    message: &mut TraceMessage,
    frame_number: RangeInclusive<FrameNumber>,
    digitizer_id: RangeInclusive<DigitizerId>,
    measurements_per_frame: usize,
    num_channels: usize,
) -> (res: Result<String, SimulatorError>)
    requires
        frame_number@.start <= frame_number@.end,
        digitizer_id@.start <= digitizer_id@.end,
    ensures
        res is Ok ==> exists|time: Timestamp, f: FrameNumber, d: DigitizerId|
            frame_number@.start <= f <= frame_number@.end && digitizer_id@.start <= d
                <= digitizer_id@.end && is_simulated(
                *final(message),
                time,
                f,
                d,
                measurements_per_frame,
                num_channels,
            ) && reports(res, d, f, num_channels, measurements_per_frame),
        res matches Err(e) ==> e == SimulatorError::ClockOutOfRange && *final(message) == *old(
            message,
        ),
{
    match now_nanos() {
        Some(time) => create_partly_random_message(
            message,
            time,
            frame_number,
            digitizer_id,
            measurements_per_frame,
            num_channels,
        ),
        None => Err(SimulatorError::ClockOutOfRange),
    }
}

/// As `create_random_message`, at the present time. Where the clock reads a time outside the
/// range of a timestamp, the message is left as it was.
pub fn create_random_message_with_now(
    message: &mut TraceMessage,
    frame_number: RangeInclusive<FrameNumber>,
    digitizer_id: RangeInclusive<DigitizerId>,
    measurements_per_frame: RangeInclusive<usize>,
    num_channels: RangeInclusive<usize>,
) -> (res: Result<String, SimulatorError>)
    requires
        frame_number@.start <= frame_number@.end,
        digitizer_id@.start <= digitizer_id@.end,
        measurements_per_frame@.start <= measurements_per_frame@.end,
        num_channels@.start <= num_channels@.end,
    ensures
        res is Ok ==> exists|time: Timestamp, f: FrameNumber, d: DigitizerId, m: usize, n: usize|
            frame_number@.start <= f <= frame_number@.end && digitizer_id@.start <= d
                <= digitizer_id@.end && measurements_per_frame@.start <= m
                <= measurements_per_frame@.end && num_channels@.start <= n <= num_channels@.end
                && is_simulated(*final(message), time, f, d, m, n) && reports(res, d, f, n, m),
        res matches Err(e) ==> e == SimulatorError::ClockOutOfRange && *final(message) == *old(
            message,
        ),
{
    match now_nanos() {
        Some(time) => create_random_message(
            message,
            time,
            frame_number,
            digitizer_id,
            measurements_per_frame,
            num_channels,
        ),
        None => Err(SimulatorError::ClockOutOfRange),
    }
}

} // verus!
