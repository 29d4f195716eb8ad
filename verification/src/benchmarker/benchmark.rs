//! Benchmarks over the number of samples per channel: their parameters, the parameter space of a
//! run, the times they record and the table of results.
use std::ops::RangeInclusive;
use vstd::prelude::*;

use super::stepped::{
    parse_stepped_values, range_step_values, range_steps, spec_parse_stepped, usize_ints,
    RangeParseError,
};
use crate::message::{
    lemma_max_voltage_len, max_channel_samples, max_voltage_len, voltage_len, FrameMetadata,
    TraceMessage,
};
use crate::simulator::{create_partly_random_message_with_now, is_simulated, SimulatorError};
use crate::text::{decimal, push_decimal, push_wide_decimal};

verus! {

broadcast use vstd::string::group_string_axioms;

///  A range object that includes an inclusive range object and a step size.
#[derive(Clone)]
pub struct SteppedRange(pub RangeInclusive<usize>, pub usize);

impl SteppedRange {
    /// The values that the range yields in steps of its step size.
    pub open spec fn values(&self) -> Seq<int> {
        range_steps(self.0@, self.1 as int)
    }

    /// The values of the range, in steps of the step size.
    pub fn iter(&self) -> (res: Vec<usize>)
        requires
            self.1 > 0,
        ensures
            usize_ints(res@) == self.values(),
    {
        range_step_values(&self.0, self.1)
    }

    /// Reads a stepped range from its text form `start:end:step`: three unsigned integers
    /// separated by colons. A piece that is not such an integer, or a number of pieces other than
    /// three, is refused.
    pub fn parse(src: &str) -> (res: Result<Self, RangeParseError>)
        ensures
            res.is_ok() == spec_parse_stepped(src@).is_ok(),
            res matches Ok(r) ==> !r.0@.exhausted && spec_parse_stepped(src@) == Ok::<
                (int, int, int),
                (),
            >((r.0@.start as int, r.0@.end as int, r.1 as int)),
            res matches Err(RangeParseError::ParseInt(t)) ==> exists|i: int|
                super::stepped::first_bad_piece(crate::text::split_on(src@, ':'), i) && t@
                    == crate::text::split_on(src@, ':')[i],
            res matches Err(RangeParseError::WrongNumberOfParameters(v)) ==> super::stepped::pieces_parse(
                crate::text::split_on(src@, ':'),
            ) && crate::text::split_on(src@, ':').len() != 3 && usize_ints(v@)
                == super::stepped::piece_values(crate::text::split_on(src@, ':')),
    {
        match parse_stepped_values(src) {
            Ok((start, end, step)) => Ok(SteppedRange(start..=end, step)),
            Err(e) => Err(e),
        }
    }
}

impl std::str::FromStr for SteppedRange {
    type Err = RangeParseError;

    fn from_str(src: &str) -> (res: Result<Self, Self::Err>)
        ensures
            res.is_ok() == spec_parse_stepped(src@).is_ok(),
            res matches Ok(r) ==> !r.0@.exhausted && spec_parse_stepped(src@) == Ok::<
                (int, int, int),
                (),
            >((r.0@.start as int, r.0@.end as int, r.1 as int)),
            res matches Err(RangeParseError::ParseInt(t)) ==> exists|i: int|
                super::stepped::first_bad_piece(crate::text::split_on(src@, ':'), i) && t@
                    == crate::text::split_on(src@, ':')[i],
            res matches Err(RangeParseError::WrongNumberOfParameters(v)) ==> super::stepped::pieces_parse(
                crate::text::split_on(src@, ':'),
            ) && crate::text::split_on(src@, ':').len() != 3 && usize_ints(v@)
                == super::stepped::piece_values(crate::text::split_on(src@, ':')),
    {
        SteppedRange::parse(src)
    }
}

/// The parameters of one benchmark: the number of samples per channel.
#[derive(Default, PartialEq, Eq, Structural, Clone, Copy, Debug)]
pub struct Args {
    pub num_samples: usize,
}

/// The line announcing a benchmark with the given parameters.
pub open spec fn init_text(a: Args) -> Seq<char> {
    "Running benchmark for "@ + decimal(a.num_samples as nat) + " datapoints."@
}

impl Args {
    pub fn new(s: usize) -> (res: Args)
        ensures
            res == (Args { num_samples: s }),
    {
        Args { num_samples: s }
    }

    /// The line announcing a benchmark with these parameters.
    pub fn output_init(&self) -> (res: String)
        ensures
            res@ == init_text(*self),
    {
        let mut s = "Running benchmark for ".to_string();
        push_decimal(&mut s, self.num_samples as u64);
        s.append(" datapoints.");
        s
    }
}

/// The extent over which the parameters of a run of benchmarks range.
#[derive(Clone)]
pub struct ArgRanges {
    pub num_samples_range: SteppedRange,
}

impl ArgRanges {
    pub fn new(num_samples_range: SteppedRange) -> (res: Self)
        ensures
            res.num_samples_range == num_samples_range,
    {
        ArgRanges { num_samples_range }
    }

    /// The points of the parameter space: the sample counts of the range.
    pub open spec fn space(&self) -> Seq<int> {
        self.num_samples_range.values()
    }

    /// Every value in the parameter space, in order.
    pub fn iter(&self) -> (res: Vec<usize>)
        requires
            self.num_samples_range.1 > 0,
        ensures
            usize_ints(res@) == self.space(),
    {
        self.num_samples_range.iter()
    }

    /// The number of points in the parameter space.
    pub fn get_parameter_space_size(&self) -> (res: usize)
        requires
            self.num_samples_range.1 > 0,
        ensures
            res == self.space().len(),
    {
        let v = self.iter();
        v.len()
    }
}

/// The times that one benchmark took, in nanoseconds: the whole of it, and the posting alone.
#[derive(Default, Clone, Copy, Debug, PartialEq, Eq, Structural)]
pub struct TimeRecords {
    pub total_time: u128,
    pub posting_time: u128,
}

/// The parameters of a benchmark and the times it took.
#[derive(Default, Clone, Copy, Debug, PartialEq, Eq, Structural)]
pub struct BenchMark {
    pub args: Args,
    pub time: TimeRecords,
}

impl BenchMark {
    /// The parameters of a benchmark of a given message: its largest number of samples in a
    /// channel, zero where it has no channels.
    pub fn args_from_message(message: &TraceMessage) -> (res: Args)
        ensures
            res.num_samples == match message.channels {
                Some(c) => max_voltage_len(c@),
                None => 0,
            },
    {
        match &message.channels {
            Some(c) => Args::new(max_channel_samples(c)),
            None => Args::new(0),
        }
    }
}

/// A message to benchmark with: the given number of channels of the given number of random
/// samples each, at the present time, with a frame number drawn from `0..=12` and a digitiser
/// drawn from `0..=24`. Where the clock reads a time outside the range of a timestamp, there is no
/// message.
pub fn create_benchmark_message(num_channels: usize, num_samples: usize) -> (res: Result<
    TraceMessage,
    SimulatorError,
>)
    ensures
        res matches Ok(m) ==> exists|time: i64, f: u32, d: u8|
            f <= 12 && d <= 24 && is_simulated(m, time, f, d, num_samples, num_channels),
        res matches Err(e) ==> e == SimulatorError::ClockOutOfRange,
{
    let mut m = TraceMessage {
        digitizer_id: 0,
        metadata: FrameMetadata {
            frame_number: 0,
            period_number: 0,
            protons_per_pulse: 0,
            running: false,
            timestamp: None,
            veto_flags: 0,
        },
        sample_rate: 0,
        channels: None,
    };
    match create_partly_random_message_with_now(&mut m, 0..=12, 0..=24, num_samples, num_channels) {
        Ok(_) => Ok(m),
        Err(e) => Err(e),
    }
}

/// The parameters of a benchmark of a simulated message are the sample count it was made with,
/// where it has a channel.
pub proof fn law_benchmark_args_of_simulated(
    m: TraceMessage,
    time: i64,
    frame_number: u32,
    digitizer_id: u8,
    num_samples: usize,
    num_channels: usize,
)
    requires
        is_simulated(m, time, frame_number, digitizer_id, num_samples, num_channels),
        num_channels > 0,
    ensures
        m.channels matches Some(c) && max_voltage_len(c@) == num_samples,
{
    let c = m.channels.unwrap()@;
    lemma_max_voltage_len(c);
    let i = choose|i: int| 0 <= i < c.len() && voltage_len(#[trigger] c[i]) == max_voltage_len(c);
    assert(c[i].voltage matches Some(v) && v@.len() == num_samples);
}

/// Whole microseconds in a number of nanoseconds.
pub open spec fn micros(nanos: u128) -> nat {
    (nanos / 1000) as nat
}

/// The line of the results table for one benchmark: samples, total and posting time in
/// microseconds.
pub open spec fn csv_line(b: BenchMark) -> Seq<char> {
    decimal(b.args.num_samples as nat) + ", "@ + decimal(micros(b.time.total_time)) + ", "@
        + decimal(micros(b.time.posting_time)) + "\n"@
}

/// The lines of the results table for a list of benchmarks, in order.
pub open spec fn csv_lines(bs: Seq<BenchMark>) -> Seq<char>
    decreases bs.len(),
{
    if bs.len() == 0 {
        Seq::empty()
    } else {
        csv_lines(bs.drop_last()) + csv_line(bs.last())
    }
}

/// The heading of the results table.
pub open spec fn csv_heading() -> Seq<char> {
    "num_samples, total_time, posting_time\n"@
}

/// The results table of a list of benchmarks: a heading, then one line for each benchmark.
pub fn csv_text(results: &Vec<BenchMark>) -> (res: String)
    ensures
        res@ == csv_heading() + csv_lines(results@),
{
    let mut s = "num_samples, total_time, posting_time\n".to_string();
    let mut i: usize = 0;
    while i < results.len()
        invariant
            i <= results.len(),
            s@ == csv_heading() + csv_lines(results@.take(i as int)),
        decreases results.len() - i,
    {
        let b = results[i];
        let ghost before = s@;
        push_decimal(&mut s, b.args.num_samples as u64);
        s.append(", ");
        push_wide_decimal(&mut s, b.time.total_time / 1000);
        s.append(", ");
        push_wide_decimal(&mut s, b.time.posting_time / 1000);
        s.append("\n");
        assert(results@.take(i + 1).drop_last() =~= results@.take(i as int));
        assert(s@ =~= before + csv_line(b));
        i = i + 1;
    }
    assert(results@.take(results.len() as int) =~= results@);
    s
}

/// The columns that a regression over a list of benchmarks is fitted to, in order: total times,
/// posting times, and sample counts.
pub fn regression_columns(results: &Vec<BenchMark>) -> (res: (Vec<u128>, Vec<u128>, Vec<usize>))
    ensures
        res.0@.len() == results@.len(),
        res.1@.len() == results@.len(),
        res.2@.len() == results@.len(),
        forall|i: int| 0 <= i < results@.len() ==> #[trigger] res.0@[i] == results@[i].time.total_time,
        forall|i: int| 0 <= i < results@.len() ==> #[trigger] res.1@[i] == results@[i].time.posting_time,
        forall|i: int| 0 <= i < results@.len() ==> #[trigger] res.2@[i] == results@[i].args.num_samples,
{
    let mut t: Vec<u128> = Vec::new();
    let mut pt: Vec<u128> = Vec::new();
    let mut s: Vec<usize> = Vec::new();
    let mut i: usize = 0;
    while i < results.len()
        invariant
            i <= results.len(),
            t@.len() == i,
            pt@.len() == i,
            s@.len() == i,
            forall|k: int| 0 <= k < i ==> #[trigger] t@[k] == results@[k].time.total_time,
            forall|k: int| 0 <= k < i ==> #[trigger] pt@[k] == results@[k].time.posting_time,
            forall|k: int| 0 <= k < i ==> #[trigger] s@[k] == results@[k].args.num_samples,
        decreases results.len() - i,
    {
        t.push(results[i].time.total_time);
        pt.push(results[i].time.posting_time);
        s.push(results[i].args.num_samples);
        i = i + 1;
    }
    (t, pt, s)
}

} // verus!
