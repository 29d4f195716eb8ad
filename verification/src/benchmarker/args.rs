//! The parameters of a benchmark over channel and sample counts, and the space they range over.
use std::ops::RangeInclusive;
use vstd::prelude::*;
use vstd::std_specs::range::RangeInclusiveView;

use super::stepped::{
    parse_stepped_values, range_step_values, range_steps, spec_parse_stepped, usize_ints,
    RangeParseError,
};
use crate::text::decimal;

verus! {

broadcast use vstd::string::group_string_axioms;

/// A range object that includes an inclusive range object and a step size.
#[derive(Clone)]
pub struct SteppedRange(pub RangeInclusive<usize>, pub usize);

impl SteppedRange {
    /// The values that the range yields in steps of its step size.
    pub open spec fn values(&self) -> Seq<int> {
        range_steps(self.0@, self.1 as int)
    }

    /// Reads a stepped range from its text form `start:end:step`. The text must hold exactly
    /// three unsigned integers that fit a `usize`, separated by colons.
    pub fn from_string(src: String) -> (res: Result<Self, RangeParseError>)
        requires
            spec_parse_stepped(src@) is Ok,
        ensures
            res matches Ok(r) && !r.0@.exhausted && spec_parse_stepped(src@) == Ok::<
                (int, int, int),
                (),
            >((r.0@.start as int, r.0@.end as int, r.1 as int)),
    {
        match parse_stepped_values(src.as_str()) {
            Ok((start, end, step)) => Ok(SteppedRange(start..=end, step)),
            Err(_) => {
                proof {
                    assert(false);
                }
                Ok(SteppedRange(0..=0, 0))
            },
        }
    }

    /// The values of the range, in steps of the step size.
    pub fn iter(&self) -> (res: Vec<usize>)
        requires
            self.1 > 0,
        ensures
            usize_ints(res@) == self.values(),
    {
        range_step_values(&self.0, self.1)
    }
}

/// Whether a value lies in an inclusive range, as `RangeInclusive::contains` decides it.
pub open spec fn range_holds(r: RangeInclusiveView<usize>, x: usize) -> bool {
    r.start <= x && if r.exhausted {
        x < r.end
    } else {
        x <= r.end
    }
}

/// Whether a value lies in an inclusive range.
pub fn range_contains(r: &RangeInclusive<usize>, x: usize) -> (res: bool)
    ensures
        res == range_holds(r@, x),
{
    r.contains(&x)
}

/// The parameters of one benchmark: how many channels, and how many samples per channel.
#[derive(Default, PartialEq, Eq, Structural, Clone, Copy, Debug)]
pub struct Args {
    pub num_channels: usize,
    pub num_samples: usize,
}

/// The fixed and the varying parameters of a series of benchmark results.
#[derive(PartialEq)]
#[allow(inconsistent_fields)]
pub enum SeriesArgs {
    NumChannelsVariable { num_channels: RangeInclusive<usize>, num_samples: usize },
    NumSamplesVariable { num_channels: usize, num_samples: RangeInclusive<usize> },
}

/// Whether a benchmark's parameters belong to a series: the varying parameter lies in its range
/// and the fixed one is equal.
pub open spec fn spec_is_matched(a: Args, s: SeriesArgs) -> bool {
    match s {
        SeriesArgs::NumChannelsVariable { num_channels, num_samples } => range_holds(
            num_channels@,
            a.num_channels,
        ) && a.num_samples == num_samples,
        SeriesArgs::NumSamplesVariable { num_channels, num_samples } => a.num_channels
            == num_channels && range_holds(num_samples@, a.num_samples),
    }
}

/// A benchmark belongs to a series exactly where its fixed parameter equals the series' fixed
/// value and its varying parameter lies between the bounds of the series' range, the end
/// included unless the range has been walked to its end: a benchmark with another fixed value,
/// larger or smaller, is left out.
pub proof fn law_matched_fixed_equal_varying_in_range(a: Args, s: SeriesArgs)
    ensures
        s matches SeriesArgs::NumChannelsVariable { num_channels: c, num_samples: n } ==> (
        spec_is_matched(a, s) <==> (a.num_samples == n && c@.start <= a.num_channels && (
        a.num_channels < c@.end || (a.num_channels == c@.end && !c@.exhausted)))),
        s matches SeriesArgs::NumSamplesVariable { num_channels: c, num_samples: n } ==> (
        spec_is_matched(a, s) <==> (a.num_channels == c && n@.start <= a.num_samples && (
        a.num_samples < n@.end || (a.num_samples == n@.end && !n@.exhausted)))),
        s matches SeriesArgs::NumChannelsVariable { num_samples: n, .. } && a.num_samples != n
            ==> !spec_is_matched(a, s),
        s matches SeriesArgs::NumSamplesVariable { num_channels: c, .. } && a.num_channels != c
            ==> !spec_is_matched(a, s),
{
}

/// The parameter that varies along a series, read from a benchmark's parameters.
pub open spec fn spec_extract_param(a: Args, s: SeriesArgs) -> usize {
    match s {
        SeriesArgs::NumChannelsVariable { .. } => a.num_channels,
        SeriesArgs::NumSamplesVariable { .. } => a.num_samples,
    }
}

/// The line announcing a benchmark with the given parameters.
pub open spec fn init_text(a: Args) -> Seq<char> {
    "Running benchmark for "@ + decimal(a.num_channels as nat) + " channels, "@ + decimal(
        a.num_samples as nat,
    ) + " datapoints."@
}

impl Args {
    pub fn new(c: usize, s: usize) -> (res: Args)
        ensures
            res == (Args { num_channels: c, num_samples: s }),
    {
        Args { num_channels: c, num_samples: s }
    }

    /// The parameter that varies along the given series.
    pub fn extract_param(&self, args: &SeriesArgs) -> (res: usize)
        ensures
            res == spec_extract_param(*self, *args),
    {
        match args {
            SeriesArgs::NumChannelsVariable { .. } => self.num_channels,
            SeriesArgs::NumSamplesVariable { .. } => self.num_samples,
        }
    }

    /// Whether these parameters belong to the given series.
    pub fn is_matched(&self, args: &SeriesArgs) -> (res: bool)
        ensures
            res == spec_is_matched(*self, *args),
            res ==> (args matches SeriesArgs::NumChannelsVariable { num_samples: n, .. } ==> self.num_samples
                == n),
            res ==> (args matches SeriesArgs::NumSamplesVariable { num_channels: c, .. } ==> self.num_channels
                == c),
            res ==> spec_extract_param(*self, *args) as int >= match *args {
                SeriesArgs::NumChannelsVariable { num_channels: c, .. } => c@.start as int,
                SeriesArgs::NumSamplesVariable { num_samples: n, .. } => n@.start as int,
            },
    {
        proof {
            law_matched_fixed_equal_varying_in_range(*self, *args);
        }
        match args {
            SeriesArgs::NumChannelsVariable { num_channels: c, num_samples: s } => {
                range_contains(c, self.num_channels) && self.num_samples == *s
            },
            SeriesArgs::NumSamplesVariable { num_channels: c, num_samples: s } => {
                self.num_channels == *c && range_contains(s, self.num_samples)
            },
        }
    }

    /// The line announcing a benchmark with these parameters.
    pub fn output_init(&self) -> (res: String)
        ensures
            res@ == init_text(*self),
    {
        let mut s = "Running benchmark for ".to_string();
        crate::text::push_decimal(&mut s, self.num_channels as u64);
        s.append(" channels, ");
        crate::text::push_decimal(&mut s, self.num_samples as u64);
        s.append(" datapoints.");
        s
    }
}

impl From<(usize, usize)> for Args {
    fn from(p: (usize, usize)) -> (res: Self) {
        Args { num_channels: p.0, num_samples: p.1 }
    }
}

impl vstd::std_specs::convert::FromSpecImpl<(usize, usize)> for Args {
    open spec fn obeys_from_spec() -> bool {
        true
    }

    open spec fn from_spec(p: (usize, usize)) -> Self {
        Args { num_channels: p.0, num_samples: p.1 }
    }
}

/// Every pair of an item of `a` with an item of `b`, by the items of `a` and then of `b`.
pub open spec fn pairs(a: Seq<int>, b: Seq<int>) -> Seq<(int, int)>
    decreases a.len(),
{
    if a.len() == 0 {
        Seq::empty()
    } else {
        pairs(a.drop_last(), b) + b.map_values(|y: int| (a.last(), y))
    }
}

/// There are as many pairs as the product of the two lengths.
pub proof fn lemma_pairs_len(a: Seq<int>, b: Seq<int>)
    ensures
        pairs(a, b).len() == a.len() * b.len(),
    decreases a.len(),
{
    if a.len() > 0 {
        lemma_pairs_len(a.drop_last(), b);
        assert((a.len() - 1) * b.len() + b.len() == a.len() * b.len()) by (nonlinear_arith);
    }
}

/// The integer values of a list of parameter pairs.
pub open spec fn pair_ints(v: Seq<(usize, usize)>) -> Seq<(int, int)> {
    v.map_values(|p: (usize, usize)| (p.0 as int, p.1 as int))
}

/// The ranges over which the channel and sample counts of a run of benchmarks vary.
#[derive(Clone)]
pub struct ArgRanges {
    pub num_channels_range: SteppedRange,
    pub num_samples_range: SteppedRange,
}

impl ArgRanges {
    /// The points of the parameter space: every channel count with every sample count.
    pub open spec fn space(&self) -> Seq<(int, int)> {
        pairs(self.num_channels_range.values(), self.num_samples_range.values())
    }

    /// Whether both step sizes are positive, as walking the ranges needs.
    pub open spec fn steps_positive(&self) -> bool {
        self.num_channels_range.1 > 0 && self.num_samples_range.1 > 0
    }

    /// The points of the parameter space, by channel count and then by sample count.
    pub fn iter(&self) -> (res: Vec<(usize, usize)>)
        requires
            self.steps_positive(),
        ensures
            pair_ints(res@) == self.space(),
    {
        let channels = self.num_channels_range.iter();
        let samples = self.num_samples_range.iter();
        let ghost a = usize_ints(channels@);
        let ghost b = usize_ints(samples@);
        let mut out: Vec<(usize, usize)> = Vec::new();
        let mut i: usize = 0;
        while i < channels.len()
            invariant
                i <= channels.len(),
                a == usize_ints(channels@),
                b == usize_ints(samples@),
                pair_ints(out@) == pairs(a.take(i as int), b),
            decreases channels.len() - i,
        {
            let c = channels[i];
            let ghost before = out@;
            assert(a.take(i + 1).drop_last() =~= a.take(i as int));
            assert(a.take(i + 1).last() == c as int);
            let mut j: usize = 0;
            while j < samples.len()
                invariant
                    j <= samples.len(),
                    i < channels.len(),
                    c == channels@[i as int],
                    b == usize_ints(samples@),
                    pair_ints(out@) == pair_ints(before) + b.take(j as int).map_values(
                        |y: int| (c as int, y),
                    ),
                decreases samples.len() - j,
            {
                let ghost prev = out@;
                out.push((c, samples[j]));
                j = j + 1;
                assert(pair_ints(out@) =~= pair_ints(prev).push((c as int, samples@[j - 1] as int)));
                assert(b.take(j as int).map_values(|y: int| (c as int, y)) =~= b.take(
                    j - 1,
                ).map_values(|y: int| (c as int, y)).push((c as int, samples@[j - 1] as int)));
            }
            assert(b.take(samples.len() as int) =~= b);
            i = i + 1;
        }
        assert(a.take(channels.len() as int) =~= a);
        out
    }

    /// The number of points in the parameter space: the product of the two ranges' value counts.
    pub fn get_parameter_space_size(&self) -> (res: usize)
        requires
            self.steps_positive(),
        ensures
            res == self.num_channels_range.values().len() * self.num_samples_range.values().len(),
    {
        let space = self.iter();
        proof {
            lemma_pairs_len(self.num_channels_range.values(), self.num_samples_range.values());
        }
        space.len()
    }
}

} // verus!
