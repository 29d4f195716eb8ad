//! The results of benchmarks over channel and sample counts, and the tables made from them.
use vstd::prelude::*;

use super::args::Args;
use super::benchmark::{micros, TimeRecords};
use crate::text::{decimal, push_decimal, push_wide_decimal};

pub use super::engine_analyser::SeriesType;

verus! {

broadcast use vstd::string::group_string_axioms;

/// The parameters of a benchmark over channels and samples, and the times it took.
#[derive(Default, Clone, Copy, Debug, PartialEq, Eq, Structural)]
pub struct BenchMark {
    pub args: Args,
    pub time: TimeRecords,
}

/// The line of the results table for one benchmark: samples, total and posting time in
/// microseconds.
pub open spec fn csv_line(b: BenchMark) -> Seq<char> {
    decimal(b.args.num_samples as nat) + ", "@ + decimal(micros(b.time.total_time)) + ", "@
        + decimal(micros(b.time.posting_time)) + "\n"@
}

/// The lines of the results table for the benchmarks with the given channel count, in order.
pub open spec fn channel_csv_lines(bs: Seq<BenchMark>, num_channels: usize) -> Seq<char>
    decreases bs.len(),
{
    if bs.len() == 0 {
        Seq::empty()
    } else {
        let prev = channel_csv_lines(bs.drop_last(), num_channels);
        if bs.last().args.num_channels == num_channels {
            prev + csv_line(bs.last())
        } else {
            prev
        }
    }
}

/// The results of a run of benchmarks, in the order they were recorded.
pub struct Results(Vec<BenchMark>);

impl Default for Results {
    fn default() -> (res: Self)
        ensures
            res.benchmarks() == Seq::<BenchMark>::empty(),
    {
        Results(Vec::new())
    }
}

impl Results {
    /// The recorded benchmarks, in order.
    pub closed spec fn benchmarks(&self) -> Seq<BenchMark> {
        self.0@
    }

    /// The recorded benchmarks, in order.
    pub fn iter(&self) -> (res: &[BenchMark])
        ensures
            res@ == self.benchmarks(),
    {
        self.0.as_slice()
    }

    /// Forgets every recorded benchmark.
    pub fn clear(&mut self)
        ensures
            final(self).benchmarks() == Seq::<BenchMark>::empty(),
    {
        self.0.clear();
    }

    /// Records one more benchmark.
    pub fn push(&mut self, bm: BenchMark)
        ensures
            final(self).benchmarks() == old(self).benchmarks().push(bm),
    {
        self.0.push(bm);
    }

    /// The columns that a regression over the results is fitted to, in order: total times,
    /// posting times, channel counts and sample counts.
    pub fn regression_columns(&self) -> (res: (Vec<u128>, Vec<u128>, Vec<usize>, Vec<usize>))
        ensures
            res.0@.len() == self.benchmarks().len(),
            res.1@.len() == self.benchmarks().len(),
            res.2@.len() == self.benchmarks().len(),
            res.3@.len() == self.benchmarks().len(),
            forall|i: int|
                0 <= i < self.benchmarks().len() ==> #[trigger] res.0@[i]
                    == self.benchmarks()[i].time.total_time,
            forall|i: int|
                0 <= i < self.benchmarks().len() ==> #[trigger] res.1@[i]
                    == self.benchmarks()[i].time.posting_time,
            forall|i: int|
                0 <= i < self.benchmarks().len() ==> #[trigger] res.2@[i]
                    == self.benchmarks()[i].args.num_channels,
            forall|i: int|
                0 <= i < self.benchmarks().len() ==> #[trigger] res.3@[i]
                    == self.benchmarks()[i].args.num_samples,
    {
        let mut t: Vec<u128> = Vec::new();
        let mut pt: Vec<u128> = Vec::new();
        let mut c: Vec<usize> = Vec::new();
        let mut d: Vec<usize> = Vec::new();
        let mut i: usize = 0;
        while i < self.0.len()
            invariant
                i <= self.0.len(),
                t@.len() == i,
                pt@.len() == i,
                c@.len() == i,
                d@.len() == i,
                forall|k: int| 0 <= k < i ==> #[trigger] t@[k] == self.0@[k].time.total_time,
                forall|k: int| 0 <= k < i ==> #[trigger] pt@[k] == self.0@[k].time.posting_time,
                forall|k: int| 0 <= k < i ==> #[trigger] c@[k] == self.0@[k].args.num_channels,
                forall|k: int| 0 <= k < i ==> #[trigger] d@[k] == self.0@[k].args.num_samples,
            decreases self.0.len() - i,
        {
            let b = self.0[i];
            t.push(b.time.total_time);
            pt.push(b.time.posting_time);
            c.push(b.args.num_channels);
            d.push(b.args.num_samples);
            i = i + 1;
        }
        (t, pt, c, d)
    }

    /// The results table for the benchmarks with the given channel count: a heading, then one
    /// line for each of them.
    pub fn csv_text(&self, num_channels: usize) -> (res: String)
        ensures
            res@ == super::benchmark::csv_heading() + channel_csv_lines(
                self.benchmarks(),
                num_channels,
            ),
    {
        let mut s = "num_samples, total_time, posting_time\n".to_string();
        let mut i: usize = 0;
        while i < self.0.len()
            invariant
                i <= self.0.len(),
                s@ == super::benchmark::csv_heading() + channel_csv_lines(
                    self.0@.take(i as int),
                    num_channels,
                ),
            decreases self.0.len() - i,
        {
            let b = self.0[i];
            let ghost before = s@;
            assert(self.0@.take(i + 1).drop_last() =~= self.0@.take(i as int));
            if b.args.num_channels == num_channels {
                push_decimal(&mut s, b.args.num_samples as u64);
                s.append(", ");
                push_wide_decimal(&mut s, b.time.total_time / 1000);
                s.append(", ");
                push_wide_decimal(&mut s, b.time.posting_time / 1000);
                s.append("\n");
                assert(s@ =~= before + csv_line(b));
            }
            i = i + 1;
        }
        assert(self.0@.take(self.0.len() as int) =~= self.0@);
        s
    }
}

} // verus!
