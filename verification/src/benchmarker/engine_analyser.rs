//! The benchmarks of one time-series store over a parameter space, and the series drawn from them.
use vstd::prelude::*;

use super::args::{
    pair_ints, spec_extract_param, spec_is_matched, ArgRanges, SeriesArgs, SteppedRange,
};
use super::results::BenchMark;
use super::benchmark::TimeRecords;
use crate::text::{decimal, push_decimal, push_wide_decimal};

verus! {

/// Which of the recorded times a series plots.
#[derive(Clone, Copy, Debug, PartialEq, Eq, Structural)]
pub enum SeriesType {
    TotalTime,
    PostingTime,
}

/// The time of a benchmark that a series of the given kind plots, in nanoseconds.
pub open spec fn series_time(t: TimeRecords, kind: SeriesType) -> u128 {
    match kind {
        SeriesType::TotalTime => t.total_time,
        SeriesType::PostingTime => t.posting_time,
    }
}

/// The points of a series: for each benchmark that belongs to it, in order, the varying
/// parameter and the plotted time.
pub open spec fn series_points(bs: Seq<BenchMark>, kind: SeriesType, args: SeriesArgs) -> Seq<
    (usize, u128),
>
    decreases bs.len(),
{
    if bs.len() == 0 {
        Seq::empty()
    } else {
        let prev = series_points(bs.drop_last(), kind, args);
        let b = bs.last();
        if spec_is_matched(b.args, args) {
            prev.push((spec_extract_param(b.args, args), series_time(b.time, kind)))
        } else {
            prev
        }
    }
}

/// The line of the series file for one point of a named series: the name, the varying parameter
/// and the time in nanoseconds.
pub open spec fn point_line(name: Seq<char>, p: (usize, u128)) -> Seq<char> {
    name + ", "@ + decimal(p.0 as nat) + ", "@ + decimal(p.1 as nat) + "\n"@
}

/// The lines of the series file for the points of a named series, in order.
pub open spec fn point_lines(name: Seq<char>, ps: Seq<(usize, u128)>) -> Seq<char>
    decreases ps.len(),
{
    if ps.len() == 0 {
        Seq::empty()
    } else {
        point_lines(name, ps.drop_last()) + point_line(name, ps.last())
    }
}

/// The lines of the series file for a list of series, in order.
pub open spec fn series_lines(ss: Seq<Series>) -> Seq<char>
    decreases ss.len(),
{
    if ss.len() == 0 {
        Seq::empty()
    } else {
        series_lines(ss.drop_last()) + point_lines(ss.last().name@, ss.last().points@)
    }
}

/// The heading of the series file.
pub open spec fn series_heading() -> Seq<char> {
    "series, parameter, time\n"@
}

/// The lines of the series file for the points of one series.
fn push_point_lines(s: &mut String, series: &Series)
    ensures
        final(s)@ == old(s)@ + point_lines(series.name@, series.points@),
{
    let ghost start = s@;
    let mut i: usize = 0;
    while i < series.points.len()
        invariant
            i <= series.points.len(),
            s@ == start + point_lines(series.name@, series.points@.take(i as int)),
        decreases series.points.len() - i,
    {
        let p = series.points[i];
        let ghost before = s@;
        s.append(series.name.as_str());
        s.append(", ");
        push_decimal(s, p.0 as u64);
        s.append(", ");
        push_wide_decimal(s, p.1);
        s.append("\n");
        assert(series.points@.take(i + 1).drop_last() =~= series.points@.take(i as int));
        assert(s@ =~= before + point_line(series.name@, p));
        i = i + 1;
    }
    assert(series.points@.take(series.points.len() as int) =~= series.points@);
}

/// A named series of benchmark results.
pub struct Series {
    pub name: String,
    pub args: SeriesArgs,
    pub points: Vec<(usize, u128)>,
}

/// The benchmarks of one store over a parameter space, and the series drawn from them.
pub struct EngineAnalyser {
    arg_ranges: ArgRanges,
    results: Vec<BenchMark>,
    series: Vec<Series>,
}

impl EngineAnalyser {
    /// The parameter space that the benchmarks range over.
    pub closed spec fn arg_ranges(&self) -> ArgRanges {
        self.arg_ranges
    }

    /// The recorded benchmarks, in order.
    pub closed spec fn results(&self) -> Seq<BenchMark> {
        self.results@
    }

    /// The series created so far, in order.
    pub closed spec fn series(&self) -> Seq<Series> {
        self.series@
    }

    /// An analyser of the given parameter space, with no result and no series yet.
    pub fn new(num_channels_range: SteppedRange, num_samples_range: SteppedRange) -> (res:
        EngineAnalyser)
        ensures
            res.arg_ranges() == (ArgRanges { num_channels_range, num_samples_range }),
            res.results() == Seq::<BenchMark>::empty(),
            res.series().len() == 0,
    {
        EngineAnalyser {
            arg_ranges: ArgRanges { num_channels_range, num_samples_range },
            results: Vec::new(),
            series: Vec::new(),
        }
    }

    /// An analyser of the given parameter space, with no result and no series yet.
    pub fn new_with_arg_ranges(arg_ranges: ArgRanges) -> (res: EngineAnalyser)
        ensures
            res.arg_ranges() == arg_ranges,
            res.results() == Seq::<BenchMark>::empty(),
            res.series().len() == 0,
    {
        EngineAnalyser { arg_ranges, results: Vec::new(), series: Vec::new() }
    }

    /// Starts a run of benchmarks: forgets all earlier results and series, and gives the points
    /// of the parameter space to benchmark, in order.
    pub fn begin_run(&mut self) -> (res: Vec<(usize, usize)>)
        requires
            old(self).arg_ranges().steps_positive(),
        ensures
            pair_ints(res@) == old(self).arg_ranges().space(),
            final(self).arg_ranges() == old(self).arg_ranges(),
            final(self).results() == Seq::<BenchMark>::empty(),
            final(self).series().len() == 0,
    {
        self.results.clear();
        self.series.clear();
        self.arg_ranges.iter()
    }

    /// Records the result of one benchmark of the run.
    pub fn record(&mut self, bm: BenchMark)
        ensures
            final(self).results() == old(self).results().push(bm),
            final(self).arg_ranges() == old(self).arg_ranges(),
            final(self).series() == old(self).series(),
    {
        self.results.push(bm);
    }

    /// The columns that a regression over the results is fitted to, in order: total times,
    /// posting times, channel counts and sample counts.
    pub fn regression_columns(&self) -> (res: (Vec<u128>, Vec<u128>, Vec<usize>, Vec<usize>))
        ensures
            res.0@.len() == self.results().len(),
            res.1@.len() == self.results().len(),
            res.2@.len() == self.results().len(),
            res.3@.len() == self.results().len(),
            forall|i: int|
                0 <= i < self.results().len() ==> #[trigger] res.0@[i]
                    == self.results()[i].time.total_time,
            forall|i: int|
                0 <= i < self.results().len() ==> #[trigger] res.1@[i]
                    == self.results()[i].time.posting_time,
            forall|i: int|
                0 <= i < self.results().len() ==> #[trigger] res.2@[i]
                    == self.results()[i].args.num_channels,
            forall|i: int|
                0 <= i < self.results().len() ==> #[trigger] res.3@[i]
                    == self.results()[i].args.num_samples,
    {
        let mut t: Vec<u128> = Vec::new();
        let mut pt: Vec<u128> = Vec::new();
        let mut c: Vec<usize> = Vec::new();
        let mut d: Vec<usize> = Vec::new();
        let mut i: usize = 0;
        while i < self.results.len()
            invariant
                i <= self.results.len(),
                t@.len() == i,
                pt@.len() == i,
                c@.len() == i,
                d@.len() == i,
                forall|k: int| 0 <= k < i ==> #[trigger] t@[k] == self.results@[k].time.total_time,
                forall|k: int|
                    0 <= k < i ==> #[trigger] pt@[k] == self.results@[k].time.posting_time,
                forall|k: int|
                    0 <= k < i ==> #[trigger] c@[k] == self.results@[k].args.num_channels,
                forall|k: int|
                    0 <= k < i ==> #[trigger] d@[k] == self.results@[k].args.num_samples,
            decreases self.results.len() - i,
        {
            let b = self.results[i];
            t.push(b.time.total_time);
            pt.push(b.time.posting_time);
            c.push(b.args.num_channels);
            d.push(b.args.num_samples);
            i = i + 1;
        }
        (t, pt, c, d)
    }

    /// Creates a series from the recorded results: each result whose parameters belong to it,
    /// in order, gives a point of the varying parameter and the time of the given kind.
    pub fn create_series(&mut self, name: &str, series_type: SeriesType, args: SeriesArgs)
        ensures
            final(self).series().len() == old(self).series().len() + 1,
            forall|i: int|
                0 <= i < old(self).series().len() ==> #[trigger] final(self).series()[i] == old(
                    self,
                ).series()[i],
            final(self).series().last().name@ == name@,
            final(self).series().last().args == args,
            final(self).series().last().points@ == series_points(
                old(self).results(),
                series_type,
                args,
            ),
            final(self).results() == old(self).results(),
            final(self).arg_ranges() == old(self).arg_ranges(),
    {
        let mut points: Vec<(usize, u128)> = Vec::new();
        let mut i: usize = 0;
        while i < self.results.len()
            invariant
                i <= self.results.len(),
                points@ == series_points(self.results@.take(i as int), series_type, args),
            decreases self.results.len() - i,
        {
            let b = self.results[i];
            assert(self.results@.take(i + 1).drop_last() =~= self.results@.take(i as int));
            if b.args.is_matched(&args) {
                let time = match series_type {
                    SeriesType::TotalTime => b.time.total_time,
                    SeriesType::PostingTime => b.time.posting_time,
                };
                points.push((b.args.extract_param(&args), time));
            }
            i = i + 1;
        }
        assert(self.results@.take(self.results.len() as int) =~= self.results@);
        self.series.push(Series { name: name.to_owned(), args, points });
    }

    /// The series created so far, in order.
    pub fn get_series(&self) -> (res: &[Series])
        ensures
            res@ == self.series(),
    {
        self.series.as_slice()
    }

    /// The text of the CSV file that all created series are saved to: a heading, then, series by
    /// series and point by point, the series' name, the varying parameter and the time in
    /// nanoseconds.
    pub fn save_series(&self) -> (res: String)
        ensures
            res@ == series_heading() + series_lines(self.series()),
    {
        let mut s = "series, parameter, time\n".to_string();
        let mut i: usize = 0;
        while i < self.series.len()
            invariant
                i <= self.series.len(),
                s@ == series_heading() + series_lines(self.series@.take(i as int)),
            decreases self.series.len() - i,
        {
            let ghost before = s@;
            push_point_lines(&mut s, &self.series[i]);
            assert(self.series@.take(i + 1).drop_last() =~= self.series@.take(i as int));
            assert(s@ =~= before + point_lines(self.series@[i as int].name@, self.series@[i as int].points@));
            i = i + 1;
        }
        assert(self.series@.take(self.series.len() as int) =~= self.series@);
        s
    }
}

} // verus!
