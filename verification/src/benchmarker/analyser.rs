//! Several time-series stores benchmarked over one parameter space, each with its own analyser.
use vstd::prelude::*;

use super::args::{ArgRanges, SteppedRange};
use super::engine_analyser::EngineAnalyser;
use super::results::BenchMark;

verus! {

impl SteppedRange {
    /// A copy of the range and its step.
    pub fn duplicate(&self) -> (res: SteppedRange)
        ensures
            res.0@ == self.0@,
            res.1 == self.1,
    {
        SteppedRange(self.0.clone(), self.1)
    }
}

impl ArgRanges {
    /// A copy of the parameter space.
    pub fn duplicate(&self) -> (res: ArgRanges)
        ensures
            res.num_channels_range.0@ == self.num_channels_range.0@,
            res.num_channels_range.1 == self.num_channels_range.1,
            res.num_samples_range.0@ == self.num_samples_range.0@,
            res.num_samples_range.1 == self.num_samples_range.1,
    {
        ArgRanges {
            num_channels_range: self.num_channels_range.duplicate(),
            num_samples_range: self.num_samples_range.duplicate(),
        }
    }
}

/// Whether two parameter spaces have the same ranges and steps.
pub open spec fn same_ranges(a: ArgRanges, b: ArgRanges) -> bool {
    &&& a.num_channels_range.0@ == b.num_channels_range.0@
    &&& a.num_channels_range.1 == b.num_channels_range.1
    &&& a.num_samples_range.0@ == b.num_samples_range.0@
    &&& a.num_samples_range.1 == b.num_samples_range.1
}

/// The analysers of several stores over one parameter space, one per store, in the order the stores
/// were added.
pub struct Analyser {
    arg_ranges: ArgRanges,
    benchmarks: Vec<EngineAnalyser>,
}

impl Analyser {
    /// The parameter space.
    pub closed spec fn arg_ranges(&self) -> ArgRanges {
        self.arg_ranges
    }

    /// The analysers, one per store.
    pub closed spec fn analysers(&self) -> Seq<EngineAnalyser> {
        self.benchmarks@
    }

    /// An analyser of the given parameter space, with no store yet.
    pub fn new(num_channels_range: SteppedRange, num_samples_range: SteppedRange) -> (res: Analyser)
        ensures
            res.arg_ranges() == (ArgRanges { num_channels_range, num_samples_range }),
            res.analysers().len() == 0,
    {
        Analyser { arg_ranges: ArgRanges { num_channels_range, num_samples_range }, benchmarks: Vec::new() }
    }

    /// Adds a store: it gets an analyser of the shared parameter space, with no result yet. Gives
    /// the position of that analyser.
    pub fn push_timeseries_engine(&mut self) -> (res: usize)
        ensures
            res == old(self).analysers().len(),
            final(self).analysers().len() == old(self).analysers().len() + 1,
            forall|i: int|
                0 <= i < old(self).analysers().len() ==> #[trigger] final(self).analysers()[i] == old(
                    self,
                ).analysers()[i],
            same_ranges(final(self).analysers()[res as int].arg_ranges(), old(self).arg_ranges()),
            final(self).analysers()[res as int].results() == Seq::<BenchMark>::empty(),
            final(self).analysers()[res as int].series().len() == 0,
            final(self).arg_ranges() == old(self).arg_ranges(),
    {
        let position = self.benchmarks.len();
        let ranges = self.arg_ranges.duplicate();
        self.benchmarks.push(EngineAnalyser::new_with_arg_ranges(ranges));
        position
    }

    /// The analyser of the store at `position`, to run its benchmarks.
    pub fn analyser_mut(&mut self, position: usize) -> (res: &mut EngineAnalyser)
        requires
            position < old(self).analysers().len(),
        ensures
            *res == old(self).analysers()[position as int],
            final(self).analysers() == old(self).analysers().update(position as int, *final(res)),
            final(self).arg_ranges() == old(self).arg_ranges(),
    {
        &mut self.benchmarks[position]
    }
}

} // verus!
