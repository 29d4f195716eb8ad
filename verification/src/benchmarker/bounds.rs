//! What the standard library documents of the bounds of an inclusive range.
use std::ops::RangeInclusive;
use vstd::prelude::*;
use vstd::std_specs::cmp::{PartialOrdIs, PartialOrdSpec};

verus! {

/// `RangeInclusive::start`: the lower bound that the range holds.
pub assume_specification<Idx>[ RangeInclusive::<Idx>::start ](r: &RangeInclusive<Idx>) -> (ret: &Idx)
    ensures
        *ret == r@.start,
;

/// `RangeInclusive::end`: the upper bound that the range holds.
pub assume_specification<Idx>[ RangeInclusive::<Idx>::end ](r: &RangeInclusive<Idx>) -> (ret: &Idx)
    ensures
        *ret == r@.end,
;

/// `RangeInclusive::is_empty`: a range holds no item once it has been walked to its end, or where
/// its start is not at most its end.
pub assume_specification<Idx: PartialOrd<Idx>>[ RangeInclusive::<Idx>::is_empty ](
    r: &RangeInclusive<Idx>,
) -> (ret: bool) where Idx: PartialOrd<Idx>
    ensures
        Idx::obeys_partial_cmp_spec() ==> ret == (r@.exhausted || !r@.start.is_le(&r@.end)),
;

/// `Clone` of an inclusive range: each bound cloned, and whether it was walked to its end kept.
pub assume_specification<Idx: Clone>[ <RangeInclusive<Idx> as Clone>::clone ](
    r: &RangeInclusive<Idx>,
) -> (ret: RangeInclusive<Idx>)
    ensures
        cloned(r@.start, ret@.start),
        cloned(r@.end, ret@.end),
        ret@.exhausted == r@.exhausted,
;

} // verus!
