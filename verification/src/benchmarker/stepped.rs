//! Inclusive ranges walked with a step, and the text form `start:end:step` that they are given in.
use std::ops::RangeInclusive;
use vstd::prelude::*;
use vstd::std_specs::range::RangeInclusiveView;
use crate::text::{
    chars_of, decimal, is_digit, law_decimal_parses_back, lemma_decimal_digits, lemma_split_on_concat,
    lemma_split_on_no_sep, parse_unsigned, parses_unsigned, pieces_view, split_chars, split_on,
    string_from_chars, unsigned_value,
};

verus! {

/// How many values lie in `start..=end` when it is walked from `start` in steps of `step`.
pub open spec fn stepped_count(start: int, end: int, step: int) -> int {
    if start > end {
        0
    } else {
        (end - start) / step + 1
    }
}

/// The values of `start..=end` walked from `start` in steps of `step`: `start`, `start + step`,
/// and so on while they do not pass `end`.
pub open spec fn stepped_values(start: int, end: int, step: int) -> Seq<int> {
    Seq::new(stepped_count(start, end, step) as nat, |k: int| start + k * step)
}

/// The values that an inclusive range yields when walked in steps of `step`: none once the range
/// has been walked to its end.
pub open spec fn range_steps(r: RangeInclusiveView<usize>, step: int) -> Seq<int> {
    if r.exhausted {
        Seq::empty()
    } else {
        stepped_values(r.start as int, r.end as int, step)
    }
}

/// The integer values of a list of counts.
pub open spec fn usize_ints(v: Seq<usize>) -> Seq<int> {
    v.map_values(|x: usize| x as int)
}

/// Every value of a stepped walk lies between its bounds.
pub proof fn lemma_stepped_values_bounded(start: int, end: int, step: int, k: int)
    requires
        step > 0,
        0 <= k < stepped_count(start, end, step),
    ensures
        start <= stepped_values(start, end, step)[k] <= end,
{
    let q = (end - start) / step;
    assert(k <= q);
    assert(q * step <= end - start) by (nonlinear_arith)
        requires
            q == (end - start) / step,
            step > 0,
            end - start >= 0,
    ;
    assert(0 <= k * step <= q * step) by (nonlinear_arith)
        requires
            0 <= k <= q,
            step > 0,
    ;
}

/// Walks an inclusive range in steps of `step` (`step_by` over the range), collecting the values.
pub fn range_step_values(r: &RangeInclusive<usize>, step: usize) -> (res: Vec<usize>)
    requires
        step > 0,
    ensures
        usize_ints(res@) == range_steps(r@, step as int),
{
    let mut out: Vec<usize> = Vec::new();
    if r.is_empty() {
        assert(usize_ints(out@) =~= range_steps(r@, step as int));
        return out;
    }
    let start = *r.start();
    let end = *r.end();
    let ghost total = stepped_count(start as int, end as int, step as int);
    let mut cur: usize = start;
    assert(out@.len() * step == 0) by (nonlinear_arith)
        requires
            out@.len() == 0,
    ;
    assert(0 <= (end - start) / (step as int)) by (nonlinear_arith)
        requires
            start <= end,
            step > 0,
    ;
    loop
        invariant_except_break
            cur as int == start + out@.len() * step,
            out@.len() < total,
        invariant
            start <= cur <= end,
            !r@.exhausted,
            start == r@.start,
            end == r@.end,
            step > 0,
            total == stepped_count(start as int, end as int, step as int),
            forall|j: int|
                0 <= j < out@.len() ==> #[trigger] out@[j] as int == start + j * step,
        ensures
            out@.len() == total,
            forall|j: int|
                0 <= j < out@.len() ==> #[trigger] out@[j] as int == start + j * step,
        decreases end - cur,
    {
        let ghost k = out@.len() as int;
        out.push(cur);
        if end - cur < step {
            assert((end - start) / (step as int) == k) by (nonlinear_arith)
                requires
                    start + k * step <= end,
                    end < start + k * step + step,
                    step > 0,
                    k >= 0,
            ;
            break;
        }
        assert(cur + step == start + (k + 1) * step) by (nonlinear_arith)
            requires
                cur == start + k * step,
        ;
        assert((k + 1) < total) by (nonlinear_arith)
            requires
                start + (k + 1) * step <= end,
                total == (end - start) / (step as int) + 1,
                step > 0,
                k >= 0,
        ;
        cur = cur + step;
    }
    assert(usize_ints(out@) =~= range_steps(r@, step as int));
    out
}

/// Why the text form of a stepped range was refused.
#[derive(Debug, Clone, PartialEq)]
pub enum RangeParseError {
    /// A piece between the colons is not an unsigned integer that fits; it holds that piece.
    ParseInt(String),
    /// The text did not hold exactly three values; it holds the values that it held.
    WrongNumberOfParameters(Vec<usize>),
}

/// Whether a piece of text is a value that fits a `usize`.
pub open spec fn piece_parses(p: Seq<char>) -> bool {
    parses_unsigned(p, usize::MAX as int)
}

/// Whether every piece is a value that fits a `usize`.
pub open spec fn pieces_parse(p: Seq<Seq<char>>) -> bool {
    forall|i: int| 0 <= i < p.len() ==> #[trigger] piece_parses(p[i])
}

/// Whether `i` is the first piece that is not a value.
pub open spec fn first_bad_piece(p: Seq<Seq<char>>, i: int) -> bool {
    &&& 0 <= i < p.len()
    &&& !piece_parses(p[i])
    &&& forall|j: int| 0 <= j < i ==> #[trigger] piece_parses(p[j])
}

/// The values of pieces that all parse.
pub open spec fn piece_values(p: Seq<Seq<char>>) -> Seq<int> {
    p.map_values(|s: Seq<char>| unsigned_value(s))
}

/// What the text form `start:end:step` gives: the three values, or why it was refused. The first
/// piece that is not a value is reported before a wrong number of pieces.
pub open spec fn spec_parse_stepped(src: Seq<char>) -> Result<(int, int, int), ()> {
    let p = split_on(src, ':');
    if !pieces_parse(p) || p.len() != 3 {
        Err(())
    } else {
        Ok((unsigned_value(p[0]), unsigned_value(p[1]), unsigned_value(p[2])))
    }
}

/// Parses the text form `start:end:step` of a stepped range into its three values.
pub fn parse_stepped_values(src: &str) -> (res: Result<(usize, usize, usize), RangeParseError>)
    ensures
        match res {
            Ok((a, b, c)) => spec_parse_stepped(src@) == Ok::<(int, int, int), ()>(
                (a as int, b as int, c as int),
            ),
            Err(RangeParseError::ParseInt(t)) => exists|i: int|
                first_bad_piece(split_on(src@, ':'), i) && t@ == split_on(src@, ':')[i],
            Err(RangeParseError::WrongNumberOfParameters(v)) => pieces_parse(split_on(src@, ':'))
                && split_on(src@, ':').len() != 3 && usize_ints(v@) == piece_values(
                split_on(src@, ':'),
            ),
        },
        res.is_ok() == spec_parse_stepped(src@).is_ok(),
{
    let chars = chars_of(src);
    let pieces = split_chars(&chars, ':');
    let ghost p = split_on(src@, ':');
    assert(pieces_view(pieces@) == p);
    let mut values: Vec<usize> = Vec::new();
    let mut i: usize = 0;
    while i < pieces.len()
        invariant
            i <= pieces.len(),
            pieces_view(pieces@) == p,
            p == split_on(src@, ':'),
            values@.len() == i,
            forall|j: int| 0 <= j < i ==> #[trigger] piece_parses(p[j]),
            forall|j: int| 0 <= j < i ==> #[trigger] values@[j] as int == unsigned_value(p[j]),
        decreases pieces.len() - i,
    {
        assert(pieces@[i as int]@ == p[i as int]);
        match parse_unsigned(&pieces[i], usize::MAX as u64) {
            Some(v) => {
                values.push(v as usize);
            },
            None => {
                let t = string_from_chars(&pieces[i]);
                assert(first_bad_piece(p, i as int));
                return Err(RangeParseError::ParseInt(t));
            },
        }
        i = i + 1;
    }
    assert(pieces_parse(p));
    if values.len() != 3 {
        assert(usize_ints(values@) =~= piece_values(p));
        return Err(RangeParseError::WrongNumberOfParameters(values));
    }
    Ok((values[0], values[1], values[2]))
}

/// The text form of a stepped range: its start, end and step in decimal, separated by colons.
pub open spec fn stepped_text(start: nat, end: nat, step: nat) -> Seq<char> {
    decimal(start) + ":"@ + decimal(end) + ":"@ + decimal(step)
}

/// A decimal rendering holds no colon.
proof fn lemma_decimal_no_colon(n: nat)
    ensures
        forall|i: int| 0 <= i < decimal(n).len() ==> decimal(n)[i] != ':',
{
    lemma_decimal_digits(n);
    assert forall|i: int| 0 <= i < decimal(n).len() implies decimal(n)[i] != ':' by {
        assert(is_digit(decimal(n)[i]));
    }
}

/// Reading back the text form of a stepped range gives its three values.
pub proof fn law_stepped_text_parses_back(start: usize, end: usize, step: usize)
    ensures
        spec_parse_stepped(stepped_text(start as nat, end as nat, step as nat)) == Ok::<
            (int, int, int),
            (),
        >((start as int, end as int, step as int)),
{
    reveal_strlit(":");
    let a = decimal(start as nat);
    let b = decimal(end as nat);
    let c = decimal(step as nat);
    lemma_decimal_no_colon(start as nat);
    lemma_decimal_no_colon(end as nat);
    lemma_decimal_no_colon(step as nat);
    lemma_split_on_no_sep(a, ':');
    lemma_split_on_no_sep(b, ':');
    lemma_split_on_no_sep(c, ':');
    let text = stepped_text(start as nat, end as nat, step as nat);
    assert(text =~= a + seq![':'] + (b + seq![':'] + c));
    lemma_split_on_concat(a, b + seq![':'] + c, ':');
    lemma_split_on_concat(b, c, ':');
    let p = split_on(text, ':');
    assert(p =~= seq![a, b, c]);
    law_decimal_parses_back(start as nat, usize::MAX as int);
    law_decimal_parses_back(end as nat, usize::MAX as int);
    law_decimal_parses_back(step as nat, usize::MAX as int);
    assert(piece_parses(p[0]) && piece_parses(p[1]) && piece_parses(p[2]));
    assert(pieces_parse(p));
}

} // verus!
