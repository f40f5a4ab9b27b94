use crate::index::RangeIndex;
use crate::partial::{intersected, reach, PartialBounds};
use crate::strict::{clamped, span, StrictBounds};
use vstd::prelude::*;

verus! {

/// Clamping is idempotent: clamping the result of `clamp(lo, hi)` to the same
/// `lo` and `hi` gives that result back.
pub proof fn lemma_clamp_idempotent<Idx: RangeIndex, R: StrictBounds<Idx>>(r: R, lo: Idx, hi: Idx)
    ensures
        ({
            let c = clamped(r.strict_start(), r.strict_end(), lo, hi);
            clamped(c.strict_start(), c.strict_end(), lo, hi) == c
        }),
{
    let c = clamped(r.strict_start(), r.strict_end(), lo, hi);
    Idx::lemma_index(c.start, lo);
    Idx::lemma_index(c.start, c.end);
    Idx::lemma_index(c.end, hi);
}

/// The intersection of two bounded ranges covers the indices that both cover,
/// whichever of the two it is taken on.
pub proof fn lemma_strict_intersection_commutes<Idx: RangeIndex, R: StrictBounds<Idx>, S: StrictBounds<Idx>>(
    r: R,
    s: S,
)
    ensures
        ({
            let rs = clamped(r.strict_start(), r.strict_end(), s.strict_start(), s.strict_end());
            let sr = clamped(s.strict_start(), s.strict_end(), r.strict_start(), r.strict_end());
            &&& span(rs.start, rs.end) == span(r.strict_start(), r.strict_end()).intersect(
                span(s.strict_start(), s.strict_end()),
            )
            &&& span(rs.start, rs.end) == span(sr.start, sr.end)
        }),
{
    let rs = clamped(r.strict_start(), r.strict_end(), s.strict_start(), s.strict_end());
    let sr = clamped(s.strict_start(), s.strict_end(), r.strict_start(), r.strict_end());
    assert(span(rs.start, rs.end) =~= span(r.strict_start(), r.strict_end()).intersect(
        span(s.strict_start(), s.strict_end()),
    ));
    assert(span(sr.start, sr.end) =~= span(s.strict_start(), s.strict_end()).intersect(
        span(r.strict_start(), r.strict_end()),
    ));
    assert(span(rs.start, rs.end) =~= span(sr.start, sr.end));
}

/// The intersection of two partial ranges covers the indices that both cover,
/// whichever of the two it is taken on.
pub proof fn lemma_partial_intersection_commutes<
    Idx: RangeIndex,
    R: PartialBounds<Idx>,
    S: PartialBounds<Idx>,
>(r: R, s: S)
    ensures
        ({
            let rs = intersected(r.partial_start(), r.partial_end(), s.partial_start(), s.partial_end());
            let sr = intersected(s.partial_start(), s.partial_end(), r.partial_start(), r.partial_end());
            &&& reach(rs.start, rs.end) == reach(r.partial_start(), r.partial_end()).intersect(
                reach(s.partial_start(), s.partial_end()),
            )
            &&& reach(rs.start, rs.end) == reach(sr.start, sr.end)
        }),
{
    let rs = intersected(r.partial_start(), r.partial_end(), s.partial_start(), s.partial_end());
    let sr = intersected(s.partial_start(), s.partial_end(), r.partial_start(), r.partial_end());
    let both = reach(r.partial_start(), r.partial_end()).intersect(
        reach(s.partial_start(), s.partial_end()),
    );
    assert(reach(rs.start, rs.end) =~= both);
    assert(reach(sr.start, sr.end) =~= both);
}

/// A bounded range `r` and a partial range `s` with an end: `r`'s bounded
/// intersection with `s` and `s`'s partial intersection with `r` cover the same
/// indices, though one is a bounded range and the other a partial one.
pub proof fn lemma_mixed_intersection_commutes<
    Idx: RangeIndex,
    R: StrictBounds<Idx> + PartialBounds<Idx>,
    S: StrictBounds<Idx> + PartialBounds<Idx>,
>(r: R, s: S)
    requires
        r.partial_start() == r.strict_start(),
        r.partial_end() == Some(r.strict_end()),
        s.partial_start() == s.strict_start(),
        s.partial_end() == Some(s.strict_end()),
    ensures
        ({
            let rs = clamped(r.strict_start(), r.strict_end(), s.strict_start(), s.strict_end());
            let sr = intersected(s.partial_start(), s.partial_end(), r.partial_start(), r.partial_end());
            span(rs.start, rs.end) == reach(sr.start, sr.end)
        }),
{
    let rs = clamped(r.strict_start(), r.strict_end(), s.strict_start(), s.strict_end());
    let sr = intersected(s.partial_start(), s.partial_end(), r.partial_start(), r.partial_end());
    assert(span(rs.start, rs.end) =~= reach(sr.start, sr.end));
}

/// Two ranges without an end intersect in a range without an end.
pub proof fn lemma_open_intersection_stays_open<
    Idx: RangeIndex,
    R: PartialBounds<Idx>,
    S: PartialBounds<Idx>,
>(r: R, s: S)
    requires
        r.partial_end() is None,
        s.partial_end() is None,
    ensures
        intersected(r.partial_start(), r.partial_end(), s.partial_start(), s.partial_end()).end is None,
{
}

/// An inclusive range `a..=b` ends, exclusively, at `b + 1`, or at `b` itself
/// where `b` is the largest index: the increment never overflows.
pub proof fn lemma_inclusive_end<Idx: RangeIndex>(r: core::ops::RangeInclusive<Idx>)
    ensures
        r@.end.value() < Idx::max_value() ==> r.strict_end().value() == r@.end.value() + 1,
        r@.end.value() == Idx::max_value() ==> r.strict_end() == r@.end,
        r.partial_end() == Some(r.strict_end()),
{
    Idx::lemma_index(r@.end, Idx::spec_one());
    Idx::lemma_index(r.strict_end(), r@.end);
}

/// A range `..b` starts at zero, whatever `b` is.
pub proof fn lemma_to_range_starts_at_zero<Idx: RangeIndex>(r: core::ops::RangeTo<Idx>)
    ensures
        r.strict_start().value() == 0,
        r.partial_start().value() == 0,
{
    Idx::lemma_index(Idx::spec_zero(), Idx::spec_zero());
}

} // verus!
