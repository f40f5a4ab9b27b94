use crate::index::{greater, lesser, max_idx, min_idx, RangeIndex};
use crate::partial::OpenRange;
use vstd::prelude::*;

verus! {

/// The bounded range that clamping `[start, end)` to `[lo, hi)` gives: the end is
/// the lesser of `end` and `hi`, the start is the greater of `start` and `lo`, but
/// never past that end.
pub open spec fn clamped<Idx: RangeIndex>(start: Idx, end: Idx, lo: Idx, hi: Idx) -> core::ops::Range<
    Idx,
> {
    let e = min_idx(end, hi);
    core::ops::Range { start: min_idx(max_idx(start, lo), e), end: e }
}

/// The integers `i` with `start <= i < end`.
pub open spec fn span<Idx: RangeIndex>(start: Idx, end: Idx) -> Set<int> {
    Set::new(|i: int| start.value() <= i && i < end.value())
}

/// The bounds of a range with a definite start and a definite exclusive end.
pub trait StrictBounds<Idx: RangeIndex = usize> {
    /// The start of the range.
    spec fn strict_start(&self) -> Idx;

    /// The exclusive end of the range.
    spec fn strict_end(&self) -> Idx;

    fn start(&self) -> (r: Idx)
        ensures
            r == self.strict_start(),
    ;

    fn end(&self) -> (r: Idx)
        ensures
            r == self.strict_end(),
    ;
}

/// The operations on a range with a definite start and a definite exclusive end,
/// which every type with such bounds has.
pub trait Range<Idx: RangeIndex = usize>: StrictBounds<Idx> {
    /// Restricts the range to `[start, end)`; the result never starts after it ends.
    fn clamp(&self, start: Idx, end: Idx) -> (r: core::ops::Range<Idx>)
        ensures
            r == clamped(self.strict_start(), self.strict_end(), start, end),
            r.start.value() <= r.end.value(),
    {
        let end = lesser(self.end(), end);
        let start = lesser(greater(self.start(), start), end);
        start..end
    }

    /// Raises the start to at least `start`, keeping the end.
    fn clamp_left(&self, start: Idx) -> (r: core::ops::Range<Idx>)
        ensures
            r == clamped(self.strict_start(), self.strict_end(), start, self.strict_end()),
            r.start.value() <= r.end.value(),
    {
        self.clamp(start, self.end())
    }

    /// Lowers the end to at most `end`, keeping the start where it fits.
    fn clamp_right(&self, end: Idx) -> (r: core::ops::Range<Idx>)
        ensures
            r == clamped(self.strict_start(), self.strict_end(), self.strict_start(), end),
            r.start.value() <= r.end.value(),
    {
        self.clamp(self.start(), end)
    }

    /// The part of this range that `other` covers too.
    fn intersection<R: StrictBounds<Idx>>(&self, other: &R) -> (r: core::ops::Range<Idx>)
        ensures
            r == clamped(
                self.strict_start(),
                self.strict_end(),
                other.strict_start(),
                other.strict_end(),
            ),
            r.start.value() <= r.end.value(),
    {
        self.clamp(other.start(), other.end())
    }

    /// The same range, as a partial range whose end is present.
    fn to_open_range(&self) -> (r: OpenRange<Idx>)
        ensures
            r == (OpenRange { start: self.strict_start(), end: Some(self.strict_end()) }),
    {
        OpenRange { start: self.start(), end: Some(self.end()) }
    }
}

impl<Idx: RangeIndex, T: StrictBounds<Idx>> Range<Idx> for T {}

} // verus!
