use crate::index::{greater, lesser, max_idx, min_idx, RangeIndex};
use crate::strict::{clamped, Range};
use vstd::prelude::*;

verus! {

/// A range with a start and an end that may be absent (`None`: no upper bound).
///
/// Nothing is demanded of the fields; the operations that build one keep the
/// start no later than the end.
#[derive(Clone, Copy, Debug, Default, Hash, PartialEq, Eq, PartialOrd, Ord)]
pub struct OpenRange<Idx> {
    pub start: Idx,
    pub end: Option<Idx>,
}

} // verus!

verus! {

/// `end`, or `fallback` where there is no end.
pub open spec fn end_or<Idx>(end: Option<Idx>, fallback: Idx) -> Idx {
    match end {
        Some(e) => e,
        None => fallback,
    }
}

/// The integers `i` with `start <= i`, and `i < e` where the end is `Some(e)`.
pub open spec fn reach<Idx: RangeIndex>(start: Idx, end: Option<Idx>) -> Set<int> {
    Set::new(
        |i: int|
            start.value() <= i && match end {
                Some(e) => i < e.value(),
                None => true,
            },
    )
}

/// The bounded range `[start', end')` that `clamp_right(hi)` gives on a partial range
/// starting at `start` and ending at `end`: `end'` is `hi`, lowered to the end if
/// there is one, and `start'` is `start`, lowered to `end'`.
pub open spec fn clamped_right<Idx: RangeIndex>(start: Idx, end: Option<Idx>, hi: Idx) -> core::ops::Range<Idx> {
    let e = match end {
        Some(x) => min_idx(hi, x),
        None => hi,
    };
    core::ops::Range { start: min_idx(start, e), end: e }
}

/// What `a.intersection(b)` gives on partial ranges: where `b` has no end, `a` with
/// its start raised to `b`'s; else the bounded intersection, as a partial range.
pub open spec fn intersected<Idx: RangeIndex>(
    a_start: Idx,
    a_end: Option<Idx>,
    b_start: Idx,
    b_end: Option<Idx>,
) -> OpenRange<Idx> {
    match b_end {
        None => OpenRange { start: max_idx(a_start, b_start), end: a_end },
        Some(be) => {
            let c = clamped(b_start, be, a_start, end_or(a_end, be));
            OpenRange { start: c.start, end: Some(c.end) }
        },
    }
}

/// The bounds of a range with a definite start and an end that may be absent.
pub trait PartialBounds<Idx: RangeIndex = usize> {
    /// The start of the range.
    spec fn partial_start(&self) -> Idx;

    /// The exclusive end of the range, `None` where it has no upper bound.
    spec fn partial_end(&self) -> Option<Idx>;

    fn start(&self) -> (r: Idx)
        ensures
            r == self.partial_start(),
    ;

    fn end(&self) -> (r: Option<Idx>)
        ensures
            r == self.partial_end(),
    ;
}

/// The operations on a range with a definite start and an end that may be absent,
/// which every type with such bounds has.
pub trait PartialRange<Idx: RangeIndex = usize>: PartialBounds<Idx> {
    /// The bounded intersection of `[start, end)` with this range, whose missing
    /// end counts as `end`.
    fn clamp(&self, start: Idx, end: Idx) -> (r: core::ops::Range<Idx>)
        ensures
            r == clamped(start, end, self.partial_start(), end_or(self.partial_end(), end)),
            r.start.value() <= r.end.value(),
    {
        let lhs = start..end;
        let rhs_end = match self.end() {
            Some(e) => e,
            None => end,
        };
        let rhs = self.start()..rhs_end;
        Range::intersection(&lhs, &rhs)
    }

    /// Raises the start to at least `start`, keeping the end, present or not.
    fn clamp_left(&self, start: Idx) -> (r: OpenRange<Idx>)
        ensures
            r == (OpenRange { start: max_idx(self.partial_start(), start), end: self.partial_end() }),
    {
        OpenRange { start: greater(self.start(), start), end: self.end() }
    }

    /// The bounded range that ends at `end`, or at this range's end if that comes first.
    fn clamp_right(&self, end: Idx) -> (r: core::ops::Range<Idx>)
        ensures
            r == clamped_right(self.partial_start(), self.partial_end(), end),
            r.start.value() <= r.end.value(),
    {
        let end = match self.end() {
            Some(rhs_end) => lesser(end, rhs_end),
            None => end,
        };
        let start = lesser(self.start(), end);
        start..end
    }

    /// The part of this range that `other` covers too: open only where both are.
    fn intersection<R: PartialBounds<Idx>>(&self, other: R) -> (r: OpenRange<Idx>)
        ensures
            r == intersected(
                self.partial_start(),
                self.partial_end(),
                other.partial_start(),
                other.partial_end(),
            ),
    {
        match other.end() {
            None => self.clamp_left(other.start()),
            Some(end) => self.clamp(other.start(), end).to_open_range(),
        }
    }
}

impl<Idx: RangeIndex, T: PartialBounds<Idx>> PartialRange<Idx> for T {}

impl<Idx: RangeIndex> PartialBounds<Idx> for OpenRange<Idx> {
    open spec fn partial_start(&self) -> Idx {
        self.start
    }

    open spec fn partial_end(&self) -> Option<Idx> {
        self.end
    }

    fn start(&self) -> (r: Idx) {
        self.start
    }

    fn end(&self) -> (r: Option<Idx>) {
        self.end
    }
}

} // verus!
