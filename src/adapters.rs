use crate::index::RangeIndex;
use crate::partial::PartialBounds;
use crate::strict::StrictBounds;
use vstd::prelude::*;

verus! {

/// std's `RangeFrom`, `start..`; its one field is public.
#[verifier::external_type_specification]
#[verifier::reject_recursive_types(Idx)]
pub struct ExRangeFrom<Idx>(core::ops::RangeFrom<Idx>);

/// std's `RangeFull`, `..`; it has no fields.
#[verifier::external_type_specification]
pub struct ExRangeFull(core::ops::RangeFull);

/// std's `RangeTo`, `..end`; its one field is public.
#[verifier::external_type_specification]
#[verifier::reject_recursive_types(Idx)]
pub struct ExRangeTo<Idx>(core::ops::RangeTo<Idx>);

/// std's `RangeToInclusive`, `..=end`; its one field is public.
#[verifier::external_type_specification]
#[verifier::reject_recursive_types(Idx)]
pub struct ExRangeToInclusive<Idx>(core::ops::RangeToInclusive<Idx>);

/// Relies on std's `RangeInclusive::start`: the lower bound the range holds.
#[verifier::external_body]
fn inclusive_start<Idx: Copy>(r: &core::ops::RangeInclusive<Idx>) -> (s: Idx)
    ensures
        s == r@.start,
{
    *r.start()
}

/// Relies on std's `RangeInclusive::end`: the upper bound the range holds.
#[verifier::external_body]
fn inclusive_end<Idx: Copy>(r: &core::ops::RangeInclusive<Idx>) -> (e: Idx)
    ensures
        e == r@.end,
{
    *r.end()
}

/// `b + 1`, saturated at the largest index: the exclusive end of a range whose
/// inclusive end is `b`.
pub open spec fn exclusive_end<Idx: RangeIndex>(b: Idx) -> Idx {
    b.spec_saturating_add(Idx::spec_one())
}

fn succ_saturating<Idx: RangeIndex>(b: Idx) -> (r: Idx)
    ensures
        r == exclusive_end(b),
{
    b.add_saturating(&Idx::one_idx())
}

/// `start..end`.
impl<Idx: RangeIndex> StrictBounds<Idx> for core::ops::Range<Idx> {
    open spec fn strict_start(&self) -> Idx {
        self.start
    }

    open spec fn strict_end(&self) -> Idx {
        self.end
    }

    fn start(&self) -> (r: Idx) {
        self.start
    }

    fn end(&self) -> (r: Idx) {
        self.end
    }
}

/// `start..end`.
impl<Idx: RangeIndex> PartialBounds<Idx> for core::ops::Range<Idx> {
    open spec fn partial_start(&self) -> Idx {
        self.start
    }

    open spec fn partial_end(&self) -> Option<Idx> {
        Some(self.end)
    }

    fn start(&self) -> (r: Idx) {
        self.start
    }

    fn end(&self) -> (r: Option<Idx>) {
        Some(self.end)
    }
}

/// `start..`: no end.
impl<Idx: RangeIndex> PartialBounds<Idx> for core::ops::RangeFrom<Idx> {
    open spec fn partial_start(&self) -> Idx {
        self.start
    }

    open spec fn partial_end(&self) -> Option<Idx> {
        None
    }

    fn start(&self) -> (r: Idx) {
        self.start
    }

    fn end(&self) -> (r: Option<Idx>) {
        None
    }
}

/// `..`: from zero, with no end.
impl<Idx: RangeIndex> PartialBounds<Idx> for core::ops::RangeFull {
    open spec fn partial_start(&self) -> Idx {
        Idx::spec_zero()
    }

    open spec fn partial_end(&self) -> Option<Idx> {
        None
    }

    fn start(&self) -> (r: Idx) {
        Idx::zero_idx()
    }

    fn end(&self) -> (r: Option<Idx>) {
        None
    }
}

/// `start..=end`: the exclusive end is one past `end`, saturated.
impl<Idx: RangeIndex> StrictBounds<Idx> for core::ops::RangeInclusive<Idx> {
    open spec fn strict_start(&self) -> Idx {
        self@.start
    }

    open spec fn strict_end(&self) -> Idx {
        exclusive_end(self@.end)
    }

    fn start(&self) -> (r: Idx) {
        inclusive_start(self)
    }

    fn end(&self) -> (r: Idx) {
        succ_saturating(inclusive_end(self))
    }
}

/// `start..=end`: the exclusive end is one past `end`, saturated.
impl<Idx: RangeIndex> PartialBounds<Idx> for core::ops::RangeInclusive<Idx> {
    open spec fn partial_start(&self) -> Idx {
        self@.start
    }

    open spec fn partial_end(&self) -> Option<Idx> {
        Some(exclusive_end(self@.end))
    }

    fn start(&self) -> (r: Idx) {
        inclusive_start(self)
    }

    fn end(&self) -> (r: Option<Idx>) {
        Some(succ_saturating(inclusive_end(self)))
    }
}

/// `..end`: from zero.
impl<Idx: RangeIndex> StrictBounds<Idx> for core::ops::RangeTo<Idx> {
    open spec fn strict_start(&self) -> Idx {
        Idx::spec_zero()
    }

    open spec fn strict_end(&self) -> Idx {
        self.end
    }

    fn start(&self) -> (r: Idx) {
        Idx::zero_idx()
    }

    fn end(&self) -> (r: Idx) {
        self.end
    }
}

/// `..end`: from zero.
impl<Idx: RangeIndex> PartialBounds<Idx> for core::ops::RangeTo<Idx> {
    open spec fn partial_start(&self) -> Idx {
        Idx::spec_zero()
    }

    open spec fn partial_end(&self) -> Option<Idx> {
        Some(self.end)
    }

    fn start(&self) -> (r: Idx) {
        Idx::zero_idx()
    }

    fn end(&self) -> (r: Option<Idx>) {
        Some(self.end)
    }
}

/// `..=end`: from zero; the exclusive end is one past `end`, saturated.
impl<Idx: RangeIndex> StrictBounds<Idx> for core::ops::RangeToInclusive<Idx> {
    open spec fn strict_start(&self) -> Idx {
        Idx::spec_zero()
    }

    open spec fn strict_end(&self) -> Idx {
        exclusive_end(self.end)
    }

    fn start(&self) -> (r: Idx) {
        Idx::zero_idx()
    }

    fn end(&self) -> (r: Idx) {
        succ_saturating(self.end)
    }
}

/// `..=end`: from zero; the exclusive end is one past `end`, saturated.
impl<Idx: RangeIndex> PartialBounds<Idx> for core::ops::RangeToInclusive<Idx> {
    open spec fn partial_start(&self) -> Idx {
        Idx::spec_zero()
    }

    open spec fn partial_end(&self) -> Option<Idx> {
        Some(exclusive_end(self.end))
    }

    fn start(&self) -> (r: Idx) {
        Idx::zero_idx()
    }

    fn end(&self) -> (r: Option<Idx>) {
        Some(succ_saturating(self.end))
    }
}

} // verus!
