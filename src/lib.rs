//! Clamping and intersecting ranges over an ordered index type.
//!
//! `Range` works on ranges with a definite start and exclusive end, `PartialRange`
//! on ranges whose end may be absent; `OpenRange` is the plain value of the latter.
//! std's range syntaxes (`a..b`, `a..`, `..`, `a..=b`, `..b`, `..=b`) take part
//! through `StrictBounds` and `PartialBounds`, inclusive ends becoming exclusive by
//! a saturating increment and missing starts becoming zero.
mod adapters;
mod index;
mod laws;
mod partial;
mod strict;

pub use adapters::exclusive_end;
pub use index::{greater, lesser, max_idx, min_idx, saturate, RangeIndex};
pub use partial::{clamped_right, end_or, intersected, reach, OpenRange, PartialBounds, PartialRange};
pub use strict::{clamped, span, Range, StrictBounds};
pub use laws::{
    lemma_clamp_idempotent, lemma_inclusive_end, lemma_mixed_intersection_commutes,
    lemma_open_intersection_stays_open, lemma_partial_intersection_commutes,
    lemma_strict_intersection_commutes, lemma_to_range_starts_at_zero,
};
