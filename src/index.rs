use vstd::prelude::*;

verus! {

/// `x` pushed into `[lo, hi]`: what a saturating operation returns for the exact result `x`.
pub open spec fn saturate(x: int, lo: int, hi: int) -> int {
    if x < lo {
        lo
    } else if x > hi {
        hi
    } else {
        x
    }
}

/// The numeric capabilities that an index type of a range needs: a total order,
/// a zero, a one, and an addition that saturates at the bounds of the type.
///
/// Each index stands for a mathematical integer, `value`, and two indices with the
/// same value are the same index; the order is the order of the integers.
pub trait RangeIndex: Copy + Sized {
    /// The integer this index stands for.
    spec fn value(&self) -> int;

    /// The smallest integer an index can stand for.
    spec fn min_value() -> int;

    /// The largest integer an index can stand for.
    spec fn max_value() -> int;

    /// The index whose value is zero.
    spec fn spec_zero() -> Self;

    /// The index whose value is one.
    spec fn spec_one() -> Self;

    /// `self + v`, saturated at the bounds of the type.
    spec fn spec_saturating_add(&self, v: Self) -> Self;

    /// What the spec functions above promise of every implementation.
    proof fn lemma_index(a: Self, b: Self)
        ensures
            Self::min_value() <= a.value() <= Self::max_value(),
            a.value() == b.value() ==> a == b,
            Self::min_value() <= 0,
            1 <= Self::max_value(),
            Self::spec_zero().value() == 0,
            Self::spec_one().value() == 1,
            a.spec_saturating_add(b).value() == saturate(
                a.value() + b.value(),
                Self::min_value(),
                Self::max_value(),
            ),
    ;

    fn zero_idx() -> (r: Self)
        ensures
            r == Self::spec_zero(),
    ;

    fn one_idx() -> (r: Self)
        ensures
            r == Self::spec_one(),
    ;

    fn add_saturating(&self, v: &Self) -> (r: Self)
        ensures
            r == self.spec_saturating_add(*v),
    ;

    /// Whether `self` comes no later than `other`.
    fn at_most(&self, other: &Self) -> (r: bool)
        ensures
            r == (self.value() <= other.value()),
    ;
}

/// The lesser of two indices (the first one on a tie).
pub open spec fn min_idx<Idx: RangeIndex>(a: Idx, b: Idx) -> Idx {
    if a.value() <= b.value() {
        a
    } else {
        b
    }
}

/// The greater of two indices (the second one on a tie).
pub open spec fn max_idx<Idx: RangeIndex>(a: Idx, b: Idx) -> Idx {
    if b.value() < a.value() {
        a
    } else {
        b
    }
}

/// Executable `min_idx`.
pub fn lesser<Idx: RangeIndex>(a: Idx, b: Idx) -> (r: Idx)
    ensures
        r == min_idx(a, b),
{
    if a.at_most(&b) {
        a
    } else {
        b
    }
}

/// Executable `max_idx`.
pub fn greater<Idx: RangeIndex>(a: Idx, b: Idx) -> (r: Idx)
    ensures
        r == max_idx(a, b),
{
    if a.at_most(&b) {
        b
    } else {
        a
    }
}

/// Relies on num_traits' `SaturatingAdd` for `u8`, which forwards to `u8::saturating_add`.
pub assume_specification[ <u8 as num_traits::SaturatingAdd>::saturating_add ](a: &u8, v: &u8) -> (r: u8)
    ensures
        r == (if *a + *v > u8::MAX { u8::MAX } else { (*a + *v) as u8 }),
;

/// Relies on num_traits' `Zero` for `u8`: the literal `0`.
pub assume_specification[ <u8 as num_traits::Zero>::zero ]() -> (r: u8)
    ensures
        r == 0,
;

/// Relies on num_traits' `One` for `u8`: the literal `1`.
pub assume_specification[ <u8 as num_traits::One>::one ]() -> (r: u8)
    ensures
        r == 1,
;

impl RangeIndex for u8 {
    open spec fn value(&self) -> int {
        *self as int
    }

    open spec fn min_value() -> int {
        0
    }

    open spec fn max_value() -> int {
        u8::MAX as int
    }

    open spec fn spec_zero() -> u8 {
        0
    }

    open spec fn spec_one() -> u8 {
        1
    }

    open spec fn spec_saturating_add(&self, v: u8) -> u8 {
        if *self + v > u8::MAX {
            u8::MAX
        } else {
            (*self + v) as u8
        }
    }

    proof fn lemma_index(a: u8, b: u8) {
    }

    fn zero_idx() -> (r: u8) {
        <u8 as num_traits::Zero>::zero()
    }

    fn one_idx() -> (r: u8) {
        <u8 as num_traits::One>::one()
    }

    fn add_saturating(&self, v: &u8) -> (r: u8) {
        num_traits::SaturatingAdd::saturating_add(self, v)
    }

    fn at_most(&self, other: &u8) -> (r: bool) {
        *self <= *other
    }
}

/// Relies on num_traits' `SaturatingAdd` for `u16`, which forwards to `u16::saturating_add`.
pub assume_specification[ <u16 as num_traits::SaturatingAdd>::saturating_add ](a: &u16, v: &u16) -> (r: u16)
    ensures
        r == (if *a + *v > u16::MAX { u16::MAX } else { (*a + *v) as u16 }),
;

/// Relies on num_traits' `Zero` for `u16`: the literal `0`.
pub assume_specification[ <u16 as num_traits::Zero>::zero ]() -> (r: u16)
    ensures
        r == 0,
;

/// Relies on num_traits' `One` for `u16`: the literal `1`.
pub assume_specification[ <u16 as num_traits::One>::one ]() -> (r: u16)
    ensures
        r == 1,
;

impl RangeIndex for u16 {
    open spec fn value(&self) -> int {
        *self as int
    }

    open spec fn min_value() -> int {
        0
    }

    open spec fn max_value() -> int {
        u16::MAX as int
    }

    open spec fn spec_zero() -> u16 {
        0
    }

    open spec fn spec_one() -> u16 {
        1
    }

    open spec fn spec_saturating_add(&self, v: u16) -> u16 {
        if *self + v > u16::MAX {
            u16::MAX
        } else {
            (*self + v) as u16
        }
    }

    proof fn lemma_index(a: u16, b: u16) {
    }

    fn zero_idx() -> (r: u16) {
        <u16 as num_traits::Zero>::zero()
    }

    fn one_idx() -> (r: u16) {
        <u16 as num_traits::One>::one()
    }

    fn add_saturating(&self, v: &u16) -> (r: u16) {
        num_traits::SaturatingAdd::saturating_add(self, v)
    }

    fn at_most(&self, other: &u16) -> (r: bool) {
        *self <= *other
    }
}

/// Relies on num_traits' `SaturatingAdd` for `u32`, which forwards to `u32::saturating_add`.
pub assume_specification[ <u32 as num_traits::SaturatingAdd>::saturating_add ](a: &u32, v: &u32) -> (r: u32)
    ensures
        r == (if *a + *v > u32::MAX { u32::MAX } else { (*a + *v) as u32 }),
;

/// Relies on num_traits' `Zero` for `u32`: the literal `0`.
pub assume_specification[ <u32 as num_traits::Zero>::zero ]() -> (r: u32)
    ensures
        r == 0,
;

/// Relies on num_traits' `One` for `u32`: the literal `1`.
pub assume_specification[ <u32 as num_traits::One>::one ]() -> (r: u32)
    ensures
        r == 1,
;

impl RangeIndex for u32 {
    open spec fn value(&self) -> int {
        *self as int
    }

    open spec fn min_value() -> int {
        0
    }

    open spec fn max_value() -> int {
        u32::MAX as int
    }

    open spec fn spec_zero() -> u32 {
        0
    }

    open spec fn spec_one() -> u32 {
        1
    }

    open spec fn spec_saturating_add(&self, v: u32) -> u32 {
        if *self + v > u32::MAX {
            u32::MAX
        } else {
            (*self + v) as u32
        }
    }

    proof fn lemma_index(a: u32, b: u32) {
    }

    fn zero_idx() -> (r: u32) {
        <u32 as num_traits::Zero>::zero()
    }

    fn one_idx() -> (r: u32) {
        <u32 as num_traits::One>::one()
    }

    fn add_saturating(&self, v: &u32) -> (r: u32) {
        num_traits::SaturatingAdd::saturating_add(self, v)
    }

    fn at_most(&self, other: &u32) -> (r: bool) {
        *self <= *other
    }
}

/// Relies on num_traits' `SaturatingAdd` for `u64`, which forwards to `u64::saturating_add`.
pub assume_specification[ <u64 as num_traits::SaturatingAdd>::saturating_add ](a: &u64, v: &u64) -> (r: u64)
    ensures
        r == (if *a + *v > u64::MAX { u64::MAX } else { (*a + *v) as u64 }),
;

/// Relies on num_traits' `Zero` for `u64`: the literal `0`.
pub assume_specification[ <u64 as num_traits::Zero>::zero ]() -> (r: u64)
    ensures
        r == 0,
;

/// Relies on num_traits' `One` for `u64`: the literal `1`.
pub assume_specification[ <u64 as num_traits::One>::one ]() -> (r: u64)
    ensures
        r == 1,
;

impl RangeIndex for u64 {
    open spec fn value(&self) -> int {
        *self as int
    }

    open spec fn min_value() -> int {
        0
    }

    open spec fn max_value() -> int {
        u64::MAX as int
    }

    open spec fn spec_zero() -> u64 {
        0
    }

    open spec fn spec_one() -> u64 {
        1
    }

    open spec fn spec_saturating_add(&self, v: u64) -> u64 {
        if *self + v > u64::MAX {
            u64::MAX
        } else {
            (*self + v) as u64
        }
    }

    proof fn lemma_index(a: u64, b: u64) {
    }

    fn zero_idx() -> (r: u64) {
        <u64 as num_traits::Zero>::zero()
    }

    fn one_idx() -> (r: u64) {
        <u64 as num_traits::One>::one()
    }

    fn add_saturating(&self, v: &u64) -> (r: u64) {
        num_traits::SaturatingAdd::saturating_add(self, v)
    }

    fn at_most(&self, other: &u64) -> (r: bool) {
        *self <= *other
    }
}

/// Relies on num_traits' `SaturatingAdd` for `usize`, which forwards to `usize::saturating_add`.
pub assume_specification[ <usize as num_traits::SaturatingAdd>::saturating_add ](a: &usize, v: &usize) -> (r: usize)
    ensures
        r == (if *a + *v > usize::MAX { usize::MAX } else { (*a + *v) as usize }),
;

/// Relies on num_traits' `Zero` for `usize`: the literal `0`.
pub assume_specification[ <usize as num_traits::Zero>::zero ]() -> (r: usize)
    ensures
        r == 0,
;

/// Relies on num_traits' `One` for `usize`: the literal `1`.
pub assume_specification[ <usize as num_traits::One>::one ]() -> (r: usize)
    ensures
        r == 1,
;

impl RangeIndex for usize {
    open spec fn value(&self) -> int {
        *self as int
    }

    open spec fn min_value() -> int {
        0
    }

    open spec fn max_value() -> int {
        usize::MAX as int
    }

    open spec fn spec_zero() -> usize {
        0
    }

    open spec fn spec_one() -> usize {
        1
    }

    open spec fn spec_saturating_add(&self, v: usize) -> usize {
        if *self + v > usize::MAX {
            usize::MAX
        } else {
            (*self + v) as usize
        }
    }

    proof fn lemma_index(a: usize, b: usize) {
    }

    fn zero_idx() -> (r: usize) {
        <usize as num_traits::Zero>::zero()
    }

    fn one_idx() -> (r: usize) {
        <usize as num_traits::One>::one()
    }

    fn add_saturating(&self, v: &usize) -> (r: usize) {
        num_traits::SaturatingAdd::saturating_add(self, v)
    }

    fn at_most(&self, other: &usize) -> (r: bool) {
        *self <= *other
    }
}

/// Relies on num_traits' `SaturatingAdd` for `i32`, which forwards to `i32::saturating_add`.
pub assume_specification[ <i32 as num_traits::SaturatingAdd>::saturating_add ](a: &i32, v: &i32) -> (r: i32)
    ensures
        r == (if *a + *v > i32::MAX {
            i32::MAX
        } else if *a + *v < i32::MIN {
            i32::MIN
        } else {
            (*a + *v) as i32
        }),
;

/// Relies on num_traits' `Zero` for `i32`: the literal `0`.
pub assume_specification[ <i32 as num_traits::Zero>::zero ]() -> (r: i32)
    ensures
        r == 0,
;

/// Relies on num_traits' `One` for `i32`: the literal `1`.
pub assume_specification[ <i32 as num_traits::One>::one ]() -> (r: i32)
    ensures
        r == 1,
;

impl RangeIndex for i32 {
    open spec fn value(&self) -> int {
        *self as int
    }

    open spec fn min_value() -> int {
        i32::MIN as int
    }

    open spec fn max_value() -> int {
        i32::MAX as int
    }

    open spec fn spec_zero() -> i32 {
        0
    }

    open spec fn spec_one() -> i32 {
        1
    }

    open spec fn spec_saturating_add(&self, v: i32) -> i32 {
        if *self + v > i32::MAX {
            i32::MAX
        } else if *self + v < i32::MIN {
            i32::MIN
        } else {
            (*self + v) as i32
        }
    }

    proof fn lemma_index(a: i32, b: i32) {
    }

    fn zero_idx() -> (r: i32) {
        <i32 as num_traits::Zero>::zero()
    }

    fn one_idx() -> (r: i32) {
        <i32 as num_traits::One>::one()
    }

    fn add_saturating(&self, v: &i32) -> (r: i32) {
        num_traits::SaturatingAdd::saturating_add(self, v)
    }

    fn at_most(&self, other: &i32) -> (r: bool) {
        *self <= *other
    }
}

/// Relies on num_traits' `SaturatingAdd` for `i64`, which forwards to `i64::saturating_add`.
pub assume_specification[ <i64 as num_traits::SaturatingAdd>::saturating_add ](a: &i64, v: &i64) -> (r: i64)
    ensures
        r == (if *a + *v > i64::MAX {
            i64::MAX
        } else if *a + *v < i64::MIN {
            i64::MIN
        } else {
            (*a + *v) as i64
        }),
;

/// Relies on num_traits' `Zero` for `i64`: the literal `0`.
pub assume_specification[ <i64 as num_traits::Zero>::zero ]() -> (r: i64)
    ensures
        r == 0,
;

/// Relies on num_traits' `One` for `i64`: the literal `1`.
pub assume_specification[ <i64 as num_traits::One>::one ]() -> (r: i64)
    ensures
        r == 1,
;

impl RangeIndex for i64 {
    open spec fn value(&self) -> int {
        *self as int
    }

    open spec fn min_value() -> int {
        i64::MIN as int
    }

    open spec fn max_value() -> int {
        i64::MAX as int
    }

    open spec fn spec_zero() -> i64 {
        0
    }

    open spec fn spec_one() -> i64 {
        1
    }

    open spec fn spec_saturating_add(&self, v: i64) -> i64 {
        if *self + v > i64::MAX {
            i64::MAX
        } else if *self + v < i64::MIN {
            i64::MIN
        } else {
            (*self + v) as i64
        }
    }

    proof fn lemma_index(a: i64, b: i64) {
    }

    fn zero_idx() -> (r: i64) {
        <i64 as num_traits::Zero>::zero()
    }

    fn one_idx() -> (r: i64) {
        <i64 as num_traits::One>::one()
    }

    fn add_saturating(&self, v: &i64) -> (r: i64) {
        num_traits::SaturatingAdd::saturating_add(self, v)
    }

    fn at_most(&self, other: &i64) -> (r: bool) {
        *self <= *other
    }
}

} // verus!
