//! What the engine asks of the numbers in a bar: prices are compared, volumes
//! and turnovers are added up from zero.

use vstd::prelude::*;

verus! {

/// A number with a place on the number line.  A fixed-point number stands
/// for its count of smallest units.
pub trait Valued: Copy {
    /// The place of the number on the number line.
    spec fn value(&self) -> int;
}

/// Numbers that can be compared.
pub trait Ordered: Valued {
    /// Whether `self` is the smaller number.
    fn less_than(&self, other: &Self) -> (r: bool)
        ensures
            r == (self.value() < other.value()),
    ;
}

/// Numbers that can be added up from zero.
pub trait Numeric: Valued {
    /// Whether the type can hold the number `value`.
    spec fn fits(value: int) -> bool;

    /// The number zero.
    fn zero() -> (r: Self)
        ensures
            r.value() == 0,
    ;

    /// Whether the type can hold the sum of `self` and `other`.
    fn can_add(&self, other: &Self) -> (r: bool)
        ensures
            r == Self::fits(self.value() + other.value()),
    ;

    /// The sum of `self` and `other`.
    fn plus(&self, other: &Self) -> (r: Self)
        requires
            Self::fits(self.value() + other.value()),
        ensures
            r.value() == self.value() + other.value(),
    ;
}

impl Valued for i64 {
    open spec fn value(&self) -> int {
        *self as int
    }
}

impl Ordered for i64 {
    fn less_than(&self, other: &Self) -> (r: bool) {
        *self < *other
    }
}

impl Numeric for i64 {
    open spec fn fits(value: int) -> bool {
        i64::MIN <= value <= i64::MAX
    }

    fn zero() -> (r: Self) {
        0
    }

    fn can_add(&self, other: &Self) -> (r: bool) {
        self.checked_add(*other).is_some()
    }

    fn plus(&self, other: &Self) -> (r: Self) {
        *self + *other
    }
}

impl Valued for u64 {
    open spec fn value(&self) -> int {
        *self as int
    }
}

impl Ordered for u64 {
    fn less_than(&self, other: &Self) -> (r: bool) {
        *self < *other
    }
}

impl Numeric for u64 {
    open spec fn fits(value: int) -> bool {
        0 <= value <= u64::MAX
    }

    fn zero() -> (r: Self) {
        0
    }

    fn can_add(&self, other: &Self) -> (r: bool) {
        self.checked_add(*other).is_some()
    }

    fn plus(&self, other: &Self) -> (r: Self) {
        *self + *other
    }
}

impl Valued for i128 {
    open spec fn value(&self) -> int {
        *self as int
    }
}

impl Ordered for i128 {
    fn less_than(&self, other: &Self) -> (r: bool) {
        *self < *other
    }
}

impl Numeric for i128 {
    open spec fn fits(value: int) -> bool {
        i128::MIN <= value <= i128::MAX
    }

    fn zero() -> (r: Self) {
        0
    }

    fn can_add(&self, other: &Self) -> (r: bool) {
        self.checked_add(*other).is_some()
    }

    fn plus(&self, other: &Self) -> (r: Self) {
        *self + *other
    }
}

} // verus!
