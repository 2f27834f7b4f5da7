//! Saturating negation.

use std::ops::Neg;
use vstd::prelude::*;
use vstd::std_specs::ops::NegSpec;

verus! {

/// Negation that clamps to the largest value where the negation is out of
/// range.
pub trait SaturatingNeg: Neg<Output = Self> + Sized {
    /// The largest value of the type.
    spec fn largest() -> Self;

    /// The negation of a value where the type holds it, and the largest value
    /// of the type where it does not.
    fn saturating_neg(self) -> (negation: Self)
        ensures
            self.neg_req() ==> negation == self.neg_spec(),
            !self.neg_req() ==> negation == Self::largest(),
    ;
}

impl SaturatingNeg for i8 {
    open spec fn largest() -> i8 {
        i8::MAX
    }

    /// Only the smallest value has no negation in the type.
    fn saturating_neg(self) -> (negation: i8)
        ensures
            self != i8::MIN ==> negation == -self,
            self == i8::MIN ==> negation == i8::MAX,
    {
        if self == i8::MIN {
            i8::MAX
        } else {
            -self
        }
    }
}

impl SaturatingNeg for i16 {
    open spec fn largest() -> i16 {
        i16::MAX
    }

    /// Only the smallest value has no negation in the type.
    fn saturating_neg(self) -> (negation: i16)
        ensures
            self != i16::MIN ==> negation == -self,
            self == i16::MIN ==> negation == i16::MAX,
    {
        if self == i16::MIN {
            i16::MAX
        } else {
            -self
        }
    }
}

impl SaturatingNeg for i32 {
    open spec fn largest() -> i32 {
        i32::MAX
    }

    /// Only the smallest value has no negation in the type.
    fn saturating_neg(self) -> (negation: i32)
        ensures
            self != i32::MIN ==> negation == -self,
            self == i32::MIN ==> negation == i32::MAX,
    {
        if self == i32::MIN {
            i32::MAX
        } else {
            -self
        }
    }
}

impl SaturatingNeg for i64 {
    open spec fn largest() -> i64 {
        i64::MAX
    }

    /// Only the smallest value has no negation in the type.
    fn saturating_neg(self) -> (negation: i64)
        ensures
            self != i64::MIN ==> negation == -self,
            self == i64::MIN ==> negation == i64::MAX,
    {
        if self == i64::MIN {
            i64::MAX
        } else {
            -self
        }
    }
}

impl SaturatingNeg for i128 {
    open spec fn largest() -> i128 {
        i128::MAX
    }

    /// Only the smallest value has no negation in the type.
    fn saturating_neg(self) -> (negation: i128)
        ensures
            self != i128::MIN ==> negation == -self,
            self == i128::MIN ==> negation == i128::MAX,
    {
        if self == i128::MIN {
            i128::MAX
        } else {
            -self
        }
    }
}

impl SaturatingNeg for isize {
    open spec fn largest() -> isize {
        isize::MAX
    }

    /// Only the smallest value has no negation in the type.
    fn saturating_neg(self) -> (negation: isize)
        ensures
            self != isize::MIN ==> negation == -self,
            self == isize::MIN ==> negation == isize::MAX,
    {
        if self == isize::MIN {
            isize::MAX
        } else {
            -self
        }
    }
}

} // verus!
