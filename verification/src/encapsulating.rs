//! Encapsulation: arithmetic in a wider type, where it cannot overflow.
//!
//! Adding two `u8` values may overflow. Adding them as `u16` values may not.
//! The traits of this module promote both operands before they operate, so the
//! result is the exact one and lies in the wider type.

use std::ops::{Add, Mul, Neg, Sub};
use vstd::prelude::*;
use vstd::std_specs::ops::{AddSpec, MulSpec, NegSpec, SubSpec};

verus! {

/// A type whose values all fit in a wider type, `Super`.
///
/// Contracts speak of the number that a value stands for, in the narrow type
/// and in the wide one.
pub trait Encapsulate: Sized {
    /// The wider type.
    type Super;

    /// The number that a value stands for.
    spec fn number(self) -> int;

    /// The number that a value of the wider type stands for.
    spec fn wide_number(wide: Self::Super) -> int;

    /// Two values of the wider type that stand for the same number are the
    /// same value.
    proof fn wide_number_is_one_to_one(first: Self::Super, second: Self::Super)
        requires
            Self::wide_number(first) == Self::wide_number(second),
        ensures
            first == second,
    ;

    /// Promotes a value to the wider type. It stands for the same number there.
    fn encapsulate(self) -> (wide: Self::Super)
        ensures
            Self::wide_number(wide) == self.number(),
    ;
}

/// Addition in the wider type.
pub trait EncapsulatingAdd: Encapsulate where Self::Super: Add<Output = Self::Super> {
    /// The wider type holds the sum of any two promoted values, and its
    /// addition computes it.
    proof fn sum_is_exact(lhs: Self, rhs: Self, wide_lhs: Self::Super, wide_rhs: Self::Super)
        requires
            Self::wide_number(wide_lhs) == lhs.number(),
            Self::wide_number(wide_rhs) == rhs.number(),
        ensures
            <Self::Super as AddSpec>::obeys_add_spec(),
            wide_lhs.add_req(wide_rhs),
            Self::wide_number(wide_lhs.add_spec(wide_rhs)) == lhs.number() + rhs.number(),
    ;

    /// The exact sum of two values, in the wider type.
    fn encapsulating_add(self, rhs: Self) -> (sum: Self::Super)
        ensures
            Self::wide_number(sum) == self.number() + rhs.number(),
    {
        let wide_lhs = self.encapsulate();
        let wide_rhs = rhs.encapsulate();
        proof {
            Self::sum_is_exact(self, rhs, wide_lhs, wide_rhs);
        }
        wide_lhs + wide_rhs
    }
}

/// Multiplication in the wider type.
pub trait EncapsulatingMul: Encapsulate where Self::Super: Mul<Output = Self::Super> {
    /// The wider type holds the product of any two promoted values, and its
    /// multiplication computes it.
    proof fn product_is_exact(lhs: Self, rhs: Self, wide_lhs: Self::Super, wide_rhs: Self::Super)
        requires
            Self::wide_number(wide_lhs) == lhs.number(),
            Self::wide_number(wide_rhs) == rhs.number(),
        ensures
            <Self::Super as MulSpec>::obeys_mul_spec(),
            wide_lhs.mul_req(wide_rhs),
            Self::wide_number(wide_lhs.mul_spec(wide_rhs)) == lhs.number() * rhs.number(),
    ;

    /// The exact product of two values, in the wider type.
    fn encapsulating_mul(self, rhs: Self) -> (product: Self::Super)
        ensures
            Self::wide_number(product) == self.number() * rhs.number(),
    {
        let wide_lhs = self.encapsulate();
        let wide_rhs = rhs.encapsulate();
        proof {
            Self::product_is_exact(self, rhs, wide_lhs, wide_rhs);
        }
        wide_lhs * wide_rhs
    }
}

/// Subtraction in the wider type.
pub trait EncapsulatingSub: Encapsulate where Self::Super: Sub<Output = Self::Super> {
    /// The wider type holds the difference of any two promoted values, and its
    /// subtraction computes it.
    proof fn difference_is_exact(
        lhs: Self,
        rhs: Self,
        wide_lhs: Self::Super,
        wide_rhs: Self::Super,
    )
        requires
            Self::wide_number(wide_lhs) == lhs.number(),
            Self::wide_number(wide_rhs) == rhs.number(),
        ensures
            <Self::Super as SubSpec>::obeys_sub_spec(),
            wide_lhs.sub_req(wide_rhs),
            Self::wide_number(wide_lhs.sub_spec(wide_rhs)) == lhs.number() - rhs.number(),
    ;

    /// The exact difference of two values, in the wider type.
    fn encapsulating_sub(self, rhs: Self) -> (difference: Self::Super)
        ensures
            Self::wide_number(difference) == self.number() - rhs.number(),
    {
        let wide_lhs = self.encapsulate();
        let wide_rhs = rhs.encapsulate();
        proof {
            Self::difference_is_exact(self, rhs, wide_lhs, wide_rhs);
        }
        wide_lhs - wide_rhs
    }
}

/// Negation in the wider type.
pub trait EncapsulatingNeg: Encapsulate where Self::Super: Neg<Output = Self::Super> {
    /// The wider type holds the negation of any promoted value, and its
    /// negation computes it.
    proof fn negation_is_exact(value: Self, wide: Self::Super)
        requires
            Self::wide_number(wide) == value.number(),
        ensures
            <Self::Super as NegSpec>::obeys_neg_spec(),
            wide.neg_req(),
            Self::wide_number(wide.neg_spec()) == -value.number(),
    ;

    /// The exact negation of a value, in the wider type.
    fn encapsulating_neg(self) -> (negation: Self::Super)
        ensures
            Self::wide_number(negation) == -self.number(),
    {
        let wide = self.encapsulate();
        proof {
            Self::negation_is_exact(self, wide);
        }
        wide.neg()
    }
}

impl Encapsulate for u8 {
    type Super = u16;

    open spec fn number(self) -> int {
        self as int
    }

    open spec fn wide_number(wide: u16) -> int {
        wide as int
    }

    proof fn wide_number_is_one_to_one(first: u16, second: u16) {
    }

    fn encapsulate(self) -> (wide: u16) {
        self as u16
    }
}

impl EncapsulatingAdd for u8 {
    proof fn sum_is_exact(lhs: u8, rhs: u8, wide_lhs: u16, wide_rhs: u16) {
        assert(<u16 as AddSpec>::obeys_add_spec());
        assert(wide_lhs.add_req(wide_rhs));
    }
}

impl EncapsulatingMul for u8 {
    proof fn product_is_exact(lhs: u8, rhs: u8, wide_lhs: u16, wide_rhs: u16) {
        assert(u16::MIN <= wide_lhs * wide_rhs <= u16::MAX) by (nonlinear_arith)
            requires
                u8::MIN <= wide_lhs <= u8::MAX,
                u8::MIN <= wide_rhs <= u8::MAX,
        ;
        assert(<u16 as MulSpec>::obeys_mul_spec());
        assert(wide_lhs.mul_req(wide_rhs));
    }
}

impl Encapsulate for u16 {
    type Super = u32;

    open spec fn number(self) -> int {
        self as int
    }

    open spec fn wide_number(wide: u32) -> int {
        wide as int
    }

    proof fn wide_number_is_one_to_one(first: u32, second: u32) {
    }

    fn encapsulate(self) -> (wide: u32) {
        self as u32
    }
}

impl EncapsulatingAdd for u16 {
    proof fn sum_is_exact(lhs: u16, rhs: u16, wide_lhs: u32, wide_rhs: u32) {
        assert(<u32 as AddSpec>::obeys_add_spec());
        assert(wide_lhs.add_req(wide_rhs));
    }
}

impl EncapsulatingMul for u16 {
    proof fn product_is_exact(lhs: u16, rhs: u16, wide_lhs: u32, wide_rhs: u32) {
        assert(u32::MIN <= wide_lhs * wide_rhs <= u32::MAX) by (nonlinear_arith)
            requires
                u16::MIN <= wide_lhs <= u16::MAX,
                u16::MIN <= wide_rhs <= u16::MAX,
        ;
        assert(<u32 as MulSpec>::obeys_mul_spec());
        assert(wide_lhs.mul_req(wide_rhs));
    }
}

impl Encapsulate for u32 {
    type Super = u64;

    open spec fn number(self) -> int {
        self as int
    }

    open spec fn wide_number(wide: u64) -> int {
        wide as int
    }

    proof fn wide_number_is_one_to_one(first: u64, second: u64) {
    }

    fn encapsulate(self) -> (wide: u64) {
        self as u64
    }
}

impl EncapsulatingAdd for u32 {
    proof fn sum_is_exact(lhs: u32, rhs: u32, wide_lhs: u64, wide_rhs: u64) {
        assert(<u64 as AddSpec>::obeys_add_spec());
        assert(wide_lhs.add_req(wide_rhs));
    }
}

impl EncapsulatingMul for u32 {
    proof fn product_is_exact(lhs: u32, rhs: u32, wide_lhs: u64, wide_rhs: u64) {
        assert(u64::MIN <= wide_lhs * wide_rhs <= u64::MAX) by (nonlinear_arith)
            requires
                u32::MIN <= wide_lhs <= u32::MAX,
                u32::MIN <= wide_rhs <= u32::MAX,
        ;
        assert(<u64 as MulSpec>::obeys_mul_spec());
        assert(wide_lhs.mul_req(wide_rhs));
    }
}

impl Encapsulate for u64 {
    type Super = u128;

    open spec fn number(self) -> int {
        self as int
    }

    open spec fn wide_number(wide: u128) -> int {
        wide as int
    }

    proof fn wide_number_is_one_to_one(first: u128, second: u128) {
    }

    fn encapsulate(self) -> (wide: u128) {
        self as u128
    }
}

impl EncapsulatingAdd for u64 {
    proof fn sum_is_exact(lhs: u64, rhs: u64, wide_lhs: u128, wide_rhs: u128) {
        assert(<u128 as AddSpec>::obeys_add_spec());
        assert(wide_lhs.add_req(wide_rhs));
    }
}

impl EncapsulatingMul for u64 {
    proof fn product_is_exact(lhs: u64, rhs: u64, wide_lhs: u128, wide_rhs: u128) {
        assert(u128::MIN <= wide_lhs * wide_rhs <= u128::MAX) by (nonlinear_arith)
            requires
                u64::MIN <= wide_lhs <= u64::MAX,
                u64::MIN <= wide_rhs <= u64::MAX,
        ;
        assert(<u128 as MulSpec>::obeys_mul_spec());
        assert(wide_lhs.mul_req(wide_rhs));
    }
}

impl Encapsulate for i8 {
    type Super = i16;

    open spec fn number(self) -> int {
        self as int
    }

    open spec fn wide_number(wide: i16) -> int {
        wide as int
    }

    proof fn wide_number_is_one_to_one(first: i16, second: i16) {
    }

    fn encapsulate(self) -> (wide: i16) {
        self as i16
    }
}

impl EncapsulatingAdd for i8 {
    proof fn sum_is_exact(lhs: i8, rhs: i8, wide_lhs: i16, wide_rhs: i16) {
        assert(<i16 as AddSpec>::obeys_add_spec());
        assert(wide_lhs.add_req(wide_rhs));
    }
}

impl EncapsulatingMul for i8 {
    proof fn product_is_exact(lhs: i8, rhs: i8, wide_lhs: i16, wide_rhs: i16) {
        assert(i16::MIN <= wide_lhs * wide_rhs <= i16::MAX) by (nonlinear_arith)
            requires
                i8::MIN <= wide_lhs <= i8::MAX,
                i8::MIN <= wide_rhs <= i8::MAX,
        ;
        assert(<i16 as MulSpec>::obeys_mul_spec());
        assert(wide_lhs.mul_req(wide_rhs));
    }
}

impl EncapsulatingSub for i8 {
    proof fn difference_is_exact(lhs: i8, rhs: i8, wide_lhs: i16, wide_rhs: i16) {
        assert(<i16 as SubSpec>::obeys_sub_spec());
        assert(wide_lhs.sub_req(wide_rhs));
    }
}

impl EncapsulatingNeg for i8 {
    proof fn negation_is_exact(value: i8, wide: i16) {
        assert(<i16 as NegSpec>::obeys_neg_spec());
        assert(wide.neg_req());
    }
}

impl Encapsulate for i16 {
    type Super = i32;

    open spec fn number(self) -> int {
        self as int
    }

    open spec fn wide_number(wide: i32) -> int {
        wide as int
    }

    proof fn wide_number_is_one_to_one(first: i32, second: i32) {
    }

    fn encapsulate(self) -> (wide: i32) {
        self as i32
    }
}

impl EncapsulatingAdd for i16 {
    proof fn sum_is_exact(lhs: i16, rhs: i16, wide_lhs: i32, wide_rhs: i32) {
        assert(<i32 as AddSpec>::obeys_add_spec());
        assert(wide_lhs.add_req(wide_rhs));
    }
}

impl EncapsulatingMul for i16 {
    proof fn product_is_exact(lhs: i16, rhs: i16, wide_lhs: i32, wide_rhs: i32) {
        assert(i32::MIN <= wide_lhs * wide_rhs <= i32::MAX) by (nonlinear_arith)
            requires
                i16::MIN <= wide_lhs <= i16::MAX,
                i16::MIN <= wide_rhs <= i16::MAX,
        ;
        assert(<i32 as MulSpec>::obeys_mul_spec());
        assert(wide_lhs.mul_req(wide_rhs));
    }
}

impl EncapsulatingSub for i16 {
    proof fn difference_is_exact(lhs: i16, rhs: i16, wide_lhs: i32, wide_rhs: i32) {
        assert(<i32 as SubSpec>::obeys_sub_spec());
        assert(wide_lhs.sub_req(wide_rhs));
    }
}

impl EncapsulatingNeg for i16 {
    proof fn negation_is_exact(value: i16, wide: i32) {
        assert(<i32 as NegSpec>::obeys_neg_spec());
        assert(wide.neg_req());
    }
}

impl Encapsulate for i32 {
    type Super = i64;

    open spec fn number(self) -> int {
        self as int
    }

    open spec fn wide_number(wide: i64) -> int {
        wide as int
    }

    proof fn wide_number_is_one_to_one(first: i64, second: i64) {
    }

    fn encapsulate(self) -> (wide: i64) {
        self as i64
    }
}

impl EncapsulatingAdd for i32 {
    proof fn sum_is_exact(lhs: i32, rhs: i32, wide_lhs: i64, wide_rhs: i64) {
        assert(<i64 as AddSpec>::obeys_add_spec());
        assert(wide_lhs.add_req(wide_rhs));
    }
}

impl EncapsulatingMul for i32 {
    proof fn product_is_exact(lhs: i32, rhs: i32, wide_lhs: i64, wide_rhs: i64) {
        assert(i64::MIN <= wide_lhs * wide_rhs <= i64::MAX) by (nonlinear_arith)
            requires
                i32::MIN <= wide_lhs <= i32::MAX,
                i32::MIN <= wide_rhs <= i32::MAX,
        ;
        assert(<i64 as MulSpec>::obeys_mul_spec());
        assert(wide_lhs.mul_req(wide_rhs));
    }
}

impl EncapsulatingSub for i32 {
    proof fn difference_is_exact(lhs: i32, rhs: i32, wide_lhs: i64, wide_rhs: i64) {
        assert(<i64 as SubSpec>::obeys_sub_spec());
        assert(wide_lhs.sub_req(wide_rhs));
    }
}

impl EncapsulatingNeg for i32 {
    proof fn negation_is_exact(value: i32, wide: i64) {
        assert(<i64 as NegSpec>::obeys_neg_spec());
        assert(wide.neg_req());
    }
}

impl Encapsulate for i64 {
    type Super = i128;

    open spec fn number(self) -> int {
        self as int
    }

    open spec fn wide_number(wide: i128) -> int {
        wide as int
    }

    proof fn wide_number_is_one_to_one(first: i128, second: i128) {
    }

    fn encapsulate(self) -> (wide: i128) {
        self as i128
    }
}

impl EncapsulatingAdd for i64 {
    proof fn sum_is_exact(lhs: i64, rhs: i64, wide_lhs: i128, wide_rhs: i128) {
        assert(<i128 as AddSpec>::obeys_add_spec());
        assert(wide_lhs.add_req(wide_rhs));
    }
}

impl EncapsulatingMul for i64 {
    proof fn product_is_exact(lhs: i64, rhs: i64, wide_lhs: i128, wide_rhs: i128) {
        assert(i128::MIN <= wide_lhs * wide_rhs <= i128::MAX) by (nonlinear_arith)
            requires
                i64::MIN <= wide_lhs <= i64::MAX,
                i64::MIN <= wide_rhs <= i64::MAX,
        ;
        assert(<i128 as MulSpec>::obeys_mul_spec());
        assert(wide_lhs.mul_req(wide_rhs));
    }
}

impl EncapsulatingSub for i64 {
    proof fn difference_is_exact(lhs: i64, rhs: i64, wide_lhs: i128, wide_rhs: i128) {
        assert(<i128 as SubSpec>::obeys_sub_spec());
        assert(wide_lhs.sub_req(wide_rhs));
    }
}

impl EncapsulatingNeg for i64 {
    proof fn negation_is_exact(value: i64, wide: i128) {
        assert(<i128 as NegSpec>::obeys_neg_spec());
        assert(wide.neg_req());
    }
}

} // verus!
