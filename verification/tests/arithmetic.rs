use calm_ops::encapsulating::{
    Encapsulate, EncapsulatingAdd, EncapsulatingMul, EncapsulatingNeg, EncapsulatingSub,
};
use calm_ops::saturating::SaturatingNeg;

#[test]
fn encapsulate_keeps_the_number() {
    assert_eq!(u8::MAX.encapsulate(), 255u16);
    assert_eq!(u16::MAX.encapsulate(), 65_535u32);
    assert_eq!(u32::MAX.encapsulate(), 4_294_967_295u64);
    assert_eq!(u64::MAX.encapsulate(), 18_446_744_073_709_551_615u128);
    assert_eq!(i8::MIN.encapsulate(), -128i16);
    assert_eq!(i16::MIN.encapsulate(), -32_768i32);
    assert_eq!(i32::MIN.encapsulate(), -2_147_483_648i64);
    assert_eq!(i64::MIN.encapsulate(), -9_223_372_036_854_775_808i128);
    assert_eq!(0u8.encapsulate(), 0u16);
    assert_eq!((-1i8).encapsulate(), -1i16);
}

#[test]
fn encapsulating_add_is_addition_in_the_wider_type() {
    let wide: u16 = u8::MAX as u16 + u8::MAX as u16;
    let sum: u16 = u8::MAX.encapsulating_add(u8::MAX);
    assert_eq!(wide, sum);
    assert_eq!(sum, 510);
}

#[test]
fn encapsulating_add_does_not_overflow() {
    assert_eq!(u16::MAX.encapsulating_add(u16::MAX), 131_070u32);
    assert_eq!(u32::MAX.encapsulating_add(u32::MAX), 8_589_934_590u64);
    assert_eq!(u64::MAX.encapsulating_add(u64::MAX), 36_893_488_147_419_103_230u128);
    assert_eq!(i8::MAX.encapsulating_add(i8::MAX), 254i16);
    assert_eq!(i8::MIN.encapsulating_add(i8::MIN), -256i16);
    assert_eq!(i16::MIN.encapsulating_add(i16::MIN), -65_536i32);
    assert_eq!(i32::MAX.encapsulating_add(i32::MAX), 4_294_967_294i64);
    assert_eq!(i64::MIN.encapsulating_add(i64::MIN), -18_446_744_073_709_551_616i128);
    assert_eq!(3u8.encapsulating_add(4u8), 7u16);
}

#[test]
fn encapsulating_mul_does_not_overflow() {
    assert_eq!(u8::MAX.encapsulating_mul(u8::MAX), 65_025u16);
    assert_eq!(u16::MAX.encapsulating_mul(u16::MAX), 4_294_836_225u32);
    assert_eq!(u32::MAX.encapsulating_mul(u32::MAX), 18_446_744_065_119_617_025u64);
    assert_eq!(
        u64::MAX.encapsulating_mul(u64::MAX),
        340_282_366_920_938_463_426_481_119_284_349_108_225u128
    );
    assert_eq!(i8::MIN.encapsulating_mul(i8::MIN), 16_384i16);
    assert_eq!(i8::MIN.encapsulating_mul(i8::MAX), -16_256i16);
    assert_eq!(i16::MIN.encapsulating_mul(i16::MIN), 1_073_741_824i32);
    assert_eq!(i32::MIN.encapsulating_mul(i32::MIN), 4_611_686_018_427_387_904i64);
    assert_eq!(
        i64::MIN.encapsulating_mul(i64::MIN),
        85_070_591_730_234_615_865_843_651_857_942_052_864i128
    );
    assert_eq!(6u8.encapsulating_mul(7u8), 42u16);
}

#[test]
fn encapsulating_sub_does_not_overflow() {
    assert_eq!(i8::MIN.encapsulating_sub(i8::MAX), -255i16);
    assert_eq!(i8::MAX.encapsulating_sub(i8::MIN), 255i16);
    assert_eq!(i16::MIN.encapsulating_sub(i16::MAX), -65_535i32);
    assert_eq!(i32::MAX.encapsulating_sub(i32::MIN), 4_294_967_295i64);
    assert_eq!(i64::MIN.encapsulating_sub(i64::MAX), -18_446_744_073_709_551_615i128);
    assert_eq!(5i8.encapsulating_sub(7i8), -2i16);
}

#[test]
fn encapsulating_neg_does_not_overflow() {
    assert_eq!(i8::MIN.encapsulating_neg(), 128i16);
    assert_eq!(i16::MIN.encapsulating_neg(), 32_768i32);
    assert_eq!(i32::MIN.encapsulating_neg(), 2_147_483_648i64);
    assert_eq!(i64::MIN.encapsulating_neg(), 9_223_372_036_854_775_808i128);
    assert_eq!(i8::MAX.encapsulating_neg(), -127i16);
    assert_eq!(0i8.encapsulating_neg(), 0i16);
}

#[test]
fn saturating_neg_negates_what_has_a_negation() {
    assert_eq!(SaturatingNeg::saturating_neg(5i8), -5);
    assert_eq!(SaturatingNeg::saturating_neg(-5i16), 5);
    assert_eq!(SaturatingNeg::saturating_neg(0i32), 0);
    assert_eq!(SaturatingNeg::saturating_neg(i64::MAX), i64::MIN + 1);
    assert_eq!(SaturatingNeg::saturating_neg(i128::MIN + 1), i128::MAX);
    assert_eq!(SaturatingNeg::saturating_neg(1isize), -1);
}

#[test]
fn saturating_neg_clamps_the_smallest_value() {
    assert_eq!(SaturatingNeg::saturating_neg(i8::MIN), i8::MAX);
    assert_eq!(SaturatingNeg::saturating_neg(i16::MIN), i16::MAX);
    assert_eq!(SaturatingNeg::saturating_neg(i32::MIN), i32::MAX);
    assert_eq!(SaturatingNeg::saturating_neg(i64::MIN), i64::MAX);
    assert_eq!(SaturatingNeg::saturating_neg(i128::MIN), i128::MAX);
    assert_eq!(SaturatingNeg::saturating_neg(isize::MIN), isize::MAX);
}

#[test]
fn saturating_neg_agrees_with_checked_neg() {
    for value in i8::MIN..=i8::MAX {
        assert_eq!(SaturatingNeg::saturating_neg(value), value.checked_neg().unwrap_or(i8::MAX));
    }
    for value in [i16::MIN, -1, 0, 1, i16::MAX] {
        assert_eq!(SaturatingNeg::saturating_neg(value), value.checked_neg().unwrap_or(i16::MAX));
    }
}

#[test]
fn saturating_neg_is_found_through_a_bound() {
    fn negate<V: SaturatingNeg>(value: V) -> V {
        value.saturating_neg()
    }
    assert_eq!(negate(i8::MIN), i8::MAX);
    assert_eq!(negate(7i64), -7);
}

#[test]
fn encapsulating_arithmetic_is_exact_on_every_pair_of_bytes() {
    for lhs in u8::MIN..=u8::MAX {
        for rhs in u8::MIN..=u8::MAX {
            assert_eq!(lhs.encapsulating_add(rhs) as u32, lhs as u32 + rhs as u32);
            assert_eq!(lhs.encapsulating_mul(rhs) as u32, lhs as u32 * rhs as u32);
        }
    }
    for lhs in i8::MIN..=i8::MAX {
        assert_eq!(lhs.encapsulating_neg() as i32, -(lhs as i32));
        for rhs in i8::MIN..=i8::MAX {
            assert_eq!(lhs.encapsulating_add(rhs) as i32, lhs as i32 + rhs as i32);
            assert_eq!(lhs.encapsulating_sub(rhs) as i32, lhs as i32 - rhs as i32);
            assert_eq!(lhs.encapsulating_mul(rhs) as i32, lhs as i32 * rhs as i32);
        }
    }
}
