//! Scalar layer: IEEE 754 binary32 values carried as their bit patterns.
//!
//! Every scalar in this library is a `u32` holding the bit pattern of an
//! IEEE 754 single-precision value. The rounding arithmetic (add, mul, div,
//! sqrt) is delegated to the `const_soft_float` crate, which computes the
//! IEEE result from the operand bits alone; its results are named by
//! uninterpreted spec functions. Everything that has a short exact
//! description at the bit level — negation, absolute value, comparison,
//! minimum and maximum — is implemented here and verified against that
//! description.
use vstd::prelude::*;

verus! {

/// Mask of the sign bit of a binary32 bit pattern.
pub const SIGN_MASK: u32 = 0x8000_0000;

/// Mask of everything but the sign bit (exponent and fraction).
pub const ABS_MASK: u32 = 0x7FFF_FFFF;

/// Mask of the exponent field.
pub const EXP_MASK: u32 = 0x7F80_0000;

/// Mask of the fraction field.
pub const FRAC_MASK: u32 = 0x007F_FFFF;

/// Bit pattern of `0.0`.
pub const ZERO_BITS: u32 = 0x0000_0000;

/// Bit pattern of `0.5`.
pub const HALF_BITS: u32 = 0x3F00_0000;

/// Bit pattern of `1.0`.
pub const ONE_BITS: u32 = 0x3F80_0000;

/// A bit pattern is a NaN iff its exponent field is all ones and its
/// fraction field is non-zero.
pub open spec fn is_nan_bits(a: u32) -> bool {
    (a & EXP_MASK) == EXP_MASK && (a & FRAC_MASK) != 0
}

/// Order key of a non-NaN binary32 bit pattern: sign-magnitude read as a
/// signed integer. For non-NaN values the IEEE comparisons coincide with
/// integer comparisons of these keys; both zeroes share the key `0`.
pub open spec fn float_key(a: u32) -> int {
    if (a & SIGN_MASK) != 0 {
        -((a & ABS_MASK) as int)
    } else {
        (a & ABS_MASK) as int
    }
}

/// The IEEE `<` comparison: false on any NaN, otherwise the key order.
pub open spec fn lt_bits(a: u32, b: u32) -> bool {
    &&& !is_nan_bits(a)
    &&& !is_nan_bits(b)
    &&& float_key(a) < float_key(b)
}

/// The IEEE `<=` comparison: false on any NaN, otherwise the key order.
pub open spec fn le_bits(a: u32, b: u32) -> bool {
    &&& !is_nan_bits(a)
    &&& !is_nan_bits(b)
    &&& float_key(a) <= float_key(b)
}

/// IEEE negation: the sign bit flips, nothing else moves.
pub open spec fn neg_bits(a: u32) -> u32 {
    a ^ SIGN_MASK
}

/// IEEE absolute value: the sign bit clears, nothing else moves.
pub open spec fn abs_bits(a: u32) -> u32 {
    a & ABS_MASK
}

/// The minimum in the sense of `minNum`: a NaN argument loses, otherwise
/// the argument with the smaller key wins and ties keep the first argument.
pub open spec fn min_bits(a: u32, b: u32) -> u32 {
    if is_nan_bits(a) {
        b
    } else if is_nan_bits(b) {
        a
    } else if float_key(b) < float_key(a) {
        b
    } else {
        a
    }
}

/// The maximum in the sense of `maxNum`: a NaN argument loses, otherwise
/// the argument with the larger key wins and ties keep the first argument.
pub open spec fn max_bits(a: u32, b: u32) -> u32 {
    if is_nan_bits(a) {
        b
    } else if is_nan_bits(b) {
        a
    } else if float_key(b) > float_key(a) {
        b
    } else {
        a
    }
}

/// The bits of the IEEE binary32 sum of two bit patterns, rounded to
/// nearest, ties to even. A pure function of the two operands.
pub uninterp spec fn add_bits(a: u32, b: u32) -> u32;

/// The bits of the IEEE binary32 product of two bit patterns, rounded to
/// nearest, ties to even. A pure function of the two operands.
pub uninterp spec fn mul_bits(a: u32, b: u32) -> u32;

/// The bits of the IEEE binary32 quotient of two bit patterns, rounded to
/// nearest, ties to even. A pure function of the two operands.
pub uninterp spec fn div_bits(a: u32, b: u32) -> u32;

/// The bits of the IEEE binary32 square root of a bit pattern, rounded to
/// nearest, ties to even. A pure function of the operand.
pub uninterp spec fn sqrt_bits(a: u32) -> u32;

/// IEEE subtraction is addition of the negated second operand.
pub open spec fn sub_bits(a: u32, b: u32) -> u32 {
    add_bits(a, neg_bits(b))
}

/// Relies on `const_soft_float::soft_f32::SoftF32::add`: IEEE 754 binary32
/// addition of the operand bit patterns (round to nearest, ties to even),
/// computed in plain integer code from the operands alone.
#[verifier::external_body]
pub(crate) fn fp_add(a: u32, b: u32) -> (r: u32)
    ensures
        r == add_bits(a, b),
{
    const_soft_float::soft_f32::SoftF32::from_bits(a)
        .add(const_soft_float::soft_f32::SoftF32::from_bits(b))
        .to_bits()
}

/// Relies on `const_soft_float::soft_f32::SoftF32::mul`: IEEE 754 binary32
/// multiplication of the operand bit patterns (round to nearest, ties to
/// even), computed in plain integer code from the operands alone.
#[verifier::external_body]
pub(crate) fn fp_mul(a: u32, b: u32) -> (r: u32)
    ensures
        r == mul_bits(a, b),
{
    const_soft_float::soft_f32::SoftF32::from_bits(a)
        .mul(const_soft_float::soft_f32::SoftF32::from_bits(b))
        .to_bits()
}

/// Relies on `const_soft_float::soft_f32::SoftF32::div`: IEEE 754 binary32
/// division of the operand bit patterns (round to nearest, ties to even),
/// computed in plain integer code from the operands alone.
#[verifier::external_body]
pub(crate) fn fp_div(a: u32, b: u32) -> (r: u32)
    ensures
        r == div_bits(a, b),
{
    const_soft_float::soft_f32::SoftF32::from_bits(a)
        .div(const_soft_float::soft_f32::SoftF32::from_bits(b))
        .to_bits()
}

/// Relies on `const_soft_float::soft_f32::SoftF32::sqrt`: IEEE 754 binary32
/// square root of the operand bit pattern (round to nearest, ties to even),
/// computed in plain integer code from the operand alone.
#[verifier::external_body]
pub(crate) fn fp_sqrt(a: u32) -> (r: u32)
    ensures
        r == sqrt_bits(a),
{
    const_soft_float::soft_f32::SoftF32::from_bits(a).sqrt().to_bits()
}

/// IEEE negation, as the sign-bit flip it is defined to be.
pub(crate) fn fp_neg(a: u32) -> (r: u32)
    ensures
        r == neg_bits(a),
{
    a ^ SIGN_MASK
}

/// IEEE absolute value, as the sign-bit clear it is defined to be.
pub(crate) fn fp_abs(a: u32) -> (r: u32)
    ensures
        r == abs_bits(a),
{
    a & ABS_MASK
}

/// IEEE subtraction, by the identity `a - b == a + (-b)`.
pub(crate) fn fp_sub(a: u32, b: u32) -> (r: u32)
    ensures
        r == sub_bits(a, b),
{
    fp_add(a, fp_neg(b))
}

fn fp_is_nan(a: u32) -> (r: bool)
    ensures
        r == is_nan_bits(a),
{
    (a & EXP_MASK) == EXP_MASK && (a & FRAC_MASK) != 0
}

/// The IEEE `<` comparison, decided on the bit patterns: any NaN compares
/// false; otherwise sign-magnitude order, with both zeroes equal.
pub(crate) fn fp_lt(a: u32, b: u32) -> (r: bool)
    ensures
        r == lt_bits(a, b),
{
    if fp_is_nan(a) || fp_is_nan(b) {
        false
    } else {
        let sa = (a & SIGN_MASK) != 0;
        let sb = (b & SIGN_MASK) != 0;
        let ma = a & ABS_MASK;
        let mb = b & ABS_MASK;
        if sa {
            if sb {
                mb < ma
            } else {
                ma != 0 || mb != 0
            }
        } else {
            if sb {
                false
            } else {
                ma < mb
            }
        }
    }
}

/// The IEEE `<=` comparison, decided on the bit patterns: any NaN compares
/// false; otherwise sign-magnitude order, with both zeroes equal.
pub(crate) fn fp_le(a: u32, b: u32) -> (r: bool)
    ensures
        r == le_bits(a, b),
{
    if fp_is_nan(a) || fp_is_nan(b) {
        false
    } else {
        let sa = (a & SIGN_MASK) != 0;
        let sb = (b & SIGN_MASK) != 0;
        let ma = a & ABS_MASK;
        let mb = b & ABS_MASK;
        if sa {
            if sb {
                mb <= ma
            } else {
                true
            }
        } else {
            if sb {
                ma == 0 && mb == 0
            } else {
                ma <= mb
            }
        }
    }
}

/// The `minNum` minimum, matching `min_bits`.
pub(crate) fn fp_min(a: u32, b: u32) -> (r: u32)
    ensures
        r == min_bits(a, b),
{
    if fp_is_nan(a) {
        b
    } else if fp_is_nan(b) {
        a
    } else if fp_lt(b, a) {
        b
    } else {
        a
    }
}

/// The `maxNum` maximum, matching `max_bits`.
pub(crate) fn fp_max(a: u32, b: u32) -> (r: u32)
    ensures
        r == max_bits(a, b),
{
    if fp_is_nan(a) {
        b
    } else if fp_is_nan(b) {
        a
    } else if fp_lt(a, b) {
        b
    } else {
        a
    }
}

} // verus!
