//! The crate's trusted boundary: primitive IEEE 754 binary64 arithmetic.
//!
//! Fractional quantities are carried everywhere in this crate as the bit
//! patterns of IEEE 754 binary64 values, held in `u64` words.  The primitive
//! operations on those bit patterns — add, subtract, multiply, divide,
//! compare, and the conversions between integers and bit patterns — are
//! delegated to `rustc_apfloat`, a software implementation of IEEE 754
//! arithmetic whose results depend on its arguments alone.  Each operation's
//! result is given a name by an uninterpreted spec function, and every
//! contract above this module speaks of those names exactly.
//!
//! All rounded operations use the IEEE 754 default rounding direction,
//! round to nearest with ties to even.

use vstd::prelude::*;

use rustc_apfloat::Float;
use rustc_apfloat::Round;
use rustc_apfloat::Status;
use rustc_apfloat::ieee::Double;

verus! {

/// The binary64 bit pattern of the sum of the two binary64 values `a` and `b`.
pub uninterp spec fn add_bits(a: u64, b: u64) -> u64;

/// The binary64 bit pattern of the difference of the binary64 values `a` and `b`.
pub uninterp spec fn sub_bits(a: u64, b: u64) -> u64;

/// The binary64 bit pattern of the product of the binary64 values `a` and `b`.
pub uninterp spec fn mul_bits(a: u64, b: u64) -> u64;

/// The binary64 bit pattern of the quotient of the binary64 values `a` and `b`.
pub uninterp spec fn div_bits(a: u64, b: u64) -> u64;

/// Whether the binary64 value of `a` compares strictly greater than that of
/// `b` (false whenever either is a NaN).
pub uninterp spec fn gt_bits(a: u64, b: u64) -> bool;

/// The binary64 bit pattern nearest to the signed integer `t`.
pub uninterp spec fn bits_of_ticks(t: i64) -> u64;

/// The binary64 value of `a` truncated toward zero to an unsigned 64-bit
/// integer; `None` when the value is a NaN or falls outside the range of
/// `u64`.
pub uninterp spec fn trunc_bits(a: u64) -> Option<u64>;

/// Bit pattern of zero.
pub const BITS_ZERO: u64 = 0;

/// Bit pattern of one.
pub const BITS_ONE: u64 = 0x3FF0_0000_0000_0000;

/// Bit pattern of one half.
pub const BITS_HALF: u64 = 0x3FE0_0000_0000_0000;

/// Bit pattern of two.
pub const BITS_TWO: u64 = 0x4000_0000_0000_0000;

/// Bit pattern of three.
pub const BITS_THREE: u64 = 0x4008_0000_0000_0000;

/// Bit pattern of six.
pub const BITS_SIX: u64 = 0x4018_0000_0000_0000;

/// Bit pattern of eight.
pub const BITS_EIGHT: u64 = 0x4020_0000_0000_0000;

/// Bit pattern of twenty.
pub const BITS_TWENTY: u64 = 0x4034_0000_0000_0000;

/// Whether a word is the binary64 bit pattern of a value strictly greater
/// than zero: the sign bit is clear, the word is not zero, and the word does
/// not lie in the NaN band above positive infinity.
pub open spec fn is_positive_bits(b: u64) -> bool {
    1 <= b <= 0x7FF0_0000_0000_0000
}

/// Relies on `rustc_apfloat`: `Float::add_r` on `ieee::Double` is IEEE 754
/// binary64 addition of the two bit patterns, rounded to nearest ties to even.
#[verifier::external_body]
pub(crate) fn fp_add(a: u64, b: u64) -> (r: u64)
    ensures
        r == add_bits(a, b),
{
    let x = Double::from_bits(a as u128);
    let y = Double::from_bits(b as u128);
    x.add_r(y, Round::NearestTiesToEven).value.to_bits() as u64
}

/// Relies on `rustc_apfloat`: `Float::sub_r` on `ieee::Double` is IEEE 754
/// binary64 subtraction of the two bit patterns, rounded to nearest ties to
/// even.
#[verifier::external_body]
pub(crate) fn fp_sub(a: u64, b: u64) -> (r: u64)
    ensures
        r == sub_bits(a, b),
{
    let x = Double::from_bits(a as u128);
    let y = Double::from_bits(b as u128);
    x.sub_r(y, Round::NearestTiesToEven).value.to_bits() as u64
}

/// Relies on `rustc_apfloat`: `Float::mul_r` on `ieee::Double` is IEEE 754
/// binary64 multiplication of the two bit patterns, rounded to nearest ties
/// to even.
#[verifier::external_body]
pub(crate) fn fp_mul(a: u64, b: u64) -> (r: u64)
    ensures
        r == mul_bits(a, b),
{
    let x = Double::from_bits(a as u128);
    let y = Double::from_bits(b as u128);
    x.mul_r(y, Round::NearestTiesToEven).value.to_bits() as u64
}

/// Relies on `rustc_apfloat`: `Float::div_r` on `ieee::Double` is IEEE 754
/// binary64 division of the two bit patterns, rounded to nearest ties to
/// even.
#[verifier::external_body]
pub(crate) fn fp_div(a: u64, b: u64) -> (r: u64)
    ensures
        r == div_bits(a, b),
{
    let x = Double::from_bits(a as u128);
    let y = Double::from_bits(b as u128);
    x.div_r(y, Round::NearestTiesToEven).value.to_bits() as u64
}

/// Relies on `rustc_apfloat`: `PartialOrd::partial_cmp` on `ieee::Double` is
/// the IEEE 754 comparison of the two bit patterns, with no ordering when
/// either is a NaN.
#[verifier::external_body]
pub(crate) fn fp_gt(a: u64, b: u64) -> (r: bool)
    ensures
        r == gt_bits(a, b),
{
    let x = Double::from_bits(a as u128);
    let y = Double::from_bits(b as u128);
    match x.partial_cmp(&y) {
        Some(core::cmp::Ordering::Greater) => true,
        Some(core::cmp::Ordering::Equal) => false,
        Some(core::cmp::Ordering::Less) => false,
        None => false,
    }
}

/// Relies on `rustc_apfloat`: `Float::from_i128_r` on `ieee::Double` converts
/// a signed integer to the nearest binary64 value, rounding ties to even.
#[verifier::external_body]
pub(crate) fn fp_of_ticks(t: i64) -> (r: u64)
    ensures
        r == bits_of_ticks(t),
{
    Double::from_i128_r(t as i128, Round::NearestTiesToEven).value.to_bits() as u64
}

/// Relies on `rustc_apfloat`: `Float::to_u128_r` on `ieee::Double` truncates
/// the binary64 value toward zero into a 64-bit unsigned integer, reporting
/// an invalid operation when the value is a NaN or out of range.
#[verifier::external_body]
pub(crate) fn fp_trunc(a: u64) -> (r: Option<u64>)
    ensures
        r == trunc_bits(a),
{
    let x = Double::from_bits(a as u128);
    let mut is_exact = false;
    let out = x.to_u128_r(64, Round::TowardZero, &mut is_exact);
    if out.status.contains(Status::INVALID_OP) {
        None
    } else {
        Some(out.value as u64)
    }
}

} // verus!
