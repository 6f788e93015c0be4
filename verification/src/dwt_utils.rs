//! Wraparound-safe arithmetic on the hardware tick counter.
//!
//! The radio hardware counts time in device ticks on a counter that is
//! significant to 40 bits and wraps modulo 2^40, while the value itself is
//! carried in a 64-bit word.  The one numerically delicate operation is the
//! signed difference of two such counter values: it must recover the true
//! elapsed tick count even when the counter wrapped between the two samples.

use vstd::prelude::*;

use crate::fp::bits_of_ticks;
use crate::fp::div_bits;
use crate::fp::fp_div;
use crate::fp::fp_mul;
use crate::fp::fp_of_ticks;
use crate::fp::fp_trunc;
use crate::fp::mul_bits;
use crate::fp::trunc_bits;

verus! {

/// A raw device tick counter value.  The hardware counts modulo 2^40; the
/// value is stored in a wider unsigned word.
pub type Timestamp = u64;

/// A signed elapsed-tick quantity between two `Timestamp`s.
pub type TimestampDiff = i64;

/// Modulus of the hardware tick counter: 2^40.
pub const TICKS_MODULUS: u64 = 0x100_0000_0000;

/// Half the counter modulus: 2^39.  Unwrapped differences are re-centered
/// into the signed range [-2^39, 2^39).
pub const TICKS_HALF_MODULUS: u64 = 0x80_0000_0000;

/// The signed value that a 64-bit word denotes in two's complement.
pub open spec fn as_signed_64(w: u64) -> int {
    if w >= 0x8000_0000_0000_0000 {
        w - 0x1_0000_0000_0000_0000
    } else {
        w as int
    }
}

/// The wraparound-corrected difference `t1 - t2`: subtract modulo 2^64, read
/// the result as a signed word, then re-center by one counter modulus when it
/// falls outside [-2^39, 2^39).
pub open spec fn wrapped_diff(t1: u64, t2: u64) -> int {
    let d0 = as_signed_64(vstd::wrapping::u64_specs::wrapping_sub(t1, t2));
    let d1 = if d0 >= TICKS_HALF_MODULUS { d0 - TICKS_MODULUS } else { d0 };
    if d1 < -(TICKS_HALF_MODULUS as int) {
        d1 + TICKS_MODULUS
    } else {
        d1
    }
}

/// Signed elapsed ticks `t1 - t2` over the wrapping 40-bit counter.
///
/// For counter values in range, the result is the unique representative of
/// `t1 - t2` modulo 2^40 that lies in [-2^39, 2^39): callers never need to
/// know whether the counter wrapped between the two samples, provided the
/// true elapsed time is less than half the counter period.
pub fn dwt_time_diff(t1: Timestamp, t2: Timestamp) -> (r: TimestampDiff)
    ensures
        r == wrapped_diff(t1, t2),
        t1 <= TICKS_MODULUS && t2 <= TICKS_MODULUS ==> {
            &&& -(TICKS_HALF_MODULUS as int) <= r < TICKS_HALF_MODULUS as int
            &&& (r - (t1 - t2)) % (TICKS_MODULUS as int) == 0
        },
{
    let w: u64 = t1.wrapping_sub(t2);
    let mut dt: i64 = #[verifier::truncate] (w as i64);
    proof {
        assert(w < 0x8000_0000_0000_0000 ==> (#[verifier::truncate] (w as i64)) as i128 == w
            as i128) by (bit_vector);
        assert(w >= 0x8000_0000_0000_0000 ==> (#[verifier::truncate] (w as i64)) as i128 == (w
            as i128) - 0x1_0000_0000_0000_0000i128) by (bit_vector);
        assert(dt == as_signed_64(w));
    }
    if dt >= 0x80_0000_0000i64 {
        dt = dt - 0x100_0000_0000i64;
    }
    if dt < -0x80_0000_0000i64 {
        dt = dt + 0x100_0000_0000i64;
    }
    proof {
        assert(dt == wrapped_diff(t1, t2));
        if t1 <= TICKS_MODULUS && t2 <= TICKS_MODULUS {
            let d: int = t1 - t2;
            assert(as_signed_64(w) == d);
            assert(dt - d == 0 || dt - d == -(TICKS_MODULUS as int) || dt - d == TICKS_MODULUS
                as int);
            assert((0int) % (TICKS_MODULUS as int) == 0);
            assert((-(TICKS_MODULUS as int)) % (TICKS_MODULUS as int) == 0);
            assert((TICKS_MODULUS as int) % (TICKS_MODULUS as int) == 0);
        }
    }
    dt
}

/// The recovery law of the wraparound arithmetic: for two counter values
/// taken within less than half the counter's period of each other — that is,
/// whenever some true signed elapsed tick count `d` with `|d|` under half the
/// modulus separates them modulo 2^40 — the wrapped difference recovers `d`
/// exactly, whether or not the counter wrapped between the two samples.
pub proof fn lemma_wrapped_diff_recovers(t1: u64, t2: u64, d: int)
    requires
        t1 < TICKS_MODULUS,
        t2 < TICKS_MODULUS,
        -(TICKS_HALF_MODULUS as int) <= d < TICKS_HALF_MODULUS as int,
        (t1 - t2 - d) % (TICKS_MODULUS as int) == 0,
    ensures
        wrapped_diff(t1, t2) == d,
{
    let m = TICKS_MODULUS as int;
    let diff = wrapped_diff(t1, t2);
    assert(-(TICKS_HALF_MODULUS as int) <= diff < TICKS_HALF_MODULUS as int);
    assert(diff - (t1 - t2) == 0 || diff - (t1 - t2) == m || diff - (t1 - t2) == -m);
    let x = t1 - t2 - d;
    let q = x / m;
    vstd::arithmetic::div_mod::lemma_fundamental_div_mod(x, m);
    assert(x == m * q);
    assert((m > 0 && q >= 2) ==> m * q >= 2 * m) by (nonlinear_arith);
    assert((m > 0 && q <= -2) ==> m * q <= -2 * m) by (nonlinear_arith);
    assert(x == 0 || x == m || x == -m);
    assert(diff - d == diff - (t1 - t2) + x);
    assert(-m < diff - d < m);
}

/// Bit pattern of the device tick rate per microsecond: 2496/5 * 128, the
/// hardware's 2496/5 MHz base frequency times its 128-fold fine counter.
pub const TICKS_PER_US_BITS: u64 = 0x40EF_3333_3333_3333;

/// Bit pattern of the tick count per UWB microsecond: 65536.
pub const TICKS_PER_UUS_BITS: u64 = 0x40F0_0000_0000_0000;

/// Bit pattern of the UWB-microsecond to microsecond ratio: 40/39
/// (one UWB microsecond is 512/(2496/5) plain microseconds).
pub const UUS_TO_US_BITS: u64 = 0x3FF0_6906_9069_0691;

/// Bit pattern of the microsecond to UWB-microsecond ratio: 39/40.
pub const US_TO_UUS_BITS: u64 = 0x3FEF_3333_3333_3333;

/// Bit pattern of one millionth, the scale from microseconds to seconds.
pub const MICRO_BITS: u64 = 0x3EB0_C6F7_A0B5_ED8D;

/// UWB microseconds to plain microseconds, as binary64 bit patterns:
/// multiply by 40/39.
pub fn dwt_uus_to_us(uus: u64) -> (r: u64)
    ensures
        r == mul_bits(uus, UUS_TO_US_BITS),
{
    fp_mul(uus, UUS_TO_US_BITS)
}

/// Plain microseconds to UWB microseconds, as binary64 bit patterns:
/// multiply by 39/40.
pub fn dwt_us_to_uus(us: u64) -> (r: u64)
    ensures
        r == mul_bits(us, US_TO_UUS_BITS),
{
    fp_mul(us, US_TO_UUS_BITS)
}

/// UWB microseconds (a binary64 bit pattern) to whole device ticks, truncated
/// toward zero; `None` when the scaled value cannot be represented as an
/// unsigned tick count.
pub fn dwt_uus_to_ticks(uus: u64) -> (r: Option<u64>)
    ensures
        r == trunc_bits(mul_bits(uus, TICKS_PER_UUS_BITS)),
{
    fp_trunc(fp_mul(uus, TICKS_PER_UUS_BITS))
}

/// Whole device ticks to UWB microseconds, as a binary64 bit pattern.
pub fn dwt_ticks_to_uus(ticks: i64) -> (r: u64)
    ensures
        r == div_bits(bits_of_ticks(ticks), TICKS_PER_UUS_BITS),
{
    fp_div(fp_of_ticks(ticks), TICKS_PER_UUS_BITS)
}

/// Plain microseconds (a binary64 bit pattern) to whole device ticks,
/// truncated toward zero; `None` when the scaled value cannot be represented
/// as an unsigned tick count.
pub fn dwt_us_to_ticks(us: u64) -> (r: Option<u64>)
    ensures
        r == trunc_bits(mul_bits(us, TICKS_PER_US_BITS)),
{
    fp_trunc(fp_mul(us, TICKS_PER_US_BITS))
}

/// Whole device ticks to plain microseconds, as a binary64 bit pattern.
pub fn dwt_ticks_to_us(ticks: i64) -> (r: u64)
    ensures
        r == div_bits(bits_of_ticks(ticks), TICKS_PER_US_BITS),
{
    fp_div(fp_of_ticks(ticks), TICKS_PER_US_BITS)
}

} // verus!
