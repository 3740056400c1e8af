//! Sample rates and sampling draws, held as bit patterns.
//!
//! A rate or a draw is an IEEE-754 binary32 number. The library never
//! computes with such numbers: it only orders them, and the order can be
//! read off the bit pattern. The highest bit is the sign, the other 31 bits
//! are the magnitude, and among numbers that are not NaN a larger magnitude
//! is further from zero.

use vstd::prelude::*;

verus! {

/// Bit pattern of the number 0.
pub const ZERO: u32 = 0;

/// Bit pattern of the number 1.
pub const ONE: u32 = 0x3f80_0000;

/// Lowest bit pattern with the sign bit set.
pub const SIGN: u32 = 0x8000_0000;

/// Bit pattern of positive infinity: every larger magnitude is a NaN.
pub const INFINITY: u32 = 0x7f80_0000;

/// Priority of a trace that the sampler rejected.
pub const AUTO_REJECT: u32 = 0;

/// Priority of a trace that the sampler kept.
pub const AUTO_KEEP: u32 = 1;

/// The bit pattern without its sign bit.
pub open spec fn magnitude(bits: u32) -> int {
    if bits >= SIGN {
        bits - SIGN
    } else {
        bits as int
    }
}

/// Whether the bit pattern is a NaN.
pub open spec fn is_nan(bits: u32) -> bool {
    magnitude(bits) > INFINITY
}

/// An integer that orders the numbers which are not NaN as the numbers
/// themselves are ordered. Both zeros map to 0.
pub open spec fn order_key(bits: u32) -> int {
    if bits >= SIGN {
        -magnitude(bits)
    } else {
        magnitude(bits)
    }
}

/// `a < b` as numbers: false when either is a NaN.
pub open spec fn less(a: u32, b: u32) -> bool {
    !is_nan(a) && !is_nan(b) && order_key(a) < order_key(b)
}

/// Whether the bit pattern is a number of the half-open interval from 0 to
/// 1, the range of a uniform draw.
pub open spec fn is_unit_draw(bits: u32) -> bool {
    bits < ONE
}

/// The sampling decision: a trace is rejected when the draw is greater than
/// the rate, and kept otherwise.
pub open spec fn decision(rate: u32, draw: u32) -> u32 {
    if less(rate, draw) {
        AUTO_REJECT
    } else {
        AUTO_KEEP
    }
}

fn key_of(bits: u32) -> (key: i64)
    ensures
        key == order_key(bits),
{
    if bits >= SIGN {
        let m: u32 = bits - SIGN;
        -(m as i64)
    } else {
        bits as i64
    }
}

fn nan(bits: u32) -> (yes: bool)
    ensures
        yes == is_nan(bits),
{
    let m: u32 = if bits >= SIGN {
        bits - SIGN
    } else {
        bits
    };
    m > INFINITY
}

/// Compares two bit patterns as the numbers they stand for.
pub fn is_less(a: u32, b: u32) -> (yes: bool)
    ensures
        yes == less(a, b),
{
    !nan(a) && !nan(b) && key_of(a) < key_of(b)
}

/// Decides whether to keep a trace, given the sample rate and one draw.
pub fn decide(rate: u32, draw: u32) -> (priority: u32)
    ensures
        priority == decision(rate, draw),
{
    if is_less(rate, draw) {
        AUTO_REJECT
    } else {
        AUTO_KEEP
    }
}

/// With a rate of 0, every draw from the unit interval other than 0 itself
/// is rejected.
pub proof fn rate_zero_rejects(draw: u32)
    requires
        is_unit_draw(draw),
        draw != ZERO,
    ensures
        decision(ZERO, draw) == AUTO_REJECT,
{
}

/// With a rate of 1, every draw from the unit interval is kept.
pub proof fn rate_one_keeps(draw: u32)
    requires
        is_unit_draw(draw),
    ensures
        decision(ONE, draw) == AUTO_KEEP,
{
}

/// A draw is kept exactly when it is at most the rate, for a rate between 0
/// and 1 and a draw from the unit interval.
pub proof fn keeps_up_to_rate(rate: u32, draw: u32)
    requires
        rate <= ONE,
        is_unit_draw(draw),
    ensures
        decision(rate, draw) == AUTO_KEEP <==> draw <= rate,
{
}

} // verus!
