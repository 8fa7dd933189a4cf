//! The binary64 interchange format, read as 64-bit patterns.
//!
//! A pattern has a sign bit, eleven exponent bits and fifty-two fraction
//! bits. Magnitudes are counted in quanta: one quantum is 2^-1074, the
//! least positive number of the format, so that every finite magnitude is a
//! natural number.

use vstd::arithmetic::power::pow;
use vstd::arithmetic::power2::{
    lemma2_to64, lemma_pow2_adds, lemma_pow2_pos, lemma_pow2_strictly_increases,
    lemma_pow2_unfold, pow2,
};
use vstd::prelude::*;

verus! {

/// The sign bit.
pub const SIGN: u64 = 0x8000_0000_0000_0000;

/// Every bit but the sign bit.
pub const MAGNITUDE_MASK: u64 = 0x7fff_ffff_ffff_ffff;

/// The pattern of positive infinity: all exponent bits, no fraction bit.
pub const INFINITY: u64 = 0x7ff0_0000_0000_0000;

/// The lowest exponent bit, 2^52. In a normal number it also stands for the
/// leading one of the significand, which the pattern does not store.
pub const HIDDEN_BIT: u64 = 0x0010_0000_0000_0000;

/// The pattern with its sign bit cleared.
pub open spec fn abs_bits(bits: u64) -> u64 {
    (bits % SIGN) as u64
}

/// Whether the sign bit is set.
pub open spec fn sign_bit(bits: u64) -> bool {
    bits >= SIGN
}

/// The eleven exponent bits, as a number below 2048.
pub open spec fn exponent_field(bits: u64) -> nat {
    (abs_bits(bits) / HIDDEN_BIT) as nat
}

/// The fifty-two fraction bits, as a number below 2^52.
pub open spec fn fraction_field(bits: u64) -> nat {
    (bits % HIDDEN_BIT) as nat
}

/// The significand as a whole number: the fraction bits, led by a one
/// unless the number is subnormal.
pub open spec fn significand(bits: u64) -> nat {
    if exponent_field(bits) == 0 {
        fraction_field(bits)
    } else {
        HIDDEN_BIT as nat + fraction_field(bits)
    }
}

/// The power of two by which the significand is scaled to give quanta.
pub open spec fn scale(bits: u64) -> nat {
    if exponent_field(bits) == 0 {
        0
    } else {
        (exponent_field(bits) - 1) as nat
    }
}

/// The magnitude in quanta that the exponent and fraction bits stand for.
/// Meaningful where the pattern is finite.
pub open spec fn magnitude(bits: u64) -> nat {
    significand(bits) * pow2(scale(bits))
}

/// The distance in quanta from a finite magnitude to the next one above it.
pub open spec fn spacing(bits: u64) -> nat {
    pow2(scale(bits))
}

/// The number one in quanta.
pub open spec fn one() -> nat {
    pow2(1074)
}

/// What a pattern stands for.
pub enum Value {
    /// Zero, a subnormal or a normal number, with its magnitude in quanta.
    Finite { negative: bool, magnitude: nat },
    /// Positive or negative infinity.
    Infinite { negative: bool },
    /// Not a number.
    NaN,
}

/// The value of a pattern.
pub open spec fn value(bits: u64) -> Value {
    if abs_bits(bits) > INFINITY {
        Value::NaN
    } else if abs_bits(bits) == INFINITY {
        Value::Infinite { negative: sign_bit(bits) }
    } else {
        Value::Finite { negative: sign_bit(bits), magnitude: magnitude(bits) }
    }
}

/// `|a| >= b` as the format orders its values: false where either side is
/// not a number, and the two zeros equal.
pub open spec fn abs_at_least(a: Value, b: Value) -> bool {
    match (a, b) {
        (Value::NaN, _) => false,
        (_, Value::NaN) => false,
        (_, Value::Infinite { negative: true }) => true,
        (_, Value::Finite { negative: true, .. }) => true,
        (Value::Infinite { .. }, _) => true,
        (Value::Finite { .. }, Value::Infinite { negative: false }) => false,
        (Value::Finite { magnitude: m, .. }, Value::Finite { negative: false, magnitude: n }) => m
            >= n,
    }
}

/// Whether the pattern stands for ten to the `k`. From zero up this is meant
/// exactly. A negative power of ten is no number of the format, and the
/// pattern is then to be the nearest one: a normal number with a fraction,
/// so that its neighbours lie one spacing off on either side, and less than
/// half a spacing away from the power.
pub open spec fn nearest_to_power_of_ten(bits: u64, k: int) -> bool {
    &&& bits < INFINITY
    &&& if k >= 0 {
        magnitude(bits) == pow(10, k as nat) * one()
    } else {
        let divisor = pow(10, (-k) as nat);
        &&& exponent_field(bits) > 0
        &&& fraction_field(bits) > 0
        &&& -(spacing(bits) * divisor) < 2 * (magnitude(bits) * divisor - one()) < spacing(bits)
            * divisor
    }
}

/// Among finite patterns without a sign, a lower exponent field means a
/// lower magnitude, whatever the fractions.
proof fn lemma_magnitude_below_next_exponent(a: u64, b: u64)
    requires
        a < INFINITY,
        b < INFINITY,
        exponent_field(a) < exponent_field(b),
    ensures
        magnitude(a) < magnitude(b),
{
    let h = HIDDEN_BIT as int;
    let sa = significand(a) as int;
    let sb = significand(b) as int;
    let pa = pow2(scale(a)) as int;
    let pb = pow2(scale(b)) as int;
    lemma_pow2_pos(scale(a));
    lemma_pow2_pos(scale(b));
    // The unit of `b` is at least twice the unit of `a`, unless `a` is
    // subnormal and lies below the hidden bit anyway.
    if exponent_field(a) == 0 {
        lemma2_to64();
        assert(sa * pa < h * pb) by (nonlinear_arith)
            requires
                0 <= sa < h,
                pa == 1,
                1 <= pb,
        ;
    } else {
        lemma_pow2_unfold(scale(a) + 1);
        if scale(a) + 1 < scale(b) {
            lemma_pow2_strictly_increases(scale(a) + 1, scale(b));
        }
        assert(sa * pa < h * pb) by (nonlinear_arith)
            requires
                0 <= sa < 2 * h,
                0 < pa,
                2 * pa <= pb,
        ;
    }
    assert(h * pb <= sb * pb) by (nonlinear_arith)
        requires
            h <= sb,
            0 < pb,
    ;
}

/// Finite patterns without a sign are ordered as their magnitudes are.
proof fn lemma_magnitude_strictly_increases(a: u64, b: u64)
    requires
        a < b,
        b < INFINITY,
    ensures
        magnitude(a) < magnitude(b),
{
    if exponent_field(a) < exponent_field(b) {
        lemma_magnitude_below_next_exponent(a, b);
    } else {
        let sa = significand(a) as int;
        let sb = significand(b) as int;
        let p = pow2(scale(a)) as int;
        lemma_pow2_pos(scale(a));
        assert(sa * p < sb * p) by (nonlinear_arith)
            requires
                sa < sb,
                0 < p,
        ;
    }
}

/// The order of finite patterns without a sign is the order of the
/// magnitudes they stand for.
pub proof fn lemma_magnitude_order(a: u64, b: u64)
    requires
        a < INFINITY,
        b < INFINITY,
    ensures
        a <= b <==> magnitude(a) <= magnitude(b),
        a == b <==> magnitude(a) == magnitude(b),
{
    if a < b {
        lemma_magnitude_strictly_increases(a, b);
    } else if b < a {
        lemma_magnitude_strictly_increases(b, a);
    }
}

/// Clearing the sign bit changes neither field, so the magnitude stays.
pub proof fn lemma_magnitude_ignores_sign(bits: u64)
    ensures
        abs_bits(abs_bits(bits)) == abs_bits(bits),
        exponent_field(abs_bits(bits)) == exponent_field(bits),
        fraction_field(abs_bits(bits)) == fraction_field(bits),
        magnitude(abs_bits(bits)) == magnitude(bits),
{
    assert((bits % 0x8000_0000_0000_0000) % 0x0010_0000_0000_0000 == bits % 0x0010_0000_0000_0000)
        by (bit_vector);
}

/// Where the significand of a normal pattern is `power` times two to the
/// `shift`, and `shift` is what the exponent field lacks to 1075, the pattern
/// stands for `power`.
pub(crate) proof fn lemma_magnitude_of_multiple(bits: u64, power: int, shift: nat)
    requires
        exponent_field(bits) > 0,
        exponent_field(bits) + shift == 1075,
        significand(bits) == power * pow2(shift),
    ensures
        magnitude(bits) == power * one(),
{
    lemma_pow2_adds(shift, scale(bits));
    let p = pow2(scale(bits)) as int;
    let s = pow2(shift) as int;
    assert((power * s) * p == power * (s * p)) by (nonlinear_arith);
}

/// Where the significand of a normal pattern, taken `divisor` times, is less
/// than half of `divisor` away from two to the `shift`, and `shift` is what
/// the exponent field lacks to 1075, the pattern stands for a number less
/// than half a spacing away from one `divisor`-th.
pub(crate) proof fn lemma_magnitude_near_fraction(bits: u64, divisor: int, shift: nat)
    requires
        exponent_field(bits) > 0,
        exponent_field(bits) + shift == 1075,
        -divisor < 2 * (significand(bits) * divisor - pow2(shift)) < divisor,
    ensures
        -(spacing(bits) * divisor) < 2 * (magnitude(bits) * divisor - one()) < spacing(bits)
            * divisor,
{
    lemma_pow2_adds(shift, scale(bits));
    lemma_pow2_pos(scale(bits));
    let p = pow2(scale(bits)) as int;
    let s = pow2(shift) as int;
    let m = significand(bits) as int;
    let off = m * divisor - s;
    assert((m * p) * divisor - s * p == off * p) by (nonlinear_arith)
        requires
            off == m * divisor - s,
    ;
    assert(-(p * divisor) < 2 * (off * p) < p * divisor) by (nonlinear_arith)
        requires
            -divisor < 2 * off < divisor,
            0 < p,
    ;
}

/// Whether the number with pattern `bits` is in absolute value at least the
/// number with pattern `threshold`. Only the exponent and fraction bits of
/// `bits` are compared, as unsigned numbers, once neither side is found to
/// be not-a-number and the threshold is found not to be negative.
pub fn abs_reaches(bits: u64, threshold: u64) -> (r: bool)
    ensures
        r == abs_at_least(value(bits), value(threshold)),
{
    let m: u64 = bits & MAGNITUDE_MASK;
    let t: u64 = threshold & MAGNITUDE_MASK;
    proof {
        assert(bits & 0x7fff_ffff_ffff_ffff == bits % 0x8000_0000_0000_0000) by (bit_vector);
        assert(threshold & 0x7fff_ffff_ffff_ffff == threshold % 0x8000_0000_0000_0000)
            by (bit_vector);
        lemma_magnitude_ignores_sign(bits);
        if m < INFINITY && threshold < INFINITY {
            lemma_magnitude_order(m, threshold);
        }
    }
    if m > INFINITY || t > INFINITY {
        false
    } else if threshold >= SIGN {
        true
    } else {
        m >= threshold
    }
}

} // verus!
