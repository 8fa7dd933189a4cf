//! The thresholds of the prefixes are the powers of a thousand, as far as
//! the binary64 format has them.

use crate::binary64::{
    lemma_magnitude_near_fraction, lemma_magnitude_of_multiple, nearest_to_power_of_ten,
};
use crate::si::SiPrefix;
use vstd::arithmetic::power::pow;
use vstd::arithmetic::power2::{lemma2_to64, lemma2_to64_rest, lemma_pow2_adds, pow2};
use vstd::prelude::*;

verus! {

/// The powers of ten up to the twenty-fourth that the prefixes stand for.
proof fn lemma_powers_of_ten()
    ensures
        pow(10, 0) == 1,
        pow(10, 3) == 1_000,
        pow(10, 6) == 1_000_000,
        pow(10, 9) == 1_000_000_000,
        pow(10, 12) == 1_000_000_000_000,
        pow(10, 15) == 1_000_000_000_000_000,
        pow(10, 18) == 1_000_000_000_000_000_000,
        pow(10, 21) == 1_000_000_000_000_000_000_000,
        pow(10, 24) == 1_000_000_000_000_000_000_000_000,
{
    reveal_with_fuel(pow, 25);
}

/// The powers of two by which the thresholds below one are scaled.
proof fn lemma_powers_of_two()
    ensures
        pow2(72) == 0x100_0000_0000_0000_0000,
        pow2(82) == 0x4_0000_0000_0000_0000_0000,
        pow2(92) == 0x1000_0000_0000_0000_0000_0000,
        pow2(102) == 0x40_0000_0000_0000_0000_0000_0000,
        pow2(112) == 0x1_0000_0000_0000_0000_0000_0000_0000,
        pow2(122) == 0x400_0000_0000_0000_0000_0000_0000_0000,
        pow2(132) == 0x10_0000_0000_0000_0000_0000_0000_0000_0000,
{
    lemma2_to64();
    lemma2_to64_rest();
    lemma_pow2_adds(64, 8);
    lemma_pow2_adds(64, 18);
    lemma_pow2_adds(64, 28);
    lemma_pow2_adds(64, 38);
    lemma_pow2_adds(64, 48);
    lemma_pow2_adds(64, 58);
    lemma_pow2_adds(64, 64);
    lemma_pow2_adds(128, 4);
}

/// From tera down to the unit the threshold of a prefix is its power of ten;
/// below the unit, where the format has no such number, it is the number of
/// the format nearest to that power.
pub proof fn lemma_threshold_is_power_of_ten(p: SiPrefix)
    ensures
        nearest_to_power_of_ten(p.spec_threshold(), p.exponent()),
{
    let t = p.spec_threshold();
    lemma_powers_of_ten();
    lemma_powers_of_two();
    lemma2_to64();
    lemma2_to64_rest();
    match p {
        SiPrefix::Tera => lemma_magnitude_of_multiple(t, pow(10, 12), 13),
        SiPrefix::Giga => lemma_magnitude_of_multiple(t, pow(10, 9), 23),
        SiPrefix::Mega => lemma_magnitude_of_multiple(t, pow(10, 6), 33),
        SiPrefix::Kilo => lemma_magnitude_of_multiple(t, pow(10, 3), 43),
        SiPrefix::Unit => lemma_magnitude_of_multiple(t, pow(10, 0), 52),
        SiPrefix::Milli => lemma_magnitude_near_fraction(t, pow(10, 3), 62),
        SiPrefix::Micro => lemma_magnitude_near_fraction(t, pow(10, 6), 72),
        SiPrefix::Nano => lemma_magnitude_near_fraction(t, pow(10, 9), 82),
        SiPrefix::Pico => lemma_magnitude_near_fraction(t, pow(10, 12), 92),
        SiPrefix::Femto => lemma_magnitude_near_fraction(t, pow(10, 15), 102),
        SiPrefix::Atto => lemma_magnitude_near_fraction(t, pow(10, 18), 112),
        SiPrefix::Zepto => lemma_magnitude_near_fraction(t, pow(10, 21), 122),
        SiPrefix::Yocto => lemma_magnitude_near_fraction(t, pow(10, 24), 132),
    }
}

} // verus!
