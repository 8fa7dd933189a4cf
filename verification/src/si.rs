//! The SI prefixes from tera down to yocto, and the choice among them.
//!
//! Each prefix has a threshold, the binary64 number nearest to its power of
//! ten. A quantity is shown with the first prefix, from tera down, whose
//! threshold its absolute value reaches; that threshold is also what the
//! quantity is divided by. A quantity that reaches no threshold (zero,
//! anything below the yocto threshold, not-a-number) is shown as it is.

use crate::binary64::{
    abs_at_least, abs_bits, abs_reaches, lemma_magnitude_ignores_sign, lemma_magnitude_order,
    magnitude, value, INFINITY,
};
use vstd::prelude::*;

verus! {

/// The pattern of 1e12.
pub const TERA: u64 = 0x426d_1a94_a200_0000;

/// The pattern of 1e9.
pub const GIGA: u64 = 0x41cd_cd65_0000_0000;

/// The pattern of 1e6.
pub const MEGA: u64 = 0x412e_8480_0000_0000;

/// The pattern of 1e3.
pub const KILO: u64 = 0x408f_4000_0000_0000;

/// The pattern of 1.
pub const UNIT: u64 = 0x3ff0_0000_0000_0000;

/// The pattern of 1e-3.
pub const MILLI: u64 = 0x3f50_624d_d2f1_a9fc;

/// The pattern of 1e-6.
pub const MICRO: u64 = 0x3eb0_c6f7_a0b5_ed8d;

/// The pattern of 1e-9.
pub const NANO: u64 = 0x3e11_2e0b_e826_d695;

/// The pattern of 1e-12.
pub const PICO: u64 = 0x3d71_9799_812d_ea11;

/// The pattern of 1e-15.
pub const FEMTO: u64 = 0x3cd2_03af_9ee7_5616;

/// The pattern of 1e-18.
pub const ATTO: u64 = 0x3c32_725d_d1d2_43ac;

/// The pattern of 1e-21.
pub const ZEPTO: u64 = 0x3b92_e3b4_0a0e_9b4f;

/// The pattern of 1e-24.
pub const YOCTO: u64 = 0x3af3_57c2_99a8_8ea7;

/// The number of prefixes.
pub const LADDER_LEN: usize = 13;

/// A power of a thousand with its SI name. `Unit` is the zeroth power, which
/// has no symbol.
#[derive(Clone, Copy, Debug, PartialEq, Eq, Structural)]
pub enum SiPrefix {
    Tera,
    Giga,
    Mega,
    Kilo,
    Unit,
    Milli,
    Micro,
    Nano,
    Pico,
    Femto,
    Atto,
    Zepto,
    Yocto,
}

impl SiPrefix {
    /// The place in the ladder: 0 for tera, 12 for yocto.
    pub open spec fn rank(self) -> nat {
        match self {
            SiPrefix::Tera => 0,
            SiPrefix::Giga => 1,
            SiPrefix::Mega => 2,
            SiPrefix::Kilo => 3,
            SiPrefix::Unit => 4,
            SiPrefix::Milli => 5,
            SiPrefix::Micro => 6,
            SiPrefix::Nano => 7,
            SiPrefix::Pico => 8,
            SiPrefix::Femto => 9,
            SiPrefix::Atto => 10,
            SiPrefix::Zepto => 11,
            SiPrefix::Yocto => 12,
        }
    }

    /// The power of ten that the prefix stands for: 12 for tera, -24 for
    /// yocto.
    pub open spec fn exponent(self) -> int {
        12 - 3 * self.rank()
    }

    /// The prefix at a place in the ladder, if the ladder has that place.
    pub open spec fn spec_at(rank: nat) -> Option<SiPrefix> {
        if rank == 0 {
            Some(SiPrefix::Tera)
        } else if rank == 1 {
            Some(SiPrefix::Giga)
        } else if rank == 2 {
            Some(SiPrefix::Mega)
        } else if rank == 3 {
            Some(SiPrefix::Kilo)
        } else if rank == 4 {
            Some(SiPrefix::Unit)
        } else if rank == 5 {
            Some(SiPrefix::Milli)
        } else if rank == 6 {
            Some(SiPrefix::Micro)
        } else if rank == 7 {
            Some(SiPrefix::Nano)
        } else if rank == 8 {
            Some(SiPrefix::Pico)
        } else if rank == 9 {
            Some(SiPrefix::Femto)
        } else if rank == 10 {
            Some(SiPrefix::Atto)
        } else if rank == 11 {
            Some(SiPrefix::Zepto)
        } else if rank == 12 {
            Some(SiPrefix::Yocto)
        } else {
            None
        }
    }

    /// The prefix one place up the ladder; tera has none.
    pub open spec fn above(self) -> Option<SiPrefix> {
        if self.rank() == 0 {
            None
        } else {
            Self::spec_at((self.rank() - 1) as nat)
        }
    }

    /// The pattern of the threshold.
    pub open spec fn spec_threshold(self) -> u64 {
        match self {
            SiPrefix::Tera => TERA,
            SiPrefix::Giga => GIGA,
            SiPrefix::Mega => MEGA,
            SiPrefix::Kilo => KILO,
            SiPrefix::Unit => UNIT,
            SiPrefix::Milli => MILLI,
            SiPrefix::Micro => MICRO,
            SiPrefix::Nano => NANO,
            SiPrefix::Pico => PICO,
            SiPrefix::Femto => FEMTO,
            SiPrefix::Atto => ATTO,
            SiPrefix::Zepto => ZEPTO,
            SiPrefix::Yocto => YOCTO,
        }
    }

    /// The symbol as a sequence of characters. That of micro is the Greek
    /// small letter mu.
    pub open spec fn spec_symbol(self) -> Seq<char> {
        match self {
            SiPrefix::Tera => seq!['T'],
            SiPrefix::Giga => seq!['G'],
            SiPrefix::Mega => seq!['M'],
            SiPrefix::Kilo => seq!['k'],
            SiPrefix::Unit => Seq::empty(),
            SiPrefix::Milli => seq!['m'],
            SiPrefix::Micro => seq!['\u{3bc}'],
            SiPrefix::Nano => seq!['n'],
            SiPrefix::Pico => seq!['p'],
            SiPrefix::Femto => seq!['f'],
            SiPrefix::Atto => seq!['a'],
            SiPrefix::Zepto => seq!['z'],
            SiPrefix::Yocto => seq!['y'],
        }
    }

    /// The prefix at a place in the ladder, if the ladder has that place.
    pub fn at(rank: usize) -> (found: Option<SiPrefix>)
        ensures
            found == Self::spec_at(rank as nat),
            found is Some <==> rank < LADDER_LEN,
            found matches Some(p) ==> p.rank() == rank,
    {
        if rank == 0 {
            Some(SiPrefix::Tera)
        } else if rank == 1 {
            Some(SiPrefix::Giga)
        } else if rank == 2 {
            Some(SiPrefix::Mega)
        } else if rank == 3 {
            Some(SiPrefix::Kilo)
        } else if rank == 4 {
            Some(SiPrefix::Unit)
        } else if rank == 5 {
            Some(SiPrefix::Milli)
        } else if rank == 6 {
            Some(SiPrefix::Micro)
        } else if rank == 7 {
            Some(SiPrefix::Nano)
        } else if rank == 8 {
            Some(SiPrefix::Pico)
        } else if rank == 9 {
            Some(SiPrefix::Femto)
        } else if rank == 10 {
            Some(SiPrefix::Atto)
        } else if rank == 11 {
            Some(SiPrefix::Zepto)
        } else if rank == 12 {
            Some(SiPrefix::Yocto)
        } else {
            None
        }
    }

    /// The pattern of the threshold, which is also the divisor.
    #[verifier::when_used_as_spec(spec_threshold)]
    pub fn threshold(self) -> (pattern: u64)
        ensures
            pattern == self.spec_threshold(),
    {
        match self {
            SiPrefix::Tera => TERA,
            SiPrefix::Giga => GIGA,
            SiPrefix::Mega => MEGA,
            SiPrefix::Kilo => KILO,
            SiPrefix::Unit => UNIT,
            SiPrefix::Milli => MILLI,
            SiPrefix::Micro => MICRO,
            SiPrefix::Nano => NANO,
            SiPrefix::Pico => PICO,
            SiPrefix::Femto => FEMTO,
            SiPrefix::Atto => ATTO,
            SiPrefix::Zepto => ZEPTO,
            SiPrefix::Yocto => YOCTO,
        }
    }

    /// The symbol: one letter, or nothing for the unit.
    pub fn symbol(self) -> (text: &'static str)
        ensures
            text@ == self.spec_symbol(),
    {
        proof {
            reveal_strlit("T");
            reveal_strlit("G");
            reveal_strlit("M");
            reveal_strlit("k");
            reveal_strlit("");
            reveal_strlit("m");
            reveal_strlit("\u{3bc}");
            reveal_strlit("n");
            reveal_strlit("p");
            reveal_strlit("f");
            reveal_strlit("a");
            reveal_strlit("z");
            reveal_strlit("y");
        }
        let text = match self {
            SiPrefix::Tera => "T",
            SiPrefix::Giga => "G",
            SiPrefix::Mega => "M",
            SiPrefix::Kilo => "k",
            SiPrefix::Unit => "",
            SiPrefix::Milli => "m",
            SiPrefix::Micro => "\u{3bc}",
            SiPrefix::Nano => "n",
            SiPrefix::Pico => "p",
            SiPrefix::Femto => "f",
            SiPrefix::Atto => "a",
            SiPrefix::Zepto => "z",
            SiPrefix::Yocto => "y",
        };
        assert(text@ =~= self.spec_symbol());
        text
    }
}

/// Whether the quantity with pattern `bits` reaches the threshold of `p`.
pub open spec fn reached(bits: u64, p: SiPrefix) -> bool {
    abs_at_least(value(bits), value(p.spec_threshold()))
}

/// Whether `choice` is the first prefix, from tera down, whose threshold the
/// quantity reaches, or nothing where it reaches none.
pub open spec fn selects(bits: u64, choice: Option<SiPrefix>) -> bool {
    match choice {
        Some(p) => reached(bits, p) && forall|q: SiPrefix|
            q.rank() < p.rank() ==> !#[trigger] reached(bits, q),
        None => forall|q: SiPrefix| !#[trigger] reached(bits, q),
    }
}

/// Chooses the prefix for the quantity with pattern `bits`: the first, from
/// tera down, whose threshold the quantity reaches in absolute value.
pub fn select(bits: u64) -> (choice: Option<SiPrefix>)
    ensures
        selects(bits, choice),
{
    let mut i: usize = 0;
    while i < LADDER_LEN
        invariant
            i <= LADDER_LEN,
            forall|q: SiPrefix| q.rank() < i ==> !#[trigger] reached(bits, q),
        decreases LADDER_LEN - i,
    {
        if let Some(p) = SiPrefix::at(i) {
            if abs_reaches(bits, p.threshold()) {
                return Some(p);
            }
            assert forall|q: SiPrefix| q.rank() < i + 1 implies !#[trigger] reached(bits, q) by {
                if q.rank() == i {
                    assert(q == p);
                }
            }
        }
        i += 1;
    }
    None
}

/// Every prefix stands at its rank in the ladder, and the ladder has
/// nothing else.
pub proof fn lemma_ladder(p: SiPrefix, rank: nat)
    ensures
        SiPrefix::spec_at(p.rank()) == Some(p),
        SiPrefix::spec_at(rank) == Some(p) <==> rank == p.rank(),
        SiPrefix::spec_at(rank) is Some <==> rank < LADDER_LEN,
        p.above() matches Some(q) ==> q.rank() + 1 == p.rank(),
        p.above() is None <==> p == SiPrefix::Tera,
{
}

/// A threshold is reached exactly by the numbers, infinities included, whose
/// pattern without the sign is not below the threshold's pattern.
pub proof fn lemma_reached_by_pattern(bits: u64, p: SiPrefix)
    ensures
        reached(bits, p) <==> p.spec_threshold() <= abs_bits(bits) <= INFINITY,
{
    lemma_magnitude_ignores_sign(bits);
    if abs_bits(bits) < INFINITY {
        lemma_magnitude_order(abs_bits(bits), p.spec_threshold());
    }
}

/// The thresholds are positive finite numbers, and each is greater than
/// those of the prefixes after it.
pub proof fn lemma_thresholds_descend(p: SiPrefix, q: SiPrefix)
    requires
        p.rank() < q.rank(),
    ensures
        0 < q.spec_threshold() < p.spec_threshold() < INFINITY,
        0 < magnitude(q.spec_threshold()) < magnitude(p.spec_threshold()),
{
    lemma_magnitude_order(q.spec_threshold(), p.spec_threshold());
    lemma_magnitude_order(0, q.spec_threshold());
}

/// A quantity that reaches a threshold reaches those of all later prefixes.
pub proof fn lemma_reached_below(bits: u64, p: SiPrefix, q: SiPrefix)
    requires
        p.rank() <= q.rank(),
        reached(bits, p),
    ensures
        reached(bits, q),
{
    lemma_reached_by_pattern(bits, p);
    lemma_reached_by_pattern(bits, q);
}

/// No quantity has two choices.
pub proof fn lemma_selection_unique(bits: u64, first: Option<SiPrefix>, second: Option<SiPrefix>)
    requires
        selects(bits, first),
        selects(bits, second),
    ensures
        first == second,
{
}

/// A prefix is chosen exactly where the quantity reaches its threshold and
/// not the threshold one place above it; tera has none above it.
pub proof fn lemma_selection_bracket(bits: u64, p: SiPrefix)
    ensures
        selects(bits, Some(p)) <==> reached(bits, p) && (p.above() matches Some(q) ==> !reached(
            bits,
            q,
        )),
{
    lemma_ladder(p, 0);
    if reached(bits, p) && (p.above() matches Some(q) ==> !reached(bits, q)) {
        assert forall|q: SiPrefix| q.rank() < p.rank() implies !#[trigger] reached(bits, q) by {
            if reached(bits, q) {
                lemma_reached_below(bits, q, p.above().unwrap());
            }
        }
    }
}

/// Nothing is chosen exactly where the quantity does not reach the yocto
/// threshold.
pub proof fn lemma_selection_none(bits: u64)
    ensures
        selects(bits, None) <==> !reached(bits, SiPrefix::Yocto),
{
    if !reached(bits, SiPrefix::Yocto) {
        assert forall|q: SiPrefix| !#[trigger] reached(bits, q) by {
            if reached(bits, q) {
                lemma_reached_below(bits, q, SiPrefix::Yocto);
            }
        }
    }
}

/// Nothing is chosen for a zero of either sign, nor for what is not a
/// number.
pub proof fn lemma_selection_of_zero_and_nan(bits: u64)
    requires
        abs_bits(bits) == 0 || abs_bits(bits) > INFINITY,
    ensures
        selects(bits, None),
{
    lemma_reached_by_pattern(bits, SiPrefix::Yocto);
    lemma_selection_none(bits);
}

/// Tera is chosen for either infinity.
pub proof fn lemma_selection_of_infinity(bits: u64)
    requires
        abs_bits(bits) == INFINITY,
    ensures
        selects(bits, Some(SiPrefix::Tera)),
{
    lemma_reached_by_pattern(bits, SiPrefix::Tera);
}

/// The choice does not depend on the sign: two patterns that differ in
/// nothing else have the same choice.
pub proof fn lemma_selection_ignores_sign(bits: u64, other: u64, choice: Option<SiPrefix>)
    requires
        abs_bits(bits) == abs_bits(other),
    ensures
        selects(bits, choice) == selects(other, choice),
{
    assert forall|q: SiPrefix| reached(bits, q) == reached(other, q) by {
        lemma_reached_by_pattern(bits, q);
        lemma_reached_by_pattern(other, q);
    }
}

} // verus!
