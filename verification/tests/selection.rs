use electrostatics::binary64::abs_reaches;
use electrostatics::si::{select, SiPrefix, LADDER_LEN};

const LADDER: [(SiPrefix, f64); 13] = [
    (SiPrefix::Tera, 1e12),
    (SiPrefix::Giga, 1e9),
    (SiPrefix::Mega, 1e6),
    (SiPrefix::Kilo, 1e3),
    (SiPrefix::Unit, 1.0),
    (SiPrefix::Milli, 1e-3),
    (SiPrefix::Micro, 1e-6),
    (SiPrefix::Nano, 1e-9),
    (SiPrefix::Pico, 1e-12),
    (SiPrefix::Femto, 1e-15),
    (SiPrefix::Atto, 1e-18),
    (SiPrefix::Zepto, 1e-21),
    (SiPrefix::Yocto, 1e-24),
];

/// The ladder written with comparisons of numbers.
fn by_comparison(number: f64) -> Option<SiPrefix> {
    for (p, threshold) in LADDER {
        if number.abs() >= threshold {
            return Some(p);
        }
    }
    None
}

/// Patterns spread over the whole format, the same on every run.
fn sample_patterns(count: usize) -> Vec<u64> {
    let mut state: u64 = 0x9e37_79b9_7f4a_7c15;
    let mut out = Vec::with_capacity(count);
    for _ in 0..count {
        state ^= state << 13;
        state ^= state >> 7;
        state ^= state << 17;
        out.push(state);
    }
    out
}

#[test]
fn thresholds_are_the_decimal_literals() {
    for (p, threshold) in LADDER {
        assert_eq!(p.threshold(), threshold.to_bits(), "{:?}", p);
    }
}

#[test]
fn threshold_patterns_by_value() {
    assert_eq!(SiPrefix::Tera.threshold(), 0x426d_1a94_a200_0000);
    assert_eq!(SiPrefix::Unit.threshold(), 0x3ff0_0000_0000_0000);
    assert_eq!(SiPrefix::Milli.threshold(), 0x3f50_624d_d2f1_a9fc);
    assert_eq!(SiPrefix::Yocto.threshold(), 0x3af3_57c2_99a8_8ea7);
}

#[test]
fn ladder_runs_from_tera_to_yocto() {
    assert_eq!(LADDER_LEN, 13);
    for (rank, (p, _)) in LADDER.iter().enumerate() {
        assert_eq!(SiPrefix::at(rank), Some(*p));
    }
}

#[test]
fn ladder_ends_after_yocto() {
    assert_eq!(SiPrefix::at(12), Some(SiPrefix::Yocto));
    assert_eq!(SiPrefix::at(13), None);
    assert_eq!(SiPrefix::at(usize::MAX), None);
}

#[test]
fn thresholds_descend_along_the_ladder() {
    for pair in LADDER.windows(2) {
        assert!(pair[0].0.threshold() > pair[1].0.threshold());
        assert!(f64::from_bits(pair[0].0.threshold()) > f64::from_bits(pair[1].0.threshold()));
    }
}

#[test]
fn a_threshold_selects_its_own_prefix() {
    for (p, threshold) in LADDER {
        assert_eq!(select(threshold.to_bits()), Some(p));
        assert_eq!(select((-threshold).to_bits()), Some(p));
    }
}

#[test]
fn one_step_below_a_threshold_selects_the_next_prefix() {
    for (rank, (_, threshold)) in LADDER.iter().enumerate() {
        let below = threshold.to_bits() - 1;
        let expected = if rank + 1 < LADDER.len() { Some(LADDER[rank + 1].0) } else { None };
        assert_eq!(select(below), expected);
        assert_eq!(select(below | (1 << 63)), expected);
    }
}

#[test]
fn one_step_above_a_threshold_selects_its_prefix() {
    for (p, threshold) in LADDER {
        assert_eq!(select(threshold.to_bits() + 1), Some(p));
    }
}

#[test]
fn zero_selects_nothing() {
    assert_eq!(select(0.0f64.to_bits()), None);
    assert_eq!(select((-0.0f64).to_bits()), None);
}

#[test]
fn subnormals_select_nothing() {
    assert_eq!(select(1), None);
    assert_eq!(select(0x000f_ffff_ffff_ffff), None);
    assert_eq!(select(f64::MIN_POSITIVE.to_bits()), None);
}

#[test]
fn not_a_number_selects_nothing() {
    assert_eq!(select(f64::NAN.to_bits()), None);
    assert_eq!(select(0x7ff0_0000_0000_0001), None);
    assert_eq!(select(0xffff_ffff_ffff_ffff), None);
    assert_eq!(select(0x7ff8_0000_0000_0000), None);
}

#[test]
fn infinity_and_the_largest_number_select_tera() {
    assert_eq!(select(f64::INFINITY.to_bits()), Some(SiPrefix::Tera));
    assert_eq!(select(f64::NEG_INFINITY.to_bits()), Some(SiPrefix::Tera));
    assert_eq!(select(f64::MAX.to_bits()), Some(SiPrefix::Tera));
}

#[test]
fn selection_of_given_numbers() {
    assert_eq!(select(1500.0f64.to_bits()), Some(SiPrefix::Kilo));
    assert_eq!(select(0.00002f64.to_bits()), Some(SiPrefix::Micro));
    assert_eq!(select((-5e9f64).to_bits()), Some(SiPrefix::Giga));
    assert_eq!(select(999.999f64.to_bits()), Some(SiPrefix::Unit));
    assert_eq!(select(0.5f64.to_bits()), Some(SiPrefix::Milli));
    assert_eq!(select(3e-25f64.to_bits()), None);
}

#[test]
fn selection_ignores_the_sign() {
    for bits in sample_patterns(20_000) {
        assert_eq!(select(bits), select(bits ^ (1 << 63)));
    }
}

#[test]
fn selection_agrees_with_comparison_of_numbers() {
    for bits in sample_patterns(50_000) {
        assert_eq!(select(bits), by_comparison(f64::from_bits(bits)), "{:#018x}", bits);
    }
    for exponent in -340..=310 {
        for digit in 1..=9 {
            let number: f64 = format!("{}e{}", digit, exponent).parse().unwrap();
            assert_eq!(select(number.to_bits()), by_comparison(number), "{}", number);
            assert_eq!(select((-number).to_bits()), by_comparison(-number), "{}", -number);
        }
    }
}

#[test]
fn reaching_agrees_with_comparison_of_numbers() {
    let mut edge: Vec<u64> = vec![
        0,
        1,
        1 << 63,
        0x000f_ffff_ffff_ffff,
        0x0010_0000_0000_0000,
        0x3ff0_0000_0000_0000,
        0xbff0_0000_0000_0000,
        0x7fef_ffff_ffff_ffff,
        0x7ff0_0000_0000_0000,
        0xfff0_0000_0000_0000,
        0x7ff0_0000_0000_0001,
        0x7ff8_0000_0000_0000,
        0xfff8_0000_0000_0000,
    ];
    edge.extend(sample_patterns(300));
    for &a in &edge {
        for &b in &edge {
            let expected = f64::from_bits(a).abs() >= f64::from_bits(b);
            assert_eq!(abs_reaches(a, b), expected, "{:#018x} {:#018x}", a, b);
        }
    }
}

#[test]
fn reaching_is_not_the_order_of_the_raw_patterns() {
    // As an integer the pattern of -1 is above that of 2, yet |-1| < 2.
    assert!(!abs_reaches((-1.0f64).to_bits(), 2.0f64.to_bits()));
    assert!(abs_reaches((-2.0f64).to_bits(), 1.0f64.to_bits()));
    // Every number reaches a negative one, and nothing reaches not-a-number.
    assert!(abs_reaches(0, (-3.0f64).to_bits()));
    assert!(!abs_reaches(f64::INFINITY.to_bits(), f64::NAN.to_bits()));
}
