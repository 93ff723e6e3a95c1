use codex_quota::pixels::{share_of_length, ScaleFactor};

fn scale(factor: f64) -> ScaleFactor {
    ScaleFactor {
        bits: factor.to_bits(),
    }
}

const FACTORS: [f64; 34] = [
    1.0,
    1.25,
    1.5,
    1.75,
    2.0,
    2.25,
    3.0,
    4.0,
    0.5,
    0.1,
    0.3,
    1.1,
    1.2,
    1.3,
    1.7,
    1.0 / 3.0,
    2.0 / 3.0,
    0.0,
    -0.0,
    -1.0,
    -1.5,
    1e-300,
    5e-324,
    1e300,
    1e9,
    31580641.95,
    31580641.985294117,
    f64::MAX,
    f64::MIN_POSITIVE,
    f64::INFINITY,
    f64::NEG_INFINITY,
    f64::NAN,
    1.0080645161290323,
    0.9926470588235294,
];

#[test]
fn lengths_are_scaled_as_in_double_precision() {
    for factor in FACTORS {
        for logical in [1u32, 6, 12, 18, 28, 56, 68, 150, 230, 276, 1023] {
            let product = f64::from(logical) * factor;
            assert_eq!(
                scale(factor).scaled(logical),
                product.round() as i32,
                "{logical} at {factor}"
            );
            assert_eq!(
                scale(factor).scaled_length(logical),
                product.round() as u32,
                "{logical} at {factor}"
            );
            assert_eq!(
                scale(factor).scaled_half(logical),
                (product / 2.0).round() as i32,
                "half of {logical} at {factor}"
            );
        }
    }
}

#[test]
fn many_scale_factors_are_met() {
    let mut bits: u64 = 0x9e37_79b9_7f4a_7c15;
    for _ in 0..20_000 {
        bits ^= bits << 13;
        bits ^= bits >> 7;
        bits ^= bits << 17;
        let anything = f64::from_bits(bits);
        let ordinary = 0.25 + (bits >> 11) as f64 / (1u64 << 50) as f64;
        for factor in [anything, ordinary] {
            for logical in [6u32, 28, 68, 230] {
                let product = f64::from(logical) * factor;
                assert_eq!(scale(factor).scaled(logical), product.round() as i32);
                assert_eq!(scale(factor).scaled_length(logical), product.round() as u32);
                assert_eq!(
                    scale(factor).scaled_half(logical),
                    (product / 2.0).round() as i32
                );
            }
        }
    }
}

fn share(part: u32, whole: u32, length: i32) -> i32 {
    let factor = f64::from(length) / f64::from(whole);
    (f64::from(part) * factor).round() as i32
}

#[test]
fn shares_are_taken_as_in_double_precision() {
    let mut lengths: Vec<i32> = (-3000..3000).collect();
    lengths.extend([i32::MIN, i32::MIN + 1, i32::MAX, i32::MAX - 1, 1 << 30, 123_456_789]);
    for length in lengths {
        for (part, whole) in [(210, 308), (252, 308), (38, 174), (1, 3), (1, 1023), (1022, 1023)] {
            assert_eq!(
                share_of_length(part, whole, length),
                share(part, whole, length),
                "{part}/{whole} of {length}"
            );
        }
    }
}

#[test]
fn many_lengths_are_met() {
    let mut state: u32 = 0x1234_5678;
    for _ in 0..20_000 {
        state ^= state << 13;
        state ^= state >> 17;
        state ^= state << 5;
        let length = state as i32;
        for (part, whole) in [(210, 308), (252, 308), (38, 174)] {
            assert_eq!(
                share_of_length(part, whole, length),
                share(part, whole, length)
            );
        }
    }
}

#[test]
fn a_tie_is_rounded_away_from_zero() {
    assert_eq!(share_of_length(210, 308, 308), 210);
    assert_eq!(share_of_length(1, 2, 5), 3);
    assert_eq!(share_of_length(1, 2, -5), -3);
    assert_eq!(scale(1.25).scaled(6), 8);
    assert_eq!(scale(-1.25).scaled(6), -8);
}
