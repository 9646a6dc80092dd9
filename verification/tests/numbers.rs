use raytracing_lib::binary32::{
    abs, is_sign_negative, less_than, number_rank, INFINITY, ONE, SIGN_BIT, ZERO,
};
use raytracing_lib::tolerance::{is_negative, is_positive, is_zero, EPSILON, NEGATIVE_EPSILON};

fn samples() -> Vec<f32> {
    let mut all = vec![
        0.0,
        -0.0,
        1.0,
        -1.0,
        0.0005,
        -0.0005,
        0.00049999,
        -0.00049999,
        0.00050001,
        -0.00050001,
        0.001,
        0.999,
        1.0005,
        4.0,
        6.0,
        255.0,
        -7.25,
        1.0e-20,
        -1.0e-20,
        3.5e10,
        -3.5e10,
        f32::MIN_POSITIVE,
        -f32::MIN_POSITIVE,
        f32::from_bits(1),
        f32::from_bits(SIGN_BIT + 1),
        f32::MAX,
        f32::MIN,
        f32::INFINITY,
        f32::NEG_INFINITY,
        f32::NAN,
        -f32::NAN,
        f32::from_bits(0x7f80_0001),
        f32::from_bits(0xffff_ffff),
    ];
    let mut state: u32 = 0x1234_5678;
    for _ in 0..200 {
        state = state.wrapping_mul(1_664_525).wrapping_add(1_013_904_223);
        all.push(f32::from_bits(state));
    }
    all
}

#[test]
fn named_encodings_are_those_of_the_numbers() {
    assert_eq!(ZERO, 0.0f32.to_bits());
    assert_eq!(ONE, 1.0f32.to_bits());
    assert_eq!(INFINITY, f32::INFINITY.to_bits());
    assert_eq!(SIGN_BIT, (-0.0f32).to_bits());
    assert_eq!(EPSILON, 0.0005f32.to_bits());
    assert_eq!(NEGATIVE_EPSILON, (-0.0005f32).to_bits());
}

#[test]
fn less_than_agrees_with_numeric_order() {
    let all = samples();
    for a in all.iter() {
        for b in all.iter() {
            assert_eq!(less_than(a.to_bits(), b.to_bits()), a < b, "{:?} < {:?}", a, b);
        }
    }
}

#[test]
fn less_than_is_false_between_the_two_zeros() {
    assert!(!less_than((-0.0f32).to_bits(), 0.0f32.to_bits()));
    assert!(!less_than(0.0f32.to_bits(), (-0.0f32).to_bits()));
}

#[test]
fn less_than_is_false_beside_what_is_not_a_number() {
    let nan = f32::NAN.to_bits();
    assert!(!less_than(nan, ONE));
    assert!(!less_than(ONE, nan));
    assert!(!less_than(nan, nan));
    assert!(!less_than(f32::NEG_INFINITY.to_bits(), 0x7f80_0001));
}

#[test]
fn rank_is_the_signed_magnitude() {
    assert_eq!(number_rank(ZERO), Some(0));
    assert_eq!(number_rank(SIGN_BIT), Some(0));
    assert_eq!(number_rank(ONE), Some(0x3f80_0000));
    assert_eq!(number_rank((-1.0f32).to_bits()), Some(-0x3f80_0000));
    assert_eq!(number_rank(INFINITY), Some(0x7f80_0000));
    assert_eq!(number_rank(f32::NEG_INFINITY.to_bits()), Some(-0x7f80_0000));
    assert_eq!(number_rank(0x7f80_0001), None);
    assert_eq!(number_rank(f32::NAN.to_bits()), None);
    assert_eq!(number_rank(0xffff_ffff), None);
}

#[test]
fn rank_orders_as_the_numbers_do() {
    let all = samples();
    for a in all.iter() {
        for b in all.iter() {
            if let (Some(x), Some(y)) = (number_rank(a.to_bits()), number_rank(b.to_bits())) {
                assert_eq!(x < y, a < b);
                assert_eq!(x == y, a == b);
            }
        }
    }
}

#[test]
fn abs_clears_the_sign() {
    for a in samples() {
        assert_eq!(abs(a.to_bits()), a.abs().to_bits());
    }
    assert_eq!(abs((-4.0f32).to_bits()), 4.0f32.to_bits());
}

#[test]
fn sign_test_reads_the_sign_bit() {
    for a in samples() {
        assert_eq!(is_sign_negative(a.to_bits()), a.is_sign_negative());
    }
    assert!(is_sign_negative((-0.0f32).to_bits()));
    assert!(!is_sign_negative(0.0f32.to_bits()));
}

#[test]
fn tolerant_tests_agree_with_their_formulas() {
    for a in samples() {
        assert_eq!(is_zero(a.to_bits()), a.abs() < 0.0005, "is_zero {:?}", a);
        assert_eq!(is_negative(a.to_bits()), a < -0.0005, "is_negative {:?}", a);
        assert_eq!(is_positive(a.to_bits()), a > 0.0005, "is_positive {:?}", a);
    }
}

#[test]
fn the_margin_itself_is_neither_zero_nor_signed() {
    assert!(!is_zero(EPSILON));
    assert!(!is_positive(EPSILON));
    assert!(!is_negative(EPSILON));
    assert!(!is_zero(NEGATIVE_EPSILON));
    assert!(!is_negative(NEGATIVE_EPSILON));
    assert!(is_zero(EPSILON - 1));
    assert!(is_positive(EPSILON + 1));
    assert!(is_negative(NEGATIVE_EPSILON + 1));
}

#[test]
fn what_is_not_a_number_passes_no_tolerant_test() {
    let nan = f32::NAN.to_bits();
    assert!(!is_zero(nan));
    assert!(!is_negative(nan));
    assert!(!is_positive(nan));
}

#[test]
fn less_than_agrees_on_many_pairs_of_encodings() {
    let mut state: u32 = 0x9e37_79b9;
    for _ in 0..200_000 {
        state ^= state << 13;
        state ^= state >> 17;
        state ^= state << 5;
        let a = state;
        state ^= state << 13;
        state ^= state >> 17;
        state ^= state << 5;
        let b = if state % 8 == 0 { a ^ (state >> 28) } else { state };
        assert_eq!(less_than(a, b), f32::from_bits(a) < f32::from_bits(b), "{:#x} {:#x}", a, b);
    }
}

#[test]
fn less_than_agrees_around_the_ends_of_each_range() {
    let marks: [u32; 8] = [0, 1, 0x007f_ffff, 0x0080_0000, 0x3f80_0000, 0x7f7f_ffff, INFINITY, 0x7fc0_0000];
    let mut near: Vec<u32> = Vec::new();
    for mark in marks {
        for step in 0..3u32 {
            for sign in [0, SIGN_BIT] {
                near.push(mark.wrapping_add(step) | sign);
                near.push(mark.wrapping_sub(step) & 0x7fff_ffff | sign);
            }
        }
    }
    for a in near.iter() {
        for b in near.iter() {
            assert_eq!(less_than(*a, *b), f32::from_bits(*a) < f32::from_bits(*b), "{:#x} {:#x}", a, b);
        }
    }
}
