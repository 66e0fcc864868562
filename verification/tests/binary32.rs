use spinning_top::binary32::{
    every_finite, finite, positive, EXPONENT_BITS, FRACTION_BITS, SIGN_BIT,
};

fn samples() -> Vec<f32> {
    let mut values = vec![
        0.0,
        -0.0,
        1.0,
        -1.0,
        0.1,
        10.0,
        1e-45,
        -1e-45,
        f32::MIN_POSITIVE,
        f32::MAX,
        f32::MIN,
        f32::EPSILON,
        f32::INFINITY,
        f32::NEG_INFINITY,
        f32::NAN,
        -f32::NAN,
        f32::from_bits(0x7f80_0001),
        f32::from_bits(0xffff_ffff),
        f32::from_bits(0x7fff_ffff),
        f32::from_bits(0x7f7f_ffff),
        f32::from_bits(0x0000_0001),
        f32::from_bits(0x8000_0001),
    ];
    let mut bits: u32 = 0x1234_5678;
    for _ in 0..2000 {
        bits = bits.wrapping_mul(1_664_525).wrapping_add(1_013_904_223);
        values.push(f32::from_bits(bits));
    }
    values
}

#[test]
fn the_three_fields_cover_a_pattern() {
    assert_eq!(SIGN_BIT | EXPONENT_BITS | FRACTION_BITS, u32::MAX);
    assert_eq!(SIGN_BIT & EXPONENT_BITS, 0);
    assert_eq!(EXPONENT_BITS & FRACTION_BITS, 0);
    assert_eq!(EXPONENT_BITS, f32::INFINITY.to_bits());
    assert_eq!(SIGN_BIT, (-0.0f32).to_bits());
}

#[test]
fn finite_agrees_with_the_numbers() {
    for x in samples() {
        assert_eq!(finite(x.to_bits()), x.is_finite(), "{:#010x}", x.to_bits());
    }
}

#[test]
fn positive_agrees_with_the_numbers() {
    for x in samples() {
        assert_eq!(positive(x.to_bits()), x > 0.0, "{:#010x}", x.to_bits());
    }
}

#[test]
fn zero_of_either_sign_is_not_positive() {
    assert!(!positive(0.0f32.to_bits()));
    assert!(!positive((-0.0f32).to_bits()));
    assert!(positive(1e-45f32.to_bits()));
    assert!(positive(f32::INFINITY.to_bits()));
    assert!(!positive(f32::NAN.to_bits()));
}

#[test]
fn the_infinities_and_nan_are_not_finite() {
    assert!(!finite(f32::INFINITY.to_bits()));
    assert!(!finite(f32::NEG_INFINITY.to_bits()));
    assert!(!finite(f32::NAN.to_bits()));
    assert!(finite(f32::MAX.to_bits()));
    assert!(finite(f32::MIN.to_bits()));
    assert!(finite(0));
}

#[test]
fn every_finite_reads_all_of_a_slice() {
    assert!(every_finite(&[]));
    assert!(every_finite(&[1.0f32.to_bits(), 2.0f32.to_bits(), (-3.0f32).to_bits()]));
    for slot in 0..3 {
        let mut values = [1.0f32.to_bits(); 3];
        values[slot] = f32::NAN.to_bits();
        assert!(!every_finite(&values));
        values[slot] = f32::INFINITY.to_bits();
        assert!(!every_finite(&values));
    }
}
