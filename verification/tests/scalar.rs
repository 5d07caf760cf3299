use wgpu_glyph::scalar::Scalar;

fn s(value: f32) -> Scalar {
    Scalar::from_bits(value.to_bits())
}

fn samples() -> Vec<f32> {
    vec![
        0.0,
        -0.0,
        1.0,
        -1.0,
        0.5,
        60.0,
        60.000004,
        -60.0,
        f32::MIN_POSITIVE,
        -f32::MIN_POSITIVE,
        f32::from_bits(1),
        f32::from_bits(0x8000_0001),
        f32::MAX,
        f32::MIN,
        f32::INFINITY,
        f32::NEG_INFINITY,
        f32::NAN,
        -f32::NAN,
        f32::from_bits(0x7f80_0001),
        f32::from_bits(0xffff_ffff),
        f32::EPSILON,
        1e-40,
        -1e-40,
        3.4e38,
    ]
}

#[test]
fn greater_than_agrees_with_floats() {
    for &a in &samples() {
        for &b in &samples() {
            assert_eq!(s(a).gt(s(b)), a > b, "{a:?} > {b:?}");
        }
    }
}

#[test]
fn less_than_agrees_with_floats() {
    for &a in &samples() {
        for &b in &samples() {
            assert_eq!(s(a).lt(s(b)), a < b, "{a:?} < {b:?}");
        }
    }
}

#[test]
fn at_most_agrees_with_floats() {
    for &a in &samples() {
        for &b in &samples() {
            assert_eq!(s(a).le(s(b)), a <= b, "{a:?} <= {b:?}");
        }
    }
}

#[test]
fn nan_is_told_by_its_bits() {
    for &a in &samples() {
        assert_eq!(s(a).is_nan_value(), a.is_nan(), "{a:?}");
    }
}

#[test]
fn the_two_zeros_are_neither_greater_nor_less() {
    assert!(!s(0.0).gt(s(-0.0)));
    assert!(!s(-0.0).lt(s(0.0)));
    assert!(s(-0.0).le(s(0.0)));
    assert!(s(0.0).le(s(-0.0)));
    assert!(s(0.0) != s(-0.0));
}

#[test]
fn bits_go_in_and_out_unchanged() {
    for bits in [0u32, 1, 0x3f80_0000, 0x7fc0_0000, 0x8000_0000, 0xffff_ffff] {
        assert_eq!(Scalar::from_bits(bits).to_bits(), bits);
        assert_eq!(Scalar::from_bits(bits).bits, bits);
    }
}
