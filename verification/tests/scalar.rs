use pathtracer::scalar::Scalar;
use pathtracer::vector::{color3, point3, Vec3};

fn s(x: f32) -> Scalar {
    Scalar::from_bits(x.to_bits())
}

fn f(x: Scalar) -> f32 {
    f32::from_bits(x.to_bits())
}

fn grid() -> Vec<f32> {
    vec![
        0.0,
        -0.0,
        1.0,
        -1.0,
        1e-8,
        -1e-8,
        0.999_999_94,
        1.000_000_1,
        0.001,
        0.5,
        2.0,
        3.5,
        -3.5,
        255.9999,
        1e-45,
        -1e-45,
        1.0e-39,
        f32::MIN_POSITIVE,
        f32::MAX,
        f32::MIN,
        f32::INFINITY,
        f32::NEG_INFINITY,
        f32::NAN,
        -f32::NAN,
        f32::from_bits(0x7f80_0001),
        f32::from_bits(0xffff_ffff),
    ]
}

#[test]
fn encodings_round_trip() {
    for x in grid() {
        assert_eq!(s(x).to_bits(), x.to_bits());
        assert_eq!(Scalar::from_bits(x.to_bits()).bits, x.to_bits());
    }
}

#[test]
fn constants_have_their_encodings() {
    assert_eq!(Scalar::zero().to_bits(), 0.0f32.to_bits());
    assert_eq!(Scalar::one().to_bits(), 1.0f32.to_bits());
    assert_eq!(Scalar::infinity().to_bits(), f32::INFINITY.to_bits());
    assert_eq!(Scalar::one().to_bits(), 0x3f80_0000);
}

#[test]
fn order_agrees_with_the_machine() {
    for a in grid() {
        for b in grid() {
            assert_eq!(s(a).lt(s(b)), a < b, "{a} < {b}");
            assert_eq!(s(a).le(s(b)), a <= b, "{a} <= {b}");
            assert_eq!(s(a).gt(s(b)), a > b, "{a} > {b}");
        }
    }
}

#[test]
fn order_agrees_with_the_machine_on_neighbours() {
    let mut bits: u32 = 1;
    while bits < 0x7f80_0000 {
        let a = f32::from_bits(bits);
        let b = f32::from_bits(bits + 1);
        assert!(s(a).lt(s(b)));
        assert!(!s(b).lt(s(a)));
        assert!(s(-b).lt(s(-a)));
        assert!(s(a).le(s(a)));
        bits += 0x0003_fffd;
    }
}

#[test]
fn both_zeros_are_equal_in_order() {
    assert!(!s(0.0).lt(s(-0.0)));
    assert!(!s(-0.0).lt(s(0.0)));
    assert!(s(0.0).le(s(-0.0)));
    assert!(s(-0.0).le(s(0.0)));
}

#[test]
fn a_missing_number_compares_false() {
    let nan = s(f32::NAN);
    assert!(!nan.lt(s(1.0)));
    assert!(!nan.le(nan));
    assert!(!s(1.0).gt(nan));
    assert!(nan.is_nan());
    assert!(!nan.is_finite());
}

#[test]
fn classes_agree_with_the_machine() {
    for x in grid() {
        assert_eq!(s(x).is_nan(), x.is_nan());
        assert_eq!(s(x).is_finite(), x.is_finite());
        assert_eq!(s(x).is_sign_negative(), x.is_sign_negative());
    }
}

#[test]
fn negation_and_magnitude_agree_with_the_machine() {
    for x in grid() {
        assert_eq!(s(x).neg().to_bits(), (-x).to_bits());
        assert_eq!(s(x).abs().to_bits(), x.abs().to_bits());
    }
    assert_eq!(s(2.5).neg(), s(-2.5));
    assert_eq!(s(-2.5).abs(), s(2.5));
}

#[test]
fn smaller_and_larger_agree_with_the_machine() {
    for a in grid() {
        for b in grid() {
            let lo = f(s(a).min(s(b)));
            let hi = f(s(a).max(s(b)));
            if a.is_nan() && b.is_nan() {
                assert!(lo.is_nan() && hi.is_nan());
            } else {
                assert!(lo == a.min(b), "min({a}, {b})");
                assert!(hi == a.max(b), "max({a}, {b})");
            }
        }
    }
    assert_eq!(s(1.0).min(s(2.0)), s(1.0));
    assert_eq!(s(1.0).max(s(2.0)), s(2.0));
    assert_eq!(s(f32::NAN).min(s(2.0)), s(2.0));
    assert_eq!(s(2.0).max(s(f32::NAN)), s(2.0));
}

#[test]
fn vectors_are_built_from_their_components() {
    let v = Vec3::new(s(1.0), s(2.0), s(3.0));
    assert_eq!((v.x, v.y, v.z), (s(1.0), s(2.0), s(3.0)));
    assert_eq!(point3(s(1.0), s(2.0), s(3.0)), v);
    assert_eq!(color3(s(1.0), s(2.0), s(3.0)), v);
    assert_eq!(Vec3::zero(), Vec3::new(s(0.0), s(0.0), s(0.0)));
    assert_eq!(Vec3::ones(), Vec3::new(s(1.0), s(1.0), s(1.0)));
}

#[test]
fn a_vector_is_negated_by_component() {
    let v = Vec3::new(s(1.0), s(-2.0), s(0.0));
    assert_eq!(v.neg(), Vec3::new(s(-1.0), s(2.0), s(-0.0)));
}

#[test]
fn near_zero_means_every_component_under_the_threshold() {
    assert!(Vec3::zero().is_near_zero());
    assert!(Vec3::new(s(9e-9), s(-9e-9), s(0.0)).is_near_zero());
    assert!(!Vec3::new(s(1e-8), s(0.0), s(0.0)).is_near_zero());
    assert!(!Vec3::new(s(0.0), s(-2e-8), s(0.0)).is_near_zero());
    assert!(!Vec3::new(s(0.0), s(0.0), s(1.0)).is_near_zero());
    assert!(!Vec3::new(s(f32::NAN), s(0.0), s(0.0)).is_near_zero());
}

#[test]
fn finite_vectors_have_finite_components() {
    assert!(Vec3::new(s(1.0), s(-2.0), s(f32::MAX)).is_finite());
    assert!(!Vec3::new(s(1.0), s(f32::INFINITY), s(0.0)).is_finite());
    assert!(!Vec3::new(s(f32::NAN), s(0.0), s(0.0)).is_finite());
}

#[test]
fn vectors_take_the_smaller_and_the_larger_by_component() {
    let a = Vec3::new(s(1.0), s(5.0), s(-3.0));
    let b = Vec3::new(s(2.0), s(4.0), s(-3.5));
    assert_eq!(a.min(b), Vec3::new(s(1.0), s(4.0), s(-3.5)));
    assert_eq!(a.max(b), Vec3::new(s(2.0), s(5.0), s(-3.0)));
}

#[test]
fn bytes_agree_with_the_machine() {
    for x in grid() {
        assert_eq!(s(x).to_byte(), x as u8, "{x}");
    }
    let mut bits: u32 = 0x3f00_0000;
    while bits < 0x4400_0000 {
        let x = f32::from_bits(bits);
        assert_eq!(s(x).to_byte(), x as u8, "{x}");
        assert_eq!(s(-x).to_byte(), 0, "-{x}");
        bits += 0x0000_0fff;
    }
}

#[test]
fn bytes_are_whole_parts_held_to_the_range() {
    assert_eq!(s(0.0).to_byte(), 0);
    assert_eq!(s(0.999_999_94).to_byte(), 0);
    assert_eq!(s(1.0).to_byte(), 1);
    assert_eq!(s(1.999_999_9).to_byte(), 1);
    assert_eq!(s(2.0).to_byte(), 2);
    assert_eq!(s(127.5).to_byte(), 127);
    assert_eq!(s(254.999_98).to_byte(), 254);
    assert_eq!(s(255.0).to_byte(), 255);
    assert_eq!(s(255.9999).to_byte(), 255);
    assert_eq!(s(256.0).to_byte(), 255);
    assert_eq!(s(1.0e30).to_byte(), 255);
    assert_eq!(s(f32::INFINITY).to_byte(), 255);
    assert_eq!(s(-3.0).to_byte(), 0);
    assert_eq!(s(f32::NEG_INFINITY).to_byte(), 0);
    assert_eq!(s(f32::NAN).to_byte(), 0);
}
