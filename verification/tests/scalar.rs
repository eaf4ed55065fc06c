use sokudo_core::scalar::Scalar;
use sokudo_core::vector::{Mat3, Quat, UVec3, Vec3};

fn s(x: f32) -> Scalar {
    Scalar::from_bits(x.to_bits())
}

fn v(x: f32, y: f32, z: f32) -> Vec3 {
    Vec3::new(s(x), s(y), s(z))
}

fn samples() -> Vec<f32> {
    vec![
        0.0,
        -0.0,
        1.0,
        -1.0,
        0.5,
        -2.75,
        f32::MIN_POSITIVE,
        -f32::MIN_POSITIVE,
        f32::from_bits(1),
        f32::from_bits(0x8000_0001),
        f32::from_bits(0x007f_ffff),
        f32::MAX,
        f32::MIN,
        f32::EPSILON,
        f32::INFINITY,
        f32::NEG_INFINITY,
        f32::NAN,
        -f32::NAN,
        f32::from_bits(0x7f80_0001),
        f32::from_bits(0xffff_ffff),
        f32::from_bits(0x7fc0_0000),
    ]
}

#[test]
fn from_bits_and_to_bits_keep_the_encoding() {
    for x in samples() {
        assert_eq!(s(x).to_bits(), x.to_bits());
        assert_eq!(s(x).bits, x.to_bits());
    }
    assert_eq!(Scalar::zero().to_bits(), 0.0f32.to_bits());
    assert_eq!(Scalar::one().to_bits(), 1.0f32.to_bits());
    assert_eq!(Scalar::one().to_bits(), 0x3f80_0000);
}

#[test]
fn is_nan_agrees_with_the_hardware() {
    for x in samples() {
        assert_eq!(s(x).is_nan(), x.is_nan(), "{:#x}", x.to_bits());
    }
}

#[test]
fn is_finite_agrees_with_the_hardware() {
    for x in samples() {
        assert_eq!(s(x).is_finite(), x.is_finite(), "{:#x}", x.to_bits());
    }
}

#[test]
fn is_zero_agrees_with_comparison_to_zero() {
    for x in samples() {
        assert_eq!(s(x).is_zero(), x == 0.0, "{:#x}", x.to_bits());
    }
}

#[test]
fn is_positive_agrees_with_comparison_to_zero() {
    for x in samples() {
        assert_eq!(s(x).is_positive(), x > 0.0, "{:#x}", x.to_bits());
    }
}

#[test]
fn neg_agrees_with_the_hardware() {
    for x in samples() {
        assert_eq!(s(x).neg().to_bits(), (-x).to_bits(), "{:#x}", x.to_bits());
        assert_eq!(s(x).neg().neg(), s(x));
    }
    assert_eq!(s(1.0).neg().to_bits(), 0xbf80_0000);
}

#[test]
fn finite_or_zero_keeps_what_is_finite() {
    for x in samples() {
        let expected = if x.is_finite() { x.to_bits() } else { 0 };
        assert_eq!(s(x).finite_or_zero().to_bits(), expected, "{:#x}", x.to_bits());
    }
    assert_eq!(s(-0.0).finite_or_zero(), s(-0.0));
    assert_eq!(s(f32::NEG_INFINITY).finite_or_zero(), Scalar::zero());
}

#[test]
fn scalar_equality_is_equality_of_encodings() {
    assert_ne!(s(0.0), s(-0.0));
    assert_eq!(s(f32::NAN), s(f32::NAN));
    assert_eq!(s(1.5), s(1.5));
}

#[test]
fn vec3_matches_glam() {
    let cases = [
        (1.0f32, 2.0f32, 3.0f32),
        (0.0, -0.0, 5.5),
        (f32::INFINITY, 1.0, 1.0),
        (1.0, f32::NAN, 1.0),
        (1.0, 1.0, f32::NEG_INFINITY),
    ];
    for (x, y, z) in cases {
        let g = glam::Vec3::new(x, y, z);
        let m = v(x, y, z);
        assert_eq!(m.is_finite(), g.is_finite());
        assert_eq!(m.is_nan(), g.is_nan());
        let n = -g;
        assert_eq!(m.neg().x.to_bits(), n.x.to_bits());
        assert_eq!(m.neg().y.to_bits(), n.y.to_bits());
        assert_eq!(m.neg().z.to_bits(), n.z.to_bits());
    }
    assert_eq!(Vec3::zero().x.to_bits(), glam::Vec3::ZERO.x.to_bits());
    assert_eq!(Vec3::zero(), v(0.0, 0.0, 0.0));
}

#[test]
fn uvec3_constants() {
    assert_eq!(UVec3::zero(), UVec3::new(0, 0, 0));
    assert_eq!(UVec3::one(), UVec3::new(1, 1, 1));
    assert_eq!(UVec3::one().x, glam::UVec3::ONE.x);
    assert_ne!(UVec3::zero(), UVec3::one());
}

#[test]
fn quat_identity_matches_glam() {
    let q = Quat::identity();
    let g = glam::Quat::IDENTITY;
    assert_eq!(q.x.to_bits(), g.x.to_bits());
    assert_eq!(q.y.to_bits(), g.y.to_bits());
    assert_eq!(q.z.to_bits(), g.z.to_bits());
    assert_eq!(q.w.to_bits(), g.w.to_bits());
    assert!(q.is_finite());
    assert!(!Quat::from_xyzw(s(0.0), s(f32::NAN), s(0.0), s(1.0)).is_finite());
    assert!(!Quat::from_xyzw(s(0.0), s(0.0), s(0.0), s(f32::INFINITY)).is_finite());
}

#[test]
fn mat3_matches_glam() {
    let d = glam::Vec3::new(0.5, 0.25, 0.125);
    let g = glam::Mat3::from_diagonal(d).to_cols_array();
    let m = Mat3::from_diagonal(v(0.5, 0.25, 0.125));
    let cols = [
        m.x_axis.x, m.x_axis.y, m.x_axis.z, m.y_axis.x, m.y_axis.y, m.y_axis.z, m.z_axis.x,
        m.z_axis.y, m.z_axis.z,
    ];
    for i in 0..9 {
        assert_eq!(cols[i].to_bits(), g[i].to_bits(), "element {}", i);
    }
    assert_eq!(Mat3::zero(), Mat3::from_diagonal(Vec3::zero()));
    assert_eq!(Mat3::zero().x_axis.x.to_bits(), glam::Mat3::ZERO.x_axis.x.to_bits());
    assert_eq!(
        Mat3::from_cols(v(1.0, 2.0, 3.0), v(4.0, 5.0, 6.0), v(7.0, 8.0, 9.0)).y_axis,
        v(4.0, 5.0, 6.0)
    );
    assert!(m.is_finite());
    assert!(!m.is_nan());
    let bad = Mat3::from_cols(v(1.0, 0.0, 0.0), v(0.0, f32::NAN, 0.0), v(0.0, 0.0, 1.0));
    assert!(bad.is_nan());
    assert!(!bad.is_finite());
    let inf = Mat3::from_cols(v(1.0, 0.0, 0.0), v(0.0, 1.0, 0.0), v(0.0, 0.0, f32::INFINITY));
    assert!(!inf.is_nan());
    assert!(!inf.is_finite());
}
