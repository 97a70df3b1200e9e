use bdpt::fixed::{Fixed, FX_SCALE};
use bdpt::geom::{Vec3, Point2};
use bdpt::spectrum::Spectrum;

fn fx(v: i64) -> Fixed {
    Fixed { v }
}

#[test]
fn scalar_mul_exact() {
    // 2.0 * 3.0 == 6.0
    assert_eq!(fx(2 * FX_SCALE).mul(fx(3 * FX_SCALE)).v, 6 * FX_SCALE);
    // 0.5 * 0.5 == 0.25
    assert_eq!(fx(FX_SCALE / 2).mul(fx(FX_SCALE / 2)).v, FX_SCALE / 4);
    // zero is absorbing
    assert_eq!(fx(0).mul(fx(12345)).v, 0);
}

#[test]
fn scalar_div_exact() {
    // 1.0 / 4.0 == 0.25
    assert_eq!(fx(FX_SCALE).div(fx(4 * FX_SCALE)).v, FX_SCALE / 4);
    // division by zero is clamped to zero
    assert_eq!(fx(FX_SCALE).div(fx(0)).v, 0);
    // negative over positive keeps the sign
    assert_eq!(fx(-FX_SCALE).div(fx(2 * FX_SCALE)).v, -FX_SCALE / 2);
}

#[test]
fn scalar_sqrt_exact() {
    // sqrt(4.0) == 2.0
    assert_eq!(fx(4 * FX_SCALE).sqrt().v, 2 * FX_SCALE);
    // sqrt(2.0) is the floor of 65536 * sqrt(2)
    assert_eq!(fx(2 * FX_SCALE).sqrt().v, 92681);
    // non-positive inputs give zero
    assert_eq!(fx(-5 * FX_SCALE).sqrt().v, 0);
    assert_eq!(fx(0).sqrt().v, 0);
}

#[test]
fn scalar_embedding() {
    assert_eq!(Fixed::of_i64(2).v, 2 * FX_SCALE);
    assert_eq!(Fixed::of_i64(-3).v, -3 * FX_SCALE);
    assert_eq!(Fixed::of_i64(i64::MAX).v, i64::MAX);
    assert_eq!(Fixed::of_usize(5).v, 5 * FX_SCALE);
}

#[test]
fn scalar_saturation() {
    assert_eq!(fx(i64::MAX).add(fx(1)).v, i64::MAX);
    assert_eq!(fx(i64::MIN).sub(fx(1)).v, i64::MIN);
    assert_eq!(fx(i64::MAX).mul(fx(2 * FX_SCALE)).v, i64::MAX);
}

#[test]
fn vector_dot_and_length() {
    let a = Vec3 { x: fx(2 * FX_SCALE), y: fx(0), z: fx(0) };
    let b = Vec3 { x: fx(3 * FX_SCALE), y: fx(FX_SCALE), z: fx(0) };
    assert_eq!(a.dot(b).v, 6 * FX_SCALE);
    assert_eq!(a.length_squared().v, 4 * FX_SCALE);
    let n = Vec3 { x: fx(-FX_SCALE), y: fx(0), z: fx(0) };
    assert_eq!(n.abs_dot(a).v, 2 * FX_SCALE);
}

#[test]
fn spectrum_updates() {
    let f = Spectrum::splat(fx(FX_SCALE / 2));
    let cos = fx(FX_SCALE / 2);
    let pdf = fx(FX_SCALE / 4);
    // (0.5 * 0.5) / 0.25 == 1.0 per channel
    let w = f.sscale(cos).sdiv(pdf);
    assert_eq!(w.r.v, FX_SCALE);
    assert_eq!(w.g.v, FX_SCALE);
    assert_eq!(w.b.v, FX_SCALE);
    assert!(Spectrum::black().is_black());
    assert!(!w.is_black());
    let _ = Point2 { x: fx(0), y: fx(0) };
}
