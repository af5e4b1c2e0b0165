//! Exact behavior of the fixed-point scalar, vector, quaternion and
//! matrix arithmetic.

use rigid_kernel::fx::{Fx, SCALE};
use rigid_kernel::mat3::Mat3;
use rigid_kernel::quat::Quat;
use rigid_kernel::vec3::Vec3;

fn fx_of(v: f64) -> Fx {
    Fx {
        raw: (v * SCALE as f64).round() as i64,
    }
}

fn f64_of(x: Fx) -> f64 {
    x.raw as f64 / SCALE as f64
}

#[test]
fn fx_add_sub_exact() {
    let a = Fx::from_int(3);
    let b = Fx::from_int(-5);
    assert_eq!(a.plus(b).raw, -2 * SCALE);
    assert_eq!(a.minus(b).raw, 8 * SCALE);
    assert_eq!(b.neg().raw, 5 * SCALE);
}

#[test]
fn fx_add_saturates() {
    let top = Fx { raw: i64::MAX };
    assert_eq!(top.plus(Fx::one()).raw, i64::MAX);
    let bottom = Fx { raw: i64::MIN };
    assert_eq!(bottom.minus(Fx::one()).raw, i64::MIN);
    assert_eq!(bottom.neg().raw, i64::MAX);
}

#[test]
fn fx_mul_exact() {
    // 1.5 * 2 = 3, exactly representable.
    let half3 = Fx { raw: SCALE + SCALE / 2 };
    assert_eq!(half3.times(Fx::from_int(2)).raw, 3 * SCALE);
    // Signs round toward zero.
    let third = Fx::one().div_by(Fx::from_int(3));
    assert_eq!(third.raw, SCALE / 3);
    let neg_third = Fx::from_int(-1).div_by(Fx::from_int(3));
    assert_eq!(neg_third.raw, -(SCALE / 3));
}

#[test]
fn fx_div_by_zero_is_zero() {
    assert_eq!(Fx::from_int(7).div_by(Fx::zero()).raw, 0);
}

#[test]
fn fx_ratio_matches_division() {
    assert_eq!(Fx::ratio(2, 5).raw, Fx::from_int(2).div_by(Fx::from_int(5)).raw);
    assert_eq!(Fx::ratio(1, 1000000).raw, (SCALE as i128 * SCALE as i128 / (1000000 * SCALE as i128)) as i64);
}

#[test]
fn fx_sqrt_exact_squares() {
    assert_eq!(Fx::from_int(4).sqrt().raw, 2 * SCALE);
    assert_eq!(Fx::from_int(9).sqrt().raw, 3 * SCALE);
    // sqrt(2) rounds down to the fixed-point floor of sqrt(2) * 2^32.
    assert_eq!(Fx::from_int(2).sqrt().raw, 6074000999);
}

#[test]
fn fx_sqrt_of_negative_is_zero() {
    assert_eq!(Fx::from_int(-1).sqrt().raw, 0);
}

#[test]
fn fx_order_and_magnitude_helpers() {
    let a = Fx::from_int(-2);
    let b = Fx::from_int(3);
    assert!(a.lt(b));
    assert!(a.le(b));
    assert_eq!(a.min(b).raw, a.raw);
    assert_eq!(a.max(b).raw, b.raw);
    assert_eq!(a.abs().raw, 2 * SCALE);
    assert_eq!(Fx::from_usize(5).raw, 5 * SCALE);
}

#[test]
fn vec3_dot_and_cross_exact() {
    let a = Vec3::new(Fx::from_int(1), Fx::from_int(2), Fx::from_int(3));
    let b = Vec3::new(Fx::from_int(4), Fx::from_int(5), Fx::from_int(6));
    assert_eq!(a.dot(b).raw, 32 * SCALE);
    let c = a.cross(b);
    assert_eq!(c.x.raw, -3 * SCALE);
    assert_eq!(c.y.raw, 6 * SCALE);
    assert_eq!(c.z.raw, -3 * SCALE);
}

#[test]
fn vec3_magnitude_pythagorean() {
    let v = Vec3::new(Fx::from_int(3), Fx::from_int(4), Fx::zero());
    assert_eq!(v.magnitude().raw, 5 * SCALE);
    let n = v.normalize();
    assert!((f64_of(n.x) - 0.6).abs() < 1e-9);
    assert!((f64_of(n.y) - 0.8).abs() < 1e-9);
    assert_eq!(n.z.raw, 0);
}

#[test]
fn vec3_normalize_zero_is_zero() {
    let z = Vec3::zero().normalize();
    assert!(z.is_zero());
}

#[test]
fn vec3_project_on_axis() {
    let v = Vec3::new(fx_of(0.25), fx_of(-0.5), fx_of(2.0));
    let axis = Vec3::new(Fx::zero(), Fx::zero(), Fx::from_int(2));
    let p = v.project_on(axis);
    assert_eq!(p.x.raw, 0);
    assert_eq!(p.y.raw, 0);
    assert!((f64_of(p.z) - 2.0).abs() < 1e-8);
}

#[test]
fn quat_identity_rotates_nothing() {
    let v = Vec3::new(fx_of(0.3), fx_of(-0.7), fx_of(0.2));
    let r = Quat::identity().rotate(v);
    assert_eq!(r.x.raw, v.x.raw);
    assert_eq!(r.y.raw, v.y.raw);
    assert_eq!(r.z.raw, v.z.raw);
}

#[test]
fn quat_quarter_turn_about_z() {
    // cos(45 deg), sin(45 deg): a 90 degree rotation about z.
    let h = fx_of(0.5f64.sqrt());
    let q = Quat::new(h, Fx::zero(), Fx::zero(), h).normalize();
    let r = q.rotate(Vec3::new(Fx::one(), Fx::zero(), Fx::zero()));
    assert!(f64_of(r.x).abs() < 1e-5);
    assert!((f64_of(r.y) - 1.0).abs() < 1e-5);
    assert!(f64_of(r.z).abs() < 1e-5);
}

#[test]
fn quat_norm_and_unit_check() {
    assert_eq!(Quat::identity().norm2().raw, SCALE);
    assert!(Quat::identity().is_unit());
    let stretched = Quat::new(Fx::from_int(2), Fx::zero(), Fx::zero(), Fx::zero());
    assert!(!stretched.is_unit());
    assert!(stretched.normalize().is_unit());
}

#[test]
fn mat3_inverts_diagonal_exactly() {
    let m = Mat3::from_cols(
        Vec3::new(Fx::from_int(2), Fx::zero(), Fx::zero()),
        Vec3::new(Fx::zero(), Fx::from_int(4), Fx::zero()),
        Vec3::new(Fx::zero(), Fx::zero(), Fx::from_int(8)),
    );
    let inv = m.invert().unwrap();
    assert_eq!(inv.x.x.raw, SCALE / 2);
    assert_eq!(inv.y.y.raw, SCALE / 4);
    assert_eq!(inv.z.z.raw, SCALE / 8);
    assert_eq!(inv.x.y.raw, 0);
}

#[test]
fn mat3_singular_has_no_inverse() {
    let m = Mat3::from_cols(
        Vec3::new(Fx::from_int(1), Fx::zero(), Fx::zero()),
        Vec3::new(Fx::from_int(2), Fx::zero(), Fx::zero()),
        Vec3::new(Fx::zero(), Fx::zero(), Fx::from_int(1)),
    );
    assert!(m.invert().is_none());
}

#[test]
fn mat3_times_vector() {
    let m = Mat3::from_cols(
        Vec3::new(Fx::from_int(1), Fx::zero(), Fx::zero()),
        Vec3::new(Fx::zero(), Fx::from_int(2), Fx::zero()),
        Vec3::new(Fx::zero(), Fx::zero(), Fx::from_int(3)),
    );
    let v = m.times_vec(Vec3::new(Fx::from_int(5), Fx::from_int(7), Fx::from_int(-1)));
    assert_eq!(v.x.raw, 5 * SCALE);
    assert_eq!(v.y.raw, 14 * SCALE);
    assert_eq!(v.z.raw, -3 * SCALE);
}
