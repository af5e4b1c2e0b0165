//! Pose algebra round trips and the unit-rotation invariant.

use rigid_kernel::frame::Frame;
use rigid_kernel::fx::{Fx, SCALE};
use rigid_kernel::quat::Quat;
use rigid_kernel::vec3::Vec3;

fn fxp(v: f64) -> Fx {
    Fx {
        raw: (v * SCALE as f64).round() as i64,
    }
}

fn fp(x: Fx) -> f64 {
    x.raw as f64 / SCALE as f64
}

fn vp(x: f64, y: f64, z: f64) -> Vec3 {
    Vec3::new(fxp(x), fxp(y), fxp(z))
}

fn rotation(axis: (f64, f64, f64), angle: f64) -> Quat {
    let m = (axis.0 * axis.0 + axis.1 * axis.1 + axis.2 * axis.2).sqrt();
    let s = (angle / 2.0).sin() / m;
    Quat::new(
        fxp((angle / 2.0).cos()),
        fxp(axis.0 * s),
        fxp(axis.1 * s),
        fxp(axis.2 * s),
    )
    .normalize()
}

#[test]
fn inverse_act_round_trip_translation_only() {
    let f = Frame::new(vp(1.25, -3.5, 0.75), Quat::identity());
    let p = vp(0.3, -0.7, 0.2);
    let back = f.inverse().act(f.act(p));
    // Pure translations round-trip exactly.
    assert_eq!(back.x.raw, p.x.raw);
    assert_eq!(back.y.raw, p.y.raw);
    assert_eq!(back.z.raw, p.z.raw);
}

#[test]
fn inverse_act_round_trip_general() {
    let f = Frame::new(vp(0.4, 2.0, -1.1), rotation((1.0, 2.0, -0.5), 0.9));
    let p = vp(0.3, -0.7, 0.2);
    let back = f.inverse().act(f.act(p));
    assert!((fp(back.x) - fp(p.x)).abs() < 1e-5);
    assert!((fp(back.y) - fp(p.y)).abs() < 1e-5);
    assert!((fp(back.z) - fp(p.z)).abs() < 1e-5);
}

#[test]
fn integrate_keeps_rotation_unit() {
    let mut f = Frame::identity();
    let dt = Fx::ratio(1, 60);
    let v = vp(0.1, -0.2, 0.05);
    let w = vp(0.5, 0.3, -0.2);
    for _ in 0..200 {
        f = f.integrate(dt, v, w);
        let n2 = f.rotation.norm2();
        let norm = (n2.raw as f64 / SCALE as f64).sqrt();
        assert!((norm - 1.0).abs() < 1e-5);
        assert!(f.rotation.is_unit());
    }
}

#[test]
fn integrate_advances_position_linearly() {
    let f = Frame::identity().integrate(Fx::from_int(2), vp(0.5, 0.0, -1.0), Vec3::zero());
    assert!((fp(f.position.x) - 1.0).abs() < 1e-8);
    assert!(fp(f.position.y).abs() < 1e-8);
    assert!((fp(f.position.z) + 2.0).abs() < 1e-8);
}

#[test]
fn derive_recovers_linear_velocity() {
    let past = Frame::identity();
    let now = Frame::new(vp(0.1, 0.0, -0.05), Quat::identity());
    let (v, w) = now.derive(&past, Fx::ratio(1, 10));
    assert!((fp(v.x) - 1.0).abs() < 1e-6);
    assert!((fp(v.z) + 0.5).abs() < 1e-6);
    assert!(fp(w.x).abs() < 1e-6 && fp(w.y).abs() < 1e-6 && fp(w.z).abs() < 1e-6);
}

#[test]
fn derive_recovers_angular_velocity_sign() {
    let past = Frame::identity();
    let dt = Fx::ratio(1, 10);
    let spun = Frame::new(Vec3::zero(), rotation((0.0, 0.0, 1.0), 0.1));
    let (_, w) = spun.derive(&past, dt);
    // A positive turn about z over a positive dt gives a positive w_z.
    assert!(fp(w.z) > 0.5);
    assert!(fp(w.x).abs() < 1e-3 && fp(w.y).abs() < 1e-3);
}

#[test]
fn compose_applies_inner_then_outer() {
    let outer = Frame::new(vp(1.0, 0.0, 0.0), Quat::identity());
    let inner = Frame::new(vp(0.0, 2.0, 0.0), Quat::identity());
    let both = outer.compose(&inner);
    let p = both.act(vp(0.0, 0.0, 3.0));
    assert!((fp(p.x) - 1.0).abs() < 1e-8);
    assert!((fp(p.y) - 2.0).abs() < 1e-8);
    assert!((fp(p.z) - 3.0).abs() < 1e-8);
}

#[test]
fn delta_vanishes_for_equal_frames() {
    let f = Frame::new(vp(0.4, 2.0, -1.1), rotation((0.3, 1.0, 0.2), 0.7));
    let g = vp(5.0, -1.0, 2.0);
    let d = f.delta(&f, g);
    assert!(fp(d.x).abs() < 1e-5);
    assert!(fp(d.y).abs() < 1e-5);
    assert!(fp(d.z).abs() < 1e-5);
}

#[test]
fn delta_reports_translation_drift() {
    let past = Frame::identity();
    let now = Frame::new(vp(0.0, 0.0, 0.25), Quat::identity());
    let g = vp(1.0, 1.0, 1.0);
    let d = now.delta(&past, g);
    // The materially fixed point sat 0.25 lower under the past pose.
    assert!(fp(d.x).abs() < 1e-6);
    assert!(fp(d.y).abs() < 1e-6);
    assert!((fp(d.z) - 0.25).abs() < 1e-6);
}
