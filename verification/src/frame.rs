//! Rigid pose algebra: a position and a unit rotation.

use vstd::prelude::*;

use crate::fx::{fx_div, fx_mul, iabs, quot_tz, Fx, SCALE};
use crate::quat::{
    q_add, q_conj, q_identity, q_is_unit, q_mul, q_normalize, q_pure, q_rotate, q_scale, Q4, Quat,
};
use crate::vec3::{v3_add, v3_neg, v3_scale, v3_sub, Vec3, V3};

verus! {

/// One half, in fixed point.
pub const HALF: i64 = 2147483648;

/// Two, in fixed point.
pub const TWO: i64 = 8589934592;

/// The mathematical model of a frame.
pub ghost struct FrameV {
    pub position: V3,
    pub rotation: Q4,
}

/// The identity frame.
pub open spec fn frame_identity() -> FrameV {
    FrameV { position: crate::vec3::v3_zero(), rotation: q_identity() }
}

/// A point taken from the frame's local space to global space: rotated,
/// then translated.
#[verifier::opaque]
pub open spec fn frame_act(f: FrameV, p: V3) -> V3 {
    v3_add(q_rotate(f.rotation, p), f.position)
}

/// The inverse pose: the conjugate rotation, and the negated position
/// carried through it.
#[verifier::opaque]
pub open spec fn frame_inverse(f: FrameV) -> FrameV {
    let inverse_rotation = q_conj(f.rotation);
    FrameV {
        position: q_rotate(inverse_rotation, v3_neg(f.position)),
        rotation: inverse_rotation,
    }
}

/// Composition: the resulting frame applies `inner` first, then `outer`.
#[verifier::opaque]
pub open spec fn frame_compose(outer: FrameV, inner: FrameV) -> FrameV {
    FrameV {
        position: v3_add(outer.position, q_rotate(outer.rotation, inner.position)),
        rotation: q_mul(outer.rotation, inner.rotation),
    }
}

/// Drift of a materially fixed global point between a past pose and this
/// one: the point is carried to local space by the current pose, placed
/// back by the past pose, and the difference taken.
#[verifier::opaque]
pub open spec fn frame_delta(f: FrameV, past: FrameV, global: V3) -> V3 {
    v3_sub(global, frame_act(past, frame_act(frame_inverse(f), global)))
}

/// One first-order integration step: the position advanced by `dt * v`,
/// the rotation advanced by `dt/2 * (pure w) * q` and renormalized. When
/// renormalization cannot certify a unit result the rotation is left as it
/// was, so the unit invariant is never lost.
#[verifier::opaque]
pub open spec fn frame_integrate(f: FrameV, dt: int, v: V3, w: V3) -> FrameV {
    let position = v3_add(f.position, v3_scale(dt, v));
    let dq = q_scale(fx_mul(dt, HALF as int), q_mul(q_pure(w), f.rotation));
    let candidate = q_normalize(q_add(f.rotation, dq));
    let rotation = if q_is_unit(candidate) {
        candidate
    } else {
        f.rotation
    };
    FrameV { position, rotation }
}

/// The velocities a pose change over `dt` implies: the position finitely
/// differenced, and the angular velocity taken from the imaginary part of
/// the rotation delta, sign-corrected to the shortest arc.
#[verifier::opaque]
pub open spec fn frame_derive(f: FrameV, past: FrameV, dt: int) -> (V3, V3) {
    let v = V3 {
        x: fx_div(v3_sub(f.position, past.position).x, dt),
        y: fx_div(v3_sub(f.position, past.position).y, dt),
        z: fx_div(v3_sub(f.position, past.position).z, dt),
    };
    let raw_dq = q_mul(f.rotation, q_conj(past.rotation));
    let dq = if raw_dq.w < 0 {
        q_scale(-SCALE as int, raw_dq)
    } else {
        raw_dq
    };
    let w = V3 {
        x: fx_div(fx_mul(TWO as int, dq.x), dt),
        y: fx_div(fx_mul(TWO as int, dq.y), dt),
        z: fx_div(fx_mul(TWO as int, dq.z), dt),
    };
    (v, w)
}

/// A pose: a position and a rotation. The rotation is kept unit-norm
/// (within `UNIT_EPS`) by every operation that produces a frame.
#[derive(Clone, Copy, PartialEq, Eq, Structural, Debug)]
pub struct Frame {
    pub position: Vec3,
    pub rotation: Quat,
}

impl View for Frame {
    type V = FrameV;

    open spec fn view(&self) -> FrameV {
        FrameV { position: self.position@, rotation: self.rotation@ }
    }
}

impl Frame {
    /// Whether the rotation is unit-norm.
    pub open spec fn wf(self) -> bool {
        q_is_unit(self@.rotation)
    }

    /// The identity frame.
    pub fn identity() -> (r: Frame)
        ensures
            r@ == frame_identity(),
            r.wf(),
    {
        let r = Frame { position: Vec3::zero(), rotation: Quat::identity() };
        proof {
            lemma_identity_is_unit();
        }
        r
    }

    /// A frame from a position and a rotation.
    pub fn new(position: Vec3, rotation: Quat) -> (r: Frame)
        ensures
            r@ == (FrameV { position: position@, rotation: rotation@ }),
    {
        Frame { position, rotation }
    }

    /// Takes a local point to global space.
    pub fn act(&self, p: Vec3) -> (r: Vec3)
        ensures
            r@ == frame_act(self@, p@),
    {
        proof {
            reveal(frame_act);
        }
        self.rotation.rotate(p).plus(self.position)
    }

    /// The inverse pose.
    pub fn inverse(&self) -> (r: Frame)
        ensures
            r@ == frame_inverse(self@),
    {
        proof {
            reveal(frame_inverse);
        }
        let inverse_rotation = self.rotation.conjugate();
        Frame {
            position: inverse_rotation.rotate(self.position.neg()),
            rotation: inverse_rotation,
        }
    }

    /// Composition; the result applies `inner` first, then `self`.
    pub fn compose(&self, inner: &Frame) -> (r: Frame)
        ensures
            r@ == frame_compose(self@, inner@),
    {
        proof {
            reveal(frame_compose);
        }
        Frame {
            position: self.position.plus(self.rotation.rotate(inner.position)),
            rotation: self.rotation.times(inner.rotation),
        }
    }

    /// Drift of a materially fixed global point between `past` and `self`.
    pub fn delta(&self, past: &Frame, global: Vec3) -> (r: Vec3)
        ensures
            r@ == frame_delta(self@, past@, global@),
    {
        proof {
            reveal(frame_delta);
        }
        let local = self.inverse().act(global);
        let past_global = past.act(local);
        global.minus(past_global)
    }

    /// One integration step; keeps the rotation unit-norm.
    pub fn integrate(&self, dt: Fx, v: Vec3, w: Vec3) -> (r: Frame)
        ensures
            r@ == frame_integrate(self@, dt@, v@, w@),
            self.wf() ==> r.wf(),
    {
        proof {
            reveal(frame_integrate);
        }
        let position = self.position.plus(v.scale(dt));
        let dq = Quat::pure(w).times(self.rotation).scale(dt.times(Fx { raw: HALF }));
        let candidate = self.rotation.plus(dq).normalize();
        let rotation = if candidate.is_unit() {
            candidate
        } else {
            self.rotation
        };
        Frame { position, rotation }
    }

    /// The velocities the change from `past` to `self` over `dt` implies.
    pub fn derive(&self, past: &Frame, dt: Fx) -> (r: (Vec3, Vec3))
        ensures
            r.0@ == frame_derive(self@, past@, dt@).0,
            r.1@ == frame_derive(self@, past@, dt@).1,
    {
        proof {
            reveal(frame_derive);
        }
        let d = self.position.minus(past.position);
        let v = Vec3 { x: d.x.div_by(dt), y: d.y.div_by(dt), z: d.z.div_by(dt) };
        let raw_dq = self.rotation.times(past.rotation.conjugate());
        let dq = if raw_dq.w.raw < 0 {
            raw_dq.scale(Fx { raw: -SCALE })
        } else {
            raw_dq
        };
        let two = Fx { raw: TWO };
        let w = Vec3 {
            x: two.times(dq.x).div_by(dt),
            y: two.times(dq.y).div_by(dt),
            z: two.times(dq.z).div_by(dt),
        };
        (v, w)
    }
}

impl Default for Frame {
    /// The identity frame.
    fn default() -> (r: Frame)
        ensures
            r@ == frame_identity(),
            r.wf(),
    {
        Frame::identity()
    }
}

/// The identity quaternion is unit-norm.
pub proof fn lemma_identity_is_unit()
    ensures
        q_is_unit(q_identity()),
{
    lemma_scale_divides(SCALE as int);
    assert(fx_mul(SCALE as int, SCALE as int) == SCALE as int);
}

/// Any sequence of integration steps keeps the rotation unit-norm: one
/// step of `frame_integrate` preserves the invariant, whatever `dt` and
/// the velocities are.
pub proof fn lemma_integrate_keeps_unit(f: FrameV, dt: int, v: V3, w: V3)
    requires
        q_is_unit(f.rotation),
    ensures
        q_is_unit(frame_integrate(f, dt, v, w).rotation),
{
    reveal(frame_integrate);
}

/// Multiples of the scale divide out exactly.
proof fn lemma_scale_divides(a: int)
    ensures
        quot_tz(SCALE as int * a, SCALE as int) == a,
{
    if a >= 0 {
        assert(iabs(SCALE as int * a) == SCALE as int * iabs(a)) by (nonlinear_arith);
        vstd::arithmetic::div_mod::lemma_div_multiples_vanish(a, SCALE as int);
    } else {
        assert(iabs(SCALE as int * a) == SCALE as int * iabs(a)) by (nonlinear_arith);
        vstd::arithmetic::div_mod::lemma_div_multiples_vanish(-a, SCALE as int);
    }
}

/// Rotating by the identity quaternion moves nothing, exactly.
pub proof fn lemma_rotate_identity(v: V3)
    requires
        i64::MIN <= v.x <= i64::MAX,
        i64::MIN <= v.y <= i64::MAX,
        i64::MIN <= v.z <= i64::MAX,
    ensures
        q_rotate(q_identity(), v) == v,
{
    lemma_scale_divides(v.x);
    lemma_scale_divides(v.y);
    lemma_scale_divides(v.z);
    assert(q_conj(q_identity()) == q_identity());
    assert(q_mul(q_identity(), q_pure(v)) == q_pure(v));
    assert(q_mul(q_pure(v), q_identity()) == q_pure(v));
    assert(q_rotate(q_identity(), v) == v);
}

/// For a frame that only translates, acting and then acting with the
/// inverse returns every point exactly, as long as no coordinate
/// saturates.
pub proof fn lemma_round_trip_translation(f: FrameV, p: V3)
    requires
        f.rotation == q_identity(),
        iabs(p.x) + iabs(f.position.x) <= i64::MAX,
        iabs(p.y) + iabs(f.position.y) <= i64::MAX,
        iabs(p.z) + iabs(f.position.z) <= i64::MAX,
        i64::MIN < f.position.x <= i64::MAX,
        i64::MIN < f.position.y <= i64::MAX,
        i64::MIN < f.position.z <= i64::MAX,
    ensures
        frame_act(frame_inverse(f), frame_act(f, p)) == p,
{
    reveal(frame_act);
    reveal(frame_inverse);
    assert(q_conj(q_identity()) == q_identity());
    lemma_rotate_identity(p);
    lemma_rotate_identity(v3_neg(f.position));
    lemma_rotate_identity(v3_add(q_rotate(q_identity(), p), f.position));
    assert(frame_act(frame_inverse(f), frame_act(f, p)) == p);
}

} // verus!
