//! Quaternions over the fixed-point scalar.

use vstd::prelude::*;

use crate::fx::{fx_add, fx_div, fx_mul, fx_neg, fx_sqrt, fx_sub, Fx, SCALE};
use crate::vec3::{Vec3, V3};

verus! {

/// How far the squared norm of a rotation may stray from one.
pub const UNIT_EPS: i64 = 65536;

/// The mathematical model of a quaternion: scalar part `w`, vector part
/// `x, y, z`.
pub ghost struct Q4 {
    pub w: int,
    pub x: int,
    pub y: int,
    pub z: int,
}

/// The identity rotation.
pub open spec fn q_identity() -> Q4 {
    Q4 { w: SCALE as int, x: 0, y: 0, z: 0 }
}

/// A pure quaternion (zero scalar part) from a vector.
pub open spec fn q_pure(v: V3) -> Q4 {
    Q4 { w: 0, x: v.x, y: v.y, z: v.z }
}

/// Component-wise addition.
pub open spec fn q_add(a: Q4, b: Q4) -> Q4 {
    Q4 { w: fx_add(a.w, b.w), x: fx_add(a.x, b.x), y: fx_add(a.y, b.y), z: fx_add(a.z, b.z) }
}

/// Scaling by a scalar.
pub open spec fn q_scale(s: int, a: Q4) -> Q4 {
    Q4 { w: fx_mul(s, a.w), x: fx_mul(s, a.x), y: fx_mul(s, a.y), z: fx_mul(s, a.z) }
}

/// Conjugation: the vector part negated.
pub open spec fn q_conj(a: Q4) -> Q4 {
    Q4 { w: a.w, x: fx_neg(a.x), y: fx_neg(a.y), z: fx_neg(a.z) }
}

/// The Hamilton product.
pub open spec fn q_mul(a: Q4, b: Q4) -> Q4 {
    Q4 {
        w: fx_sub(
            fx_sub(fx_sub(fx_mul(a.w, b.w), fx_mul(a.x, b.x)), fx_mul(a.y, b.y)),
            fx_mul(a.z, b.z),
        ),
        x: fx_sub(
            fx_add(fx_add(fx_mul(a.w, b.x), fx_mul(a.x, b.w)), fx_mul(a.y, b.z)),
            fx_mul(a.z, b.y),
        ),
        y: fx_add(
            fx_add(fx_sub(fx_mul(a.w, b.y), fx_mul(a.x, b.z)), fx_mul(a.y, b.w)),
            fx_mul(a.z, b.x),
        ),
        z: fx_add(
            fx_sub(fx_add(fx_mul(a.w, b.z), fx_mul(a.x, b.y)), fx_mul(a.y, b.x)),
            fx_mul(a.z, b.w),
        ),
    }
}

/// The squared norm.
pub open spec fn q_norm2(a: Q4) -> int {
    fx_add(fx_add(fx_add(fx_mul(a.w, a.w), fx_mul(a.x, a.x)), fx_mul(a.y, a.y)), fx_mul(a.z, a.z))
}

/// Whether the squared norm is within `UNIT_EPS` of one.
pub open spec fn q_is_unit(a: Q4) -> bool {
    SCALE - UNIT_EPS <= q_norm2(a) <= SCALE + UNIT_EPS
}

/// Rotation of a vector: `q v q*` for a unit quaternion `q`.
pub open spec fn q_rotate(q: Q4, v: V3) -> V3 {
    let r = q_mul(q_mul(q, q_pure(v)), q_conj(q));
    V3 { x: r.x, y: r.y, z: r.z }
}

/// Normalization; the identity when the norm rounds to zero.
pub open spec fn q_normalize(a: Q4) -> Q4 {
    let m = fx_sqrt(q_norm2(a));
    if m == 0 {
        q_identity()
    } else {
        Q4 { w: fx_div(a.w, m), x: fx_div(a.x, m), y: fx_div(a.y, m), z: fx_div(a.z, m) }
    }
}

/// A quaternion of fixed-point scalars.
#[derive(Clone, Copy, PartialEq, Eq, Structural, Debug)]
pub struct Quat {
    pub w: Fx,
    pub x: Fx,
    pub y: Fx,
    pub z: Fx,
}

impl View for Quat {
    type V = Q4;

    open spec fn view(&self) -> Q4 {
        Q4 { w: self.w@, x: self.x@, y: self.y@, z: self.z@ }
    }
}

impl Quat {
    /// A quaternion from its components.
    pub fn new(w: Fx, x: Fx, y: Fx, z: Fx) -> (r: Quat)
        ensures
            r@ == (Q4 { w: w@, x: x@, y: y@, z: z@ }),
    {
        Quat { w, x, y, z }
    }

    /// The identity rotation.
    pub fn identity() -> (r: Quat)
        ensures
            r@ == q_identity(),
    {
        Quat { w: Fx::one(), x: Fx::zero(), y: Fx::zero(), z: Fx::zero() }
    }

    /// A pure quaternion from a vector.
    pub fn pure(v: Vec3) -> (r: Quat)
        ensures
            r@ == q_pure(v@),
    {
        Quat { w: Fx::zero(), x: v.x, y: v.y, z: v.z }
    }

    /// Component-wise addition.
    pub fn plus(self, o: Quat) -> (r: Quat)
        ensures
            r@ == q_add(self@, o@),
    {
        Quat { w: self.w.plus(o.w), x: self.x.plus(o.x), y: self.y.plus(o.y), z: self.z.plus(o.z) }
    }

    /// Scaling by a scalar.
    pub fn scale(self, s: Fx) -> (r: Quat)
        ensures
            r@ == q_scale(s@, self@),
    {
        Quat { w: s.times(self.w), x: s.times(self.x), y: s.times(self.y), z: s.times(self.z) }
    }

    /// Conjugation.
    pub fn conjugate(self) -> (r: Quat)
        ensures
            r@ == q_conj(self@),
    {
        Quat { w: self.w, x: self.x.neg(), y: self.y.neg(), z: self.z.neg() }
    }

    /// The Hamilton product.
    pub fn times(self, o: Quat) -> (r: Quat)
        ensures
            r@ == q_mul(self@, o@),
    {
        let a = self;
        let b = o;
        Quat {
            w: a.w.times(b.w).minus(a.x.times(b.x)).minus(a.y.times(b.y)).minus(a.z.times(b.z)),
            x: a.w.times(b.x).plus(a.x.times(b.w)).plus(a.y.times(b.z)).minus(a.z.times(b.y)),
            y: a.w.times(b.y).minus(a.x.times(b.z)).plus(a.y.times(b.w)).plus(a.z.times(b.x)),
            z: a.w.times(b.z).plus(a.x.times(b.y)).minus(a.y.times(b.x)).plus(a.z.times(b.w)),
        }
    }

    /// The squared norm.
    pub fn norm2(self) -> (r: Fx)
        ensures
            r@ == q_norm2(self@),
    {
        self.w.times(self.w).plus(self.x.times(self.x)).plus(self.y.times(self.y)).plus(
            self.z.times(self.z),
        )
    }

    /// Whether the squared norm is within `UNIT_EPS` of one, decided
    /// executably.
    pub fn is_unit(self) -> (r: bool)
        ensures
            r == q_is_unit(self@),
    {
        let n2 = self.norm2();
        SCALE - UNIT_EPS <= n2.raw && n2.raw <= SCALE + UNIT_EPS
    }

    /// Rotation of a vector; meaningful for unit quaternions.
    pub fn rotate(self, v: Vec3) -> (r: Vec3)
        ensures
            r@ == q_rotate(self@, v@),
    {
        let t = self.times(Quat::pure(v)).times(self.conjugate());
        Vec3 { x: t.x, y: t.y, z: t.z }
    }

    /// Normalization; the identity when the norm rounds to zero.
    pub fn normalize(self) -> (r: Quat)
        ensures
            r@ == q_normalize(self@),
    {
        let m = self.norm2().sqrt();
        if m.raw == 0 {
            Quat::identity()
        } else {
            Quat {
                w: self.w.div_by(m),
                x: self.x.div_by(m),
                y: self.y.div_by(m),
                z: self.z.div_by(m),
            }
        }
    }
}

} // verus!
