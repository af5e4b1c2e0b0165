//! Three-component vectors over the fixed-point scalar.

use vstd::prelude::*;

use crate::fx::{fx_add, fx_div, fx_mul, fx_neg, fx_sqrt, fx_sub, Fx};

verus! {

/// The mathematical model of a vector: three unbounded fixed-point values.
pub ghost struct V3 {
    pub x: int,
    pub y: int,
    pub z: int,
}

/// Component-wise addition.
pub open spec fn v3_add(a: V3, b: V3) -> V3 {
    V3 { x: fx_add(a.x, b.x), y: fx_add(a.y, b.y), z: fx_add(a.z, b.z) }
}

/// Component-wise subtraction.
pub open spec fn v3_sub(a: V3, b: V3) -> V3 {
    V3 { x: fx_sub(a.x, b.x), y: fx_sub(a.y, b.y), z: fx_sub(a.z, b.z) }
}

/// Component-wise negation.
pub open spec fn v3_neg(a: V3) -> V3 {
    V3 { x: fx_neg(a.x), y: fx_neg(a.y), z: fx_neg(a.z) }
}

/// Scaling by a scalar.
pub open spec fn v3_scale(s: int, a: V3) -> V3 {
    V3 { x: fx_mul(s, a.x), y: fx_mul(s, a.y), z: fx_mul(s, a.z) }
}

/// Dot product, accumulated left to right.
pub open spec fn v3_dot(a: V3, b: V3) -> int {
    fx_add(fx_add(fx_mul(a.x, b.x), fx_mul(a.y, b.y)), fx_mul(a.z, b.z))
}

/// Cross product.
pub open spec fn v3_cross(a: V3, b: V3) -> V3 {
    V3 {
        x: fx_sub(fx_mul(a.y, b.z), fx_mul(a.z, b.y)),
        y: fx_sub(fx_mul(a.z, b.x), fx_mul(a.x, b.z)),
        z: fx_sub(fx_mul(a.x, b.y), fx_mul(a.y, b.x)),
    }
}

/// The zero vector.
pub open spec fn v3_zero() -> V3 {
    V3 { x: 0, y: 0, z: 0 }
}

/// Euclidean length: the square root of the dot square.
pub open spec fn v3_magnitude(a: V3) -> int {
    fx_sqrt(v3_dot(a, a))
}

/// Normalization; the zero vector when the length rounds to zero.
pub open spec fn v3_normalize(a: V3) -> V3 {
    let m = v3_magnitude(a);
    if m == 0 {
        v3_zero()
    } else {
        V3 { x: fx_div(a.x, m), y: fx_div(a.y, m), z: fx_div(a.z, m) }
    }
}

/// Component `i` of a vector, for `i` in `0 .. 3`.
pub open spec fn v3_comp(a: V3, i: int) -> int {
    if i == 0 {
        a.x
    } else if i == 1 {
        a.y
    } else {
        a.z
    }
}

/// The vector with component `i` replaced.
pub open spec fn v3_with_comp(a: V3, i: int, val: int) -> V3 {
    if i == 0 {
        V3 { x: val, y: a.y, z: a.z }
    } else if i == 1 {
        V3 { x: a.x, y: val, z: a.z }
    } else {
        V3 { x: a.x, y: a.y, z: val }
    }
}

/// Component-wise division by a scalar.
pub open spec fn v3_div_scalar(a: V3, s: int) -> V3 {
    V3 { x: fx_div(a.x, s), y: fx_div(a.y, s), z: fx_div(a.z, s) }
}

/// The executable vector a model vector denotes; exact when every
/// component is in the representable range.
pub open spec fn v3_to_vec3(v: V3) -> Vec3 {
    Vec3 { x: Fx { raw: v.x as i64 }, y: Fx { raw: v.y as i64 }, z: Fx { raw: v.z as i64 } }
}

/// Projection of `a` onto `n`: `n` scaled by `(a . n) / (n . n)`.
pub open spec fn v3_project_on(a: V3, n: V3) -> V3 {
    v3_scale(fx_div(v3_dot(a, n), v3_dot(n, n)), n)
}

/// A vector of three fixed-point scalars.
#[derive(Clone, Copy, PartialEq, Eq, Structural, Debug)]
pub struct Vec3 {
    pub x: Fx,
    pub y: Fx,
    pub z: Fx,
}

impl View for Vec3 {
    type V = V3;

    open spec fn view(&self) -> V3 {
        V3 { x: self.x@, y: self.y@, z: self.z@ }
    }
}

impl Vec3 {
    /// A vector from its components.
    pub fn new(x: Fx, y: Fx, z: Fx) -> (r: Vec3)
        ensures
            r@ == (V3 { x: x@, y: y@, z: z@ }),
    {
        Vec3 { x, y, z }
    }

    /// The zero vector.
    pub fn zero() -> (r: Vec3)
        ensures
            r@ == v3_zero(),
    {
        Vec3 { x: Fx::zero(), y: Fx::zero(), z: Fx::zero() }
    }

    /// Whether every component is zero.
    pub fn is_zero(self) -> (r: bool)
        ensures
            r == (self@ == v3_zero()),
    {
        self.x.raw == 0 && self.y.raw == 0 && self.z.raw == 0
    }

    /// Component-wise addition.
    pub fn plus(self, o: Vec3) -> (r: Vec3)
        ensures
            r@ == v3_add(self@, o@),
    {
        Vec3 { x: self.x.plus(o.x), y: self.y.plus(o.y), z: self.z.plus(o.z) }
    }

    /// Component-wise subtraction.
    pub fn minus(self, o: Vec3) -> (r: Vec3)
        ensures
            r@ == v3_sub(self@, o@),
    {
        Vec3 { x: self.x.minus(o.x), y: self.y.minus(o.y), z: self.z.minus(o.z) }
    }

    /// Component-wise negation.
    pub fn neg(self) -> (r: Vec3)
        ensures
            r@ == v3_neg(self@),
    {
        Vec3 { x: self.x.neg(), y: self.y.neg(), z: self.z.neg() }
    }

    /// Scaling by a scalar.
    pub fn scale(self, s: Fx) -> (r: Vec3)
        ensures
            r@ == v3_scale(s@, self@),
    {
        Vec3 { x: s.times(self.x), y: s.times(self.y), z: s.times(self.z) }
    }

    /// Dot product.
    pub fn dot(self, o: Vec3) -> (r: Fx)
        ensures
            r@ == v3_dot(self@, o@),
    {
        self.x.times(o.x).plus(self.y.times(o.y)).plus(self.z.times(o.z))
    }

    /// Cross product.
    pub fn cross(self, o: Vec3) -> (r: Vec3)
        ensures
            r@ == v3_cross(self@, o@),
    {
        Vec3 {
            x: self.y.times(o.z).minus(self.z.times(o.y)),
            y: self.z.times(o.x).minus(self.x.times(o.z)),
            z: self.x.times(o.y).minus(self.y.times(o.x)),
        }
    }

    /// Euclidean length.
    pub fn magnitude(self) -> (r: Fx)
        ensures
            r@ == v3_magnitude(self@),
    {
        self.dot(self).sqrt()
    }

    /// Normalization; the zero vector when the length rounds to zero, so a
    /// degenerate direction can be recognized and skipped by the caller.
    pub fn normalize(self) -> (r: Vec3)
        ensures
            r@ == v3_normalize(self@),
    {
        let m = self.magnitude();
        if m.raw == 0 {
            Vec3::zero()
        } else {
            Vec3 { x: self.x.div_by(m), y: self.y.div_by(m), z: self.z.div_by(m) }
        }
    }

    /// Component `i`, for `i` in `0 .. 3`.
    pub fn comp(self, i: usize) -> (r: Fx)
        requires
            i < 3,
        ensures
            r@ == v3_comp(self@, i as int),
    {
        if i == 0 {
            self.x
        } else if i == 1 {
            self.y
        } else {
            self.z
        }
    }

    /// The vector with component `i` replaced.
    pub fn with_comp(self, i: usize, val: Fx) -> (r: Vec3)
        requires
            i < 3,
        ensures
            r@ == v3_with_comp(self@, i as int, val@),
    {
        if i == 0 {
            Vec3 { x: val, y: self.y, z: self.z }
        } else if i == 1 {
            Vec3 { x: self.x, y: val, z: self.z }
        } else {
            Vec3 { x: self.x, y: self.y, z: val }
        }
    }

    /// Component-wise division by a scalar.
    pub fn div_scalar(self, s: Fx) -> (r: Vec3)
        ensures
            r@ == v3_div_scalar(self@, s@),
    {
        Vec3 { x: self.x.div_by(s), y: self.y.div_by(s), z: self.z.div_by(s) }
    }

    /// Projection onto `n`.
    pub fn project_on(self, n: Vec3) -> (r: Vec3)
        ensures
            r@ == v3_project_on(self@, n@),
    {
        n.scale(self.dot(n).div_by(n.dot(n)))
    }
}

} // verus!
