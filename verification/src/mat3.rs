//! Column-major 3x3 matrices over the fixed-point scalar.

use vstd::prelude::*;

use crate::fx::{fx_add, fx_div, fx_mul, fx_sub, Fx};
use crate::vec3::{v3_add, v3_scale, Vec3, V3};

verus! {

/// The mathematical model of a matrix: three columns.
pub ghost struct M3 {
    pub x: V3,
    pub y: V3,
    pub z: V3,
}

/// Matrix-vector product: the columns combined by the vector's components.
pub open spec fn m3_times_vec(m: M3, v: V3) -> V3 {
    v3_add(v3_add(v3_scale(v.x, m.x), v3_scale(v.y, m.y)), v3_scale(v.z, m.z))
}

/// Every entry scaled by a scalar.
pub open spec fn m3_scale(s: int, m: M3) -> M3 {
    M3 { x: v3_scale(s, m.x), y: v3_scale(s, m.y), z: v3_scale(s, m.z) }
}

/// The determinant, expanded along the first row.
pub open spec fn m3_det(m: M3) -> int {
    fx_add(
        fx_sub(
            fx_mul(m.x.x, fx_sub(fx_mul(m.y.y, m.z.z), fx_mul(m.z.y, m.y.z))),
            fx_mul(m.y.x, fx_sub(fx_mul(m.x.y, m.z.z), fx_mul(m.z.y, m.x.z))),
        ),
        fx_mul(m.z.x, fx_sub(fx_mul(m.x.y, m.y.z), fx_mul(m.y.y, m.x.z))),
    )
}

/// The adjugate scaled by the reciprocal determinant; meaningful when the
/// determinant is non-zero.
pub open spec fn m3_inverse(m: M3) -> M3 {
    let d = m3_det(m);
    M3 {
        x: V3 {
            x: fx_div(fx_sub(fx_mul(m.y.y, m.z.z), fx_mul(m.z.y, m.y.z)), d),
            y: fx_div(fx_sub(fx_mul(m.z.y, m.x.z), fx_mul(m.x.y, m.z.z)), d),
            z: fx_div(fx_sub(fx_mul(m.x.y, m.y.z), fx_mul(m.y.y, m.x.z)), d),
        },
        y: V3 {
            x: fx_div(fx_sub(fx_mul(m.z.x, m.y.z), fx_mul(m.y.x, m.z.z)), d),
            y: fx_div(fx_sub(fx_mul(m.x.x, m.z.z), fx_mul(m.z.x, m.x.z)), d),
            z: fx_div(fx_sub(fx_mul(m.y.x, m.x.z), fx_mul(m.x.x, m.y.z)), d),
        },
        z: V3 {
            x: fx_div(fx_sub(fx_mul(m.y.x, m.z.y), fx_mul(m.z.x, m.y.y)), d),
            y: fx_div(fx_sub(fx_mul(m.z.x, m.x.y), fx_mul(m.x.x, m.z.y)), d),
            z: fx_div(fx_sub(fx_mul(m.x.x, m.y.y), fx_mul(m.y.x, m.x.y)), d),
        },
    }
}

/// A 3x3 matrix of fixed-point scalars, stored as columns.
#[derive(Clone, Copy, PartialEq, Eq, Structural, Debug)]
pub struct Mat3 {
    pub x: Vec3,
    pub y: Vec3,
    pub z: Vec3,
}

impl View for Mat3 {
    type V = M3;

    open spec fn view(&self) -> M3 {
        M3 { x: self.x@, y: self.y@, z: self.z@ }
    }
}

impl Mat3 {
    /// The zero matrix.
    pub fn zero() -> (r: Mat3)
        ensures
            r@ == (M3 { x: crate::vec3::v3_zero(), y: crate::vec3::v3_zero(), z: crate::vec3::v3_zero() }),
    {
        Mat3 { x: Vec3::zero(), y: Vec3::zero(), z: Vec3::zero() }
    }

    /// A matrix from its columns.
    pub fn from_cols(x: Vec3, y: Vec3, z: Vec3) -> (r: Mat3)
        ensures
            r@ == (M3 { x: x@, y: y@, z: z@ }),
    {
        Mat3 { x, y, z }
    }

    /// Matrix-vector product.
    pub fn times_vec(&self, v: Vec3) -> (r: Vec3)
        ensures
            r@ == m3_times_vec(self@, v@),
    {
        self.x.scale(v.x).plus(self.y.scale(v.y)).plus(self.z.scale(v.z))
    }

    /// Every entry scaled by a scalar.
    pub fn scale(&self, s: Fx) -> (r: Mat3)
        ensures
            r@ == m3_scale(s@, self@),
    {
        Mat3 { x: self.x.scale(s), y: self.y.scale(s), z: self.z.scale(s) }
    }

    /// The determinant.
    pub fn det(&self) -> (r: Fx)
        ensures
            r@ == m3_det(self@),
    {
        let m = *self;
        m.x.x.times(m.y.y.times(m.z.z).minus(m.z.y.times(m.y.z))).minus(
            m.y.x.times(m.x.y.times(m.z.z).minus(m.z.y.times(m.x.z))),
        ).plus(m.z.x.times(m.x.y.times(m.y.z).minus(m.y.y.times(m.x.z))))
    }

    /// The inverse, by the adjugate; `None` exactly when the determinant
    /// is zero.
    pub fn invert(&self) -> (r: Option<Mat3>)
        ensures
            r is Some <==> m3_det(self@) != 0,
            r is Some ==> r->Some_0@ == m3_inverse(self@),
    {
        let d = self.det();
        if d.raw == 0 {
            return None;
        }
        let m = *self;
        Some(
            Mat3 {
                x: Vec3 {
                    x: m.y.y.times(m.z.z).minus(m.z.y.times(m.y.z)).div_by(d),
                    y: m.z.y.times(m.x.z).minus(m.x.y.times(m.z.z)).div_by(d),
                    z: m.x.y.times(m.y.z).minus(m.y.y.times(m.x.z)).div_by(d),
                },
                y: Vec3 {
                    x: m.z.x.times(m.y.z).minus(m.y.x.times(m.z.z)).div_by(d),
                    y: m.x.x.times(m.z.z).minus(m.z.x.times(m.x.z)).div_by(d),
                    z: m.y.x.times(m.x.z).minus(m.x.x.times(m.y.z)).div_by(d),
                },
                z: Vec3 {
                    x: m.y.x.times(m.z.y).minus(m.z.x.times(m.y.y)).div_by(d),
                    y: m.z.x.times(m.x.y).minus(m.x.x.times(m.z.y)).div_by(d),
                    z: m.x.x.times(m.y.y).minus(m.y.x.times(m.x.y)).div_by(d),
                },
            },
        )
    }
}

} // verus!
