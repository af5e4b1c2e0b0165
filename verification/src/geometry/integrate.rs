//! Mass properties of a convex polytope by face-projection integrals:
//! volume, mass, center of mass and inertia tensor, via the divergence
//! theorem over the faces, each projected along its dominant normal axis.

use vstd::prelude::*;

use crate::fx::{clip64, fx_add, fx_div, fx_from, fx_mul, fx_neg, fx_sub, iabs, Fx, SCALE};
use crate::geometry::Polytope;
use crate::mat3::{Mat3, M3};
use crate::vec3::{v3_comp, v3_div_scalar, v3_with_comp, v3_zero, Vec3, V3};

verus! {

/// Model of the integrals of `1, a, a^2, a^3, b, b^2, b^3, ab, a^2 b,
/// a b^2` over a face's projection onto the `(a, b)` plane.
pub ghost struct P10 {
    pub e: int,
    pub a: int,
    pub b: int,
    pub aa: int,
    pub ab: int,
    pub bb: int,
    pub aaa: int,
    pub aab: int,
    pub abb: int,
    pub bbb: int,
}

/// The all-zero projection integrals.
pub open spec fn p10_zero() -> P10 {
    P10 { e: 0, a: 0, b: 0, aa: 0, ab: 0, bb: 0, aaa: 0, aab: 0, abb: 0, bbb: 0 }
}

/// Component-wise accumulation.
pub open spec fn p10_add(x: P10, y: P10) -> P10 {
    P10 {
        e: fx_add(x.e, y.e),
        a: fx_add(x.a, y.a),
        b: fx_add(x.b, y.b),
        aa: fx_add(x.aa, y.aa),
        ab: fx_add(x.ab, y.ab),
        bb: fx_add(x.bb, y.bb),
        aaa: fx_add(x.aaa, y.aaa),
        aab: fx_add(x.aab, y.aab),
        abb: fx_add(x.abb, y.abb),
        bbb: fx_add(x.bbb, y.bbb),
    }
}

/// One boundary edge's contribution to the projection integrals.
pub open spec fn proj_term(a0: int, b0: int, a1: int, b1: int) -> P10 {
    let two = fx_from(2);
    let three = fx_from(3);
    let four = fx_from(4);
    let da = fx_sub(a1, a0);
    let db = fx_sub(b1, b0);
    let a0_2 = fx_mul(a0, a0);
    let a0_3 = fx_mul(a0_2, a0);
    let a0_4 = fx_mul(a0_3, a0);
    let b0_2 = fx_mul(b0, b0);
    let b0_3 = fx_mul(b0_2, b0);
    let b0_4 = fx_mul(b0_3, b0);
    let a1_2 = fx_mul(a1, a1);
    let a1_3 = fx_mul(a1_2, a1);
    let b1_2 = fx_mul(b1, b1);
    let b1_3 = fx_mul(b1_2, b1);
    let c_1 = fx_add(a1, a0);
    let c_a = fx_add(fx_mul(a1, c_1), a0_2);
    let c_aa = fx_add(fx_mul(a1, c_a), a0_3);
    let c_aaa = fx_add(fx_mul(a1, c_aa), a0_4);
    let c_b = fx_add(fx_mul(b1, fx_add(b1, b0)), b0_2);
    let c_bb = fx_add(fx_mul(b1, c_b), b0_3);
    let c_bbb = fx_add(fx_mul(b1, c_bb), b0_4);
    let c_ab = fx_add(fx_add(fx_mul(three, a1_2), fx_mul(fx_mul(two, a1), a0)), a0_2);
    let k_ab = fx_add(fx_add(a1_2, fx_mul(fx_mul(two, a1), a0)), fx_mul(three, a0_2));
    let c_aab = fx_add(fx_mul(a0, c_ab), fx_mul(four, a1_3));
    let k_aab = fx_add(fx_mul(a1, k_ab), fx_mul(four, a0_3));
    let c_abb = fx_add(
        fx_add(fx_add(fx_mul(four, b1_3), fx_mul(fx_mul(three, b1_2), b0)), fx_mul(fx_mul(two, b1), b0_2)),
        b0_3,
    );
    let k_abb = fx_add(
        fx_add(fx_add(b1_3, fx_mul(fx_mul(two, b1_2), b0)), fx_mul(fx_mul(three, b1), b0_2)),
        fx_mul(four, b0_3),
    );
    P10 {
        e: fx_mul(db, c_1),
        a: fx_mul(db, c_a),
        aa: fx_mul(db, c_aa),
        aaa: fx_mul(db, c_aaa),
        b: fx_mul(da, c_b),
        bb: fx_mul(da, c_bb),
        bbb: fx_mul(da, c_bbb),
        ab: fx_mul(db, fx_add(fx_mul(b1, c_ab), fx_mul(b0, k_ab))),
        aab: fx_mul(db, fx_add(fx_mul(b1, c_aab), fx_mul(b0, k_aab))),
        abb: fx_mul(da, fx_add(fx_mul(a1, c_abb), fx_mul(a0, k_abb))),
    }
}

/// The projection integrals accumulated over the first `i` boundary edges
/// of the face.
pub open spec fn proj_prefix(
    verts: Seq<Vec3>,
    face: Seq<usize>,
    alpha: int,
    beta: int,
    i: int,
) -> P10
    decreases i,
{
    if i <= 0 {
        p10_zero()
    } else {
        let prev = proj_prefix(verts, face, alpha, beta, i - 1);
        let next = if i == face.len() {
            0int
        } else {
            i
        };
        let a0 = v3_comp(verts[face[i - 1] as int]@, alpha);
        let b0 = v3_comp(verts[face[i - 1] as int]@, beta);
        let a1 = v3_comp(verts[face[next] as int]@, alpha);
        let b1 = v3_comp(verts[face[next] as int]@, beta);
        p10_add(prev, proj_term(a0, b0, a1, b1))
    }
}

/// The projection integrals of a whole face, normalized by the constant
/// factors of Green's theorem.
pub open spec fn spec_projection_integrals(
    verts: Seq<Vec3>,
    face: Seq<usize>,
    alpha: int,
    beta: int,
) -> P10 {
    let s = proj_prefix(verts, face, alpha, beta, face.len() as int);
    P10 {
        e: fx_div(s.e, fx_from(2)),
        a: fx_div(s.a, fx_from(6)),
        aa: fx_div(s.aa, fx_from(12)),
        aaa: fx_div(s.aaa, fx_from(20)),
        b: fx_div(s.b, fx_from(-6)),
        bb: fx_div(s.bb, fx_from(-12)),
        bbb: fx_div(s.bbb, fx_from(-20)),
        ab: fx_div(s.ab, fx_from(24)),
        aab: fx_div(s.aab, fx_from(60)),
        abb: fx_div(s.abb, fx_from(-60)),
    }
}

/// Model of the integrals of `a, b, c` powers over a face, `c` being the
/// dominant axis reconstructed from the plane equation.
pub ghost struct F12 {
    pub a: int,
    pub b: int,
    pub c: int,
    pub aa: int,
    pub bb: int,
    pub cc: int,
    pub aaa: int,
    pub bbb: int,
    pub ccc: int,
    pub aab: int,
    pub bbc: int,
    pub cca: int,
}

/// Face integrals from projection integrals, the plane offset `w` and the
/// face normal.
pub open spec fn spec_face_integrals(
    p: P10,
    w: int,
    n: V3,
    alpha: int,
    beta: int,
    gamma: int,
) -> F12 {
    let two = fx_from(2);
    let three = fx_from(3);
    let na = v3_comp(n, alpha);
    let nb = v3_comp(n, beta);
    let k1 = fx_div(SCALE as int, v3_comp(n, gamma));
    let k2 = fx_mul(k1, k1);
    let k3 = fx_mul(k2, k1);
    let k4 = fx_mul(k3, k1);
    F12 {
        a: fx_mul(k1, p.a),
        b: fx_mul(k1, p.b),
        c: fx_mul(
            fx_neg(k2),
            fx_add(fx_add(fx_mul(na, p.a), fx_mul(nb, p.b)), fx_mul(w, p.e)),
        ),
        aa: fx_mul(k1, p.aa),
        bb: fx_mul(k1, p.bb),
        cc: fx_mul(
            k3,
            fx_add(
                fx_add(
                    fx_add(fx_mul(fx_mul(na, na), p.aa), fx_mul(fx_mul(fx_mul(two, na), nb), p.ab)),
                    fx_mul(fx_mul(nb, nb), p.bb),
                ),
                fx_mul(
                    w,
                    fx_add(fx_mul(two, fx_add(fx_mul(na, p.a), fx_mul(nb, p.b))), fx_mul(w, p.e)),
                ),
            ),
        ),
        aaa: fx_mul(k1, p.aaa),
        bbb: fx_mul(k1, p.bbb),
        ccc: fx_mul(
            fx_neg(k4),
            fx_add(
                fx_add(
                    fx_add(
                        fx_add(
                            fx_add(
                                fx_mul(fx_mul(fx_mul(na, na), na), p.aaa),
                                fx_mul(fx_mul(fx_mul(three, fx_mul(na, na)), nb), p.aab),
                            ),
                            fx_mul(fx_mul(fx_mul(three, na), fx_mul(nb, nb)), p.abb),
                        ),
                        fx_mul(fx_mul(fx_mul(nb, nb), nb), p.bbb),
                    ),
                    fx_mul(
                        fx_mul(three, w),
                        fx_add(
                            fx_add(
                                fx_mul(fx_mul(na, na), p.aa),
                                fx_mul(fx_mul(fx_mul(two, na), nb), p.ab),
                            ),
                            fx_mul(fx_mul(nb, nb), p.bb),
                        ),
                    ),
                ),
                fx_mul(
                    fx_mul(w, w),
                    fx_add(fx_mul(three, fx_add(fx_mul(na, p.a), fx_mul(nb, p.b))), fx_mul(w, p.e)),
                ),
            ),
        ),
        aab: fx_mul(k1, p.aab),
        bbc: fx_mul(
            fx_neg(k2),
            fx_add(fx_add(fx_mul(na, p.abb), fx_mul(nb, p.bbb)), fx_mul(w, p.bb)),
        ),
        cca: fx_mul(
            k3,
            fx_add(
                fx_add(
                    fx_add(fx_mul(fx_mul(na, na), p.aaa), fx_mul(fx_mul(fx_mul(two, na), nb), p.aab)),
                    fx_mul(fx_mul(nb, nb), p.abb),
                ),
                fx_mul(
                    w,
                    fx_add(fx_mul(two, fx_add(fx_mul(na, p.aa), fx_mul(nb, p.ab))), fx_mul(w, p.a)),
                ),
            ),
        ),
    }
}

/// Model of the accumulated volume integrals.
pub ghost struct VI4 {
    pub t0: int,
    pub t1: V3,
    pub t2: V3,
    pub tp: V3,
}

/// The all-zero volume integrals.
pub open spec fn vi4_zero() -> VI4 {
    VI4 { t0: 0, t1: v3_zero(), t2: v3_zero(), tp: v3_zero() }
}

/// The dominant axis of a normal: the coordinate of greatest magnitude,
/// earlier axes winning ties as the comparisons are strict.
pub open spec fn face_gamma(n: V3) -> int {
    let ax = clip64(iabs(n.x));
    let ay = clip64(iabs(n.y));
    let az = clip64(iabs(n.z));
    if ax > ay && ax > az {
        0
    } else if ay > az {
        1
    } else {
        2
    }
}

/// Adds `amount` to component `i` of the vector.
pub open spec fn v3_bump(v: V3, i: int, amount: int) -> V3 {
    v3_with_comp(v, i, fx_add(v3_comp(v, i), amount))
}

/// One face's contribution folded into the volume integrals.
pub open spec fn vol_step(acc: VI4, p: Polytope, i: int) -> VI4 {
    let pl = p.spec_plane(i);
    let n = pl.normal;
    let gamma = face_gamma(n);
    let alpha = if gamma == 2 {
        0int
    } else {
        gamma + 1
    };
    let beta = if alpha == 2 {
        0int
    } else {
        alpha + 1
    };
    let w = fx_neg(pl.displacement);
    let f = spec_face_integrals(
        spec_projection_integrals(p.vertices@, p.faces@[i]@, alpha, beta),
        w,
        n,
        alpha,
        beta,
        gamma,
    );
    let t0_term = fx_mul(
        n.x,
        if alpha == 0 {
            f.a
        } else if beta == 0 {
            f.b
        } else {
            f.c
        },
    );
    VI4 {
        t0: fx_add(acc.t0, t0_term),
        t1: v3_bump(
            v3_bump(v3_bump(acc.t1, alpha, fx_mul(v3_comp(n, alpha), f.aa)), beta, fx_mul(v3_comp(n, beta), f.bb)),
            gamma,
            fx_mul(v3_comp(n, gamma), f.cc),
        ),
        t2: v3_bump(
            v3_bump(v3_bump(acc.t2, alpha, fx_mul(v3_comp(n, alpha), f.aaa)), beta, fx_mul(v3_comp(n, beta), f.bbb)),
            gamma,
            fx_mul(v3_comp(n, gamma), f.ccc),
        ),
        tp: v3_bump(
            v3_bump(v3_bump(acc.tp, alpha, fx_mul(v3_comp(n, alpha), f.aab)), beta, fx_mul(v3_comp(n, beta), f.bbc)),
            gamma,
            fx_mul(v3_comp(n, gamma), f.cca),
        ),
    }
}

/// The volume integrals over the first `i` faces.
pub open spec fn vol_prefix(p: Polytope, i: int) -> VI4
    decreases i,
{
    if i <= 0 {
        vi4_zero()
    } else {
        vol_step(vol_prefix(p, i - 1), p, i - 1)
    }
}

/// The volume integrals of the whole polytope, normalized.
pub open spec fn spec_volume_integrals(p: Polytope) -> VI4 {
    let t = vol_prefix(p, p.faces@.len() as int);
    VI4 {
        t0: t.t0,
        t1: v3_div_scalar(t.t1, fx_from(2)),
        t2: v3_div_scalar(t.t2, fx_from(3)),
        tp: v3_div_scalar(t.tp, fx_from(2)),
    }
}

/// Model of a body's mass properties.
pub ghost struct RM {
    pub mass: int,
    pub volume: int,
    pub center_of_mass: V3,
    pub inertia_tensor: M3,
}

/// Mass properties from the volume integrals and a density: the inertia
/// tensor is assembled about the origin and then translated to the center
/// of mass.
pub open spec fn spec_rigid_metrics(p: Polytope, density: int) -> RM {
    let t = spec_volume_integrals(p);
    let m = fx_mul(density, t.t0);
    let r = v3_div_scalar(t.t1, t.t0);
    let jxx = fx_mul(density, fx_add(t.t2.y, t.t2.z));
    let jyy = fx_mul(density, fx_add(t.t2.z, t.t2.x));
    let jzz = fx_mul(density, fx_add(t.t2.x, t.t2.y));
    let jxy = fx_mul(fx_neg(density), t.tp.x);
    let jyz = fx_mul(fx_neg(density), t.tp.y);
    let jzx = fx_mul(fx_neg(density), t.tp.z);
    let jxx2 = fx_sub(jxx, fx_mul(m, fx_add(fx_mul(r.y, r.y), fx_mul(r.z, r.z))));
    let jyy2 = fx_sub(jyy, fx_mul(m, fx_add(fx_mul(r.z, r.z), fx_mul(r.x, r.x))));
    let jzz2 = fx_sub(jzz, fx_mul(m, fx_add(fx_mul(r.x, r.x), fx_mul(r.y, r.y))));
    let jxy2 = fx_add(jxy, fx_mul(fx_mul(m, r.x), r.y));
    let jyz2 = fx_add(jyz, fx_mul(fx_mul(m, r.y), r.z));
    let jzx2 = fx_add(jzx, fx_mul(fx_mul(m, r.z), r.x));
    RM {
        mass: m,
        volume: t.t0,
        center_of_mass: r,
        inertia_tensor: M3 {
            x: V3 { x: jxx2, y: jxy2, z: jzx2 },
            y: V3 { x: jxy2, y: jyy2, z: jyz2 },
            z: V3 { x: jzx2, y: jyz2, z: jzz2 },
        },
    }
}

/// A body's mass properties.
#[derive(Clone, Copy, PartialEq, Eq, Structural, Debug)]
pub struct RigidMetrics {
    pub mass: Fx,
    pub volume: Fx,
    pub center_of_mass: Vec3,
    pub inertia_tensor: Mat3,
}

impl View for RigidMetrics {
    type V = RM;

    open spec fn view(&self) -> RM {
        RM {
            mass: self.mass@,
            volume: self.volume@,
            center_of_mass: self.center_of_mass@,
            inertia_tensor: self.inertia_tensor@,
        }
    }
}

/// Executable projection integrals.
struct Proj {
    e: Fx,
    a: Fx,
    b: Fx,
    aa: Fx,
    ab: Fx,
    bb: Fx,
    aaa: Fx,
    aab: Fx,
    abb: Fx,
    bbb: Fx,
}

impl View for Proj {
    type V = P10;

    closed spec fn view(&self) -> P10 {
        P10 {
            e: self.e@,
            a: self.a@,
            b: self.b@,
            aa: self.aa@,
            ab: self.ab@,
            bb: self.bb@,
            aaa: self.aaa@,
            aab: self.aab@,
            abb: self.abb@,
            bbb: self.bbb@,
        }
    }
}

/// Integrations over the projection of a face onto the plane of the axes
/// `alpha` and `beta`.
fn projection_integrals(
    verts: &Vec<Vec3>,
    face: &Vec<usize>,
    alpha: usize,
    beta: usize,
) -> (r: Proj)
    requires
        alpha < 3,
        beta < 3,
        face@.len() > 0,
        forall|j: int| 0 <= j < face@.len() ==> (#[trigger] face@[j]) < verts@.len(),
    ensures
        r@ == spec_projection_integrals(verts@, face@, alpha as int, beta as int),
{
    let z = Fx::zero();
    let mut acc = Proj { e: z, a: z, b: z, aa: z, ab: z, bb: z, aaa: z, aab: z, abb: z, bbb: z };
    let n = face.len();
    let two = Fx::from_int(2);
    let three = Fx::from_int(3);
    let four = Fx::from_int(4);
    for i in 0..n
        invariant
            alpha < 3,
            beta < 3,
            n == face@.len(),
            n > 0,
            forall|j: int| 0 <= j < face@.len() ==> (#[trigger] face@[j]) < verts@.len(),
            two@ == fx_from(2),
            three@ == fx_from(3),
            four@ == fx_from(4),
            acc@ == proj_prefix(verts@, face@, alpha as int, beta as int, i as int),
    {
        let next = if i + 1 == n {
            0
        } else {
            i + 1
        };
        let p0 = verts[face[i]];
        let p1 = verts[face[next]];
        let a0 = p0.comp(alpha);
        let b0 = p0.comp(beta);
        let a1 = p1.comp(alpha);
        let b1 = p1.comp(beta);
        let da = a1.minus(a0);
        let db = b1.minus(b0);
        let a0_2 = a0.times(a0);
        let a0_3 = a0_2.times(a0);
        let a0_4 = a0_3.times(a0);
        let b0_2 = b0.times(b0);
        let b0_3 = b0_2.times(b0);
        let b0_4 = b0_3.times(b0);
        let a1_2 = a1.times(a1);
        let a1_3 = a1_2.times(a1);
        let b1_2 = b1.times(b1);
        let b1_3 = b1_2.times(b1);
        let c_1 = a1.plus(a0);
        let c_a = a1.times(c_1).plus(a0_2);
        let c_aa = a1.times(c_a).plus(a0_3);
        let c_aaa = a1.times(c_aa).plus(a0_4);
        let c_b = b1.times(b1.plus(b0)).plus(b0_2);
        let c_bb = b1.times(c_b).plus(b0_3);
        let c_bbb = b1.times(c_bb).plus(b0_4);
        let c_ab = three.times(a1_2).plus(two.times(a1).times(a0)).plus(a0_2);
        let k_ab = a1_2.plus(two.times(a1).times(a0)).plus(three.times(a0_2));
        let c_aab = a0.times(c_ab).plus(four.times(a1_3));
        let k_aab = a1.times(k_ab).plus(four.times(a0_3));
        let c_abb = four.times(b1_3).plus(three.times(b1_2).times(b0)).plus(
            two.times(b1).times(b0_2),
        ).plus(b0_3);
        let k_abb = b1_3.plus(two.times(b1_2).times(b0)).plus(three.times(b1).times(b0_2)).plus(
            four.times(b0_3),
        );
        acc = Proj {
            e: acc.e.plus(db.times(c_1)),
            a: acc.a.plus(db.times(c_a)),
            aa: acc.aa.plus(db.times(c_aa)),
            aaa: acc.aaa.plus(db.times(c_aaa)),
            b: acc.b.plus(da.times(c_b)),
            bb: acc.bb.plus(da.times(c_bb)),
            bbb: acc.bbb.plus(da.times(c_bbb)),
            ab: acc.ab.plus(db.times(b1.times(c_ab).plus(b0.times(k_ab)))),
            aab: acc.aab.plus(db.times(b1.times(c_aab).plus(b0.times(k_aab)))),
            abb: acc.abb.plus(da.times(a1.times(c_abb).plus(a0.times(k_abb)))),
        };
    }
    Proj {
        e: acc.e.div_by(two),
        a: acc.a.div_by(Fx::from_int(6)),
        aa: acc.aa.div_by(Fx::from_int(12)),
        aaa: acc.aaa.div_by(Fx::from_int(20)),
        b: acc.b.div_by(Fx::from_int(-6)),
        bb: acc.bb.div_by(Fx::from_int(-12)),
        bbb: acc.bbb.div_by(Fx::from_int(-20)),
        ab: acc.ab.div_by(Fx::from_int(24)),
        aab: acc.aab.div_by(Fx::from_int(60)),
        abb: acc.abb.div_by(Fx::from_int(-60)),
    }
}

/// Executable face integrals.
struct FaceInts {
    a: Fx,
    b: Fx,
    c: Fx,
    aa: Fx,
    bb: Fx,
    cc: Fx,
    aaa: Fx,
    bbb: Fx,
    ccc: Fx,
    aab: Fx,
    bbc: Fx,
    cca: Fx,
}

impl View for FaceInts {
    type V = F12;

    closed spec fn view(&self) -> F12 {
        F12 {
            a: self.a@,
            b: self.b@,
            c: self.c@,
            aa: self.aa@,
            bb: self.bb@,
            cc: self.cc@,
            aaa: self.aaa@,
            bbb: self.bbb@,
            ccc: self.ccc@,
            aab: self.aab@,
            bbc: self.bbc@,
            cca: self.cca@,
        }
    }
}

/// Integrations over a face from its projection integrals.
fn face_integrals(p: &Proj, w: Fx, n: Vec3, alpha: usize, beta: usize, gamma: usize) -> (r:
    FaceInts)
    requires
        alpha < 3,
        beta < 3,
        gamma < 3,
    ensures
        r@ == spec_face_integrals(p@, w@, n@, alpha as int, beta as int, gamma as int),
{
    let two = Fx::from_int(2);
    let three = Fx::from_int(3);
    let na = n.comp(alpha);
    let nb = n.comp(beta);
    let k1 = Fx::one().div_by(n.comp(gamma));
    let k2 = k1.times(k1);
    let k3 = k2.times(k1);
    let k4 = k3.times(k1);
    FaceInts {
        a: k1.times(p.a),
        b: k1.times(p.b),
        c: k2.neg().times(na.times(p.a).plus(nb.times(p.b)).plus(w.times(p.e))),
        aa: k1.times(p.aa),
        bb: k1.times(p.bb),
        cc: k3.times(
            na.times(na).times(p.aa).plus(two.times(na).times(nb).times(p.ab)).plus(
                nb.times(nb).times(p.bb),
            ).plus(w.times(two.times(na.times(p.a).plus(nb.times(p.b))).plus(w.times(p.e)))),
        ),
        aaa: k1.times(p.aaa),
        bbb: k1.times(p.bbb),
        ccc: k4.neg().times(
            na.times(na).times(na).times(p.aaa).plus(
                three.times(na.times(na)).times(nb).times(p.aab),
            ).plus(three.times(na).times(nb.times(nb)).times(p.abb)).plus(
                nb.times(nb).times(nb).times(p.bbb),
            ).plus(
                three.times(w).times(
                    na.times(na).times(p.aa).plus(two.times(na).times(nb).times(p.ab)).plus(
                        nb.times(nb).times(p.bb),
                    ),
                ),
            ).plus(
                w.times(w).times(three.times(na.times(p.a).plus(nb.times(p.b))).plus(w.times(p.e))),
            ),
        ),
        aab: k1.times(p.aab),
        bbc: k2.neg().times(na.times(p.abb).plus(nb.times(p.bbb)).plus(w.times(p.bb))),
        cca: k3.times(
            na.times(na).times(p.aaa).plus(two.times(na).times(nb).times(p.aab)).plus(
                nb.times(nb).times(p.abb),
            ).plus(w.times(two.times(na.times(p.aa).plus(nb.times(p.ab))).plus(w.times(p.a)))),
        ),
    }
}

/// Adds `amount` to component `i` of the vector.
fn bump(v: Vec3, i: usize, amount: Fx) -> (r: Vec3)
    requires
        i < 3,
    ensures
        r@ == v3_bump(v@, i as int, amount@),
{
    v.with_comp(i, v.comp(i).plus(amount))
}

/// The volume integrals of the polytope, one face at a time, each face
/// projected along the dominant axis of its normal.
#[verifier::rlimit(100)]
fn volume_integrals(p: &Polytope) -> (r: (Fx, Vec3, Vec3, Vec3))
    requires
        p.wf(),
    ensures
        r.0@ == spec_volume_integrals(*p).t0,
        r.1@ == spec_volume_integrals(*p).t1,
        r.2@ == spec_volume_integrals(*p).t2,
        r.3@ == spec_volume_integrals(*p).tp,
{
    let mut t0 = Fx::zero();
    let mut t1 = Vec3::zero();
    let mut t2 = Vec3::zero();
    let mut tp = Vec3::zero();
    let n_faces = p.faces.len();
    for i in 0..n_faces
        invariant
            p.wf(),
            n_faces == p.faces@.len(),
            t0@ == vol_prefix(*p, i as int).t0,
            t1@ == vol_prefix(*p, i as int).t1,
            t2@ == vol_prefix(*p, i as int).t2,
            tp@ == vol_prefix(*p, i as int).tp,
    {
        let pl = p.plane(i);
        let n = pl.normal;
        let ax = n.x.abs();
        let ay = n.y.abs();
        let az = n.z.abs();
        let gamma: usize = if ax.raw > ay.raw && ax.raw > az.raw {
            0
        } else if ay.raw > az.raw {
            1
        } else {
            2
        };
        let alpha: usize = if gamma == 2 {
            0
        } else {
            gamma + 1
        };
        let beta: usize = if alpha == 2 {
            0
        } else {
            alpha + 1
        };
        let w = pl.constant();
        let proj = projection_integrals(&p.vertices, &p.faces[i], alpha, beta);
        let f = face_integrals(&proj, w, n, alpha, beta, gamma);
        let t0_term = n.x.times(
            if alpha == 0 {
                f.a
            } else if beta == 0 {
                f.b
            } else {
                f.c
            },
        );
        t0 = t0.plus(t0_term);
        t1 = bump(
            bump(bump(t1, alpha, n.comp(alpha).times(f.aa)), beta, n.comp(beta).times(f.bb)),
            gamma,
            n.comp(gamma).times(f.cc),
        );
        t2 = bump(
            bump(bump(t2, alpha, n.comp(alpha).times(f.aaa)), beta, n.comp(beta).times(f.bbb)),
            gamma,
            n.comp(gamma).times(f.ccc),
        );
        tp = bump(
            bump(bump(tp, alpha, n.comp(alpha).times(f.aab)), beta, n.comp(beta).times(f.bbc)),
            gamma,
            n.comp(gamma).times(f.cca),
        );
    }
    (t0, t1.div_scalar(Fx::from_int(2)), t2.div_scalar(Fx::from_int(3)), tp.div_scalar(Fx::from_int(2)))
}

/// Mass, volume, center of mass and inertia tensor of a well-formed,
/// closed, convex, outward-oriented polytope of uniform density; the
/// result is unspecified (though still pinned by the model) otherwise.
pub fn rigid_metrics(polytope: &Polytope, density: Fx) -> (r: RigidMetrics)
    requires
        polytope.wf(),
    ensures
        r@ == spec_rigid_metrics(*polytope, density@),
{
    let (t0, t1, t2, tp) = volume_integrals(polytope);
    let m = density.times(t0);
    let r = t1.div_scalar(t0);
    let jxx = density.times(t2.y.plus(t2.z));
    let jyy = density.times(t2.z.plus(t2.x));
    let jzz = density.times(t2.x.plus(t2.y));
    let jxy = density.neg().times(tp.x);
    let jyz = density.neg().times(tp.y);
    let jzx = density.neg().times(tp.z);
    let jxx2 = jxx.minus(m.times(r.y.times(r.y).plus(r.z.times(r.z))));
    let jyy2 = jyy.minus(m.times(r.z.times(r.z).plus(r.x.times(r.x))));
    let jzz2 = jzz.minus(m.times(r.x.times(r.x).plus(r.y.times(r.y))));
    let jxy2 = jxy.plus(m.times(r.x).times(r.y));
    let jyz2 = jyz.plus(m.times(r.y).times(r.z));
    let jzx2 = jzx.plus(m.times(r.z).times(r.x));
    RigidMetrics {
        mass: m,
        volume: t0,
        center_of_mass: r,
        inertia_tensor: Mat3 {
            x: Vec3 { x: jxx2, y: jxy2, z: jzx2 },
            y: Vec3 { x: jxy2, y: jyy2, z: jyz2 },
            z: Vec3 { x: jzx2, y: jyz2, z: jzz2 },
        },
    }
}

} // verus!
