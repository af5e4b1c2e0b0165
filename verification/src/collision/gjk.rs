//! The Gilbert-Johnson-Keerthi overlap test: does the Minkowski
//! difference of two convex shapes contain the origin?

use vstd::prelude::*;

use crate::frame::{Frame, FrameV};
use crate::fx::Fx;
use crate::geometry::Polytope;
use crate::vec3::{v3_cross, v3_dot, v3_neg, v3_sub, v3_zero, Vec3, V3};

verus! {

/// The iteration cap bounding the simplex refinement loop.
pub const GJK_MAX_ITERATIONS: usize = 64;

/// The model of a simplex of up to three points. The most recently added
/// point always comes first; the refinement steps rely on it.
pub ghost enum SimplexV {
    Point(V3),
    Line(V3, V3),
    Triangle(V3, V3, V3),
}

/// Simplices up to the triangle. The invariant that points appearing
/// earlier in a variant were added to the simplex more recently must be
/// upheld for the refinement to work.
#[derive(Clone, Copy, PartialEq, Eq, Structural, Debug)]
pub enum Simplex {
    Point(Vec3),
    Line(Vec3, Vec3),
    Triangle(Vec3, Vec3, Vec3),
}

impl View for Simplex {
    type V = SimplexV;

    open spec fn view(&self) -> SimplexV {
        match *self {
            Simplex::Point(a) => SimplexV::Point(a@),
            Simplex::Line(a, b) => SimplexV::Line(a@, b@),
            Simplex::Triangle(a, b, c) => SimplexV::Triangle(a@, b@, c@),
        }
    }
}

/// Four support points whose hull contains the origin.
pub type Tetrahedron = (Vec3, Vec3, Vec3, Vec3);

/// A line refined against the origin: keep the segment when the origin
/// projects inside it, else collapse to the newer point.
pub open spec fn spec_line(a: V3, b: V3) -> (SimplexV, V3) {
    let ab = v3_sub(b, a);
    let ao = v3_neg(a);
    if v3_dot(ab, ao) > 0 {
        (SimplexV::Line(a, b), v3_cross(v3_cross(ab, ao), ab))
    } else {
        (SimplexV::Point(a), ao)
    }
}

/// A triangle refined against the origin: pick the Voronoi region (two
/// edges, two sides) that contains the origin, re-orienting the triangle
/// so the returned normal points toward the origin.
pub open spec fn spec_triangle(a: V3, b: V3, c: V3) -> (SimplexV, V3) {
    let ab = v3_sub(b, a);
    let ac = v3_sub(c, a);
    let ao = v3_neg(a);
    let abc = v3_cross(ab, ac);
    if v3_dot(v3_cross(abc, ac), ao) > 0 {
        if v3_dot(ac, ao) > 0 {
            (SimplexV::Line(a, c), v3_cross(v3_cross(ac, ao), ac))
        } else {
            spec_line(a, b)
        }
    } else if v3_dot(v3_cross(ab, abc), ao) > 0 {
        spec_line(a, b)
    } else if v3_dot(abc, ao) > 0 {
        (SimplexV::Triangle(a, b, c), abc)
    } else {
        (SimplexV::Triangle(a, c, b), v3_neg(abc))
    }
}

/// A tetrahedron tested against the origin: recurse into the non-base
/// face that faces the origin, or report enclosure.
pub open spec fn spec_tetrahedron(a: V3, b: V3, c: V3, d: V3) -> Result<
    (V3, V3, V3, V3),
    (SimplexV, V3),
> {
    let ab = v3_sub(b, a);
    let ac = v3_sub(c, a);
    let ad = v3_sub(d, a);
    let ao = v3_neg(a);
    let abc = v3_cross(ab, ac);
    let acd = v3_cross(ac, ad);
    let adb = v3_cross(ad, ab);
    if v3_dot(abc, ao) > 0 {
        Err(spec_triangle(a, b, c))
    } else if v3_dot(acd, ao) > 0 {
        Err(spec_triangle(a, c, d))
    } else if v3_dot(adb, ao) > 0 {
        Err(spec_triangle(a, d, b))
    } else {
        Ok((a, b, c, d))
    }
}

/// One refinement step: the new support point extends the simplex, which
/// is then reduced to the lowest-dimensional piece that still witnesses
/// the origin's region, or closes into a tetrahedron.
pub open spec fn spec_enclose(s: SimplexV, v: V3) -> Result<(V3, V3, V3, V3), (SimplexV, V3)> {
    match s {
        SimplexV::Point(a) => Err(spec_line(v, a)),
        SimplexV::Line(a, b) => Err(spec_triangle(v, a, b)),
        SimplexV::Triangle(a, b, c) => spec_tetrahedron(v, a, b, c),
    }
}

/// A probe direction for a simplex whose own refinement direction came
/// out zero: that happens exactly when the origin lies on the simplex's
/// affine hull, where the strict region tests cannot make progress. A
/// direction perpendicular to the simplex (or an arbitrary axis for a
/// point) restarts the search instead of treating the zero vector as a
/// separating witness.
pub open spec fn spec_fallback(s: SimplexV) -> V3 {
    let ux = V3 { x: crate::fx::SCALE as int, y: 0, z: 0 };
    let uz = V3 { x: 0, y: 0, z: crate::fx::SCALE as int };
    match s {
        SimplexV::Point(_) => ux,
        SimplexV::Line(a, b) => {
            let ab = v3_sub(b, a);
            let c = v3_cross(ab, ux);
            if c != v3_zero() {
                c
            } else {
                v3_cross(ab, uz)
            }
        },
        SimplexV::Triangle(a, b, c) => {
            let n = v3_cross(v3_sub(b, a), v3_sub(c, a));
            if n != v3_zero() {
                n
            } else {
                let ab = v3_sub(b, a);
                let cc = v3_cross(ab, ux);
                if cc != v3_zero() {
                    cc
                } else {
                    v3_cross(ab, uz)
                }
            }
        },
    }
}

/// The refinement direction, with the zero direction replaced by a probe.
pub open spec fn spec_direction_or_probe(s: SimplexV, d: V3) -> V3 {
    if d == v3_zero() {
        spec_fallback(s)
    } else {
        d
    }
}

/// The refinement loop: fetch the support along the current direction;
/// if it does not pass the origin the shapes are disjoint; otherwise
/// extend and reduce the simplex until it encloses the origin or the
/// fuel runs out.
pub open spec fn spec_gjk_loop(
    a: Polytope,
    b: Polytope,
    frames: (FrameV, FrameV),
    s: SimplexV,
    direction: V3,
    fuel: nat,
) -> Option<(V3, V3, V3, V3)>
    decreases fuel,
{
    if fuel == 0 {
        None
    } else {
        let support = a.spec_minkowski_support(b, frames, direction);
        if v3_dot(direction, support) <= 0 {
            None
        } else {
            match spec_enclose(s, support) {
                Ok(t) => Some(t),
                Err(p) => spec_gjk_loop(
                    a,
                    b,
                    frames,
                    p.0,
                    spec_direction_or_probe(p.0, p.1),
                    (fuel - 1) as nat,
                ),
            }
        }
    }
}

/// The whole test: seeded with the support along `+x`, aimed back at the
/// origin, refined up to the iteration cap. `Some` carries a tetrahedron
/// of Minkowski-difference supports enclosing the origin (an overlap
/// witness); `None` means a separating direction was found or the cap was
/// hit without enclosure.
pub open spec fn spec_gjk(a: Polytope, b: Polytope, frames: (FrameV, FrameV)) -> Option<
    (V3, V3, V3, V3),
> {
    let s0 = a.spec_minkowski_support(
        b,
        frames,
        V3 { x: crate::fx::SCALE as int, y: 0, z: 0 },
    );
    spec_gjk_loop(
        a,
        b,
        frames,
        SimplexV::Point(s0),
        spec_direction_or_probe(SimplexV::Point(s0), v3_neg(s0)),
        GJK_MAX_ITERATIONS as nat,
    )
}

impl Simplex {
    /// One refinement step against the origin.
    pub fn enclose(self, v: Vec3) -> (r: Result<Tetrahedron, (Simplex, Vec3)>)
        ensures
            r is Ok <==> spec_enclose(self@, v@) is Ok,
            r is Ok ==> (r->Ok_0.0@, r->Ok_0.1@, r->Ok_0.2@, r->Ok_0.3@) == spec_enclose(
                self@,
                v@,
            )->Ok_0,
            r is Err ==> (r->Err_0.0@, r->Err_0.1@) == spec_enclose(self@, v@)->Err_0,
    {
        match self {
            Simplex::Point(a) => Err(line(v, a)),
            Simplex::Line(a, b) => Err(triangle(v, a, b)),
            Simplex::Triangle(a, b, c) => tetrahedron(v, a, b, c),
        }
    }
}

/// A probe direction for a simplex whose refinement direction came out
/// zero.
fn fallback_direction(s: &Simplex) -> (r: Vec3)
    ensures
        r@ == spec_fallback(s@),
{
    let ux = Vec3::new(Fx::one(), Fx::zero(), Fx::zero());
    let uz = Vec3::new(Fx::zero(), Fx::zero(), Fx::one());
    match *s {
        Simplex::Point(_) => ux,
        Simplex::Line(a, b) => {
            let ab = b.minus(a);
            let c = ab.cross(ux);
            if !c.is_zero() {
                c
            } else {
                ab.cross(uz)
            }
        },
        Simplex::Triangle(a, b, c) => {
            let n = b.minus(a).cross(c.minus(a));
            if !n.is_zero() {
                n
            } else {
                let ab = b.minus(a);
                let cc = ab.cross(ux);
                if !cc.is_zero() {
                    cc
                } else {
                    ab.cross(uz)
                }
            }
        },
    }
}

/// The refinement direction, with the zero direction replaced by a probe.
fn direction_or_probe(s: &Simplex, d: Vec3) -> (r: Vec3)
    ensures
        r@ == spec_direction_or_probe(s@, d@),
{
    if d.is_zero() {
        fallback_direction(s)
    } else {
        d
    }
}

/// A line reduced against the origin.
fn line(a: Vec3, b: Vec3) -> (r: (Simplex, Vec3))
    ensures
        (r.0@, r.1@) == spec_line(a@, b@),
{
    let ab = b.minus(a);
    let ao = a.neg();
    if ab.dot(ao).raw > 0 {
        (Simplex::Line(a, b), ab.cross(ao).cross(ab))
    } else {
        (Simplex::Point(a), ao)
    }
}

/// A triangle reduced against the origin.
fn triangle(a: Vec3, b: Vec3, c: Vec3) -> (r: (Simplex, Vec3))
    ensures
        (r.0@, r.1@) == spec_triangle(a@, b@, c@),
{
    let ab = b.minus(a);
    let ac = c.minus(a);
    let ao = a.neg();
    let abc = ab.cross(ac);
    if abc.cross(ac).dot(ao).raw > 0 {
        if ac.dot(ao).raw > 0 {
            (Simplex::Line(a, c), ac.cross(ao).cross(ac))
        } else {
            line(a, b)
        }
    } else if ab.cross(abc).dot(ao).raw > 0 {
        line(a, b)
    } else if abc.dot(ao).raw > 0 {
        (Simplex::Triangle(a, b, c), abc)
    } else {
        (Simplex::Triangle(a, c, b), abc.neg())
    }
}

/// A tetrahedron tested against the origin.
fn tetrahedron(a: Vec3, b: Vec3, c: Vec3, d: Vec3) -> (r: Result<Tetrahedron, (Simplex, Vec3)>)
    ensures
        r is Ok <==> spec_tetrahedron(a@, b@, c@, d@) is Ok,
        r is Ok ==> (r->Ok_0.0@, r->Ok_0.1@, r->Ok_0.2@, r->Ok_0.3@) == spec_tetrahedron(
            a@,
            b@,
            c@,
            d@,
        )->Ok_0,
        r is Err ==> (r->Err_0.0@, r->Err_0.1@) == spec_tetrahedron(a@, b@, c@, d@)->Err_0,
{
    let ab = b.minus(a);
    let ac = c.minus(a);
    let ad = d.minus(a);
    let ao = a.neg();
    let abc = ab.cross(ac);
    let acd = ac.cross(ad);
    let adb = ad.cross(ab);
    if abc.dot(ao).raw > 0 {
        Err(triangle(a, b, c))
    } else if acd.dot(ao).raw > 0 {
        Err(triangle(a, c, d))
    } else if adb.dot(ao).raw > 0 {
        Err(triangle(a, d, b))
    } else {
        Ok((a, b, c, d))
    }
}

/// Whether the two polytopes overlap: `Some` carries a tetrahedron of
/// Minkowski-difference supports enclosing the origin, `None` reports
/// them disjoint (or the iteration cap exhausted without enclosure).
pub fn gjk(polytopes: (&Polytope, &Polytope), frames: (Frame, Frame)) -> (r: Option<Tetrahedron>)
    requires
        polytopes.0.wf(),
        polytopes.1.wf(),
    ensures
        r is Some <==> spec_gjk(*polytopes.0, *polytopes.1, (frames.0@, frames.1@)) is Some,
        r is Some ==> (r->Some_0.0@, r->Some_0.1@, r->Some_0.2@, r->Some_0.3@) == spec_gjk(
            *polytopes.0,
            *polytopes.1,
            (frames.0@, frames.1@),
        )->Some_0,
{
    let ghost framesv = (frames.0@, frames.1@);
    let s0 = polytopes.0.minkowski_support(
        polytopes.1,
        frames,
        Vec3::new(Fx::one(), Fx::zero(), Fx::zero()),
    );
    let mut simplex = Simplex::Point(s0);
    let mut direction = direction_or_probe(&simplex, s0.neg());
    let mut fuel: usize = GJK_MAX_ITERATIONS;
    while fuel > 0
        invariant
            polytopes.0.wf(),
            polytopes.1.wf(),
            framesv == (frames.0@, frames.1@),
            spec_gjk(*polytopes.0, *polytopes.1, framesv) == spec_gjk_loop(
                *polytopes.0,
                *polytopes.1,
                framesv,
                simplex@,
                direction@,
                fuel as nat,
            ),
        decreases fuel,
    {
        let support = polytopes.0.minkowski_support(polytopes.1, frames, direction);
        if direction.dot(support).raw <= 0 {
            return None;
        }
        match simplex.enclose(support) {
            Ok(t) => {
                return Some(t);
            },
            Err((s, d)) => {
                direction = direction_or_probe(&s, d);
                simplex = s;
            },
        }
        fuel = fuel - 1;
    }
    None
}

} // verus!
