//! A small two-body world: one resting body and one spawned above it,
//! advanced by substepped integration with pairwise contact resolution.

use vstd::prelude::*;

use crate::collision::{clip_step, spec_clip_step};
use crate::constraint::{Constraint, ConstraintV};
use crate::fx::{fx_div, fx_from, fx_ratio, Fx};
use crate::geometry::integrate::RM;
use crate::geometry::Polytope;
use crate::mat3::m3_det;
use crate::rigid::{
    spec_rigid_derive, spec_rigid_frame, spec_rigid_integrate, spec_rigid_new, Rigid, RigidV,
};
use crate::solver::{solve, spec_solve};
use crate::vec3::{v3_add, v3_div_scalar, v3_zero, Vec3, V3};

verus! {

/// How many substeps one `integrate` call takes.
pub const SUBSTEPS: usize = 25;

/// The model of the world: the two bodies.
pub ghost struct WorldV {
    pub a: RigidV,
    pub b: RigidV,
}

/// The sum of the first `i` points.
pub open spec fn v3_sum_prefix(ps: Seq<V3>, i: int) -> V3
    decreases i,
{
    if i <= 0 {
        v3_zero()
    } else {
        v3_add(v3_sum_prefix(ps, i - 1), ps[i - 1])
    }
}

/// The mean of a point set; the zero vector for an empty set (the sum is
/// then zero and the division is by zero).
#[verifier::opaque]
pub open spec fn spec_average(ps: Seq<V3>) -> V3 {
    v3_div_scalar(v3_sum_prefix(ps, ps.len() as int), fx_from(ps.len() as int))
}

/// The bodies at spawn: both from their metrics at the shared density,
/// the second displaced to hover over the first and pulled down by a
/// constant external force.
pub open spec fn spec_world_new(ma: RM, mb: RM) -> WorldV {
    let a = spec_rigid_new(ma);
    let b = spec_rigid_new(mb);
    WorldV {
        a,
        b: RigidV {
            position: V3 { x: fx_ratio(2, 5), y: fx_ratio(2, 5), z: fx_from(2) },
            external_force: V3 { x: 0, y: 0, z: fx_ratio(-1, 100) },
            ..b
        },
    }
}

/// One substep: the falling body integrates; the pair is tested both ways
/// and, when both directions report contact sets, one coincidence
/// constraint between the two mean contact points is solved; then the
/// body's velocities are derived from its pose change.
#[verifier::opaque]
pub open spec fn spec_world_substep(w: WorldV, p1: Polytope, p2: Polytope, dt: int) -> WorldV {
    let past_position = w.b.position;
    let past_rotation = w.b.rotation;
    let b1 = spec_rigid_integrate(w.b, dt);
    let fa = spec_rigid_frame(w.a);
    let fb = spec_rigid_frame(b1);
    let p = spec_clip_step(p1, p2, (fa, fb));
    let q = spec_clip_step(p2, p1, (fb, fa));
    let b2 = if p is Some && q is Some && p->Some_0.len() > 0 && q->Some_0.len() > 0 {
        let c = ConstraintV {
            rigid: 0,
            contacts: (spec_average(p->Some_0), spec_average(q->Some_0)),
            distance: 0,
        };
        spec_solve(b1, seq![c], dt)
    } else {
        b1
    };
    WorldV { a: w.a, b: spec_rigid_derive(b2, past_position, past_rotation, dt) }
}

/// The first `i` substeps.
pub open spec fn spec_world_prefix(w: WorldV, p1: Polytope, p2: Polytope, dt: int, i: int) -> WorldV
    decreases i,
{
    if i <= 0 {
        w
    } else {
        spec_world_substep(spec_world_prefix(w, p1, p2, dt, i - 1), p1, p2, dt)
    }
}

/// A world of two rigid bodies sharing a pair of polytopes.
#[derive(Clone, Copy, Debug)]
pub struct World {
    pub a: Rigid,
    pub b: Rigid,
}

impl View for World {
    type V = WorldV;

    open spec fn view(&self) -> WorldV {
        WorldV { a: self.a@, b: self.b@ }
    }
}

/// The mean of a contact point set.
fn average(points: &Vec<Vec3>) -> (r: Vec3)
    ensures
        r@ == spec_average(points@.map_values(|v: Vec3| v@)),
{
    proof {
        reveal(spec_average);
    }
    let ghost psv = points@.map_values(|v: Vec3| v@);
    let mut sum = Vec3::zero();
    let n = points.len();
    for i in 0..n
        invariant
            n == points@.len(),
            psv == points@.map_values(|v: Vec3| v@),
            sum@ == v3_sum_prefix(psv, i as int),
    {
        sum = sum.plus(points[i]);
    }
    sum.div_scalar(Fx::from_usize(n))
}

impl World {
    /// The world at spawn, both bodies built from the polytopes' mass
    /// properties at one shared density; `None` exactly when either
    /// polytope yields a zero mass or a non-invertible inertia tensor.
    pub fn new(p1: &Polytope, p2: &Polytope) -> (r: Option<World>)
        requires
            p1.wf(),
            p2.wf(),
        ensures
            ({
                let ma = crate::geometry::integrate::spec_rigid_metrics(*p1, fx_ratio(1, 10));
                let mb = crate::geometry::integrate::spec_rigid_metrics(*p2, fx_ratio(1, 10));
                &&& (r is Some <==> ma.mass != 0 && m3_det(ma.inertia_tensor) != 0 && mb.mass != 0
                    && m3_det(mb.inertia_tensor) != 0)
                &&& (r is Some ==> r->Some_0@ == spec_world_new(ma, mb))
                &&& (r is Some ==> r->Some_0.a.wf() && r->Some_0.b.wf())
            }),
    {
        let density = Fx::ratio(1, 10);
        let a = match Rigid::new(p1.rigid_metrics(density)) {
            Some(a) => a,
            None => {
                return None;
            },
        };
        let mut b = match Rigid::new(p2.rigid_metrics(density)) {
            Some(b) => b,
            None => {
                return None;
            },
        };
        b.position = Vec3::new(Fx::ratio(2, 5), Fx::ratio(2, 5), Fx::from_int(2));
        b.external_force = Vec3::new(Fx::zero(), Fx::zero(), Fx::ratio(-1, 100));
        Some(World { a, b })
    }

    /// Advances the world by `dt`, split into `SUBSTEPS` substeps; within
    /// each substep the contacts are rebuilt from the pose after
    /// integration and before the solve, and the velocities are derived
    /// after the solve.
    #[verifier::rlimit(100)]
    pub fn integrate(&mut self, dt: Fx, p1: &Polytope, p2: &Polytope)
        requires
            p1.wf(),
            p2.wf(),
            p1.faces@.len() > 0,
            p2.faces@.len() > 0,
        ensures
            final(self)@ == spec_world_prefix(
                old(self)@,
                *p1,
                *p2,
                fx_div(dt@, fx_from(SUBSTEPS as int)),
                SUBSTEPS as int,
            ),
            old(self).b.wf() ==> final(self).b.wf(),
    {
        let dt_sub = dt.div_by(Fx::from_int(25));
        proof {
            assert(fx_from(SUBSTEPS as int) == fx_from(25));
        }
        for s in 0..SUBSTEPS
            invariant
                p1.wf(),
                p2.wf(),
                p1.faces@.len() > 0,
                p2.faces@.len() > 0,
                dt_sub@ == fx_div(dt@, fx_from(SUBSTEPS as int)),
                self@ == spec_world_prefix(old(self)@, *p1, *p2, dt_sub@, s as int),
                old(self).b.wf() ==> self.b.wf(),
        {
            proof {
                reveal(spec_world_substep);
            }
            let ghost w0 = self@;
            let past_position = self.b.position;
            let past_rotation = self.b.rotation;
            self.b.integrate(dt_sub);
            let ghost b1 = self.b@;

            let frame_a = self.a.frame();
            let frame_b = self.b.frame();
            let p = clip_step((frame_a, frame_b), (p1, p2));
            let q = clip_step((frame_b, frame_a), (p2, p1));
            let ghost pv = spec_clip_step(*p1, *p2, (spec_rigid_frame(w0.a), spec_rigid_frame(b1)));
            let ghost qv = spec_clip_step(*p2, *p1, (spec_rigid_frame(b1), spec_rigid_frame(w0.a)));
            match (p, q) {
                (Some(p), Some(q)) => {
                    if p.len() > 0 && q.len() > 0 {
                        let c = Constraint {
                            rigid: 0,
                            contacts: (average(&p), average(&q)),
                            distance: Fx::zero(),
                        };
                        proof {
                            assert(p@.map_values(|v: Vec3| v@) == pv->Some_0);
                            assert(q@.map_values(|v: Vec3| v@) == qv->Some_0);
                            assert(c@ == (ConstraintV {
                                rigid: 0,
                                contacts: (spec_average(pv->Some_0), spec_average(qv->Some_0)),
                                distance: 0,
                            }));
                        }
                        let mut constraints: Vec<Constraint> = Vec::new();
                        constraints.push(c);
                        proof {
                            assert(constraints@.map_values(|x: Constraint| x@) =~= seq![c@]);
                        }
                        solve(&mut self.b, constraints, dt_sub);
                        proof {
                            assert(self.b@ == spec_solve(b1, seq![c@], dt_sub@));
                        }
                    }
                },
                _ => (),
            }

            self.b.derive(past_position, past_rotation, dt_sub);
            proof {
                assert(self@ == spec_world_substep(w0, *p1, *p2, dt_sub@));
            }
        }
    }
}

} // verus!
