//! The XPBD constraint solver: one sequential sweep of positional
//! projections per substep, velocity derived from the pose change.

use vstd::prelude::*;

use crate::collision::{ground, spec_ground};
use crate::constraint::{
    spec_act, spec_current_distance, spec_inverse_resitance, Constraint, ConstraintV,
};
use crate::fx::{fx_add, fx_div, fx_mul, fx_ratio, fx_sub, Fx};
use crate::geometry::Polytope;
use crate::rigid::{
    spec_rigid_derive, spec_rigid_frame, spec_rigid_integrate, Rigid, RigidV,
};

verus! {

/// The regularizing compliance for a substep: a small constant stiffness
/// softener over the squared timestep, which keeps the Lagrange divisor
/// positive even against an effectively infinite-mass pair.
pub open spec fn spec_compliance(dt: int) -> int {
    fx_div(fx_ratio(1, 1000000), fx_mul(dt, dt))
}

/// One constraint solved once: the Lagrange increment is the separation
/// error over the summed inverse resistance plus compliance, applied as
/// an impulse along the constraint direction.
pub open spec fn spec_solve_one(r: RigidV, c: ConstraintV, compliance: int) -> RigidV {
    let difference = fx_sub(spec_current_distance(c), c.distance);
    let lagrange = fx_div(difference, fx_add(spec_inverse_resitance(c, r), compliance));
    spec_act(c, r, lagrange)
}

/// The first `i` constraints solved in order, each exactly once.
pub open spec fn spec_solve_prefix(r: RigidV, cs: Seq<ConstraintV>, compliance: int, i: int) -> RigidV
    decreases i,
{
    if i <= 0 {
        r
    } else {
        spec_solve_one(spec_solve_prefix(r, cs, compliance, i - 1), cs[i - 1], compliance)
    }
}

/// One full sequential sweep over the constraints.
pub open spec fn spec_solve(r: RigidV, cs: Seq<ConstraintV>, dt: int) -> RigidV {
    spec_solve_prefix(r, cs, spec_compliance(dt), cs.len() as int)
}

/// One substep: integrate the pose under the accumulated forces,
/// regenerate ground contacts from the new pose, sweep the constraints
/// once, then derive the velocities from the pose change.
pub open spec fn spec_substep(r: RigidV, p: Polytope, dt: int) -> RigidV {
    let past_frame = spec_rigid_frame(r);
    let integrated = spec_rigid_integrate(r, dt);
    let cs = spec_ground(integrated, past_frame, p);
    let solved = spec_solve(integrated, cs, dt);
    spec_rigid_derive(solved, r.position, r.rotation, dt)
}

/// The first `i` substeps.
pub open spec fn spec_step_prefix(r: RigidV, p: Polytope, dt: int, i: int) -> RigidV
    decreases i,
{
    if i <= 0 {
        r
    } else {
        spec_substep(spec_step_prefix(r, p, dt, i - 1), p, dt)
    }
}

/// Solves each constraint once, in order, against the single body.
pub fn solve(rigid: &mut Rigid, constraints: Vec<Constraint>, dt: Fx)
    ensures
        final(rigid)@ == spec_solve(
            old(rigid)@,
            constraints@.map_values(|c: Constraint| c@),
            dt@,
        ),
        old(rigid).wf() ==> final(rigid).wf(),
{
    let compliance = Fx::ratio(1, 1000000).div_by(dt.times(dt));
    let n = constraints.len();
    for i in 0..n
        invariant
            n == constraints@.len(),
            compliance@ == spec_compliance(dt@),
            rigid@ == spec_solve_prefix(
                old(rigid)@,
                constraints@.map_values(|c: Constraint| c@),
                compliance@,
                i as int,
            ),
            old(rigid).wf() ==> rigid.wf(),
    {
        let constraint = &constraints[i];
        let difference = constraint.current_distance().minus(constraint.distance);
        let lagrange_factor = difference.div_by(
            constraint.inverse_resitance(rigid).plus(compliance),
        );
        constraint.act(rigid, lagrange_factor);
    }
}

/// Advances the body by `dt`, split into `substep_count` substeps; each
/// substep integrates the pose, rebuilds ground contacts from the new
/// pose, solves them once, and derives the velocities afterwards.
#[verifier::rlimit(100)]
pub fn step(rigid: &mut Rigid, polytope: &Polytope, dt: Fx, substep_count: usize)
    requires
        polytope.wf(),
        substep_count as int <= i64::MAX as int,
    ensures
        final(rigid)@ == spec_step_prefix(
            old(rigid)@,
            *polytope,
            fx_div(dt@, crate::fx::fx_from(substep_count as int)),
            substep_count as int,
        ),
        old(rigid).wf() ==> final(rigid).wf(),
{
    let dt_sub = dt.div_by(Fx::from_int(substep_count as i64));
    for s in 0..substep_count
        invariant
            polytope.wf(),
            dt_sub@ == fx_div(dt@, crate::fx::fx_from(substep_count as int)),
            rigid@ == spec_step_prefix(old(rigid)@, *polytope, dt_sub@, s as int),
            old(rigid).wf() ==> rigid.wf(),
    {
        let past_position = rigid.position;
        let past_rotation = rigid.rotation;
        let past_frame = rigid.frame();
        rigid.integrate(dt_sub);

        let constraints = ground(rigid, &past_frame, polytope);
        solve(rigid, constraints, dt_sub);

        rigid.derive(past_position, past_rotation, dt_sub);
    }
}

} // verus!
