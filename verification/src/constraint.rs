//! A positional distance constraint between two anchor points.

use vstd::prelude::*;

use crate::fx::{fx_add, Fx};
use crate::mat3::m3_times_vec;
use crate::quat::{q_conj, q_rotate};
use crate::rigid::{spec_rigid_apply_impulse, spec_rigid_frame, Rigid, RigidV};
use crate::vec3::{v3_cross, v3_dot, v3_magnitude, v3_normalize, v3_scale, v3_sub, Vec3, V3};

verus! {

/// The mathematical model of a constraint.
pub ghost struct ConstraintV {
    pub rigid: int,
    pub contacts: (V3, V3),
    pub distance: int,
}

/// The anchor separation vector.
#[verifier::opaque]
pub open spec fn spec_difference(c: ConstraintV) -> V3 {
    v3_sub(c.contacts.1, c.contacts.0)
}

/// The unit direction from the first anchor to the second.
#[verifier::opaque]
pub open spec fn spec_direction(c: ConstraintV) -> V3 {
    v3_normalize(spec_difference(c))
}

/// The current anchor separation.
#[verifier::opaque]
pub open spec fn spec_current_distance(c: ConstraintV) -> int {
    v3_magnitude(spec_difference(c))
}

/// The body's inverse resistance against the constraint: its inverse
/// mass plus the rotational yield of the lever arm through the inverse
/// inertia, the lever arm expressed in the body's local orientation.
#[verifier::opaque]
pub open spec fn spec_inverse_resitance(c: ConstraintV, r: RigidV) -> int {
    let frame = spec_rigid_frame(r);
    let angular_impulse = q_rotate(
        q_conj(frame.rotation),
        v3_cross(v3_sub(c.contacts.0, frame.position), spec_direction(c)),
    );
    fx_add(r.inverse_mass, v3_dot(m3_times_vec(r.inverse_inertia, angular_impulse), angular_impulse))
}

/// The constraint acting on a body: an impulse of the given magnitude
/// along the constraint direction, applied at the first anchor.
#[verifier::opaque]
pub open spec fn spec_act(c: ConstraintV, r: RigidV, factor: int) -> RigidV {
    spec_rigid_apply_impulse(r, v3_scale(factor, spec_direction(c)), c.contacts.0)
}

/// A distance constraint: a body index into the caller's arena, a pair of
/// world-space anchors, and the rest distance to restore (zero for
/// contact coincidence).
#[derive(Clone, Copy, Debug)]
pub struct Constraint {
    pub rigid: usize,
    pub contacts: (Vec3, Vec3),
    pub distance: Fx,
}

impl View for Constraint {
    type V = ConstraintV;

    open spec fn view(&self) -> ConstraintV {
        ConstraintV {
            rigid: self.rigid as int,
            contacts: (self.contacts.0@, self.contacts.1@),
            distance: self.distance@,
        }
    }
}

impl Constraint {
    /// The anchor separation vector.
    pub fn difference(&self) -> (r: Vec3)
        ensures
            r@ == spec_difference(self@),
    {
        proof {
            reveal(spec_difference);
        }
        self.contacts.1.minus(self.contacts.0)
    }

    /// The unit direction from the first anchor to the second; zero when
    /// the anchors coincide to within the scalar's resolution.
    pub fn direction(&self) -> (r: Vec3)
        ensures
            r@ == spec_direction(self@),
    {
        proof {
            reveal(spec_direction);
        }
        self.difference().normalize()
    }

    /// The current anchor separation.
    pub fn current_distance(&self) -> (r: Fx)
        ensures
            r@ == spec_current_distance(self@),
    {
        proof {
            reveal(spec_current_distance);
        }
        self.difference().magnitude()
    }

    /// The body's inverse resistance against this constraint.
    pub fn inverse_resitance(&self, rigid: &Rigid) -> (r: Fx)
        ensures
            r@ == spec_inverse_resitance(self@, rigid@),
    {
        proof {
            reveal(spec_inverse_resitance);
        }
        let frame = rigid.frame();
        let angular_impulse = frame.rotation.conjugate().rotate(
            self.contacts.0.minus(frame.position).cross(self.direction()),
        );
        rigid.inverse_mass.plus(
            rigid.inverse_inertia.times_vec(angular_impulse).dot(angular_impulse),
        )
    }

    /// Applies the constraint to the body with the given impulse
    /// magnitude; keeps the body's rotation unit-norm.
    pub fn act(&self, rigid: &mut Rigid, factor: Fx)
        ensures
            final(rigid)@ == spec_act(self@, old(rigid)@, factor@),
            old(rigid).wf() ==> final(rigid).wf(),
    {
        proof {
            reveal(spec_act);
        }
        let impulse = self.direction().scale(factor);
        rigid.apply_impulse(impulse, self.contacts.0);
    }
}

} // verus!
