//! Rigid-body state: mass distribution, pose, velocities and accumulated
//! forces.

use vstd::prelude::*;

use crate::frame::{Frame, FrameV, HALF, TWO};
use crate::fx::{fx_div, fx_mul, Fx, SCALE};
use crate::geometry::integrate::RigidMetrics;
use crate::mat3::{m3_det, m3_inverse, m3_scale, m3_times_vec, Mat3, M3};
use crate::quat::{
    q_add, q_conj, q_identity, q_is_unit, q_mul, q_normalize, q_pure, q_rotate, q_scale, Q4, Quat,
};
use crate::vec3::{v3_add, v3_cross, v3_div_scalar, v3_neg, v3_scale, v3_sub, v3_zero, Vec3, V3};

verus! {

/// A display color for a rendering collaborator.
#[derive(Clone, Copy, PartialEq, Eq, Structural, Debug)]
pub struct Rgb {
    pub red: u8,
    pub green: u8,
    pub blue: u8,
}

/// The mathematical model of a rigid body.
pub ghost struct RigidV {
    pub inverse_mass: int,
    pub inverse_inertia: M3,
    pub external_force: V3,
    pub internal_force: V3,
    pub external_torque: V3,
    pub internal_torque: V3,
    pub velocity: V3,
    pub angular_velocity: V3,
    pub center_of_mass: V3,
    pub position: V3,
    pub rotation: Q4,
    pub color: Option<Rgb>,
}

/// The body a metrics record spawns: at rest at the origin, with the
/// reciprocal mass and the inverted inertia tensor.
pub open spec fn spec_rigid_new(m: crate::geometry::integrate::RM) -> RigidV {
    RigidV {
        inverse_mass: fx_div(SCALE as int, m.mass),
        inverse_inertia: m3_inverse(m.inertia_tensor),
        external_force: v3_zero(),
        internal_force: v3_zero(),
        external_torque: v3_zero(),
        internal_torque: v3_zero(),
        velocity: v3_zero(),
        angular_velocity: v3_zero(),
        center_of_mass: m.center_of_mass,
        position: v3_zero(),
        rotation: q_identity(),
        color: None,
    }
}

/// The frame taking the body's object space to world space: rotation
/// about the center of mass, then world translation.
#[verifier::opaque]
pub open spec fn spec_rigid_frame(r: RigidV) -> FrameV {
    FrameV {
        position: v3_add(
            v3_add(r.position, r.center_of_mass),
            q_rotate(r.rotation, v3_neg(r.center_of_mass)),
        ),
        rotation: r.rotation,
    }
}

/// A rotation advanced by an increment and renormalized; left unchanged
/// when renormalization cannot certify a unit result, so the unit
/// invariant is never lost.
#[verifier::opaque]
pub open spec fn spec_advance_rotation(rotation: Q4, dq: Q4) -> Q4 {
    let candidate = q_normalize(q_add(rotation, dq));
    if q_is_unit(candidate) {
        candidate
    } else {
        rotation
    }
}

/// One explicit integration step under the accumulated forces and
/// torques: velocities first, then the pose.
#[verifier::opaque]
pub open spec fn spec_rigid_integrate(r: RigidV, dt: int) -> RigidV {
    let force = v3_add(r.external_force, q_rotate(r.rotation, r.internal_force));
    let velocity = v3_add(r.velocity, v3_scale(r.inverse_mass, v3_scale(dt, force)));
    let position = v3_add(r.position, v3_scale(dt, velocity));
    let torque = v3_add(r.external_torque, q_rotate(r.rotation, r.internal_torque));
    let angular_velocity = v3_add(
        r.angular_velocity,
        m3_times_vec(m3_scale(dt, r.inverse_inertia), torque),
    );
    let dq = q_scale(
        fx_mul(dt, HALF as int),
        q_mul(q_pure(angular_velocity), r.rotation),
    );
    RigidV {
        velocity,
        position,
        angular_velocity,
        rotation: spec_advance_rotation(r.rotation, dq),
        ..r
    }
}

/// Velocities recovered from the pose change since `(position,
/// rotation)`: finite difference for the linear part, the shortest-arc
/// rotation delta's imaginary part for the angular part.
#[verifier::opaque]
pub open spec fn spec_rigid_derive(r: RigidV, position: V3, rotation: Q4, dt: int) -> RigidV {
    let velocity = v3_div_scalar(v3_sub(r.position, position), dt);
    let raw_dq = q_mul(r.rotation, q_conj(rotation));
    let dq = if raw_dq.w < 0 {
        q_scale(-SCALE as int, raw_dq)
    } else {
        raw_dq
    };
    let angular_velocity = V3 {
        x: fx_div(fx_mul(TWO as int, dq.x), dt),
        y: fx_div(fx_mul(TWO as int, dq.y), dt),
        z: fx_div(fx_mul(TWO as int, dq.z), dt),
    };
    RigidV { velocity, angular_velocity, ..r }
}

/// A linear impulse applied at a world point: the position shifts by the
/// impulse over the mass, and the rotation takes the half-quaternion
/// update of the angular impulse about the new center of mass.
#[verifier::opaque]
pub open spec fn spec_rigid_apply_impulse(r: RigidV, impulse: V3, point: V3) -> RigidV {
    let position = v3_add(r.position, v3_scale(r.inverse_mass, impulse));
    let lever = v3_cross(
        m3_times_vec(r.inverse_inertia, v3_sub(point, v3_add(position, r.center_of_mass))),
        impulse,
    );
    let dq = q_scale(HALF as int, q_mul(q_pure(lever), r.rotation));
    RigidV { position, rotation: spec_advance_rotation(r.rotation, dq), ..r }
}

/// A rigid body.
#[derive(Clone, Copy, PartialEq, Eq, Structural, Debug)]
pub struct Rigid {
    /// Reciprocal mass, in fixed point.
    pub inverse_mass: Fx,
    /// Inverse rotational inertia tensor about the center of mass.
    pub inverse_inertia: Mat3,
    /// Force acting on the body outside its frame.
    pub external_force: Vec3,
    /// Force acting on the body within its own frame.
    pub internal_force: Vec3,
    /// Torque acting on the body outside its frame.
    pub external_torque: Vec3,
    /// Torque acting on the body within its own frame.
    pub internal_torque: Vec3,
    /// Current linear velocity.
    pub velocity: Vec3,
    /// Current angular velocity.
    pub angular_velocity: Vec3,
    /// The center of mass in object space.
    pub center_of_mass: Vec3,
    /// The translation relative to the world origin.
    pub position: Vec3,
    /// The rotation around the center of mass.
    pub rotation: Quat,
    /// An optional display color for a rendering collaborator.
    pub color: Option<Rgb>,
}

impl View for Rigid {
    type V = RigidV;

    open spec fn view(&self) -> RigidV {
        RigidV {
            inverse_mass: self.inverse_mass@,
            inverse_inertia: self.inverse_inertia@,
            external_force: self.external_force@,
            internal_force: self.internal_force@,
            external_torque: self.external_torque@,
            internal_torque: self.internal_torque@,
            velocity: self.velocity@,
            angular_velocity: self.angular_velocity@,
            center_of_mass: self.center_of_mass@,
            position: self.position@,
            rotation: self.rotation@,
            color: self.color,
        }
    }
}

impl Rigid {
    /// Whether the rotation is unit-norm.
    pub open spec fn wf(self) -> bool {
        q_is_unit(self@.rotation)
    }

    /// A body from its mass properties, at rest at the origin. A
    /// zero-mass or non-invertible inertia tensor (a degenerate or
    /// zero-volume polytope) is rejected eagerly: `None` exactly in
    /// those cases.
    pub fn new(metrics: RigidMetrics) -> (r: Option<Rigid>)
        ensures
            r is Some <==> metrics@.mass != 0 && m3_det(metrics@.inertia_tensor) != 0,
            r is Some ==> r->Some_0@ == spec_rigid_new(metrics@),
            r is Some ==> r->Some_0.wf(),
    {
        if metrics.mass.raw == 0 {
            return None;
        }
        let inverse_inertia = match metrics.inertia_tensor.invert() {
            Some(m) => m,
            None => {
                return None;
            },
        };
        proof {
            crate::frame::lemma_identity_is_unit();
        }
        Some(
            Rigid {
                inverse_mass: Fx::one().div_by(metrics.mass),
                inverse_inertia,
                external_force: Vec3::zero(),
                internal_force: Vec3::zero(),
                external_torque: Vec3::zero(),
                internal_torque: Vec3::zero(),
                velocity: Vec3::zero(),
                angular_velocity: Vec3::zero(),
                center_of_mass: metrics.center_of_mass,
                position: Vec3::zero(),
                rotation: Quat::identity(),
                color: None,
            },
        )
    }

    /// The frame taking object space to world space.
    pub fn frame(&self) -> (r: Frame)
        ensures
            r@ == spec_rigid_frame(self@),
    {
        proof {
            reveal(spec_rigid_frame);
        }
        Frame {
            position: self.position.plus(self.center_of_mass).plus(
                self.rotation.rotate(self.center_of_mass.neg()),
            ),
            rotation: self.rotation,
        }
    }

    /// One explicit integration step; keeps the rotation unit-norm.
    pub fn integrate(&mut self, dt: Fx)
        ensures
            final(self)@ == spec_rigid_integrate(old(self)@, dt@),
            old(self).wf() ==> final(self).wf(),
    {
        proof {
            reveal(spec_rigid_integrate);
        }
        let force = self.external_force.plus(self.rotation.rotate(self.internal_force));
        self.velocity = self.velocity.plus(force.scale(dt).scale(self.inverse_mass));
        self.position = self.position.plus(self.velocity.scale(dt));

        let torque = self.external_torque.plus(self.rotation.rotate(self.internal_torque));
        self.angular_velocity = self.angular_velocity.plus(
            self.inverse_inertia.scale(dt).times_vec(torque),
        );
        let dq = Quat::pure(self.angular_velocity).times(self.rotation).scale(
            dt.times(Fx { raw: HALF }),
        );
        self.rotation = advance_rotation(self.rotation, dq);
    }

    /// Velocities recovered from the pose change since the past pose.
    pub fn derive(&mut self, position: Vec3, rotation: Quat, dt: Fx)
        ensures
            final(self)@ == spec_rigid_derive(old(self)@, position@, rotation@, dt@),
            final(self)@.rotation == old(self)@.rotation,
    {
        proof {
            reveal(spec_rigid_derive);
        }
        let d = self.position.minus(position);
        self.velocity = d.div_scalar(dt);
        let raw_dq = self.rotation.times(rotation.conjugate());
        let dq = if raw_dq.w.raw < 0 {
            raw_dq.scale(Fx { raw: -SCALE })
        } else {
            raw_dq
        };
        let two = Fx { raw: TWO };
        self.angular_velocity = Vec3 {
            x: two.times(dq.x).div_by(dt),
            y: two.times(dq.y).div_by(dt),
            z: two.times(dq.z).div_by(dt),
        };
    }

    /// Applies a linear impulse at a world point, changing both position
    /// and rotation; keeps the rotation unit-norm.
    pub fn apply_impulse(&mut self, impulse: Vec3, point: Vec3)
        ensures
            final(self)@ == spec_rigid_apply_impulse(old(self)@, impulse@, point@),
            old(self).wf() ==> final(self).wf(),
    {
        proof {
            reveal(spec_rigid_apply_impulse);
        }
        self.position = self.position.plus(impulse.scale(self.inverse_mass));
        let lever = self.inverse_inertia.times_vec(
            point.minus(self.position.plus(self.center_of_mass)),
        ).cross(impulse);
        let dq = Quat::pure(lever).times(self.rotation).scale(Fx { raw: HALF });
        self.rotation = advance_rotation(self.rotation, dq);
    }
}

/// Advances a rotation by an increment and renormalizes; keeps the old
/// rotation when the result cannot be certified unit-norm.
fn advance_rotation(rotation: Quat, dq: Quat) -> (r: Quat)
    ensures
        r@ == spec_advance_rotation(rotation@, dq@),
        q_is_unit(rotation@) ==> q_is_unit(r@),
{
    proof {
        reveal(spec_advance_rotation);
    }
    let candidate = rotation.plus(dq).normalize();
    if candidate.is_unit() {
        candidate
    } else {
        rotation
    }
}

} // verus!
