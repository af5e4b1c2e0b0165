//! Narrow-phase collision queries: ground contacts, separating-axis
//! queries and contact-manifold clipping.

pub mod epa;
pub mod gjk;

use vstd::prelude::*;

use crate::constraint::{Constraint, ConstraintV};
use crate::frame::{frame_act, frame_delta, frame_inverse, Frame, FrameV};
use crate::fx::{fx_add, fx_div, fx_mul, fx_sub, Fx, SCALE};
use crate::geometry::{
    plane_distance, plane_from_point_normal, plane_intersect, plane_facing, plane_transform,
    Plane, PlaneV, Polytope,
};
use crate::rigid::{spec_rigid_frame, Rigid, RigidV};
use crate::vec3::{
    v3_add, v3_cross, v3_dot, v3_neg, v3_normalize, v3_project_on, v3_scale, v3_sub, v3_zero,
    Vec3, V3,
};

verus! {

/// The ground constraints the first `i` vertices of the polytope
/// generate: one per vertex below the ground plane, anchoring it to its
/// projection onto `z = 0`, the anchor shifted back by the tangential
/// part of the vertex's drift since the past pose (a crude static
/// friction).
pub open spec fn spec_ground_prefix(r: RigidV, past: FrameV, p: Polytope, i: int) -> Seq<
    ConstraintV,
>
    decreases i,
{
    if i <= 0 {
        Seq::empty()
    } else {
        let prev = spec_ground_prefix(r, past, p, i - 1);
        let position = frame_act(spec_rigid_frame(r), p.vertices@[i - 1]@);
        if position.z >= 0 {
            prev
        } else {
            let target = V3 { x: position.x, y: position.y, z: 0 };
            let correction = v3_sub(target, position);
            let delta_position = frame_delta(spec_rigid_frame(r), past, position);
            let delta_tangential = v3_sub(delta_position, v3_project_on(delta_position, correction));
            prev.push(
                ConstraintV {
                    rigid: 0,
                    contacts: (position, v3_sub(target, delta_tangential)),
                    distance: 0,
                },
            )
        }
    }
}

/// All ground constraints of the polytope under the body's current pose.
pub open spec fn spec_ground(r: RigidV, past: FrameV, p: Polytope) -> Seq<ConstraintV> {
    spec_ground_prefix(r, past, p, p.vertices@.len() as int)
}

/// One contact constraint for every vertex that has sunk below the ground
/// plane `z = 0`, anchoring it to its ground projection, offset by the
/// removed tangential drift since `past`.
#[verifier::rlimit(100)]
pub fn ground(rigid: &Rigid, past: &Frame, polytope: &Polytope) -> (r: Vec<Constraint>)
    ensures
        r@.map_values(|c: Constraint| c@) =~= spec_ground(rigid@, past@, *polytope),
{
    let mut constraints: Vec<Constraint> = Vec::new();
    let n = polytope.vertices.len();
    let frame = rigid.frame();
    for i in 0..n
        invariant
            n == polytope.vertices@.len(),
            frame@ == spec_rigid_frame(rigid@),
            constraints@.map_values(|c: Constraint| c@) =~= spec_ground_prefix(
                rigid@,
                past@,
                *polytope,
                i as int,
            ),
    {
        let position = frame.act(polytope.vertices[i]);
        if position.z.raw < 0 {
            let target_position = Vec3::new(position.x, position.y, Fx::zero());
            let correction = target_position.minus(position);
            let delta_position = frame.delta(past, position);
            let delta_tangential = delta_position.minus(delta_position.project_on(correction));
            constraints.push(
                Constraint {
                    rigid: 0,
                    contacts: (position, target_position.minus(delta_tangential)),
                    distance: Fx::zero(),
                },
            );
        }
    }
    constraints
}

/// The projection of the whole shadow of one polytope onto an axis: the
/// greatest dot product of a transformed vertex with the axis, over the
/// first `i` vertices.
pub open spec fn shadow_max_up_to(p: Polytope, f: FrameV, axis: V3, i: int) -> int
    decreases i,
{
    if i <= 1 {
        v3_dot(frame_act(f, p.vertices@[0]@), axis)
    } else {
        let prev = shadow_max_up_to(p, f, axis, i - 1);
        let cand = v3_dot(frame_act(f, p.vertices@[i - 1]@), axis);
        if cand > prev {
            cand
        } else {
            prev
        }
    }
}

/// The least dot product of a transformed vertex with the axis, over the
/// first `i` vertices.
pub open spec fn shadow_min_up_to(p: Polytope, f: FrameV, axis: V3, i: int) -> int
    decreases i,
{
    if i <= 1 {
        v3_dot(frame_act(f, p.vertices@[0]@), axis)
    } else {
        let prev = shadow_min_up_to(p, f, axis, i - 1);
        let cand = v3_dot(frame_act(f, p.vertices@[i - 1]@), axis);
        if cand < prev {
            cand
        } else {
            prev
        }
    }
}

/// The gap between the two bodies' shadows cast onto the axis: the least
/// projection of the second minus the greatest projection of the first.
pub open spec fn spec_brute_force_axis_separation(
    rigids: (RigidV, RigidV),
    p: Polytope,
    axis: V3,
) -> int {
    fx_sub(
        shadow_min_up_to(p, spec_rigid_frame(rigids.1), axis, p.vertices@.len() as int),
        shadow_max_up_to(p, spec_rigid_frame(rigids.0), axis, p.vertices@.len() as int),
    )
}

/// The signed separation of the two bodies' shadows along one axis;
/// non-negative means the axis separates them.
pub fn brute_force_axis_separation(rigids: (&Rigid, &Rigid), polytope: &Polytope, axis: Vec3) -> (r:
    Fx)
    requires
        polytope.wf(),
    ensures
        r@ == spec_brute_force_axis_separation((rigids.0@, rigids.1@), *polytope, axis@),
{
    let frame0 = rigids.0.frame();
    let frame1 = rigids.1.frame();
    let n = polytope.vertices.len();

    let mut self_max = frame0.act(polytope.vertices[0]).dot(axis);
    let mut i: usize = 1;
    while i < n
        invariant
            polytope.wf(),
            n == polytope.vertices@.len(),
            1 <= i <= n,
            frame0@ == spec_rigid_frame(rigids.0@),
            self_max@ == shadow_max_up_to(*polytope, frame0@, axis@, i as int),
        decreases n - i,
    {
        let c = frame0.act(polytope.vertices[i]).dot(axis);
        if c.raw > self_max.raw {
            self_max = c;
        }
        i = i + 1;
    }

    let mut other_min = frame1.act(polytope.vertices[0]).dot(axis);
    let mut j: usize = 1;
    while j < n
        invariant
            polytope.wf(),
            n == polytope.vertices@.len(),
            1 <= j <= n,
            frame1@ == spec_rigid_frame(rigids.1@),
            other_min@ == shadow_min_up_to(*polytope, frame1@, axis@, j as int),
        decreases n - j,
    {
        let c = frame1.act(polytope.vertices[j]).dot(axis);
        if c.raw < other_min.raw {
            other_min = c;
        }
        j = j + 1;
    }

    other_min.minus(self_max)
}

/// The vertex of `b`, carried into `a`'s local frame, that penetrates
/// deepest against a face normal: the first maximizer of the dot with the
/// reversed normal over the first `i` vertices.
pub open spec fn deepest_local_up_to(
    b: Polytope,
    frames: (FrameV, FrameV),
    neg_normal: V3,
    i: int,
) -> V3
    decreases i,
{
    if i <= 1 {
        frame_act(frame_inverse(frames.0), frame_act(frames.1, b.vertices@[0]@))
    } else {
        let prev = deepest_local_up_to(b, frames, neg_normal, i - 1);
        let cand = frame_act(frame_inverse(frames.0), frame_act(frames.1, b.vertices@[i - 1]@));
        if v3_dot(cand, neg_normal) > v3_dot(prev, neg_normal) {
            cand
        } else {
            prev
        }
    }
}

/// The face separation of face `i` of `a`: the signed distance of `b`'s
/// most penetrating vertex (in `a`'s local frame) from the face plane.
pub open spec fn face_separation(a: Polytope, b: Polytope, frames: (FrameV, FrameV), i: int) -> int {
    let pl = a.spec_plane(i);
    plane_distance(
        pl,
        deepest_local_up_to(b, frames, v3_neg(pl.normal), b.vertices@.len() as int),
    )
}

/// The greatest face separation among the first `i` faces of `a`, and the
/// first face attaining it.
pub open spec fn fas_up_to(a: Polytope, b: Polytope, frames: (FrameV, FrameV), i: int) -> (
    int,
    int,
)
    decreases i,
{
    if i <= 1 {
        (face_separation(a, b, frames, 0), 0)
    } else {
        let prev = fas_up_to(a, b, frames, i - 1);
        let cand = face_separation(a, b, frames, i - 1);
        if cand > prev.0 {
            (cand, i - 1)
        } else {
            prev
        }
    }
}

/// The best face-axis query of `a` against `b`.
pub open spec fn spec_face_axes_separation(a: Polytope, b: Polytope, frames: (FrameV, FrameV)) -> (
    int,
    int,
) {
    fas_up_to(a, b, frames, a.faces@.len() as int)
}

/// For each face plane of the first polytope, measures how far the second
/// polytope's most penetrating vertex lies outside it, and keeps the face
/// of greatest (least negative) separation; a non-negative result means
/// that face separates the bodies. Ties resolve to the first maximum.
pub fn face_axes_separation(frames: (Frame, Frame), polytopes: (&Polytope, &Polytope)) -> (r: (
    Fx,
    usize,
))
    requires
        polytopes.0.wf(),
        polytopes.1.wf(),
        polytopes.0.faces@.len() > 0,
    ensures
        (r.0@, r.1 as int) == spec_face_axes_separation(
            *polytopes.0,
            *polytopes.1,
            (frames.0@, frames.1@),
        ),
        r.1 < polytopes.0.faces@.len(),
{
    let ghost framesv = (frames.0@, frames.1@);
    let n = polytopes.0.faces.len();
    let mut best_d = face_separation_at(frames, polytopes, 0);
    let mut best_i: usize = 0;
    let mut i: usize = 1;
    while i < n
        invariant
            polytopes.0.wf(),
            polytopes.1.wf(),
            n == polytopes.0.faces@.len(),
            framesv == (frames.0@, frames.1@),
            1 <= i <= n,
            best_i < i,
            (best_d@, best_i as int) == fas_up_to(*polytopes.0, *polytopes.1, framesv, i as int),
        decreases n - i,
    {
        let d = face_separation_at(frames, polytopes, i);
        if d.raw > best_d.raw {
            best_d = d;
            best_i = i;
        }
        i = i + 1;
    }
    (best_d, best_i)
}

/// The separation of one face of the first polytope against the second.
fn face_separation_at(frames: (Frame, Frame), polytopes: (&Polytope, &Polytope), i: usize) -> (r:
    Fx)
    requires
        polytopes.0.wf(),
        polytopes.1.wf(),
        i < polytopes.0.faces@.len(),
    ensures
        r@ == face_separation(*polytopes.0, *polytopes.1, (frames.0@, frames.1@), i as int),
{
    let plane = polytopes.0.plane(i);
    let neg_normal = plane.normal.neg();
    let inverse = frames.0.inverse();
    let m = polytopes.1.vertices.len();
    let mut best = inverse.act(frames.1.act(polytopes.1.vertices[0]));
    let mut best_dot = best.dot(neg_normal);
    let mut j: usize = 1;
    while j < m
        invariant
            polytopes.0.wf(),
            polytopes.1.wf(),
            m == polytopes.1.vertices@.len(),
            1 <= j <= m,
            inverse@ == frame_inverse(frames.0@),
            neg_normal@ == v3_neg(plane@.normal),
            plane@ == polytopes.0.spec_plane(i as int),
            i < polytopes.0.faces@.len(),
            best@ == deepest_local_up_to(
                *polytopes.1,
                (frames.0@, frames.1@),
                neg_normal@,
                j as int,
            ),
            best_dot@ == v3_dot(best@, neg_normal@),
        decreases m - j,
    {
        let cand = inverse.act(frames.1.act(polytopes.1.vertices[j]));
        let cand_dot = cand.dot(neg_normal);
        if cand_dot.raw > best_dot.raw {
            best = cand;
            best_dot = cand_dot;
        }
        j = j + 1;
    }
    plane.distance(best)
}

/// One candidate edge-pair axis folded into the running best: the axis is
/// the normalized cross product of the two world-space edge directions,
/// oriented away from the first body's centroid. A degenerate (parallel)
/// pair is skipped, as is an axis on which another vertex of the first
/// body reaches further than the candidate edge itself (not a genuine
/// local separator).
pub open spec fn eas_step(
    acc: (int, (int, int)),
    a: Polytope,
    b: Polytope,
    frames: (FrameV, FrameV),
    i: int,
    j: int,
) -> (int, (int, int)) {
    let foot = frame_act(frames.0, a.vertices@[a.edges@[i].0 as int]@);
    let da = v3_sub(frame_act(frames.0, a.vertices@[a.edges@[i].1 as int]@), foot);
    let db = v3_sub(
        frame_act(frames.1, b.vertices@[b.edges@[j].1 as int]@),
        frame_act(frames.1, b.vertices@[b.edges@[j].0 as int]@),
    );
    let raw_axis = v3_normalize(v3_cross(da, db));
    if raw_axis == v3_zero() {
        acc
    } else {
        let axis = if v3_dot(raw_axis, v3_sub(foot, frame_act(frames.0, a.centroid@))) < 0 {
            v3_neg(raw_axis)
        } else {
            raw_axis
        };
        if v3_dot(a.spec_support(frames.0, axis), axis) > v3_dot(foot, axis) {
            acc
        } else {
            let pl = plane_from_point_normal(foot, axis);
            let dist = plane_distance(pl, b.spec_support(frames.1, v3_neg(axis)));
            if dist > acc.0 {
                (dist, (i, j))
            } else {
                acc
            }
        }
    }
}

/// The best over the first `j` edges of `b` paired with edge `i` of `a`.
pub open spec fn eas_row(
    acc: (int, (int, int)),
    a: Polytope,
    b: Polytope,
    frames: (FrameV, FrameV),
    i: int,
    j: int,
) -> (int, (int, int))
    decreases j,
{
    if j <= 0 {
        acc
    } else {
        eas_step(eas_row(acc, a, b, frames, i, j - 1), a, b, frames, i, j - 1)
    }
}

/// The best over the first `i` edges of `a`, each paired with every edge
/// of `b`.
pub open spec fn eas_all(
    acc: (int, (int, int)),
    a: Polytope,
    b: Polytope,
    frames: (FrameV, FrameV),
    i: int,
) -> (int, (int, int))
    decreases i,
{
    if i <= 0 {
        acc
    } else {
        eas_row(eas_all(acc, a, b, frames, i - 1), a, b, frames, i - 1, b.edges@.len() as int)
    }
}

/// The best edge-pair query, seeded with the smallest scalar and no
/// indices.
pub open spec fn spec_edge_axes_separation(a: Polytope, b: Polytope, frames: (FrameV, FrameV)) -> (
    int,
    (int, int),
) {
    eas_all(
        (i64::MIN as int, (usize::MAX as int, usize::MAX as int)),
        a,
        b,
        frames,
        a.edges@.len() as int,
    )
}

/// For every pair of edges, builds the cross-product axis oriented away
/// from the first body and measures the signed separation along it,
/// keeping the greatest; degenerate and non-separating axes are skipped
/// (see `eas_step`). When every pair is skipped the seed value (the
/// smallest scalar, indices out of range) is returned, as the contract
/// states.
#[verifier::rlimit(100)]
pub fn edge_axes_separation(frames: (Frame, Frame), polytopes: (&Polytope, &Polytope)) -> (r: (
    Fx,
    (usize, usize),
))
    requires
        polytopes.0.wf(),
        polytopes.1.wf(),
    ensures
        (r.0@, (r.1.0 as int, r.1.1 as int)) == spec_edge_axes_separation(
            *polytopes.0,
            *polytopes.1,
            (frames.0@, frames.1@),
        ),
{
    let ghost framesv = (frames.0@, frames.1@);
    let mut best_d = Fx { raw: i64::MIN };
    let mut best_ij: (usize, usize) = (usize::MAX, usize::MAX);
    let na = polytopes.0.edges.len();
    let nb = polytopes.1.edges.len();
    for i in 0..na
        invariant
            polytopes.0.wf(),
            polytopes.1.wf(),
            framesv == (frames.0@, frames.1@),
            na == polytopes.0.edges@.len(),
            nb == polytopes.1.edges@.len(),
            (best_d@, (best_ij.0 as int, best_ij.1 as int)) == eas_all(
                (i64::MIN as int, (usize::MAX as int, usize::MAX as int)),
                *polytopes.0,
                *polytopes.1,
                framesv,
                i as int,
            ),
    {
        for j in 0..nb
            invariant
                polytopes.0.wf(),
                polytopes.1.wf(),
                framesv == (frames.0@, frames.1@),
                i < na,
                na == polytopes.0.edges@.len(),
                nb == polytopes.1.edges@.len(),
                (best_d@, (best_ij.0 as int, best_ij.1 as int)) == eas_row(
                    eas_all(
                        (i64::MIN as int, (usize::MAX as int, usize::MAX as int)),
                        *polytopes.0,
                        *polytopes.1,
                        framesv,
                        i as int,
                    ),
                    *polytopes.0,
                    *polytopes.1,
                    framesv,
                    i as int,
                    j as int,
                ),
        {
            let edge_a = polytopes.0.edges[i];
            let edge_b = polytopes.1.edges[j];
            let foot = frames.0.act(polytopes.0.vertices[edge_a.0]);
            let da = frames.0.act(polytopes.0.vertices[edge_a.1]).minus(foot);
            let db = frames.1.act(polytopes.1.vertices[edge_b.1]).minus(
                frames.1.act(polytopes.1.vertices[edge_b.0]),
            );
            let raw_axis = da.cross(db).normalize();
            if !raw_axis.is_zero() {
                let axis = if raw_axis.dot(foot.minus(frames.0.act(polytopes.0.centroid))).raw
                    < 0 {
                    raw_axis.neg()
                } else {
                    raw_axis
                };
                if !(polytopes.0.support(&frames.0, axis).dot(axis).raw > foot.dot(axis).raw) {
                    let pl = Plane::from_point_normal(foot, axis);
                    let dist = pl.distance(polytopes.1.support(&frames.1, axis.neg()));
                    if dist.raw > best_d.raw {
                        best_d = dist;
                        best_ij = (i, j);
                    }
                }
            }
        }
    }
    (best_d, best_ij)
}

/// The polygon clipped against the plane, over its first `i` circular
/// edges: vertices below the plane are kept, and an edge straddling the
/// plane contributes the intersection point.
pub open spec fn clip_prefix(poly: Seq<V3>, pl: PlaneV, i: int) -> Seq<V3>
    decreases i,
{
    if i <= 0 {
        Seq::empty()
    } else {
        let prev = clip_prefix(poly, pl, i - 1);
        let p1 = poly[i - 1];
        let next = if i == poly.len() {
            0int
        } else {
            i
        };
        let p2 = poly[next];
        let t1 = plane_facing(pl, p1);
        let t2 = plane_facing(pl, p2);
        if t1 && t2 {
            prev
        } else if t1 && !t2 {
            prev.push(plane_intersect(pl, p1, v3_sub(p2, p1)))
        } else if !t1 && t2 {
            prev.push(p1).push(plane_intersect(pl, p1, v3_sub(p2, p1)))
        } else {
            prev.push(p1)
        }
    }
}

/// The polygon clipped against the plane.
pub open spec fn spec_clip(poly: Seq<V3>, pl: PlaneV) -> Seq<V3> {
    clip_prefix(poly, pl, poly.len() as int)
}

/// Clips the polygon against the plane, keeping the portion below it (away
/// from the normal); straddling edges contribute their plane intersection
/// points.
pub fn clip(polygon: Vec<Vec3>, plane: Plane) -> (r: Vec<Vec3>)
    ensures
        r@.map_values(|v: Vec3| v@) =~= spec_clip(
            polygon@.map_values(|v: Vec3| v@),
            plane@,
        ),
{
    let ghost polyv = polygon@.map_values(|v: Vec3| v@);
    let mut clipped: Vec<Vec3> = Vec::new();
    let n = polygon.len();
    for i in 0..n
        invariant
            n == polygon@.len(),
            polyv == polygon@.map_values(|v: Vec3| v@),
            clipped@.map_values(|v: Vec3| v@) =~= clip_prefix(polyv, plane@, i as int),
    {
        let p1 = polygon[i];
        let next = if i + 1 == n {
            0
        } else {
            i + 1
        };
        let p2 = polygon[next];
        let t1 = plane.facing(p1);
        let t2 = plane.facing(p2);
        if t1 && t2 {
            // The edge lies above the plane.
        } else if t1 && !t2 {
            // The edge enters the clip region.
            clipped.push(plane.intersect(p1, p2.minus(p1)));
        } else if !t1 && t2 {
            // The edge exits the clip region.
            clipped.push(p1);
            clipped.push(plane.intersect(p1, p2.minus(p1)));
        } else {
            // The edge lies below the plane.
            clipped.push(p1);
        }
    }
    clipped
}

/// Among the first `i` faces of the polytope (carried into world space),
/// the first face whose normal is most anti-parallel to the reference
/// normal.
pub open spec fn incident_up_to(b: Polytope, f: FrameV, reference_normal: V3, i: int) -> int
    decreases i,
{
    if i <= 1 {
        0
    } else {
        let prev = incident_up_to(b, f, reference_normal, i - 1);
        let cand = v3_dot(plane_transform(f, b.spec_plane(i - 1)).normal, reference_normal);
        let prev_dot = v3_dot(plane_transform(f, b.spec_plane(prev)).normal, reference_normal);
        if cand < prev_dot {
            i - 1
        } else {
            prev
        }
    }
}

/// The incident face: the face whose world normal is most anti-parallel
/// to the reference normal.
pub open spec fn spec_incident_face(b: Polytope, f: FrameV, reference_normal: V3) -> int {
    incident_up_to(b, f, reference_normal, b.faces@.len() as int)
}

/// Finds the incident face of `b` for a reference normal.
fn incident_face(b: &Polytope, frame: &Frame, reference_normal: Vec3) -> (r: usize)
    requires
        b.wf(),
        b.faces@.len() > 0,
    ensures
        r as int == spec_incident_face(*b, frame@, reference_normal@),
        r < b.faces@.len(),
{
    let n = b.faces.len();
    let mut best: usize = 0;
    let mut best_dot = b.plane(0).transform(frame).normal.dot(reference_normal);
    let mut i: usize = 1;
    while i < n
        invariant
            b.wf(),
            n == b.faces@.len(),
            1 <= i <= n,
            best < i,
            best as int == incident_up_to(*b, frame@, reference_normal@, i as int),
            best_dot@ == v3_dot(
                plane_transform(frame@, b.spec_plane(best as int)).normal,
                reference_normal@,
            ),
        decreases n - i,
    {
        let d = b.plane(i).transform(frame).normal.dot(reference_normal);
        if d.raw < best_dot.raw {
            best = i;
            best_dot = d;
        }
        i = i + 1;
    }
    best
}

/// A fraction clamped into the unit interval.
pub open spec fn clamp_unit(x: int) -> int {
    if x < 0 {
        0
    } else if x > SCALE {
        SCALE as int
    } else {
        x
    }
}

/// The closest points between the segments `p1 + s * d1` and
/// `p2 + t * d2`, `s` and `t` clamped to the segments; on parallel
/// segments the division yields zero, pinning the first endpoint.
pub open spec fn spec_closest_points(p1: V3, d1: V3, p2: V3, d2: V3) -> (V3, V3) {
    let r = v3_sub(p1, p2);
    let aa = v3_dot(d1, d1);
    let e = v3_dot(d2, d2);
    let f = v3_dot(d2, r);
    let c = v3_dot(d1, r);
    let bb = v3_dot(d1, d2);
    let denom = fx_sub(fx_mul(aa, e), fx_mul(bb, bb));
    let s = clamp_unit(fx_div(fx_sub(fx_mul(bb, f), fx_mul(c, e)), denom));
    let t = clamp_unit(fx_div(fx_add(fx_mul(bb, s), f), e));
    (v3_add(p1, v3_scale(s, d1)), v3_add(p2, v3_scale(t, d2)))
}

/// The contact pair an edge-pair query drives: the closest points between
/// the two winning edges, in world space.
#[verifier::opaque]
pub open spec fn spec_edge_contact(
    a: Polytope,
    b: Polytope,
    frames: (FrameV, FrameV),
    i: int,
    j: int,
) -> Seq<V3> {
    let p1 = frame_act(frames.0, a.vertices@[a.edges@[i].0 as int]@);
    let d1 = v3_sub(frame_act(frames.0, a.vertices@[a.edges@[i].1 as int]@), p1);
    let p2 = frame_act(frames.1, b.vertices@[b.edges@[j].0 as int]@);
    let d2 = v3_sub(frame_act(frames.1, b.vertices@[b.edges@[j].1 as int]@), p2);
    let pair = spec_closest_points(p1, d1, p2, d2);
    seq![pair.0, pair.1]
}

/// The incident polygon of `b` carried to world space.
pub open spec fn spec_incident_polygon(b: Polytope, f: FrameV, inc: int) -> Seq<V3> {
    Seq::new(b.faces@[inc]@.len(), |j: int| frame_act(f, b.vertices@[b.faces@[inc]@[j] as int]@))
}

/// The incident polygon clipped against the first `k` planes adjacent to
/// the reference face.
pub open spec fn clip_chain(
    acc: Seq<V3>,
    a: Polytope,
    f0: FrameV,
    fi: int,
    k: int,
) -> Seq<V3>
    decreases k,
{
    if k <= 0 {
        acc
    } else {
        spec_clip(
            clip_chain(acc, a, f0, fi, k - 1),
            plane_transform(f0, a.spec_plane(a.adjacent_faces@[fi]@[k - 1] as int)),
        )
    }
}

/// The contact polygon a face query drives: the incident face of `b`
/// (most anti-parallel to the reference normal) clipped against the
/// planes adjacent to the reference face of `a`, then against the
/// reference plane itself.
#[verifier::opaque]
pub open spec fn spec_face_contact(
    a: Polytope,
    b: Polytope,
    frames: (FrameV, FrameV),
    fi: int,
) -> Seq<V3> {
    let reference_plane = plane_transform(frames.0, a.spec_plane(fi));
    let inc = spec_incident_face(b, frames.1, reference_plane.normal);
    let polygon = spec_incident_polygon(b, frames.1, inc);
    let clipped = clip_chain(polygon, a, frames.0, fi, a.adjacent_faces@[fi]@.len() as int);
    spec_clip(clipped, reference_plane)
}

/// The full narrow-phase resolution: the three separating-axis queries,
/// then, on overlap, the contact set of the authoritative query.
#[verifier::opaque]
pub open spec fn spec_clip_step(a: Polytope, b: Polytope, frames: (FrameV, FrameV)) -> Option<
    Seq<V3>,
> {
    let aq = spec_face_axes_separation(a, b, frames);
    let bq = spec_face_axes_separation(b, a, (frames.1, frames.0));
    let eq = spec_edge_axes_separation(a, b, frames);
    if aq.0 >= 0 || bq.0 >= 0 || eq.0 >= 0 {
        None
    } else if aq.0 >= bq.0 && aq.0 >= eq.0 {
        Some(spec_face_contact(a, b, frames, aq.1))
    } else if bq.0 >= eq.0 {
        Some(spec_face_contact(b, a, (frames.1, frames.0), bq.1))
    } else {
        Some(spec_edge_contact(a, b, frames, eq.1.0, eq.1.1))
    }
}

/// Whether some separating axis keeps the two polytopes apart.
#[verifier::opaque]
pub open spec fn spec_sat(a: Polytope, b: Polytope, frames: (FrameV, FrameV)) -> bool {
    spec_face_axes_separation(a, b, frames).0 >= 0 || spec_face_axes_separation(
        b,
        a,
        (frames.1, frames.0),
    ).0 >= 0 || spec_edge_axes_separation(a, b, frames).0 >= 0
}

/// A fraction clamped into the unit interval.
fn clamp_unit_fx(x: Fx) -> (r: Fx)
    ensures
        r@ == clamp_unit(x@),
{
    if x.raw < 0 {
        Fx { raw: 0 }
    } else if x.raw > SCALE {
        Fx { raw: SCALE }
    } else {
        x
    }
}

/// The contact pair an edge query drives: the closest points between the
/// winning edges, in world space.
pub fn edge_contact(frames: (Frame, Frame), polytopes: (&Polytope, &Polytope), i: usize, j: usize) -> (r: Vec<Vec3>)
    requires
        polytopes.0.wf(),
        polytopes.1.wf(),
        i < polytopes.0.edges@.len(),
        j < polytopes.1.edges@.len(),
    ensures
        r@.map_values(|v: Vec3| v@) =~= spec_edge_contact(
            *polytopes.0,
            *polytopes.1,
            (frames.0@, frames.1@),
            i as int,
            j as int,
        ),
{
    proof {
        reveal(spec_edge_contact);
    }
    let edge_a = polytopes.0.edges[i];
    let edge_b = polytopes.1.edges[j];
    let p1 = frames.0.act(polytopes.0.vertices[edge_a.0]);
    let d1 = frames.0.act(polytopes.0.vertices[edge_a.1]).minus(p1);
    let p2 = frames.1.act(polytopes.1.vertices[edge_b.0]);
    let d2 = frames.1.act(polytopes.1.vertices[edge_b.1]).minus(p2);
    let r = p1.minus(p2);
    let aa = d1.dot(d1);
    let e = d2.dot(d2);
    let f = d2.dot(r);
    let c = d1.dot(r);
    let bb = d1.dot(d2);
    let denom = aa.times(e).minus(bb.times(bb));
    let s = clamp_unit_fx(bb.times(f).minus(c.times(e)).div_by(denom));
    let t = clamp_unit_fx(bb.times(s).plus(f).div_by(e));
    let ca = p1.plus(d1.scale(s));
    let cb = p2.plus(d2.scale(t));
    let mut out: Vec<Vec3> = Vec::new();
    out.push(ca);
    out.push(cb);
    out
}

/// The contact polygon a face query drives: the incident face of the
/// second polytope clipped against the planes adjacent to the reference
/// face, then against the reference plane itself.
pub fn face_contact(frames: (Frame, Frame), polytopes: (&Polytope, &Polytope), fi: usize) -> (r: Vec<
    Vec3,
>)
    requires
        polytopes.0.wf(),
        polytopes.1.wf(),
        polytopes.1.faces@.len() > 0,
        fi < polytopes.0.faces@.len(),
    ensures
        r@.map_values(|v: Vec3| v@) =~= spec_face_contact(
            *polytopes.0,
            *polytopes.1,
            (frames.0@, frames.1@),
            fi as int,
        ),
{
    proof {
        reveal(spec_face_contact);
    }
    let ghost framesv = (frames.0@, frames.1@);
    let reference_plane = polytopes.0.plane(fi).transform(&frames.0);
    let inc = incident_face(polytopes.1, &frames.1, reference_plane.normal);

    let face = &polytopes.1.faces[inc];
    let mut polygon: Vec<Vec3> = Vec::new();
    let m = face.len();
    for j in 0..m
        invariant
            polytopes.1.wf(),
            inc < polytopes.1.faces@.len(),
            face@ == polytopes.1.faces@[inc as int]@,
            m == face@.len(),
            polygon@.map_values(|v: Vec3| v@) =~= spec_incident_polygon(
                *polytopes.1,
                frames.1@,
                inc as int,
            ).subrange(0, j as int),
    {
        polygon.push(frames.1.act(polytopes.1.vertices[face[j]]));
        proof {
            assert(spec_incident_polygon(*polytopes.1, frames.1@, inc as int).subrange(
                0,
                j as int + 1,
            ) =~= spec_incident_polygon(*polytopes.1, frames.1@, inc as int).subrange(
                0,
                j as int,
            ).push(spec_incident_polygon(*polytopes.1, frames.1@, inc as int)[j as int]));
        }
    }
    proof {
        assert(spec_incident_polygon(*polytopes.1, frames.1@, inc as int).subrange(
            0,
            m as int,
        ) =~= spec_incident_polygon(*polytopes.1, frames.1@, inc as int));
    }

    let adjacent = &polytopes.0.adjacent_faces[fi];
    let k_count = adjacent.len();
    let mut clipped = polygon;
    for k in 0..k_count
        invariant
            polytopes.0.wf(),
            fi < polytopes.0.faces@.len(),
            adjacent@ == polytopes.0.adjacent_faces@[fi as int]@,
            k_count == adjacent@.len(),
            framesv == (frames.0@, frames.1@),
            clipped@.map_values(|v: Vec3| v@) =~= clip_chain(
                spec_incident_polygon(*polytopes.1, frames.1@, spec_incident_face(
                    *polytopes.1,
                    frames.1@,
                    plane_transform(frames.0@, polytopes.0.spec_plane(fi as int)).normal,
                )),
                *polytopes.0,
                frames.0@,
                fi as int,
                k as int,
            ),
    {
        clipped = clip(clipped, polytopes.0.plane(adjacent[k]).transform(&frames.0));
    }
    clip(clipped, reference_plane)
}

/// Whether some separating axis (a face normal of either body or an edge
/// cross product) keeps the polytopes apart; `false` means they overlap.
pub fn sat(frames: (Frame, Frame), polytopes: (&Polytope, &Polytope)) -> (r: bool)
    requires
        polytopes.0.wf(),
        polytopes.1.wf(),
        polytopes.0.faces@.len() > 0,
        polytopes.1.faces@.len() > 0,
    ensures
        r == spec_sat(*polytopes.0, *polytopes.1, (frames.0@, frames.1@)),
{
    proof {
        reveal(spec_sat);
    }
    let aq = face_axes_separation(frames, polytopes);
    if aq.0.raw >= 0 {
        return true;
    }
    let bq = face_axes_separation((frames.1, frames.0), (polytopes.1, polytopes.0));
    if bq.0.raw >= 0 {
        return true;
    }
    let eq = edge_axes_separation(frames, polytopes);
    eq.0.raw >= 0
}

/// One narrow-phase step: `None` when a separating axis exists, otherwise
/// the contact set of the authoritative query — the clipped incident
/// polygon for a face query, the closest points between the winning edges
/// for an edge query.
pub fn clip_step(frames: (Frame, Frame), polytopes: (&Polytope, &Polytope)) -> (r: Option<
    Vec<Vec3>,
>)
    requires
        polytopes.0.wf(),
        polytopes.1.wf(),
        polytopes.0.faces@.len() > 0,
        polytopes.1.faces@.len() > 0,
    ensures
        r is Some <==> spec_clip_step(*polytopes.0, *polytopes.1, (frames.0@, frames.1@)) is Some,
        r is Some ==> r->Some_0@.map_values(|v: Vec3| v@) =~= spec_clip_step(
            *polytopes.0,
            *polytopes.1,
            (frames.0@, frames.1@),
        )->Some_0,
{
    proof {
        reveal(spec_clip_step);
    }
    let aq = face_axes_separation(frames, polytopes);
    let bq = face_axes_separation((frames.1, frames.0), (polytopes.1, polytopes.0));
    let eq = edge_axes_separation(frames, polytopes);
    if aq.0.raw >= 0 || bq.0.raw >= 0 || eq.0.raw >= 0 {
        None
    } else if aq.0.raw >= bq.0.raw && aq.0.raw >= eq.0.raw {
        Some(face_contact(frames, polytopes, aq.1))
    } else if bq.0.raw >= eq.0.raw {
        Some(face_contact((frames.1, frames.0), (polytopes.1, polytopes.0), bq.1))
    } else {
        proof {
            crate::collision::lemma_eas_indices_in_range(
                *polytopes.0,
                *polytopes.1,
                (frames.0@, frames.1@),
            );
        }
        Some(edge_contact(frames, polytopes, eq.1.0, eq.1.1))
    }
}

/// When the edge query beats the seed value, its indices name a real edge
/// pair: the seed only survives when every pair was skipped, and then its
/// separation, the smallest scalar, cannot be the strict maximum.
pub proof fn lemma_eas_indices_in_range(a: Polytope, b: Polytope, frames: (FrameV, FrameV))
    ensures
        spec_edge_axes_separation(a, b, frames).0 > i64::MIN as int ==> {
            let ij = spec_edge_axes_separation(a, b, frames).1;
            0 <= ij.0 < a.edges@.len() && 0 <= ij.1 < b.edges@.len()
        },
{
    lemma_eas_all_range(
        (i64::MIN as int, (usize::MAX as int, usize::MAX as int)),
        a,
        b,
        frames,
        a.edges@.len() as int,
    );
}

/// Range fact for the outer edge fold.
proof fn lemma_eas_all_range(
    acc: (int, (int, int)),
    a: Polytope,
    b: Polytope,
    frames: (FrameV, FrameV),
    i: int,
)
    requires
        i <= a.edges@.len(),
    ensures
        eas_all(acc, a, b, frames, i) == acc || {
            let r = eas_all(acc, a, b, frames, i);
            0 <= r.1.0 < a.edges@.len() && 0 <= r.1.1 < b.edges@.len()
        },
    decreases i,
{
    if i > 0 {
        lemma_eas_all_range(acc, a, b, frames, i - 1);
        lemma_eas_row_range(
            eas_all(acc, a, b, frames, i - 1),
            a,
            b,
            frames,
            i - 1,
            b.edges@.len() as int,
        );
    }
}

/// Range fact for the inner edge fold.
proof fn lemma_eas_row_range(
    acc: (int, (int, int)),
    a: Polytope,
    b: Polytope,
    frames: (FrameV, FrameV),
    i: int,
    j: int,
)
    requires
        0 <= i < a.edges@.len(),
        j <= b.edges@.len(),
    ensures
        eas_row(acc, a, b, frames, i, j) == acc || {
            let r = eas_row(acc, a, b, frames, i, j);
            0 <= r.1.0 < a.edges@.len() && 0 <= r.1.1 < b.edges@.len()
        },
    decreases j,
{
    if j > 0 {
        lemma_eas_row_range(acc, a, b, frames, i, j - 1);
    }
}

} // verus!
