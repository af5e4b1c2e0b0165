//! The Expanding Polytope Algorithm: refines a GJK overlap witness into a
//! penetration depth and contact normal.

use vstd::prelude::*;

use crate::collision::gjk::Tetrahedron;
use crate::frame::{Frame, FrameV};
use crate::geometry::{plane_from_points, Plane, PlaneV};
use crate::fx::Fx;
use crate::vec3::{v3_dot, v3_scale, v3_sub, Vec3, V3};

verus! {

/// The iteration cap bounding the expansion loop; deep penetrations stop
/// here and keep the best candidate rather than failing.
pub const EPA_MAX_ITERATIONS: usize = 64;

/// A penetration: the contact normal and how deep the shapes overlap
/// along it.
#[derive(Clone, Copy, PartialEq, Eq, Structural, Debug)]
pub struct Collision {
    pub normal: Vec3,
    pub depth: Fx,
}

/// A polytope in the Minkowski difference, grown one support point at a
/// time; faces are vertex-index triangles.
#[derive(Clone, Debug)]
pub struct Polytope {
    pub vertices: Vec<Vec3>,
    pub faces: Vec<(usize, usize, usize)>,
}

impl Polytope {
    /// Every face index in bounds.
    pub open spec fn wf(self) -> bool {
        forall|i: int|
            0 <= i < self.faces@.len() ==> (#[trigger] self.faces@[i]).0 < self.vertices@.len()
                && self.faces@[i].1 < self.vertices@.len() && self.faces@[i].2
                < self.vertices@.len()
    }

    /// The plane through face `i`'s vertices, in face order.
    pub open spec fn spec_face_plane(self, i: int) -> PlaneV {
        face_plane_of(self.vertices@, self.faces@, i)
    }

    /// Among the first `i` faces, the first one whose plane displacement
    /// is minimal.
    pub open spec fn spec_minimal_face_up_to(self, i: int) -> int {
        minimal_face_up_to(self.vertices@, self.faces@, i)
    }

    /// The face of least plane displacement: the current best penetration
    /// estimate.
    pub open spec fn spec_minimal_face(self) -> int {
        minimal_face_of(self.vertices@, self.faces@)
    }

    /// The polytope seeded from a GJK tetrahedron.
    pub fn new(simplex: Tetrahedron) -> (r: Polytope)
        ensures
            r.vertices@ =~= seq![simplex.0, simplex.1, simplex.2, simplex.3],
            r.faces@ =~= seq![
                (0usize, 1usize, 2usize),
                (0usize, 3usize, 1usize),
                (0usize, 2usize, 3usize),
                (1usize, 3usize, 2usize),
            ],
            r.wf(),
    {
        let r = Polytope {
            vertices: vec![simplex.0, simplex.1, simplex.2, simplex.3],
            faces: vec![
                (0usize, 1usize, 2usize),
                (0usize, 3usize, 1usize),
                (0usize, 2usize, 3usize),
                (1usize, 3usize, 2usize),
            ],
        };
        proof {
            assert(r.wf());
        }
        r
    }

    /// The three corner points of a face.
    pub fn face_vertices(&self, face: (usize, usize, usize)) -> (r: [Vec3; 3])
        requires
            face.0 < self.vertices@.len(),
            face.1 < self.vertices@.len(),
            face.2 < self.vertices@.len(),
        ensures
            r@ =~= seq![
                self.vertices@[face.0 as int],
                self.vertices@[face.1 as int],
                self.vertices@[face.2 as int],
            ],
    {
        [self.vertices[face.0], self.vertices[face.1], self.vertices[face.2]]
    }

    /// The index of the first face whose plane displacement is minimal.
    pub fn minimal_face(&self) -> (r: usize)
        requires
            self.wf(),
            self.faces@.len() > 0,
        ensures
            r as int == self.spec_minimal_face(),
            r < self.faces@.len(),
    {
        let mut best: usize = 0;
        let mut best_d = self.face_plane(0).displacement;
        let n = self.faces.len();
        let mut i: usize = 1;
        while i < n
            invariant
                self.wf(),
                n == self.faces@.len(),
                1 <= i <= n,
                best as int == self.spec_minimal_face_up_to(i as int),
                best < i,
                best_d@ == self.spec_face_plane(best as int).displacement,
            decreases n - i,
        {
            let d = self.face_plane(i).displacement;
            if d.raw < best_d.raw {
                best = i;
                best_d = d;
            }
            i = i + 1;
        }
        best
    }

    /// The plane through face `i`.
    pub fn face_plane(&self, i: usize) -> (r: Plane)
        requires
            self.wf(),
            i < self.faces@.len(),
        ensures
            r@ == self.spec_face_plane(i as int),
    {
        let face = self.faces[i];
        Plane::from_points(self.face_vertices(face))
    }

    /// Grows the polytope toward `p`: every face whose outward half-space
    /// contains `p` is deleted; the boundary edges of the deleted region
    /// (those left after interior edges cancel in pairs) are fanned to
    /// the new vertex.
    #[verifier::rlimit(100)]
    pub fn expand(&mut self, p: Vec3)
        requires
            old(self).wf(),
        ensures
            final(self).vertices@ =~= old(self).vertices@.push(p),
            final(self).faces@ =~= spec_expand_faces(*old(self), p@),
            final(self).wf(),
    {
        let ghost orig = *self;
        let new_index = self.vertices.len();
        self.vertices.push(p);

        let mut edges: Vec<(usize, usize)> = Vec::new();
        let mut kept: Vec<(usize, usize, usize)> = Vec::new();
        let n = self.faces.len();
        for i in 0..n
            invariant
                orig.wf(),
                n == orig.faces@.len(),
                self.faces@ == orig.faces@,
                self.vertices@ == orig.vertices@.push(p),
                new_index == orig.vertices@.len(),
                (kept@, edges@) == spec_expand_scan(orig, p@, i as int),
                forall|k: int|
                    0 <= k < edges@.len() ==> (#[trigger] edges@[k]).0 < new_index && edges@[k].1
                        < new_index,
                forall|k: int|
                    0 <= k < kept@.len() ==> (#[trigger] kept@[k]).0 < new_index && kept@[k].1
                        < new_index && kept@[k].2 < new_index,
        {
            let face = self.faces[i];
            let plane = Plane::from_points(self.face_vertices_orig(face));
            let against = plane.normal.dot(p.minus(plane.normal.scale(plane.displacement)));
            if against.raw <= 0 {
                kept.push(face);
            } else {
                edges = cancel(edges, face.0, face.1, Ghost(new_index as int));
                edges = cancel(edges, face.1, face.2, Ghost(new_index as int));
                edges = cancel(edges, face.2, face.0, Ghost(new_index as int));
            }
        }
        let m = edges.len();
        for j in 0..m
            invariant
                m == edges@.len(),
                new_index == orig.vertices@.len(),
                edges@ == spec_expand_scan(orig, p@, orig.faces@.len() as int).1,
                kept@ =~= spec_expand_scan(orig, p@, orig.faces@.len() as int).0 + edges@.subrange(
                    0,
                    j as int,
                ).map_values(|e: (usize, usize)| (e.0, e.1, new_index)),
                self.vertices@ == orig.vertices@.push(p),
                forall|k: int|
                    0 <= k < edges@.len() ==> (#[trigger] edges@[k]).0 < new_index && edges@[k].1
                        < new_index,
                forall|k: int|
                    0 <= k < kept@.len() ==> (#[trigger] kept@[k]).0 <= new_index && kept@[k].1
                        <= new_index && kept@[k].2 <= new_index,
        {
            let e = edges[j];
            kept.push((e.0, e.1, new_index));
            proof {
                assert(edges@.subrange(0, j as int + 1) =~= edges@.subrange(0, j as int).push(
                    edges@[j as int],
                ));
            }
        }
        self.faces = kept;
        proof {
            assert(final(self).faces@ =~= spec_expand_faces(orig, p@));
        }
    }

    /// The corner points of a face, read as the polytope stood before the
    /// new vertex was pushed (the indices are unaffected by the push).
    fn face_vertices_orig(&self, face: (usize, usize, usize)) -> (r: [Vec3; 3])
        requires
            face.0 < self.vertices@.len(),
            face.1 < self.vertices@.len(),
            face.2 < self.vertices@.len(),
        ensures
            r@ =~= seq![
                self.vertices@[face.0 as int],
                self.vertices@[face.1 as int],
                self.vertices@[face.2 as int],
            ],
    {
        [self.vertices[face.0], self.vertices[face.1], self.vertices[face.2]]
    }
}

/// The plane through face `i` of an indexed triangle surface.
pub open spec fn face_plane_of(vs: Seq<Vec3>, fs: Seq<(usize, usize, usize)>, i: int) -> PlaneV {
    plane_from_points(vs[fs[i].0 as int]@, vs[fs[i].1 as int]@, vs[fs[i].2 as int]@)
}

/// Among the first `i` faces, the first one whose plane displacement is
/// minimal.
pub open spec fn minimal_face_up_to(vs: Seq<Vec3>, fs: Seq<(usize, usize, usize)>, i: int) -> int
    decreases i,
{
    if i <= 1 {
        0
    } else {
        let prev = minimal_face_up_to(vs, fs, i - 1);
        if face_plane_of(vs, fs, i - 1).displacement < face_plane_of(vs, fs, prev).displacement {
            i - 1
        } else {
            prev
        }
    }
}

/// The face of least plane displacement.
pub open spec fn minimal_face_of(vs: Seq<Vec3>, fs: Seq<(usize, usize, usize)>) -> int {
    minimal_face_up_to(vs, fs, fs.len() as int)
}

/// The first index holding this edge in either orientation, scanning from
/// `j`; `-1` when there is none.
pub open spec fn spec_find_edge(edges: Seq<(usize, usize)>, e0: usize, e1: usize, j: int) -> int
    decreases edges.len() - j,
{
    if j < 0 || j >= edges.len() {
        -1
    } else if edges[j] == (e0, e1) || edges[j] == (e1, e0) {
        j
    } else {
        spec_find_edge(edges, e0, e1, j + 1)
    }
}

/// An edge folded into the boundary set: a second occurrence (in either
/// orientation) cancels the first, an unseen edge is appended.
pub open spec fn spec_cancel(edges: Seq<(usize, usize)>, e0: usize, e1: usize) -> Seq<
    (usize, usize),
> {
    let i = spec_find_edge(edges, e0, e1, 0);
    if i == -1 {
        edges.push((e0, e1))
    } else {
        edges.remove(i)
    }
}

/// Whether face `i` of the surface sees the point `p`: `p` lies strictly
/// outside the face's half-space.
pub open spec fn face_sees(vs: Seq<Vec3>, fs: Seq<(usize, usize, usize)>, p: V3, i: int) -> bool {
    let pl = face_plane_of(vs, fs, i);
    v3_dot(pl.normal, v3_sub(p, v3_scale(pl.displacement, pl.normal))) > 0
}

/// The faces kept and the boundary edges collected over the first `i`
/// faces.
pub open spec fn expand_scan(vs: Seq<Vec3>, fs: Seq<(usize, usize, usize)>, p: V3, i: int) -> (
    Seq<(usize, usize, usize)>,
    Seq<(usize, usize)>,
)
    decreases i,
{
    if i <= 0 {
        (Seq::empty(), Seq::empty())
    } else {
        let prev = expand_scan(vs, fs, p, i - 1);
        let face = fs[i - 1];
        if !face_sees(vs, fs, p, i - 1) {
            (prev.0.push(face), prev.1)
        } else {
            (
                prev.0,
                spec_cancel(spec_cancel(spec_cancel(prev.1, face.0, face.1), face.1, face.2), face.2, face.0),
            )
        }
    }
}

/// The face list after expansion: the faces the new point cannot see,
/// then one new face per boundary edge, fanned to the new vertex.
pub open spec fn expand_faces(vs: Seq<Vec3>, fs: Seq<(usize, usize, usize)>, p: V3) -> Seq<
    (usize, usize, usize),
> {
    let scan = expand_scan(vs, fs, p, fs.len() as int);
    scan.0 + scan.1.map_values(|e: (usize, usize)| (e.0, e.1, (vs.len() as usize)))
}

/// The faces kept and the boundary edges collected over the first `i`
/// faces of the polytope.
pub open spec fn spec_expand_scan(ep: Polytope, p: V3, i: int) -> (
    Seq<(usize, usize, usize)>,
    Seq<(usize, usize)>,
) {
    expand_scan(ep.vertices@, ep.faces@, p, i)
}

/// The face list after expansion.
pub open spec fn spec_expand_faces(ep: Polytope, p: V3) -> Seq<(usize, usize, usize)> {
    expand_faces(ep.vertices@, ep.faces@, p)
}

/// Whether some vertex at index `j` or later equals `p` exactly.
pub open spec fn spec_contains_from(vs: Seq<Vec3>, p: V3, j: int) -> bool
    decreases vs.len() - j,
{
    if j < 0 || j >= vs.len() {
        false
    } else if vs[j]@ == p {
        true
    } else {
        spec_contains_from(vs, p, j + 1)
    }
}

/// The expansion loop: take the face of least displacement as the current
/// penetration estimate; fetch the Minkowski support along its normal;
/// stop with that estimate when the support is already a vertex (no
/// progress possible) or the fuel runs out, else grow the polytope toward
/// the support. An emptied face list stops with a zero collision.
pub open spec fn spec_epa_loop(
    a: crate::geometry::Polytope,
    b: crate::geometry::Polytope,
    frames: (FrameV, FrameV),
    vs: Seq<Vec3>,
    fs: Seq<(usize, usize, usize)>,
    fuel: nat,
) -> (V3, int)
    decreases fuel,
{
    if fs.len() == 0 {
        (crate::vec3::v3_zero(), 0)
    } else {
        let pl = face_plane_of(vs, fs, minimal_face_of(vs, fs));
        if fuel == 0 {
            (pl.normal, pl.displacement)
        } else {
            let support = a.spec_minkowski_support(b, frames, pl.normal);
            if spec_contains_from(vs, support, 0) {
                (pl.normal, pl.displacement)
            } else {
                spec_epa_loop(
                    a,
                    b,
                    frames,
                    vs.push(crate::vec3::v3_to_vec3(support)),
                    expand_faces(vs, fs, support),
                    (fuel - 1) as nat,
                )
            }
        }
    }
}

/// The collision the algorithm reports, seeded from a GJK tetrahedron.
pub open spec fn spec_epa(
    a: crate::geometry::Polytope,
    b: crate::geometry::Polytope,
    frames: (FrameV, FrameV),
    simplex: Tetrahedron,
) -> (V3, int) {
    spec_epa_loop(
        a,
        b,
        frames,
        seq![simplex.0, simplex.1, simplex.2, simplex.3],
        seq![
            (0usize, 1usize, 2usize),
            (0usize, 3usize, 1usize),
            (0usize, 2usize, 3usize),
            (1usize, 3usize, 2usize),
        ],
        EPA_MAX_ITERATIONS as nat,
    )
}

/// Whether some vertex equals `p` exactly; exact equality is decidable
/// on the fixed-point scalar, so no tolerance is involved.
fn contains_vertex(vs: &Vec<Vec3>, p: Vec3) -> (r: bool)
    ensures
        r == spec_contains_from(vs@, p@, 0),
{
    let n = vs.len();
    let mut j: usize = 0;
    while j < n
        invariant
            n == vs@.len(),
            j <= n,
            spec_contains_from(vs@, p@, 0) == spec_contains_from(vs@, p@, j as int),
        decreases n - j,
    {
        let v = vs[j];
        if v.x.raw == p.x.raw && v.y.raw == p.y.raw && v.z.raw == p.z.raw {
            return true;
        }
        j = j + 1;
    }
    false
}

/// Refines a GJK overlap witness into the penetration depth and contact
/// normal, expanding the witness polytope toward the deepest face until
/// the support is already known or the iteration cap is hit; the cap
/// bounds deep penetrations, which would otherwise not terminate, and
/// keeps the best candidate.
pub fn epa(
    polytopes: (&crate::geometry::Polytope, &crate::geometry::Polytope),
    frames: (Frame, Frame),
    simplex: Tetrahedron,
) -> (r: Collision)
    requires
        polytopes.0.wf(),
        polytopes.1.wf(),
    ensures
        r.normal@ == spec_epa(*polytopes.0, *polytopes.1, (frames.0@, frames.1@), simplex).0,
        r.depth@ == spec_epa(*polytopes.0, *polytopes.1, (frames.0@, frames.1@), simplex).1,
{
    let ghost framesv = (frames.0@, frames.1@);
    let mut expanding = Polytope::new(simplex);
    proof {
        assert(expanding.vertices@ =~= seq![simplex.0, simplex.1, simplex.2, simplex.3]);
    }
    let mut fuel: usize = EPA_MAX_ITERATIONS;
    loop
        invariant
            polytopes.0.wf(),
            polytopes.1.wf(),
            framesv == (frames.0@, frames.1@),
            expanding.wf(),
            spec_epa(*polytopes.0, *polytopes.1, framesv, simplex) == spec_epa_loop(
                *polytopes.0,
                *polytopes.1,
                framesv,
                expanding.vertices@,
                expanding.faces@,
                fuel as nat,
            ),
        decreases fuel,
    {
        if expanding.faces.len() == 0 {
            return Collision { normal: Vec3::zero(), depth: Fx::zero() };
        }
        let fi = expanding.minimal_face();
        let pl = expanding.face_plane(fi);
        if fuel == 0 {
            return Collision { normal: pl.normal, depth: pl.displacement };
        }
        let support = polytopes.0.minkowski_support(polytopes.1, frames, pl.normal);
        if contains_vertex(&expanding.vertices, support) {
            return Collision { normal: pl.normal, depth: pl.displacement };
        }
        let ghost before = expanding;
        expanding.expand(support);
        proof {
            assert(crate::vec3::v3_to_vec3(support@) == support);
            assert(expanding.vertices@ =~= before.vertices@.push(support));
        }
        fuel = fuel - 1;
    }
}

/// Folds an edge into the boundary set, cancelling a matching edge of
/// either orientation.
fn cancel(edges: Vec<(usize, usize)>, e0: usize, e1: usize, Ghost(bound): Ghost<int>) -> (r: Vec<
    (usize, usize),
>)
    requires
        e0 < bound,
        e1 < bound,
        forall|k: int|
            0 <= k < edges@.len() ==> (#[trigger] edges@[k]).0 < bound && edges@[k].1 < bound,
    ensures
        r@ == spec_cancel(edges@, e0, e1),
        forall|k: int| 0 <= k < r@.len() ==> (#[trigger] r@[k]).0 < bound && r@[k].1 < bound,
{
    let n = edges.len();
    let mut j: usize = 0;
    while j < n
        invariant
            n == edges@.len(),
            j <= n,
            e0 < bound,
            e1 < bound,
            forall|k: int|
                0 <= k < edges@.len() ==> (#[trigger] edges@[k]).0 < bound && edges@[k].1 < bound,
            spec_find_edge(edges@, e0, e1, 0) == spec_find_edge(edges@, e0, e1, j as int),
        decreases n - j,
    {
        let e = edges[j];
        if (e.0 == e0 && e.1 == e1) || (e.0 == e1 && e.1 == e0) {
            let mut r = edges;
            r.remove(j);
            proof {
                edges@.remove_ensures(j as int);
                assert(r@ == edges@.remove(j as int));
                assert forall|k: int|
                    0 <= k < r@.len() implies ((#[trigger] r@[k]).0 < bound && r@[k].1
                    < bound) by {
                    if k < j as int {
                        assert(edges@.remove(j as int)[k] == edges@[k]);
                        assert((edges@[k]).0 < bound && (edges@[k]).1 < bound);
                    } else {
                        assert(edges@.remove(j as int)[k] == edges@[k + 1]);
                        assert((edges@[k + 1]).0 < bound && (edges@[k + 1]).1 < bound);
                    }
                }
            }
            return r;
        }
        j = j + 1;
    }
    let mut r = edges;
    r.push((e0, e1));
    r
}

} // verus!
