//! Planes and convex polytopes.

pub mod integrate;

use vstd::prelude::*;

use crate::frame::{frame_act, Frame, FrameV};
use crate::fx::{fx_add, fx_div, fx_from, fx_mul, fx_neg, fx_sqrt, fx_sub, Fx, SCALE};
use crate::quat::q_rotate;
use crate::vec3::{
    v3_add, v3_cross, v3_dot, v3_magnitude, v3_neg, v3_normalize, v3_project_on, v3_scale, v3_sub,
    v3_zero, Vec3, V3,
};

verus! {

/// The mathematical model of a plane: a unit normal and the signed
/// displacement of the plane from the origin along it.
pub ghost struct PlaneV {
    pub normal: V3,
    pub displacement: int,
}

/// The plane spanned by three points, its normal taken from the
/// cross product of the two edges leaving the first point.
#[verifier::opaque]
pub open spec fn plane_from_points(p0: V3, p1: V3, p2: V3) -> PlaneV {
    let normal = v3_normalize(v3_cross(v3_sub(p1, p0), v3_sub(p2, p0)));
    PlaneV { normal, displacement: v3_dot(normal, p0) }
}

/// The plane through a point with a given normal; the displacement is the
/// length of the point's projection onto the normal, negated when the
/// point lies against the normal.
#[verifier::opaque]
pub open spec fn plane_from_point_normal(point: V3, normal: V3) -> PlaneV {
    let m = v3_magnitude(v3_project_on(point, normal));
    let displacement = if v3_dot(point, normal) < 0 {
        fx_neg(m)
    } else {
        m
    };
    PlaneV { normal, displacement }
}

/// Signed distance of a point from the plane.
pub open spec fn plane_distance(pl: PlaneV, point: V3) -> int {
    fx_sub(v3_dot(pl.normal, point), pl.displacement)
}

/// The same plane with the normal reversed.
pub open spec fn plane_flip(pl: PlaneV) -> PlaneV {
    PlaneV { normal: v3_neg(pl.normal), displacement: fx_neg(pl.displacement) }
}

/// The point of the plane closest to the origin.
pub open spec fn plane_support(pl: PlaneV) -> V3 {
    v3_scale(pl.displacement, pl.normal)
}

/// Whether a point lies on the side the normal points to.
pub open spec fn plane_facing(pl: PlaneV, p: V3) -> bool {
    v3_dot(pl.normal, v3_sub(p, plane_support(pl))) >= 0
}

/// Where the line `l0 + d * l` meets the plane.
#[verifier::opaque]
pub open spec fn plane_intersect(pl: PlaneV, l0: V3, l: V3) -> V3 {
    let d = fx_div(v3_dot(v3_sub(plane_support(pl), l0), pl.normal), v3_dot(l, pl.normal));
    v3_add(l0, v3_scale(d, l))
}

/// A point of the plane projected onto it along the normal.
#[verifier::opaque]
pub open spec fn plane_project(pl: PlaneV, point: V3) -> V3 {
    v3_sub(point, v3_scale(plane_distance(pl, point), pl.normal))
}

/// The plane carried from local into global space by a frame.
#[verifier::opaque]
pub open spec fn plane_transform(f: FrameV, pl: PlaneV) -> PlaneV {
    plane_from_point_normal(frame_act(f, plane_support(pl)), q_rotate(f.rotation, pl.normal))
}

/// A plane: a unit normal and a signed displacement from the origin.
#[derive(Clone, Copy, PartialEq, Eq, Structural, Debug)]
pub struct Plane {
    pub normal: Vec3,
    pub displacement: Fx,
}

impl View for Plane {
    type V = PlaneV;

    open spec fn view(&self) -> PlaneV {
        PlaneV { normal: self.normal@, displacement: self.displacement@ }
    }
}

impl Plane {
    /// The plane spanned by three points. A degenerate (collinear) triple
    /// yields the zero normal, which callers recognize and skip.
    pub fn from_points(points: [Vec3; 3]) -> (r: Plane)
        ensures
            r@ == plane_from_points(points[0]@, points[1]@, points[2]@),
    {
        proof {
            reveal(plane_from_points);
        }
        let normal = points[1].minus(points[0]).cross(points[2].minus(points[0])).normalize();
        Plane { normal, displacement: normal.dot(points[0]) }
    }

    /// The plane through `point` with normal `normal`.
    pub fn from_point_normal(point: Vec3, normal: Vec3) -> (r: Plane)
        ensures
            r@ == plane_from_point_normal(point@, normal@),
    {
        proof {
            reveal(plane_from_point_normal);
        }
        let m = point.project_on(normal).magnitude();
        let displacement = if point.dot(normal).raw < 0 {
            m.neg()
        } else {
            m
        };
        Plane { normal, displacement }
    }

    /// Signed distance of a point from the plane.
    pub fn distance(self, point: Vec3) -> (r: Fx)
        ensures
            r@ == plane_distance(self@, point@),
    {
        self.normal.dot(point).minus(self.displacement)
    }

    /// A point projected onto the plane along the normal.
    pub fn project(self, point: Vec3) -> (r: Vec3)
        ensures
            r@ == plane_project(self@, point@),
    {
        proof {
            reveal(plane_project);
        }
        point.minus(self.normal.scale(self.distance(point)))
    }

    /// The constant part of the plane's equation.
    pub fn constant(self) -> (r: Fx)
        ensures
            r@ == fx_neg(self@.displacement),
    {
        self.displacement.neg()
    }

    /// The same plane with an anti-parallel normal.
    pub fn flip(self) -> (r: Plane)
        ensures
            r@ == plane_flip(self@),
    {
        Plane { normal: self.normal.neg(), displacement: self.displacement.neg() }
    }

    /// The point of the plane closest to the origin.
    pub fn support(self) -> (r: Vec3)
        ensures
            r@ == plane_support(self@),
    {
        self.normal.scale(self.displacement)
    }

    /// Whether a point lies on the side the normal points to.
    pub fn facing(self, p: Vec3) -> (r: bool)
        ensures
            r == plane_facing(self@, p@),
    {
        self.normal.dot(p.minus(self.support())).raw >= 0
    }

    /// Where the line `l0 + d * l` meets the plane; a line parallel to the
    /// plane (dot of direction and normal rounding to zero) yields `l0`
    /// itself, since the scale then divides by zero to zero.
    pub fn intersect(self, l0: Vec3, l: Vec3) -> (r: Vec3)
        ensures
            r@ == plane_intersect(self@, l0@, l@),
    {
        proof {
            reveal(plane_intersect);
        }
        let p0 = self.support();
        let n = self.normal;
        let d = p0.minus(l0).dot(n).div_by(l.dot(n));
        l0.plus(l.scale(d))
    }

    /// The plane carried from local into global space by a frame.
    pub fn transform(self, f: &Frame) -> (r: Plane)
        ensures
            r@ == plane_transform(f@, self@),
    {
        proof {
            reveal(plane_transform);
        }
        let support = self.normal.scale(self.displacement);
        Plane::from_point_normal(f.act(support), f.rotation.rotate(self.normal))
    }
}

impl Default for Plane {
    /// The degenerate plane with zero normal and zero displacement.
    fn default() -> (r: Plane)
        ensures
            r@ == (PlaneV { normal: v3_zero(), displacement: 0 }),
    {
        Plane { normal: Vec3::zero(), displacement: Fx::zero() }
    }
}

/// The corners of the tetrahedron spanning one corner of the unit cube.
pub open spec fn tetra_vertices() -> Seq<V3> {
    seq![
        V3 { x: 0, y: 0, z: 0 },
        V3 { x: SCALE as int, y: 0, z: 0 },
        V3 { x: 0, y: SCALE as int, z: 0 },
        V3 { x: 0, y: 0, z: SCALE as int },
    ]
}

/// The corners of the unit cube.
pub open spec fn cube_vertices() -> Seq<V3> {
    seq![
        V3 { x: 0, y: 0, z: 0 },
        V3 { x: SCALE as int, y: 0, z: 0 },
        V3 { x: 0, y: SCALE as int, z: 0 },
        V3 { x: SCALE as int, y: SCALE as int, z: 0 },
        V3 { x: 0, y: 0, z: SCALE as int },
        V3 { x: SCALE as int, y: 0, z: SCALE as int },
        V3 { x: 0, y: SCALE as int, z: SCALE as int },
        V3 { x: SCALE as int, y: SCALE as int, z: SCALE as int },
    ]
}

/// Half the edge length of the icosahedron's golden rectangles: the
/// golden ratio scaled down to the unit sphere.
pub open spec fn ico_a() -> int {
    fx_div(ico_phi(), ico_mag())
}

/// Half the width of the icosahedron's golden rectangles, scaled down to
/// the unit sphere.
pub open spec fn ico_b() -> int {
    fx_div(SCALE as int, ico_mag())
}

/// The golden ratio in fixed point: `(1 + sqrt 5) / 2`.
pub open spec fn ico_phi() -> int {
    fx_mul(fx_add(SCALE as int, fx_sqrt(fx_from(5))), 2147483648)
}

/// The length of the vector `(phi, 1)`.
pub open spec fn ico_mag() -> int {
    fx_sqrt(fx_add(fx_mul(ico_phi(), ico_phi()), SCALE as int))
}

/// The corners of the icosahedron inscribed in the unit sphere: three
/// mutually orthogonal golden rectangles.
pub open spec fn ico_vertices() -> Seq<V3> {
    let a = ico_a();
    let b = ico_b();
    let na = fx_neg(a);
    let nb = fx_neg(b);
    seq![
        V3 { x: a, y: b, z: 0 },
        V3 { x: a, y: nb, z: 0 },
        V3 { x: na, y: b, z: 0 },
        V3 { x: na, y: nb, z: 0 },
        V3 { x: 0, y: a, z: b },
        V3 { x: 0, y: a, z: nb },
        V3 { x: 0, y: na, z: b },
        V3 { x: 0, y: na, z: nb },
        V3 { x: b, y: 0, z: a },
        V3 { x: nb, y: 0, z: a },
        V3 { x: b, y: 0, z: na },
        V3 { x: nb, y: 0, z: na },
    ]
}

/// The triangle fan of one face: triangles emanating from the face's
/// first vertex; faces of fewer than three vertices contribute nothing.
pub open spec fn tri_fan(f: Seq<usize>) -> Seq<(usize, usize, usize)> {
    if f.len() < 2 {
        Seq::empty()
    } else {
        Seq::new((f.len() - 2) as nat, |j: int| (f[0], f[j + 1], f[j + 2]))
    }
}

/// The triangle fans of the first `i` faces, concatenated.
pub open spec fn tris_up_to(p: Polytope, i: int) -> Seq<(usize, usize, usize)>
    decreases i,
{
    if i <= 0 {
        Seq::empty()
    } else {
        tris_up_to(p, i - 1) + tri_fan(p.faces@[i - 1]@)
    }
}

/// A convex polytope. The surface is assumed to form a closed 2-manifold
/// with faces wound outward; the well-formedness predicate `wf` carries
/// the structural part of that assumption: every index in bounds, every
/// face at least a triangle, one adjacency list per face.
pub struct Polytope {
    /// Object-space corner points.
    pub vertices: Vec<Vec3>,
    /// Edges indexing vertices.
    pub edges: Vec<(usize, usize)>,
    /// Convex polygons indexing vertices; vertices sharing a face are
    /// assumed co-planar.
    pub faces: Vec<Vec<usize>>,
    /// For each face, the faces sharing an edge with it.
    pub adjacent_faces: Vec<Vec<usize>>,
    /// The mean of the volume, used to orient face planes outward.
    pub centroid: Vec3,
}

impl Polytope {
    /// Structural soundness: all indices in bounds, faces at least
    /// triangles, one adjacency list per face, at least one vertex.
    pub open spec fn wf(self) -> bool {
        &&& self.vertices@.len() > 0
        &&& forall|i: int|
            0 <= i < self.edges@.len() ==> (#[trigger] self.edges@[i]).0 < self.vertices@.len()
                && self.edges@[i].1 < self.vertices@.len()
        &&& forall|i: int|
            0 <= i < self.faces@.len() ==> (#[trigger] self.faces@[i]@).len() >= 3
        &&& forall|i: int, j: int|
            0 <= i < self.faces@.len() && 0 <= j < self.faces@[i]@.len() ==> (#[trigger] self.faces@[i]@[j])
                < self.vertices@.len()
        &&& self.adjacent_faces@.len() == self.faces@.len()
        &&& forall|i: int, j: int|
            0 <= i < self.adjacent_faces@.len() && 0 <= j < self.adjacent_faces@[i]@.len()
                ==> (#[trigger] self.adjacent_faces@[i]@[j]) < self.faces@.len()
    }

    /// The plane of face `i`: spanned by the face's first three vertices
    /// and flipped so that it points away from the centroid.
    pub open spec fn spec_plane(self, i: int) -> PlaneV {
        let f = self.faces@[i]@;
        let pl = plane_from_points(
            self.vertices@[f[0] as int]@,
            self.vertices@[f[1] as int]@,
            self.vertices@[f[2] as int]@,
        );
        if !plane_facing(pl, self.centroid@) {
            pl
        } else {
            plane_flip(pl)
        }
    }

    /// The planes of all faces, in face order.
    pub open spec fn spec_planes(self) -> Seq<PlaneV> {
        Seq::new(self.faces@.len(), |i: int| self.spec_plane(i))
    }

    /// The world-space vertex with the greatest projection onto
    /// `direction`, among vertices `0 .. i`; ties resolve to the first
    /// maximum encountered.
    pub open spec fn spec_support_up_to(self, f: FrameV, direction: V3, i: nat) -> V3
        decreases i,
    {
        if i <= 1 {
            frame_act(f, self.vertices@[0]@)
        } else {
            let prev = self.spec_support_up_to(f, direction, (i - 1) as nat);
            let cand = frame_act(f, self.vertices@[i - 1]@);
            if v3_dot(cand, direction) > v3_dot(prev, direction) {
                cand
            } else {
                prev
            }
        }
    }

    /// The world-space support point along `direction`.
    pub open spec fn spec_support(self, f: FrameV, direction: V3) -> V3 {
        self.spec_support_up_to(f, direction, self.vertices@.len())
    }

    /// The support of the Minkowski difference of `self` under `frames.0`
    /// and `other` under `frames.1`.
    pub open spec fn spec_minkowski_support(
        self,
        other: Polytope,
        frames: (FrameV, FrameV),
        direction: V3,
    ) -> V3 {
        v3_sub(
            self.spec_support(frames.0, direction),
            other.spec_support(frames.1, v3_neg(direction)),
        )
    }

    /// A tetrahedron spanning one corner of the unit cube.
    pub fn new_tetrahedron() -> (r: Polytope)
        ensures
            r.wf(),
            r.vertices@.map_values(|v: Vec3| v@) =~= tetra_vertices(),
            r.edges@ =~= seq![(0usize, 1usize), (0, 2), (0, 3), (1, 2), (1, 3), (2, 3)],
            r.faces@.map_values(|f: Vec<usize>| f@) =~~= seq![
                seq![0usize, 3, 2],
                seq![3usize, 0, 1],
                seq![2usize, 1, 0],
                seq![1usize, 2, 3],
            ],
            r.adjacent_faces@.map_values(|f: Vec<usize>| f@) =~~= seq![
                seq![1usize, 2, 3],
                seq![0usize, 2, 3],
                seq![0usize, 1, 3],
                seq![0usize, 1, 2],
            ],
            r.centroid@ == (V3 { x: 1073741824, y: 1073741824, z: 1073741824 }),
    {
        let o = Fx::zero();
        let l = Fx::one();
        let q = Fx { raw: 1073741824 };
        let r = Polytope {
            vertices: vec![
                Vec3::new(o, o, o),
                Vec3::new(l, o, o),
                Vec3::new(o, l, o),
                Vec3::new(o, o, l),
            ],
            edges: vec![(0usize, 1usize), (0, 2), (0, 3), (1, 2), (1, 3), (2, 3)],
            faces: vec![vec![0usize, 3, 2], vec![3usize, 0, 1], vec![2usize, 1, 0], vec![1usize, 2, 3]],
            adjacent_faces: vec![
                vec![1usize, 2, 3],
                vec![0usize, 2, 3],
                vec![0usize, 1, 3],
                vec![0usize, 1, 2],
            ],
            centroid: Vec3::new(q, q, q),
        };
        proof {
            assert(r.wf());
        }
        r
    }

    /// A cube spanning the unit volume.
    pub fn new_cube() -> (r: Polytope)
        ensures
            r.wf(),
            r.vertices@.map_values(|v: Vec3| v@) =~= cube_vertices(),
            r.edges@ =~= seq![
                (0usize, 1usize),
                (1, 3),
                (3, 2),
                (2, 0),
                (4, 5),
                (5, 7),
                (7, 6),
                (6, 4),
                (0, 4),
                (1, 5),
                (3, 7),
                (2, 6),
            ],
            r.faces@.map_values(|f: Vec<usize>| f@) =~~= seq![
                seq![0usize, 2, 3, 1],
                seq![4usize, 5, 7, 6],
                seq![4usize, 0, 1, 5],
                seq![5usize, 1, 3, 7],
                seq![7usize, 3, 2, 6],
                seq![6usize, 2, 0, 4],
            ],
            r.adjacent_faces@.map_values(|f: Vec<usize>| f@) =~~= seq![
                seq![2usize, 3, 4, 5],
                seq![2usize, 3, 4, 5],
                seq![1usize, 3, 0, 5],
                seq![1usize, 2, 0, 4],
                seq![1usize, 3, 0, 5],
                seq![1usize, 2, 0, 4],
            ],
            r.centroid@ == (V3 { x: 2147483648, y: 2147483648, z: 2147483648 }),
    {
        let o = Fx::zero();
        let l = Fx::one();
        let h = Fx { raw: 2147483648 };
        let r = Polytope {
            vertices: vec![
                Vec3::new(o, o, o),
                Vec3::new(l, o, o),
                Vec3::new(o, l, o),
                Vec3::new(l, l, o),
                Vec3::new(o, o, l),
                Vec3::new(l, o, l),
                Vec3::new(o, l, l),
                Vec3::new(l, l, l),
            ],
            edges: vec![
                (0usize, 1usize),
                (1, 3),
                (3, 2),
                (2, 0),
                (4, 5),
                (5, 7),
                (7, 6),
                (6, 4),
                (0, 4),
                (1, 5),
                (3, 7),
                (2, 6),
            ],
            faces: vec![
                vec![0usize, 2, 3, 1],
                vec![4usize, 5, 7, 6],
                vec![4usize, 0, 1, 5],
                vec![5usize, 1, 3, 7],
                vec![7usize, 3, 2, 6],
                vec![6usize, 2, 0, 4],
            ],
            adjacent_faces: vec![
                vec![2usize, 3, 4, 5],
                vec![2usize, 3, 4, 5],
                vec![1usize, 3, 0, 5],
                vec![1usize, 2, 0, 4],
                vec![1usize, 3, 0, 5],
                vec![1usize, 2, 0, 4],
            ],
            centroid: Vec3::new(h, h, h),
        };
        proof {
            assert(r.wf());
        }
        r
    }

    /// An icosahedron with vertices on the unit sphere, centered at the
    /// origin.
    pub fn new_icosahedron() -> (r: Polytope)
        ensures
            r.wf(),
            r.vertices@.map_values(|v: Vec3| v@) =~= ico_vertices(),
            r.edges@.len() == 30,
            r.faces@.map_values(|f: Vec<usize>| f@) =~~= seq![
                seq![0usize, 5, 4],
                seq![2usize, 4, 5],
                seq![1usize, 6, 7],
                seq![3usize, 7, 6],
                seq![1usize, 0, 8],
                seq![0usize, 1, 10],
                seq![2usize, 3, 9],
                seq![3usize, 2, 11],
                seq![4usize, 9, 8],
                seq![6usize, 8, 9],
                seq![5usize, 10, 11],
                seq![7usize, 11, 10],
                seq![0usize, 4, 8],
                seq![0usize, 10, 5],
                seq![2usize, 9, 4],
                seq![2usize, 5, 11],
                seq![1usize, 8, 6],
                seq![1usize, 7, 10],
                seq![3usize, 6, 9],
                seq![3usize, 11, 7],
            ],
            r.centroid@ == crate::vec3::v3_zero(),
    {
        let phi = Fx::one().plus(Fx::from_int(5).sqrt()).times(Fx { raw: 2147483648 });
        let mag = phi.times(phi).plus(Fx::one()).sqrt();
        let a = phi.div_by(mag);
        let b = Fx::one().div_by(mag);
        let na = a.neg();
        let nb = b.neg();
        let o = Fx::zero();
        let r = Polytope {
            vertices: vec![
                Vec3::new(a, b, o),
                Vec3::new(a, nb, o),
                Vec3::new(na, b, o),
                Vec3::new(na, nb, o),
                Vec3::new(o, a, b),
                Vec3::new(o, a, nb),
                Vec3::new(o, na, b),
                Vec3::new(o, na, nb),
                Vec3::new(b, o, a),
                Vec3::new(nb, o, a),
                Vec3::new(b, o, na),
                Vec3::new(nb, o, na),
            ],
            edges: vec![
                (8usize, 9usize),
                (8, 0),
                (8, 1),
                (1, 0),
                (9, 2),
                (9, 3),
                (2, 3),
                (2, 5),
                (2, 11),
                (5, 11),
                (3, 7),
                (3, 11),
                (7, 11),
                (0, 5),
                (1, 7),
                (4, 5),
                (4, 0),
                (4, 8),
                (4, 9),
                (4, 2),
                (6, 9),
                (6, 8),
                (6, 1),
                (6, 7),
                (6, 3),
                (10, 1),
                (10, 0),
                (10, 5),
                (10, 11),
                (10, 7),
            ],
            faces: vec![
                vec![0usize, 5, 4],
                vec![2usize, 4, 5],
                vec![1usize, 6, 7],
                vec![3usize, 7, 6],
                vec![1usize, 0, 8],
                vec![0usize, 1, 10],
                vec![2usize, 3, 9],
                vec![3usize, 2, 11],
                vec![4usize, 9, 8],
                vec![6usize, 8, 9],
                vec![5usize, 10, 11],
                vec![7usize, 11, 10],
                vec![0usize, 4, 8],
                vec![0usize, 10, 5],
                vec![2usize, 9, 4],
                vec![2usize, 5, 11],
                vec![1usize, 8, 6],
                vec![1usize, 7, 10],
                vec![3usize, 6, 9],
                vec![3usize, 11, 7],
            ],
            adjacent_faces: vec![
                vec![1usize, 12, 13],
                vec![0usize, 14, 15],
                vec![3usize, 16, 17],
                vec![2usize, 18, 19],
                vec![5usize, 12, 16],
                vec![4usize, 13, 17],
                vec![7usize, 14, 18],
                vec![6usize, 15, 19],
                vec![9usize, 12, 14],
                vec![8usize, 16, 18],
                vec![11usize, 13, 15],
                vec![10usize, 17, 19],
                vec![0usize, 4, 8],
                vec![0usize, 5, 10],
                vec![1usize, 6, 8],
                vec![1usize, 7, 10],
                vec![2usize, 4, 9],
                vec![2usize, 5, 11],
                vec![3usize, 6, 9],
                vec![3usize, 7, 11],
            ],
            centroid: Vec3::zero(),
        };
        proof {
            assert(r.wf());
        }
        r
    }

    /// Compute the plane of face `i`, pointing away from the centroid.
    pub fn plane(&self, i: usize) -> (r: Plane)
        requires
            self.wf(),
            i < self.faces@.len(),
        ensures
            r@ == self.spec_plane(i as int),
    {
        let face = &self.faces[i];
        let p0 = self.vertices[face[0]];
        let p1 = self.vertices[face[1]];
        let p2 = self.vertices[face[2]];
        let pl = Plane::from_points([p0, p1, p2]);
        if !pl.facing(self.centroid) {
            pl
        } else {
            pl.flip()
        }
    }

    /// The planes the polytope's faces generate, in face order. Two calls
    /// on the same polytope return identical planes: the result is pinned
    /// to `spec_planes`.
    pub fn planes(&self) -> (r: Vec<Plane>)
        requires
            self.wf(),
        ensures
            r@.len() == self.faces@.len(),
            forall|i: int| 0 <= i < r@.len() ==> (#[trigger] r@[i])@ == self.spec_plane(i),
    {
        let mut r: Vec<Plane> = Vec::new();
        let n = self.faces.len();
        for i in 0..n
            invariant
                self.wf(),
                n == self.faces@.len(),
                r@.len() == i,
                forall|k: int| 0 <= k < i ==> (#[trigger] r@[k])@ == self.spec_plane(k),
        {
            r.push(self.plane(i));
        }
        r
    }

    /// The vertices of face `i`, in face order.
    pub fn face(&self, i: usize) -> (r: Vec<Vec3>)
        requires
            self.wf(),
            i < self.faces@.len(),
        ensures
            r@.len() == self.faces@[i as int]@.len(),
            forall|j: int|
                0 <= j < r@.len() ==> #[trigger] r@[j] == self.vertices@[self.faces@[i as int]@[j] as int],
    {
        let face = &self.faces[i];
        let mut r: Vec<Vec3> = Vec::new();
        let n = face.len();
        for j in 0..n
            invariant
                self.wf(),
                i < self.faces@.len(),
                face@ == self.faces@[i as int]@,
                n == self.faces@[i as int]@.len(),
                r@.len() == j,
                forall|k: int|
                    0 <= k < j ==> #[trigger] r@[k] == self.vertices@[self.faces@[i as int]@[k] as int],
        {
            r.push(self.vertices[face[j]]);
        }
        r
    }

    /// The world-space vertex with the greatest projection onto
    /// `direction`; ties resolve to the first maximum encountered.
    pub fn support(&self, frame: &Frame, direction: Vec3) -> (r: Vec3)
        requires
            self.wf(),
        ensures
            r@ == self.spec_support(frame@, direction@),
    {
        let mut best = frame.act(self.vertices[0]);
        let mut best_dot = best.dot(direction);
        let n = self.vertices.len();
        let mut i: usize = 1;
        while i < n
            invariant
                self.wf(),
                n == self.vertices@.len(),
                1 <= i <= n,
                best@ == self.spec_support_up_to(frame@, direction@, i as nat),
                best_dot@ == v3_dot(best@, direction@),
            decreases n - i,
        {
            let cand = frame.act(self.vertices[i]);
            let cand_dot = cand.dot(direction);
            if cand_dot.raw > best_dot.raw {
                best = cand;
                best_dot = cand_dot;
            }
            i = i + 1;
        }
        best
    }

    /// The faces tessellated into triangles, in face order.
    pub open spec fn spec_triangles(self) -> Seq<(usize, usize, usize)> {
        tris_up_to(self, self.faces@.len() as int)
    }

    /// The faces tessellated into triangle fans, in face order; co-linear
    /// vertices yield degenerate triangles.
    pub fn triangles(&self) -> (r: Vec<(usize, usize, usize)>)
        requires
            self.wf(),
        ensures
            r@ =~= self.spec_triangles(),
    {
        let mut r: Vec<(usize, usize, usize)> = Vec::new();
        let n_faces = self.faces.len();
        for i in 0..n_faces
            invariant
                self.wf(),
                n_faces == self.faces@.len(),
                r@ =~= tris_up_to(*self, i as int),
        {
            let face = &self.faces[i];
            let emanating = face[0];
            let n = face.len();
            let mut j: usize = 1;
            while j + 1 < n
                invariant
                    self.wf(),
                    i < self.faces@.len(),
                    face@ == self.faces@[i as int]@,
                    emanating == face@[0],
                    n == face@.len(),
                    3 <= n,
                    1 <= j <= n - 1,
                    r@ =~= tris_up_to(*self, i as int) + tri_fan(face@).subrange(0, j - 1),
                decreases n - j,
            {
                r.push((emanating, face[j], face[j + 1]));
                proof {
                    assert(tri_fan(face@).subrange(0, j as int) =~= tri_fan(face@).subrange(
                        0,
                        j - 1,
                    ).push(tri_fan(face@)[j - 1]));
                }
                j = j + 1;
            }
            proof {
                assert(tri_fan(face@).subrange(0, n - 2) =~= tri_fan(face@));
            }
        }
        r
    }

    /// Mass properties of the polytope at the given uniform density.
    pub fn rigid_metrics(&self, density: Fx) -> (r: integrate::RigidMetrics)
        requires
            self.wf(),
        ensures
            r@ == integrate::spec_rigid_metrics(*self, density@),
    {
        integrate::rigid_metrics(self, density)
    }

    /// The support of the Minkowski difference of `self` and `other`.
    pub fn minkowski_support(
        &self,
        other: &Polytope,
        frames: (Frame, Frame),
        direction: Vec3,
    ) -> (r: Vec3)
        requires
            self.wf(),
            other.wf(),
        ensures
            r@ == self.spec_minkowski_support(*other, (frames.0@, frames.1@), direction@),
    {
        self.support(&frames.0, direction).minus(other.support(&frames.1, direction.neg()))
    }
}

/// Deriving the face planes is idempotent: the planes are a function of
/// the polytope alone, so any two calls of `planes` on one polytope (its
/// results are pinned to `spec_planes`) yield identical normals and
/// displacements.
pub proof fn lemma_planes_idempotent(p: Polytope, first: Seq<PlaneV>, second: Seq<PlaneV>)
    requires
        first == p.spec_planes(),
        second == p.spec_planes(),
    ensures
        first == second,
{
}

} // verus!
