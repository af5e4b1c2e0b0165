//! Narrow-phase queries on concrete shapes: GJK, EPA, SAT and clipping.

use rigid_kernel::collision::epa::{epa, Polytope as ExpandingPolytope};
use rigid_kernel::collision::gjk::gjk;
use rigid_kernel::collision::{
    clip, clip_step, edge_axes_separation, edge_contact, face_axes_separation, sat,
};
use rigid_kernel::frame::Frame;
use rigid_kernel::fx::{Fx, SCALE};
use rigid_kernel::geometry::Polytope;
use rigid_kernel::quat::Quat;
use rigid_kernel::vec3::Vec3;

fn fxc(v: f64) -> Fx {
    Fx {
        raw: (v * SCALE as f64).round() as i64,
    }
}

fn fc(x: Fx) -> f64 {
    x.raw as f64 / SCALE as f64
}

fn vc(x: f64, y: f64, z: f64) -> Vec3 {
    Vec3::new(fxc(x), fxc(y), fxc(z))
}

/// The frame placing the unit cube's center at the given point.
fn cube_at(x: f64, y: f64, z: f64) -> Frame {
    Frame::new(vc(x - 0.5, y - 0.5, z - 0.5), Quat::identity())
}

#[test]
fn cube_planes_are_exact() {
    let cube = Polytope::new_cube();
    let planes = cube.planes();
    assert_eq!(planes.len(), 6);
    // Face 0 lies in z = 0 and faces away from the centroid: normal -z.
    assert_eq!(planes[0].normal.z.raw, -SCALE);
    assert_eq!(planes[0].normal.x.raw, 0);
    assert_eq!(planes[0].displacement.raw, 0);
    // Face 1 lies in z = 1: normal +z, displacement 1.
    assert_eq!(planes[1].normal.z.raw, SCALE);
    assert_eq!(planes[1].displacement.raw, SCALE);
}

#[test]
fn planes_repeat_identically() {
    let cube = Polytope::new_cube();
    let first = cube.planes();
    let second = cube.planes();
    assert_eq!(first.len(), second.len());
    for i in 0..first.len() {
        assert_eq!(first[i].normal.x.raw, second[i].normal.x.raw);
        assert_eq!(first[i].normal.y.raw, second[i].normal.y.raw);
        assert_eq!(first[i].normal.z.raw, second[i].normal.z.raw);
        assert_eq!(first[i].displacement.raw, second[i].displacement.raw);
    }
}

#[test]
fn cube_support_picks_extreme_corner() {
    let cube = Polytope::new_cube();
    let s = cube.support(&Frame::identity(), vc(1.0, 1.0, 1.0));
    assert_eq!(s.x.raw, SCALE);
    assert_eq!(s.y.raw, SCALE);
    assert_eq!(s.z.raw, SCALE);
    let s2 = cube.support(&Frame::identity(), vc(-1.0, 0.0, 0.0));
    assert_eq!(s2.x.raw, 0);
}

#[test]
fn minkowski_support_of_touching_cubes() {
    let cube = Polytope::new_cube();
    let s = cube.minkowski_support(
        &cube,
        (cube_at(0.0, 0.0, 0.0), cube_at(0.0, 0.0, 1.5)),
        vc(0.0, 0.0, 1.0),
    );
    // Top of the first minus bottom of the second: 0.5 - 1.0 = -0.5.
    assert!((fc(s.z) + 0.5).abs() < 1e-6);
}

#[test]
fn gjk_disjoint_cubes_along_z() {
    let cube = Polytope::new_cube();
    let frames = (cube_at(0.0, 0.0, 0.0), cube_at(0.0, 0.0, 1.5));
    assert!(gjk((&cube, &cube), frames).is_none());
}

#[test]
fn gjk_overlapping_cubes_along_z() {
    let cube = Polytope::new_cube();
    let frames = (cube_at(0.0, 0.0, 0.0), cube_at(0.0, 0.0, 0.5));
    assert!(gjk((&cube, &cube), frames).is_some());
}

#[test]
fn epa_depth_and_normal_of_overlapping_cubes() {
    let cube = Polytope::new_cube();
    let frames = (cube_at(0.0, 0.0, 0.0), cube_at(0.0, 0.0, 0.5));
    let witness = gjk((&cube, &cube), frames).unwrap();
    let collision = epa((&cube, &cube), frames, witness);
    assert!((fc(collision.depth) - 0.5).abs() < 1e-3);
    assert!(fc(collision.normal.x).abs() < 1e-3);
    assert!(fc(collision.normal.y).abs() < 1e-3);
    assert!((fc(collision.normal.z).abs() - 1.0).abs() < 1e-3);
}

#[test]
fn sat_disjoint_cubes_along_x() {
    let cube = Polytope::new_cube();
    let frames = (cube_at(0.0, 0.0, 0.0), cube_at(3.0, 0.0, 0.0));
    assert!(sat(frames, (&cube, &cube)));
    let (separation, _face) = face_axes_separation(frames, (&cube, &cube));
    // The gap between the facing faces is 3 - 1 = 2.
    assert!(fc(separation) >= 2.0 - 1e-6);
}

#[test]
fn sat_touching_cubes_along_x() {
    let cube = Polytope::new_cube();
    let frames = (cube_at(0.0, 0.0, 0.0), cube_at(1.0, 0.0, 0.0));
    let (separation, _face) = face_axes_separation(frames, (&cube, &cube));
    assert!(fc(separation).abs() < 1e-6);
    assert!(sat(frames, (&cube, &cube)));
}

#[test]
fn sat_overlapping_cubes_report_overlap() {
    let cube = Polytope::new_cube();
    let frames = (cube_at(0.0, 0.0, 0.0), cube_at(0.5, 0.0, 0.0));
    assert!(!sat(frames, (&cube, &cube)));
}

#[test]
fn edge_axes_find_the_gap() {
    let cube = Polytope::new_cube();
    let frames = (cube_at(0.0, 0.0, 0.0), cube_at(3.0, 0.0, 0.0));
    let (separation, _pair) = edge_axes_separation(frames, (&cube, &cube));
    assert!((fc(separation) - 2.0).abs() < 1e-5);
}

#[test]
fn clip_square_against_half_space() {
    let polygon = vec![
        vc(0.0, 0.0, 0.0),
        vc(1.0, 0.0, 0.0),
        vc(1.0, 1.0, 0.0),
        vc(0.0, 1.0, 0.0),
    ];
    let plane = rigid_kernel::geometry::Plane {
        normal: vc(1.0, 0.0, 0.0),
        displacement: fxc(0.5),
    };
    let clipped = clip(polygon, plane);
    assert_eq!(clipped.len(), 4);
    assert!((fc(clipped[0].x) - 0.0).abs() < 1e-6 && fc(clipped[0].y).abs() < 1e-6);
    assert!((fc(clipped[1].x) - 0.5).abs() < 1e-6 && fc(clipped[1].y).abs() < 1e-6);
    assert!((fc(clipped[2].x) - 0.5).abs() < 1e-6 && (fc(clipped[2].y) - 1.0).abs() < 1e-6);
    assert!((fc(clipped[3].x) - 0.0).abs() < 1e-6 && (fc(clipped[3].y) - 1.0).abs() < 1e-6);
}

#[test]
fn clip_step_reports_contact_polygon() {
    let cube = Polytope::new_cube();
    let apart = clip_step((cube_at(0.0, 0.0, 0.0), cube_at(0.0, 0.0, 1.5)), (&cube, &cube));
    assert!(apart.is_none());
    let touching = clip_step((cube_at(0.0, 0.0, 0.0), cube_at(0.0, 0.0, 0.5)), (&cube, &cube));
    let points = touching.unwrap();
    assert!(points.len() >= 3);
    // Every contact point lies on the overlap boundary region.
    for p in &points {
        assert!(fc(p.z) <= 0.51 && fc(p.z) >= -0.01);
        assert!(fc(p.x).abs() <= 0.51 && fc(p.y).abs() <= 0.51);
    }
}

#[test]
fn edge_contact_finds_closest_points() {
    let cube = Polytope::new_cube();
    // Edge 1 of the first cube runs from (1, 0, 0) to (1, 1, 0); edge 0 of
    // the second, shifted by (2, 0.5, 0), runs from (2, 0.5, 0) to
    // (3, 0.5, 0). Their closest points are (1, 0.5, 0) and (2, 0.5, 0).
    let identity = Frame::identity();
    let shifted = Frame::new(vc(2.0, 0.5, 0.0), Quat::identity());
    let pair = edge_contact((identity, shifted), (&cube, &cube), 1, 0);
    assert_eq!(pair.len(), 2);
    assert!((fc(pair[0].x) - 1.0).abs() < 1e-6 && (fc(pair[0].y) - 0.5).abs() < 1e-6);
    assert!((fc(pair[1].x) - 2.0).abs() < 1e-6 && (fc(pair[1].y) - 0.5).abs() < 1e-6);
}

#[test]
fn expanding_polytope_seeds_and_grows() {
    let tetra = (
        vc(0.0, 0.0, 0.0),
        vc(1.0, 0.0, 0.0),
        vc(0.0, 1.0, 0.0),
        vc(0.0, 0.0, 1.0),
    );
    let mut ep = ExpandingPolytope::new(tetra);
    assert_eq!(ep.vertices.len(), 4);
    assert_eq!(ep.faces.len(), 4);
    let f = ep.minimal_face();
    assert!(f < ep.faces.len());
    // A point far out along one axis is seen by at least one face; the
    // boundary edges fan to the new vertex, keeping a closed count.
    ep.expand(vc(2.0, 0.1, 0.1));
    assert_eq!(ep.vertices.len(), 5);
    assert!(ep.faces.len() >= 4);
}

#[test]
fn icosahedron_is_well_formed_data() {
    let ico = Polytope::new_icosahedron();
    assert_eq!(ico.vertices.len(), 12);
    assert_eq!(ico.edges.len(), 30);
    assert_eq!(ico.faces.len(), 20);
    assert_eq!(ico.adjacent_faces.len(), 20);
    // Vertices lie on the unit sphere.
    for v in &ico.vertices {
        let m = fc(v.magnitude());
        assert!((m - 1.0).abs() < 1e-6);
    }
}

#[test]
fn triangles_fan_each_face() {
    let cube = Polytope::new_cube();
    let tris = cube.triangles();
    // Six quads, two triangles each.
    assert_eq!(tris.len(), 12);
    // The first face [0, 2, 3, 1] fans from vertex 0.
    assert_eq!(tris[0], (0, 2, 3));
    assert_eq!(tris[1], (0, 3, 1));
    let tetra = Polytope::new_tetrahedron();
    assert_eq!(tetra.triangles().len(), 4);
}

#[test]
fn default_frame_is_identity() {
    let f = Frame::default();
    let p = vc(0.3, -0.7, 0.2);
    let q = f.act(p);
    assert_eq!(q.x.raw, p.x.raw);
    assert_eq!(q.y.raw, p.y.raw);
    assert_eq!(q.z.raw, p.z.raw);
}

#[test]
fn tetrahedron_planes_face_outward() {
    let tetra = Polytope::new_tetrahedron();
    let planes = tetra.planes();
    assert_eq!(planes.len(), 4);
    for pl in &planes {
        // The centroid sits strictly behind every face plane.
        let d = pl.distance(tetra.centroid);
        assert!(fc(d) < 0.0);
    }
}
