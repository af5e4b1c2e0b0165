//! Mass properties, ground contacts, the solver loop and the two-body
//! world.

use rigid_kernel::collision::ground;
use rigid_kernel::constraint::Constraint;
use rigid_kernel::fx::{Fx, SCALE};
use rigid_kernel::geometry::integrate::RigidMetrics;
use rigid_kernel::geometry::Polytope;
use rigid_kernel::mat3::Mat3;
use rigid_kernel::rigid::Rigid;
use rigid_kernel::shapes::{anti_edge, AdjacencyGraph, Triangle};
use rigid_kernel::solver::{solve, step};
use rigid_kernel::vec3::Vec3;
use rigid_kernel::world::World;

fn fxd(v: f64) -> Fx {
    Fx {
        raw: (v * SCALE as f64).round() as i64,
    }
}

fn fd(x: Fx) -> f64 {
    x.raw as f64 / SCALE as f64
}

fn vd(x: f64, y: f64, z: f64) -> Vec3 {
    Vec3::new(fxd(x), fxd(y), fxd(z))
}

#[test]
fn unit_cube_metrics() {
    let cube = Polytope::new_cube();
    let m = cube.rigid_metrics(Fx::one());
    assert!((fd(m.volume) - 1.0).abs() < 1e-5);
    assert!((fd(m.mass) - 1.0).abs() < 1e-5);
    assert!((fd(m.center_of_mass.x) - 0.5).abs() < 1e-5);
    assert!((fd(m.center_of_mass.y) - 0.5).abs() < 1e-5);
    assert!((fd(m.center_of_mass.z) - 0.5).abs() < 1e-5);
    // About the center of mass the inertia tensor is diag(1/6, 1/6, 1/6).
    let sixth = 1.0 / 6.0;
    assert!((fd(m.inertia_tensor.x.x) - sixth).abs() < 1e-4);
    assert!((fd(m.inertia_tensor.y.y) - sixth).abs() < 1e-4);
    assert!((fd(m.inertia_tensor.z.z) - sixth).abs() < 1e-4);
    assert!(fd(m.inertia_tensor.x.y).abs() < 1e-4);
    assert!(fd(m.inertia_tensor.y.z).abs() < 1e-4);
    assert!(fd(m.inertia_tensor.z.x).abs() < 1e-4);
}

#[test]
fn tetrahedron_metrics_volume() {
    let tetra = Polytope::new_tetrahedron();
    let m = tetra.rigid_metrics(Fx::one());
    assert!((fd(m.volume) - 1.0 / 6.0).abs() < 1e-5);
    assert!((fd(m.center_of_mass.x) - 0.25).abs() < 1e-4);
}

#[test]
fn rigid_new_rejects_zero_mass() {
    let degenerate = RigidMetrics {
        mass: Fx::zero(),
        volume: Fx::zero(),
        center_of_mass: Vec3::zero(),
        inertia_tensor: Mat3::zero(),
    };
    assert!(Rigid::new(degenerate).is_none());
}

#[test]
fn rigid_new_rejects_singular_inertia() {
    let flat = RigidMetrics {
        mass: Fx::one(),
        volume: Fx::one(),
        center_of_mass: Vec3::zero(),
        inertia_tensor: Mat3::zero(),
    };
    assert!(Rigid::new(flat).is_none());
}

#[test]
fn rigid_frame_offsets_center_of_mass() {
    let cube = Polytope::new_cube();
    let body = Rigid::new(cube.rigid_metrics(Fx::one())).unwrap();
    let f = body.frame();
    // With the identity rotation the frame reduces to the position.
    assert!(fd(f.position.x).abs() < 1e-6);
    assert!(fd(f.position.y).abs() < 1e-6);
    assert!(fd(f.position.z).abs() < 1e-6);
}

#[test]
fn ground_reports_sunken_vertices() {
    let cube = Polytope::new_cube();
    let mut body = Rigid::new(cube.rigid_metrics(Fx::one())).unwrap();
    body.position = vd(0.0, 0.0, -0.25);
    let past = body.frame();
    let constraints = ground(&body, &past, &cube);
    assert_eq!(constraints.len(), 4);
    for c in &constraints {
        assert!((fd(c.contacts.0.z) + 0.25).abs() < 1e-5);
        assert!(fd(c.contacts.1.z).abs() < 1e-5);
        assert_eq!(c.distance.raw, 0);
    }
}

#[test]
fn ground_is_empty_above_plane() {
    let cube = Polytope::new_cube();
    let mut body = Rigid::new(cube.rigid_metrics(Fx::one())).unwrap();
    body.position = vd(0.0, 0.0, 0.5);
    let past = body.frame();
    assert_eq!(ground(&body, &past, &cube).len(), 0);
}

#[test]
fn solve_pulls_anchor_toward_target() {
    let cube = Polytope::new_cube();
    let mut body = Rigid::new(cube.rigid_metrics(Fx::one())).unwrap();
    body.position = vd(0.0, 0.0, -0.1);
    let c = Constraint {
        rigid: 0,
        contacts: (vd(0.5, 0.5, -0.1), vd(0.5, 0.5, 0.0)),
        distance: Fx::zero(),
    };
    let before = fd(body.position.z);
    let mut constraints = Vec::new();
    constraints.push(c);
    solve(&mut body, constraints, Fx::ratio(1, 60));
    assert!(fd(body.position.z) > before);
    assert!(body.rotation.is_unit());
}

#[test]
fn resting_cube_settles_on_the_ground() {
    let cube = Polytope::new_cube();
    let mut body = Rigid::new(cube.rigid_metrics(Fx::one())).unwrap();
    body.external_force = vd(0.0, 0.0, -0.01);
    let dt = Fx::ratio(1, 60);

    let lowest = |body: &Rigid| -> f64 {
        let frame = body.frame();
        let mut low = f64::MAX;
        for v in &cube.vertices {
            let p = frame.act(*v);
            low = low.min(fd(p.z));
        }
        low
    };

    assert!(lowest(&body).abs() < 1e-9);
    let mut worst_after_settling = 0.0f64;
    for frame_index in 0..90 {
        step(&mut body, &cube, dt, 25);
        let low = lowest(&body);
        if frame_index >= 30 {
            worst_after_settling = worst_after_settling.max(low.abs());
        }
        assert!(body.rotation.is_unit());
    }
    // The lowest vertex converges to the plane and stays there: no energy
    // gain, no sustained bounce.
    assert!(lowest(&body).abs() < 1e-3);
    assert!(worst_after_settling < 1e-2);
}

#[test]
fn world_spawns_two_bodies() {
    let p1 = Polytope::new_cube();
    let p2 = Polytope::new_cube();
    let world = World::new(&p1, &p2).unwrap();
    assert!((fd(world.b.position.x) - 0.4).abs() < 1e-6);
    assert!((fd(world.b.position.y) - 0.4).abs() < 1e-6);
    assert!((fd(world.b.position.z) - 2.0).abs() < 1e-6);
    assert!((fd(world.b.external_force.z) + 0.01).abs() < 1e-6);
    assert!(fd(world.a.position.x).abs() < 1e-9);
}

#[test]
fn world_body_falls_toward_the_other() {
    let p1 = Polytope::new_cube();
    let p2 = Polytope::new_cube();
    let mut world = World::new(&p1, &p2).unwrap();
    let start = fd(world.b.position.z);
    for _ in 0..30 {
        world.integrate(Fx::ratio(1, 60), &p1, &p2);
        assert!(world.b.rotation.is_unit());
    }
    let end = fd(world.b.position.z);
    assert!(end < start);
    assert!(end > -10.0);
}

#[test]
fn triangle_edges_wind_around() {
    let t = Triangle(3, 7, 9);
    assert_eq!(t.edges(), [(3, 7), (7, 9), (9, 3)]);
}

#[test]
fn anti_edge_swaps_endpoints() {
    assert_eq!(anti_edge((2, 5)), (5, 2));
}

#[test]
fn adjacency_graph_connects_both_ways() {
    let mut g = AdjacencyGraph::default();
    for _ in 0..4 {
        g.vertices.push(std::collections::HashSet::new());
    }
    g.connect(0, 2);
    g.connect(2, 3);
    assert!(g.vertices[0].contains(&2));
    assert!(g.vertices[2].contains(&0));
    assert!(g.vertices[2].contains(&3));
    assert!(g.vertices[3].contains(&2));
    assert!(!g.vertices[1].contains(&0));
}
