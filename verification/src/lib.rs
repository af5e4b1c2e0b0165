//! A rigid-body simulation kernel: convex-polytope collision detection
//! (GJK, EPA, SAT with manifold clipping) and an XPBD-style positional
//! constraint solver driving rigid-body pose integration.
//!
//! All geometry is carried in a saturating fixed-point scalar ([`fx::Fx`]),
//! so every operation has an exact, machine-checked meaning.

pub mod collision;
pub mod constraint;
pub mod frame;
pub mod geometry;
pub mod fx;
pub mod mat3;
pub mod quat;
pub mod rigid;
pub mod shapes;
pub mod solver;
pub mod vec3;
pub mod world;
