//! A signed-distance-field path tracer over fixed-point arithmetic.
//!
//! Scenes are immutable trees of distance-field nodes, optionally tagged with
//! materials; a sphere tracer finds ray/surface intersections and a bounded
//! Monte Carlo path integrator estimates per-pixel radiance. All scalar
//! quantities are fixed-point numbers (see [`fx`]), so every stage of the
//! pipeline carries an exact functional contract.

pub mod camera;
pub mod fx;
pub mod laws;
pub mod renderer;
pub mod rng;
pub mod sampling;
pub mod sdf;
pub mod vec3;
