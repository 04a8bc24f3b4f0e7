//! The control core of a Monte Carlo path tracer.
//!
//! A path tracer renders a picture by following light backwards from the eye
//! through a scene of spheres. Most of that work is arithmetic on vectors of
//! doubles, and it is the caller's. This crate holds the rest, with proofs:
//! every decision the renderer takes on what the arithmetic found, and the
//! bookkeeping around it.
//!
//! - [`sphere`]: which root of the intersection quadratic is the hit.
//! - [`hittable_list`]: the scene, and the closest of the hits its surfaces
//!   report.
//! - [`material`]: what a diffuse, a metal and a dielectric surface do with a
//!   ray.
//! - [`integrator`]: how a path goes on after a bounce, and that it ends.
//! - [`sampling`]: rejection sampling within a budget of attempts.
//! - [`frame`]: the pixel grid, every pixel in a place of its own.
//! - [`ppm`]: the text of a picture.

pub mod frame;
pub mod hittable_list;
pub mod integrator;
pub mod material;
pub mod ppm;
pub mod sampling;
pub mod sphere;
