//! The decisions of a Monte-Carlo path tracer over spheres.
//!
//! The numbers along a path are single-precision; the library holds each as
//! its bit pattern and leaves the arithmetic to its caller. Given the sums,
//! products and random draws, it decides which root of a sphere's quadratic
//! is the hit, which sphere of a scene is nearest, how each material
//! scatters, and how the bounces along a path end.
pub mod hittable;
pub mod hittable_list;
pub mod integrator;
pub mod material;
pub mod ppm;
pub mod ray;
pub mod scalar;
pub mod sphere;
pub mod util;
pub mod vec3;
