//! A verified Monte Carlo path tracer.
//!
//! The renderer works over a fixed-point scalar type ([`fx::Fx`]) so that
//! every arithmetic step has an exact, machine-checkable meaning.  The
//! library covers the vector algebra, colours and tone mapping, the
//! deterministic pseudo-random generator, the material scattering
//! functions, the primitive shapes with their ray intersections, the
//! recursive path-tracing integrator and the per-pixel sampling loop.
//! Writing the finished pixel grid to an image file is left to callers.

pub mod fx;
pub mod vector;
pub mod colour;
pub mod material;
pub mod texture;
pub mod primitive;
pub mod render;
