//! Core data model and bookkeeping for a Monte Carlo path tracer.
//!
//! The crate holds the discrete heart of the renderer: the scene's material
//! and texture descriptions, the Perlin permutation tables, the image byte
//! store backing image textures, the per-row render scheduler with its
//! order-restoring collector, the plain-text image encoding, and the
//! integrator's per-bounce decision rules.  The floating-point numerics that
//! interpret this data (vector algebra, intersection tests, sampling) live in
//! the unverified rendering layer around the crate.

pub mod camera;
pub mod integrator;
pub mod materials;
pub mod pdf;
pub mod perlin;
pub mod ppm;
pub mod rtw_image;
pub mod rtweekend;
pub mod scheduler;
pub mod textures;
pub mod vec_bits;
