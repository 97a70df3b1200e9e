//! Bidirectional path tracing core.
//!
//! The crate models one pixel sample's light transport: a camera subpath and a
//! light subpath are grown by a shared random walk, and prefixes of the two are
//! connected into complete transport strategies. Radiometric quantities are
//! carried as exact fixed-point scalars so that every density conversion and
//! throughput update has a precise, provable meaning.

pub mod bdpt;
pub mod fixed;
pub mod geom;
pub mod interfaces;
pub mod sampling;
pub mod simple;
pub mod spectrum;
pub mod vertex;
