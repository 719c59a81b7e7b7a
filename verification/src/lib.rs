//! Image requests, canvases and transforms with machine-checked contracts.
//!
//! The crate resolves a command line that has already been split into flags
//! into one directive, paints solid and fractal canvases, and runs the fixed
//! transform sequence over images of the `image` crate.

pub mod canvas;
pub mod fractal;
pub mod numeral;
pub mod picture;
pub mod request;
pub mod resolver;
pub mod transform;
