//! Escape-time computation engine for the Mandelbrot set.
//!
//! Given a rectangular region of the complex plane and a raster resolution,
//! the engine produces, per pixel, a smoothed escape-iteration value suitable
//! for color mapping. Doubles are carried as `u64` bit patterns throughout
//! (see `double`); the one piece that cannot be expressed over the trusted
//! arithmetic names, the logarithmic smoothing term, is taken as an argument,
//! so a caller computes it from the escaped magnitude and hands it back.

use vstd::prelude::*;

pub mod controls;
pub mod double;
pub mod escape;
pub mod palette;
pub mod render;
pub mod sample;
pub mod viewport;

verus! {

/// Iteration budget shared by every sample of a frame.
pub const MAX_ITER: u32 = 200;

/// Escape-radius-squared threshold: an orbit whose squared magnitude exceeds
/// the double `4.0` (the value of `of_u32_bits(DIVERGE_THRESH_SQ_INT)`) has
/// diverged.
pub const DIVERGE_THRESH_SQ_INT: u32 = 4;

/// Raster width of the deployed canvas; the engine itself takes the raster
/// dimensions as configuration.
pub const CANVAS_WIDTH: u32 = 1280;

/// Raster height of the deployed canvas.
pub const CANVAS_HEIGHT: u32 = 720;

/// Zoom step: each zoom halves or doubles the viewport span (the double used
/// is `of_u32_bits(ZOOM_FACTOR_INT)`).
pub const ZOOM_FACTOR_INT: u32 = 2;

} // verus!
