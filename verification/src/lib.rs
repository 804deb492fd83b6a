//! Verified core of a progressive rose renderer.
//!
//! The renderer sphere-traces a signed-distance model of a flower and paints
//! it a few pixels at a time, inside a per-call time budget, so that the
//! caller is never blocked.  The floating-point geometry (vectors, curves,
//! the distance field, the raymarcher) lives outside the verified core; what
//! is verified here is the discrete machinery that drives it:
//!
//! - [`raster`]: the mapping between the linear pixel cursor and raster
//!   coordinates, and the blur sample grid;
//! - [`scan`]: the resumable scan scheduler, with a proof that one full pass
//!   visits every pixel exactly once before the cursor wraps;
//! - [`controls`]: the pointer interaction state machine for the draggable
//!   control-point handles;
//! - [`search`]: the argmin scan that the closest-point search on a curve is
//!   built around.

pub mod controls;
pub mod raster;
pub mod scan;
pub mod search;
