//! Fixed configuration values of the application.
//!
//! The model's normalized outputs (positions and confidences in `[0, 1]`)
//! are carried as fixed-point integers in `POSITION_SCALE` units; a pixel
//! position derived from them is therefore also a multiple of one
//! `POSITION_SCALE`-th of a pixel, and the deviation threshold below is
//! stated in those same sub-pixel units.

use vstd::prelude::*;

verus! {

/// Side length of the square tensor the pose model consumes.
pub const MOVENET_SIZE: u32 = 256;

/// Width of the debug window, in pixels.
pub const WIDTH: usize = 640;

/// Height of the debug window, in pixels; also the factor that maps a
/// normalized vertical position to pixel space.
pub const HEIGHT: usize = 480;

/// Rotation correction applied to camera frames before the core sees them.
pub const CAMERA_ROTATION_DEGREES: u32 = 180;

/// The integer that stands for 1.0 in the fixed-point encoding of the
/// model's normalized outputs.
pub const POSITION_SCALE: i32 = 1000;

/// A keypoint is trusted only when its score strictly exceeds this value
/// (0.3 in `POSITION_SCALE` units).
pub const CONFIDENCE_THRESHOLD: i32 = 300;

/// How far below the baseline (10 pixels, in `POSITION_SCALE` sub-pixel
/// units) the tracked keypoint may drift before a tick counts as bad.
pub const GOOD_POSTURE_DEVIATION: i64 = 10_000;

/// How many consecutive bad ticks the counter must strictly exceed before
/// the alert fires.
pub const DEBOUNCE_FRAMES: u32 = 15;

/// Fully-visible overlay opacity (out of 255).
pub const MAX_ALPHA: u32 = 180;

/// How far the overlay opacity moves toward its target each tick.
pub const FADE_SPEED: u32 = 15;

/// Index of the tracked keypoint (an eye) in the model's output vector.
pub const EYE_KEYPOINT_INDEX: usize = 2;

} // verus!
