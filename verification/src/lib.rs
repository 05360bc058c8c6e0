//! Posture-monitoring core: keypoint extraction, posture state machine,
//! overlay fade animation, and the per-tick orchestration that ties them
//! together, plus the debug-view canvas drawing.
//!
//! Positions and model scores are fixed-point integers: the surrounding
//! application converts the model's normalized floating-point outputs into
//! `POSITION_SCALE` units before they reach this crate, so that every rule
//! here is exact integer arithmetic.

pub mod canvas;
pub mod config;
pub mod frame_loop;
pub mod keypoint;
pub mod overlay;
pub mod posture;

use vstd::prelude::*;

verus! {

} // verus!
