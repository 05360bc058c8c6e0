//! Confidence-gated extraction of the tracked keypoint from the pose
//! model's flat output vector.
//!
//! The model emits, per keypoint index, a `(normalized_y, normalized_x,
//! confidence)` triple; all three are fixed-point integers in
//! `POSITION_SCALE` units of the normalized `[0, 1]` range.  The accessor
//! does the stride arithmetic, bounds check, range check and confidence
//! gate in one place, and scales the vertical position to (sub-)pixel
//! space; every failure mode yields "no trusted sample this tick".

use vstd::prelude::*;

verus! {

/// A trusted reading of the tracked keypoint for one tick.
#[derive(Clone, Copy, Debug, PartialEq, Eq, Structural)]
pub struct KeypointSample {
    /// Vertical position in sub-pixel units: the normalized position times
    /// the display height, both in fixed-point.
    pub vertical_position: i32,
    /// The model's confidence for this keypoint, in fixed-point.
    pub confidence: i32,
}

/// Parameters of the extraction, passed in at construction so tests can
/// run with small values.
#[derive(Clone, Copy, Debug)]
pub struct KeypointConfig {
    /// The integer standing for 1.0 in the model's fixed-point outputs.
    pub scale: i32,
    /// Height of the display, the factor from normalized to pixel space.
    pub display_height: i32,
    /// A sample is trusted only when its confidence strictly exceeds this.
    pub confidence_threshold: i32,
    /// Index of the tracked keypoint in the output vector.
    pub keypoint_index: usize,
}

impl KeypointConfig {
    /// Positive scale and height whose product fits the position type, and
    /// an index whose stride arithmetic cannot wrap.
    pub open spec fn well_formed(self) -> bool {
        &&& 1 <= self.scale
        &&& 1 <= self.display_height
        &&& self.scale * self.display_height <= i32::MAX
        &&& self.keypoint_index <= (usize::MAX - 2) / 3
    }
}

/// What the extraction returns: the tracked keypoint's triple scaled to
/// pixel space, provided the vector is long enough, the confidence clears
/// the threshold, and the normalized position lies in `[0, 1]`; otherwise
/// no trusted sample.
pub open spec fn spec_keypoint_at(data: Seq<i32>, config: KeypointConfig) -> Option<
    KeypointSample,
> {
    let base = config.keypoint_index * 3;
    if data.len() > base + 2 {
        let raw_y = data[base as int];
        let score = data[base + 2];
        if score > config.confidence_threshold && 0 <= raw_y <= config.scale {
            Some(
                KeypointSample {
                    vertical_position: (raw_y * config.display_height) as i32,
                    confidence: score,
                },
            )
        } else {
            None
        }
    } else {
        None
    }
}

/// Reads the tracked keypoint out of one tick's model output.
///
/// A vector too short to hold the keypoint's triple, a confidence at or
/// below the threshold, and a normalized position outside `[0, 1]` (a
/// malformed output) all yield `None`: the tick then counts as having no
/// trusted reading.
pub fn keypoint_at(data: &Vec<i32>, config: &KeypointConfig) -> (r: Option<KeypointSample>)
    requires
        config.well_formed(),
    ensures
        r == spec_keypoint_at(data@, *config),
{
    let base = config.keypoint_index * 3;
    if data.len() > base + 2 {
        let raw_y = data[base];
        let score = data[base + 2];
        if score > config.confidence_threshold && 0 <= raw_y && raw_y <= config.scale {
            assert(0 <= raw_y * config.display_height <= config.scale
                * config.display_height) by (nonlinear_arith)
                requires
                    0 <= raw_y <= config.scale,
                    1 <= config.display_height,
            ;
            Some(
                KeypointSample {
                    vertical_position: raw_y * config.display_height,
                    confidence: score,
                },
            )
        } else {
            None
        }
    } else {
        None
    }
}

} // verus!
