//! Per-tick orchestration: one camera frame's worth of decisions.
//!
//! The surrounding application acquires the frame, runs inference and
//! paints the results; this module owns everything in between.  One call
//! of [`tick`] takes the tick's model output (or `None` when acquisition
//! or inference failed this tick — a transient failure is classified as
//! "no trusted sample", never propagated), feeds the posture machine,
//! retargets and advances the overlay animation, and applies a pending
//! reset command.

use vstd::prelude::*;
use crate::keypoint::{keypoint_at, spec_keypoint_at, KeypointConfig};
use crate::overlay::{spec_advance_state, spec_signal, OverlayAnimator, OverlayFrame};
use crate::posture::{spec_report, spec_step, PostureReport, PostureStateMachine};

verus! {

/// What one tick hands back to the application: the posture report for
/// display, and the overlay frame for the render surface.
#[derive(Clone, Copy, Debug)]
pub struct TickOutcome {
    pub report: PostureReport,
    pub frame: OverlayFrame,
}

/// The tick's sample, as a function of the tick's model output.
pub open spec fn spec_tick_sample(
    model_output: Option<&Vec<i32>>,
    kp_config: KeypointConfig,
) -> Option<crate::keypoint::KeypointSample> {
    match model_output {
        Option::Some(data) => spec_keypoint_at(data@, kp_config),
        Option::None => None,
    }
}

/// The overlay animator as it stands right after the tick's report has
/// retargeted it, before its animation step.
pub open spec fn spec_retargeted(
    animator: OverlayAnimator,
    machine: PostureStateMachine,
    sample: Option<crate::keypoint::KeypointSample>,
) -> OverlayAnimator {
    (OverlayAnimator {
        target: if spec_report(spec_step(machine, sample), sample).alert {
            animator.config.max_alpha
        } else {
            0
        },
        ..animator
    })
}

/// One tick of the control loop, in the loop's order: extract the
/// keypoint from the model output (absent output yields an absent
/// sample), update the posture machine, point the overlay at the alert
/// state and advance it one step, and finally apply a pending reset
/// command.  The returned report reflects this tick's classification,
/// taken before the reset.
pub fn tick(
    machine: &mut PostureStateMachine,
    animator: &mut OverlayAnimator,
    model_output: Option<&Vec<i32>>,
    kp_config: &KeypointConfig,
    reset_requested: bool,
) -> (outcome: TickOutcome)
    requires
        kp_config.well_formed(),
    ensures
        ({
            let sample = spec_tick_sample(model_output, *kp_config);
            let stepped = spec_step(*old(machine), sample);
            let retargeted = spec_retargeted(*old(animator), *old(machine), sample);
            &&& outcome.report == spec_report(stepped, sample)
            &&& *final(machine) == (if reset_requested {
                PostureStateMachine {
                    config: old(machine).config,
                    baseline: None,
                    counter: 0,
                }
            } else {
                stepped
            })
            &&& *final(animator) == spec_advance_state(retargeted)
            &&& outcome.frame.opacity == final(animator).current
            &&& outcome.frame.signal == spec_signal(retargeted.current, retargeted.target)
            &&& (old(animator).well_formed() ==> final(animator).well_formed())
        }),
{
    let sample = match model_output {
        Some(data) => keypoint_at(data, kp_config),
        None => None,
    };
    let report = machine.update(sample);
    animator.set_target(report.alert);
    let frame = animator.advance();
    if reset_requested {
        machine.reset();
    }
    TickOutcome { report, frame }
}

} // verus!
