//! Target-seeking opacity animation for the punishment overlay.
//!
//! The animator owns a current opacity and a target opacity.  Each tick it
//! moves the current value toward the target by at most `fade_speed`,
//! clamped so it never overshoots, and tells the surface when to show
//! itself (just before the first visible frame of a fade-in) and when it
//! may hide (whenever it is fully transparent and at rest).

use vstd::prelude::*;

verus! {

/// Fixed animation parameters, passed in at construction so tests can run
/// with small values.
#[derive(Clone, Copy, Debug)]
pub struct OverlayConfig {
    /// Opacity of a fully faded-in overlay.
    pub max_alpha: u32,
    /// How far `current` moves toward `target` per tick.
    pub fade_speed: u32,
}

impl OverlayConfig {
    /// A configuration is usable when a tick makes progress at all.
    pub open spec fn well_formed(self) -> bool {
        self.fade_speed >= 1
    }
}

/// Instruction to the render surface that accompanies a new opacity.
#[derive(Clone, Copy, Debug, PartialEq, Eq, Structural)]
pub enum SurfaceSignal {
    /// The surface must become visible before a nonzero opacity is painted.
    Show,
    /// The surface is fully transparent and at rest; compositing it can stop.
    Hide,
}

/// What one animation tick hands to the render surface.
#[derive(Clone, Copy, Debug)]
pub struct OverlayFrame {
    /// The opacity to paint this tick.
    pub opacity: u32,
    /// Show/hide instruction, when one applies this tick.
    pub signal: Option<SurfaceSignal>,
}

/// The overlay opacity state machine.
#[derive(Clone, Copy, Debug)]
pub struct OverlayAnimator {
    pub config: OverlayConfig,
    /// Opacity painted most recently; always within `[0, max_alpha]`.
    pub current: u32,
    /// Opacity being faded toward; always `0` or `max_alpha`.
    pub target: u32,
}

/// The opacity one tick produces: one `fade_speed` step from `current`
/// toward `target`, clamped at the target.
pub open spec fn spec_advance_alpha(config: OverlayConfig, current: u32, target: u32) -> u32 {
    if current == target {
        current
    } else if current < target {
        if target - current <= config.fade_speed {
            target
        } else {
            (current + config.fade_speed) as u32
        }
    } else {
        if current - target <= config.fade_speed {
            target
        } else {
            (current - config.fade_speed) as u32
        }
    }
}

/// The surface signal one tick emits, as a function of the state before
/// the step: `Hide` when fully transparent and at rest, `Show` when a
/// fade-in is about to leave zero, nothing otherwise.
pub open spec fn spec_signal(current: u32, target: u32) -> Option<SurfaceSignal> {
    if current == target {
        if current == 0 {
            Some(SurfaceSignal::Hide)
        } else {
            None
        }
    } else if current == 0 {
        Some(SurfaceSignal::Show)
    } else {
        None
    }
}

/// The whole animator state after one tick: only `current` moves.
pub open spec fn spec_advance_state(a: OverlayAnimator) -> OverlayAnimator {
    (OverlayAnimator {
        current: spec_advance_alpha(a.config, a.current, a.target),
        ..a
    })
}

impl OverlayAnimator {
    /// The invariant the constructor establishes and every method keeps.
    pub open spec fn well_formed(self) -> bool {
        &&& self.config.well_formed()
        &&& self.current <= self.config.max_alpha
        &&& (self.target == 0 || self.target == self.config.max_alpha)
    }

    /// A fresh animator: fully transparent and at rest.
    pub fn new(config: OverlayConfig) -> (a: OverlayAnimator)
        requires
            config.well_formed(),
        ensures
            a.well_formed(),
            a.config == config,
            a.current == 0,
            a.target == 0,
    {
        OverlayAnimator { config, current: 0, target: 0 }
    }

    /// Sets the opacity target: fully opaque when the overlay must be
    /// visible, fully transparent otherwise.  No immediate visual effect.
    pub fn set_target(&mut self, visible: bool)
        ensures
            final(self).config == old(self).config,
            final(self).current == old(self).current,
            final(self).target == (if visible {
                old(self).config.max_alpha
            } else {
                0u32
            }),
            old(self).well_formed() ==> final(self).well_formed(),
    {
        self.target = if visible { self.config.max_alpha } else { 0 };
    }

    /// One animation tick: emits the surface signal for the state it found,
    /// then steps `current` toward `target` by at most `fade_speed`,
    /// clamped at the target.  When `current` already equals `target` the
    /// opacity is left untouched.
    pub fn advance(&mut self) -> (frame: OverlayFrame)
        ensures
            final(self).config == old(self).config,
            final(self).target == old(self).target,
            final(self).current == spec_advance_alpha(
                old(self).config,
                old(self).current,
                old(self).target,
            ),
            frame.opacity == final(self).current,
            frame.signal == spec_signal(old(self).current, old(self).target),
            old(self).well_formed() ==> final(self).well_formed(),
            old(self).current == old(self).target ==> final(self).current == old(self).current,
    {
        let mut signal: Option<SurfaceSignal> = None;
        if self.current == self.target {
            if self.current == 0 {
                signal = Some(SurfaceSignal::Hide);
            }
            return OverlayFrame { opacity: self.current, signal };
        }
        if self.current == 0 {
            // target differs from current, so it is nonzero: a fade-in begins.
            signal = Some(SurfaceSignal::Show);
        }
        if self.current < self.target {
            if self.target - self.current <= self.config.fade_speed {
                self.current = self.target;
            } else {
                self.current = self.current + self.config.fade_speed;
            }
        } else {
            if self.current - self.target <= self.config.fade_speed {
                self.current = self.target;
            } else {
                self.current = self.current - self.config.fade_speed;
            }
        }
        OverlayFrame { opacity: self.current, signal }
    }
}

/// The animator after `n` ticks with no retargeting in between.
pub open spec fn spec_run_advance(a: OverlayAnimator, n: nat) -> OverlayAnimator
    decreases n,
{
    if n == 0 {
        a
    } else {
        spec_advance_state(spec_run_advance(a, (n - 1) as nat))
    }
}

/// How far the current opacity still is from its target.
pub open spec fn spec_alpha_distance(a: OverlayAnimator) -> int {
    if a.current >= a.target {
        a.current - a.target
    } else {
        a.target - a.current
    }
}

/// Law: advancing an animator that already sits on its target changes
/// nothing at all.
pub proof fn lemma_advance_idempotent_at_target(a: OverlayAnimator)
    requires
        a.current == a.target,
    ensures
        spec_advance_state(a) == a,
{
}

/// One tick shrinks the distance to the target by exactly `fade_speed`,
/// stopping at zero, and keeps the animator well formed.
pub proof fn lemma_advance_step_distance(a: OverlayAnimator)
    ensures
        spec_advance_state(a).config == a.config,
        spec_advance_state(a).target == a.target,
        spec_alpha_distance(spec_advance_state(a)) == (if spec_alpha_distance(a)
            <= a.config.fade_speed {
            0int
        } else {
            spec_alpha_distance(a) - a.config.fade_speed
        }),
        a.well_formed() ==> spec_advance_state(a).well_formed(),
{
}

/// Law: the opacity converges to its target at exactly `fade_speed` per
/// tick and never leaves `[0, max_alpha]`: after `n` ticks the remaining
/// distance is `max(d - n * fade_speed, 0)` for the starting distance `d`,
/// so the target is reached at tick `n` precisely when `n * fade_speed`
/// covers `d` — that is, first at `ceil(d / fade_speed)`.
pub proof fn lemma_advance_distance(a: OverlayAnimator, n: nat)
    requires
        a.well_formed(),
    ensures
        spec_run_advance(a, n).config == a.config,
        spec_run_advance(a, n).target == a.target,
        spec_run_advance(a, n).well_formed(),
        spec_alpha_distance(spec_run_advance(a, n)) == (if n * a.config.fade_speed
            <= spec_alpha_distance(a) {
            spec_alpha_distance(a) - n * a.config.fade_speed
        } else {
            0int
        }),
        (spec_run_advance(a, n).current == a.target) <==> (n * a.config.fade_speed
            >= spec_alpha_distance(a)),
    decreases n,
{
    if n > 0 {
        lemma_advance_distance(a, (n - 1) as nat);
        lemma_advance_step_distance(spec_run_advance(a, (n - 1) as nat));
        assert(n * a.config.fade_speed == (n - 1) * a.config.fade_speed
            + a.config.fade_speed) by (nonlinear_arith);
    }
}

} // verus!
