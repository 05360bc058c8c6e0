//! The posture state machine: baseline capture, deviation scoring and
//! debounce counting.
//!
//! The machine owns a lazily latched baseline position and a counter of
//! consecutive bad ticks.  A tick is instantaneously bad only when a
//! trusted sample sits more than the configured deviation *below* the
//! baseline (a larger vertical position): drifting up, sitting straight,
//! or having no trusted reading at all never counts against the user, and
//! any such tick clears the whole streak at once.

use vstd::prelude::*;
use crate::keypoint::KeypointSample;

verus! {

/// Fixed detection parameters, passed in at construction so tests can run
/// with small values.
#[derive(Clone, Copy, Debug)]
pub struct PostureConfig {
    /// How far below the baseline a sample may sit before the tick is bad,
    /// in the same units as positions.
    pub good_posture_deviation: i64,
    /// The counter must strictly exceed this for the alert to fire.
    pub debounce_frames: u32,
}

/// What one tick of the machine reports to the rest of the application.
#[derive(Clone, Copy, Debug)]
pub struct PostureReport {
    /// Whether the debounced alert is firing this tick.
    pub alert: bool,
    /// This tick's deviation from the baseline, for display; present only
    /// when both a baseline and a trusted sample exist this tick.
    pub delta: Option<i64>,
    /// The baseline in force after this tick, for display.
    pub baseline: Option<i32>,
}

/// The posture state machine proper.
#[derive(Clone, Copy, Debug)]
pub struct PostureStateMachine {
    pub config: PostureConfig,
    /// Vertical reference position, latched from the first trusted sample;
    /// cleared only by an explicit reset.
    pub baseline: Option<i32>,
    /// How many consecutive ticks have been instantaneously bad.
    pub counter: u32,
}

/// The baseline after a tick: latched from the sample when none was set,
/// untouched otherwise.
pub open spec fn spec_latch(baseline: Option<i32>, sample: Option<KeypointSample>) -> Option<
    i32,
> {
    match (baseline, sample) {
        (Option::None, Option::Some(s)) => Some(s.vertical_position),
        _ => baseline,
    }
}

/// Whether a tick is instantaneously bad: a trusted sample more than the
/// configured deviation below an already-set baseline.  The tick that
/// latches the baseline compares the sample against itself and so is never
/// bad, and an absent sample is never bad.
pub open spec fn spec_is_bad(
    config: PostureConfig,
    baseline: Option<i32>,
    sample: Option<KeypointSample>,
) -> bool {
    match (baseline, sample) {
        (Option::Some(b), Option::Some(s)) => s.vertical_position - b
            > config.good_posture_deviation,
        _ => false,
    }
}

/// The counter after a tick: one more on a bad tick (held at the type's
/// ceiling, which a real run never reaches), zero on any other.
pub open spec fn spec_next_counter(
    config: PostureConfig,
    counter: u32,
    baseline: Option<i32>,
    sample: Option<KeypointSample>,
) -> u32 {
    if spec_is_bad(config, baseline, sample) {
        if counter < u32::MAX {
            (counter + 1) as u32
        } else {
            counter
        }
    } else {
        0
    }
}

/// The whole machine state after one tick.
pub open spec fn spec_step(
    m: PostureStateMachine,
    sample: Option<KeypointSample>,
) -> PostureStateMachine {
    (PostureStateMachine {
        config: m.config,
        baseline: spec_latch(m.baseline, sample),
        counter: spec_next_counter(m.config, m.counter, m.baseline, sample),
    })
}

/// The report a tick emits, as a function of the state after the tick and
/// the tick's sample.
pub open spec fn spec_report(
    m: PostureStateMachine,
    sample: Option<KeypointSample>,
) -> PostureReport {
    (PostureReport {
        alert: m.counter > m.config.debounce_frames,
        delta: match (m.baseline, sample) {
            (Option::Some(b), Option::Some(s)) => Some((s.vertical_position - b) as i64),
            _ => None,
        },
        baseline: m.baseline,
    })
}

impl PostureStateMachine {
    /// A fresh machine: no baseline, no streak.
    pub fn new(config: PostureConfig) -> (m: PostureStateMachine)
        ensures
            m.config == config,
            m.baseline is None,
            m.counter == 0,
    {
        PostureStateMachine { config, baseline: None, counter: 0 }
    }

    /// One tick: latches the baseline on the first trusted sample,
    /// classifies the tick, steps the debounce counter, and reports the
    /// debounced alert together with the display-only deviation.
    pub fn update(&mut self, sample: Option<KeypointSample>) -> (r: PostureReport)
        ensures
            *final(self) == spec_step(*old(self), sample),
            r == spec_report(*final(self), sample),
    {
        let mut is_bad = false;
        if let Some(s) = sample {
            if self.baseline.is_none() {
                self.baseline = Some(s.vertical_position);
            } else if let Some(b) = self.baseline {
                let delta: i64 = s.vertical_position as i64 - b as i64;
                if delta > self.config.good_posture_deviation {
                    is_bad = true;
                }
            }
        }
        if is_bad {
            if self.counter < u32::MAX {
                self.counter = self.counter + 1;
            }
        } else {
            self.counter = 0;
        }
        let delta: Option<i64> = match (self.baseline, sample) {
            (Some(b), Some(s)) => Some(s.vertical_position as i64 - b as i64),
            _ => None,
        };
        PostureReport {
            alert: self.counter > self.config.debounce_frames,
            delta,
            baseline: self.baseline,
        }
    }

    /// Clears the baseline and the streak; the next trusted sample latches
    /// a fresh baseline.  Total: callable in any state.
    pub fn reset(&mut self)
        ensures
            final(self).config == old(self).config,
            final(self).baseline is None,
            final(self).counter == 0,
    {
        self.baseline = None;
        self.counter = 0;
    }
}

/// The machine after a whole run of ticks, earliest sample first.
pub open spec fn spec_run(
    m: PostureStateMachine,
    samples: Seq<Option<KeypointSample>>,
) -> PostureStateMachine
    decreases samples.len(),
{
    if samples.len() == 0 {
        m
    } else {
        spec_step(spec_run(m, samples.drop_last()), samples.last())
    }
}

/// A run never touches the configuration.
pub proof fn lemma_run_config(m: PostureStateMachine, samples: Seq<Option<KeypointSample>>)
    ensures
        spec_run(m, samples).config == m.config,
    decreases samples.len(),
{
    if samples.len() > 0 {
        lemma_run_config(m, samples.drop_last());
    }
}

/// Law: while every tick of a run is classified instantaneously good, the
/// debounce counter stays at zero after every prefix, so the alert (the
/// counter strictly exceeding the debounce bound) can never fire.
pub proof fn lemma_good_run_never_alerts(
    m: PostureStateMachine,
    samples: Seq<Option<KeypointSample>>,
)
    requires
        m.counter == 0,
        forall|i: int|
            0 <= i < samples.len() ==> !spec_is_bad(
                m.config,
                spec_run(m, #[trigger] samples.take(i)).baseline,
                samples[i],
            ),
    ensures
        forall|i: int| 0 <= i <= samples.len() ==> spec_run(m, #[trigger] samples.take(i)).counter == 0,
        spec_run(m, samples).counter == 0,
    decreases samples.len(),
{
    if samples.len() == 0 {
        assert forall|i: int| 0 <= i <= samples.len() implies spec_run(
            m,
            #[trigger] samples.take(i),
        ).counter == 0 by {
            assert(samples.take(i) =~= samples);
        }
    } else {
        let prefix = samples.drop_last();
        assert forall|i: int|
            0 <= i < prefix.len() implies !spec_is_bad(
            m.config,
            spec_run(m, #[trigger] prefix.take(i)).baseline,
            prefix[i],
        ) by {
            assert(prefix.take(i) =~= samples.take(i));
        }
        lemma_good_run_never_alerts(m, prefix);
        lemma_run_config(m, prefix);
        assert(samples.take(samples.len() - 1) =~= prefix);
        assert(samples.take(samples.len() as int) =~= samples);
        assert forall|i: int| 0 <= i <= samples.len() implies spec_run(
            m,
            #[trigger] samples.take(i),
        ).counter == 0 by {
            if i < samples.len() {
                assert(samples.take(i) =~= prefix.take(i));
            } else {
                assert(samples.take(i) =~= samples);
            }
        }
    }
}

/// Law: with a baseline in force, a run of ticks that are all
/// instantaneously bad leaves the baseline alone and drives the counter up
/// by exactly one per tick, so the alert fires from the first prefix whose
/// length pushes the counter past the debounce bound and stays on for the
/// rest of the run.  (A counter already near the top of `u32` would
/// saturate instead, hence the bound on the run's length.)
pub proof fn lemma_bad_run_raises_alert(
    m: PostureStateMachine,
    samples: Seq<Option<KeypointSample>>,
)
    requires
        m.baseline is Some,
        m.counter + samples.len() <= u32::MAX,
        forall|i: int|
            0 <= i < samples.len() ==> spec_is_bad(m.config, m.baseline, #[trigger] samples[i]),
    ensures
        forall|i: int|
            0 <= i <= samples.len() ==> spec_run(m, #[trigger] samples.take(i)).baseline
                == m.baseline,
        forall|i: int|
            0 <= i <= samples.len() ==> spec_run(m, #[trigger] samples.take(i)).counter
                == m.counter + i,
        forall|i: int|
            0 <= i <= samples.len() ==> ((spec_run(m, #[trigger] samples.take(i)).counter
                > m.config.debounce_frames) <==> m.counter + i > m.config.debounce_frames),
    decreases samples.len(),
{
    if samples.len() == 0 {
        assert forall|i: int| 0 <= i <= samples.len() implies spec_run(
            m,
            #[trigger] samples.take(i),
        ) == m by {
            assert(samples.take(i) =~= samples);
        }
    } else {
        let prefix = samples.drop_last();
        lemma_bad_run_raises_alert(m, prefix);
        assert(samples.take(samples.len() - 1) =~= prefix);
        assert forall|i: int|
            0 <= i <= samples.len() implies spec_run(m, #[trigger] samples.take(i)).baseline
            == m.baseline && spec_run(m, #[trigger] samples.take(i)).counter == m.counter
            + i by {
            if i < samples.len() {
                assert(samples.take(i) =~= prefix.take(i));
            } else {
                assert(samples.take(i) =~= samples);
                lemma_run_config(m, prefix);
            }
        }
    }
}

/// Law: a single tick classified good or absent resets the counter to
/// zero and reports no alert, whatever streak came before it.
pub proof fn lemma_single_good_tick_resets(
    m: PostureStateMachine,
    sample: Option<KeypointSample>,
)
    requires
        !spec_is_bad(m.config, m.baseline, sample),
    ensures
        spec_step(m, sample).counter == 0,
        !spec_report(spec_step(m, sample), sample).alert,
{
}

/// Law: once set, the baseline survives any run of ticks unchanged, however
/// the samples vary; only an explicit reset clears it.
pub proof fn lemma_baseline_stable(m: PostureStateMachine, samples: Seq<Option<KeypointSample>>)
    requires
        m.baseline is Some,
    ensures
        spec_run(m, samples).baseline == m.baseline,
    decreases samples.len(),
{
    if samples.len() > 0 {
        lemma_baseline_stable(m, samples.drop_last());
    }
}

/// Law: a run whose ticks all lack a trusted sample leaves the baseline
/// exactly as it was — in particular unset forever when it started unset —
/// and any such tick leaves the counter at zero.
pub proof fn lemma_absent_run(m: PostureStateMachine, samples: Seq<Option<KeypointSample>>)
    requires
        forall|i: int| 0 <= i < samples.len() ==> #[trigger] samples[i] is None,
    ensures
        spec_run(m, samples).baseline == m.baseline,
        samples.len() > 0 ==> spec_run(m, samples).counter == 0,
    decreases samples.len(),
{
    if samples.len() > 0 {
        lemma_absent_run(m, samples.drop_last());
    }
}

/// Law: the baseline latches to the first trusted sample of a run — absent
/// ticks before it leave it unset, and no later sample can move it.
pub proof fn lemma_baseline_latches_on_first_trusted(
    m: PostureStateMachine,
    samples: Seq<Option<KeypointSample>>,
    k: int,
)
    requires
        m.baseline is None,
        0 <= k < samples.len(),
        forall|i: int| 0 <= i < k ==> #[trigger] samples[i] is None,
        samples[k] is Some,
    ensures
        samples[k] matches Some(s) ==> spec_run(m, samples).baseline == Some(
            s.vertical_position,
        ),
    decreases samples.len(),
{
    if samples.len() - 1 == k {
        let prefix = samples.drop_last();
        lemma_absent_run(m, prefix);
    } else {
        let prefix = samples.drop_last();
        lemma_baseline_latches_on_first_trusted(m, prefix, k);
    }
}

} // verus!
