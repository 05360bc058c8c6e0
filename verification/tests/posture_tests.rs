use posture_ai_oc::keypoint::KeypointSample;
use posture_ai_oc::posture::{PostureConfig, PostureStateMachine};

fn pixel_config() -> PostureConfig {
    PostureConfig { good_posture_deviation: 10, debounce_frames: 15 }
}

fn sample_at(position: i32) -> Option<KeypointSample> {
    Some(KeypointSample { vertical_position: position, confidence: 999 })
}

#[test]
fn baseline_latches_on_first_trusted_sample() {
    let mut m = PostureStateMachine::new(pixel_config());
    assert_eq!(m.baseline, None);
    let r = m.update(sample_at(200));
    assert_eq!(m.baseline, Some(200));
    assert_eq!(r.baseline, Some(200));
    assert_eq!(r.delta, Some(0));
    // Later samples, however far off, never move the baseline.
    m.update(sample_at(500));
    m.update(sample_at(-300));
    m.update(None);
    assert_eq!(m.baseline, Some(200));
}

#[test]
fn scenario_steady_samples_never_alert() {
    // Baseline 200, then deltas [0, 0, 0]: no alert, counter stays 0.
    let mut m = PostureStateMachine::new(pixel_config());
    m.update(sample_at(200));
    for _ in 0..3 {
        let r = m.update(sample_at(200));
        assert!(!r.alert);
        assert_eq!(m.counter, 0);
        assert_eq!(r.delta, Some(0));
    }
}

#[test]
fn scenario_sustained_slouch_alerts_at_sixteenth_sample() {
    // Baseline 200, then 20 samples at 215 (delta 15 > 10): the alert
    // first fires at the 16th consecutive bad sample.
    let mut m = PostureStateMachine::new(pixel_config());
    m.update(sample_at(200));
    for i in 1..=20 {
        let r = m.update(sample_at(215));
        assert_eq!(m.counter, i);
        assert_eq!(r.delta, Some(15));
        if i <= 15 {
            assert!(!r.alert, "no alert yet at bad sample #{i}");
        } else {
            assert!(r.alert, "alert expected at bad sample #{i}");
        }
        if i == 16 {
            assert_eq!(m.counter, 16);
        }
    }
}

#[test]
fn scenario_one_good_sample_clears_alert() {
    // From the sustained-slouch alert state, one sample at 205 (delta 5,
    // not bad) resets the counter and drops the alert.
    let mut m = PostureStateMachine::new(pixel_config());
    m.update(sample_at(200));
    for _ in 0..20 {
        m.update(sample_at(215));
    }
    assert!(m.counter > 15);
    let r = m.update(sample_at(205));
    assert_eq!(m.counter, 0);
    assert!(!r.alert);
    assert_eq!(r.delta, Some(5));
}

#[test]
fn absent_sample_resets_streak() {
    let mut m = PostureStateMachine::new(pixel_config());
    m.update(sample_at(200));
    for _ in 0..10 {
        m.update(sample_at(230));
    }
    assert_eq!(m.counter, 10);
    let r = m.update(None);
    assert_eq!(m.counter, 0);
    assert!(!r.alert);
    assert_eq!(r.delta, None);
    assert_eq!(r.baseline, Some(200));
}

#[test]
fn boundary_delta_equal_to_deviation_is_good() {
    // The trigger is strict: delta == deviation does not count as bad.
    let mut m = PostureStateMachine::new(pixel_config());
    m.update(sample_at(200));
    let r = m.update(sample_at(210));
    assert_eq!(m.counter, 0);
    assert!(!r.alert);
    let r = m.update(sample_at(211));
    assert_eq!(m.counter, 1);
    assert!(!r.alert);
    assert_eq!(r.delta, Some(11));
}

#[test]
fn upward_drift_never_counts_as_bad() {
    // Only slouching down (positive delta) triggers; sitting up does not.
    let mut m = PostureStateMachine::new(pixel_config());
    m.update(sample_at(200));
    for _ in 0..30 {
        let r = m.update(sample_at(100));
        assert_eq!(m.counter, 0);
        assert!(!r.alert);
        assert_eq!(r.delta, Some(-100));
    }
}

#[test]
fn reset_clears_baseline_and_counter() {
    let mut m = PostureStateMachine::new(pixel_config());
    m.update(sample_at(200));
    for _ in 0..20 {
        m.update(sample_at(215));
    }
    m.reset();
    assert_eq!(m.baseline, None);
    assert_eq!(m.counter, 0);
    // The next trusted sample latches a fresh baseline.
    let r = m.update(sample_at(215));
    assert_eq!(m.baseline, Some(215));
    assert_eq!(r.delta, Some(0));
    assert!(!r.alert);
}

#[test]
fn small_debounce_config_alerts_sooner() {
    let mut m = PostureStateMachine::new(PostureConfig {
        good_posture_deviation: 2,
        debounce_frames: 1,
    });
    m.update(sample_at(0));
    let r1 = m.update(sample_at(5));
    assert!(!r1.alert);
    let r2 = m.update(sample_at(5));
    assert!(r2.alert);
}
