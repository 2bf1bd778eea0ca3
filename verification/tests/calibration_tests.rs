use frameanchor::calibration::{calibration_buffer, calibration_tier, Calibration, CalibrationStep, TierOutcome};
use frameanchor::model::FpsCapPolicy;

fn capture_step(c: &mut Calibration) -> (u32, u32) {
    match c.next(false) {
        CalibrationStep::Capture { tier, buffer } => (tier, buffer),
        CalibrationStep::Done => panic!("calibration ended early"),
    }
}

#[test]
fn fixed_policy_keeps_cap_and_default_buffer() {
    let mut c = Calibration::start(FpsCapPolicy::Fixed, 144);
    assert_eq!(c.next(false), CalibrationStep::Done);
    assert_eq!(c.outcome, Some(Ok((144, 8192))));
}

#[test]
fn tiers_and_buffers_follow_the_schedule() {
    assert_eq!((0..5).map(calibration_tier).collect::<Vec<_>>(), vec![240, 500, 1000, 2000, 4000]);
    assert_eq!(calibration_buffer(240), 8192);
    assert_eq!(calibration_buffer(2000), 16384);
    assert_eq!(calibration_buffer(4000), 32768);
    let mut c = Calibration::start(FpsCapPolicy::Adaptive, 0);
    assert_eq!(capture_step(&mut c), (240, 8192));
}

#[test]
fn overflow_selects_previous_clean_tier() {
    let mut c = Calibration::start(FpsCapPolicy::Adaptive, 0);
    capture_step(&mut c);
    c.record(TierOutcome::Clean { gain_below_min: true });
    assert_eq!(capture_step(&mut c), (500, 8192));
    c.record(TierOutcome::Clean { gain_below_min: false });
    assert_eq!(capture_step(&mut c), (1000, 8192));
    c.record(TierOutcome::Overflow);
    assert_eq!(c.next(false), CalibrationStep::Done);
    assert_eq!(c.outcome, Some(Ok((500, 8192))));
}

#[test]
fn overflow_on_first_tier_is_an_error() {
    let mut c = Calibration::start(FpsCapPolicy::Adaptive, 0);
    capture_step(&mut c);
    c.record(TierOutcome::Overflow);
    assert_eq!(c.outcome, Some(Err("BENCHMARK_CAPTURE_OVERFLOW".to_string())));
}

#[test]
fn small_gain_selects_the_new_tier() {
    let mut c = Calibration::start(FpsCapPolicy::Adaptive, 0);
    capture_step(&mut c);
    c.record(TierOutcome::Clean { gain_below_min: false });
    capture_step(&mut c);
    c.record(TierOutcome::Clean { gain_below_min: true });
    assert_eq!(c.outcome, Some(Ok((500, 8192))));
}

#[test]
fn last_clean_tier_is_selected() {
    let mut c = Calibration::start(FpsCapPolicy::Adaptive, 0);
    for _ in 0..5 {
        capture_step(&mut c);
        c.record(TierOutcome::Clean { gain_below_min: false });
    }
    assert_eq!(c.outcome, Some(Ok((4000, 32768))));
}

#[test]
fn cancellation_and_failures_end_calibration() {
    let mut c = Calibration::start(FpsCapPolicy::Adaptive, 0);
    assert_eq!(c.next(true), CalibrationStep::Done);
    assert_eq!(c.outcome, Some(Err("cancelled".to_string())));
    let mut c = Calibration::start(FpsCapPolicy::Adaptive, 0);
    capture_step(&mut c);
    c.record(TierOutcome::Failed("BENCHMARK_WORKLOAD_FAILED".into()));
    assert_eq!(c.outcome, Some(Err("BENCHMARK_WORKLOAD_FAILED".to_string())));
}
