use frameanchor::codes::ErrorCode;
use frameanchor::env::{
    battery_flag_indicates_present, environment_gate, CpuIdleWait, IdleStep, RealEnvironmentProbe,
    ENV_CPU_MAX_WAIT_SECS,
};

/// Drives the CPU-idle wait over scripted usage samples (percent), the way
/// the production loop does: idle means at most 15%.
fn wait_with(samples: &[f64], cancelled: bool) -> Result<(), String> {
    let mut wait = CpuIdleWait::new();
    let mut next = 0usize;
    loop {
        match wait.begin_round(cancelled) {
            IdleStep::Done(r) => return r,
            IdleStep::Sample => {
                let cpu = samples.get(next).copied().unwrap_or(0.0);
                next += 1;
                if let Some(IdleStep::Done(r)) = wait.record(cpu <= 15.0) {
                    return r;
                }
            }
        }
    }
}

#[test]
fn unknown_battery_flag_is_treated_as_present() {
    assert!(battery_flag_indicates_present(255));
    assert!(!battery_flag_indicates_present(0x80));
    assert!(battery_flag_indicates_present(0x01));
}

#[test]
fn battery_flag_bit_seven_means_no_battery() {
    assert!(!battery_flag_indicates_present(0x88));
    assert!(battery_flag_indicates_present(0x08));
    assert!(battery_flag_indicates_present(0));
}

#[test]
fn environment_gate_requires_ac_when_battery_present() {
    assert_eq!(environment_gate(true, false, false).unwrap_err(), ErrorCode::BenchmarkEnvUnstable);
    assert!(environment_gate(true, true, false).is_ok());
    assert!(environment_gate(false, false, false).is_ok());
}

#[test]
fn environment_gate_rejects_battery_saver() {
    assert_eq!(environment_gate(true, true, true).unwrap_err(), ErrorCode::BenchmarkEnvUnstable);
}

#[test]
fn wait_for_cpu_idle_requires_five_consecutive_low_samples() {
    assert!(wait_with(&[5.0; 5], false).is_ok());
    assert!(wait_with(&[50.0, 50.0, 5.0, 5.0, 5.0, 5.0, 5.0], false).is_ok());
}

#[test]
fn wait_for_cpu_idle_fails_closed_on_exhaustion() {
    let samples = vec![100.0; (ENV_CPU_MAX_WAIT_SECS + 1) as usize];
    assert_eq!(wait_with(&samples, false).unwrap_err(), "BENCHMARK_ENV_UNSTABLE");
}

#[test]
fn wait_for_cpu_idle_is_cancellable() {
    assert_eq!(wait_with(&[5.0; 10], true).unwrap_err(), "cancelled");
}

#[test]
fn idle_run_is_reset_by_a_busy_sample_near_the_limit() {
    let mut samples = vec![100.0; 55];
    samples.extend([5.0, 5.0, 5.0, 5.0, 50.0]);
    assert!(wait_with(&samples, false).is_err());
    let mut samples = vec![100.0; 55];
    samples.extend([5.0; 5]);
    assert!(wait_with(&samples, false).is_ok());
}

#[test]
fn cpu_times_give_deltas_after_the_baseline() {
    let mut p = RealEnvironmentProbe::new();
    assert_eq!(p.record_cpu_times((100, 200, 300)), None);
    assert_eq!(p.record_cpu_times((150, 260, 340)), Some((50, 100)));
    assert_eq!(p.record_cpu_times((150, 260, 340)), None);
    assert_eq!(p.record_cpu_times((100, 250, 330)), None);
    assert_eq!(p.last_cpu, Some((100, 250, 330)));
}
