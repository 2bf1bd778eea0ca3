use frameanchor::apply::ApplyAction;
use frameanchor::codes::ErrorCode;
use frameanchor::fingerprint::cpu_fingerprint_with;
use frameanchor::gate::{
    applied_record_path, apply_best_affinity, apply_equivalent_decision, check_apply_at, check_policy_drift_at,
    equivalent_validation_plan, AppliedPolicyRecord, DriftStatus, EquivalentValidationPlan, SessionFacts,
    ValidationFacts,
};
use frameanchor::gate::drift_check_due;
use frameanchor::gpu::{AffinityPolicy, RegistryValueSnapshot};
use frameanchor::msi::msi_precheck;
use frameanchor::model::{CpuIdentity, EquivalentSafetyStatus, ReliabilityStatus, SessionStatus};
use frameanchor::topology::{build_topology, Topology};

const GPU_A: &str = r"PCI\VEN_FAKE&DEV_1";

fn topo() -> Topology {
    build_topology((0..8u32).map(|c| (vec![c], 0, false)).collect())
}

fn fixed_identity() -> CpuIdentity {
    CpuIdentity { architecture: 9, family: 6, model: 183, stepping: 1 }
}

fn fp() -> String {
    cpu_fingerprint_with(&topo(), &fixed_identity())
}

fn le_trimmed(v: u32) -> Vec<u8> {
    let b = v.to_le_bytes();
    let mut len = b.len();
    while len > 0 && b[len - 1] == 0 {
        len -= 1;
    }
    b[..len].to_vec()
}

fn policy_on(instance: &str, device_policy: u32, override_mask: u32) -> AffinityPolicy {
    AffinityPolicy {
        instance_id: instance.to_string(),
        device_policy: RegistryValueSnapshot::dword(device_policy),
        assignment_set_override: RegistryValueSnapshot::binary(le_trimmed(override_mask)),
    }
}

fn passed_session(best: u32) -> SessionFacts {
    SessionFacts {
        status: SessionStatus::Completed,
        reliability: ReliabilityStatus::Passed,
        algorithm_version: 1,
        best_lp: Some(best),
        equivalent_finalist_lps: vec![],
        cpu_fingerprint: fp(),
        gpu_instance_id: GPU_A.to_string(),
        validation: None,
    }
}

fn equivalent_session(pair: &[u32]) -> SessionFacts {
    SessionFacts {
        status: SessionStatus::Completed,
        reliability: ReliabilityStatus::Equivalent,
        algorithm_version: 2,
        best_lp: None,
        equivalent_finalist_lps: pair.to_vec(),
        cpu_fingerprint: fp(),
        gpu_instance_id: GPU_A.to_string(),
        validation: None,
    }
}

fn present() -> Vec<String> {
    vec![GPU_A.to_string()]
}

#[test]
fn check_apply_legacy_path_unchanged_for_passed_session() {
    let f = passed_session(4);
    let st = check_apply_at(Some(&f), 8, &fp(), Some(&present()), Some(true), None);
    assert!(st.can_apply);
    assert_eq!(st.reason, None);
    assert!(!st.equivalent_mode);
    let unassessed = SessionFacts { reliability: ReliabilityStatus::Unassessed, ..passed_session(4) };
    let st = check_apply_at(Some(&unassessed), 8, &fp(), Some(&present()), Some(true), None);
    assert_eq!(st.reason, Some(ErrorCode::BenchmarkReliabilityNotPassed));
    let st = check_apply_at(None, 8, &fp(), Some(&present()), Some(true), None);
    assert_eq!(st.reason, Some(ErrorCode::BenchmarkSessionNotFound));
    let st = check_apply_at(Some(&passed_session(8)), 8, &fp(), Some(&present()), Some(true), None);
    assert_eq!(st.reason, Some(ErrorCode::BenchmarkSessionIncompatible));
    let st = check_apply_at(Some(&f), 8, "other", Some(&present()), Some(true), None);
    assert_eq!(st.reason, Some(ErrorCode::BenchmarkSessionIncompatible));
    let st = check_apply_at(Some(&f), 8, &fp(), None, Some(true), None);
    assert_eq!(st.reason, Some(ErrorCode::GpuNotFound));
    let st = check_apply_at(Some(&f), 8, &fp(), Some(&present()), None, None);
    assert_eq!(st.reason, Some(ErrorCode::GpuBasicDisplayDisabled));
}

#[test]
fn check_apply_equivalent_requires_validation_then_can_apply() {
    let f = equivalent_session(&[3, 5]);
    let st = check_apply_at(Some(&f), 8, &fp(), Some(&present()), Some(true), None);
    assert!(!st.can_apply);
    assert!(st.equivalent_mode);
    assert!(st.requires_safety_validation);
    assert_eq!(st.allowed_lps, vec![3, 5]);
    assert_eq!(st.reason, Some(ErrorCode::BenchmarkEquivalentValidationRequired));
    let validated = SessionFacts {
        validation: Some(ValidationFacts {
            status: EquivalentSafetyStatus::Passed,
            selected_lp: Some(3),
            reference_policy_mask: Some(le_trimmed(1 << 6)),
        }),
        ..equivalent_session(&[3, 5])
    };
    let live = policy_on(GPU_A, 4, 1 << 6);
    let st = check_apply_at(Some(&validated), 8, &fp(), Some(&present()), Some(true), Some(&live));
    assert!(st.can_apply);
    assert!(!st.requires_safety_validation);
    let moved = policy_on(GPU_A, 4, 1 << 7);
    let st = check_apply_at(Some(&validated), 8, &fp(), Some(&present()), Some(true), Some(&moved));
    assert_eq!(st.reason, Some(ErrorCode::BenchmarkEquivalentReferenceChanged));
}

#[test]
fn equivalent_validation_plan_immediate_pass_when_current_in_pair() {
    let f = equivalent_session(&[3, 5]);
    let policy = policy_on(GPU_A, 4, 1 << 5);
    match equivalent_validation_plan(&f, 8, &fp(), Ok(present()), Ok(true), &policy, 3) {
        Ok(EquivalentValidationPlan::ImmediatePass { reference_lp }) => assert_eq!(reference_lp, 5),
        other => panic!("expected ImmediatePass: {other:?}"),
    }
}

#[test]
fn equivalent_validation_plan_run_captures_when_current_outside_pair() {
    let f = equivalent_session(&[3, 5]);
    let policy = policy_on(GPU_A, 4, 1 << 6);
    assert_eq!(
        equivalent_validation_plan(&f, 8, &fp(), Ok(present()), Ok(true), &policy, 5),
        Ok(EquivalentValidationPlan::RunCaptures { reference_lp: 6 })
    );
}

#[test]
fn equivalent_validation_plan_rejects_non_pair_selected_and_no_reference() {
    let f = equivalent_session(&[3, 5]);
    let policy = policy_on(GPU_A, 4, 1 << 5);
    assert_eq!(
        equivalent_validation_plan(&f, 8, &fp(), Ok(present()), Ok(true), &policy, 9).unwrap_err(),
        "BENCHMARK_EQUIVALENT_LP_INVALID"
    );
    let empty = AffinityPolicy {
        instance_id: GPU_A.to_string(),
        device_policy: RegistryValueSnapshot { present: false, value_type: None, bytes: None },
        assignment_set_override: RegistryValueSnapshot { present: false, value_type: None, bytes: None },
    };
    assert_eq!(
        equivalent_validation_plan(&f, 8, &fp(), Ok(present()), Ok(true), &empty, 3).unwrap_err(),
        "BENCHMARK_EQUIVALENT_NO_REFERENCE"
    );
    let single = equivalent_session(&[3]);
    assert_eq!(
        equivalent_validation_plan(&single, 8, &fp(), Ok(present()), Ok(true), &policy, 3).unwrap_err(),
        "BENCHMARK_NOT_EQUIVALENT"
    );
    assert_eq!(
        equivalent_validation_plan(&f, 8, &fp(), Err("ENUM".into()), Ok(true), &policy, 3).unwrap_err(),
        "ENUM"
    );
}

#[test]
fn apply_equivalent_decision_requires_passed_matching_validation() {
    let policy = policy_on(GPU_A, 4, 1 << 6);
    let f = equivalent_session(&[3, 5]);
    assert_eq!(
        apply_equivalent_decision(&f, 8, &fp(), Ok(present()), Ok(true), &policy, 3).unwrap_err(),
        "BENCHMARK_EQUIVALENT_VALIDATION_REQUIRED"
    );
    let v = SessionFacts {
        validation: Some(ValidationFacts {
            status: EquivalentSafetyStatus::Passed,
            selected_lp: Some(5),
            reference_policy_mask: Some(le_trimmed(1 << 6)),
        }),
        ..equivalent_session(&[3, 5])
    };
    assert_eq!(
        apply_equivalent_decision(&v, 8, &fp(), Ok(present()), Ok(true), &policy, 3).unwrap_err(),
        "BENCHMARK_EQUIVALENT_VALIDATION_REQUIRED"
    );
    assert_eq!(apply_equivalent_decision(&v, 8, &fp(), Ok(present()), Ok(true), &policy, 5), Ok(5));
}

#[test]
fn apply_equivalent_decision_rejects_reference_changed() {
    let v = SessionFacts {
        validation: Some(ValidationFacts {
            status: EquivalentSafetyStatus::Passed,
            selected_lp: Some(5),
            reference_policy_mask: Some(le_trimmed(1 << 6)),
        }),
        ..equivalent_session(&[3, 5])
    };
    let moved = policy_on(GPU_A, 4, 1 << 2);
    assert_eq!(
        apply_equivalent_decision(&v, 8, &fp(), Ok(present()), Ok(true), &moved, 5).unwrap_err(),
        "BENCHMARK_EQUIVALENT_REFERENCE_CHANGED"
    );
}

#[test]
fn apply_best_affinity_checks_then_starts_single_lp_change() {
    let (txn, action) = apply_best_affinity(Ok(passed_session(4)), 8, &fp(), Ok(present()), Ok(true)).unwrap();
    assert_eq!(action, ApplyAction::ReadPolicy);
    assert_eq!(txn.override_bytes, vec![0x10]);
    let not_done = SessionFacts { status: SessionStatus::Failed, ..passed_session(4) };
    let e = apply_best_affinity(Ok(not_done), 8, &fp(), Ok(present()), Ok(true)).unwrap_err();
    assert_eq!((e.code.as_str(), e.clean), ("BENCHMARK_SESSION_NOT_COMPLETED", true));
    let e = apply_best_affinity(Ok(passed_session(64)), 64, &fp(), Ok(present()), Ok(true)).unwrap_err();
    assert_eq!(e.code, "BENCHMARK_SESSION_INCOMPATIBLE");
    let e = apply_best_affinity(Ok(passed_session(3)), 8, &fp(), Ok(vec![]), Ok(true)).unwrap_err();
    assert_eq!(e.code, "GPU_NOT_FOUND");
    let e = apply_best_affinity(Ok(passed_session(3)), 8, &fp(), Ok(present()), Ok(false)).unwrap_err();
    assert_eq!(e.code, "GPU_BASIC_DISPLAY_DISABLED");
    let e = apply_best_affinity(Err("BENCHMARK_SESSION_NOT_FOUND".into()), 8, &fp(), Ok(present()), Ok(true)).unwrap_err();
    assert_eq!(e.code, "BENCHMARK_SESSION_NOT_FOUND");
}

#[test]
fn policy_drift_reports_match_drifted_and_none() {
    let record = AppliedPolicyRecord {
        instance_id: GPU_A.to_string(),
        core_id: 2,
        lp_indices: vec![4, 5],
        override_bytes: le_trimmed(0b11_0000),
        applied_at: "t".into(),
    };
    assert_eq!(check_policy_drift_at(Some(&record), Some(&policy_on(GPU_A, 4, 0b11_0000))), DriftStatus::Match);
    assert_eq!(check_policy_drift_at(Some(&record), Some(&policy_on(GPU_A, 4, 0b1))), DriftStatus::Drifted);
    assert_eq!(check_policy_drift_at(Some(&record), Some(&policy_on(GPU_A, 2, 0b11_0000))), DriftStatus::Drifted);
    assert_eq!(check_policy_drift_at(None, Some(&policy_on(GPU_A, 4, 0b1))), DriftStatus::NotTracked);
    assert_eq!(check_policy_drift_at(Some(&record), None), DriftStatus::NotTracked);
    assert_eq!(applied_record_path(r"C:\cfg"), r"C:\cfg\gpu-applied.json");
}

#[test]
fn drift_polling_keeps_cached_result_without_postponing_next_check() {
    let now = 1_700_000_000_000u64;
    let checked_at = now - 1_000;
    for _ in 0..3 {
        assert!(!drift_check_due(true, checked_at, now));
    }
    assert!(drift_check_due(true, checked_at, checked_at + 15_000));
    assert!(drift_check_due(true, 0, now));
    assert!(!drift_check_due(false, 0, now));
}

#[test]
fn msi_precheck_requires_present_adapter() {
    assert!(msi_precheck(Ok(vec![GPU_A.to_lowercase()]), GPU_A).is_ok());
    assert_eq!(msi_precheck(Ok(vec![]), GPU_A).unwrap_err(), "GPU_NOT_FOUND");
    assert_eq!(msi_precheck(Err("GPU_REGISTRY_FAILED".into()), GPU_A).unwrap_err(), "GPU_REGISTRY_FAILED");
}

#[test]
fn check_apply_equivalent_rejects_reference_changed() {
    let validated = SessionFacts {
        validation: Some(ValidationFacts {
            status: EquivalentSafetyStatus::Passed,
            selected_lp: Some(3),
            reference_policy_mask: Some(le_trimmed(1 << 2)),
        }),
        ..equivalent_session(&[3, 5])
    };
    let live = policy_on(GPU_A, 4, 1 << 2);
    let st = check_apply_at(Some(&validated), 8, &fp(), Some(&present()), Some(true), Some(&live));
    assert!(st.can_apply);

    let moved = policy_on(GPU_A, 4, 1 << 4);
    let st = check_apply_at(Some(&validated), 8, &fp(), Some(&present()), Some(true), Some(&moved));
    assert!(!st.can_apply);
    assert_eq!(st.reason.map(|c| c.as_str()), Some("BENCHMARK_EQUIVALENT_REFERENCE_CHANGED"));
    assert!(st.requires_safety_validation);
}
