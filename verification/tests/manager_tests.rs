use frameanchor::bits::{mask_bytes_to_lp, single_lp_mask_bytes};
use frameanchor::codes::ErrorCode;
use frameanchor::gate::apply_gpu_affinity_at;
use frameanchor::model::BenchmarkConfig;
use frameanchor::runner::{effective_lps, round_order, validate_config};
use frameanchor::topology::{build_topology, Topology};

const GPU_A: &str = r"PCI\VEN_FAKE&DEV_1";
const GPU_B: &str = r"PCI\VEN_FAKE&DEV_2";

fn topo() -> Topology {
    build_topology((0..8u32).map(|c| (vec![c], 0, false)).collect())
}

fn topo_64() -> Topology {
    build_topology((0..32u32).map(|c| (vec![c * 2, c * 2 + 1], 0, true)).collect())
}

#[test]
fn validate_config_rejects_bad_settings() {
    let t = topo();
    let c = BenchmarkConfig { sample_secs: 0, ..Default::default() };
    assert!(validate_config(&c, &t).is_err());
    let c = BenchmarkConfig { repetitions: 8, ..Default::default() };
    assert!(validate_config(&c, &t).is_err());
    let c = BenchmarkConfig { vulkan_args: vec![], ..Default::default() };
    assert!(validate_config(&c, &t).is_err());
    let c = BenchmarkConfig { gpu_instance_id: None, ..Default::default() };
    assert!(validate_config(&c, &t).is_err());
    let c = BenchmarkConfig { gpu_instance_id: Some(GPU_A.to_string()), ..Default::default() };
    assert!(validate_config(&c, &t).is_ok());
}

#[test]
fn effective_lps_excludes_core_zero() {
    let t = topo();
    let c = BenchmarkConfig::default();
    assert_eq!(effective_lps(&c, &t), vec![1, 2, 3, 4, 5, 6, 7]);
    let c = BenchmarkConfig { candidate_lps: vec![5, 1, 5, 99], ..Default::default() };
    assert_eq!(effective_lps(&c, &t), vec![1, 5]);
    let c = BenchmarkConfig { candidate_lps: vec![0], ..Default::default() };
    assert!(effective_lps(&c, &t).is_empty());
}

#[test]
fn effective_lps_default_excludes_smt_siblings() {
    let cores: Vec<(Vec<u32>, u8, bool)> = (0..8u32).map(|c| (vec![c * 2, c * 2 + 1], 0, true)).collect();
    let t = build_topology(cores);
    let c = BenchmarkConfig::default();
    assert_eq!(effective_lps(&c, &t), vec![2, 4, 6, 8, 10, 12, 14]);
}

#[test]
fn effective_lps_default_p_core_only_on_hybrid() {
    let mut cores: Vec<(Vec<u32>, u8, bool)> = Vec::new();
    let mut lp = 0u32;
    for _ in 0..8 {
        cores.push((vec![lp, lp + 1], 1, true));
        lp += 2;
    }
    for _ in 0..8 {
        cores.push((vec![lp], 0, false));
        lp += 1;
    }
    let t = build_topology(cores);
    let c = BenchmarkConfig::default();
    assert_eq!(effective_lps(&c, &t), vec![2, 4, 6, 8, 10, 12, 14]);
}

#[test]
fn round_order_balanced_rotation_and_reversal() {
    let lps = vec![0, 2, 4, 6];
    assert_eq!(round_order(0, &lps), vec![0, 2, 4, 6]);
    assert_eq!(round_order(1, &lps), vec![2, 0, 6, 4]);
    assert_eq!(round_order(2, &lps), vec![4, 6, 0, 2]);
    assert_eq!(round_order(3, &lps), vec![6, 4, 2, 0]);
}

#[test]
fn round_order_sorts_and_visits_every_lp_once() {
    let lps = vec![9, 3, 7];
    for r in 0..12u32 {
        let mut o = round_order(r, &lps);
        o.sort();
        assert_eq!(o, vec![3, 7, 9]);
    }
    assert_eq!(round_order(5, &vec![]), Vec::<u32>::new());
}

#[test]
fn mask_bytes_to_lp_roundtrips_and_rejects_non_single_bit() {
    assert_eq!(mask_bytes_to_lp(Some(&single_lp_mask_bytes(0))), Some(0));
    assert_eq!(mask_bytes_to_lp(Some(&single_lp_mask_bytes(3))), Some(3));
    assert_eq!(mask_bytes_to_lp(Some(&single_lp_mask_bytes(63))), Some(63));
    assert_eq!(mask_bytes_to_lp(None), None);
    assert_eq!(mask_bytes_to_lp(Some(&[])), None);
    assert_eq!(mask_bytes_to_lp(Some(&[0b11])), None);
}

fn adapters() -> Result<Vec<String>, String> {
    Ok(vec![GPU_A.to_lowercase()])
}

#[test]
fn apply_gpu_affinity_rejects_invalid_lp_outside_range() {
    let err = apply_gpu_affinity_at(false, None, topo().total_lp, 8, GPU_A, adapters(), Ok(true)).unwrap_err();
    assert_eq!(err, ErrorCode::BenchmarkSessionIncompatible.as_str());
}

#[test]
fn apply_gpu_affinity_rejects_lp_64() {
    let err = apply_gpu_affinity_at(false, None, topo_64().total_lp, 64, GPU_A, adapters(), Ok(true)).unwrap_err();
    assert_eq!(err, ErrorCode::BenchmarkSessionIncompatible.as_str());
}

#[test]
fn apply_gpu_affinity_rejects_missing_gpu() {
    let err = apply_gpu_affinity_at(false, None, topo().total_lp, 3, GPU_B, adapters(), Ok(true)).unwrap_err();
    assert_eq!(err, ErrorCode::GpuNotFound.as_str());
}

#[test]
fn apply_gpu_affinity_blocks_when_benchmark_reserved() {
    let busy = Some(ErrorCode::BenchmarkAlreadyRunning.as_str().to_string());
    let err = apply_gpu_affinity_at(false, busy, topo().total_lp, 3, GPU_A, adapters(), Ok(true)).unwrap_err();
    assert_eq!(err, ErrorCode::BenchmarkAlreadyRunning.as_str());
}

#[test]
fn apply_gpu_affinity_blocks_recovery_required() {
    let err = apply_gpu_affinity_at(true, None, topo().total_lp, 3, GPU_A, adapters(), Ok(true)).unwrap_err();
    assert_eq!(err, ErrorCode::BenchmarkRecoveryRequired.as_str());
}

#[test]
fn apply_gpu_affinity_blocks_basic_display_disabled() {
    let err = apply_gpu_affinity_at(false, None, topo().total_lp, 3, GPU_A, adapters(), Ok(false)).unwrap_err();
    assert_eq!(err, ErrorCode::GpuBasicDisplayDisabled.as_str());
}

#[test]
fn apply_gpu_affinity_passes_backend_errors_and_starts_with_a_read() {
    let err = apply_gpu_affinity_at(false, None, 8, 3, GPU_A, Err("GPU_ENUM_FAILED".into()), Ok(true)).unwrap_err();
    assert_eq!(err, "GPU_ENUM_FAILED");
    let (txn, action) = apply_gpu_affinity_at(false, None, 8, 3, GPU_A, adapters(), Ok(true)).unwrap();
    assert_eq!(action, frameanchor::apply::ApplyAction::ReadPolicy);
    assert_eq!(txn.override_bytes, vec![0b1000]);
    assert_eq!(txn.instance_id, GPU_A);
}
