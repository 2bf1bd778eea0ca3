use frameanchor::assets::AssetError;
use frameanchor::model::{BenchmarkConfig, BenchmarkPhase};
use frameanchor::physical::{CoreTarget, METHOD_VERSION};
use frameanchor::runner::{pre_flight, AdapterInfo};
use frameanchor::session_state::{cancel_event, progress_event};
use frameanchor::topology::build_topology;

const GPU_A: &str = r"PCI\VEN_FAKE&DEV_1";

fn targets() -> Vec<CoreTarget> {
    vec![
        CoreTarget { core_id: 0, lp_indices: vec![0, 1] },
        CoreTarget { core_id: 1, lp_indices: vec![2, 3] },
    ]
}

#[test]
fn progress_event_names_the_target_of_its_lp() {
    let ts = targets();
    let p = progress_event("s1", Some(&ts), "collecting", Some(0), Some(2), 40, Some(90), None);
    assert_eq!(p.target, Some(CoreTarget { core_id: 1, lp_indices: vec![2, 3] }));
    assert_eq!(p.phase, Some(BenchmarkPhase::Screening));
    assert_eq!(p.phase_round, Some(1));
    assert_eq!((p.stage.as_str(), p.lp, p.percentage, p.eta_secs), ("collecting", Some(2), 40, Some(90)));
    assert!(p.cancel_stage.is_none() && p.cancel_progress.is_none());
    // No candidate starts at LP 1 (a sibling); calibration names no target.
    assert_eq!(progress_event("s1", Some(&ts), "collecting", Some(0), Some(1), 40, None, None).target, None);
    let c = progress_event("s1", Some(&ts), "calibrating", Some(300), Some(0), 0, None, None);
    assert_eq!(c.target, None);
    assert_eq!(c.phase, None);
}

#[test]
fn cancel_event_carries_only_the_cancel_stage() {
    let p = cancel_event("s1", "restoring", 60);
    assert_eq!(p.stage, "cancelling");
    assert_eq!(p.percentage, 0);
    assert_eq!(p.cancel_stage.as_deref(), Some("restoring"));
    assert_eq!(p.cancel_progress, Some(60));
    assert!(p.target.is_none() && p.error.is_none());
}

fn config() -> BenchmarkConfig {
    BenchmarkConfig {
        method_version: METHOD_VERSION,
        gpu_instance_id: Some(GPU_A.to_string()),
        ..Default::default()
    }
}

fn adapters() -> Result<Vec<AdapterInfo>, String> {
    Ok(vec![
        AdapterInfo { instance_id: "PCI\\OTHER".into(), friendly_name: "Other".into() },
        AdapterInfo { instance_id: GPU_A.to_lowercase(), friendly_name: "Fake GPU".into() },
    ])
}

#[test]
fn pre_flight_checks_in_order_and_names_the_adapter() {
    let topo = build_topology((0..4u32).map(|c| (vec![c], 0, false)).collect());
    assert_eq!(
        pre_flight(Ok(()), &config(), &topo, adapters(), Ok(true)),
        Ok((GPU_A.to_string(), "Fake GPU".to_string()))
    );
    assert_eq!(
        pre_flight(Err(AssetError::HashMismatch("x".into())), &config(), &topo, adapters(), Ok(true)).unwrap_err(),
        "BENCHMARK_ASSETS_HASH_MISMATCH"
    );
    let unnamed = BenchmarkConfig { gpu_instance_id: None, ..config() };
    assert_eq!(pre_flight(Ok(()), &unnamed, &topo, adapters(), Ok(true)).unwrap_err(), "BENCHMARK_INVALID_CONFIG");
    assert_eq!(pre_flight(Ok(()), &config(), &topo, Ok(vec![]), Ok(true)).unwrap_err(), "GPU_NOT_FOUND");
    assert_eq!(
        pre_flight(Ok(()), &config(), &topo, adapters(), Ok(false)).unwrap_err(),
        "GPU_BASIC_DISPLAY_DISABLED"
    );
    let bad = BenchmarkConfig { sample_secs: 0, ..config() };
    assert_eq!(pre_flight(Ok(()), &bad, &topo, adapters(), Ok(true)).unwrap_err(), "BENCHMARK_INVALID_CONFIG");
}
