use frameanchor::apply::ApplyError;
use frameanchor::gpu::RegistryValueSnapshot;
use frameanchor::msi::{apply_msi_to_gpu, msi_drift, msi_record_path, restore_msi_to_gpu, MsiAction, MsiEvent};

const GPU_A: &str = r"PCI\VEN_FAKE&DEV_1";

fn absent() -> RegistryValueSnapshot {
    RegistryValueSnapshot { present: false, value_type: None, bytes: None }
}

#[derive(Default)]
struct Dev {
    value: Option<RegistryValueSnapshot>,
    record: Option<RegistryValueSnapshot>,
    /// The device the record names (a legacy record names none).
    record_instance: Option<String>,
    fail_enable: bool,
    fail_restart: bool,
    restarts: u32,
    writes: u32,
}

fn run_apply(d: &mut Dev) -> Result<(), ApplyError> {
    let (mut t, mut a) = apply_msi_to_gpu(GPU_A);
    loop {
        let e = match a {
            MsiAction::Finish => return t.outcome.clone().unwrap(),
            MsiAction::ReadValue => MsiEvent::ValueRead(d.value.clone().unwrap()),
            MsiAction::LoadRecord => MsiEvent::RecordLoaded(d.record.clone()),
            MsiAction::WriteRecord => {
                d.record = t.record_value.clone();
                d.record_instance = Some(t.instance_id.clone());
                MsiEvent::Succeeded
            }
            MsiAction::WriteEnabled => {
                if d.fail_enable {
                    MsiEvent::Failed("registry".into())
                } else {
                    d.writes += 1;
                    d.value = Some(RegistryValueSnapshot::dword(1));
                    MsiEvent::Succeeded
                }
            }
            MsiAction::WriteSnapshot => {
                d.value = t.snapshot.clone();
                MsiEvent::Succeeded
            }
            MsiAction::RestartDevice => {
                d.restarts += 1;
                if d.fail_restart { MsiEvent::Failed("restart".into()) } else { MsiEvent::Succeeded }
            }
            MsiAction::ClearRecord => {
                d.record = None;
                MsiEvent::Succeeded
            }
        };
        a = t.advance(e);
    }
}

#[test]
fn msi_apply_enables_restarts_and_records_snapshot() {
    let mut d = Dev { value: Some(RegistryValueSnapshot::dword(0)), ..Default::default() };
    run_apply(&mut d).unwrap();
    assert_eq!(d.value.as_ref().unwrap().as_dword(), Some(1));
    assert_eq!(d.restarts, 1);
    assert_eq!(d.record.as_ref().unwrap().as_dword(), Some(0));
}

#[test]
fn msi_apply_absent_value_also_records_absent_snapshot() {
    let mut d = Dev { value: Some(absent()), ..Default::default() };
    run_apply(&mut d).unwrap();
    assert!(!d.record.as_ref().unwrap().present);
}

#[test]
fn msi_apply_is_noop_when_already_enabled() {
    let mut d = Dev { value: Some(RegistryValueSnapshot::dword(1)), ..Default::default() };
    run_apply(&mut d).unwrap();
    assert_eq!((d.writes, d.restarts), (0, 0));
    assert!(d.record.is_none());
    let mut d = Dev {
        value: Some(RegistryValueSnapshot::dword(1)),
        record: Some(RegistryValueSnapshot::dword(0)),
        ..Default::default()
    };
    run_apply(&mut d).unwrap();
    assert_eq!(d.record.as_ref().unwrap().as_dword(), Some(0));
    assert_eq!(d.restarts, 0);
}

#[test]
fn msi_apply_rolls_back_when_write_fails() {
    let mut d = Dev { value: Some(RegistryValueSnapshot::dword(0)), fail_enable: true, ..Default::default() };
    let e = run_apply(&mut d).unwrap_err();
    assert_eq!(e.code, "GPU_APPLY_FAILED");
    assert!(e.clean);
    assert!(d.record.is_none());
    assert_eq!(d.value.as_ref().unwrap().as_dword(), Some(0));
}

#[test]
fn msi_restart_failure_rollback_is_unclean_when_restore_restart_fails() {
    let mut d = Dev { value: Some(RegistryValueSnapshot::dword(0)), fail_restart: true, ..Default::default() };
    let e = run_apply(&mut d).unwrap_err();
    assert_eq!(e.code, "GPU_RESTART_FAILED");
    assert!(!e.clean);
    assert!(d.record.is_none());
}

#[test]
fn msi_restore_without_record_fails() {
    let (t, a) = restore_msi_to_gpu(Ok(None));
    assert_eq!(a, MsiAction::Finish);
    assert_eq!(t.outcome, Some(Err("GPU_RESTORE_FAILED".to_string())));
}

#[test]
fn msi_restore_writes_back_and_clears() {
    let (mut t, a) = restore_msi_to_gpu(Ok(Some(RegistryValueSnapshot::dword(0))));
    assert_eq!(a, MsiAction::WriteSnapshot);
    assert_eq!(t.advance(MsiEvent::Succeeded), MsiAction::RestartDevice);
    assert_eq!(t.advance(MsiEvent::Succeeded), MsiAction::ReadValue);
    assert_eq!(t.advance(MsiEvent::ValueRead(RegistryValueSnapshot::dword(0))), MsiAction::ClearRecord);
    assert_eq!(t.advance(MsiEvent::Succeeded), MsiAction::Finish);
    assert_eq!(t.outcome, Some(Ok(())));
    let (mut t, _) = restore_msi_to_gpu(Ok(Some(RegistryValueSnapshot::dword(0))));
    t.advance(MsiEvent::Succeeded);
    t.advance(MsiEvent::Succeeded);
    assert_eq!(t.advance(MsiEvent::ValueRead(RegistryValueSnapshot::dword(1))), MsiAction::Finish);
    assert_eq!(t.outcome, Some(Err("GPU_RESTORE_FAILED".to_string())));
    assert_eq!(msi_record_path(r"C:\cfg"), r"C:\cfg\gpu-msi-restore.json");
}

#[test]
fn msi_reapply_upgrades_legacy_monitor_record_without_restarting() {
    let prior = RegistryValueSnapshot::dword(0);
    let mut d = Dev {
        value: Some(RegistryValueSnapshot::dword(1)),
        record: Some(prior.clone()),
        record_instance: None,
        ..Default::default()
    };
    run_apply(&mut d).unwrap();
    assert_eq!(d.restarts, 0);
    assert!(d.record.as_ref().unwrap().same_as(&prior));
    assert_eq!(d.record_instance.as_deref(), Some(GPU_A));
}

#[test]
fn msi_drift_watches_only_a_recorded_device() {
    assert_eq!(msi_drift(Ok(None), None), Some(false));
    assert_eq!(msi_drift(Err("bad record".into()), None), None);
    assert_eq!(msi_drift(Ok(Some(None)), None), None);
    let dev = || Ok(Some(Some(GPU_A.to_string())));
    assert_eq!(msi_drift(dev(), Some(Ok(RegistryValueSnapshot::dword(1)))), Some(false));
    assert_eq!(msi_drift(dev(), Some(Ok(RegistryValueSnapshot::dword(0)))), Some(true));
    assert_eq!(msi_drift(dev(), Some(Ok(absent()))), Some(true));
    assert_eq!(msi_drift(dev(), Some(Err("GPU_REGISTRY_FAILED".into()))), None);
}
