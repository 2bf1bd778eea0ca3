use frameanchor::apply::{apply_mask_to_gpu, restore_record_path, ApplyAction, ApplyError, ApplyEvent, ApplyPhase};
use frameanchor::gpu::{AffinityPolicy, RegistryValueSnapshot};
use frameanchor::recovery::{advance_stage, recovery_path, require_journal, RecoveryJournal, RecoveryStage};
use frameanchor::restore::{attempt_startup_recovery, restore_previous_affinity, RestoreAction};

const GPU_A: &str = r"PCI\VEN_FAKE&DEV_1";

fn le_trimmed(v: u32) -> Vec<u8> {
    let b = v.to_le_bytes();
    let mut len = b.len();
    while len > 0 && b[len - 1] == 0 {
        len -= 1;
    }
    b[..len].to_vec()
}

fn policy_on(instance: &str, device_policy: u32, override_mask: u32) -> AffinityPolicy {
    AffinityPolicy {
        instance_id: instance.to_string(),
        device_policy: RegistryValueSnapshot::dword(device_policy),
        assignment_set_override: RegistryValueSnapshot::binary(le_trimmed(override_mask)),
    }
}

fn same(a: &AffinityPolicy, b: &AffinityPolicy) -> bool {
    frameanchor::gpu::policy_matches(a, b)
}

/// A scripted back end and file store: which operations fail, and what the
/// registry, the journal and the restore record hold.
#[derive(Default)]
struct World {
    policy: Option<AffinityPolicy>,
    journal: Option<RecoveryJournal>,
    record: Option<AffinityPolicy>,
    fail_write: bool,
    fail_restart: bool,
    fail_restore: bool,
    fail_advance: bool,
    fail_clear_journal: bool,
    fail_clear_record: bool,
    fail_record_write: bool,
    garble_read_back: bool,
    reads: u32,
    writes: u32,
    restarts: u32,
}

fn run_apply(w: &mut World, instance: &str, bytes: Vec<u8>) -> Result<(), ApplyError> {
    let (mut txn, mut action) = apply_mask_to_gpu(instance, bytes);
    loop {
        let event = match action {
            ApplyAction::Finish => return txn.outcome.clone().unwrap(),
            ApplyAction::ReadPolicy => {
                w.reads += 1;
                let mut p = w.policy.clone().unwrap();
                if w.garble_read_back && w.reads > 1 {
                    p.assignment_set_override = RegistryValueSnapshot::binary(vec![0xff]);
                }
                ApplyEvent::PolicyRead(p)
            }
            ApplyAction::BeginJournal => {
                w.journal = Some(RecoveryJournal::begin(txn.snapshot.as_ref().unwrap(), "t0"));
                ApplyEvent::Succeeded
            }
            ApplyAction::WritePolicy => {
                if w.fail_write {
                    ApplyEvent::Failed("registry".into())
                } else {
                    w.writes += 1;
                    w.policy = Some(txn.requested_policy());
                    ApplyEvent::Succeeded
                }
            }
            ApplyAction::AdvanceJournal(stage) => {
                if w.fail_advance {
                    ApplyEvent::Failed("GPU_APPLY_FAILED".into())
                } else {
                    match advance_stage(Ok(w.journal.clone()), stage, "t1") {
                        Ok(j) => {
                            w.journal = Some(j);
                            ApplyEvent::Succeeded
                        }
                        Err(e) => ApplyEvent::Failed(e),
                    }
                }
            }
            ApplyAction::RestartDevice => {
                w.restarts += 1;
                if w.fail_restart { ApplyEvent::Failed("restart".into()) } else { ApplyEvent::Succeeded }
            }
            ApplyAction::WriteRestoreRecord => {
                if w.fail_record_write {
                    ApplyEvent::Failed("disk".into())
                } else {
                    w.record = txn.snapshot.clone();
                    ApplyEvent::Succeeded
                }
            }
            ApplyAction::ClearJournal => {
                if w.fail_clear_journal {
                    ApplyEvent::Failed("locked".into())
                } else {
                    w.journal = None;
                    ApplyEvent::Succeeded
                }
            }
            ApplyAction::RestoreSnapshot => {
                if w.fail_restore {
                    ApplyEvent::Failed("GPU_RESTORE_FAILED".into())
                } else {
                    w.policy = txn.snapshot.clone();
                    ApplyEvent::Succeeded
                }
            }
            ApplyAction::ClearRestoreRecord => {
                if w.fail_clear_record {
                    ApplyEvent::Failed("locked".into())
                } else {
                    w.record = None;
                    ApplyEvent::Succeeded
                }
            }
            ApplyAction::MarkRestoreNeeded => {
                w.journal = Some(RecoveryJournal::restore_needed(txn.snapshot.as_ref().unwrap(), "t2"));
                ApplyEvent::Succeeded
            }
        };
        action = txn.advance(event);
    }
}

fn world() -> World {
    World { policy: Some(policy_on(GPU_A, 2, 0b1)), ..Default::default() }
}

#[test]
fn apply_success_writes_policy_restarts_and_records() {
    let mut w = world();
    run_apply(&mut w, GPU_A, le_trimmed(1 << 4)).unwrap();
    assert!(same(w.policy.as_ref().unwrap(), &policy_on(GPU_A, 4, 1 << 4)));
    assert_eq!(w.policy.as_ref().unwrap().assignment_set_override.value_type, Some(3));
    assert_eq!(w.restarts, 1);
    assert!(w.journal.is_none());
    assert!(same(w.record.as_ref().unwrap(), &policy_on(GPU_A, 2, 0b1)));
}

#[test]
fn apply_refuses_empty_long_or_zero_masks_without_touching_anything() {
    for bytes in [vec![], vec![0; 9], vec![0, 0]] {
        let mut w = world();
        let err = run_apply(&mut w, GPU_A, bytes).unwrap_err();
        assert_eq!(err.code, "BENCHMARK_SESSION_INCOMPATIBLE");
        assert!(err.clean);
        assert_eq!((w.reads, w.writes), (0, 0));
    }
}

#[test]
fn apply_write_failure_restores_and_clears_journal() {
    let mut w = world();
    w.fail_write = true;
    let err = run_apply(&mut w, GPU_A, le_trimmed(1 << 4)).unwrap_err();
    assert_eq!(err.code, "GPU_APPLY_FAILED");
    assert!(err.clean);
    assert!(w.journal.is_none());
    assert!(same(w.policy.as_ref().unwrap(), &policy_on(GPU_A, 2, 0b1)));
}

#[test]
fn apply_restart_failure_and_restore_failure_keeps_journal() {
    let mut w = world();
    w.fail_restart = true;
    w.fail_restore = true;
    let err = run_apply(&mut w, GPU_A, le_trimmed(1 << 4)).unwrap_err();
    assert_eq!(err.code, "GPU_RESTART_FAILED");
    assert!(!err.clean);
    assert_eq!(w.journal.as_ref().unwrap().stage, RecoveryStage::PolicyApplied);
}

#[test]
fn apply_journal_advance_failure_rolls_back() {
    let mut w = world();
    w.fail_advance = true;
    let err = run_apply(&mut w, GPU_A, le_trimmed(1 << 4)).unwrap_err();
    assert_eq!(err.code, "GPU_APPLY_FAILED");
    assert!(err.clean);
    assert!(same(w.policy.as_ref().unwrap(), &policy_on(GPU_A, 2, 0b1)));
}

#[test]
fn apply_read_back_mismatch_rolls_back() {
    let mut w = world();
    w.garble_read_back = true;
    let err = run_apply(&mut w, GPU_A, le_trimmed(1 << 4)).unwrap_err();
    assert_eq!(err.code, "GPU_APPLY_FAILED");
    assert!(err.clean);
    assert!(w.record.is_none());
}

#[test]
fn apply_restore_record_write_failure_rolls_back() {
    let mut w = world();
    w.fail_record_write = true;
    let err = run_apply(&mut w, GPU_A, le_trimmed(1 << 4)).unwrap_err();
    assert_eq!(err.code, "GPU_APPLY_FAILED");
    assert!(err.clean);
}

#[test]
fn rollback_journal_cleanup_failure_sets_recovery_required() {
    let mut w = world();
    w.fail_write = true;
    w.fail_clear_journal = true;
    let err = run_apply(&mut w, GPU_A, le_trimmed(1 << 4)).unwrap_err();
    assert!(!err.clean);
    assert_eq!(w.journal.as_ref().unwrap().stage, RecoveryStage::PolicyApplied);
}

#[test]
fn rollback_restore_record_cleanup_failure_sets_recovery_required() {
    let mut w = world();
    w.fail_write = true;
    w.fail_clear_record = true;
    let err = run_apply(&mut w, GPU_A, le_trimmed(1 << 4)).unwrap_err();
    assert!(!err.clean);
    assert_eq!(err.code, "GPU_APPLY_FAILED");
}

#[test]
fn snapshot_read_failure_is_clean_and_carries_the_code() {
    let (mut txn, action) = apply_mask_to_gpu(GPU_A, vec![1]);
    assert_eq!(action, ApplyAction::ReadPolicy);
    assert_eq!(txn.advance(ApplyEvent::Failed("GPU_REGISTRY_FAILED".into())), ApplyAction::Finish);
    let err = txn.outcome.clone().unwrap().unwrap_err();
    assert_eq!((err.code.as_str(), err.clean), ("GPU_REGISTRY_FAILED", true));
    assert_eq!(txn.phase, ApplyPhase::Finished);
    assert_eq!(txn.advance(ApplyEvent::Succeeded), ApplyAction::Finish);
}

fn run_restore(w: &mut World, mut job: frameanchor::restore::RestoreJob, mut action: RestoreAction) -> Result<(), String> {
    loop {
        let event = match action {
            RestoreAction::Finish => return job.outcome.clone().unwrap(),
            RestoreAction::ReadPolicy => ApplyEvent::PolicyRead(w.policy.clone().unwrap()),
            RestoreAction::RestoreSnapshot => {
                if w.fail_restore {
                    ApplyEvent::Failed("GPU_RESTORE_FAILED".into())
                } else {
                    w.writes += 1;
                    w.policy = job.snapshot.clone();
                    ApplyEvent::Succeeded
                }
            }
            RestoreAction::ClearJournal => {
                w.journal = None;
                ApplyEvent::Succeeded
            }
            RestoreAction::ClearRestoreRecord => {
                w.record = None;
                ApplyEvent::Succeeded
            }
        };
        action = job.advance(event);
    }
}

#[test]
fn startup_recovery_no_journal_ok() {
    let mut w = world();
    let (job, a) = attempt_startup_recovery(Ok(None));
    assert!(run_restore(&mut w, job, a).is_ok());
    let (job, a) = attempt_startup_recovery(Err("bad hmac".into()));
    assert_eq!(run_restore(&mut w, job, a).unwrap_err(), "bad hmac");
}

#[test]
fn startup_recovery_restores_policy_applied_crash() {
    let mut w = world();
    w.policy = Some(policy_on(GPU_A, 4, 1 << 4));
    let j = RecoveryJournal::begin(&policy_on(GPU_A, 2, 0b1), "t").advanced_to(RecoveryStage::PolicyApplied, "u");
    w.journal = Some(j.clone());
    let (job, a) = attempt_startup_recovery(Ok(Some(j)));
    assert_eq!(a, RestoreAction::RestoreSnapshot);
    run_restore(&mut w, job, a).unwrap();
    assert!(same(w.policy.as_ref().unwrap(), &policy_on(GPU_A, 2, 0b1)));
    assert!(w.journal.is_none());
}

#[test]
fn startup_recovery_stage_snapshot_only_clears_without_mutation() {
    let mut w = world();
    let j = RecoveryJournal::begin(&policy_on(GPU_A, 2, 0b1), "t");
    w.journal = Some(j.clone());
    let (job, a) = attempt_startup_recovery(Ok(Some(j)));
    assert_eq!(a, RestoreAction::ReadPolicy);
    run_restore(&mut w, job, a).unwrap();
    assert_eq!(w.writes, 0);
    assert!(w.journal.is_none());
}

#[test]
fn startup_recovery_snapshot_stage_mismatch_is_error() {
    let mut w = world();
    w.policy = Some(policy_on(GPU_A, 4, 1 << 6));
    let j = RecoveryJournal::begin(&policy_on(GPU_A, 2, 0b1), "t");
    w.journal = Some(j.clone());
    let (job, a) = attempt_startup_recovery(Ok(Some(j)));
    assert_eq!(run_restore(&mut w, job, a).unwrap_err(), "GPU_RESTORE_FAILED");
    assert!(w.journal.is_some());
}

#[test]
fn startup_recovery_restore_failure_keeps_journal() {
    let mut w = world();
    w.fail_restore = true;
    let j = RecoveryJournal::begin(&policy_on(GPU_A, 2, 0b1), "t").advanced_to(RecoveryStage::DeviceRestarted, "u");
    w.journal = Some(j.clone());
    let (job, a) = attempt_startup_recovery(Ok(Some(j)));
    assert!(run_restore(&mut w, job, a).is_err());
    assert!(w.journal.is_some());
}

#[test]
fn restore_previous_restores_bytes_and_clears_record() {
    let mut w = world();
    w.policy = Some(policy_on(GPU_A, 4, 1 << 3));
    w.record = Some(policy_on(GPU_A, 2, 0b1));
    let (job, a) = restore_previous_affinity(Ok(w.record.clone()));
    run_restore(&mut w, job, a).unwrap();
    assert!(same(w.policy.as_ref().unwrap(), &policy_on(GPU_A, 2, 0b1)));
    assert!(w.record.is_none());
}

#[test]
fn restore_previous_without_record_errors() {
    let mut w = world();
    let (job, a) = restore_previous_affinity(Ok(None));
    assert_eq!(run_restore(&mut w, job, a).unwrap_err(), "GPU_RESTORE_FAILED");
}

#[test]
fn journal_lifecycle_and_paths() {
    let snap = policy_on(GPU_A, 2, 0b1000);
    let j = RecoveryJournal::begin(&snap, "2024-01-01T00:00:00+00:00");
    assert_eq!(j.stage, RecoveryStage::SnapshotTaken);
    assert_eq!(j.instance_id, GPU_A);
    assert_eq!(j.created_at, j.updated_at);
    let k = advance_stage(Ok(Some(j.clone())), RecoveryStage::PolicyApplied, "later").unwrap();
    assert_eq!(k.stage, RecoveryStage::PolicyApplied);
    assert_eq!(k.updated_at, "later");
    assert_eq!(k.created_at, j.created_at);
    assert!(same(&k.snapshot, &snap));
    assert_eq!(require_journal(Ok(None)).unwrap_err(), "GPU_APPLY_FAILED");
    assert_eq!(advance_stage(Err("io".into()), RecoveryStage::PolicyApplied, "x").unwrap_err(), "io");
    assert_eq!(recovery_path(r"C:\cfg"), r"C:\cfg\benchmark-recovery.json");
    assert_eq!(restore_record_path("C:/cfg/"), "C:/cfg/gpu-restore.json");
    assert_eq!(snap.assignment_set_override.as_dword(), None);
    assert_eq!(RegistryValueSnapshot::dword(0b1000).as_dword(), Some(8));
}
