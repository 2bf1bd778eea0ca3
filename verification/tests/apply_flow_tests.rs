use frameanchor::apply::{ApplyAction, ApplyError, ApplyEvent, ApplyTxn};
use frameanchor::bits::single_lp_mask_bytes;
use frameanchor::fingerprint::cpu_fingerprint_with;
use frameanchor::gate::{
    apply_affinity_to_gpu, apply_best_affinity, apply_gpu_affinity_at, check_apply_at, list_importable, SessionFacts,
};
use frameanchor::gpu::{policy_matches, AffinityPolicy, RegistryValueSnapshot, DEVICE_POLICY_SINGLE_PROCESSOR, REG_BINARY, REG_DWORD};
use frameanchor::model::{CpuIdentity, ReliabilityStatus, SessionStatus};
use frameanchor::recovery::{advance_stage, RecoveryJournal, RecoveryStage};
use frameanchor::restore::{restore_previous_affinity, RestoreAction, RestoreJob};
use frameanchor::topology::{build_topology, Topology};

const GPU_A: &str = r"PCI\VEN_FAKE&DEV_1";
const GPU_B: &str = r"PCI\VEN_FAKE&DEV_2";

fn fixed_identity() -> CpuIdentity {
    CpuIdentity { architecture: 9, family: 6, model: 183, stepping: 1 }
}

fn topo() -> Topology {
    build_topology((0..8u32).map(|c| (vec![c], 0, false)).collect())
}

fn topo_64() -> Topology {
    build_topology((0..32u32).map(|c| (vec![c * 2, c * 2 + 1], 0, true)).collect())
}

fn le_trimmed(v: u32) -> Vec<u8> {
    let b = v.to_le_bytes();
    let mut len = b.len();
    while len > 0 && b[len - 1] == 0 {
        len -= 1;
    }
    b[..len].to_vec()
}

fn policy_on(instance: &str, device_policy: u32, override_mask: u32) -> AffinityPolicy {
    AffinityPolicy {
        instance_id: instance.to_string(),
        device_policy: RegistryValueSnapshot::dword(device_policy),
        assignment_set_override: RegistryValueSnapshot::binary(le_trimmed(override_mask)),
    }
}

fn absent() -> RegistryValueSnapshot {
    RegistryValueSnapshot { present: false, value_type: None, bytes: None }
}

fn completed_session(topo: &Topology, gpu: &str, best_lp: u32) -> SessionFacts {
    SessionFacts {
        status: SessionStatus::Completed,
        reliability: ReliabilityStatus::Passed,
        algorithm_version: 1,
        best_lp: Some(best_lp),
        equivalent_finalist_lps: vec![],
        cpu_fingerprint: cpu_fingerprint_with(topo, &fixed_identity()),
        gpu_instance_id: gpu.to_string(),
        validation: None,
    }
}

fn assert_override_mask(policy: &AffinityPolicy, mask: u32) {
    let o = &policy.assignment_set_override;
    assert_eq!(o.value_type, Some(REG_BINARY));
    assert_eq!(o.bytes.as_deref(), Some(le_trimmed(mask).as_slice()));
}

/// A scripted GPU back end with the journal and the restore record beside it.
#[derive(Default)]
struct Machine {
    policies: Vec<AffinityPolicy>,
    journal: Option<RecoveryJournal>,
    record: Option<AffinityPolicy>,
    reads: u32,
    fail_read_at: Option<u32>,
    fail_next_write: bool,
    restart_fails: bool,
    fail_next_advance: bool,
    fail_next_clear: bool,
    restarts: u32,
    writes: u32,
}

impl Machine {
    fn with(policies: Vec<AffinityPolicy>) -> Self {
        Machine { policies, ..Default::default() }
    }

    fn policy(&self, id: &str) -> AffinityPolicy {
        self.policies.iter().find(|p| p.instance_id == id).cloned().unwrap()
    }

    fn read(&mut self, id: &str) -> Result<AffinityPolicy, String> {
        self.reads += 1;
        if self.fail_read_at == Some(self.reads) {
            return Err("GPU_REGISTRY_FAILED".into());
        }
        self.policies.iter().find(|p| p.instance_id == id).cloned().ok_or_else(|| "GPU_NOT_FOUND".to_string())
    }

    fn write(&mut self, p: &AffinityPolicy) -> Result<(), String> {
        if self.fail_next_write {
            self.fail_next_write = false;
            return Err("GPU_APPLY_FAILED".into());
        }
        self.writes += 1;
        self.policies.retain(|q| q.instance_id != p.instance_id);
        self.policies.push(p.clone());
        Ok(())
    }

    fn restart(&mut self) -> Result<(), String> {
        self.restarts += 1;
        if self.restart_fails { Err("GPU_RESTART_FAILED".into()) } else { Ok(()) }
    }

    fn restore_snapshot(&mut self, s: &AffinityPolicy) -> Result<(), String> {
        self.write(s)?;
        self.restart()?;
        let now = self.read(&s.instance_id)?;
        if policy_matches(s, &now) { Ok(()) } else { Err("GPU_RESTORE_FAILED".into()) }
    }

    fn clear_journal(&mut self) -> Result<(), String> {
        if self.fail_next_clear {
            self.fail_next_clear = false;
            return Err("GPU_APPLY_FAILED".into());
        }
        self.journal = None;
        Ok(())
    }
}

fn event(r: Result<(), String>) -> ApplyEvent {
    match r {
        Ok(()) => ApplyEvent::Succeeded,
        Err(e) => ApplyEvent::Failed(e),
    }
}

fn run_apply(m: &mut Machine, mut txn: ApplyTxn, mut action: ApplyAction) -> Result<(), ApplyError> {
    loop {
        let ev = match action {
            ApplyAction::Finish => return txn.outcome.clone().unwrap(),
            ApplyAction::ReadPolicy => match m.read(&txn.instance_id) {
                Ok(p) => ApplyEvent::PolicyRead(p),
                Err(e) => ApplyEvent::Failed(e),
            },
            ApplyAction::BeginJournal => {
                m.journal = Some(RecoveryJournal::begin(txn.snapshot.as_ref().unwrap(), "t0"));
                ApplyEvent::Succeeded
            }
            ApplyAction::WritePolicy => event(m.write(&txn.requested_policy())),
            ApplyAction::AdvanceJournal(stage) => {
                if m.fail_next_advance {
                    m.fail_next_advance = false;
                    ApplyEvent::Failed("GPU_APPLY_FAILED".into())
                } else {
                    match advance_stage(Ok(m.journal.clone()), stage, "t1") {
                        Ok(j) => {
                            m.journal = Some(j);
                            ApplyEvent::Succeeded
                        }
                        Err(e) => ApplyEvent::Failed(e),
                    }
                }
            }
            ApplyAction::RestartDevice => event(m.restart()),
            ApplyAction::WriteRestoreRecord => {
                m.record = txn.snapshot.clone();
                ApplyEvent::Succeeded
            }
            ApplyAction::ClearJournal => event(m.clear_journal()),
            ApplyAction::RestoreSnapshot => {
                let s = txn.snapshot.clone().unwrap();
                event(m.restore_snapshot(&s))
            }
            ApplyAction::ClearRestoreRecord => {
                m.record = None;
                ApplyEvent::Succeeded
            }
            ApplyAction::MarkRestoreNeeded => {
                m.journal = Some(RecoveryJournal::restore_needed(txn.snapshot.as_ref().unwrap(), "t2"));
                ApplyEvent::Succeeded
            }
        };
        action = txn.advance(ev);
    }
}

fn run_restore(m: &mut Machine, mut job: RestoreJob, mut action: RestoreAction) -> Result<(), String> {
    loop {
        let ev = match action {
            RestoreAction::Finish => return job.outcome.clone().unwrap(),
            RestoreAction::ReadPolicy => {
                let id = job.snapshot.as_ref().unwrap().instance_id.clone();
                match m.read(&id) {
                    Ok(p) => ApplyEvent::PolicyRead(p),
                    Err(e) => ApplyEvent::Failed(e),
                }
            }
            RestoreAction::RestoreSnapshot => {
                let s = job.snapshot.clone().unwrap();
                event(m.restore_snapshot(&s))
            }
            RestoreAction::ClearJournal => event(m.clear_journal()),
            RestoreAction::ClearRestoreRecord => {
                m.record = None;
                ApplyEvent::Succeeded
            }
        };
        action = job.advance(ev);
    }
}

/// Applies the best LP of `session` on the machine, as the manager does.
fn apply_session(m: &mut Machine, topo: &Topology, session: SessionFacts) -> Result<(), ApplyError> {
    let adapters: Vec<String> = m.policies.iter().map(|p| p.instance_id.clone()).collect();
    let fp = cpu_fingerprint_with(topo, &fixed_identity());
    let (txn, action) = apply_best_affinity(Ok(session), topo.total_lp, &fp, Ok(adapters), Ok(true))?;
    run_apply(m, txn, action)
}

fn restore_previous(m: &mut Machine) -> Result<(), String> {
    let (job, action) = restore_previous_affinity(Ok(m.record.clone()));
    run_restore(m, job, action)
}

#[test]
fn apply_and_restore_missing_registry_values() {
    let mut m = Machine::with(vec![AffinityPolicy {
        instance_id: GPU_A.to_string(),
        device_policy: absent(),
        assignment_set_override: absent(),
    }]);
    assert!(!m.policy(GPU_A).device_policy.present);
    apply_session(&mut m, &topo(), completed_session(&topo(), GPU_A, 3)).unwrap();
    assert_override_mask(&m.policy(GPU_A), 1u32 << 3);

    restore_previous(&mut m).unwrap();
    let restored = m.policy(GPU_A);
    assert!(!restored.device_policy.present);
    assert!(!restored.assignment_set_override.present);
    assert!(restored.device_policy.bytes.is_none());
    assert!(m.record.is_none());
}

#[test]
fn apply_requires_completed_session() {
    let mut m = Machine::with(vec![policy_on(GPU_A, 2, 0b1)]);
    let running = SessionFacts { status: SessionStatus::Running, best_lp: None, ..completed_session(&topo(), GPU_A, 3) };
    let err = apply_session(&mut m, &topo(), running).unwrap_err();
    assert_eq!(err.code, "BENCHMARK_SESSION_NOT_COMPLETED");
    assert_eq!(m.restarts, 0);
}

#[test]
fn apply_rejects_cpu_fingerprint_mismatch() {
    let mut m = Machine::with(vec![policy_on(GPU_A, 2, 0b1)]);
    let other_topo = build_topology((0..8u32).map(|c| (vec![c * 2, c * 2 + 1], 0, true)).collect());
    let session = completed_session(&other_topo, GPU_A, 3);
    let err = apply_session(&mut m, &topo(), session).unwrap_err();
    assert_eq!(err.code, "BENCHMARK_SESSION_INCOMPATIBLE");
    assert_eq!(m.restarts, 0);
}

#[test]
fn apply_rejects_gpu_not_present() {
    let mut m = Machine::with(vec![policy_on(GPU_B, 2, 0b1)]);
    let err = apply_session(&mut m, &topo(), completed_session(&topo(), GPU_A, 3)).unwrap_err();
    assert_eq!(err.code, "GPU_NOT_FOUND");
}

#[test]
fn apply_blocks_when_basic_display_disabled() {
    let m = Machine::with(vec![policy_on(GPU_A, 2, 0b1)]);
    let fp = cpu_fingerprint_with(&topo(), &fixed_identity());
    let err = apply_best_affinity(
        Ok(completed_session(&topo(), GPU_A, 3)),
        topo().total_lp,
        &fp,
        Ok(vec![GPU_A.to_string()]),
        Ok(false),
    )
    .unwrap_err();
    assert_eq!(err.code, "GPU_BASIC_DISPLAY_DISABLED");
    assert_eq!(m.restarts, 0);
}

#[test]
fn apply_lp_boundaries_write_reg_binary_masks() {
    let mut m = Machine::with(vec![policy_on(GPU_A, 2, 0b1)]);
    let topo64 = topo_64();
    assert_eq!(topo64.total_lp, 64);
    for lp in [0u32, 31, 32, 63] {
        apply_session(&mut m, &topo64, completed_session(&topo64, GPU_A, lp)).unwrap();
        let cur = m.policy(GPU_A);
        assert_eq!(cur.assignment_set_override.value_type, Some(REG_BINARY), "LP {lp} is REG_BINARY");
        assert_eq!(
            cur.assignment_set_override.bytes.as_deref(),
            Some(single_lp_mask_bytes(lp).as_slice()),
            "LP {lp} mask bytes"
        );
    }
}

#[test]
fn apply_rejects_best_lp_64() {
    let mut m = Machine::with(vec![policy_on(GPU_A, 2, 0b1)]);
    let topo64 = topo_64();
    let err = apply_session(&mut m, &topo64, completed_session(&topo64, GPU_A, 64)).unwrap_err();
    assert_eq!(err.code, "BENCHMARK_SESSION_INCOMPATIBLE");
    assert_eq!(m.restarts, 0);
}

#[test]
fn apply_rejects_best_lp_outside_topology() {
    let mut m = Machine::with(vec![policy_on(GPU_A, 2, 0b1)]);
    let err = apply_session(&mut m, &topo(), completed_session(&topo(), GPU_A, 8)).unwrap_err();
    assert_eq!(err.code, "BENCHMARK_SESSION_INCOMPATIBLE");
    assert_eq!(m.restarts, 0);
}

#[test]
fn restore_rejects_non_dword_device_policy() {
    let prior = AffinityPolicy {
        instance_id: GPU_A.to_string(),
        device_policy: RegistryValueSnapshot {
            present: true,
            value_type: Some(1),
            bytes: Some(vec![b'g', 0, b'p', 0, 0, 0]),
        },
        assignment_set_override: RegistryValueSnapshot {
            present: true,
            value_type: Some(REG_BINARY),
            bytes: Some(vec![0x00, 0x00, 0x00, 0x80]),
        },
    };
    assert!(!prior.restorable());
    let mut m = Machine::with(vec![prior]);
    apply_session(&mut m, &topo(), completed_session(&topo(), GPU_A, 4)).unwrap();
    assert_eq!(m.policy(GPU_A).device_policy.value_type, Some(REG_DWORD));
    let writes = m.writes;
    assert!(restore_previous(&mut m).is_err());
    assert_eq!(m.policy(GPU_A).device_policy.value_type, Some(REG_DWORD), "no non-DWORD snapshot is written");
    assert_eq!(m.writes, writes);
}

#[test]
fn snapshots_with_absent_or_dword_device_policy_are_restorable() {
    assert!(policy_on(GPU_A, 2, 0b1).restorable());
    let missing = AffinityPolicy { instance_id: GPU_A.to_string(), device_policy: absent(), assignment_set_override: absent() };
    assert!(missing.restorable());
    let short = AffinityPolicy {
        device_policy: RegistryValueSnapshot { present: true, value_type: Some(REG_DWORD), bytes: Some(vec![4, 0]) },
        ..policy_on(GPU_A, 2, 0b1)
    };
    assert!(!short.restorable());
}

#[test]
fn apply_twice_is_one_level_record() {
    let before_a = policy_on(GPU_A, 0, 0xFFFF);
    let before_b = policy_on(GPU_B, 0, 0xFF00);
    let mut m = Machine::with(vec![before_a, before_b.clone()]);
    apply_session(&mut m, &topo(), completed_session(&topo(), GPU_A, 1)).unwrap();
    apply_session(&mut m, &topo(), completed_session(&topo(), GPU_B, 2)).unwrap();

    let saved = m.record.clone().unwrap();
    assert_eq!(saved.instance_id, GPU_B);
    assert!(policy_matches(&saved, &before_b));

    restore_previous(&mut m).unwrap();
    assert!(policy_matches(&m.policy(GPU_B), &before_b));
    assert_override_mask(&m.policy(GPU_A), 1u32 << 1);
}

#[test]
fn apply_rejects_unassessed_reliability() {
    let mut m = Machine::with(vec![policy_on(GPU_A, 2, 0b1)]);
    let old = SessionFacts { reliability: ReliabilityStatus::Unassessed, ..completed_session(&topo(), GPU_A, 3) };
    let err = apply_session(&mut m, &topo(), old).unwrap_err();
    assert_eq!(err.code, "BENCHMARK_RELIABILITY_NOT_PASSED");
    assert_eq!(m.restarts, 0);
}

#[test]
fn check_apply_requires_reliability_passed() {
    let fp = cpu_fingerprint_with(&topo(), &fixed_identity());
    let adapters = vec![GPU_A.to_string()];
    let ok = completed_session(&topo(), GPU_A, 3);
    let st = check_apply_at(Some(&ok), topo().total_lp, &fp, Some(&adapters), Some(true), None);
    assert!(st.can_apply);
    assert_eq!(st.reason, None);

    let old = SessionFacts { reliability: ReliabilityStatus::Unassessed, ..completed_session(&topo(), GPU_A, 3) };
    let st = check_apply_at(Some(&old), topo().total_lp, &fp, Some(&adapters), Some(true), None);
    assert!(!st.can_apply);
    assert_eq!(st.reason.map(|c| c.as_str()), Some("BENCHMARK_RELIABILITY_NOT_PASSED"));
}

#[test]
fn shared_apply_writes_policy_and_records() {
    let mut m = Machine::with(vec![policy_on(GPU_A, 2, 0b1)]);
    let (txn, action) = apply_affinity_to_gpu(GPU_A, 3);
    run_apply(&mut m, txn, action).unwrap();
    let cur = m.policy(GPU_A);
    assert_eq!(cur.device_policy.as_dword(), Some(DEVICE_POLICY_SINGLE_PROCESSOR));
    assert_override_mask(&cur, 1u32 << 3);
    assert_eq!(m.restarts, 1);
    assert!(m.journal.is_none());
    assert!(m.record.is_some());
}

#[test]
fn shared_apply_write_failure_restores() {
    let prior = policy_on(GPU_A, 2, 0b1);
    let mut m = Machine::with(vec![prior.clone()]);
    m.fail_next_write = true;
    let (txn, action) = apply_affinity_to_gpu(GPU_A, 4);
    let err = run_apply(&mut m, txn, action).unwrap_err();
    assert_eq!(err.code, "GPU_APPLY_FAILED");
    assert!(policy_matches(&m.policy(GPU_A), &prior));
    assert!(m.journal.is_none());
}

fn manual_apply(m: &mut Machine, recovery_required: bool, topo: &Topology, lp: u32) -> Result<(), ApplyError> {
    let adapters: Vec<String> = m.policies.iter().map(|p| p.instance_id.clone()).collect();
    let started = apply_gpu_affinity_at(recovery_required, None, topo.total_lp, lp, GPU_A, Ok(adapters), Ok(true));
    match started {
        Err(code) => Err(ApplyError::clean(&code)),
        Ok((txn, action)) => run_apply(m, txn, action),
    }
}

#[test]
fn apply_gpu_affinity_success_writes_correct_mask() {
    let mut m = Machine::with(vec![policy_on(GPU_A, 2, 0b1)]);
    manual_apply(&mut m, false, &topo(), 5).unwrap();
    let cur = m.policy(GPU_A);
    assert_eq!(cur.device_policy.as_dword(), Some(DEVICE_POLICY_SINGLE_PROCESSOR));
    assert_override_mask(&cur, 1u32 << 5);
    assert!(m.journal.is_none());
    assert!(m.record.is_some());
}

#[test]
fn apply_gpu_affinity_write_failure_restores_and_clears_journal() {
    let prior = policy_on(GPU_A, 2, 0b1);
    let mut m = Machine::with(vec![prior.clone()]);
    m.fail_next_write = true;
    let err = manual_apply(&mut m, false, &topo(), 4).unwrap_err();
    assert_eq!(err.code, "GPU_APPLY_FAILED");
    assert!(policy_matches(&m.policy(GPU_A), &prior));
    assert!(m.journal.is_none());
}

#[test]
fn apply_read_back_failure_rolls_back() {
    let prior = policy_on(GPU_A, 2, 0b1);
    let mut m = Machine::with(vec![prior.clone()]);
    m.fail_read_at = Some(2);
    let (txn, action) = apply_affinity_to_gpu(GPU_A, 4);
    let err = run_apply(&mut m, txn, action).unwrap_err();
    assert_eq!(err.code, "GPU_REGISTRY_FAILED");
    assert!(policy_matches(&m.policy(GPU_A), &prior));
    assert!(m.journal.is_none(), "journal cleared after the rollback");
}

#[test]
fn apply_journal_clear_failure_rolls_back() {
    let prior = policy_on(GPU_A, 2, 0b1);
    let mut m = Machine::with(vec![prior.clone()]);
    m.fail_next_clear = true;
    let (txn, action) = apply_affinity_to_gpu(GPU_A, 4);
    let err = run_apply(&mut m, txn, action).unwrap_err();
    assert_eq!(err.code, "GPU_APPLY_FAILED");
    assert!(policy_matches(&m.policy(GPU_A), &prior));
    assert!(m.journal.is_none(), "journal cleared after the rollback");
    assert!(m.record.is_none(), "restore record of the unfinished change removed");
}

#[test]
fn apply_rollback_failure_sets_recovery_required() {
    let prior = policy_on(GPU_A, 2, 0b1);
    let mut m = Machine::with(vec![prior.clone()]);
    m.restart_fails = true;
    let err = manual_apply(&mut m, false, &topo(), 4).unwrap_err();
    assert_eq!(err.code, "GPU_RESTART_FAILED");
    let recovery_required = !err.clean;
    assert!(recovery_required, "a failed rollback raises the recovery flag");
    let j = m.journal.clone().expect("the journal stays");
    assert_eq!(j.stage, RecoveryStage::PolicyApplied, "a full restore is demanded");
    assert!(policy_matches(&m.read(GPU_A).unwrap(), &prior));
    assert_eq!(manual_apply(&mut m, recovery_required, &topo(), 3).unwrap_err().code, "BENCHMARK_RECOVERY_REQUIRED");
}

#[test]
fn apply_journal_advance_and_restore_failure_fail_closed() {
    let prior = policy_on(GPU_A, 2, 0b1);
    let mut m = Machine::with(vec![prior]);
    m.restart_fails = true;
    m.fail_next_advance = true;
    let err = manual_apply(&mut m, false, &topo(), 4).unwrap_err();
    assert_eq!(err.code, "GPU_APPLY_FAILED");
    let recovery_required = !err.clean;
    assert!(recovery_required);
    let j = m.journal.clone().unwrap();
    assert_eq!(j.stage, RecoveryStage::PolicyApplied, "the journal does not stay at SnapshotTaken");
    assert_eq!(manual_apply(&mut m, recovery_required, &topo(), 3).unwrap_err().code, "BENCHMARK_RECOVERY_REQUIRED");
}

fn dword_override_snapshot(instance: &str) -> AffinityPolicy {
    AffinityPolicy {
        instance_id: instance.to_string(),
        device_policy: RegistryValueSnapshot::dword(2),
        assignment_set_override: RegistryValueSnapshot::dword(0b1000),
    }
}

#[test]
fn lifecycle_begin_advance_clear() {
    let mut stored: Option<RecoveryJournal> = None;
    assert!(stored.is_none());

    stored = Some(RecoveryJournal::begin(&dword_override_snapshot("PCI\\DEV1"), "t0"));
    let j = stored.clone().unwrap();
    assert_eq!(j.stage, RecoveryStage::SnapshotTaken);
    assert!(policy_matches(&j.snapshot, &dword_override_snapshot("PCI\\DEV1")));
    assert_eq!(j.snapshot.instance_id, "PCI\\DEV1");

    stored = Some(advance_stage(Ok(stored), RecoveryStage::PolicyApplied, "t1").unwrap());
    assert_eq!(stored.as_ref().unwrap().stage, RecoveryStage::PolicyApplied);

    stored = None;
    assert!(stored.is_none());
    assert_eq!(advance_stage(Ok(stored), RecoveryStage::PolicyApplied, "t2").unwrap_err(), "GPU_APPLY_FAILED");
}

#[test]
fn journal_roundtrip_preserves_snapshot_bytes() {
    let snap = dword_override_snapshot("PCI\\DEV2");
    let j = RecoveryJournal::begin(&snap, "t0");
    assert_eq!(j.snapshot.device_policy.bytes, snap.device_policy.bytes);
    assert_eq!(j.snapshot.assignment_set_override.as_dword(), Some(0b1000));
    assert_eq!(j.instance_id, "PCI\\DEV2");
}

#[test]
fn list_importable_filters_by_compatibility() {
    let fp = cpu_fingerprint_with(&topo(), &fixed_identity());
    let other_topo = build_topology((0..8u32).map(|c| (vec![c * 2, c * 2 + 1], 0, true)).collect());
    let ok = completed_session(&topo(), GPU_A, 3);
    let bad_cpu = completed_session(&other_topo, GPU_A, 3);
    let bad_gpu = SessionFacts { reliability: ReliabilityStatus::Unassessed, ..completed_session(&topo(), GPU_B, 1) };
    let running = SessionFacts { status: SessionStatus::Running, best_lp: None, reliability: ReliabilityStatus::Unassessed, ..completed_session(&topo(), GPU_A, 0) };
    let no_best = SessionFacts { best_lp: None, reliability: ReliabilityStatus::Unassessed, ..completed_session(&topo(), GPU_A, 0) };
    let sessions = vec![ok, bad_cpu, bad_gpu, running, no_best];
    let ids = list_importable(&sessions, &fp, Ok(vec![GPU_A.to_string()]));
    assert!(ids.contains(&0), "a compatible completed session is importable");
    assert!(!ids.contains(&1));
    assert!(!ids.contains(&2));
    assert!(!ids.contains(&3));
    assert!(!ids.contains(&4));
}

#[test]
fn list_importable_excludes_unassessed_reliability() {
    let fp = cpu_fingerprint_with(&topo(), &fixed_identity());
    let ok = completed_session(&topo(), GPU_A, 3);
    let old = SessionFacts { reliability: ReliabilityStatus::Unassessed, ..completed_session(&topo(), GPU_A, 1) };
    let ids = list_importable(&vec![ok, old], &fp, Ok(vec![GPU_A.to_string()]));
    assert!(ids.contains(&0));
    assert!(!ids.contains(&1), "an unassessed session is not importable");
}

#[test]
fn list_importable_keeps_order_matches_adapters_case_blind_and_needs_adapters() {
    let fp = cpu_fingerprint_with(&topo(), &fixed_identity());
    let sessions = vec![
        completed_session(&topo(), GPU_A, 1),
        completed_session(&topo(), GPU_B, 2),
        completed_session(&topo(), GPU_A, 5),
    ];
    let lower = GPU_A.to_ascii_lowercase();
    assert_eq!(list_importable(&sessions, &fp, Ok(vec![lower])), vec![0, 2]);
    assert_eq!(list_importable(&sessions, &fp, Ok(vec![GPU_A.to_string(), GPU_B.to_string()])), vec![0, 1, 2]);
    assert!(list_importable(&sessions, &fp, Err("GPU_ENUM_FAILED".into())).is_empty());
    assert!(list_importable(&sessions, "other", Ok(vec![GPU_A.to_string()])).is_empty());
}

#[test]
fn rollback_never_writes_back_a_non_dword_snapshot() {
    let prior = AffinityPolicy {
        instance_id: GPU_A.to_string(),
        device_policy: RegistryValueSnapshot { present: true, value_type: Some(1), bytes: Some(vec![b'g', 0, 0, 0]) },
        assignment_set_override: RegistryValueSnapshot::binary(vec![0b1]),
    };
    let mut m = Machine::with(vec![prior]);
    m.restart_fails = true;
    let (txn, action) = apply_affinity_to_gpu(GPU_A, 4);
    let err = run_apply(&mut m, txn, action).unwrap_err();
    assert_eq!(err.code, "GPU_RESTART_FAILED");
    assert!(!err.clean, "a rollback that cannot write the snapshot back is not clean");
    assert_eq!(m.writes, 1, "only the change itself was written");
    assert_eq!(m.journal.as_ref().unwrap().stage, RecoveryStage::PolicyApplied);
}
