use frameanchor::apply::{ApplyAction, ApplyError, ApplyEvent, ApplyTxn};
use frameanchor::codes::ErrorCode;
use frameanchor::core_apply::{apply_core_at, tested_target, QuickFacts, QuickSessionFacts, SessionChoice};
use frameanchor::fingerprint::cpu_fingerprint_with;
use frameanchor::gpu::{AffinityPolicy, RegistryValueSnapshot};
use frameanchor::model::{CpuIdentity, SessionStatus};
use frameanchor::physical::{CoreTarget, RankingStatus, METHOD_VERSION};
use frameanchor::recovery::{advance_stage, RecoveryJournal};
use frameanchor::topology::{build_topology, Topology};

const GPU_A: &str = r"PCI\VEN_FAKE&DEV_1";

fn le_trimmed(v: u32) -> Vec<u8> {
    let b = v.to_le_bytes();
    let mut len = b.len();
    while len > 0 && b[len - 1] == 0 {
        len -= 1;
    }
    b[..len].to_vec()
}

fn policy_on(instance: &str, device_policy: u32, override_mask: u32) -> AffinityPolicy {
    AffinityPolicy {
        instance_id: instance.to_string(),
        device_policy: RegistryValueSnapshot::dword(device_policy),
        assignment_set_override: RegistryValueSnapshot::binary(le_trimmed(override_mask)),
    }
}

fn fixed_identity() -> CpuIdentity {
    CpuIdentity { architecture: 9, family: 6, model: 183, stepping: 1 }
}

/// Two P-cores with SMT siblings and one E-core.
fn hybrid() -> Topology {
    build_topology(vec![(vec![0, 1], 1, true), (vec![2, 3], 1, true), (vec![4], 0, false)])
}

fn target(core_id: u32, lps: &[u32]) -> CoreTarget {
    CoreTarget { core_id, lp_indices: lps.to_vec() }
}

/// A scripted back end and journal: one-shot and permanent faults.
#[derive(Default)]
struct World {
    policy: Option<AffinityPolicy>,
    journal: Option<RecoveryJournal>,
    record: Option<AffinityPolicy>,
    fail_next_write: bool,
    fail_next_restart: bool,
    restart_always_fails: bool,
    fail_nth_read: Option<u32>,
    mismatch_nth_read: Option<u32>,
    fail_next_clear: bool,
    reads: u32,
}

impl World {
    fn restart(&mut self) -> bool {
        if self.restart_always_fails {
            return false;
        }
        if self.fail_next_restart {
            self.fail_next_restart = false;
            return false;
        }
        true
    }
}

fn drive(w: &mut World, mut txn: ApplyTxn, mut action: ApplyAction) -> Result<(), ApplyError> {
    loop {
        let event = match action {
            ApplyAction::Finish => return txn.outcome.clone().unwrap(),
            ApplyAction::ReadPolicy => {
                w.reads += 1;
                if w.fail_nth_read == Some(w.reads) {
                    ApplyEvent::Failed("GPU_REGISTRY_FAILED".into())
                } else {
                    let mut p = w.policy.clone().unwrap();
                    if w.mismatch_nth_read == Some(w.reads) {
                        p.assignment_set_override = RegistryValueSnapshot::binary(vec![0x80]);
                    }
                    ApplyEvent::PolicyRead(p)
                }
            }
            ApplyAction::BeginJournal => {
                w.journal = Some(RecoveryJournal::begin(txn.snapshot.as_ref().unwrap(), "t0"));
                ApplyEvent::Succeeded
            }
            ApplyAction::WritePolicy => {
                if w.fail_next_write {
                    w.fail_next_write = false;
                    ApplyEvent::Failed("GPU_REGISTRY_FAILED".into())
                } else {
                    w.policy = Some(txn.requested_policy());
                    ApplyEvent::Succeeded
                }
            }
            ApplyAction::AdvanceJournal(stage) => match advance_stage(Ok(w.journal.clone()), stage, "t1") {
                Ok(j) => {
                    w.journal = Some(j);
                    ApplyEvent::Succeeded
                }
                Err(e) => ApplyEvent::Failed(e),
            },
            ApplyAction::RestartDevice => {
                if w.restart() {
                    ApplyEvent::Succeeded
                } else {
                    ApplyEvent::Failed("GPU_RESTART_FAILED".into())
                }
            }
            ApplyAction::WriteRestoreRecord => {
                w.record = txn.snapshot.clone();
                ApplyEvent::Succeeded
            }
            ApplyAction::ClearJournal => {
                if w.fail_next_clear {
                    w.fail_next_clear = false;
                    ApplyEvent::Failed("locked".into())
                } else {
                    w.journal = None;
                    ApplyEvent::Succeeded
                }
            }
            ApplyAction::RestoreSnapshot => {
                let snap = txn.snapshot.clone().unwrap();
                w.policy = Some(snap);
                if w.restart() {
                    ApplyEvent::Succeeded
                } else {
                    ApplyEvent::Failed("GPU_RESTORE_FAILED".into())
                }
            }
            ApplyAction::ClearRestoreRecord => {
                w.record = None;
                ApplyEvent::Succeeded
            }
            ApplyAction::MarkRestoreNeeded => {
                w.journal = Some(RecoveryJournal::restore_needed(txn.snapshot.as_ref().unwrap(), "t2"));
                ApplyEvent::Succeeded
            }
        };
        action = txn.advance(event);
    }
}

#[test]
fn physical_core_apply_rolls_back_faults_and_preserves_pending_recovery() {
    for mode in ["write", "restart", "read", "mismatch", "clear", "restore", "missing"] {
        let baseline = policy_on(GPU_A, 4, 4);
        let mut w = World { policy: Some(baseline.clone()), ..Default::default() };
        match mode {
            "write" => w.fail_next_write = true,
            "restart" => w.fail_next_restart = true,
            "read" => w.fail_nth_read = Some(2),
            "mismatch" => w.mismatch_nth_read = Some(2),
            "clear" => w.fail_next_clear = true,
            "restore" => w.restart_always_fails = true,
            _ => {}
        }
        let topo = build_topology(vec![(vec![0, 1], 1, true), (vec![2], 0, false)]);
        let adapters = if mode == "missing" { vec![] } else { vec![GPU_A.to_string()] };
        let result = match apply_core_at(false, None, &topo, &fixed_identity(), GPU_A, 0, Ok(adapters), Ok(true)) {
            Err(code) => Err(ApplyError::clean(&code)),
            Ok((txn, action, t)) => {
                assert_eq!(t, target(0, &[0, 1]), "{mode}");
                assert_eq!(txn.override_bytes, vec![0b11], "{mode}");
                drive(&mut w, txn, action)
            }
        };
        let err = result.expect_err(mode);
        assert!(frameanchor::gpu::policy_matches(w.policy.as_ref().unwrap(), &baseline), "{mode}");
        if mode == "restore" {
            assert!(w.journal.is_some(), "{mode}");
            assert!(!err.clean, "{mode}");
        } else {
            assert!(w.journal.is_none(), "{mode}");
            assert!(err.clean, "{mode}");
        }
        if mode == "missing" {
            assert_eq!(err.code, "GPU_NOT_FOUND");
        }
    }
}

#[test]
fn physical_core_apply_pins_whole_core_and_keeps_record() {
    let mut w = World { policy: Some(policy_on(GPU_A, 5, 0)), ..Default::default() };
    let (txn, action, t) =
        apply_core_at(false, None, &hybrid(), &fixed_identity(), GPU_A, 1, Ok(vec![GPU_A.into()]), Ok(true)).unwrap();
    assert_eq!(t, target(1, &[2, 3]));
    drive(&mut w, txn, action).unwrap();
    assert!(frameanchor::gpu::policy_matches(w.policy.as_ref().unwrap(), &policy_on(GPU_A, 4, 0b1100)));
    assert!(w.journal.is_none());
    assert!(w.record.is_some());
}

#[test]
fn physical_core_apply_refusals_come_in_order() {
    let topo = hybrid();
    let id = fixed_identity();
    let ok_adapters = || Ok(vec![GPU_A.to_string()]);
    let code = |r: Result<(ApplyTxn, ApplyAction, CoreTarget), String>| r.err().unwrap();
    assert_eq!(
        code(apply_core_at(true, None, &topo, &id, GPU_A, 0, ok_adapters(), Ok(true))),
        ErrorCode::BenchmarkRecoveryRequired.as_str()
    );
    // The E-core is no candidate on a hybrid part.
    assert_eq!(
        code(apply_core_at(false, None, &topo, &id, GPU_A, 2, ok_adapters(), Ok(true))),
        ErrorCode::BenchmarkSessionIncompatible.as_str()
    );
    assert_eq!(
        code(apply_core_at(false, None, &topo, &id, GPU_A, 0, Err("GPU_REGISTRY_FAILED".into()), Ok(true))),
        "GPU_REGISTRY_FAILED"
    );
    assert_eq!(
        code(apply_core_at(false, None, &topo, &id, GPU_A, 0, ok_adapters(), Ok(false))),
        ErrorCode::GpuBasicDisplayDisabled.as_str()
    );
}

fn sound_session(topo: &Topology) -> QuickSessionFacts {
    QuickSessionFacts {
        id: "s1".into(),
        gpu_instance_id: GPU_A.into(),
        status: SessionStatus::Completed,
        has_error: false,
        config_method_version: METHOD_VERSION,
        candidate_core_ids: vec![],
        integrity_passed: true,
        environment_passed: true,
        cpu_fingerprint: cpu_fingerprint_with(topo, &fixed_identity()),
        quick: Some(QuickFacts {
            method_version: METHOD_VERSION,
            status: RankingStatus::Consistent,
            candidates: vec![target(0, &[0, 1]), target(1, &[2, 3])],
        }),
    }
}

#[test]
fn tested_target_allows_only_retested_cores_of_a_sound_session() {
    let topo = hybrid();
    let id = fixed_identity();
    let f = sound_session(&topo);
    let retest = vec![target(1, &[2, 3]), target(0, &[0, 1])];
    assert_eq!(tested_target(&f, &topo, &id, 1, RankingStatus::Consistent, &retest), Ok(target(1, &[2, 3])));
    assert_eq!(tested_target(&f, &topo, &id, 0, RankingStatus::Consistent, &retest), Ok(target(0, &[0, 1])));
    let incompatible = Err(ErrorCode::BenchmarkSessionIncompatible);
    // A core that was not retested.
    assert_eq!(tested_target(&f, &topo, &id, 2, RankingStatus::Consistent, &retest), incompatible);
    // The recomputed verdict differs from the stored one.
    assert_eq!(tested_target(&f, &topo, &id, 1, RankingStatus::Reversed, &retest), incompatible);
    // A retest list of the wrong length or with a repeated core.
    assert_eq!(tested_target(&f, &topo, &id, 1, RankingStatus::Consistent, &retest[..1].to_vec()), incompatible);
    let repeated = vec![target(1, &[2, 3]), target(1, &[2, 3])];
    assert_eq!(tested_target(&f, &topo, &id, 1, RankingStatus::Consistent, &repeated), incompatible);
    // Another machine's fingerprint, an unfinished or insufficient session.
    let mut other = sound_session(&topo);
    other.cpu_fingerprint = "0".repeat(64);
    assert_eq!(tested_target(&other, &topo, &id, 1, RankingStatus::Consistent, &retest), incompatible);
    let mut failed = sound_session(&topo);
    failed.status = SessionStatus::Failed;
    assert_eq!(tested_target(&failed, &topo, &id, 1, RankingStatus::Consistent, &retest), incompatible);
    let mut insufficient = sound_session(&topo);
    insufficient.quick.as_mut().unwrap().status = RankingStatus::Insufficient;
    assert_eq!(
        tested_target(&insufficient, &topo, &id, 1, RankingStatus::Insufficient, &retest),
        incompatible
    );
    // The candidates changed since the test ran.
    let mut changed = sound_session(&topo);
    changed.quick.as_mut().unwrap().candidates = vec![target(0, &[0, 1])];
    assert_eq!(tested_target(&changed, &topo, &id, 1, RankingStatus::Consistent, &retest), incompatible);
    // A selection error is passed on.
    let mut unknown = sound_session(&topo);
    unknown.candidate_core_ids = vec![7];
    assert_eq!(tested_target(&unknown, &topo, &id, 1, RankingStatus::Consistent, &retest), incompatible);
    let mut twice = sound_session(&topo);
    twice.candidate_core_ids = vec![0, 0];
    assert_eq!(
        tested_target(&twice, &topo, &id, 1, RankingStatus::Consistent, &retest),
        Err(ErrorCode::BenchmarkInvalidConfig)
    );
}

#[test]
fn session_apply_checks_id_and_adapter_before_the_target() {
    let topo = hybrid();
    let id = fixed_identity();
    let retest = vec![target(1, &[2, 3]), target(0, &[0, 1])];
    let choice = |requested: &str, instance: &str| SessionChoice {
        id: requested.into(),
        loaded: Ok(QuickSessionFacts { gpu_instance_id: instance.into(), ..sound_session(&topo) }),
        assessed: RankingStatus::Consistent,
        retest: retest.clone(),
    };
    let ok = apply_core_at(false, Some(choice("s1", &GPU_A.to_lowercase())), &topo, &id, GPU_A, 1, Ok(vec![GPU_A.into()]), Ok(true));
    let (txn, _, t) = ok.unwrap();
    assert_eq!(t, target(1, &[2, 3]));
    assert_eq!(txn.override_bytes, vec![0b1100]);
    let wrong_id = apply_core_at(false, Some(choice("s2", GPU_A)), &topo, &id, GPU_A, 1, Ok(vec![GPU_A.into()]), Ok(true));
    assert_eq!(wrong_id.err().unwrap(), ErrorCode::BenchmarkSessionIncompatible.as_str());
    let wrong_gpu = apply_core_at(false, Some(choice("s1", "PCI\\OTHER")), &topo, &id, GPU_A, 1, Ok(vec![GPU_A.into()]), Ok(true));
    assert_eq!(wrong_gpu.err().unwrap(), ErrorCode::BenchmarkSessionIncompatible.as_str());
    let unreadable = SessionChoice {
        id: "s1".into(),
        loaded: Err("BENCHMARK_SESSION_NOT_FOUND".into()),
        assessed: RankingStatus::Consistent,
        retest,
    };
    let r = apply_core_at(false, Some(unreadable), &topo, &id, GPU_A, 1, Ok(vec![GPU_A.into()]), Ok(true));
    assert_eq!(r.err().unwrap(), "BENCHMARK_SESSION_NOT_FOUND");
}
