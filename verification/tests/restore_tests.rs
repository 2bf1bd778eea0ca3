use frameanchor::apply::ApplyEvent;
use frameanchor::gpu::{policy_matches, AffinityPolicy, RegistryValueSnapshot};
use frameanchor::recovery::RecoveryJournal;
use frameanchor::restore::{restore_previous_at, PreviousPlan, PreviousStep, RestoreAction};

const GPU_A: &str = r"PCI\VEN_FAKE&DEV_1";

fn policy_on(instance: &str, device_policy: u32, bytes: Vec<u8>) -> AffinityPolicy {
    AffinityPolicy {
        instance_id: instance.to_string(),
        device_policy: RegistryValueSnapshot::dword(device_policy),
        assignment_set_override: RegistryValueSnapshot::binary(bytes),
    }
}

/// The manager's files and registry, with a one-shot restart fault.
#[derive(Default)]
struct World {
    policy: Option<AffinityPolicy>,
    journal: Option<RecoveryJournal>,
    record: Option<AffinityPolicy>,
    applied: bool,
    recovery_required: bool,
    fail_next_restart: bool,
}

impl World {
    fn restore(&mut self, snapshot: &AffinityPolicy) -> ApplyEvent {
        self.policy = Some(snapshot.clone());
        if self.fail_next_restart {
            self.fail_next_restart = false;
            return ApplyEvent::Failed("GPU_RESTART_FAILED".into());
        }
        ApplyEvent::Succeeded
    }

    fn restore_previous(&mut self) -> Result<(), String> {
        match restore_previous_at(self.recovery_required, Ok(self.journal.clone()), Ok(self.record.clone())) {
            PreviousPlan::Refused(code) => Err(code),
            PreviousPlan::Recover(mut job, mut action) => loop {
                let event = match action {
                    RestoreAction::Finish => {
                        let r = job.outcome.clone().unwrap();
                        if r.is_ok() {
                            self.recovery_required = false;
                        }
                        return r;
                    }
                    RestoreAction::ReadPolicy => ApplyEvent::PolicyRead(self.policy.clone().unwrap()),
                    RestoreAction::RestoreSnapshot => {
                        let snap = job.snapshot.clone().unwrap();
                        self.restore(&snap)
                    }
                    RestoreAction::ClearJournal => {
                        self.journal = None;
                        ApplyEvent::Succeeded
                    }
                    RestoreAction::ClearRestoreRecord => {
                        self.record = None;
                        ApplyEvent::Succeeded
                    }
                };
                action = job.advance(event);
            },
            PreviousPlan::Restore(mut job, mut step) => loop {
                let event = match step {
                    PreviousStep::Finish => {
                        if job.raise_recovery {
                            self.recovery_required = true;
                        }
                        return job.outcome.clone().unwrap();
                    }
                    PreviousStep::MarkRestoreNeeded => {
                        self.journal = Some(RecoveryJournal::restore_needed(&job.snapshot, "t0"));
                        ApplyEvent::Succeeded
                    }
                    PreviousStep::RestoreSnapshot => {
                        let snap = job.snapshot.clone();
                        self.restore(&snap)
                    }
                    PreviousStep::ClearRestoreRecord => {
                        self.record = None;
                        ApplyEvent::Succeeded
                    }
                    PreviousStep::ClearJournal => {
                        self.journal = None;
                        ApplyEvent::Succeeded
                    }
                    PreviousStep::RemoveAppliedRecord => {
                        self.applied = false;
                        ApplyEvent::Succeeded
                    }
                };
                step = job.advance(event);
            },
        }
    }
}

#[test]
fn legacy_gpu_restore_remains_valid_and_is_journaled_on_failure() {
    // An arbitrary multi-LP policy, not a candidate of any topology here.
    let previous_policy = policy_on(GPU_A, 4, vec![0x84]);
    let mut w = World {
        policy: Some(policy_on(GPU_A, 4, vec![0x01])),
        record: Some(previous_policy.clone()),
        applied: true,
        fail_next_restart: true,
        ..Default::default()
    };
    assert!(w.restore_previous().is_err());
    assert!(w.journal.is_some());
    assert!(w.record.is_some());
    assert!(w.recovery_required);
    w.restore_previous().unwrap();
    assert!(policy_matches(w.policy.as_ref().unwrap(), &previous_policy));
    assert!(w.journal.is_none());
    assert!(!w.recovery_required);
}

#[test]
fn journaled_restore_clears_record_journal_and_applied_record() {
    let previous_policy = policy_on(GPU_A, 5, vec![]);
    let mut w = World {
        policy: Some(policy_on(GPU_A, 4, vec![0x04])),
        record: Some(previous_policy.clone()),
        applied: true,
        ..Default::default()
    };
    w.restore_previous().unwrap();
    assert!(policy_matches(w.policy.as_ref().unwrap(), &previous_policy));
    assert!(w.journal.is_none() && w.record.is_none() && !w.applied && !w.recovery_required);
}

#[test]
fn restore_previous_refusals() {
    let mut w = World { recovery_required: true, ..Default::default() };
    assert_eq!(w.restore_previous().unwrap_err(), "BENCHMARK_RECOVERY_REQUIRED");
    let mut w = World::default();
    assert_eq!(w.restore_previous().unwrap_err(), "GPU_RESTORE_FAILED");
    match restore_previous_at(false, Ok(None), Err("parse".into())) {
        PreviousPlan::Refused(c) => assert_eq!(c, "parse"),
        _ => panic!("expected a refusal"),
    }
}
