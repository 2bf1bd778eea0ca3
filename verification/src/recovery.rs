//! The crash-recovery journal of a policy change.
//!
//! Before the first change a journal at stage `SnapshotTaken` records the
//! exact prior policy; each change advances the stage; the journal is cleared
//! only once a restore is verified, or the new state is verified and its
//! restore record persisted. A journal found at start-up is restored by stage.
use vstd::prelude::*;
use crate::codes::{ErrorCode, code_text};
use crate::gpu::AffinityPolicy;
use crate::text::{join_path, joined};

verus! {

/// Progress of a change in flight.
#[derive(Clone, Copy, Debug, PartialEq, Eq, Structural)]
pub enum RecoveryStage {
    /// Snapshot taken, nothing written yet (a restore only verifies).
    SnapshotTaken,
    /// New policy written, device not restarted yet.
    PolicyApplied,
    /// Device restarted, not verified yet.
    DeviceRestarted,
}

/// The journal of a change in flight.
#[derive(Clone, Debug)]
pub struct RecoveryJournal {
    pub instance_id: String,
    pub stage: RecoveryStage,
    pub created_at: String,
    pub updated_at: String,
    /// The exact policy before the change (the restore target).
    pub snapshot: AffinityPolicy,
}

/// The file name of the journal under the configuration directory.
pub open spec fn recovery_file() -> Seq<char> {
    "benchmark-recovery.json"@
}

/// Path of the journal: `benchmark-recovery.json` under `config_dir`.
pub fn recovery_path(config_dir: &str) -> (p: String)
    ensures
        p@ == joined(config_dir@, recovery_file()),
{
    join_path(config_dir, "benchmark-recovery.json")
}

impl RecoveryJournal {
    /// A fresh journal at `SnapshotTaken` for `snapshot`, stamped `now`.
    pub fn begin(snapshot: &AffinityPolicy, now: &str) -> (j: Self)
        ensures
            j.instance_id@ == snapshot.instance_id@,
            j.stage == RecoveryStage::SnapshotTaken,
            j.created_at@ == now@,
            j.updated_at@ == now@,
            j.snapshot@ == snapshot@,
    {
        RecoveryJournal {
            instance_id: snapshot.instance_id.clone(),
            stage: RecoveryStage::SnapshotTaken,
            created_at: now.to_owned(),
            updated_at: now.to_owned(),
            snapshot: snapshot.duplicate(),
        }
    }

    /// The same journal moved to `stage` and restamped `now`.
    pub fn advanced_to(&self, stage: RecoveryStage, now: &str) -> (j: Self)
        ensures
            j.instance_id@ == self.instance_id@,
            j.stage == stage,
            j.created_at@ == self.created_at@,
            j.updated_at@ == now@,
            j.snapshot@ == self.snapshot@,
    {
        RecoveryJournal {
            instance_id: self.instance_id.clone(),
            stage,
            created_at: self.created_at.clone(),
            updated_at: now.to_owned(),
            snapshot: self.snapshot.duplicate(),
        }
    }

    /// A journal demanding a full restore of `snapshot` (stage
    /// `PolicyApplied`), written when a rollback could not finish cleanly.
    pub fn restore_needed(snapshot: &AffinityPolicy, now: &str) -> (j: Self)
        ensures
            j.instance_id@ == snapshot.instance_id@,
            j.stage == RecoveryStage::PolicyApplied,
            j.created_at@ == now@,
            j.updated_at@ == now@,
            j.snapshot@ == snapshot@,
    {
        RecoveryJournal {
            instance_id: snapshot.instance_id.clone(),
            stage: RecoveryStage::PolicyApplied,
            created_at: now.to_owned(),
            updated_at: now.to_owned(),
            snapshot: snapshot.duplicate(),
        }
    }
}

/// The journal a change in flight must find: a read error is passed on, and
/// a missing journal is `GPU_APPLY_FAILED` (it cannot vanish mid-change).
pub fn require_journal(loaded: Result<Option<RecoveryJournal>, String>) -> (r: Result<RecoveryJournal, String>)
    ensures
        match loaded {
            Err(m) => r matches Err(e) && e@ == m@,
            Ok(None) => r matches Err(e) && e@ == code_text(ErrorCode::GpuApplyFailed),
            Ok(Some(j)) => r matches Ok(k) && k.stage == j.stage && k.snapshot@ == j.snapshot@
                && k.instance_id@ == j.instance_id@ && k.created_at@ == j.created_at@
                && k.updated_at@ == j.updated_at@,
        },
{
    match loaded {
        Err(m) => Err(m),
        Ok(None) => Err(ErrorCode::GpuApplyFailed.as_str().to_owned()),
        Ok(Some(j)) => Ok(j),
    }
}

/// The journal to save when a change advances to `stage`: the loaded journal
/// (see [`require_journal`]) moved to `stage` and restamped `now`. A failure
/// to save it is reported as `GPU_APPLY_FAILED`.
pub fn advance_stage(loaded: Result<Option<RecoveryJournal>, String>, stage: RecoveryStage, now: &str) -> (r: Result<RecoveryJournal, String>)
    ensures
        match loaded {
            Err(m) => r matches Err(e) && e@ == m@,
            Ok(None) => r matches Err(e) && e@ == code_text(ErrorCode::GpuApplyFailed),
            Ok(Some(j)) => r matches Ok(k) && k.stage == stage && k.snapshot@ == j.snapshot@
                && k.instance_id@ == j.instance_id@ && k.created_at@ == j.created_at@
                && k.updated_at@ == now@,
        },
{
    match require_journal(loaded) {
        Err(e) => Err(e),
        Ok(j) => Ok(j.advanced_to(stage, now)),
    }
}

} // verus!
