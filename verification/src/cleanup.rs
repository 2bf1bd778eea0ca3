//! The end of every run (success, cancellation or failure): stop the run's
//! processes, restore the policy from before the run, clear the journal only
//! after that restore, then settle the session's final status.
use vstd::prelude::*;
use crate::codes::{ErrorCode, code_text};
use crate::model::SessionStatus;

verus! {

/// What the caller must do next.
#[derive(Clone, Copy, Debug, PartialEq, Eq, Structural)]
pub enum CleanupAction {
    /// Kill every process the run owns.
    StopProcesses,
    /// Write a journal demanding a full restore of the run's baseline policy.
    MarkRestoreNeeded,
    /// Write the baseline back, restart the device and verify it.
    RestoreSnapshot,
    /// Remove the journal.
    ClearJournal,
    /// Stop: [`CleanupJob::restored`] holds the result.
    Finish,
}

/// Where the cleanup stands.
#[derive(Clone, Copy, Debug, PartialEq, Eq, Structural)]
pub enum CleanupPhase {
    Stop,
    Mark,
    Restore,
    Clear,
    Finished,
}

/// The cleanup of a run.
#[derive(Clone, Copy, Debug, PartialEq, Eq, Structural)]
pub struct CleanupJob {
    /// Whether the run changed the policy (a baseline to restore exists).
    pub has_baseline: bool,
    pub phase: CleanupPhase,
    /// Whether everything was restored and the journal cleared, once finished.
    pub restored: Option<bool>,
}

/// The step of the cleanup on the outcome (`ok`) of the action it asked for.
pub open spec fn cleanup_next(j: CleanupJob, ok: bool) -> (CleanupJob, CleanupAction) {
    match j.phase {
        CleanupPhase::Stop => if j.has_baseline {
            (CleanupJob { phase: CleanupPhase::Mark, ..j }, CleanupAction::MarkRestoreNeeded)
        } else {
            (CleanupJob { phase: CleanupPhase::Clear, ..j }, CleanupAction::ClearJournal)
        },
        CleanupPhase::Mark => if ok {
            (CleanupJob { phase: CleanupPhase::Restore, ..j }, CleanupAction::RestoreSnapshot)
        } else {
            (CleanupJob { phase: CleanupPhase::Finished, restored: Some(false), ..j }, CleanupAction::Finish)
        },
        CleanupPhase::Restore => if ok {
            (CleanupJob { phase: CleanupPhase::Clear, ..j }, CleanupAction::ClearJournal)
        } else {
            (CleanupJob { phase: CleanupPhase::Finished, restored: Some(false), ..j }, CleanupAction::Finish)
        },
        CleanupPhase::Clear => (CleanupJob { phase: CleanupPhase::Finished, restored: Some(ok), ..j }, CleanupAction::Finish),
        CleanupPhase::Finished => (j, CleanupAction::Finish),
    }
}

/// The state after the outcomes `oks`, one after the other, from `j`.
pub open spec fn cleanup_run_spec(j: CleanupJob, oks: Seq<bool>) -> CleanupJob
    decreases oks.len(),
{
    if oks.len() == 0 {
        j
    } else {
        cleanup_run_spec(cleanup_next(j, oks[0]).0, oks.drop_first())
    }
}

/// Starts the cleanup of a run (`has_baseline`: the run changed the policy):
/// the first action stops the run's processes.
pub fn cleanup_run(has_baseline: bool) -> (r: (CleanupJob, CleanupAction))
    ensures
        r.0 == (CleanupJob { has_baseline, phase: CleanupPhase::Stop, restored: None }),
        r.1 == CleanupAction::StopProcesses,
{
    (CleanupJob { has_baseline, phase: CleanupPhase::Stop, restored: None }, CleanupAction::StopProcesses)
}

impl CleanupJob {
    /// Takes the outcome of the last action and returns the next one (see
    /// [`cleanup_next`]).
    pub fn advance(&mut self, ok: bool) -> (a: CleanupAction)
        ensures
            (*final(self), a) == cleanup_next(*old(self), ok),
    {
        match self.phase {
            CleanupPhase::Stop => if self.has_baseline {
                self.phase = CleanupPhase::Mark;
                CleanupAction::MarkRestoreNeeded
            } else {
                self.phase = CleanupPhase::Clear;
                CleanupAction::ClearJournal
            },
            CleanupPhase::Mark => if ok {
                self.phase = CleanupPhase::Restore;
                CleanupAction::RestoreSnapshot
            } else {
                self.phase = CleanupPhase::Finished;
                self.restored = Some(false);
                CleanupAction::Finish
            },
            CleanupPhase::Restore => if ok {
                self.phase = CleanupPhase::Clear;
                CleanupAction::ClearJournal
            } else {
                self.phase = CleanupPhase::Finished;
                self.restored = Some(false);
                CleanupAction::Finish
            },
            CleanupPhase::Clear => {
                self.phase = CleanupPhase::Finished;
                self.restored = Some(ok);
                CleanupAction::Finish
            },
            CleanupPhase::Finished => CleanupAction::Finish,
        }
    }
}

/// Law: a cleanup counts as restored exactly when the journal was cleared and,
/// for a run that changed the policy, the full-restore journal was written and
/// the baseline restored before that; the journal is never cleared after a
/// failed restore.
pub proof fn law_cleanup_restored_iff_all_succeeded(has_baseline: bool, oks: Seq<bool>)
    requires
        oks.len() >= 4,
    ensures
        ({
            let end = cleanup_run_spec(CleanupJob { has_baseline, phase: CleanupPhase::Stop, restored: None }, oks);
            &&& end.phase == CleanupPhase::Finished
            &&& end.restored == Some(if has_baseline { oks[1] && oks[2] && oks[3] } else { oks[1] })
        }),
{
    let j0 = CleanupJob { has_baseline, phase: CleanupPhase::Stop, restored: None };
    let j1 = cleanup_next(j0, oks[0]).0;
    let r1 = oks.drop_first();
    let j2 = cleanup_next(j1, r1[0]).0;
    let r2 = r1.drop_first();
    let j3 = cleanup_next(j2, r2[0]).0;
    let r3 = r2.drop_first();
    let j4 = cleanup_next(j3, r3[0]).0;
    let r4 = r3.drop_first();
    assert(cleanup_run_spec(j0, oks) == cleanup_run_spec(j1, r1));
    assert(cleanup_run_spec(j1, r1) == cleanup_run_spec(j2, r2));
    assert(cleanup_run_spec(j2, r2) == cleanup_run_spec(j3, r3));
    assert(cleanup_run_spec(j3, r3) == cleanup_run_spec(j4, r4));
    lemma_cleanup_finished_is_final(j4, r4);
    if j2.phase == CleanupPhase::Finished {
        lemma_cleanup_finished_is_final(j2, r2);
    }
    if j3.phase == CleanupPhase::Finished {
        lemma_cleanup_finished_is_final(j3, r3);
    }
}

/// A finished cleanup stays as it is.
proof fn lemma_cleanup_finished_is_final(j: CleanupJob, oks: Seq<bool>)
    requires
        j.phase == CleanupPhase::Finished,
    ensures
        cleanup_run_spec(j, oks) == j,
    decreases oks.len(),
{
    if oks.len() > 0 {
        lemma_cleanup_finished_is_final(cleanup_next(j, oks[0]).0, oks.drop_first());
    }
}

/// The status and error of a run once cleaned up: a cleanup that did not
/// restore everything fails the run with `BENCHMARK_RECOVERY_REQUIRED`;
/// otherwise they stay as they are.
pub fn terminal_status(status: SessionStatus, error: Option<String>, restored: bool) -> (r: (SessionStatus, Option<String>))
    ensures
        !restored ==> r.0 == SessionStatus::Failed && (r.1 matches Some(e) && e@ == code_text(ErrorCode::BenchmarkRecoveryRequired)),
        restored ==> r.0 == status && r.1 == error,
{
    if restored {
        (status, error)
    } else {
        (SessionStatus::Failed, Some(ErrorCode::BenchmarkRecoveryRequired.as_str().to_owned()))
    }
}

/// The final status, error and capture-integrity flag of a session after its
/// final save: integrity passes only for a completed run, and a failed save
/// fails the run with `BENCHMARK_STORAGE_FAILED`.
pub fn settle_after_save(status: SessionStatus, error: Option<String>, saved: bool) -> (r: (SessionStatus, Option<String>, bool))
    ensures
        saved ==> r.0 == status && r.1 == error && r.2 == (status == SessionStatus::Completed),
        !saved ==> r.0 == SessionStatus::Failed && (r.1 matches Some(e) && e@ == code_text(ErrorCode::BenchmarkStorageFailed))
            && !r.2,
{
    if saved {
        let passed = status == SessionStatus::Completed;
        (status, error, passed)
    } else {
        (SessionStatus::Failed, Some(ErrorCode::BenchmarkStorageFailed.as_str().to_owned()), false)
    }
}

} // verus!
