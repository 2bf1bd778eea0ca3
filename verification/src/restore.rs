//! Restoring a saved policy: start-up recovery from the journal, and the
//! one-level "restore previous" from the restore record.
//!
//! Both are state machines driven as the change transaction is: the caller
//! performs the action asked for and hands back an [`ApplyEvent`].
use vstd::prelude::*;
use crate::apply::{
    ApplyEvent, ApplyPhase, EventView, apply_next, apply_run, apply_start, event_code, law_apply_finished_is_final,
    lemma_apply_snapshot_kept, apply_steps, record_after, law_apply_success_replaces_record,
};
use crate::codes::{ErrorCode, code_text};
use crate::gpu::{AffinityPolicy, PolicyView, spec_policy_matches, spec_restorable, policy_matches};
use crate::recovery::{RecoveryJournal, RecoveryStage};

verus! {

/// Where a restore stands.
#[derive(Clone, Copy, Debug, PartialEq, Eq, Structural)]
pub enum RestorePhase {
    /// Reading the current policy to check it still equals the snapshot.
    Verify,
    /// Writing the snapshot back (with restart and verification).
    Restore,
    /// Removing the journal or the restore record.
    Clear,
    /// Done; the outcome is set.
    Finished,
}

/// What the caller must do next.
#[derive(Clone, Copy, Debug, PartialEq, Eq, Structural)]
pub enum RestoreAction {
    /// Read the adapter's policy.
    ReadPolicy,
    /// Write the snapshot back, restart the device and verify it.
    RestoreSnapshot,
    /// Remove the journal.
    ClearJournal,
    /// Remove the restore record.
    ClearRestoreRecord,
    /// Stop: the outcome is set.
    Finish,
}

/// A restore in flight.
#[derive(Clone, Debug)]
pub struct RestoreJob {
    /// The policy to restore (or to find unchanged).
    pub snapshot: Option<AffinityPolicy>,
    /// Whether the journal (true) or the restore record (false) is removed.
    pub clears_journal: bool,
    pub phase: RestorePhase,
    pub outcome: Option<Result<(), String>>,
}

/// The mathematical value of a restore.
pub struct RestoreView {
    pub snapshot: Option<PolicyView>,
    pub clears_journal: bool,
    pub phase: RestorePhase,
    pub outcome: Option<Result<(), Seq<char>>>,
}

impl View for RestoreJob {
    type V = RestoreView;

    open spec fn view(&self) -> RestoreView {
        RestoreView {
            snapshot: match self.snapshot {
                Some(p) => Some(p@),
                None => None,
            },
            clears_journal: self.clears_journal,
            phase: self.phase,
            outcome: match self.outcome {
                Some(Ok(())) => Some(Ok(())),
                Some(Err(m)) => Some(Err(m@)),
                None => None,
            },
        }
    }
}

/// The removal a restore ends with.
pub open spec fn clear_action(t: RestoreView) -> RestoreAction {
    if t.clears_journal {
        RestoreAction::ClearJournal
    } else {
        RestoreAction::ClearRestoreRecord
    }
}

/// The restore finished with `outcome`.
pub open spec fn restore_finish(t: RestoreView, outcome: Result<(), Seq<char>>) -> (RestoreView, RestoreAction) {
    (RestoreView { phase: RestorePhase::Finished, outcome: Some(outcome), ..t }, RestoreAction::Finish)
}

/// The transition of a restore on the outcome of the action it asked for.
pub open spec fn restore_next(t: RestoreView, e: EventView) -> (RestoreView, RestoreAction) {
    match t.phase {
        RestorePhase::Verify => match e {
            EventView::PolicyRead(p) => if t.snapshot matches Some(s) && spec_policy_matches(s, p) {
                (RestoreView { phase: RestorePhase::Clear, ..t }, clear_action(t))
            } else {
                restore_finish(t, Err(code_text(ErrorCode::GpuRestoreFailed)))
            },
            _ => restore_finish(t, Err(event_code(e))),
        },
        RestorePhase::Restore => if e is Succeeded {
            (RestoreView { phase: RestorePhase::Clear, ..t }, clear_action(t))
        } else {
            restore_finish(t, Err(event_code(e)))
        },
        RestorePhase::Clear => if e is Succeeded {
            restore_finish(t, Ok(()))
        } else {
            restore_finish(t, Err(event_code(e)))
        },
        RestorePhase::Finished => (t, RestoreAction::Finish),
    }
}

/// The state after the events `evs`, one after the other, from `t`.
pub open spec fn restore_run(t: RestoreView, evs: Seq<EventView>) -> RestoreView
    decreases evs.len(),
{
    if evs.len() == 0 {
        t
    } else {
        restore_run(restore_next(t, evs[0]).0, evs.drop_first())
    }
}

/// How start-up recovery begins on what was loaded from the journal path: a
/// load error is the outcome; no journal is success at once; a journal at
/// `SnapshotTaken` (nothing written) is only verified; a later stage is
/// restored, unless its snapshot may not be written back
/// (`GPU_RESTORE_FAILED`, nothing written).
pub open spec fn startup_start(loaded: Result<Option<(RecoveryStage, PolicyView)>, Seq<char>>) -> (RestoreView, RestoreAction) {
    let t = RestoreView { snapshot: None, clears_journal: true, phase: RestorePhase::Finished, outcome: None };
    match loaded {
        Err(m) => restore_finish(t, Err(m)),
        Ok(None) => restore_finish(t, Ok(())),
        Ok(Some((stage, snap))) => if stage == RecoveryStage::SnapshotTaken {
            (RestoreView { snapshot: Some(snap), phase: RestorePhase::Verify, ..t }, RestoreAction::ReadPolicy)
        } else if spec_restorable(snap) {
            (RestoreView { snapshot: Some(snap), phase: RestorePhase::Restore, ..t }, RestoreAction::RestoreSnapshot)
        } else {
            restore_finish(RestoreView { snapshot: Some(snap), ..t }, Err(code_text(ErrorCode::GpuRestoreFailed)))
        },
    }
}

/// The stage and snapshot of a loaded journal.
pub open spec fn journal_view(loaded: Result<Option<RecoveryJournal>, String>) -> Result<Option<(RecoveryStage, PolicyView)>, Seq<char>> {
    match loaded {
        Err(m) => Err(m@),
        Ok(None) => Ok(None),
        Ok(Some(j)) => Ok(Some((j.stage, j.snapshot@))),
    }
}

/// Starts the recovery run at start-up on what was loaded from the journal
/// path (see [`startup_start`]).
pub fn attempt_startup_recovery(loaded: Result<Option<RecoveryJournal>, String>) -> (r: (RestoreJob, RestoreAction))
    ensures
        (r.0@, r.1) == startup_start(journal_view(loaded)),
{
    let mut t = RestoreJob { snapshot: None, clears_journal: true, phase: RestorePhase::Finished, outcome: None };
    match loaded {
        Err(m) => {
            t.outcome = Some(Err(m));
            (t, RestoreAction::Finish)
        },
        Ok(None) => {
            t.outcome = Some(Ok(()));
            (t, RestoreAction::Finish)
        },
        Ok(Some(j)) => {
            let verify_only = j.stage == RecoveryStage::SnapshotTaken;
            let restorable = j.snapshot.restorable();
            t.snapshot = Some(j.snapshot);
            if verify_only {
                t.phase = RestorePhase::Verify;
                (t, RestoreAction::ReadPolicy)
            } else if restorable {
                t.phase = RestorePhase::Restore;
                (t, RestoreAction::RestoreSnapshot)
            } else {
                t.outcome = Some(Err(ErrorCode::GpuRestoreFailed.as_str().to_owned()));
                (t, RestoreAction::Finish)
            }
        },
    }
}

/// How "restore previous" begins on what was loaded from the restore record:
/// a load error is the outcome; no record, or one that may not be written
/// back, is `GPU_RESTORE_FAILED`; a record is restored, then removed.
pub open spec fn previous_start(loaded: Result<Option<PolicyView>, Seq<char>>) -> (RestoreView, RestoreAction) {
    let t = RestoreView { snapshot: None, clears_journal: false, phase: RestorePhase::Finished, outcome: None };
    match loaded {
        Err(m) => restore_finish(t, Err(m)),
        Ok(None) => restore_finish(t, Err(code_text(ErrorCode::GpuRestoreFailed))),
        Ok(Some(snap)) => if spec_restorable(snap) {
            (RestoreView { snapshot: Some(snap), phase: RestorePhase::Restore, ..t }, RestoreAction::RestoreSnapshot)
        } else {
            restore_finish(RestoreView { snapshot: Some(snap), ..t }, Err(code_text(ErrorCode::GpuRestoreFailed)))
        },
    }
}

/// The policy of a loaded restore record.
pub open spec fn record_view(loaded: Result<Option<AffinityPolicy>, String>) -> Result<Option<PolicyView>, Seq<char>> {
    match loaded {
        Err(m) => Err(m@),
        Ok(None) => Ok(None),
        Ok(Some(p)) => Ok(Some(p@)),
    }
}

/// Starts restoring the policy saved before the last successful change, on
/// what was loaded from the restore record (see [`previous_start`]).
pub fn restore_previous_affinity(loaded: Result<Option<AffinityPolicy>, String>) -> (r: (RestoreJob, RestoreAction))
    ensures
        (r.0@, r.1) == previous_start(record_view(loaded)),
{
    let mut t = RestoreJob { snapshot: None, clears_journal: false, phase: RestorePhase::Finished, outcome: None };
    match loaded {
        Err(m) => {
            t.outcome = Some(Err(m));
            (t, RestoreAction::Finish)
        },
        Ok(None) => {
            t.outcome = Some(Err(ErrorCode::GpuRestoreFailed.as_str().to_owned()));
            (t, RestoreAction::Finish)
        },
        Ok(Some(p)) => {
            let restorable = p.restorable();
            t.snapshot = Some(p);
            if restorable {
                t.phase = RestorePhase::Restore;
                (t, RestoreAction::RestoreSnapshot)
            } else {
                t.outcome = Some(Err(ErrorCode::GpuRestoreFailed.as_str().to_owned()));
                (t, RestoreAction::Finish)
            }
        },
    }
}

impl RestoreJob {
    /// The removal this restore ends with.
    fn clear_step(&self) -> (a: RestoreAction)
        ensures
            a == clear_action(self@),
    {
        if self.clears_journal {
            RestoreAction::ClearJournal
        } else {
            RestoreAction::ClearRestoreRecord
        }
    }

    /// Takes the outcome of the last action and returns the next one (see
    /// [`restore_next`]).
    pub fn advance(&mut self, event: ApplyEvent) -> (a: RestoreAction)
        ensures
            (final(self)@, a) == restore_next(old(self)@, event@),
    {
        let ok = match &event {
            ApplyEvent::Succeeded => true,
            _ => false,
        };
        let code: String = match &event {
            ApplyEvent::Failed(c) => c.clone(),
            _ => ErrorCode::GpuApplyFailed.as_str().to_owned(),
        };
        match self.phase {
            RestorePhase::Verify => match event {
                ApplyEvent::PolicyRead(p) => {
                    let same = match &self.snapshot {
                        Some(s) => policy_matches(s, &p),
                        None => false,
                    };
                    if same {
                        self.phase = RestorePhase::Clear;
                        self.clear_step()
                    } else {
                        self.phase = RestorePhase::Finished;
                        self.outcome = Some(Err(ErrorCode::GpuRestoreFailed.as_str().to_owned()));
                        RestoreAction::Finish
                    }
                },
                _ => {
                    self.phase = RestorePhase::Finished;
                    self.outcome = Some(Err(code));
                    RestoreAction::Finish
                },
            },
            RestorePhase::Restore => if ok {
                self.phase = RestorePhase::Clear;
                self.clear_step()
            } else {
                self.phase = RestorePhase::Finished;
                self.outcome = Some(Err(code));
                RestoreAction::Finish
            },
            RestorePhase::Clear => {
                self.phase = RestorePhase::Finished;
                self.outcome = Some(if ok { Ok(()) } else { Err(code) });
                RestoreAction::Finish
            },
            RestorePhase::Finished => RestoreAction::Finish,
        }
    }
}

/// A finished restore stays as it is, whatever comes.
pub proof fn law_restore_finished_is_final(t: RestoreView, evs: Seq<EventView>)
    requires
        t.phase == RestorePhase::Finished,
    ensures
        restore_run(t, evs) == t,
    decreases evs.len(),
{
    if evs.len() > 0 {
        law_restore_finished_is_final(restore_next(t, evs[0]).0, evs.drop_first());
    }
}

/// Law: start-up recovery of a journal found past `SnapshotTaken` writes the
/// snapshot back (it is never merely checked), or, when the snapshot may not
/// be written back, fails with `GPU_RESTORE_FAILED` without writing; one at
/// `SnapshotTaken` is only checked, never written.
pub proof fn law_startup_restores_after_write(stage: RecoveryStage, snap: PolicyView)
    ensures
        startup_start(Ok(Some((stage, snap)))).1 == (if stage == RecoveryStage::SnapshotTaken {
            RestoreAction::ReadPolicy
        } else if spec_restorable(snap) {
            RestoreAction::RestoreSnapshot
        } else {
            RestoreAction::Finish
        }),
        stage != RecoveryStage::SnapshotTaken && !spec_restorable(snap)
            ==> startup_start(Ok(Some((stage, snap)))).0.outcome == Some(Err::<(), Seq<char>>(code_text(ErrorCode::GpuRestoreFailed))),
{
}

/// Law: no restore ever asks for a snapshot to be written back unless it may
/// be (see `gpu::spec_restorable`): start-up recovery and "restore previous"
/// ask only at their start, and the journaled "restore previous" only for a
/// restorable policy.
pub proof fn law_restore_writes_only_restorable(
    journal: Result<Option<(RecoveryStage, PolicyView)>, Seq<char>>,
    record: Result<Option<PolicyView>, Seq<char>>,
    t: RestoreView,
    u: PreviousView,
    e: EventView,
)
    ensures
        startup_start(journal).1 == RestoreAction::RestoreSnapshot
            ==> (startup_start(journal).0.snapshot matches Some(s) && spec_restorable(s)),
        previous_start(record).1 == RestoreAction::RestoreSnapshot
            ==> (previous_start(record).0.snapshot matches Some(s) && spec_restorable(s)),
        restore_next(t, e).1 != RestoreAction::RestoreSnapshot,
        previous_next(u, e).1 == PreviousStep::RestoreSnapshot ==> spec_restorable(u.snapshot),
{
}

/// Law: start-up recovery of a journal succeeds exactly when the snapshot was
/// found unchanged (at `SnapshotTaken`) or written back (later stages, a
/// snapshot that may be written back), and then the journal was removed.
pub proof fn law_startup_success_iff_restored_and_cleared(stage: RecoveryStage, snap: PolicyView, evs: Seq<EventView>)
    requires
        evs.len() >= 2,
    ensures
        restore_run(startup_start(Ok(Some((stage, snap)))).0, evs).outcome == Some(Ok::<(), Seq<char>>(()))
            <==> ((if stage == RecoveryStage::SnapshotTaken {
                evs[0] matches EventView::PolicyRead(p) && spec_policy_matches(snap, p)
            } else {
                spec_restorable(snap) && evs[0] is Succeeded
            }) && evs[1] is Succeeded),
{
    let t0 = startup_start(Ok(Some((stage, snap)))).0;
    let t1 = restore_next(t0, evs[0]).0;
    let r1 = evs.drop_first();
    let t2 = restore_next(t1, r1[0]).0;
    let r2 = r1.drop_first();
    assert(restore_run(t0, evs) == restore_run(t1, r1));
    assert(restore_run(t1, r1) == restore_run(t2, r2));
    if t1.phase == RestorePhase::Finished {
        law_restore_finished_is_final(t1, r1);
    } else {
        law_restore_finished_is_final(t2, r2);
    }
}

/// Law: "restore previous" succeeds exactly when a record was there, its
/// policy may be and was written back, and the record was then removed.
pub proof fn law_previous_success_iff_restored_and_cleared(loaded: Result<Option<PolicyView>, Seq<char>>, evs: Seq<EventView>)
    requires
        evs.len() >= 2,
    ensures
        restore_run(previous_start(loaded).0, evs).outcome == Some(Ok::<(), Seq<char>>(()))
            <==> (loaded is Ok && loaded->Ok_0 is Some && spec_restorable(loaded->Ok_0->Some_0)
                && evs[0] is Succeeded && evs[1] is Succeeded),
{
    let t0 = previous_start(loaded).0;
    if t0.phase == RestorePhase::Finished {
        law_restore_finished_is_final(t0, evs);
    } else {
        let t1 = restore_next(t0, evs[0]).0;
        let r1 = evs.drop_first();
        let t2 = restore_next(t1, r1[0]).0;
        let r2 = r1.drop_first();
        assert(restore_run(t0, evs) == restore_run(t1, r1));
        assert(restore_run(t1, r1) == restore_run(t2, r2));
        if t1.phase == RestorePhase::Finished {
            law_restore_finished_is_final(t1, r1);
        } else {
            law_restore_finished_is_final(t2, r2);
        }
    }
}

/// Law: a change that succeeded after its first read found policy `p` kept
/// `p` as its snapshot (the policy it journaled and recorded for "restore
/// previous"); "restore previous" of that record writes `p` back when it may
/// be written back (otherwise it fails with `GPU_RESTORE_FAILED` and writes
/// nothing), and succeeds exactly when that write and the record's removal
/// succeed.
pub proof fn law_apply_then_restore_previous_round_trip(
    instance: Seq<char>,
    bytes: Seq<u8>,
    p: PolicyView,
    evs: Seq<EventView>,
    back: Seq<EventView>,
)
    requires
        apply_run(apply_start(instance, bytes).0, seq![EventView::PolicyRead(p)] + evs).outcome
            == Some(Ok::<(), (Seq<char>, bool)>(())),
        back.len() >= 2,
    ensures
        apply_run(apply_start(instance, bytes).0, seq![EventView::PolicyRead(p)] + evs).snapshot == Some(p),
        previous_start(Ok(Some(p))).0.snapshot == Some(p),
        spec_restorable(p) ==> previous_start(Ok(Some(p))).1 == RestoreAction::RestoreSnapshot,
        !spec_restorable(p) ==> previous_start(Ok(Some(p))).1 == RestoreAction::Finish
            && previous_start(Ok(Some(p))).0.outcome == Some(Err::<(), Seq<char>>(code_text(ErrorCode::GpuRestoreFailed))),
        restore_run(previous_start(Ok(Some(p))).0, back).outcome == Some(Ok::<(), Seq<char>>(()))
            <==> (spec_restorable(p) && back[0] is Succeeded && back[1] is Succeeded),
{
    let t0 = apply_start(instance, bytes).0;
    let all = seq![EventView::PolicyRead(p)] + evs;
    assert(all[0] == EventView::PolicyRead(p));
    assert(all.drop_first() =~= evs);
    if t0.phase == ApplyPhase::Finished {
        law_apply_finished_is_final(t0, all);
    } else {
        let t1 = apply_next(t0, all[0]).0;
        assert(apply_run(t0, all) == apply_run(t1, evs));
        lemma_apply_snapshot_kept(t1, evs);
    }
    law_previous_success_iff_restored_and_cleared(Ok(Some(p)), back);
}

/// Law: of two successful changes, one after the other, only the latest one's
/// snapshot is kept: whatever record was there first, the record after both
/// is the policy the second change first read, and "restore previous" of
/// that record writes this policy back when it may be written back.
pub proof fn law_restore_previous_undoes_only_the_latest(
    r0: Option<PolicyView>,
    first: (Seq<char>, Seq<u8>, PolicyView, Seq<EventView>),
    second: (Seq<char>, Seq<u8>, PolicyView, Seq<EventView>),
)
    requires
        apply_run(apply_start(first.0, first.1).0, seq![EventView::PolicyRead(first.2)] + first.3).outcome
            == Some(Ok::<(), (Seq<char>, bool)>(())),
        apply_run(apply_start(second.0, second.1).0, seq![EventView::PolicyRead(second.2)] + second.3).outcome
            == Some(Ok::<(), (Seq<char>, bool)>(())),
    ensures
        ({
            let t1 = apply_start(first.0, first.1).0;
            let all1 = seq![EventView::PolicyRead(first.2)] + first.3;
            let r1 = record_after(r0, apply_run(t1, all1).snapshot, apply_steps(t1, all1));
            let t2 = apply_start(second.0, second.1).0;
            let all2 = seq![EventView::PolicyRead(second.2)] + second.3;
            let r2 = record_after(r1, apply_run(t2, all2).snapshot, apply_steps(t2, all2));
            &&& r1 == Some(first.2)
            &&& r2 == Some(second.2)
            &&& spec_restorable(second.2) ==> previous_start(Ok(r2)).1 == RestoreAction::RestoreSnapshot
                && previous_start(Ok(r2)).0.snapshot == Some(second.2)
        }),
{
    law_apply_success_replaces_record(r0, first.0, first.1, first.2, first.3);
    let t1 = apply_start(first.0, first.1).0;
    let all1 = seq![EventView::PolicyRead(first.2)] + first.3;
    let r1 = record_after(r0, apply_run(t1, all1).snapshot, apply_steps(t1, all1));
    law_apply_success_replaces_record(r1, second.0, second.1, second.2, second.3);
}

/// Law: a journaled "restore previous" that fails after writing its journal
/// raises the recovery flag, and it resumes on the next call: the journal it
/// wrote (a full-restore journal of the same policy, see
/// `RecoveryJournal::restore_needed`) is found and recovered first, by
/// writing that policy back; the recovery succeeds exactly when that write
/// and the journal's removal succeed.
pub proof fn law_failed_previous_resumes(t: PreviousView, evs: Seq<EventView>, journal: RecoveryJournal, back: Seq<EventView>)
    requires
        t.phase == PreviousPhase::Mark,
        t.outcome is None,
        spec_restorable(t.snapshot),
        evs.len() >= 5,
        evs[0] is Succeeded,
        journal.stage == RecoveryStage::PolicyApplied,
        journal.snapshot@ == t.snapshot,
        back.len() >= 2,
    ensures
        previous_run(t, evs).outcome != Some(Ok::<(), Seq<char>>(())) ==> previous_run(t, evs).raise_recovery,
        journal_found(Ok(Some(journal))),
        startup_start(journal_view(Ok(Some(journal)))).1 == RestoreAction::RestoreSnapshot,
        startup_start(journal_view(Ok(Some(journal)))).0.snapshot == Some(t.snapshot),
        restore_run(startup_start(journal_view(Ok(Some(journal)))).0, back).outcome == Some(Ok::<(), Seq<char>>(()))
            <==> (back[0] is Succeeded && back[1] is Succeeded),
{
    law_journaled_previous_success_iff_all_succeeded(t, evs);
    law_startup_success_iff_restored_and_cleared(RecoveryStage::PolicyApplied, t.snapshot, back);
}

/// What the journaled "restore previous" asks for next.
#[derive(Clone, Copy, Debug, PartialEq, Eq, Structural)]
pub enum PreviousStep {
    /// Write a journal demanding a full restore of the record's policy.
    MarkRestoreNeeded,
    /// Write the policy back, restart the device and verify it.
    RestoreSnapshot,
    /// Remove the restore record.
    ClearRestoreRecord,
    /// Remove the journal.
    ClearJournal,
    /// Remove the applied-policy record (its outcome does not matter).
    RemoveAppliedRecord,
    /// Stop: the outcome is set.
    Finish,
}

/// Where the journaled "restore previous" stands.
#[derive(Clone, Copy, Debug, PartialEq, Eq, Structural)]
pub enum PreviousPhase {
    Mark,
    Restore,
    ClearRecord,
    ClearJournal,
    RemoveApplied,
    Finished,
}

/// The journaled "restore previous" in flight: the restore is journaled first,
/// so that a crash or a failure leaves a journal that start-up recovery acts on.
#[derive(Clone, Debug)]
pub struct PreviousRestore {
    pub snapshot: AffinityPolicy,
    pub phase: PreviousPhase,
    pub outcome: Option<Result<(), String>>,
    /// Whether a failure must raise the recovery flag.
    pub raise_recovery: bool,
}

/// The mathematical value of the journaled "restore previous".
pub struct PreviousView {
    pub snapshot: PolicyView,
    pub phase: PreviousPhase,
    pub outcome: Option<Result<(), Seq<char>>>,
    pub raise_recovery: bool,
}

impl View for PreviousRestore {
    type V = PreviousView;

    open spec fn view(&self) -> PreviousView {
        PreviousView {
            snapshot: self.snapshot@,
            phase: self.phase,
            outcome: match self.outcome {
                Some(Ok(())) => Some(Ok(())),
                Some(Err(m)) => Some(Err(m@)),
                None => None,
            },
            raise_recovery: self.raise_recovery,
        }
    }
}

/// The journaled "restore previous" finished with `outcome`; `raise` tells
/// whether the failure raises the recovery flag.
pub open spec fn previous_finish(t: PreviousView, outcome: Result<(), Seq<char>>, raise: bool) -> (PreviousView, PreviousStep) {
    (PreviousView { phase: PreviousPhase::Finished, outcome: Some(outcome), raise_recovery: raise, ..t }, PreviousStep::Finish)
}

/// The transition of the journaled "restore previous": a failure to write the
/// journal ends it before anything changed; a failure of the restore or of
/// either removal ends it with the recovery flag raised (the journal stays);
/// the applied-policy record is removed last, whatever comes of that.
pub open spec fn previous_next(t: PreviousView, e: EventView) -> (PreviousView, PreviousStep) {
    let ok = e is Succeeded;
    match t.phase {
        PreviousPhase::Mark => if !ok {
            previous_finish(t, Err(event_code(e)), false)
        } else if spec_restorable(t.snapshot) {
            (PreviousView { phase: PreviousPhase::Restore, ..t }, PreviousStep::RestoreSnapshot)
        } else {
            previous_finish(t, Err(code_text(ErrorCode::GpuRestoreFailed)), true)
        },
        PreviousPhase::Restore => if ok {
            (PreviousView { phase: PreviousPhase::ClearRecord, ..t }, PreviousStep::ClearRestoreRecord)
        } else {
            previous_finish(t, Err(event_code(e)), true)
        },
        PreviousPhase::ClearRecord => if ok {
            (PreviousView { phase: PreviousPhase::ClearJournal, ..t }, PreviousStep::ClearJournal)
        } else {
            previous_finish(t, Err(event_code(e)), true)
        },
        PreviousPhase::ClearJournal => if ok {
            (PreviousView { phase: PreviousPhase::RemoveApplied, ..t }, PreviousStep::RemoveAppliedRecord)
        } else {
            previous_finish(t, Err(event_code(e)), true)
        },
        PreviousPhase::RemoveApplied => previous_finish(t, Ok(()), false),
        PreviousPhase::Finished => (t, PreviousStep::Finish),
    }
}

/// The state after the events `evs`, one after the other, from `t`.
pub open spec fn previous_run(t: PreviousView, evs: Seq<EventView>) -> PreviousView
    decreases evs.len(),
{
    if evs.len() == 0 {
        t
    } else {
        previous_run(previous_next(t, evs[0]).0, evs.drop_first())
    }
}

/// How the manager's "restore previous" goes: a change in flight (a pending
/// recovery or a journal) takes precedence and is recovered from its journal
/// (a pending recovery without a journal is refused); otherwise the restore
/// record's policy is restored under a journal.
pub enum PreviousPlan {
    /// Refused at once with this code.
    Refused(String),
    /// Start-up recovery of the journal; on success the recovery flag clears.
    Recover(RestoreJob, RestoreAction),
    /// The journaled restore of the record.
    Restore(PreviousRestore, PreviousStep),
}

/// Whether a journal was found (loaded or not): anything but "no file".
pub open spec fn journal_found(journal: Result<Option<RecoveryJournal>, String>) -> bool {
    !(journal matches Ok(None))
}

/// Plans "restore previous" (see [`PreviousPlan`]) from the recovery flag, what
/// was loaded from the journal path and what was loaded from the restore
/// record.
pub fn restore_previous_at(
    recovery_required: bool,
    journal: Result<Option<RecoveryJournal>, String>,
    record: Result<Option<AffinityPolicy>, String>,
) -> (r: PreviousPlan)
    ensures
        (recovery_required || journal_found(journal)) && !journal_found(journal) ==>
            (r matches PreviousPlan::Refused(c) && c@ == code_text(ErrorCode::BenchmarkRecoveryRequired)),
        journal_found(journal) ==> (r matches PreviousPlan::Recover(job, a)
            && (job@, a) == startup_start(journal_view(journal))),
        !recovery_required && !journal_found(journal) ==> match record {
            Err(m) => r matches PreviousPlan::Refused(c) && c@ == m@,
            Ok(None) => r matches PreviousPlan::Refused(c) && c@ == code_text(ErrorCode::GpuRestoreFailed),
            Ok(Some(p)) => if spec_restorable(p@) {
                r matches PreviousPlan::Restore(job, a) && job@.snapshot == p@
                    && job@.phase == PreviousPhase::Mark && job@.outcome is None && !job@.raise_recovery
                    && a == PreviousStep::MarkRestoreNeeded
            } else {
                r matches PreviousPlan::Refused(c) && c@ == code_text(ErrorCode::GpuRestoreFailed)
            },
        },
{
    let found = match &journal {
        Ok(None) => false,
        _ => true,
    };
    if found {
        let (job, a) = attempt_startup_recovery(journal);
        return PreviousPlan::Recover(job, a);
    }
    if recovery_required {
        return PreviousPlan::Refused(ErrorCode::BenchmarkRecoveryRequired.as_str().to_owned());
    }
    match record {
        Err(m) => PreviousPlan::Refused(m),
        Ok(None) => PreviousPlan::Refused(ErrorCode::GpuRestoreFailed.as_str().to_owned()),
        Ok(Some(p)) => if p.restorable() {
            PreviousPlan::Restore(
                PreviousRestore { snapshot: p, phase: PreviousPhase::Mark, outcome: None, raise_recovery: false },
                PreviousStep::MarkRestoreNeeded,
            )
        } else {
            PreviousPlan::Refused(ErrorCode::GpuRestoreFailed.as_str().to_owned())
        },
    }
}

impl PreviousRestore {
    fn finish_with(&mut self, outcome: Result<(), String>, raise: bool) -> (a: PreviousStep)
        ensures
            (final(self)@, a) == previous_finish(old(self)@, match outcome {
                Ok(()) => Ok(()),
                Err(m) => Err(m@),
            }, raise),
    {
        self.phase = PreviousPhase::Finished;
        self.outcome = Some(outcome);
        self.raise_recovery = raise;
        PreviousStep::Finish
    }

    /// Takes the outcome of the last action and returns the next one (see
    /// [`previous_next`]).
    pub fn advance(&mut self, event: ApplyEvent) -> (a: PreviousStep)
        ensures
            (final(self)@, a) == previous_next(old(self)@, event@),
    {
        let ok = match &event {
            ApplyEvent::Succeeded => true,
            _ => false,
        };
        let code: String = match &event {
            ApplyEvent::Failed(c) => c.clone(),
            _ => ErrorCode::GpuApplyFailed.as_str().to_owned(),
        };
        match self.phase {
            PreviousPhase::Mark => if !ok {
                self.finish_with(Err(code), false)
            } else if self.snapshot.restorable() {
                self.phase = PreviousPhase::Restore;
                PreviousStep::RestoreSnapshot
            } else {
                self.finish_with(Err(ErrorCode::GpuRestoreFailed.as_str().to_owned()), true)
            },
            PreviousPhase::Restore => if ok {
                self.phase = PreviousPhase::ClearRecord;
                PreviousStep::ClearRestoreRecord
            } else {
                self.finish_with(Err(code), true)
            },
            PreviousPhase::ClearRecord => if ok {
                self.phase = PreviousPhase::ClearJournal;
                PreviousStep::ClearJournal
            } else {
                self.finish_with(Err(code), true)
            },
            PreviousPhase::ClearJournal => if ok {
                self.phase = PreviousPhase::RemoveApplied;
                PreviousStep::RemoveAppliedRecord
            } else {
                self.finish_with(Err(code), true)
            },
            PreviousPhase::RemoveApplied => self.finish_with(Ok(()), false),
            PreviousPhase::Finished => PreviousStep::Finish,
        }
    }
}

/// A finished journaled restore stays as it is.
proof fn lemma_previous_finished_is_final(t: PreviousView, evs: Seq<EventView>)
    requires
        t.phase == PreviousPhase::Finished,
    ensures
        previous_run(t, evs) == t,
    decreases evs.len(),
{
    if evs.len() > 0 {
        lemma_previous_finished_is_final(previous_next(t, evs[0]).0, evs.drop_first());
    }
}

/// Law: the journaled "restore previous" succeeds exactly when the journal was
/// written, the policy (which may be written back) restored, the record and
/// then the journal removed; a
/// failure after the journal was written raises the recovery flag, one before
/// it does not.
pub proof fn law_journaled_previous_success_iff_all_succeeded(t: PreviousView, evs: Seq<EventView>)
    requires
        t.phase == PreviousPhase::Mark,
        t.outcome is None,
        evs.len() >= 5,
    ensures
        ({
            let end = previous_run(t, evs);
            let all = evs[0] is Succeeded && spec_restorable(t.snapshot) && evs[1] is Succeeded && evs[2] is Succeeded
                && evs[3] is Succeeded;
            &&& end.phase == PreviousPhase::Finished
            &&& (end.outcome == Some(Ok::<(), Seq<char>>(())) <==> all)
            &&& end.raise_recovery == (evs[0] is Succeeded && !all)
        }),
{
    let t1 = previous_next(t, evs[0]).0;
    let r1 = evs.drop_first();
    let t2 = previous_next(t1, r1[0]).0;
    let r2 = r1.drop_first();
    let t3 = previous_next(t2, r2[0]).0;
    let r3 = r2.drop_first();
    let t4 = previous_next(t3, r3[0]).0;
    let r4 = r3.drop_first();
    let t5 = previous_next(t4, r4[0]).0;
    let r5 = r4.drop_first();
    assert(previous_run(t, evs) == previous_run(t1, r1));
    assert(previous_run(t1, r1) == previous_run(t2, r2));
    assert(previous_run(t2, r2) == previous_run(t3, r3));
    assert(previous_run(t3, r3) == previous_run(t4, r4));
    assert(previous_run(t4, r4) == previous_run(t5, r5));
    if t1.phase == PreviousPhase::Finished {
        lemma_previous_finished_is_final(t1, r1);
    } else if t2.phase == PreviousPhase::Finished {
        lemma_previous_finished_is_final(t2, r2);
    } else if t3.phase == PreviousPhase::Finished {
        lemma_previous_finished_is_final(t3, r3);
    } else if t4.phase == PreviousPhase::Finished {
        lemma_previous_finished_is_final(t4, r4);
    } else {
        lemma_previous_finished_is_final(t5, r5);
    }
}

} // verus!
