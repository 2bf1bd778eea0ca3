//! Enabling and restoring the adapter's message-signalled interrupt mode
//! (`MSISupported`), with a restore record written before the first change
//! and a rollback on failure.
//!
//! Both operations are state machines: the caller performs the action asked
//! for and hands back an [`MsiEvent`].
use vstd::prelude::*;
use crate::apply::ApplyError;
use crate::codes::{ErrorCode, code_text};
use crate::gpu::{RegistryValueSnapshot, RegView, spec_as_dword};
use crate::text::{join_path, joined};

verus! {

/// The file name of the MSI restore record.
pub open spec fn msi_record_file() -> Seq<char> {
    "gpu-msi-restore.json"@
}

/// Path of the MSI restore record under `config_dir`.
pub fn msi_record_path(config_dir: &str) -> (p: String)
    ensures
        p@ == joined(config_dir@, msi_record_file()),
{
    join_path(config_dir, "gpu-msi-restore.json")
}

/// What came of the last action.
#[derive(Clone, Debug)]
pub enum MsiEvent {
    /// The action succeeded.
    Succeeded,
    /// The action failed, with this code or message.
    Failed(String),
    /// A read of `MSISupported` succeeded with this value.
    ValueRead(RegistryValueSnapshot),
    /// The restore record was loaded (absent: `None`).
    RecordLoaded(Option<RegistryValueSnapshot>),
}

/// The mathematical value of an event.
pub enum MsiEventView {
    Succeeded,
    Failed(Seq<char>),
    ValueRead(RegView),
    RecordLoaded(Option<RegView>),
}

impl View for MsiEvent {
    type V = MsiEventView;

    open spec fn view(&self) -> MsiEventView {
        match self {
            MsiEvent::Succeeded => MsiEventView::Succeeded,
            MsiEvent::Failed(c) => MsiEventView::Failed(c@),
            MsiEvent::ValueRead(v) => MsiEventView::ValueRead(v@),
            MsiEvent::RecordLoaded(Some(v)) => MsiEventView::RecordLoaded(Some(v@)),
            MsiEvent::RecordLoaded(None) => MsiEventView::RecordLoaded(None),
        }
    }
}

/// The code an event carries: its own when it failed, `GPU_APPLY_FAILED` for
/// an event that does not fit the action.
pub open spec fn msi_event_code(e: MsiEventView) -> Seq<char> {
    match e {
        MsiEventView::Failed(c) => c,
        _ => code_text(ErrorCode::GpuApplyFailed),
    }
}

/// What the caller must do next.
#[derive(Clone, Copy, Debug, PartialEq, Eq, Structural)]
pub enum MsiAction {
    /// Read `MSISupported`.
    ReadValue,
    /// Load the restore record.
    LoadRecord,
    /// Write the restore record: [`MsiTxn::record_value`] with the instance id.
    WriteRecord,
    /// Write `MSISupported = 1` (`REG_DWORD`).
    WriteEnabled,
    /// Write the snapshot back (absent: delete the value).
    WriteSnapshot,
    /// Disable and re-enable the device.
    RestartDevice,
    /// Remove the restore record (absent counts as removed).
    ClearRecord,
    /// Stop: the outcome is set.
    Finish,
}

/// Where enabling MSI stands.
#[derive(Clone, Copy, Debug, PartialEq, Eq, Structural)]
pub enum MsiPhase {
    /// Reading the current value (the snapshot).
    ReadSnapshot,
    /// Already enabled: loading the record to refresh its device identity.
    LoadRecord,
    /// Already enabled: rewriting the record with the device identity.
    RewriteRecord,
    /// Writing the restore record before the change.
    WriteRecord,
    /// Writing `MSISupported = 1`.
    WriteValue,
    /// Restarting the device.
    Restart,
    /// Reading the value back.
    ReadBack,
    /// Rollback: writing the snapshot back.
    RestoreWrite,
    /// Rollback: restarting the device.
    RestoreRestart,
    /// Rollback: reading the value back.
    RestoreReadBack,
    /// Rollback: removing the record; whether the snapshot was restored.
    RollbackClear { restored: bool },
    /// Done; the outcome is set.
    Finished,
}

/// Enabling MSI in flight.
#[derive(Clone, Debug)]
pub struct MsiTxn {
    pub instance_id: String,
    /// The value before the change, once read.
    pub snapshot: Option<RegistryValueSnapshot>,
    /// The value the restore record is written with.
    pub record_value: Option<RegistryValueSnapshot>,
    pub phase: MsiPhase,
    /// The code a rollback reports.
    pub code: String,
    pub outcome: Option<Result<(), ApplyError>>,
}

/// The mathematical value of the transaction.
pub struct MsiView {
    pub instance: Seq<char>,
    pub snapshot: Option<RegView>,
    pub record_value: Option<RegView>,
    pub phase: MsiPhase,
    pub code: Seq<char>,
    pub outcome: Option<Result<(), (Seq<char>, bool)>>,
}

/// The view of an optional value.
pub open spec fn opt_reg(v: Option<RegistryValueSnapshot>) -> Option<RegView> {
    match v {
        Some(r) => Some(r@),
        None => None,
    }
}

impl View for MsiTxn {
    type V = MsiView;

    open spec fn view(&self) -> MsiView {
        MsiView {
            instance: self.instance_id@,
            snapshot: opt_reg(self.snapshot),
            record_value: opt_reg(self.record_value),
            phase: self.phase,
            code: self.code@,
            outcome: match self.outcome {
                Some(Ok(())) => Some(Ok(())),
                Some(Err(e)) => Some(Err((e.code@, e.clean))),
                None => None,
            },
        }
    }
}

/// Enabling finished with `outcome`.
pub open spec fn msi_finish(t: MsiView, outcome: Result<(), (Seq<char>, bool)>) -> (MsiView, MsiAction) {
    (MsiView { phase: MsiPhase::Finished, outcome: Some(outcome), ..t }, MsiAction::Finish)
}

/// Move on to `phase`, asking for `action`.
pub open spec fn msi_go(t: MsiView, phase: MsiPhase, action: MsiAction) -> (MsiView, MsiAction) {
    (MsiView { phase, ..t }, action)
}

/// Rollback begins: write the snapshot back, reporting `code` in the end.
pub open spec fn msi_rollback(t: MsiView, code: Seq<char>) -> (MsiView, MsiAction) {
    (MsiView { phase: MsiPhase::RestoreWrite, code, ..t }, MsiAction::WriteSnapshot)
}

/// The transition of enabling MSI on the outcome of the action it asked for.
pub open spec fn msi_next(t: MsiView, e: MsiEventView) -> (MsiView, MsiAction) {
    let ok = e is Succeeded;
    let apply_failed = code_text(ErrorCode::GpuApplyFailed);
    match t.phase {
        MsiPhase::ReadSnapshot => match e {
            MsiEventView::ValueRead(v) => if spec_as_dword(v) == Some(1u32) {
                (MsiView { phase: MsiPhase::LoadRecord, snapshot: Some(v), ..t }, MsiAction::LoadRecord)
            } else {
                (
                    MsiView { phase: MsiPhase::WriteRecord, snapshot: Some(v), record_value: Some(v), ..t },
                    MsiAction::WriteRecord,
                )
            },
            _ => msi_finish(t, Err((msi_event_code(e), true))),
        },
        MsiPhase::LoadRecord => match e {
            MsiEventView::RecordLoaded(Some(orig)) => (
                MsiView { phase: MsiPhase::RewriteRecord, record_value: Some(orig), ..t },
                MsiAction::WriteRecord,
            ),
            MsiEventView::RecordLoaded(None) => msi_finish(t, Ok(())),
            _ => msi_finish(t, Err((apply_failed, true))),
        },
        MsiPhase::RewriteRecord => if ok {
            msi_finish(t, Ok(()))
        } else {
            msi_finish(t, Err((apply_failed, true)))
        },
        MsiPhase::WriteRecord => if ok {
            msi_go(t, MsiPhase::WriteValue, MsiAction::WriteEnabled)
        } else {
            msi_finish(t, Err((apply_failed, true)))
        },
        MsiPhase::WriteValue => if ok {
            msi_go(t, MsiPhase::Restart, MsiAction::RestartDevice)
        } else {
            msi_rollback(t, apply_failed)
        },
        MsiPhase::Restart => if ok {
            msi_go(t, MsiPhase::ReadBack, MsiAction::ReadValue)
        } else {
            msi_rollback(t, code_text(ErrorCode::GpuRestartFailed))
        },
        MsiPhase::ReadBack => match e {
            MsiEventView::ValueRead(v) => if spec_as_dword(v) == Some(1u32) {
                msi_finish(t, Ok(()))
            } else {
                msi_rollback(t, apply_failed)
            },
            _ => msi_finish(t, Err((msi_event_code(e), true))),
        },
        MsiPhase::RestoreWrite => if ok {
            msi_go(t, MsiPhase::RestoreRestart, MsiAction::RestartDevice)
        } else {
            msi_go(t, MsiPhase::RollbackClear { restored: false }, MsiAction::ClearRecord)
        },
        MsiPhase::RestoreRestart => if ok {
            msi_go(t, MsiPhase::RestoreReadBack, MsiAction::ReadValue)
        } else {
            msi_go(t, MsiPhase::RollbackClear { restored: false }, MsiAction::ClearRecord)
        },
        MsiPhase::RestoreReadBack => {
            let same = e matches MsiEventView::ValueRead(v) && t.snapshot == Some(v);
            msi_go(t, MsiPhase::RollbackClear { restored: same }, MsiAction::ClearRecord)
        },
        MsiPhase::RollbackClear { restored } => msi_finish(t, Err((t.code, restored && ok))),
        MsiPhase::Finished => (t, MsiAction::Finish),
    }
}

/// The state after the events `evs`, one after the other, from `t`.
pub open spec fn msi_run(t: MsiView, evs: Seq<MsiEventView>) -> MsiView
    decreases evs.len(),
{
    if evs.len() == 0 {
        t
    } else {
        msi_run(msi_next(t, evs[0]).0, evs.drop_first())
    }
}

/// The state in which enabling MSI on `instance` starts.
pub open spec fn msi_start(instance: Seq<char>) -> MsiView {
    MsiView {
        instance,
        snapshot: None,
        record_value: None,
        phase: MsiPhase::ReadSnapshot,
        code: Seq::empty(),
        outcome: None,
    }
}

/// Starts enabling MSI on `instance_id`; the first action reads the value.
pub fn apply_msi_to_gpu(instance_id: &str) -> (r: (MsiTxn, MsiAction))
    ensures
        r.0@ == msi_start(instance_id@),
        r.1 == MsiAction::ReadValue,
{
    let code = String::new();
    proof {
        assert(code@ =~= Seq::<char>::empty());
    }
    (
        MsiTxn {
            instance_id: instance_id.to_owned(),
            snapshot: None,
            record_value: None,
            phase: MsiPhase::ReadSnapshot,
            code,
            outcome: None,
        },
        MsiAction::ReadValue,
    )
}

impl MsiTxn {
    /// Finishes with `outcome`.
    fn finish_with(&mut self, code: &str, clean: bool) -> (a: MsiAction)
        ensures
            (final(self)@, a) == msi_finish(old(self)@, Err((code@, clean))),
    {
        self.phase = MsiPhase::Finished;
        self.outcome = Some(Err(ApplyError::with_code(code, clean)));
        MsiAction::Finish
    }

    /// Finishes successfully.
    fn succeed(&mut self) -> (a: MsiAction)
        ensures
            (final(self)@, a) == msi_finish(old(self)@, Ok(())),
    {
        self.phase = MsiPhase::Finished;
        self.outcome = Some(Ok(()));
        MsiAction::Finish
    }

    /// Enters the rollback with `code`: the snapshot is written back, the
    /// device restarted and the value verified; the record is removed either
    /// way; clean only when all of that succeeded.
    fn rollback_msi(&mut self, code: &str) -> (a: MsiAction)
        ensures
            (final(self)@, a) == msi_rollback(old(self)@, code@),
    {
        self.phase = MsiPhase::RestoreWrite;
        self.code = code.to_owned();
        MsiAction::WriteSnapshot
    }

    /// Takes the outcome of the last action and returns the next one (see
    /// [`msi_next`]).
    pub fn advance(&mut self, event: MsiEvent) -> (a: MsiAction)
        ensures
            (final(self)@, a) == msi_next(old(self)@, event@),
    {
        let ok = match &event {
            MsiEvent::Succeeded => true,
            _ => false,
        };
        let code: String = match &event {
            MsiEvent::Failed(c) => c.clone(),
            _ => ErrorCode::GpuApplyFailed.as_str().to_owned(),
        };
        let apply_failed = ErrorCode::GpuApplyFailed.as_str();
        match self.phase {
            MsiPhase::ReadSnapshot => match event {
                MsiEvent::ValueRead(v) => {
                    if v.as_dword() == Some(1u32) {
                        self.snapshot = Some(v);
                        self.phase = MsiPhase::LoadRecord;
                        MsiAction::LoadRecord
                    } else {
                        self.record_value = Some(v.duplicate());
                        self.snapshot = Some(v);
                        self.phase = MsiPhase::WriteRecord;
                        MsiAction::WriteRecord
                    }
                },
                _ => self.finish_with(code.as_str(), true),
            },
            MsiPhase::LoadRecord => match event {
                MsiEvent::RecordLoaded(Some(orig)) => {
                    self.record_value = Some(orig);
                    self.phase = MsiPhase::RewriteRecord;
                    MsiAction::WriteRecord
                },
                MsiEvent::RecordLoaded(None) => self.succeed(),
                _ => self.finish_with(apply_failed, true),
            },
            MsiPhase::RewriteRecord => if ok {
                self.succeed()
            } else {
                self.finish_with(apply_failed, true)
            },
            MsiPhase::WriteRecord => if ok {
                self.phase = MsiPhase::WriteValue;
                MsiAction::WriteEnabled
            } else {
                self.finish_with(apply_failed, true)
            },
            MsiPhase::WriteValue => if ok {
                self.phase = MsiPhase::Restart;
                MsiAction::RestartDevice
            } else {
                self.rollback_msi(apply_failed)
            },
            MsiPhase::Restart => if ok {
                self.phase = MsiPhase::ReadBack;
                MsiAction::ReadValue
            } else {
                self.rollback_msi(ErrorCode::GpuRestartFailed.as_str())
            },
            MsiPhase::ReadBack => match event {
                MsiEvent::ValueRead(v) => if v.as_dword() == Some(1u32) {
                    self.succeed()
                } else {
                    self.rollback_msi(apply_failed)
                },
                _ => self.finish_with(code.as_str(), true),
            },
            MsiPhase::RestoreWrite => {
                if ok {
                    self.phase = MsiPhase::RestoreRestart;
                    MsiAction::RestartDevice
                } else {
                    self.phase = MsiPhase::RollbackClear { restored: false };
                    MsiAction::ClearRecord
                }
            },
            MsiPhase::RestoreRestart => {
                if ok {
                    self.phase = MsiPhase::RestoreReadBack;
                    MsiAction::ReadValue
                } else {
                    self.phase = MsiPhase::RollbackClear { restored: false };
                    MsiAction::ClearRecord
                }
            },
            MsiPhase::RestoreReadBack => {
                let same = match (&event, &self.snapshot) {
                    (MsiEvent::ValueRead(v), Some(s)) => v.same_as(s),
                    _ => false,
                };
                self.phase = MsiPhase::RollbackClear { restored: same };
                MsiAction::ClearRecord
            },
            MsiPhase::RollbackClear { restored } => {
                let c = self.code.clone();
                self.finish_with(c.as_str(), restored && ok)
            },
            MsiPhase::Finished => MsiAction::Finish,
        }
    }
}

/// A finished transaction stays as it is, whatever comes.
pub proof fn law_msi_finished_is_final(t: MsiView, evs: Seq<MsiEventView>)
    requires
        t.phase == MsiPhase::Finished,
    ensures
        msi_run(t, evs) == t,
    decreases evs.len(),
{
    if evs.len() > 0 {
        law_msi_finished_is_final(msi_next(t, evs[0]).0, evs.drop_first());
    }
}

/// Law: enabling MSI succeeds only when the value was found enabled, or the
/// restore record was written and the value read back as 1 after the write
/// and restart; an already enabled value is never written.
pub proof fn law_msi_success_needs_enabled_value(t: MsiView, e: MsiEventView)
    requires
        t.phase != MsiPhase::Finished,
        t.outcome is None,
        msi_next(t, e).0.outcome == Some(Ok::<(), (Seq<char>, bool)>(())),
    ensures
        t.phase == MsiPhase::LoadRecord || t.phase == MsiPhase::RewriteRecord
            || (t.phase == MsiPhase::ReadBack && (e matches MsiEventView::ValueRead(v)
                && spec_as_dword(v) == Some(1u32))),
{
}

/// Law: a failed write or restart after the record was written starts a
/// rollback to the snapshot; so does a read-back that is not 1.
pub proof fn law_msi_failure_after_write_rolls_back(t: MsiView, e: MsiEventView)
    requires
        ((t.phase == MsiPhase::WriteValue || t.phase == MsiPhase::Restart) && !(e is Succeeded))
            || (t.phase == MsiPhase::ReadBack && (e matches MsiEventView::ValueRead(v) && spec_as_dword(v) != Some(1u32))),
    ensures
        msi_next(t, e).1 == MsiAction::WriteSnapshot,
        msi_next(t, e).0.snapshot == t.snapshot,
{
}

/// Law: a rollback ends with the code it started with; it is clean exactly
/// when the snapshot was written, the device restarted, the value read back
/// equal to the snapshot and the record removed.
pub proof fn law_msi_rollback_clean_iff_restored(t: MsiView, evs: Seq<MsiEventView>)
    requires
        t.phase == MsiPhase::RestoreWrite,
        evs.len() >= 4,
    ensures
        msi_run(t, evs).outcome == Some(Err::<(), (Seq<char>, bool)>((t.code,
            evs[0] is Succeeded && evs[1] is Succeeded
                && (evs[2] matches MsiEventView::ValueRead(v) && t.snapshot == Some(v))
                && evs[3] is Succeeded))),
{
    let t1 = msi_next(t, evs[0]).0;
    let r1 = evs.drop_first();
    let t2 = msi_next(t1, r1[0]).0;
    let r2 = r1.drop_first();
    let t3 = msi_next(t2, r2[0]).0;
    let r3 = r2.drop_first();
    let t4 = msi_next(t3, r3[0]).0;
    let r4 = r3.drop_first();
    assert(msi_run(t, evs) == msi_run(t1, r1));
    assert(msi_run(t1, r1) == msi_run(t2, r2));
    if t1.phase is RollbackClear {
        assert(msi_run(t2, r2) == msi_run(t3, r3)) by {
            law_msi_finished_is_final(t2, r2);
            law_msi_finished_is_final(t3, r3);
        }
        law_msi_finished_is_final(t2, r2);
    } else {
        assert(msi_run(t2, r2) == msi_run(t3, r3));
        if t2.phase is RollbackClear {
            law_msi_finished_is_final(t3, r3);
        } else {
            assert(msi_run(t3, r3) == msi_run(t4, r4));
            law_msi_finished_is_final(t4, r4);
        }
    }
}

/// Where restoring MSI stands.
#[derive(Clone, Copy, Debug, PartialEq, Eq, Structural)]
pub enum MsiRestorePhase {
    /// Writing the snapshot back.
    Write,
    /// Restarting the device.
    Restart,
    /// Reading the value back.
    ReadBack,
    /// Removing the record.
    Clear,
    /// Done; the outcome is set.
    Finished,
}

/// Restoring MSI in flight.
#[derive(Clone, Debug)]
pub struct MsiRestore {
    pub snapshot: Option<RegistryValueSnapshot>,
    pub phase: MsiRestorePhase,
    pub outcome: Option<Result<(), String>>,
}

/// The mathematical value of a restore.
pub struct MsiRestoreView {
    pub snapshot: Option<RegView>,
    pub phase: MsiRestorePhase,
    pub outcome: Option<Result<(), Seq<char>>>,
}

impl View for MsiRestore {
    type V = MsiRestoreView;

    open spec fn view(&self) -> MsiRestoreView {
        MsiRestoreView {
            snapshot: opt_reg(self.snapshot),
            phase: self.phase,
            outcome: match self.outcome {
                Some(Ok(())) => Some(Ok(())),
                Some(Err(m)) => Some(Err(m@)),
                None => None,
            },
        }
    }
}

/// A restore finished with `outcome`.
pub open spec fn msi_restore_finish(t: MsiRestoreView, outcome: Result<(), Seq<char>>) -> (MsiRestoreView, MsiAction) {
    (MsiRestoreView { phase: MsiRestorePhase::Finished, outcome: Some(outcome), ..t }, MsiAction::Finish)
}

/// How restoring MSI begins on what was loaded from the record: a load error
/// is the outcome, no record is `GPU_RESTORE_FAILED`, a record is written back.
pub open spec fn msi_restore_start(loaded: Result<Option<RegView>, Seq<char>>) -> (MsiRestoreView, MsiAction) {
    let t = MsiRestoreView { snapshot: None, phase: MsiRestorePhase::Finished, outcome: None };
    match loaded {
        Err(m) => msi_restore_finish(t, Err(m)),
        Ok(None) => msi_restore_finish(t, Err(code_text(ErrorCode::GpuRestoreFailed))),
        Ok(Some(v)) => (MsiRestoreView { snapshot: Some(v), phase: MsiRestorePhase::Write, ..t }, MsiAction::WriteSnapshot),
    }
}

/// The transition of restoring MSI: write, restart, read back (it must equal
/// the snapshot, else `GPU_RESTORE_FAILED`), remove the record; any failure
/// ends it with the failure's code.
pub open spec fn msi_restore_next(t: MsiRestoreView, e: MsiEventView) -> (MsiRestoreView, MsiAction) {
    let ok = e is Succeeded;
    match t.phase {
        MsiRestorePhase::Write => if ok {
            (MsiRestoreView { phase: MsiRestorePhase::Restart, ..t }, MsiAction::RestartDevice)
        } else {
            msi_restore_finish(t, Err(msi_event_code(e)))
        },
        MsiRestorePhase::Restart => if ok {
            (MsiRestoreView { phase: MsiRestorePhase::ReadBack, ..t }, MsiAction::ReadValue)
        } else {
            msi_restore_finish(t, Err(msi_event_code(e)))
        },
        MsiRestorePhase::ReadBack => match e {
            MsiEventView::ValueRead(v) => if t.snapshot == Some(v) {
                (MsiRestoreView { phase: MsiRestorePhase::Clear, ..t }, MsiAction::ClearRecord)
            } else {
                msi_restore_finish(t, Err(code_text(ErrorCode::GpuRestoreFailed)))
            },
            _ => msi_restore_finish(t, Err(msi_event_code(e))),
        },
        MsiRestorePhase::Clear => if ok {
            msi_restore_finish(t, Ok(()))
        } else {
            msi_restore_finish(t, Err(msi_event_code(e)))
        },
        MsiRestorePhase::Finished => (t, MsiAction::Finish),
    }
}

/// The value of a loaded record.
pub open spec fn msi_record_view(loaded: Result<Option<RegistryValueSnapshot>, String>) -> Result<Option<RegView>, Seq<char>> {
    match loaded {
        Err(m) => Err(m@),
        Ok(None) => Ok(None),
        Ok(Some(v)) => Ok(Some(v@)),
    }
}

/// Starts turning MSI mode back to the value saved before it was enabled, on
/// what was loaded from the record (see [`msi_restore_start`]).
pub fn restore_msi_to_gpu(loaded: Result<Option<RegistryValueSnapshot>, String>) -> (r: (MsiRestore, MsiAction))
    ensures
        (r.0@, r.1) == msi_restore_start(msi_record_view(loaded)),
{
    let mut t = MsiRestore { snapshot: None, phase: MsiRestorePhase::Finished, outcome: None };
    match loaded {
        Err(m) => {
            t.outcome = Some(Err(m));
            (t, MsiAction::Finish)
        },
        Ok(None) => {
            t.outcome = Some(Err(ErrorCode::GpuRestoreFailed.as_str().to_owned()));
            (t, MsiAction::Finish)
        },
        Ok(Some(v)) => {
            t.snapshot = Some(v);
            t.phase = MsiRestorePhase::Write;
            (t, MsiAction::WriteSnapshot)
        },
    }
}

impl MsiRestore {
    /// Takes the outcome of the last action and returns the next one (see
    /// [`msi_restore_next`]).
    pub fn advance(&mut self, event: MsiEvent) -> (a: MsiAction)
        ensures
            (final(self)@, a) == msi_restore_next(old(self)@, event@),
    {
        let ok = match &event {
            MsiEvent::Succeeded => true,
            _ => false,
        };
        let code: String = match &event {
            MsiEvent::Failed(c) => c.clone(),
            _ => ErrorCode::GpuApplyFailed.as_str().to_owned(),
        };
        match self.phase {
            MsiRestorePhase::Write => if ok {
                self.phase = MsiRestorePhase::Restart;
                MsiAction::RestartDevice
            } else {
                self.phase = MsiRestorePhase::Finished;
                self.outcome = Some(Err(code));
                MsiAction::Finish
            },
            MsiRestorePhase::Restart => if ok {
                self.phase = MsiRestorePhase::ReadBack;
                MsiAction::ReadValue
            } else {
                self.phase = MsiRestorePhase::Finished;
                self.outcome = Some(Err(code));
                MsiAction::Finish
            },
            MsiRestorePhase::ReadBack => match &event {
                MsiEvent::ValueRead(v) => {
                    let same = match &self.snapshot {
                        Some(s) => v.same_as(s),
                        None => false,
                    };
                    if same {
                        self.phase = MsiRestorePhase::Clear;
                        MsiAction::ClearRecord
                    } else {
                        self.phase = MsiRestorePhase::Finished;
                        self.outcome = Some(Err(ErrorCode::GpuRestoreFailed.as_str().to_owned()));
                        MsiAction::Finish
                    }
                },
                _ => {
                    self.phase = MsiRestorePhase::Finished;
                    self.outcome = Some(Err(code));
                    MsiAction::Finish
                },
            },
            MsiRestorePhase::Clear => {
                self.phase = MsiRestorePhase::Finished;
                self.outcome = Some(if ok { Ok(()) } else { Err(code) });
                MsiAction::Finish
            },
            MsiRestorePhase::Finished => MsiAction::Finish,
        }
    }
}

/// The check before enabling or restoring MSI mode on `instance_id`: a failed
/// adapter listing is passed on, an absent adapter is `GPU_NOT_FOUND`.
pub fn msi_precheck(adapters: Result<Vec<String>, String>, instance_id: &str) -> (r: Result<(), String>)
    ensures
        match adapters {
            Err(e) => r matches Err(x) && x@ == e@,
            Ok(l) => if crate::gate::listed(l@, instance_id@) {
                r is Ok
            } else {
                r matches Err(x) && x@ == code_text(ErrorCode::GpuNotFound)
            },
        },
{
    match adapters {
        Err(e) => Err(e),
        Ok(l) => if crate::gate::adapter_present(&l, instance_id) {
            Ok(())
        } else {
            Err(ErrorCode::GpuNotFound.as_str().to_owned())
        },
    }
}

/// Whether MSI mode has drifted from what was enabled, from the loaded MSI
/// record's device identity and, when it names one, the value read there:
/// no record means nothing to watch (`Some(false)`); a failed load, a record
/// without a device identity or a failed read cannot be told (`None`);
/// otherwise drifted exactly when the value is not `MSISupported = 1`.
pub fn msi_drift(record_device: Result<Option<Option<String>>, String>, read: Option<Result<RegistryValueSnapshot, String>>) -> (r: Option<bool>)
    ensures
        r == (match record_device {
            Ok(None) => Some(false),
            Ok(Some(Some(_))) => match read {
                Some(Ok(v)) => Some(spec_as_dword(v@) != Some(1u32)),
                _ => None,
            },
            _ => None,
        }),
{
    match record_device {
        Ok(None) => Some(false),
        Ok(Some(Some(_))) => match read {
            Some(Ok(v)) => Some(v.as_dword() != Some(1u32)),
            _ => None,
        },
        _ => None,
    }
}

} // verus!
