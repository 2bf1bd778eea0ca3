//! The policy-change transaction: snapshot, journal, write, restart, verify,
//! persist, with a rollback on every failure once the policy may have changed.
//!
//! The transaction is a state machine. The caller performs each action it asks
//! for (a registry read or write, a device restart, a journal or record file
//! operation) and hands back what came of it; the machine decides what comes
//! next and, at the end, the outcome.
use vstd::prelude::*;
use crate::codes::{ErrorCode, code_text};
use crate::gpu::{AffinityPolicy, PolicyView, spec_as_dword, spec_restorable, pinned_policy, DEVICE_POLICY_SINGLE_PROCESSOR};
use crate::recovery::RecoveryStage;
use crate::text::{join_path, joined};

verus! {

/// The failure of a policy change: a stable code, and whether the machine was
/// left exactly as before with every recovery artifact removed (`clean`).
/// When `clean` is false the caller must block further changes.
#[derive(Clone, Debug)]
pub struct ApplyError {
    pub code: String,
    pub clean: bool,
}

impl ApplyError {
    /// A failure before anything changed.
    pub fn clean(code: &str) -> (e: Self)
        ensures
            e.code@ == code@,
            e.clean,
    {
        ApplyError { code: code.to_owned(), clean: true }
    }

    /// A failure with the given code and cleanliness.
    pub fn with_code(code: &str, clean: bool) -> (e: Self)
        ensures
            e.code@ == code@,
            e.clean == clean,
    {
        ApplyError { code: code.to_owned(), clean }
    }
}

/// The file name of the one-level restore record.
pub open spec fn restore_record_file() -> Seq<char> {
    "gpu-restore.json"@
}

/// Path of the one-level restore record under `config_dir`.
pub fn restore_record_path(config_dir: &str) -> (p: String)
    ensures
        p@ == joined(config_dir@, restore_record_file()),
{
    join_path(config_dir, "gpu-restore.json")
}

/// Where a policy change stands: the action it waits on.
#[derive(Clone, Copy, Debug, PartialEq, Eq, Structural)]
pub enum ApplyPhase {
    /// Reading the current policy (the snapshot).
    ReadSnapshot,
    /// Writing the journal at `SnapshotTaken`.
    BeginJournal,
    /// Writing the new policy.
    WritePolicy,
    /// Advancing the journal to `PolicyApplied`.
    MarkPolicyApplied,
    /// Restarting the device.
    RestartDevice,
    /// Advancing the journal to `DeviceRestarted`.
    MarkDeviceRestarted,
    /// Reading the policy back.
    ReadBack,
    /// Writing the restore record.
    WriteRecord,
    /// Clearing the journal.
    ClearJournal,
    /// Rollback: writing the snapshot back (with restart and verification).
    Restore,
    /// Rollback: clearing the journal.
    RollbackClearJournal,
    /// Rollback: clearing the restore record; whether the journal was cleared.
    RollbackClearRecord { journal_cleared: bool },
    /// Rollback: writing a journal that demands a full restore at start-up.
    MarkRestoreNeeded,
    /// Done; the outcome is set.
    Finished,
}

/// What the caller must do next.
#[derive(Clone, Copy, Debug, PartialEq, Eq, Structural)]
pub enum ApplyAction {
    /// Read the adapter's policy and report `PolicyRead` (or `Failed` with the
    /// back end's code).
    ReadPolicy,
    /// Write the journal for the snapshot at `SnapshotTaken`.
    BeginJournal,
    /// Write [`ApplyTxn::requested_policy`].
    WritePolicy,
    /// Advance the journal to the stage.
    AdvanceJournal(RecoveryStage),
    /// Disable and re-enable the device.
    RestartDevice,
    /// Write the snapshot as the one-level restore record.
    WriteRestoreRecord,
    /// Remove the journal (absent counts as removed).
    ClearJournal,
    /// Write the snapshot back, restart the device and verify it.
    RestoreSnapshot,
    /// Remove the restore record (absent counts as removed).
    ClearRestoreRecord,
    /// Write a journal demanding a full restore of the snapshot.
    MarkRestoreNeeded,
    /// Stop: [`ApplyTxn::outcome`] holds the result.
    Finish,
}

/// What came of the last action.
#[derive(Clone, Debug)]
pub enum ApplyEvent {
    /// The action succeeded.
    Succeeded,
    /// The action failed, with this code or message.
    Failed(String),
    /// A read succeeded with this policy.
    PolicyRead(AffinityPolicy),
}

/// The mathematical value of an event.
pub enum EventView {
    Succeeded,
    Failed(Seq<char>),
    PolicyRead(PolicyView),
}

impl View for ApplyEvent {
    type V = EventView;

    open spec fn view(&self) -> EventView {
        match self {
            ApplyEvent::Succeeded => EventView::Succeeded,
            ApplyEvent::Failed(c) => EventView::Failed(c@),
            ApplyEvent::PolicyRead(p) => EventView::PolicyRead(p@),
        }
    }
}

/// A policy change in flight.
#[derive(Clone, Debug)]
pub struct ApplyTxn {
    pub instance_id: String,
    pub override_bytes: Vec<u8>,
    /// The policy before the change, once read.
    pub snapshot: Option<AffinityPolicy>,
    pub phase: ApplyPhase,
    /// The code a rollback will report.
    pub code: String,
    /// Whether the read-back matched the requested policy.
    pub verified: bool,
    /// The result, once finished: `Err((code, clean))` on failure.
    pub outcome: Option<Result<(), ApplyError>>,
}

/// The mathematical value of a transaction.
pub struct TxnView {
    pub instance: Seq<char>,
    pub bytes: Seq<u8>,
    pub snapshot: Option<PolicyView>,
    pub phase: ApplyPhase,
    pub code: Seq<char>,
    pub verified: bool,
    pub outcome: Option<Result<(), (Seq<char>, bool)>>,
}

impl View for ApplyTxn {
    type V = TxnView;

    open spec fn view(&self) -> TxnView {
        TxnView {
            instance: self.instance_id@,
            bytes: self.override_bytes@,
            snapshot: match self.snapshot {
                Some(p) => Some(p@),
                None => None,
            },
            phase: self.phase,
            code: self.code@,
            verified: self.verified,
            outcome: match self.outcome {
                Some(Ok(())) => Some(Ok(())),
                Some(Err(e)) => Some(Err((e.code@, e.clean))),
                None => None,
            },
        }
    }
}

/// Whether override bytes can be written: 1 to 8 bytes, not all zero.
pub open spec fn valid_override(b: Seq<u8>) -> bool {
    0 < b.len() <= 8 && exists|i: int| 0 <= i < b.len() && b[i] != 0
}

/// Whether a read-back shows the requested policy: `DevicePolicy` is the
/// single-processor DWORD and the override holds exactly the requested bytes.
pub open spec fn read_back_ok(p: PolicyView, bytes: Seq<u8>) -> bool {
    spec_as_dword(p.1) == Some(DEVICE_POLICY_SINGLE_PROCESSOR) && p.2.2 == Some(bytes)
}

/// The code an event carries: its own when it failed, `GPU_APPLY_FAILED` for
/// an event that does not fit the action.
pub open spec fn event_code(e: EventView) -> Seq<char> {
    match e {
        EventView::Failed(c) => c,
        _ => code_text(ErrorCode::GpuApplyFailed),
    }
}

/// The transaction finished with `outcome`.
pub open spec fn finish(t: TxnView, outcome: Result<(), (Seq<char>, bool)>) -> (TxnView, ApplyAction) {
    (TxnView { phase: ApplyPhase::Finished, outcome: Some(outcome), ..t }, ApplyAction::Finish)
}

/// Whether the transaction holds a snapshot that may be written back.
pub open spec fn restorable_snapshot(t: TxnView) -> bool {
    t.snapshot matches Some(s) && spec_restorable(s)
}

/// Rollback begins, reporting `code` in the end: the snapshot is written back
/// when it may be; otherwise the rollback has failed at once and a full
/// restore is demanded.
pub open spec fn start_rollback(t: TxnView, code: Seq<char>) -> (TxnView, ApplyAction) {
    if restorable_snapshot(t) {
        (TxnView { phase: ApplyPhase::Restore, code, ..t }, ApplyAction::RestoreSnapshot)
    } else {
        (TxnView { phase: ApplyPhase::MarkRestoreNeeded, code, ..t }, ApplyAction::MarkRestoreNeeded)
    }
}

/// Move on to `phase`, asking for `action`.
pub open spec fn go(t: TxnView, phase: ApplyPhase, action: ApplyAction) -> (TxnView, ApplyAction) {
    (TxnView { phase, ..t }, action)
}

/// The transition of the transaction on the outcome of the action it asked for.
pub open spec fn apply_next(t: TxnView, e: EventView) -> (TxnView, ApplyAction) {
    let ok = e is Succeeded;
    match t.phase {
        ApplyPhase::ReadSnapshot => match e {
            EventView::PolicyRead(p) => (
                TxnView { phase: ApplyPhase::BeginJournal, snapshot: Some(p), ..t },
                ApplyAction::BeginJournal,
            ),
            _ => finish(t, Err((event_code(e), true))),
        },
        ApplyPhase::BeginJournal => if ok {
            go(t, ApplyPhase::WritePolicy, ApplyAction::WritePolicy)
        } else {
            finish(t, Err((event_code(e), true)))
        },
        ApplyPhase::WritePolicy => if ok {
            go(t, ApplyPhase::MarkPolicyApplied, ApplyAction::AdvanceJournal(RecoveryStage::PolicyApplied))
        } else {
            start_rollback(t, code_text(ErrorCode::GpuApplyFailed))
        },
        ApplyPhase::MarkPolicyApplied => if ok {
            go(t, ApplyPhase::RestartDevice, ApplyAction::RestartDevice)
        } else {
            start_rollback(t, event_code(e))
        },
        ApplyPhase::RestartDevice => if ok {
            go(t, ApplyPhase::MarkDeviceRestarted, ApplyAction::AdvanceJournal(RecoveryStage::DeviceRestarted))
        } else {
            start_rollback(t, code_text(ErrorCode::GpuRestartFailed))
        },
        ApplyPhase::MarkDeviceRestarted => if ok {
            go(t, ApplyPhase::ReadBack, ApplyAction::ReadPolicy)
        } else {
            start_rollback(t, event_code(e))
        },
        ApplyPhase::ReadBack => match e {
            EventView::PolicyRead(p) => if read_back_ok(p, t.bytes) {
                (
                    TxnView { phase: ApplyPhase::WriteRecord, verified: true, ..t },
                    ApplyAction::WriteRestoreRecord,
                )
            } else {
                start_rollback(t, code_text(ErrorCode::GpuApplyFailed))
            },
            _ => start_rollback(t, event_code(e)),
        },
        ApplyPhase::WriteRecord => if ok {
            go(t, ApplyPhase::ClearJournal, ApplyAction::ClearJournal)
        } else {
            start_rollback(t, code_text(ErrorCode::GpuApplyFailed))
        },
        ApplyPhase::ClearJournal => if ok {
            finish(t, Ok(()))
        } else {
            start_rollback(t, code_text(ErrorCode::GpuApplyFailed))
        },
        ApplyPhase::Restore => if ok {
            go(t, ApplyPhase::RollbackClearJournal, ApplyAction::ClearJournal)
        } else {
            go(t, ApplyPhase::MarkRestoreNeeded, ApplyAction::MarkRestoreNeeded)
        },
        ApplyPhase::RollbackClearJournal => go(
            t,
            ApplyPhase::RollbackClearRecord { journal_cleared: ok },
            ApplyAction::ClearRestoreRecord,
        ),
        ApplyPhase::RollbackClearRecord { journal_cleared } => if journal_cleared && ok {
            finish(t, Err((t.code, true)))
        } else {
            go(t, ApplyPhase::MarkRestoreNeeded, ApplyAction::MarkRestoreNeeded)
        },
        ApplyPhase::MarkRestoreNeeded => finish(t, Err((t.code, false))),
        ApplyPhase::Finished => (t, ApplyAction::Finish),
    }
}

/// The state after the events `evs`, one after the other, from `t`.
pub open spec fn apply_run(t: TxnView, evs: Seq<EventView>) -> TxnView
    decreases evs.len(),
{
    if evs.len() == 0 {
        t
    } else {
        apply_run(apply_next(t, evs[0]).0, evs.drop_first())
    }
}

/// The state in which a change of `instance` to `bytes` starts.
pub open spec fn apply_start(instance: Seq<char>, bytes: Seq<u8>) -> (TxnView, ApplyAction) {
    let t = TxnView {
        instance,
        bytes,
        snapshot: None,
        phase: ApplyPhase::ReadSnapshot,
        code: Seq::empty(),
        verified: false,
        outcome: None,
    };
    if valid_override(bytes) {
        (t, ApplyAction::ReadPolicy)
    } else {
        finish(t, Err((code_text(ErrorCode::BenchmarkSessionIncompatible), true)))
    }
}

/// Whether all bytes are zero.
fn all_zero(b: &Vec<u8>) -> (r: bool)
    ensures
        r == !exists|i: int| 0 <= i < b@.len() && b@[i] != 0,
{
    let mut i: usize = 0;
    while i < b.len()
        invariant
            0 <= i <= b@.len(),
            forall|k: int| 0 <= k < i ==> b@[k] == 0,
        decreases b@.len() - i,
    {
        if b[i] != 0 {
            return false;
        }
        i = i + 1;
    }
    true
}

/// Starts pinning the interrupts of `instance_id` to the LPs of
/// `override_bytes`. Bytes that are empty, longer than 8 or all zero are
/// refused at once (`BENCHMARK_SESSION_INCOMPATIBLE`, clean); otherwise the
/// first action is reading the snapshot.
pub fn apply_mask_to_gpu(instance_id: &str, override_bytes: Vec<u8>) -> (r: (ApplyTxn, ApplyAction))
    ensures
        (r.0@, r.1) == apply_start(instance_id@, override_bytes@),
{
    let empty = String::new();
    proof {
        assert(empty@ =~= Seq::<char>::empty());
    }
    let invalid = override_bytes.len() == 0 || override_bytes.len() > 8 || all_zero(&override_bytes);
    let mut t = ApplyTxn {
        instance_id: instance_id.to_owned(),
        override_bytes,
        snapshot: None,
        phase: ApplyPhase::ReadSnapshot,
        code: empty,
        verified: false,
        outcome: None,
    };
    if invalid {
        t.phase = ApplyPhase::Finished;
        t.outcome = Some(Err(ApplyError::clean(ErrorCode::BenchmarkSessionIncompatible.as_str())));
        return (t, ApplyAction::Finish);
    }
    (t, ApplyAction::ReadPolicy)
}

impl ApplyTxn {
    /// The policy the change writes.
    pub fn requested_policy(&self) -> (p: AffinityPolicy)
        ensures
            p@ == pinned_policy(self.instance_id@, self.override_bytes@),
    {
        AffinityPolicy::pinned(self.instance_id.as_str(), &self.override_bytes)
    }

    /// Enters rollback with `code`.
    fn rollback(&mut self, code: &str) -> (a: ApplyAction)
        ensures
            (final(self)@, a) == start_rollback(old(self)@, code@),
    {
        let restorable = match &self.snapshot {
            Some(s) => s.restorable(),
            None => false,
        };
        self.code = code.to_owned();
        if restorable {
            self.phase = ApplyPhase::Restore;
            ApplyAction::RestoreSnapshot
        } else {
            self.phase = ApplyPhase::MarkRestoreNeeded;
            ApplyAction::MarkRestoreNeeded
        }
    }

    /// Finishes with `outcome`.
    fn finish_with(&mut self, outcome: Result<(), ApplyError>) -> (a: ApplyAction)
        ensures
            (final(self)@, a) == finish(old(self)@, match outcome {
                Ok(()) => Ok(()),
                Err(e) => Err((e.code@, e.clean)),
            }),
    {
        self.phase = ApplyPhase::Finished;
        self.outcome = Some(outcome);
        ApplyAction::Finish
    }

    /// Takes the outcome of the last action and returns the next one (see
    /// [`apply_next`]).
    pub fn advance(&mut self, event: ApplyEvent) -> (a: ApplyAction)
        ensures
            (final(self)@, a) == apply_next(old(self)@, event@),
    {
        let ok = match &event {
            ApplyEvent::Succeeded => true,
            _ => false,
        };
        let code: String = match &event {
            ApplyEvent::Failed(c) => c.clone(),
            _ => ErrorCode::GpuApplyFailed.as_str().to_owned(),
        };
        match self.phase {
            ApplyPhase::ReadSnapshot => match event {
                ApplyEvent::PolicyRead(p) => {
                    self.snapshot = Some(p);
                    self.phase = ApplyPhase::BeginJournal;
                    ApplyAction::BeginJournal
                },
                _ => self.finish_with(Err(ApplyError::clean(code.as_str()))),
            },
            ApplyPhase::BeginJournal => if ok {
                self.phase = ApplyPhase::WritePolicy;
                ApplyAction::WritePolicy
            } else {
                self.finish_with(Err(ApplyError::clean(code.as_str())))
            },
            ApplyPhase::WritePolicy => if ok {
                self.phase = ApplyPhase::MarkPolicyApplied;
                ApplyAction::AdvanceJournal(RecoveryStage::PolicyApplied)
            } else {
                self.rollback(ErrorCode::GpuApplyFailed.as_str())
            },
            ApplyPhase::MarkPolicyApplied => if ok {
                self.phase = ApplyPhase::RestartDevice;
                ApplyAction::RestartDevice
            } else {
                self.rollback(code.as_str())
            },
            ApplyPhase::RestartDevice => if ok {
                self.phase = ApplyPhase::MarkDeviceRestarted;
                ApplyAction::AdvanceJournal(RecoveryStage::DeviceRestarted)
            } else {
                self.rollback(ErrorCode::GpuRestartFailed.as_str())
            },
            ApplyPhase::MarkDeviceRestarted => if ok {
                self.phase = ApplyPhase::ReadBack;
                ApplyAction::ReadPolicy
            } else {
                self.rollback(code.as_str())
            },
            ApplyPhase::ReadBack => match event {
                ApplyEvent::PolicyRead(p) => {
                    let matches = p.device_policy.as_dword() == Some(DEVICE_POLICY_SINGLE_PROCESSOR)
                        && match &p.assignment_set_override.bytes {
                        Some(b) => crate::gpu::same_bytes(b, &self.override_bytes),
                        None => false,
                    };
                    if matches {
                        self.phase = ApplyPhase::WriteRecord;
                        self.verified = true;
                        ApplyAction::WriteRestoreRecord
                    } else {
                        self.rollback(ErrorCode::GpuApplyFailed.as_str())
                    }
                },
                _ => self.rollback(code.as_str()),
            },
            ApplyPhase::WriteRecord => if ok {
                self.phase = ApplyPhase::ClearJournal;
                ApplyAction::ClearJournal
            } else {
                self.rollback(ErrorCode::GpuApplyFailed.as_str())
            },
            ApplyPhase::ClearJournal => if ok {
                self.finish_with(Ok(()))
            } else {
                self.rollback(ErrorCode::GpuApplyFailed.as_str())
            },
            ApplyPhase::Restore => if ok {
                self.phase = ApplyPhase::RollbackClearJournal;
                ApplyAction::ClearJournal
            } else {
                self.phase = ApplyPhase::MarkRestoreNeeded;
                ApplyAction::MarkRestoreNeeded
            },
            ApplyPhase::RollbackClearJournal => {
                self.phase = ApplyPhase::RollbackClearRecord { journal_cleared: ok };
                ApplyAction::ClearRestoreRecord
            },
            ApplyPhase::RollbackClearRecord { journal_cleared } => if journal_cleared && ok {
                let e = ApplyError::with_code(self.code.as_str(), true);
                self.finish_with(Err(e))
            } else {
                self.phase = ApplyPhase::MarkRestoreNeeded;
                ApplyAction::MarkRestoreNeeded
            },
            ApplyPhase::MarkRestoreNeeded => {
                let e = ApplyError::with_code(self.code.as_str(), false);
                self.finish_with(Err(e))
            },
            ApplyPhase::Finished => ApplyAction::Finish,
        }
    }
}

/// Whether `e` is the success the action of phase `ph` asks for (a matching
/// policy for the read-back).
pub open spec fn step_succeeded(t: TxnView, e: EventView) -> bool {
    match t.phase {
        ApplyPhase::ReadSnapshot => e is PolicyRead,
        ApplyPhase::ReadBack => match e {
            EventView::PolicyRead(p) => read_back_ok(p, t.bytes),
            _ => false,
        },
        _ => e is Succeeded,
    }
}

/// Whether the policy may have changed in phase `ph` (from the write on).
pub open spec fn mutating(ph: ApplyPhase) -> bool {
    ph == ApplyPhase::WritePolicy || ph == ApplyPhase::MarkPolicyApplied
        || ph == ApplyPhase::RestartDevice || ph == ApplyPhase::MarkDeviceRestarted
        || ph == ApplyPhase::ReadBack || ph == ApplyPhase::WriteRecord
        || ph == ApplyPhase::ClearJournal
}

/// What holds of every state the machine reaches from its start.
pub open spec fn apply_inv(t: TxnView) -> bool {
    &&& (t.phase == ApplyPhase::WriteRecord || t.phase == ApplyPhase::ClearJournal
        || t.outcome == Some(Ok::<(), (Seq<char>, bool)>(()))) ==> t.verified
    &&& (t.phase == ApplyPhase::Finished) == (t.outcome is Some)
    &&& t.phase != ApplyPhase::ReadSnapshot ==> (t.snapshot is Some || t.phase == ApplyPhase::Finished)
}

proof fn lemma_apply_inv_step(t: TxnView, e: EventView)
    requires
        apply_inv(t),
    ensures
        apply_inv(apply_next(t, e).0),
{
}

proof fn lemma_apply_inv_run(t: TxnView, evs: Seq<EventView>)
    requires
        apply_inv(t),
    ensures
        apply_inv(apply_run(t, evs)),
    decreases evs.len(),
{
    if evs.len() > 0 {
        lemma_apply_inv_step(t, evs[0]);
        lemma_apply_inv_run(apply_next(t, evs[0]).0, evs.drop_first());
    }
}

/// A finished transaction stays as it is, whatever comes.
pub proof fn law_apply_finished_is_final(t: TxnView, evs: Seq<EventView>)
    requires
        t.phase == ApplyPhase::Finished,
    ensures
        apply_run(t, evs) == t,
    decreases evs.len(),
{
    if evs.len() > 0 {
        law_apply_finished_is_final(apply_next(t, evs[0]).0, evs.drop_first());
    }
}

/// Law: a policy change reports success only after its read-back matched the
/// requested policy, whatever the back end reported along the way.
pub proof fn law_apply_success_is_verified(instance: Seq<char>, bytes: Seq<u8>, evs: Seq<EventView>)
    ensures
        apply_run(apply_start(instance, bytes).0, evs).outcome == Some(Ok::<(), (Seq<char>, bool)>(()))
            ==> apply_run(apply_start(instance, bytes).0, evs).verified,
{
    lemma_apply_inv_run(apply_start(instance, bytes).0, evs);
}

/// Law: the read-back is marked verified only by a read of the requested
/// policy in the read-back phase.
pub proof fn law_apply_verified_only_by_matching_read(t: TxnView, e: EventView)
    requires
        !t.verified,
        apply_next(t, e).0.verified,
    ensures
        t.phase == ApplyPhase::ReadBack,
        e matches EventView::PolicyRead(p) && read_back_ok(p, t.bytes),
{
}

/// Law: once the policy may have changed, every failure starts a rollback to
/// the snapshot taken before the change; a snapshot that may not be written
/// back fails the rollback at once and demands a full restore.
pub proof fn law_apply_failure_after_write_rolls_back(t: TxnView, e: EventView)
    requires
        mutating(t.phase),
        !step_succeeded(t, e),
    ensures
        restorable_snapshot(t) ==> apply_next(t, e).1 == ApplyAction::RestoreSnapshot
            && apply_next(t, e).0.phase == ApplyPhase::Restore,
        !restorable_snapshot(t) ==> apply_next(t, e).1 == ApplyAction::MarkRestoreNeeded
            && apply_next(t, e).0.phase == ApplyPhase::MarkRestoreNeeded,
        apply_next(t, e).0.snapshot == t.snapshot,
{
}

/// Law: a change that fails is clean only when it failed before anything was
/// written, or when its rollback wrote the snapshot back and then removed the
/// journal and the restore record; any other failure ends only after a
/// journal demanding a full restore was asked for.
pub proof fn law_apply_failure_clean_only_when_undone(t: TxnView, e: EventView)
    requires
        apply_inv(t),
        t.phase != ApplyPhase::Finished,
    ensures
        apply_next(t, e).0.outcome matches Some(Err((c, clean))) ==> (if clean {
            t.phase == ApplyPhase::ReadSnapshot || t.phase == ApplyPhase::BeginJournal
                || (t.phase == (ApplyPhase::RollbackClearRecord { journal_cleared: true }) && e is Succeeded)
        } else {
            t.phase == ApplyPhase::MarkRestoreNeeded
        }),
        apply_next(t, e).0.phase == (ApplyPhase::RollbackClearRecord { journal_cleared: true })
            ==> t.phase == ApplyPhase::RollbackClearJournal && e is Succeeded,
        apply_next(t, e).0.phase == ApplyPhase::RollbackClearJournal ==> t.phase == ApplyPhase::Restore && e is Succeeded,
{
}

/// The steps of a run of the events `evs` from `t`: the phase each event
/// answered and the event.
pub open spec fn apply_steps(t: TxnView, evs: Seq<EventView>) -> Seq<(ApplyPhase, EventView)>
    decreases evs.len(),
{
    if evs.len() == 0 {
        Seq::empty()
    } else {
        seq![(t.phase, evs[0])] + apply_steps(apply_next(t, evs[0]).0, evs.drop_first())
    }
}

/// Whether the steps asked for the new policy to be written.
pub open spec fn wrote(h: Seq<(ApplyPhase, EventView)>) -> bool {
    exists|i: int| 0 <= i < h.len() && (#[trigger] h[i]).0 == ApplyPhase::WritePolicy
}

/// Whether the steps hold a complete rollback: the snapshot written back,
/// then the journal and the restore record removed, each succeeding.
pub open spec fn rolled_back(h: Seq<(ApplyPhase, EventView)>) -> bool {
    exists|i: int| 0 <= i && i + 2 < h.len() && #[trigger] h[i] == (ApplyPhase::Restore, EventView::Succeeded)
        && h[i + 1] == (ApplyPhase::RollbackClearJournal, EventView::Succeeded)
        && h[i + 2] == (ApplyPhase::RollbackClearRecord { journal_cleared: true }, EventView::Succeeded)
}

/// Whether the steps asked for a journal demanding a full restore.
pub open spec fn marked(h: Seq<(ApplyPhase, EventView)>) -> bool {
    exists|i: int| 0 <= i < h.len() && (#[trigger] h[i]).0 == ApplyPhase::MarkRestoreNeeded
}

/// What a state says of the steps that led to it.
pub open spec fn history_inv(t: TxnView, h: Seq<(ApplyPhase, EventView)>) -> bool {
    &&& apply_inv(t)
    &&& (t.phase == ApplyPhase::ReadSnapshot || t.phase == ApplyPhase::BeginJournal) ==> !wrote(h)
    &&& t.phase == ApplyPhase::RollbackClearJournal ==> h.len() >= 1
        && h[h.len() - 1] == (ApplyPhase::Restore, EventView::Succeeded)
    &&& t.phase == (ApplyPhase::RollbackClearRecord { journal_cleared: true }) ==> h.len() >= 2
        && h[h.len() - 2] == (ApplyPhase::Restore, EventView::Succeeded)
        && h[h.len() - 1] == (ApplyPhase::RollbackClearJournal, EventView::Succeeded)
    &&& t.outcome matches Some(Err((c, clean))) ==> (if clean { !wrote(h) || rolled_back(h) } else { marked(h) })
}

proof fn lemma_history_step(t: TxnView, h: Seq<(ApplyPhase, EventView)>, e: EventView)
    requires
        history_inv(t, h),
    ensures
        history_inv(apply_next(t, e).0, h.push((t.phase, e))),
{
    let h2 = h.push((t.phase, e));
    lemma_apply_inv_step(t, e);
    assert forall|i: int| 0 <= i < h.len() implies #[trigger] h2[i] == h[i] by {}
    if wrote(h2) && !wrote(h) {
        assert(t.phase == ApplyPhase::WritePolicy);
    }
    if rolled_back(h) {
        let i = choose|i: int| 0 <= i && i + 2 < h.len() && #[trigger] h[i] == (ApplyPhase::Restore, EventView::Succeeded)
            && h[i + 1] == (ApplyPhase::RollbackClearJournal, EventView::Succeeded)
            && h[i + 2] == (ApplyPhase::RollbackClearRecord { journal_cleared: true }, EventView::Succeeded);
        assert(h2[i] == h[i] && h2[i + 1] == h[i + 1] && h2[i + 2] == h[i + 2]);
    }
    if marked(h) {
        let i = choose|i: int| 0 <= i < h.len() && (#[trigger] h[i]).0 == ApplyPhase::MarkRestoreNeeded;
        assert(h2[i] == h[i]);
    }
    if t.phase == ApplyPhase::MarkRestoreNeeded {
        assert(h2[h.len() as int].0 == ApplyPhase::MarkRestoreNeeded);
    }
    if t.phase == (ApplyPhase::RollbackClearRecord { journal_cleared: true }) && e is Succeeded {
        let i = h.len() - 2;
        assert(h2[i] == (ApplyPhase::Restore, EventView::Succeeded));
        assert(h2[i + 1] == (ApplyPhase::RollbackClearJournal, EventView::Succeeded));
        assert(h2[i + 2] == (ApplyPhase::RollbackClearRecord { journal_cleared: true }, EventView::Succeeded));
    }
}

proof fn lemma_history_run(t: TxnView, h: Seq<(ApplyPhase, EventView)>, evs: Seq<EventView>)
    requires
        history_inv(t, h),
    ensures
        history_inv(apply_run(t, evs), h + apply_steps(t, evs)),
    decreases evs.len(),
{
    if evs.len() == 0 {
        assert(h + apply_steps(t, evs) =~= h);
    } else {
        lemma_history_step(t, h, evs[0]);
        let n = apply_next(t, evs[0]).0;
        lemma_history_run(n, h.push((t.phase, evs[0])), evs.drop_first());
        assert(h + apply_steps(t, evs) =~= h.push((t.phase, evs[0])) + apply_steps(n, evs.drop_first()));
    }
}

/// Law: over any run of a change from its start, a failure is clean only
/// when the new policy was never written, or when the rollback wrote the
/// snapshot back and then removed the journal and the restore record, each
/// succeeding; any other failure asked for a journal demanding a full
/// restore (so the journal is never left where a crash would skip the
/// restore).
pub proof fn law_apply_run_failure_clean_only_when_undone(instance: Seq<char>, bytes: Seq<u8>, evs: Seq<EventView>)
    ensures
        ({
            let t0 = apply_start(instance, bytes).0;
            let h = apply_steps(t0, evs);
            apply_run(t0, evs).outcome matches Some(Err((c, clean))) ==> (if clean {
                !wrote(h) || rolled_back(h)
            } else {
                marked(h)
            })
        }),
{
    let t0 = apply_start(instance, bytes).0;
    let e: Seq<(ApplyPhase, EventView)> = Seq::empty();
    assert(!wrote(e));
    lemma_history_run(t0, e, evs);
    assert(e + apply_steps(t0, evs) =~= apply_steps(t0, evs));
}

/// The restore record after the steps `h` of a change whose snapshot is
/// `snap`, from the record `r` found before it: a record write that succeeded
/// replaces the record with the snapshot, a removal that succeeded leaves none,
/// and no other step touches it.
pub open spec fn record_after(
    r: Option<PolicyView>,
    snap: Option<PolicyView>,
    h: Seq<(ApplyPhase, EventView)>,
) -> Option<PolicyView>
    decreases h.len(),
{
    if h.len() == 0 {
        r
    } else {
        let last = h[h.len() - 1];
        if last == (ApplyPhase::WriteRecord, EventView::Succeeded) {
            snap
        } else if last.0 is RollbackClearRecord && last.1 is Succeeded {
            None
        } else {
            record_after(r, snap, h.drop_last())
        }
    }
}

/// What a state says of the restore record that its steps left.
spec fn record_inv(r: Option<PolicyView>, t: TxnView, h: Seq<(ApplyPhase, EventView)>) -> bool {
    &&& apply_inv(t)
    &&& (t.phase == ApplyPhase::ClearJournal || t.outcome == Some(Ok::<(), (Seq<char>, bool)>(())))
        ==> record_after(r, t.snapshot, h) == t.snapshot
}

proof fn lemma_record_run(r: Option<PolicyView>, t: TxnView, h: Seq<(ApplyPhase, EventView)>, evs: Seq<EventView>)
    requires
        record_inv(r, t, h),
    ensures
        record_inv(r, apply_run(t, evs), h + apply_steps(t, evs)),
    decreases evs.len(),
{
    if evs.len() == 0 {
        assert(h + apply_steps(t, evs) =~= h);
    } else {
        let e = evs[0];
        let h2 = h.push((t.phase, e));
        let n = apply_next(t, e).0;
        lemma_apply_inv_step(t, e);
        assert(h2.drop_last() =~= h);
        assert(record_inv(r, n, h2));
        lemma_record_run(r, n, h2, evs.drop_first());
        assert(h + apply_steps(t, evs) =~= h2 + apply_steps(n, evs.drop_first()));
    }
}

/// Law: a change that succeeded after its first read found policy `p` leaves
/// `p` as the restore record, whatever record was there before it: the
/// record holds one level, the latest successful change's snapshot.
pub proof fn law_apply_success_replaces_record(
    r: Option<PolicyView>,
    instance: Seq<char>,
    bytes: Seq<u8>,
    p: PolicyView,
    evs: Seq<EventView>,
)
    requires
        apply_run(apply_start(instance, bytes).0, seq![EventView::PolicyRead(p)] + evs).outcome
            == Some(Ok::<(), (Seq<char>, bool)>(())),
    ensures
        ({
            let t0 = apply_start(instance, bytes).0;
            let all = seq![EventView::PolicyRead(p)] + evs;
            record_after(r, apply_run(t0, all).snapshot, apply_steps(t0, all)) == Some(p)
        }),
{
    let t0 = apply_start(instance, bytes).0;
    let all = seq![EventView::PolicyRead(p)] + evs;
    let e: Seq<(ApplyPhase, EventView)> = Seq::empty();
    lemma_record_run(r, t0, e, all);
    assert(e + apply_steps(t0, all) =~= apply_steps(t0, all));
    assert(all[0] == EventView::PolicyRead(p));
    assert(all.drop_first() =~= evs);
    if t0.phase == ApplyPhase::Finished {
        law_apply_finished_is_final(t0, all);
    } else {
        let t1 = apply_next(t0, all[0]).0;
        assert(apply_run(t0, all) == apply_run(t1, evs));
        lemma_apply_snapshot_kept(t1, evs);
    }
}

/// Law: a change never asks for a snapshot to be written back unless it may
/// be (see `gpu::spec_restorable`).
pub proof fn law_apply_restores_only_restorable(t: TxnView, e: EventView)
    ensures
        apply_next(t, e).1 == ApplyAction::RestoreSnapshot ==> restorable_snapshot(apply_next(t, e).0),
{
}

/// Law: a failure before the first write finishes at once, clean, with the
/// back end's code and no rollback.
pub proof fn law_apply_failure_before_write_is_clean(t: TxnView, e: EventView)
    requires
        t.phase == ApplyPhase::ReadSnapshot || t.phase == ApplyPhase::BeginJournal,
        !step_succeeded(t, e),
    ensures
        apply_next(t, e).1 == ApplyAction::Finish,
        apply_next(t, e).0.outcome == Some(Err::<(), (Seq<char>, bool)>((event_code(e), true))),
{
}

/// Law: a rollback ends with the code it started with, and is clean exactly
/// when the restore, the journal removal and the record removal all
/// succeeded; otherwise a full-restore journal is asked for first.
pub proof fn law_rollback_clean_iff_all_succeeded(t: TxnView, evs: Seq<EventView>)
    requires
        t.phase == ApplyPhase::Restore,
        evs.len() >= 4,
    ensures
        apply_run(t, evs).outcome == Some(Err::<(), (Seq<char>, bool)>((t.code,
            evs[0] is Succeeded && evs[1] is Succeeded && evs[2] is Succeeded))),
{
    let t1 = apply_next(t, evs[0]).0;
    let r1 = evs.drop_first();
    let t2 = apply_next(t1, r1[0]).0;
    let r2 = r1.drop_first();
    let t3 = apply_next(t2, r2[0]).0;
    let r3 = r2.drop_first();
    let t4 = apply_next(t3, r3[0]).0;
    let r4 = r3.drop_first();
    assert(apply_run(t, evs) == apply_run(t1, r1));
    assert(apply_run(t1, r1) == apply_run(t2, r2));
    assert(apply_run(t2, r2) == apply_run(t3, r3));
    assert(apply_run(t3, r3) == apply_run(t4, r4));
    if t3.phase == ApplyPhase::Finished {
        law_apply_finished_is_final(t3, r3);
    } else {
        law_apply_finished_is_final(t4, r4);
    }
}

/// Law: outside a rollback, the journal is removed only once the change was
/// verified and its restore record written.
pub proof fn law_journal_cleared_only_after_record(t: TxnView, e: EventView)
    requires
        apply_inv(t),
        t.phase != ApplyPhase::Restore,
        apply_next(t, e).1 == ApplyAction::ClearJournal,
    ensures
        t.phase == ApplyPhase::WriteRecord,
        e is Succeeded,
        t.verified,
{
}

/// Once the snapshot is taken, no later step of a change replaces it.
pub(crate) proof fn lemma_apply_snapshot_kept(t: TxnView, evs: Seq<EventView>)
    requires
        t.phase != ApplyPhase::ReadSnapshot,
    ensures
        apply_run(t, evs).snapshot == t.snapshot,
    decreases evs.len(),
{
    if evs.len() > 0 {
        lemma_apply_snapshot_kept(apply_next(t, evs[0]).0, evs.drop_first());
    }
}

/// Law: when every action succeeds and the read-back matches, the change
/// succeeds after exactly nine actions.
pub proof fn law_apply_all_steps_succeed(instance: Seq<char>, bytes: Seq<u8>, snapshot: PolicyView, read: PolicyView)
    requires
        valid_override(bytes),
        read_back_ok(read, bytes),
    ensures
        apply_run(apply_start(instance, bytes).0, seq![
            EventView::PolicyRead(snapshot),
            EventView::Succeeded,
            EventView::Succeeded,
            EventView::Succeeded,
            EventView::Succeeded,
            EventView::Succeeded,
            EventView::PolicyRead(read),
            EventView::Succeeded,
            EventView::Succeeded,
        ]).outcome == Some(Ok::<(), (Seq<char>, bool)>(())),
{
    let evs = seq![
        EventView::PolicyRead(snapshot),
        EventView::Succeeded,
        EventView::Succeeded,
        EventView::Succeeded,
        EventView::Succeeded,
        EventView::Succeeded,
        EventView::PolicyRead(read),
        EventView::Succeeded,
        EventView::Succeeded,
    ];
    reveal_with_fuel(apply_run, 10);
    assert(evs.drop_first().drop_first().drop_first().drop_first().drop_first().drop_first().drop_first()
        .drop_first().drop_first() =~= Seq::<EventView>::empty());
}

} // verus!
