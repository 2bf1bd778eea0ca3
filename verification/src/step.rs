//! One measured capture step of a run: pin the adapter's interrupts to the
//! candidate under the crash-recovery journal, restart the device and let it
//! settle, check the policy took effect, then measure with up to
//! [`MAX_CAPTURE_ATTEMPTS`] attempts (a retry restarts the device first).
//!
//! The caller performs each action asked for and hands back a [`StepEvent`]:
//! the journal and registry writes, the restart, the sleeps, the workload and
//! its window, the capture itself.
use vstd::prelude::*;
use crate::bits::{le_trimmed, lp_mask};
use crate::capture_flow::{StepOutcome, MAX_CAPTURE_ATTEMPTS, spec_retry, next_buffer, step_mask};
use crate::physical::{CoreTarget, spec_candidates, target_view};
use crate::session_state::first_with_lp;
use crate::topology::Topology;
use crate::codes::{ErrorCode, code_text};
use crate::gpu::{AffinityPolicy, PolicyView, pinned_policy, spec_policy_matches, policy_matches};
use crate::recovery::RecoveryStage;
use crate::text::same_text;

verus! {

/// The progress reports of a step.
#[derive(Clone, Copy, Debug, PartialEq, Eq, Structural)]
pub enum StepStage {
    /// The candidate policy is being applied.
    Applying,
    /// The workload is being started.
    Launching,
    /// PresentMon is collecting.
    Collecting,
    /// The capture is kept.
    Collected,
}

/// What the caller must do next.
#[derive(Clone, Copy, Debug, PartialEq, Eq, Structural)]
pub enum StepAction {
    /// Report progress at this stage.
    Report(StepStage),
    /// Write the journal (stage `SnapshotTaken`) of the run's baseline policy.
    BeginJournal,
    /// Write [`CaptureStep::requested_policy`] to the registry.
    WritePolicy,
    /// Move the journal to this stage.
    AdvanceJournal(RecoveryStage),
    /// Restart the display device.
    RestartDevice,
    /// Let the device settle (`RESTART_STABILIZE_MS`), answering whether the
    /// run was cancelled meanwhile.
    Stabilize,
    /// Read the adapter's policy back.
    ReadPolicy,
    /// Start the workload.
    StartWorkload,
    /// Place the workload's window (on failure the workload is stopped;
    /// `"cancelled"` when cancelled).
    PrepareWindow,
    /// Let the workload warm up while watching its window (on failure the
    /// workload is stopped; `"cancelled"` when cancelled).
    Warmup,
    /// Capture attempt [`CaptureStep::attempt`] with buffer
    /// [`CaptureStep::buffer`].
    Capture,
    /// Report whether the run was cancelled.
    CheckCancel,
    /// Count one more window retry and report the count.
    CountWindowRetry,
    /// Report the window retries with the error that ended them.
    ReportWindowFailure,
    /// Stop: the outcome is set.
    Finish,
}

/// The outcome of the action asked for.
#[derive(Debug)]
pub enum StepEvent {
    Succeeded,
    Failed(String),
    PolicyRead(AffinityPolicy),
    /// The answer to a cancellation check.
    Cancel(bool),
}

/// The mathematical value of an event.
pub enum StepEventView {
    Succeeded,
    Failed(Seq<char>),
    PolicyRead(PolicyView),
    Cancel(bool),
}

impl View for StepEvent {
    type V = StepEventView;

    open spec fn view(&self) -> StepEventView {
        match self {
            StepEvent::Succeeded => StepEventView::Succeeded,
            StepEvent::Failed(c) => StepEventView::Failed(c@),
            StepEvent::PolicyRead(p) => StepEventView::PolicyRead(p@),
            StepEvent::Cancel(b) => StepEventView::Cancel(*b),
        }
    }
}

/// Where a step stands.
#[derive(Clone, Copy, Debug, PartialEq, Eq, Structural)]
pub enum StepPhase {
    Applying,
    Begin,
    Write,
    MarkApplied,
    Restart,
    Settle,
    MarkRestarted,
    Verify,
    Launching,
    RetryRestart,
    RetrySettle,
    Start,
    Prepare,
    Warmup,
    Collecting,
    Capture,
    AfterAttempt,
    CountRetry,
    RetryCancel,
    FinalCancel,
    ReportFailure,
    Collected,
    Finished,
}

/// The value of a step's outcome.
pub enum StepEnd {
    Continue,
    Isolated(Seq<char>),
    Cancelled,
    Failed(Seq<char>),
}

/// The value of a [`StepOutcome`].
pub open spec fn step_end(o: StepOutcome) -> StepEnd {
    match o {
        StepOutcome::Continue => StepEnd::Continue,
        StepOutcome::Isolated(e) => StepEnd::Isolated(e@),
        StepOutcome::Cancelled => StepEnd::Cancelled,
        StepOutcome::Failed(e) => StepEnd::Failed(e@),
    }
}

/// A capture step in flight.
#[derive(Debug)]
pub struct CaptureStep {
    pub instance_id: String,
    /// The override bytes of the candidate, or why there are none.
    pub mask: Result<Vec<u8>, ErrorCode>,
    /// Whether the policy is read back before measuring.
    pub verify_policy: bool,
    /// Whether a capture of the run already succeeded.
    pub any_success: bool,
    /// Attempts begun (each counted once its warm-up is over).
    pub attempt: u32,
    /// Circular buffer of the next capture.
    pub buffer: u32,
    /// The failure of the last attempt (`None` once it captured).
    pub last_error: Option<String>,
    pub phase: StepPhase,
    pub outcome: Option<StepOutcome>,
}

/// The mathematical value of a step.
pub struct StepView {
    pub instance: Seq<char>,
    pub mask: Result<Seq<u8>, ErrorCode>,
    pub verify: bool,
    pub any_success: bool,
    pub attempt: u32,
    pub buffer: u32,
    pub last_error: Option<Seq<char>>,
    pub phase: StepPhase,
    pub outcome: Option<StepEnd>,
}

impl View for CaptureStep {
    type V = StepView;

    open spec fn view(&self) -> StepView {
        StepView {
            instance: self.instance_id@,
            mask: match self.mask {
                Ok(m) => Ok(m@),
                Err(c) => Err(c),
            },
            verify: self.verify_policy,
            any_success: self.any_success,
            attempt: self.attempt,
            buffer: self.buffer,
            last_error: match self.last_error {
                Some(e) => Some(e@),
                None => None,
            },
            phase: self.phase,
            outcome: match self.outcome {
                Some(o) => Some(step_end(o)),
                None => None,
            },
        }
    }
}

/// The step finished with `end`.
pub open spec fn step_finish(t: StepView, end: StepEnd) -> (StepView, StepAction) {
    (StepView { phase: StepPhase::Finished, outcome: Some(end), ..t }, StepAction::Finish)
}

/// The step moves to `phase` and asks for `action`.
pub open spec fn step_go(t: StepView, phase: StepPhase, action: StepAction) -> (StepView, StepAction) {
    (StepView { phase, ..t }, action)
}

/// The code an event carries, or `otherwise`.
pub open spec fn step_code(e: StepEventView, otherwise: Seq<char>) -> Seq<char> {
    match e {
        StepEventView::Failed(c) => c,
        _ => otherwise,
    }
}

/// The text a cancelled workload action fails with.
pub open spec fn cancelled_text() -> Seq<char> {
    "cancelled"@
}

/// One more attempt (saturating).
pub open spec fn sat_inc(a: u32) -> u32 {
    if a < u32::MAX { (a + 1) as u32 } else { a }
}

/// What a final capture error means: a missing or empty CSV sets the LP
/// aside once a capture of the run succeeded; anything else fails the run.
pub open spec fn step_classify(e: Seq<char>, any_success: bool) -> StepEnd {
    if (e == code_text(ErrorCode::BenchmarkCaptureMissing) || e == code_text(ErrorCode::BenchmarkCaptureEmpty)) && any_success {
        StepEnd::Isolated(e)
    } else {
        StepEnd::Failed(e)
    }
}

/// The buffer of the next attempt (see [`next_buffer`]).
pub open spec fn spec_next_buffer(buffer: u32, double: bool) -> u32 {
    if !double { buffer } else if buffer * 2 > u32::MAX { u32::MAX } else { (buffer * 2) as u32 }
}

/// The start of an attempt: a retry restarts the device first.
pub open spec fn attempt_entry(t: StepView) -> (StepView, StepAction) {
    if t.attempt >= 1 {
        step_go(t, StepPhase::RetryRestart, StepAction::RestartDevice)
    } else {
        step_go(t, StepPhase::Start, StepAction::StartWorkload)
    }
}

/// After an attempt (not cancelled): retry as [`spec_retry`] decides (a
/// window failure is counted first, an overflow doubles the buffer), or go
/// to the final check.
pub open spec fn after_attempt(t: StepView) -> (StepView, StepAction) {
    match spec_retry(t.last_error, t.attempt) {
        Some(double) => if t.last_error == Some(code_text(ErrorCode::BenchmarkWindowIntegrity)) {
            step_go(t, StepPhase::CountRetry, StepAction::CountWindowRetry)
        } else {
            step_go(StepView { buffer: spec_next_buffer(t.buffer, double), ..t }, StepPhase::RetryCancel, StepAction::CheckCancel)
        },
        None => step_go(t, StepPhase::FinalCancel, StepAction::CheckCancel),
    }
}

/// The end of the attempts (not cancelled): a capture is kept; a window
/// failure is reported before it is classified; any other error is
/// classified (see [`step_classify`]).
pub open spec fn final_check(t: StepView) -> (StepView, StepAction) {
    match t.last_error {
        None => step_go(t, StepPhase::Collected, StepAction::Report(StepStage::Collected)),
        Some(e) => if e == code_text(ErrorCode::BenchmarkWindowIntegrity) {
            step_go(t, StepPhase::ReportFailure, StepAction::ReportWindowFailure)
        } else {
            step_finish(t, step_classify(e, t.any_success))
        },
    }
}

/// The transition of a step on the outcome of the action it asked for.
pub open spec fn step_next(t: StepView, e: StepEventView) -> (StepView, StepAction) {
    let apply_failed = code_text(ErrorCode::GpuApplyFailed);
    let restart_failed = code_text(ErrorCode::GpuRestartFailed);
    let ok = e is Succeeded;
    let cancel = e == StepEventView::Cancel(true);
    match t.phase {
        StepPhase::Applying => step_go(t, StepPhase::Begin, StepAction::BeginJournal),
        StepPhase::Begin => if ok {
            match t.mask {
                Err(c) => step_finish(t, StepEnd::Failed(code_text(c))),
                Ok(_) => step_go(t, StepPhase::Write, StepAction::WritePolicy),
            }
        } else {
            step_finish(t, StepEnd::Failed(step_code(e, apply_failed)))
        },
        StepPhase::Write => if ok {
            step_go(t, StepPhase::MarkApplied, StepAction::AdvanceJournal(RecoveryStage::PolicyApplied))
        } else {
            step_finish(t, StepEnd::Failed(apply_failed))
        },
        StepPhase::MarkApplied => if ok {
            step_go(t, StepPhase::Restart, StepAction::RestartDevice)
        } else {
            step_finish(t, StepEnd::Failed(step_code(e, apply_failed)))
        },
        StepPhase::Restart => if ok {
            step_go(t, StepPhase::Settle, StepAction::Stabilize)
        } else {
            step_finish(t, StepEnd::Failed(restart_failed))
        },
        StepPhase::Settle => if cancel {
            step_finish(t, StepEnd::Cancelled)
        } else {
            step_go(t, StepPhase::MarkRestarted, StepAction::AdvanceJournal(RecoveryStage::DeviceRestarted))
        },
        StepPhase::MarkRestarted => if !ok {
            step_finish(t, StepEnd::Failed(step_code(e, apply_failed)))
        } else if t.verify {
            step_go(t, StepPhase::Verify, StepAction::ReadPolicy)
        } else {
            step_go(t, StepPhase::Launching, StepAction::Report(StepStage::Launching))
        },
        StepPhase::Verify => match e {
            StepEventView::PolicyRead(p) => if t.mask matches Ok(m) && spec_policy_matches(pinned_policy(t.instance, m), p) {
                step_go(t, StepPhase::Launching, StepAction::Report(StepStage::Launching))
            } else {
                step_finish(t, StepEnd::Failed(apply_failed))
            },
            _ => step_finish(t, StepEnd::Failed(apply_failed)),
        },
        StepPhase::Launching => attempt_entry(t),
        StepPhase::RetryRestart => if ok {
            step_go(t, StepPhase::RetrySettle, StepAction::Stabilize)
        } else {
            step_finish(t, StepEnd::Failed(restart_failed))
        },
        StepPhase::RetrySettle => if cancel {
            step_finish(t, StepEnd::Cancelled)
        } else {
            step_go(t, StepPhase::Start, StepAction::StartWorkload)
        },
        StepPhase::Start => if ok {
            step_go(t, StepPhase::Prepare, StepAction::PrepareWindow)
        } else {
            step_finish(t, StepEnd::Failed(code_text(ErrorCode::BenchmarkWorkloadFailed)))
        },
        StepPhase::Prepare => if ok {
            step_go(t, StepPhase::Warmup, StepAction::Warmup)
        } else {
            let c = step_code(e, code_text(ErrorCode::BenchmarkWorkloadFailed));
            if c == cancelled_text() {
                step_finish(t, StepEnd::Cancelled)
            } else {
                step_finish(t, StepEnd::Failed(c))
            }
        },
        StepPhase::Warmup => {
            let counted = StepView { attempt: sat_inc(t.attempt), ..t };
            if ok {
                step_go(counted, StepPhase::Collecting, StepAction::Report(StepStage::Collecting))
            } else {
                let c = step_code(e, code_text(ErrorCode::BenchmarkWindowIntegrity));
                if c == cancelled_text() {
                    step_finish(counted, StepEnd::Cancelled)
                } else {
                    step_go(StepView { last_error: Some(c), ..counted }, StepPhase::AfterAttempt, StepAction::CheckCancel)
                }
            }
        },
        StepPhase::Collecting => step_go(t, StepPhase::Capture, StepAction::Capture),
        StepPhase::Capture => if ok {
            step_go(StepView { last_error: None, ..t }, StepPhase::AfterAttempt, StepAction::CheckCancel)
        } else {
            step_go(
                StepView { last_error: Some(step_code(e, code_text(ErrorCode::BenchmarkCaptureMissing))), ..t },
                StepPhase::AfterAttempt,
                StepAction::CheckCancel,
            )
        },
        StepPhase::AfterAttempt => if cancel {
            step_finish(t, StepEnd::Cancelled)
        } else {
            after_attempt(t)
        },
        StepPhase::CountRetry => step_go(t, StepPhase::RetryCancel, StepAction::CheckCancel),
        StepPhase::RetryCancel => if cancel {
            step_finish(t, StepEnd::Cancelled)
        } else {
            step_go(t, StepPhase::RetryRestart, StepAction::RestartDevice)
        },
        StepPhase::FinalCancel => if cancel {
            step_finish(t, StepEnd::Cancelled)
        } else {
            final_check(t)
        },
        StepPhase::ReportFailure => match t.last_error {
            Some(c) => step_finish(t, step_classify(c, t.any_success)),
            None => step_finish(t, StepEnd::Failed(code_text(ErrorCode::BenchmarkWindowIntegrity))),
        },
        StepPhase::Collected => step_finish(t, StepEnd::Continue),
        StepPhase::Finished => (t, StepAction::Finish),
    }
}

/// The state after the events `evs`, one after the other, from `t`.
pub open spec fn step_run(t: StepView, evs: Seq<StepEventView>) -> StepView
    decreases evs.len(),
{
    if evs.len() == 0 {
        t
    } else {
        step_run(step_next(t, evs[0]).0, evs.drop_first())
    }
}

/// A step of `instance` with the override `mask` (or why there is none).
pub open spec fn step_start(
    instance: Seq<char>,
    mask: Result<Seq<u8>, ErrorCode>,
    verify: bool,
    buffer: u32,
    any_success: bool,
) -> (StepView, StepAction) {
    (
        StepView {
            instance,
            mask,
            verify,
            any_success,
            attempt: 0,
            buffer,
            last_error: None,
            phase: StepPhase::Applying,
            outcome: None,
        },
        StepAction::Report(StepStage::Applying),
    )
}

/// Phases before the first attempt.
pub open spec fn before_attempts(p: StepPhase) -> bool {
    p == StepPhase::Applying || p == StepPhase::Begin || p == StepPhase::Write || p == StepPhase::MarkApplied
        || p == StepPhase::Restart || p == StepPhase::Settle || p == StepPhase::MarkRestarted
        || p == StepPhase::Verify || p == StepPhase::Launching
}

/// Phases on the way to a new attempt.
pub open spec fn toward_attempt(p: StepPhase) -> bool {
    p == StepPhase::CountRetry || p == StepPhase::RetryCancel || p == StepPhase::RetryRestart
        || p == StepPhase::RetrySettle || p == StepPhase::Start || p == StepPhase::Prepare || p == StepPhase::Warmup
}

/// Phases after an attempt was counted.
pub open spec fn after_counted(p: StepPhase) -> bool {
    p == StepPhase::Collecting || p == StepPhase::Capture || p == StepPhase::AfterAttempt
        || p == StepPhase::FinalCancel || p == StepPhase::ReportFailure || p == StepPhase::Collected
        || p == StepPhase::CountRetry || p == StepPhase::RetryCancel || p == StepPhase::RetryRestart
        || p == StepPhase::RetrySettle
}

/// What every step reached from [`step_start`] satisfies.
pub open spec fn step_wf(t: StepView) -> bool {
    &&& t.attempt <= MAX_CAPTURE_ATTEMPTS
    &&& (before_attempts(t.phase) ==> t.attempt == 0)
    &&& (toward_attempt(t.phase) ==> t.attempt < MAX_CAPTURE_ATTEMPTS)
    &&& (after_counted(t.phase) ==> t.attempt >= 1)
    &&& (t.phase == StepPhase::Collected ==> t.last_error is None)
    &&& (t.phase != StepPhase::Finished ==> t.outcome is None)
    &&& (t.outcome matches Some(StepEnd::Continue) ==> t.last_error is None && t.attempt >= 1)
    &&& (t.outcome matches Some(StepEnd::Isolated(c)) ==> t.any_success
        && (c == code_text(ErrorCode::BenchmarkCaptureMissing) || c == code_text(ErrorCode::BenchmarkCaptureEmpty)))
}

proof fn lemma_step_wf_step(t: StepView, e: StepEventView)
    requires
        step_wf(t),
    ensures
        step_wf(step_next(t, e).0),
        step_next(t, e).0.any_success == t.any_success,
{
}

proof fn lemma_step_wf_run(t: StepView, evs: Seq<StepEventView>)
    requires
        step_wf(t),
    ensures
        step_wf(step_run(t, evs)),
        step_run(t, evs).any_success == t.any_success,
    decreases evs.len(),
{
    if evs.len() > 0 {
        lemma_step_wf_step(t, evs[0]);
        lemma_step_wf_run(step_next(t, evs[0]).0, evs.drop_first());
    }
}

/// A finished step stays as it is, whatever comes.
pub proof fn law_step_finished_is_final(t: StepView, evs: Seq<StepEventView>)
    requires
        t.phase == StepPhase::Finished,
    ensures
        step_run(t, evs) == t,
    decreases evs.len(),
{
    if evs.len() > 0 {
        law_step_finished_is_final(step_next(t, evs[0]).0, evs.drop_first());
    }
}

/// Law: along any run of a step, at most [`MAX_CAPTURE_ATTEMPTS`] attempts
/// are counted; it ends kept (`Continue`) only after its last attempt
/// captured; and it sets its LP aside only for a missing or empty CSV once
/// another capture of the run succeeded.
pub proof fn law_step_outcomes(
    instance: Seq<char>,
    mask: Result<Seq<u8>, ErrorCode>,
    verify: bool,
    buffer: u32,
    any_success: bool,
    evs: Seq<StepEventView>,
)
    ensures
        ({
            let t = step_run(step_start(instance, mask, verify, buffer, any_success).0, evs);
            &&& t.attempt <= MAX_CAPTURE_ATTEMPTS
            &&& (t.outcome matches Some(StepEnd::Continue) ==> t.last_error is None && t.attempt >= 1)
            &&& (t.outcome matches Some(StepEnd::Isolated(c)) ==> any_success
                && (c == code_text(ErrorCode::BenchmarkCaptureMissing) || c == code_text(ErrorCode::BenchmarkCaptureEmpty)))
        }),
{
    lemma_step_wf_run(step_start(instance, mask, verify, buffer, any_success).0, evs);
}

/// Law: the policy is written only once the journal was begun, and only
/// when the candidate has override bytes.
pub proof fn law_step_writes_under_journal(t: StepView, e: StepEventView)
    ensures
        step_next(t, e).1 == StepAction::WritePolicy ==> t.phase == StepPhase::Begin && e is Succeeded && t.mask is Ok,
{
}

/// Law: every workload start but the first follows a device restart and the
/// wait for it to settle.
pub proof fn law_step_retry_restarts_first(t: StepView, e: StepEventView)
    ensures
        step_next(t, e).1 == StepAction::StartWorkload
            ==> (t.phase == StepPhase::Launching && t.attempt == 0) || t.phase == StepPhase::RetrySettle,
        step_next(t, e).1 == StepAction::Stabilize ==> t.phase == StepPhase::Restart || t.phase == StepPhase::RetryRestart,
        t.phase == StepPhase::RetryRestart && step_next(t, e).1 == StepAction::Stabilize ==> e is Succeeded,
{
}

/// Law: a step that reads the policy back measures nothing unless the
/// registry holds exactly the candidate's pinned policy.
pub proof fn law_step_measures_verified_policy(t: StepView, e: StepEventView)
    requires
        t.verify,
        t.phase != StepPhase::Launching,
    ensures
        step_next(t, e).0.phase == StepPhase::Launching ==> (t.phase == StepPhase::Verify
            && t.mask is Ok && (e matches StepEventView::PolicyRead(p) && spec_policy_matches(pinned_policy(t.instance, t.mask->Ok_0), p))),
{
}

/// Law: a cancel seen at any check ends the step as cancelled.
pub proof fn law_step_cancel_wins(t: StepView)
    requires
        t.phase == StepPhase::Settle || t.phase == StepPhase::RetrySettle || t.phase == StepPhase::AfterAttempt
            || t.phase == StepPhase::RetryCancel || t.phase == StepPhase::FinalCancel,
    ensures
        step_next(t, StepEventView::Cancel(true)).0.outcome matches Some(StepEnd::Cancelled),
        step_next(t, StepEventView::Cancel(true)).1 == StepAction::Finish,
{
}

/// The code an event carries, or `otherwise`.
fn code_of(e: &StepEvent, otherwise: ErrorCode) -> (r: String)
    ensures
        r@ == step_code(e@, code_text(otherwise)),
{
    match e {
        StepEvent::Failed(c) => c.clone(),
        _ => otherwise.as_str().to_owned(),
    }
}

/// What a final capture error means (see [`step_classify`]).
fn classify(e: String, any_success: bool) -> (r: StepOutcome)
    ensures
        step_end(r) == step_classify(e@, any_success),
{
    let csv_failure = same_text(e.as_str(), ErrorCode::BenchmarkCaptureMissing.as_str())
        || same_text(e.as_str(), ErrorCode::BenchmarkCaptureEmpty.as_str());
    if csv_failure && any_success {
        StepOutcome::Isolated(e)
    } else {
        StepOutcome::Failed(e)
    }
}

impl CaptureStep {
    /// A step of `instance_id` with the override `mask` (or why there is
    /// none); `verify_policy` reads the policy back before measuring.
    pub fn start(
        instance_id: &str,
        mask: Result<Vec<u8>, ErrorCode>,
        verify_policy: bool,
        buffer: u32,
        any_success: bool,
    ) -> (r: (Self, StepAction))
        ensures
            (r.0@, r.1) == step_start(instance_id@, match mask {
                Ok(m) => Ok(m@),
                Err(c) => Err(c),
            }, verify_policy, buffer, any_success),
    {
        (
            CaptureStep {
                instance_id: instance_id.to_owned(),
                mask,
                verify_policy,
                any_success,
                attempt: 0,
                buffer,
                last_error: None,
                phase: StepPhase::Applying,
                outcome: None,
            },
            StepAction::Report(StepStage::Applying),
        )
    }

    /// The step of a quick test on `lp`: the candidate core whose first LP
    /// it is (see `capture_flow::step_mask`), read back before measuring.
    pub fn for_quick(
        instance_id: &str,
        candidates: &Vec<CoreTarget>,
        lp: u32,
        topo: &Topology,
        buffer: u32,
        any_success: bool,
    ) -> (r: (Self, StepAction))
        ensures
            (r.0@, r.1) == step_start(instance_id@, r.0@.mask, true, buffer, any_success),
            match first_with_lp(candidates@, Some(lp), candidates@.len() as int) {
                None => r.0.mask == Err::<Vec<u8>, ErrorCode>(ErrorCode::BenchmarkSessionIncompatible),
                Some(k) => {
                    &&& (spec_candidates(*topo).contains(target_view(candidates@[k])) <==> r.0.mask is Ok)
                    &&& (r.0.mask is Err ==> r.0.mask == Err::<Vec<u8>, ErrorCode>(ErrorCode::BenchmarkSessionIncompatible))
                    &&& (r.0.mask matches Ok(bytes) ==> bytes@ == le_trimmed(lp_mask(candidates@[k].lp_indices@)))
                },
            },
    {
        let mask = step_mask(candidates, lp, topo);
        Self::start(instance_id, mask, true, buffer, any_success)
    }

    /// The policy [`StepAction::WritePolicy`] writes: the adapter pinned to
    /// the candidate's LPs.
    pub fn requested_policy(&self) -> (p: Option<AffinityPolicy>)
        ensures
            match self.mask {
                Ok(m) => p matches Some(q) && q@ == pinned_policy(self.instance_id@, m@),
                Err(_) => p is None,
            },
    {
        match &self.mask {
            Ok(m) => Some(AffinityPolicy::pinned(self.instance_id.as_str(), m)),
            Err(_) => None,
        }
    }

    fn finish(&mut self, end: StepOutcome) -> (a: StepAction)
        ensures
            (final(self)@, a) == step_finish(old(self)@, step_end(end)),
    {
        self.phase = StepPhase::Finished;
        self.outcome = Some(end);
        StepAction::Finish
    }

    fn go(&mut self, phase: StepPhase, action: StepAction) -> (a: StepAction)
        ensures
            (final(self)@, a) == step_go(old(self)@, phase, action),
    {
        self.phase = phase;
        action
    }

    fn fail(&mut self, code: ErrorCode) -> (a: StepAction)
        ensures
            (final(self)@, a) == step_finish(old(self)@, StepEnd::Failed(code_text(code))),
    {
        self.finish(StepOutcome::Failed(code.as_str().to_owned()))
    }

    fn attempt_entry(&mut self) -> (a: StepAction)
        ensures
            (final(self)@, a) == attempt_entry(old(self)@),
    {
        if self.attempt >= 1 {
            self.go(StepPhase::RetryRestart, StepAction::RestartDevice)
        } else {
            self.go(StepPhase::Start, StepAction::StartWorkload)
        }
    }

    fn after_attempt(&mut self) -> (a: StepAction)
        ensures
            (final(self)@, a) == after_attempt(old(self)@),
    {
        let window = match &self.last_error {
            Some(e) => same_text(e.as_str(), ErrorCode::BenchmarkWindowIntegrity.as_str()),
            None => false,
        };
        let retry = match &self.last_error {
            Some(e) => crate::capture_flow::capture_retry(Some(e.as_str()), self.attempt),
            None => crate::capture_flow::capture_retry(None, self.attempt),
        };
        match retry {
            Some(double) => if window {
                self.go(StepPhase::CountRetry, StepAction::CountWindowRetry)
            } else {
                self.buffer = next_buffer(self.buffer, double);
                self.go(StepPhase::RetryCancel, StepAction::CheckCancel)
            },
            None => self.go(StepPhase::FinalCancel, StepAction::CheckCancel),
        }
    }

    fn final_check(&mut self) -> (a: StepAction)
        ensures
            (final(self)@, a) == final_check(old(self)@),
    {
        match self.last_error.clone() {
            None => self.go(StepPhase::Collected, StepAction::Report(StepStage::Collected)),
            Some(e) => if same_text(e.as_str(), ErrorCode::BenchmarkWindowIntegrity.as_str()) {
                self.go(StepPhase::ReportFailure, StepAction::ReportWindowFailure)
            } else {
                let end = classify(e, self.any_success);
                self.finish(end)
            },
        }
    }

    /// Takes the outcome of the last action and returns the next one (see
    /// [`step_next`]).
    pub fn advance(&mut self, event: StepEvent) -> (a: StepAction)
        ensures
            (final(self)@, a) == step_next(old(self)@, event@),
    {
        let ok = match &event {
            StepEvent::Succeeded => true,
            _ => false,
        };
        let cancel = match &event {
            StepEvent::Cancel(b) => *b,
            _ => false,
        };
        match self.phase {
            StepPhase::Applying => self.go(StepPhase::Begin, StepAction::BeginJournal),
            StepPhase::Begin => if ok {
                match &self.mask {
                    Err(c) => {
                        let c = *c;
                        self.fail(c)
                    },
                    Ok(_) => self.go(StepPhase::Write, StepAction::WritePolicy),
                }
            } else {
                let c = code_of(&event, ErrorCode::GpuApplyFailed);
                self.finish(StepOutcome::Failed(c))
            },
            StepPhase::Write => if ok {
                self.go(StepPhase::MarkApplied, StepAction::AdvanceJournal(RecoveryStage::PolicyApplied))
            } else {
                self.fail(ErrorCode::GpuApplyFailed)
            },
            StepPhase::MarkApplied => if ok {
                self.go(StepPhase::Restart, StepAction::RestartDevice)
            } else {
                let c = code_of(&event, ErrorCode::GpuApplyFailed);
                self.finish(StepOutcome::Failed(c))
            },
            StepPhase::Restart => if ok {
                self.go(StepPhase::Settle, StepAction::Stabilize)
            } else {
                self.fail(ErrorCode::GpuRestartFailed)
            },
            StepPhase::Settle => if cancel {
                self.finish(StepOutcome::Cancelled)
            } else {
                self.go(StepPhase::MarkRestarted, StepAction::AdvanceJournal(RecoveryStage::DeviceRestarted))
            },
            StepPhase::MarkRestarted => if !ok {
                let c = code_of(&event, ErrorCode::GpuApplyFailed);
                self.finish(StepOutcome::Failed(c))
            } else if self.verify_policy {
                self.go(StepPhase::Verify, StepAction::ReadPolicy)
            } else {
                self.go(StepPhase::Launching, StepAction::Report(StepStage::Launching))
            },
            StepPhase::Verify => {
                let same = match (&event, &self.mask) {
                    (StepEvent::PolicyRead(p), Ok(m)) => {
                        let expected = AffinityPolicy::pinned(self.instance_id.as_str(), m);
                        policy_matches(&expected, p)
                    },
                    _ => false,
                };
                if same {
                    self.go(StepPhase::Launching, StepAction::Report(StepStage::Launching))
                } else {
                    self.fail(ErrorCode::GpuApplyFailed)
                }
            },
            StepPhase::Launching => self.attempt_entry(),
            StepPhase::RetryRestart => if ok {
                self.go(StepPhase::RetrySettle, StepAction::Stabilize)
            } else {
                self.fail(ErrorCode::GpuRestartFailed)
            },
            StepPhase::RetrySettle => if cancel {
                self.finish(StepOutcome::Cancelled)
            } else {
                self.go(StepPhase::Start, StepAction::StartWorkload)
            },
            StepPhase::Start => if ok {
                self.go(StepPhase::Prepare, StepAction::PrepareWindow)
            } else {
                self.fail(ErrorCode::BenchmarkWorkloadFailed)
            },
            StepPhase::Prepare => if ok {
                self.go(StepPhase::Warmup, StepAction::Warmup)
            } else {
                let c = code_of(&event, ErrorCode::BenchmarkWorkloadFailed);
                if same_text(c.as_str(), "cancelled") {
                    self.finish(StepOutcome::Cancelled)
                } else {
                    self.finish(StepOutcome::Failed(c))
                }
            },
            StepPhase::Warmup => {
                if self.attempt < u32::MAX {
                    self.attempt = self.attempt + 1;
                }
                if ok {
                    self.go(StepPhase::Collecting, StepAction::Report(StepStage::Collecting))
                } else {
                    let c = code_of(&event, ErrorCode::BenchmarkWindowIntegrity);
                    if same_text(c.as_str(), "cancelled") {
                        self.finish(StepOutcome::Cancelled)
                    } else {
                        self.last_error = Some(c);
                        self.go(StepPhase::AfterAttempt, StepAction::CheckCancel)
                    }
                }
            },
            StepPhase::Collecting => self.go(StepPhase::Capture, StepAction::Capture),
            StepPhase::Capture => {
                if ok {
                    self.last_error = None;
                } else {
                    self.last_error = Some(code_of(&event, ErrorCode::BenchmarkCaptureMissing));
                }
                self.go(StepPhase::AfterAttempt, StepAction::CheckCancel)
            },
            StepPhase::AfterAttempt => if cancel {
                self.finish(StepOutcome::Cancelled)
            } else {
                self.after_attempt()
            },
            StepPhase::CountRetry => self.go(StepPhase::RetryCancel, StepAction::CheckCancel),
            StepPhase::RetryCancel => if cancel {
                self.finish(StepOutcome::Cancelled)
            } else {
                self.go(StepPhase::RetryRestart, StepAction::RestartDevice)
            },
            StepPhase::FinalCancel => if cancel {
                self.finish(StepOutcome::Cancelled)
            } else {
                self.final_check()
            },
            StepPhase::ReportFailure => match self.last_error.clone() {
                Some(c) => {
                    let end = classify(c, self.any_success);
                    self.finish(end)
                },
                None => self.fail(ErrorCode::BenchmarkWindowIntegrity),
            },
            StepPhase::Collected => self.finish(StepOutcome::Continue),
            StepPhase::Finished => StepAction::Finish,
        }
    }
}

} // verus!
