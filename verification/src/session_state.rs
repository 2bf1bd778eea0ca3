//! The run-time state the front end reads while a benchmark runs: what a
//! start checks first, how the state is set when a run starts, follows its
//! progress, and settles when it ends.
use vstd::prelude::*;
use crate::assets::AssetError;
use crate::codes::{ErrorCode, code_text};
use crate::gate::{adapter_present, listed};
use crate::model::{
    BenchmarkOperation, BenchmarkProgress, BenchmarkStage, BenchmarkState, SessionStatus, WindowIntegrity,
    WindowLayout,
};
use crate::physical::{CoreTarget, target_view};
use crate::runner::runner_stage_to_enum;

verus! {

/// Why a benchmark cannot start, if it cannot: a pending recovery, another GPU
/// operation in progress (`busy`, the reservation's error); then the
/// configuration must be valid, the tools verified, a GPU named, present, and
/// the basic display enabled. Back-end errors are passed on.
pub open spec fn start_error(
    recovery_required: bool,
    busy: Option<Seq<char>>,
    config_ok: bool,
    assets: Result<(), Seq<char>>,
    instance: Option<Seq<char>>,
    adapters: Result<Seq<String>, Seq<char>>,
    basic_display: Result<bool, Seq<char>>,
) -> Option<Seq<char>> {
    if recovery_required {
        Some(code_text(ErrorCode::BenchmarkRecoveryRequired))
    } else if busy is Some {
        busy
    } else if !config_ok {
        Some(code_text(ErrorCode::BenchmarkInvalidConfig))
    } else if assets is Err {
        Some(assets->Err_0)
    } else if instance is None {
        Some(code_text(ErrorCode::BenchmarkInvalidConfig))
    } else if adapters is Err {
        Some(adapters->Err_0)
    } else if !listed(adapters->Ok_0, instance->Some_0) {
        Some(code_text(ErrorCode::GpuNotFound))
    } else if basic_display is Err {
        Some(basic_display->Err_0)
    } else if !(basic_display->Ok_0) {
        Some(code_text(ErrorCode::GpuBasicDisplayDisabled))
    } else {
        None
    }
}

/// The code of a tool-check result.
pub open spec fn assets_code(a: Result<(), AssetError>) -> Result<(), Seq<char>> {
    match a {
        Ok(()) => Ok(()),
        Err(AssetError::HashMismatch(_)) => Err(code_text(ErrorCode::BenchmarkAssetsHashMismatch)),
        Err(_) => Err(code_text(ErrorCode::BenchmarkAssetsMissing)),
    }
}

/// The checks before a benchmark starts (see [`start_error`]): on success the
/// adapter instance to test.
pub fn start_precheck(
    recovery_required: bool,
    busy: Option<String>,
    config_ok: bool,
    assets: Result<(), AssetError>,
    instance: Option<&String>,
    adapters: Result<Vec<String>, String>,
    basic_display: Result<bool, String>,
) -> (r: Result<String, String>)
    ensures
        match start_error(recovery_required, match busy { Some(b) => Some(b@), None => None }, config_ok, assets_code(assets), match instance { Some(i) => Some(i@), None => None },
            match adapters { Ok(a) => Ok(a@), Err(e) => Err(e@) }, match basic_display { Ok(b) => Ok(b), Err(e) => Err(e@) }) {
            Some(e) => r matches Err(x) && x@ == e,
            None => r matches Ok(i) && i@ == instance->Some_0@,
        },
{
    if recovery_required {
        return Err(ErrorCode::BenchmarkRecoveryRequired.as_str().to_owned());
    }
    match busy {
        Some(b) => return Err(b),
        None => {},
    }
    if !config_ok {
        return Err(ErrorCode::BenchmarkInvalidConfig.as_str().to_owned());
    }
    match &assets {
        Err(e) => return Err(e.code().as_str().to_owned()),
        Ok(()) => {},
    }
    let id = match instance {
        None => return Err(ErrorCode::BenchmarkInvalidConfig.as_str().to_owned()),
        Some(i) => i,
    };
    let list = match adapters {
        Err(e) => return Err(e),
        Ok(l) => l,
    };
    if !adapter_present(&list, id.as_str()) {
        return Err(ErrorCode::GpuNotFound.as_str().to_owned());
    }
    match basic_display {
        Err(e) => Err(e),
        Ok(false) => Err(ErrorCode::GpuBasicDisplayDisabled.as_str().to_owned()),
        Ok(true) => Ok(id.clone()),
    }
}

/// A copy of a target.
pub fn copy_target(t: &CoreTarget) -> (r: CoreTarget)
    ensures
        target_view(r) == target_view(*t),
{
    let mut lps: Vec<u32> = Vec::new();
    let mut i: usize = 0;
    while i < t.lp_indices.len()
        invariant
            0 <= i <= t.lp_indices@.len(),
            lps@ == t.lp_indices@.take(i as int),
        decreases t.lp_indices@.len() - i,
    {
        lps.push(t.lp_indices[i]);
        i = i + 1;
        assert(lps@ =~= t.lp_indices@.take(i as int));
    }
    assert(t.lp_indices@.take(t.lp_indices@.len() as int) =~= t.lp_indices@);
    CoreTarget { core_id: t.core_id, lp_indices: lps }
}

/// A window-integrity record with nothing observed yet.
pub fn clear_integrity() -> (w: WindowIntegrity)
    ensures
        !w.foreground && !w.minimized && !w.position && !w.occlusion && w.retries == 0 && w.error is None,
{
    WindowIntegrity { foreground: false, minimized: false, position: false, occlusion: false, retries: 0, error: None }
}

impl BenchmarkState {
    /// A run starts: running, the new session, stage init, nothing measured
    /// yet, the benchmark operation, the compact layout, a clear window record.
    /// The cancel fields and the recovery flag are kept.
    pub fn begin_run(&mut self, session_id: String)
        ensures
            final(self).status == SessionStatus::Running,
            final(self).session_id matches Some(s) && s@ == session_id@,
            final(self).stage == BenchmarkStage::Init,
            final(self).progress_pct == 0,
            final(self).elapsed_secs == 0,
            final(self).current_lp is None,
            final(self).current_target is None,
            final(self).current_phase is None,
            final(self).operation == Some(BenchmarkOperation::Benchmark),
            final(self).window_layout == WindowLayout::CompactProgress,
            !final(self).window_integrity.foreground && final(self).window_integrity.retries == 0
                && final(self).window_integrity.error is None,
            final(self).recovery_required == old(self).recovery_required,
            final(self).cancel_requested == old(self).cancel_requested,
    {
        self.status = SessionStatus::Running;
        self.session_id = Some(session_id);
        self.stage = BenchmarkStage::Init;
        self.progress_pct = 0;
        self.elapsed_secs = 0;
        self.current_lp = None;
        self.current_target = None;
        self.current_phase = None;
        self.operation = Some(BenchmarkOperation::Benchmark);
        self.window_layout = WindowLayout::CompactProgress;
        self.window_integrity = clear_integrity();
    }

    /// A progress event arrives: session, stage, LP and percentage follow it;
    /// the target, the phase and the cancel fields only when the event has
    /// them (a plain event must not erase a requested cancel).
    pub fn apply_progress(&mut self, p: &BenchmarkProgress, elapsed_secs: u64)
        ensures
            final(self).session_id matches Some(s) && s@ == p.session_id@,
            final(self).stage == (if p.stage@ == "collecting"@ {
                BenchmarkStage::Collecting
            } else if p.stage@ == "finalizing"@ {
                BenchmarkStage::Finalizing
            } else if p.stage@ == "applying"@ || p.stage@ == "launching"@ || p.stage@ == "restarting"@ {
                BenchmarkStage::Warmup
            } else {
                BenchmarkStage::Init
            }),
            final(self).current_lp == p.lp,
            p.target is Some ==> final(self).current_target is Some
                && target_view(final(self).current_target->Some_0) == target_view(p.target->Some_0),
            p.target is None ==> final(self).current_target == old(self).current_target,
            final(self).current_phase == (if p.phase is Some { p.phase } else { old(self).current_phase }),
            final(self).progress_pct == p.percentage,
            final(self).elapsed_secs == elapsed_secs,
            p.cancel_stage is Some ==> (final(self).cancel_stage matches Some(c) && c@ == p.cancel_stage->Some_0@),
            p.cancel_stage is None ==> final(self).cancel_stage == old(self).cancel_stage,
            final(self).cancel_progress == (if p.cancel_progress is Some { p.cancel_progress } else { old(self).cancel_progress }),
            final(self).status == old(self).status,
            final(self).recovery_required == old(self).recovery_required,
    {
        self.session_id = Some(p.session_id.clone());
        self.stage = runner_stage_to_enum(p.stage.as_str());
        self.current_lp = p.lp;
        match &p.target {
            Some(t) => {
                self.current_target = Some(copy_target(t));
            },
            None => {},
        }
        if p.phase.is_some() {
            self.current_phase = p.phase;
        }
        self.progress_pct = p.percentage;
        self.elapsed_secs = elapsed_secs;
        match &p.cancel_stage {
            Some(c) => {
                self.cancel_stage = Some(c.clone());
            },
            None => {},
        }
        if p.cancel_progress.is_some() {
            self.cancel_progress = p.cancel_progress;
        }
    }

    /// A cancel was requested: shown at once as requested, at 0%, before the
    /// runner reaches its next boundary.
    pub fn request_cancel(&mut self)
        ensures
            final(self).cancel_requested,
            final(self).cancel_stage matches Some(c) && c@ == "requested"@,
            final(self).cancel_progress == Some(0u32),
            final(self).status == old(self).status,
            final(self).session_id == old(self).session_id,
    {
        self.cancel_requested = true;
        self.cancel_stage = Some("requested".to_owned());
        self.cancel_progress = Some(0);
    }

    /// The cancel of a previous run is forgotten before a new one starts
    /// (else it would be cancelled at once).
    pub fn reset_cancel(&mut self)
        ensures
            !final(self).cancel_requested,
            final(self).cancel_stage is None,
            final(self).cancel_progress is None,
            final(self).status == old(self).status,
    {
        self.cancel_requested = false;
        self.cancel_stage = None;
        self.cancel_progress = None;
    }

    /// A run ended with `status`: full progress, finalizing, nothing current,
    /// no operation, the normal layout; a run that could not restore the
    /// policy raises the recovery flag (it is never lowered here). The session
    /// id, the busy flag, the cancel fields and the window integrity stay.
    pub fn finish_run(&mut self, status: SessionStatus, elapsed_secs: u64, recovery_required: bool)
        ensures
            final(self).status == status,
            final(self).progress_pct == 100,
            final(self).stage == BenchmarkStage::Finalizing,
            final(self).current_lp is None,
            final(self).current_target is None,
            final(self).current_phase is None,
            final(self).elapsed_secs == elapsed_secs,
            final(self).operation is None,
            final(self).window_layout == WindowLayout::Normal,
            final(self).recovery_required == (old(self).recovery_required || recovery_required),
            final(self).gpu_busy == old(self).gpu_busy,
            final(self).session_id == old(self).session_id,
            final(self).cancel_requested == old(self).cancel_requested,
            final(self).window_integrity == old(self).window_integrity,
            final(self).cancel_stage == old(self).cancel_stage,
            final(self).cancel_progress == old(self).cancel_progress,
    {
        self.status = status;
        self.progress_pct = 100;
        self.stage = BenchmarkStage::Finalizing;
        self.current_lp = None;
        self.current_target = None;
        self.current_phase = None;
        self.elapsed_secs = elapsed_secs;
        self.operation = None;
        self.window_layout = WindowLayout::Normal;
        if recovery_required {
            self.recovery_required = true;
        }
    }
}

/// The last progress event of a run, sent once its final state is stored:
/// finalizing at 100%, with the error; a cancelled run also marks the cancel
/// as finalizing at 100%.
pub fn final_progress(session_id: &str, status: SessionStatus, error: Option<String>) -> (p: BenchmarkProgress)
    ensures
        p.session_id@ == session_id@,
        p.stage@ == "finalizing"@,
        p.percentage == 100,
        p.target is None && p.round is None && p.phase is None && p.phase_round is None && p.lp is None,
        p.eta_secs is None && p.window_integrity is None,
        p.error == error,
        status == SessionStatus::Cancelled ==> (p.cancel_stage matches Some(c) && c@ == "finalizing"@)
            && p.cancel_progress == Some(100u32),
        status != SessionStatus::Cancelled ==> p.cancel_stage is None && p.cancel_progress is None,
{
    let cancelled = status == SessionStatus::Cancelled;
    BenchmarkProgress {
        target: None,
        session_id: session_id.to_owned(),
        stage: "finalizing".to_owned(),
        round: None,
        phase: None,
        phase_round: None,
        lp: None,
        percentage: 100,
        eta_secs: None,
        error,
        window_integrity: None,
        cancel_stage: if cancelled { Some("finalizing".to_owned()) } else { None },
        cancel_progress: if cancelled { Some(100) } else { None },
    }
}

/// The first LP of a target, if it has any.
pub open spec fn first_lp(t: CoreTarget) -> Option<u32> {
    if t.lp_indices@.len() > 0 { Some(t.lp_indices@[0]) } else { None }
}

/// The first of the first `n` targets whose first LP is `lp`.
pub open spec fn first_with_lp(ts: Seq<CoreTarget>, lp: Option<u32>, n: int) -> Option<int>
    decreases n,
{
    if n <= 0 {
        None
    } else {
        match first_with_lp(ts, lp, n - 1) {
            Some(k) => Some(k),
            None => if first_lp(ts[n - 1]) == lp { Some(n - 1) } else { None },
        }
    }
}

/// Whether the first LP of `t` is `lp`.
fn first_lp_is(t: &CoreTarget, lp: Option<u32>) -> (r: bool)
    ensures
        r == (first_lp(*t) == lp),
{
    let first = if t.lp_indices.len() > 0 { Some(t.lp_indices[0]) } else { None };
    first == lp
}

/// The progress event of a running step: its stage, round (and the phase it
/// falls in, see `spec_progress_phase`), LP, percentage, remaining time and
/// error; the target is the first candidate whose first LP is the event's LP
/// (none while calibrating or without candidates).
pub fn progress_event(
    session_id: &str,
    candidates: Option<&Vec<CoreTarget>>,
    stage: &str,
    round: Option<u32>,
    lp: Option<u32>,
    percentage: u32,
    eta: Option<u64>,
    error: Option<String>,
) -> (p: BenchmarkProgress)
    ensures
        p.session_id@ == session_id@,
        p.stage@ == stage@,
        p.round == round,
        (p.phase, p.phase_round) == crate::runner::spec_progress_phase(stage@ == "calibrating"@, round),
        p.lp == lp,
        p.percentage == percentage,
        p.eta_secs == eta,
        p.error == error,
        p.window_integrity is None && p.cancel_stage is None && p.cancel_progress is None,
        match candidates {
            Some(ts) if stage@ != "calibrating"@ => match first_with_lp(ts@, lp, ts@.len() as int) {
                Some(k) => p.target matches Some(t) && target_view(t) == target_view(ts@[k]),
                None => p.target is None,
            },
            _ => p.target is None,
        },
{
    let (phase, phase_round) = crate::runner::progress_phase(stage, round);
    let mut target: Option<CoreTarget> = None;
    if !crate::text::same_text(stage, "calibrating") {
        match candidates {
            None => {},
            Some(ts) => {
                let mut i: usize = 0;
                while i < ts.len() && !first_lp_is(&ts[i], lp)
                    invariant
                        0 <= i <= ts@.len(),
                        first_with_lp(ts@, lp, i as int) is None,
                    decreases ts@.len() - i,
                {
                    i = i + 1;
                }
                if i < ts.len() {
                    proof {
                        lemma_first_with_lp_stable(ts@, lp, i as int, ts@.len() as int);
                    }
                    target = Some(copy_target(&ts[i]));
                }
            },
        }
    }
    BenchmarkProgress {
        target,
        session_id: session_id.to_owned(),
        stage: stage.to_owned(),
        round,
        phase,
        phase_round,
        lp,
        percentage,
        eta_secs: eta,
        error,
        window_integrity: None,
        cancel_stage: None,
        cancel_progress: None,
    }
}

pub(crate) proof fn lemma_first_with_lp_stable(ts: Seq<CoreTarget>, lp: Option<u32>, j: int, n: int)
    requires
        0 <= j < n,
        first_with_lp(ts, lp, j) is None,
        first_lp(ts[j]) == lp,
    ensures
        first_with_lp(ts, lp, n) == Some(j),
    decreases n - j,
{
    if n > j + 1 {
        lemma_first_with_lp_stable(ts, lp, j, n - 1);
    }
}

/// A cancellation progress event: the cancel stage and its percentage, with
/// the run's own percentage left at 0.
pub fn cancel_event(session_id: &str, stage: &str, progress: u32) -> (p: BenchmarkProgress)
    ensures
        p.session_id@ == session_id@,
        p.stage@ == "cancelling"@,
        p.percentage == 0,
        p.target is None && p.round is None && p.phase is None && p.phase_round is None && p.lp is None,
        p.eta_secs is None && p.error is None && p.window_integrity is None,
        p.cancel_stage matches Some(c) && c@ == stage@,
        p.cancel_progress == Some(progress),
{
    BenchmarkProgress {
        target: None,
        session_id: session_id.to_owned(),
        stage: "cancelling".to_owned(),
        round: None,
        phase: None,
        phase_round: None,
        lp: None,
        percentage: 0,
        eta_secs: None,
        error: None,
        window_integrity: None,
        cancel_stage: Some(stage.to_owned()),
        cancel_progress: Some(progress),
    }
}

/// The one GPU operation the manager lets run at a time (an application
/// update takes the same slot, so it excludes them all).
#[derive(Clone, Copy, Debug, PartialEq, Eq, Structural)]
pub enum GpuOperation {
    Benchmark,
    Mutation,
    Validation,
    Update,
    Capture,
}

/// Taking the slot for `kind`: granted when it is free, else
/// `BENCHMARK_ALREADY_RUNNING` with the slot unchanged.
pub open spec fn spec_reserve(slot: Option<GpuOperation>, kind: GpuOperation) -> Result<Option<GpuOperation>, ErrorCode> {
    if slot is None {
        Ok(Some(kind))
    } else {
        Err(ErrorCode::BenchmarkAlreadyRunning)
    }
}

/// Takes the slot for `kind` (see [`spec_reserve`]): the slot it then holds.
pub fn reserve_slot(slot: Option<GpuOperation>, kind: GpuOperation) -> (r: Result<Option<GpuOperation>, ErrorCode>)
    ensures
        r == spec_reserve(slot, kind),
{
    match slot {
        None => Ok(Some(kind)),
        Some(_) => Err(ErrorCode::BenchmarkAlreadyRunning),
    }
}

/// The slot after an update ends: freed only when the update holds it.
pub open spec fn spec_end_update(slot: Option<GpuOperation>) -> Option<GpuOperation> {
    if slot == Some(GpuOperation::Update) { None } else { slot }
}

/// Ends an update (see [`spec_end_update`]).
pub fn end_update_slot(slot: Option<GpuOperation>) -> (r: Option<GpuOperation>)
    ensures
        r == spec_end_update(slot),
{
    match slot {
        Some(GpuOperation::Update) => None,
        other => other,
    }
}

/// Whether the program may close: the slot is free or held by an update, and
/// no benchmark runs.
pub open spec fn spec_may_exit(slot: Option<GpuOperation>, running: bool) -> bool {
    (slot is None || slot == Some(GpuOperation::Update)) && !running
}

/// Whether the program may close (see [`spec_may_exit`]).
pub fn may_exit(slot: Option<GpuOperation>, running: bool) -> (r: bool)
    ensures
        r == spec_may_exit(slot, running),
{
    let idle = match slot {
        None => true,
        Some(GpuOperation::Update) => true,
        Some(_) => false,
    };
    idle && !running
}

/// Why closing is refused while something runs: `BENCHMARK_ALREADY_RUNNING`
/// when a benchmark runs or the slot is held (an update included), else none.
pub fn exit_refusal(slot: Option<GpuOperation>, running: bool) -> (r: Option<ErrorCode>)
    ensures
        r == (if running || slot is Some { Some(ErrorCode::BenchmarkAlreadyRunning) } else { None }),
{
    if running || slot.is_some() {
        Some(ErrorCode::BenchmarkAlreadyRunning)
    } else {
        None
    }
}

/// Law: one GPU operation at a time. A held slot refuses every reservation,
/// an update included; a granted one holds the operation until it is freed;
/// ending an update never frees another operation; and the program may close
/// during an update but not during any GPU operation or a run.
pub proof fn law_one_gpu_operation_at_a_time(held: GpuOperation, kind: GpuOperation, running: bool)
    ensures
        spec_reserve(Some(held), kind) == Err::<Option<GpuOperation>, ErrorCode>(ErrorCode::BenchmarkAlreadyRunning),
        spec_reserve(None, kind) == Ok::<Option<GpuOperation>, ErrorCode>(Some(kind)),
        held != GpuOperation::Update ==> spec_end_update(Some(held)) == Some(held),
        spec_end_update(Some(GpuOperation::Update)) is None,
        spec_may_exit(Some(held), running) <==> (held == GpuOperation::Update && !running),
        spec_may_exit(None, running) <==> !running,
{
}

} // verus!
