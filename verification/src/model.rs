//! Benchmark domain model: session/stage/phase enums, the benchmark
//! configuration with its product defaults, runtime state records.
use vstd::prelude::*;
use crate::physical::CoreTarget;

verus! {

/// Session state machine.
#[derive(Clone, Copy, Debug, PartialEq, Eq, Structural)]
pub enum SessionStatus {
    Pending,
    Running,
    Completed,
    Failed,
    Cancelled,
}

impl Default for SessionStatus {
    fn default() -> (s: Self)
        ensures
            s == SessionStatus::Pending,
    {
        SessionStatus::Pending
    }
}

/// Coarse execution stage (progress).
#[derive(Clone, Copy, Debug, PartialEq, Eq, Structural)]
pub enum BenchmarkStage {
    Init,
    Warmup,
    Collecting,
    Finalizing,
}

impl Default for BenchmarkStage {
    fn default() -> (s: Self)
        ensures
            s == BenchmarkStage::Init,
    {
        BenchmarkStage::Init
    }
}

/// Scheduling phase of a progress event.
#[derive(Clone, Copy, Debug, PartialEq, Eq, Structural)]
pub enum BenchmarkPhase {
    Screening,
    Refinement,
    Confirmation,
    ReverseConfirmation,
    EquivalentValidation,
}

/// Workload kind.
#[derive(Clone, Copy, Debug, PartialEq, Eq, Structural)]
pub enum WorkloadKind {
    /// Bundled liblava Vulkan workload.
    Vulkan,
    /// Bundled Direct3D 9 workload.
    D3D9,
}

impl Default for WorkloadKind {
    fn default() -> (s: Self)
        ensures
            s == WorkloadKind::Vulkan,
    {
        WorkloadKind::Vulkan
    }
}

/// FPS-cap policy: calibrated (default) or the configured fixed cap.
#[derive(Clone, Copy, Debug, PartialEq, Eq, Structural)]
pub enum FpsCapPolicy {
    Adaptive,
    Fixed,
}

impl Default for FpsCapPolicy {
    fn default() -> (s: Self)
        ensures
            s == FpsCapPolicy::Adaptive,
    {
        FpsCapPolicy::Adaptive
    }
}

/// Reliability verdict of a session.
#[derive(Clone, Copy, Debug, PartialEq, Eq, Structural)]
pub enum ReliabilityStatus {
    Unassessed,
    Passed,
    Equivalent,
    Inconclusive,
}

impl Default for ReliabilityStatus {
    fn default() -> (s: Self)
        ensures
            s == ReliabilityStatus::Unassessed,
    {
        ReliabilityStatus::Unassessed
    }
}

/// Equivalent-safety validation status.
#[derive(Clone, Copy, Debug, PartialEq, Eq, Structural)]
pub enum EquivalentSafetyStatus {
    Unvalidated,
    Pending,
    Passed,
    Failed,
    Cancelled,
}

impl Default for EquivalentSafetyStatus {
    fn default() -> (s: Self)
        ensures
            s == EquivalentSafetyStatus::Unvalidated,
    {
        EquivalentSafetyStatus::Unvalidated
    }
}

/// Background GPU operation kind.
#[derive(Clone, Copy, Debug, PartialEq, Eq, Structural)]
pub enum BenchmarkOperation {
    Benchmark,
    EquivalentValidation,
}

/// Main-window layout at run time.
#[derive(Clone, Copy, Debug, PartialEq, Eq, Structural)]
pub enum WindowLayout {
    Normal,
    CompactProgress,
}

impl Default for WindowLayout {
    fn default() -> (s: Self)
        ensures
            s == WindowLayout::Normal,
    {
        WindowLayout::Normal
    }
}

/// Product default warm-up seconds.
pub fn default_warm_up_secs() -> (r: u32)
    ensures
        r == 3,
{
    3
}

/// Product default sample seconds.
pub fn default_sample_secs() -> (r: u32)
    ensures
        r == 10,
{
    10
}

/// Product default retest warm-up seconds.
pub fn default_retest_warmup() -> (r: u32)
    ensures
        r == 5,
{
    5
}

/// Product default retest sample seconds.
pub fn default_retest_sample() -> (r: u32)
    ensures
        r == 20,
{
    20
}

/// Legacy repetitions default.
pub fn default_repetitions() -> (r: u32)
    ensures
        r == 5,
{
    5
}

/// Product default workload width.
pub fn default_width() -> (r: u32)
    ensures
        r == 1280,
{
    1280
}

/// Product default workload height.
pub fn default_height() -> (r: u32)
    ensures
        r == 720,
{
    720
}

/// The default liblava argument list.
pub open spec fn spec_default_vulkan_args() -> Seq<Seq<char>> {
    seq![
        "--fullscreen=0"@,
        "--width=1280"@,
        "--height=720"@,
        "--fps_cap=0"@,
        "--triple_buffering=0"@,
    ]
}

/// The views of a list of strings.
pub open spec fn string_views(v: Seq<String>) -> Seq<Seq<char>> {
    v.map_values(|s: String| s@)
}

/// Default liblava arguments: windowed 1280x720, uncapped, no triple buffering.
pub fn default_vulkan_args() -> (v: Vec<String>)
    ensures
        string_views(v@) == spec_default_vulkan_args(),
{
    let mut v: Vec<String> = Vec::new();
    v.push(String::from_str("--fullscreen=0"));
    v.push(String::from_str("--width=1280"));
    v.push(String::from_str("--height=720"));
    v.push(String::from_str("--fps_cap=0"));
    v.push(String::from_str("--triple_buffering=0"));
    assert(string_views(v@) =~= spec_default_vulkan_args());
    v
}

/// Benchmark parameters.
#[derive(Clone, Debug)]
pub struct BenchmarkConfig {
    pub method_version: u32,
    pub candidate_core_ids: Vec<u32>,
    pub retest_warm_up_secs: u32,
    pub retest_sample_secs: u32,
    /// LPs to test one by one; empty = default candidates.
    pub candidate_lps: Vec<u32>,
    pub gpu_instance_id: Option<String>,
    pub workload: WorkloadKind,
    pub warm_up_secs: u32,
    pub sample_secs: u32,
    /// Legacy single-LP field, ignored by the current schedule.
    pub repetitions: u32,
    /// Deprecated, kept for old sessions.
    pub sync_workload_affinity: bool,
    pub fullscreen: bool,
    pub width: u32,
    pub height: u32,
    /// Fixed cap (0 = unlimited), used when the policy is `Fixed`.
    pub fps_cap: u32,
    pub fps_cap_policy: FpsCapPolicy,
    pub triple_buffer: bool,
    /// Extra liblava arguments (must be non-empty for Vulkan).
    pub vulkan_args: Vec<String>,
    pub game_path: Option<String>,
    pub window_title: Option<String>,
}

/// The product defaults of a configuration.
pub open spec fn is_default_config(c: BenchmarkConfig) -> bool {
    &&& c.method_version == 0
    &&& c.candidate_core_ids@.len() == 0
    &&& c.retest_warm_up_secs == 5
    &&& c.retest_sample_secs == 20
    &&& c.candidate_lps@.len() == 0
    &&& c.gpu_instance_id is None
    &&& c.workload == WorkloadKind::Vulkan
    &&& c.warm_up_secs == 3
    &&& c.sample_secs == 10
    &&& c.repetitions == 5
    &&& !c.sync_workload_affinity
    &&& !c.fullscreen
    &&& c.width == 1280
    &&& c.height == 720
    &&& c.fps_cap == 0
    &&& c.fps_cap_policy == FpsCapPolicy::Adaptive
    &&& !c.triple_buffer
    &&& string_views(c.vulkan_args@) == spec_default_vulkan_args()
    &&& c.game_path is None
    &&& c.window_title is None
}

impl Default for BenchmarkConfig {
    fn default() -> (c: Self)
        ensures
            is_default_config(c),
    {
        BenchmarkConfig {
            method_version: 0,
            candidate_core_ids: Vec::new(),
            retest_warm_up_secs: default_retest_warmup(),
            retest_sample_secs: default_retest_sample(),
            candidate_lps: Vec::new(),
            gpu_instance_id: None,
            workload: WorkloadKind::Vulkan,
            warm_up_secs: default_warm_up_secs(),
            sample_secs: default_sample_secs(),
            repetitions: default_repetitions(),
            sync_workload_affinity: false,
            fullscreen: false,
            width: default_width(),
            height: default_height(),
            fps_cap: 0,
            fps_cap_policy: FpsCapPolicy::Adaptive,
            triple_buffer: false,
            vulkan_args: default_vulkan_args(),
            game_path: None,
            window_title: None,
        }
    }
}

/// Capture-integrity summary of a session.
#[derive(Clone, Copy, Debug, Default, PartialEq, Eq)]
pub struct CaptureQuality {
    pub total_captures: u32,
    pub valid_captures: u32,
    pub invalid_captures: u32,
    pub window_invalid_captures: u32,
    pub window_retry_captures: u32,
    pub overflowed_present_events: u64,
    pub etw_events_lost: u64,
    pub integrity_passed: bool,
    pub effective_fps_cap: u32,
    pub circular_buffer_size: u32,
}

/// Environment-stability summary of a session.
#[derive(Clone, Debug, Default, PartialEq, Eq)]
pub struct EnvironmentStability {
    pub passed: bool,
    pub drift_reruns: u32,
    pub error: Option<String>,
}

/// Workload window integrity snapshot (`foreground`/`position` true = good,
/// `minimized`/`occlusion` true = bad).
#[derive(Clone, Debug, Default, PartialEq, Eq)]
pub struct WindowIntegrity {
    pub foreground: bool,
    pub minimized: bool,
    pub position: bool,
    pub occlusion: bool,
    pub retries: u32,
    pub error: Option<String>,
}

/// The mathematical value of a window-integrity record.
pub type IntegrityView = (bool, bool, bool, bool, u32, Option<Seq<char>>);

impl View for WindowIntegrity {
    type V = IntegrityView;

    open spec fn view(&self) -> IntegrityView {
        (self.foreground, self.minimized, self.position, self.occlusion, self.retries, match self.error {
            Some(e) => Some(e@),
            None => None,
        })
    }
}

/// Whether a historical session can be applied now.
#[derive(Clone, Debug, PartialEq, Eq)]
pub struct ApplyStatus {
    pub can_apply: bool,
    pub reason: Option<crate::codes::ErrorCode>,
    pub equivalent_mode: bool,
    pub allowed_lps: Vec<u32>,
    pub requires_safety_validation: bool,
}

/// Progress event of a running benchmark.
#[derive(Clone, Debug)]
pub struct BenchmarkProgress {
    pub target: Option<CoreTarget>,
    pub session_id: String,
    pub stage: String,
    pub round: Option<u32>,
    pub phase: Option<BenchmarkPhase>,
    pub phase_round: Option<u32>,
    pub lp: Option<u32>,
    pub percentage: u32,
    pub eta_secs: Option<u64>,
    pub error: Option<String>,
    pub window_integrity: Option<WindowIntegrity>,
    pub cancel_stage: Option<String>,
    pub cancel_progress: Option<u32>,
}

/// Runtime state returned to the front end.
#[derive(Clone, Debug, Default)]
pub struct BenchmarkState {
    pub current_phase: Option<BenchmarkPhase>,
    pub gpu_busy: bool,
    pub current_target: Option<CoreTarget>,
    pub status: SessionStatus,
    pub session_id: Option<String>,
    pub current_lp: Option<u32>,
    pub stage: BenchmarkStage,
    pub progress_pct: u32,
    pub elapsed_secs: u64,
    pub cancel_requested: bool,
    pub recovery_required: bool,
    pub operation: Option<BenchmarkOperation>,
    pub window_layout: WindowLayout,
    pub window_integrity: WindowIntegrity,
    pub cancel_stage: Option<String>,
    pub cancel_progress: Option<u32>,
}

/// Storage usage of the session store.
#[derive(Clone, Copy, Debug, Default, PartialEq, Eq)]
pub struct StorageInfo {
    pub total_bytes: u64,
    pub session_count: usize,
}

/// Stable CPU identity (architecture, family, model, stepping).
#[derive(Clone, Copy, Debug, Default, PartialEq, Eq)]
pub struct CpuIdentity {
    pub architecture: u16,
    pub family: u16,
    pub model: u8,
    pub stepping: u8,
}

/// The CPU identity of the native system information: the processor
/// architecture, the processor level as the family, and the processor
/// revision split into model (high byte) and stepping (low byte).
pub fn cpu_identity_from(architecture: u16, level: u16, revision: u16) -> (c: CpuIdentity)
    ensures
        c.architecture == architecture,
        c.family == level,
        c.model == revision / 256,
        c.stepping == revision % 256,
{
    let model = (revision >> 8) as u8;
    let stepping = (revision & 0xff) as u8;
    assert(revision >> 8 == revision / 256 && revision & 0xff == revision % 256) by (bit_vector);
    CpuIdentity { architecture, family: level, model, stepping }
}

} // verus!
