use frameanchor::capture_flow::StepOutcome;
use frameanchor::codes::ErrorCode;
use frameanchor::gpu::{policy_matches, AffinityPolicy, RegistryValueSnapshot};
use frameanchor::physical::{candidates, CoreTarget};
use frameanchor::recovery::RecoveryStage;
use frameanchor::step::{CaptureStep, StepAction, StepEvent, StepStage};
use frameanchor::topology::build_topology;

const GPU: &str = r"PCI\VEN_FAKE&DEV_1";

/// How the scripted machine answers.
#[derive(Default, Clone)]
struct Script {
    /// Error of each capture attempt, in order (`None`: captured).
    captures: Vec<Option<&'static str>>,
    /// Error of each warm-up, in order (`None`: warmed up).
    warmups: Vec<Option<&'static str>>,
    write_fails: bool,
    restart_fails_at: Option<u32>,
    start_fails: bool,
    prepare_error: Option<&'static str>,
    /// Answers `true` at this cancellation check (settles and checks, counted together).
    cancel_at: Option<u32>,
    read_back: Option<AffinityPolicy>,
}

struct Trace {
    actions: Vec<StepAction>,
    outcome: StepOutcome,
    attempts_captured: Vec<(u32, u32)>,
}

fn run(mut step: CaptureStep, mut action: StepAction, script: &Script) -> Trace {
    let mut actions = Vec::new();
    let mut attempts_captured = Vec::new();
    let (mut captures, mut warmups, mut checks, mut restarts) = (0usize, 0usize, 0u32, 0u32);
    loop {
        actions.push(action);
        let ev = match action {
            StepAction::Finish => {
                return Trace { actions, outcome: step.outcome.clone().unwrap(), attempts_captured };
            }
            StepAction::Report(_) | StepAction::BeginJournal | StepAction::AdvanceJournal(_) => StepEvent::Succeeded,
            StepAction::CountWindowRetry | StepAction::ReportWindowFailure => StepEvent::Succeeded,
            StepAction::WritePolicy => {
                if script.write_fails { StepEvent::Failed("registry".into()) } else { StepEvent::Succeeded }
            }
            StepAction::RestartDevice => {
                restarts += 1;
                if script.restart_fails_at == Some(restarts) {
                    StepEvent::Failed("restart".into())
                } else {
                    StepEvent::Succeeded
                }
            }
            StepAction::Stabilize | StepAction::CheckCancel => {
                checks += 1;
                StepEvent::Cancel(script.cancel_at == Some(checks))
            }
            StepAction::ReadPolicy => StepEvent::PolicyRead(
                script.read_back.clone().unwrap_or_else(|| step.requested_policy().unwrap()),
            ),
            StepAction::StartWorkload => {
                if script.start_fails { StepEvent::Failed("spawn".into()) } else { StepEvent::Succeeded }
            }
            StepAction::PrepareWindow => match script.prepare_error {
                Some(e) => StepEvent::Failed(e.into()),
                None => StepEvent::Succeeded,
            },
            StepAction::Warmup => {
                let e = script.warmups.get(warmups).cloned().flatten();
                warmups += 1;
                match e {
                    Some(e) => StepEvent::Failed(e.into()),
                    None => StepEvent::Succeeded,
                }
            }
            StepAction::Capture => {
                attempts_captured.push((step.attempt, step.buffer));
                let e = script.captures.get(captures).cloned().flatten();
                captures += 1;
                match e {
                    Some(e) => StepEvent::Failed(e.into()),
                    None => StepEvent::Succeeded,
                }
            }
        };
        action = step.advance(ev);
    }
}

fn plain_step(any_success: bool) -> (CaptureStep, StepAction) {
    CaptureStep::start(GPU, Ok(vec![0b1100]), true, 1000, any_success)
}

fn count(actions: &[StepAction], a: StepAction) -> usize {
    actions.iter().filter(|x| **x == a).count()
}

#[test]
fn step_applies_under_journal_verifies_and_captures() {
    let (s, a) = plain_step(false);
    let t = run(s, a, &Script::default());
    assert!(matches!(t.outcome, StepOutcome::Continue));
    assert_eq!(
        t.actions,
        vec![
            StepAction::Report(StepStage::Applying),
            StepAction::BeginJournal,
            StepAction::WritePolicy,
            StepAction::AdvanceJournal(RecoveryStage::PolicyApplied),
            StepAction::RestartDevice,
            StepAction::Stabilize,
            StepAction::AdvanceJournal(RecoveryStage::DeviceRestarted),
            StepAction::ReadPolicy,
            StepAction::Report(StepStage::Launching),
            StepAction::StartWorkload,
            StepAction::PrepareWindow,
            StepAction::Warmup,
            StepAction::Report(StepStage::Collecting),
            StepAction::Capture,
            StepAction::CheckCancel,
            StepAction::CheckCancel,
            StepAction::Report(StepStage::Collected),
            StepAction::Finish,
        ]
    );
    assert_eq!(t.attempts_captured, vec![(1, 1000)]);
}

#[test]
fn step_writes_the_pinned_policy() {
    let (s, _) = plain_step(false);
    let p = s.requested_policy().unwrap();
    assert_eq!(p.instance_id, GPU);
    assert_eq!(p.device_policy.as_dword(), Some(4));
    assert_eq!(p.assignment_set_override.bytes, Some(vec![0b1100]));
}

#[test]
fn step_overflow_retries_once_with_doubled_buffer_after_a_restart() {
    let overflow = ErrorCode::BenchmarkCaptureOverflow.as_str();
    let (s, a) = plain_step(true);
    let t = run(s, a, &Script { captures: vec![Some(overflow), None], ..Script::default() });
    assert!(matches!(t.outcome, StepOutcome::Continue));
    assert_eq!(t.attempts_captured, vec![(1, 1000), (2, 2000)]);
    assert_eq!(count(&t.actions, StepAction::RestartDevice), 2, "a retry restarts the device");

    let (s, a) = plain_step(true);
    let t = run(s, a, &Script { captures: vec![Some(overflow), Some(overflow)], ..Script::default() });
    match t.outcome {
        StepOutcome::Failed(e) => assert_eq!(e, overflow),
        _ => panic!("a second overflow ends the step"),
    }
    assert_eq!(t.attempts_captured.len(), 2);
}

#[test]
fn step_missing_csv_isolated_only_after_a_success() {
    let missing = ErrorCode::BenchmarkCaptureMissing.as_str();
    let script = Script { captures: vec![Some(missing); 5], ..Script::default() };
    let (s, a) = plain_step(true);
    let t = run(s, a, &script);
    match t.outcome {
        StepOutcome::Isolated(e) => assert_eq!(e, missing),
        _ => panic!("set aside"),
    }
    assert_eq!(t.attempts_captured, vec![(1, 1000), (2, 1000), (3, 1000)]);
    let (s, a) = plain_step(false);
    match run(s, a, &script).outcome {
        StepOutcome::Failed(e) => assert_eq!(e, missing),
        _ => panic!("with no success yet the session stops"),
    }
}

#[test]
fn step_window_failures_are_counted_then_reported() {
    let window = ErrorCode::BenchmarkWindowIntegrity.as_str();
    let (s, a) = plain_step(false);
    let t = run(s, a, &Script { warmups: vec![Some(window), None], ..Script::default() });
    assert!(matches!(t.outcome, StepOutcome::Continue));
    assert_eq!(count(&t.actions, StepAction::CountWindowRetry), 1);
    assert_eq!(t.attempts_captured, vec![(2, 1000)], "the broken warm-up counts as an attempt");

    let (s, a) = plain_step(true);
    let t = run(s, a, &Script { warmups: vec![Some(window); 3], ..Script::default() });
    match t.outcome {
        StepOutcome::Failed(e) => assert_eq!(e, window),
        _ => panic!("window failures end the step"),
    }
    assert_eq!(count(&t.actions, StepAction::CountWindowRetry), 2);
    assert_eq!(count(&t.actions, StepAction::ReportWindowFailure), 1);
    assert!(t.attempts_captured.is_empty());
}

#[test]
fn step_cancel_wins_at_every_check() {
    for at in 1..=3u32 {
        let (s, a) = plain_step(true);
        let t = run(s, a, &Script { cancel_at: Some(at), ..Script::default() });
        assert!(matches!(t.outcome, StepOutcome::Cancelled), "cancel at check {at}");
    }
    let (s, a) = plain_step(true);
    let t = run(s, a, &Script { cancel_at: Some(1), ..Script::default() });
    assert_eq!(count(&t.actions, StepAction::StartWorkload), 0, "cancelled while settling");
    let (s, a) = plain_step(true);
    let t = run(s, a, &Script { prepare_error: Some("cancelled"), ..Script::default() });
    assert!(matches!(t.outcome, StepOutcome::Cancelled));
    let (s, a) = plain_step(true);
    let t = run(s, a, &Script { warmups: vec![Some("cancelled")], ..Script::default() });
    assert!(matches!(t.outcome, StepOutcome::Cancelled));
}

#[test]
fn step_failures_map_to_their_codes() {
    let failed = |script: Script| -> String {
        let (s, a) = plain_step(true);
        match run(s, a, &script).outcome {
            StepOutcome::Failed(e) => e,
            o => panic!("expected a failure, got {o:?}"),
        }
    };
    assert_eq!(failed(Script { write_fails: true, ..Script::default() }), "GPU_APPLY_FAILED");
    assert_eq!(failed(Script { restart_fails_at: Some(1), ..Script::default() }), "GPU_RESTART_FAILED");
    assert_eq!(
        failed(Script {
            restart_fails_at: Some(2),
            captures: vec![Some("BENCHMARK_CAPTURE_EMPTY")],
            ..Script::default()
        }),
        "GPU_RESTART_FAILED"
    );
    assert_eq!(failed(Script { start_fails: true, ..Script::default() }), "BENCHMARK_WORKLOAD_FAILED");
    assert_eq!(failed(Script { prepare_error: Some("BENCHMARK_WINDOW_SPACE"), ..Script::default() }), "BENCHMARK_WINDOW_SPACE");
    assert_eq!(failed(Script { captures: vec![Some("PRESENTMON_FAILED")], ..Script::default() }), "PRESENTMON_FAILED");
    let other = AffinityPolicy {
        instance_id: GPU.to_string(),
        device_policy: RegistryValueSnapshot::dword(4),
        assignment_set_override: RegistryValueSnapshot::binary(vec![0b1]),
    };
    assert_eq!(failed(Script { read_back: Some(other), ..Script::default() }), "GPU_APPLY_FAILED");
}

#[test]
fn step_without_mask_stops_after_the_journal() {
    let (s, a) = CaptureStep::start(GPU, Err(ErrorCode::BenchmarkSessionIncompatible), true, 1000, true);
    let t = run(s, a, &Script::default());
    match t.outcome {
        StepOutcome::Failed(e) => assert_eq!(e, "BENCHMARK_SESSION_INCOMPATIBLE"),
        _ => panic!("no mask, no change"),
    }
    assert_eq!(count(&t.actions, StepAction::WritePolicy), 0);
    assert_eq!(count(&t.actions, StepAction::BeginJournal), 1);
}

#[test]
fn quick_step_pins_the_whole_core_of_its_first_lp() {
    let topo = build_topology(vec![(vec![0, 1], 0, true), (vec![2, 3], 0, true)]);
    let cands: Vec<CoreTarget> = candidates(&topo);
    let (s, a) = CaptureStep::for_quick(GPU, &cands, 2, &topo, 1000, false);
    assert_eq!(a, StepAction::Report(StepStage::Applying));
    assert!(s.verify_policy);
    let p = s.requested_policy().unwrap();
    assert!(policy_matches(&p, &AffinityPolicy::pinned(GPU, &vec![0b1100])));
    let (s, _) = CaptureStep::for_quick(GPU, &cands, 3, &topo, 1000, false);
    assert!(matches!(s.mask, Err(ErrorCode::BenchmarkSessionIncompatible)));
}
