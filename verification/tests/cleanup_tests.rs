use frameanchor::cleanup::{cleanup_run, settle_after_save, terminal_status, CleanupAction, CleanupJob};
use frameanchor::model::{BenchmarkConfig, SessionStatus};
use frameanchor::physical::METHOD_VERSION;
use frameanchor::runner::run_admission;

/// Runs a cleanup with scripted outcomes; returns the actions asked for and
/// whether it counted as restored.
fn run(has_baseline: bool, outcomes: &[bool]) -> (Vec<CleanupAction>, bool) {
    let (mut job, mut action): (CleanupJob, CleanupAction) = cleanup_run(has_baseline);
    let mut actions = vec![action];
    let mut i = 0;
    while action != CleanupAction::Finish {
        action = job.advance(outcomes[i]);
        i += 1;
        actions.push(action);
    }
    (actions, job.restored.unwrap())
}

#[test]
fn cleanup_restores_baseline_before_clearing_journal() {
    let (actions, restored) = run(true, &[true, true, true, true]);
    assert_eq!(
        actions,
        vec![
            CleanupAction::StopProcesses,
            CleanupAction::MarkRestoreNeeded,
            CleanupAction::RestoreSnapshot,
            CleanupAction::ClearJournal,
            CleanupAction::Finish,
        ]
    );
    assert!(restored);
}

#[test]
fn failed_restore_keeps_journal() {
    let (actions, restored) = run(true, &[true, true, false]);
    assert!(!actions.contains(&CleanupAction::ClearJournal));
    assert!(!restored);
    let (actions, restored) = run(true, &[true, false]);
    assert!(!actions.contains(&CleanupAction::RestoreSnapshot));
    assert!(!restored);
}

#[test]
fn run_without_changes_only_clears_journal() {
    let (actions, restored) = run(false, &[true, true]);
    assert_eq!(actions, vec![CleanupAction::StopProcesses, CleanupAction::ClearJournal, CleanupAction::Finish]);
    assert!(restored);
    assert!(!run(false, &[true, false]).1);
}

#[test]
fn unrestored_run_fails_with_recovery_required() {
    assert_eq!(
        terminal_status(SessionStatus::Completed, None, false),
        (SessionStatus::Failed, Some("BENCHMARK_RECOVERY_REQUIRED".to_string()))
    );
    assert_eq!(
        terminal_status(SessionStatus::Cancelled, None, true),
        (SessionStatus::Cancelled, None)
    );
}

#[test]
fn failed_final_save_fails_the_run() {
    assert_eq!(settle_after_save(SessionStatus::Completed, None, true), (SessionStatus::Completed, None, true));
    assert_eq!(
        settle_after_save(SessionStatus::Failed, Some("X".into()), true),
        (SessionStatus::Failed, Some("X".to_string()), false)
    );
    assert_eq!(
        settle_after_save(SessionStatus::Completed, None, false),
        (SessionStatus::Failed, Some("BENCHMARK_STORAGE_FAILED".to_string()), false)
    );
}

#[test]
fn only_current_method_runs() {
    let mut c = BenchmarkConfig::default();
    assert_eq!(run_admission(&c).unwrap_err().as_str(), "BENCHMARK_INVALID_CONFIG");
    c.method_version = METHOD_VERSION;
    assert!(run_admission(&c).is_ok());
}
