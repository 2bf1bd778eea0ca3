use frameanchor::capture_flow::CaptureWait;
use frameanchor::model::WindowIntegrity;
use frameanchor::watch::{report_integrity, report_retries, IntegritySnapshot, Watch, WatchAction, WatchEvent, CANCEL_POLL_MS};

/// Runs a watched wait against scripted answers: whether each check finds a
/// cancel, whether the window is intact, what each exit poll says. Returns
/// the end and the sleeps asked for.
fn drive(
    total_ms: u64,
    polls_exit: bool,
    cancel_at_check: Option<u32>,
    broken_at_check: Option<u32>,
    exit_poll: &dyn Fn(u32) -> Result<bool, String>,
) -> (CaptureWait, Vec<u64>) {
    let (mut w, mut a) = Watch::start(total_ms, polls_exit);
    let mut sleeps = Vec::new();
    let (mut cancel_checks, mut integrity_checks, mut polls) = (0u32, 0u32, 0u32);
    loop {
        let ev = match a {
            WatchAction::Finish => return (w.end.clone().unwrap(), sleeps),
            WatchAction::CheckCancel => {
                cancel_checks += 1;
                WatchEvent::Answer(cancel_at_check == Some(cancel_checks))
            }
            WatchAction::CheckIntegrity => {
                integrity_checks += 1;
                WatchEvent::Answer(broken_at_check != Some(integrity_checks))
            }
            WatchAction::PollExit => {
                polls += 1;
                WatchEvent::ExitPolled(exit_poll(polls))
            }
            WatchAction::Sleep(ms) => {
                sleeps.push(ms);
                WatchEvent::Slept
            }
        };
        a = w.advance(ev);
    }
}

fn never_exits(_: u32) -> Result<bool, String> {
    Ok(false)
}

#[test]
fn capture_wait_times_out_after_sleeping_exactly_its_time() {
    let (end, sleeps) = drive(250, true, None, None, &never_exits);
    assert!(matches!(end, CaptureWait::TimedOut));
    assert_eq!(sleeps, vec![100, 100, 50]);
    assert_eq!(CANCEL_POLL_MS, 100);
}

#[test]
fn capture_wait_cancel_wins_over_a_broken_window() {
    let (end, sleeps) = drive(1000, true, Some(2), Some(2), &never_exits);
    assert!(matches!(end, CaptureWait::Cancelled));
    assert_eq!(sleeps, vec![100]);
}

#[test]
fn capture_wait_reports_a_broken_window() {
    let (end, _) = drive(1000, true, None, Some(3), &never_exits);
    assert!(matches!(end, CaptureWait::IntegrityBroken));
}

#[test]
fn capture_wait_ends_on_exit_or_poll_failure() {
    let (end, sleeps) = drive(1000, true, None, None, &|n| Ok(n == 4));
    assert!(matches!(end, CaptureWait::Exited));
    assert_eq!(sleeps, vec![100, 100, 100]);
    let (end, _) = drive(1000, true, None, None, &|_| Err("wait failed".to_string()));
    match end {
        CaptureWait::Failed(m) => assert_eq!(m, "wait failed"),
        _ => panic!("poll failure is the end"),
    }
}

#[test]
fn capture_wait_polls_once_more_when_no_time_is_left() {
    let (end, sleeps) = drive(0, true, None, None, &|n| Ok(n == 1));
    assert!(matches!(end, CaptureWait::Exited));
    assert!(sleeps.is_empty());
}

#[test]
fn warmup_checks_cancel_and_window_then_runs_out_without_polling() {
    let (end, sleeps) = drive(230, false, None, None, &|_| panic!("a warm-up polls no exit"));
    assert!(matches!(end, CaptureWait::TimedOut));
    assert_eq!(sleeps, vec![100, 100, 30]);
    let (end, sleeps) = drive(0, false, None, None, &|_| panic!("a warm-up polls no exit"));
    assert!(matches!(end, CaptureWait::TimedOut));
    assert!(sleeps.is_empty());
    let (end, _) = drive(0, false, None, Some(1), &never_exits);
    assert!(matches!(end, CaptureWait::IntegrityBroken));
}

#[test]
fn finished_watch_stays_finished() {
    let (mut w, _) = Watch::start(0, false);
    assert_eq!(w.advance(WatchEvent::Answer(true)), WatchAction::Finish);
    assert_eq!(w.advance(WatchEvent::Answer(false)), WatchAction::Finish);
    assert!(matches!(w.end, Some(CaptureWait::Cancelled)));
}

fn good() -> IntegritySnapshot {
    IntegritySnapshot { foreground: true, minimized: false, position_ok: true, topmost: true, visible: true, occluded: false }
}

#[test]
fn integrity_report_is_sent_on_change_only() {
    let first = report_integrity(&None, &good(), 0, None);
    assert!(first.send);
    assert!(!first.recenter);
    assert_eq!(
        first.record,
        WindowIntegrity { foreground: true, minimized: false, position: true, occlusion: false, retries: 0, error: None }
    );
    let last = Some(first.record.clone());
    let again = report_integrity(&last, &good(), 0, None);
    assert!(!again.send, "the same probe is not sent twice");

    let not_topmost = IntegritySnapshot { topmost: false, ..good() };
    let r = report_integrity(&last, &not_topmost, 0, None);
    assert!(r.send);
    assert!(!r.record.position, "position is good only when placed, topmost and visible");

    let lost = IntegritySnapshot { foreground: false, ..good() };
    let r = report_integrity(&last, &lost, 0, None);
    assert!(r.send && r.recenter && !r.record.foreground);
    let hidden = IntegritySnapshot { minimized: true, ..good() };
    assert!(!report_integrity(&last, &hidden, 0, None).recenter, "only a lost foreground re-centres");
}

#[test]
fn retry_report_keeps_last_flags() {
    let r = report_retries(&None, 1, None);
    assert!(r.send && !r.recenter);
    assert_eq!(
        r.record,
        WindowIntegrity { foreground: true, minimized: false, position: true, occlusion: false, retries: 1, error: None }
    );
    let last = Some(WindowIntegrity {
        foreground: false,
        minimized: true,
        position: false,
        occlusion: true,
        retries: 1,
        error: None,
    });
    let r = report_retries(&last, 2, Some("BENCHMARK_WINDOW_INTEGRITY".to_string()));
    assert!(r.send);
    assert_eq!(
        r.record,
        WindowIntegrity {
            foreground: false,
            minimized: true,
            position: false,
            occlusion: true,
            retries: 2,
            error: Some("BENCHMARK_WINDOW_INTEGRITY".to_string())
        }
    );
    assert!(!report_retries(&last, 1, None).send, "nothing new, nothing sent");
}
