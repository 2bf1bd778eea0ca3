//! A watched wait: the warm-up of a workload and the wait for PresentMon to
//! stop. Each turn checks cancellation first (a cancel is never reported as
//! a window failure), then the workload window's integrity, then (for a
//! capture) whether PresentMon exited, and sleeps at most
//! [`CANCEL_POLL_MS`] of the time left.
//!
//! The caller performs the action asked for and hands back a [`WatchEvent`].
use vstd::prelude::*;
use crate::capture_flow::CaptureWait;
use crate::model::{IntegrityView, WindowIntegrity};

verus! {

/// Longest sleep between two checks, in milliseconds.
pub const CANCEL_POLL_MS: u64 = 100;

/// What a watched wait asks for next.
#[derive(Clone, Copy, Debug, PartialEq, Eq, Structural)]
pub enum WatchAction {
    /// Report whether the run was cancelled.
    CheckCancel,
    /// Probe the workload window's integrity.
    CheckIntegrity,
    /// Poll, without waiting, whether PresentMon exited.
    PollExit,
    /// Sleep this many milliseconds.
    Sleep(u64),
    /// Stop: the end is set.
    Finish,
}

/// The outcome of the action asked for.
#[derive(Debug)]
pub enum WatchEvent {
    /// The answer to a check: cancelled, or the window intact.
    Answer(bool),
    /// The exit poll: exited or not, or the poll failed.
    ExitPolled(Result<bool, String>),
    /// The sleep is over.
    Slept,
}

/// The mathematical value of an event.
pub enum WatchEventView {
    Answer(bool),
    ExitPolled(Result<bool, Seq<char>>),
    Slept,
}

impl View for WatchEvent {
    type V = WatchEventView;

    open spec fn view(&self) -> WatchEventView {
        match self {
            WatchEvent::Answer(b) => WatchEventView::Answer(*b),
            WatchEvent::ExitPolled(Ok(b)) => WatchEventView::ExitPolled(Ok(*b)),
            WatchEvent::ExitPolled(Err(e)) => WatchEventView::ExitPolled(Err(e@)),
            WatchEvent::Slept => WatchEventView::Slept,
        }
    }
}

/// Where a watched wait stands.
#[derive(Clone, Copy, Debug, PartialEq, Eq, Structural)]
pub enum WatchPhase {
    Cancel,
    Integrity,
    Exit,
    Sleeping,
    Finished,
}

/// How a watched wait ended, as a value.
pub enum WaitEnd {
    Exited,
    TimedOut,
    Cancelled,
    Failed(Seq<char>),
    IntegrityBroken,
}

/// The value of a [`CaptureWait`].
pub open spec fn wait_end(w: CaptureWait) -> WaitEnd {
    match w {
        CaptureWait::Exited => WaitEnd::Exited,
        CaptureWait::TimedOut => WaitEnd::TimedOut,
        CaptureWait::Cancelled => WaitEnd::Cancelled,
        CaptureWait::Failed(e) => WaitEnd::Failed(e@),
        CaptureWait::IntegrityBroken => WaitEnd::IntegrityBroken,
    }
}

/// A watched wait in flight. `end` is `TimedOut` once the whole time has
/// passed; for a warm-up, which polls no exit, that is its normal end.
#[derive(Clone, Debug)]
pub struct Watch {
    /// Milliseconds of sleep still allowed.
    pub remaining: u64,
    /// Whether each turn polls PresentMon's exit.
    pub polls_exit: bool,
    pub phase: WatchPhase,
    pub end: Option<CaptureWait>,
}

/// The mathematical value of a watched wait.
pub struct WatchView {
    pub remaining: u64,
    pub polls_exit: bool,
    pub phase: WatchPhase,
    pub end: Option<WaitEnd>,
}

impl View for Watch {
    type V = WatchView;

    open spec fn view(&self) -> WatchView {
        WatchView {
            remaining: self.remaining,
            polls_exit: self.polls_exit,
            phase: self.phase,
            end: match self.end {
                Some(w) => Some(wait_end(w)),
                None => None,
            },
        }
    }
}

/// A watched wait of `total_ms`.
pub open spec fn watch_start(total_ms: u64, polls_exit: bool) -> (WatchView, WatchAction) {
    (WatchView { remaining: total_ms, polls_exit, phase: WatchPhase::Cancel, end: None }, WatchAction::CheckCancel)
}

/// The wait ends with `end`.
pub open spec fn watch_finish(t: WatchView, end: WaitEnd) -> (WatchView, WatchAction) {
    (WatchView { phase: WatchPhase::Finished, end: Some(end), ..t }, WatchAction::Finish)
}

/// The sleep of one turn.
pub open spec fn turn_sleep(remaining: u64) -> u64 {
    if remaining < CANCEL_POLL_MS { remaining } else { CANCEL_POLL_MS }
}

/// The end of a turn in which nothing stopped the wait: the time is up, or a
/// sleep of [`turn_sleep`].
pub open spec fn watch_turn_end(t: WatchView) -> (WatchView, WatchAction) {
    if t.remaining == 0 {
        watch_finish(t, WaitEnd::TimedOut)
    } else {
        let step = turn_sleep(t.remaining);
        (WatchView { remaining: (t.remaining - step) as u64, phase: WatchPhase::Sleeping, ..t }, WatchAction::Sleep(step))
    }
}

/// The transition of a watched wait on the outcome of the action it asked
/// for. Only `Answer(true)` means cancelled, and only `Answer(true)` means an
/// intact window; only a successful poll saying so means exited.
pub open spec fn watch_next(t: WatchView, e: WatchEventView) -> (WatchView, WatchAction) {
    match t.phase {
        WatchPhase::Cancel => if e == WatchEventView::Answer(true) {
            watch_finish(t, WaitEnd::Cancelled)
        } else {
            (WatchView { phase: WatchPhase::Integrity, ..t }, WatchAction::CheckIntegrity)
        },
        WatchPhase::Integrity => if e != WatchEventView::Answer(true) {
            watch_finish(t, WaitEnd::IntegrityBroken)
        } else if t.polls_exit {
            (WatchView { phase: WatchPhase::Exit, ..t }, WatchAction::PollExit)
        } else {
            watch_turn_end(t)
        },
        WatchPhase::Exit => match e {
            WatchEventView::ExitPolled(Ok(true)) => watch_finish(t, WaitEnd::Exited),
            WatchEventView::ExitPolled(Err(m)) => watch_finish(t, WaitEnd::Failed(m)),
            _ => watch_turn_end(t),
        },
        WatchPhase::Sleeping => (WatchView { phase: WatchPhase::Cancel, ..t }, WatchAction::CheckCancel),
        WatchPhase::Finished => (t, WatchAction::Finish),
    }
}

/// The state after the events `evs`, one after the other, from `t`.
pub open spec fn watch_run(t: WatchView, evs: Seq<WatchEventView>) -> WatchView
    decreases evs.len(),
{
    if evs.len() == 0 {
        t
    } else {
        watch_run(watch_next(t, evs[0]).0, evs.drop_first())
    }
}

/// Milliseconds of sleep asked for along the events `evs` from `t`.
pub open spec fn watch_slept(t: WatchView, evs: Seq<WatchEventView>) -> nat
    decreases evs.len(),
{
    if evs.len() == 0 {
        0
    } else {
        let (n, a) = watch_next(t, evs[0]);
        (match a {
            WatchAction::Sleep(ms) => ms as nat,
            _ => 0,
        }) + watch_slept(n, evs.drop_first())
    }
}

/// What every reachable watched wait satisfies: a time-out leaves no time,
/// only a wait that polls the exit reaches the exit poll or ends exited or
/// failed.
pub open spec fn watch_wf(t: WatchView) -> bool {
    &&& (t.end matches Some(WaitEnd::TimedOut) ==> t.remaining == 0)
    &&& (t.phase == WatchPhase::Exit ==> t.polls_exit)
    &&& (!t.polls_exit ==> !(t.end matches Some(WaitEnd::Exited)) && !(t.end matches Some(WaitEnd::Failed(_))))
}

proof fn lemma_watch_step(t: WatchView, e: WatchEventView)
    requires
        watch_wf(t),
    ensures
        watch_wf(watch_next(t, e).0),
        watch_next(t, e).0.polls_exit == t.polls_exit,
        (match watch_next(t, e).1 {
            WatchAction::Sleep(ms) => ms as nat,
            _ => 0nat,
        }) + watch_next(t, e).0.remaining == t.remaining,
{
}

/// A finished watched wait stays as it is, whatever comes.
pub proof fn law_watch_finished_is_final(t: WatchView, evs: Seq<WatchEventView>)
    requires
        t.phase == WatchPhase::Finished,
    ensures
        watch_run(t, evs) == t,
        watch_slept(t, evs) == 0,
    decreases evs.len(),
{
    if evs.len() > 0 {
        law_watch_finished_is_final(watch_next(t, evs[0]).0, evs.drop_first());
    }
}

proof fn lemma_watch_run(t: WatchView, evs: Seq<WatchEventView>)
    requires
        watch_wf(t),
    ensures
        watch_wf(watch_run(t, evs)),
        watch_run(t, evs).polls_exit == t.polls_exit,
        watch_slept(t, evs) + watch_run(t, evs).remaining == t.remaining,
    decreases evs.len(),
{
    if evs.len() > 0 {
        lemma_watch_step(t, evs[0]);
        lemma_watch_run(watch_next(t, evs[0]).0, evs.drop_first());
    }
}

/// Law: along any run of a watched wait of `total_ms`, the sleeps asked for
/// and the time left make up exactly `total_ms` (it never sleeps past its
/// time); it times out only once all of it was slept; and a warm-up, which
/// polls no exit, never ends exited or failed.
pub proof fn law_watch_keeps_to_its_time(total_ms: u64, polls_exit: bool, evs: Seq<WatchEventView>)
    ensures
        watch_slept(watch_start(total_ms, polls_exit).0, evs) + watch_run(watch_start(total_ms, polls_exit).0, evs).remaining
            == total_ms,
        watch_run(watch_start(total_ms, polls_exit).0, evs).end matches Some(WaitEnd::TimedOut)
            ==> watch_slept(watch_start(total_ms, polls_exit).0, evs) == total_ms,
        !polls_exit ==> !(watch_run(watch_start(total_ms, polls_exit).0, evs).end matches Some(WaitEnd::Exited))
            && !(watch_run(watch_start(total_ms, polls_exit).0, evs).end matches Some(WaitEnd::Failed(_))),
{
    lemma_watch_run(watch_start(total_ms, polls_exit).0, evs);
}

/// Law: a cancel seen at a check ends the wait as cancelled, never as a
/// window failure, whatever the window's state.
pub proof fn law_watch_cancel_comes_first(t: WatchView)
    requires
        t.phase == WatchPhase::Cancel,
    ensures
        watch_next(t, WatchEventView::Answer(true)).0.end == Some(WaitEnd::Cancelled),
        watch_next(t, WatchEventView::Answer(true)).1 == WatchAction::Finish,
{
}

/// What one probe of the workload window found. `minimized` and `occluded`
/// are true when wrong; the other flags are true when as they should be.
#[derive(Clone, Copy, Debug)]
pub struct IntegritySnapshot {
    pub foreground: bool,
    pub minimized: bool,
    pub position_ok: bool,
    pub topmost: bool,
    pub visible: bool,
    pub occluded: bool,
}

/// The text of an optional error.
pub open spec fn opt_text(e: Option<String>) -> Option<Seq<char>> {
    match e {
        Some(t) => Some(t@),
        None => None,
    }
}

/// What a report does: the record, whether it is sent (it differs from the
/// last one sent, or none was), and whether the main window is re-centred
/// once the run ends (the workload lost the foreground).
pub struct IntegrityReport {
    pub record: WindowIntegrity,
    pub send: bool,
    pub recenter: bool,
}

/// Whether `record` must be sent after `last`.
pub open spec fn differs(last: Option<IntegrityView>, record: IntegrityView) -> bool {
    !(last == Some(record))
}

/// The view of the last record sent.
pub open spec fn last_view(last: Option<WindowIntegrity>) -> Option<IntegrityView> {
    match last {
        Some(l) => Some(l@),
        None => None,
    }
}

/// The record of a probe: the position is good only when the window is in
/// place, topmost and visible.
pub open spec fn probe_record(s: IntegritySnapshot, retries: u32, error: Option<Seq<char>>) -> IntegrityView {
    (s.foreground, s.minimized, s.position_ok && s.topmost && s.visible, s.occluded, retries, error)
}

/// The record after a change of the retry count: the flags last sent are
/// kept (foreground and position good when nothing was sent yet).
pub open spec fn retries_record(last: Option<IntegrityView>, retries: u32, error: Option<Seq<char>>) -> IntegrityView {
    match last {
        Some(l) => (l.0, l.1, l.2, l.3, retries, error),
        None => (true, false, true, false, retries, error),
    }
}

fn copy_error(e: &Option<String>) -> (r: Option<String>)
    ensures
        opt_text(r) == opt_text(*e),
{
    match e {
        Some(t) => Some(t.clone()),
        None => None,
    }
}

fn same_record(a: &WindowIntegrity, b: &WindowIntegrity) -> (r: bool)
    ensures
        r == (a@ == b@),
{
    let same_error = match (&a.error, &b.error) {
        (Some(x), Some(y)) => crate::text::same_text(x.as_str(), y.as_str()),
        (None, None) => true,
        _ => false,
    };
    a.foreground == b.foreground && a.minimized == b.minimized && a.position == b.position
        && a.occlusion == b.occlusion && a.retries == b.retries && same_error
}

fn changed(last: &Option<WindowIntegrity>, record: &WindowIntegrity) -> (r: bool)
    ensures
        r == differs(last_view(*last), record@),
{
    match last {
        Some(l) => !same_record(l, record),
        None => true,
    }
}

/// Reports a probe of the workload window (see [`probe_record`]); it is sent
/// only when it differs from `last`, and a lost foreground asks for the main
/// window to be re-centred.
pub fn report_integrity(last: &Option<WindowIntegrity>, snap: &IntegritySnapshot, retries: u32, error: Option<String>) -> (r: IntegrityReport)
    ensures
        r.record@ == probe_record(*snap, retries, opt_text(error)),
        r.send == differs(last_view(*last), r.record@),
        r.recenter == !snap.foreground,
{
    let record = WindowIntegrity {
        foreground: snap.foreground,
        minimized: snap.minimized,
        position: snap.position_ok && snap.topmost && snap.visible,
        occlusion: snap.occluded,
        retries,
        error,
    };
    let send = changed(last, &record);
    IntegrityReport { record, send, recenter: !snap.foreground }
}

/// Reports a new retry count (and error), keeping the flags last sent (see
/// [`retries_record`]); sent only when it differs from `last`.
pub fn report_retries(last: &Option<WindowIntegrity>, retries: u32, error: Option<String>) -> (r: IntegrityReport)
    ensures
        r.record@ == retries_record(last_view(*last), retries, opt_text(error)),
        r.send == differs(last_view(*last), r.record@),
        !r.recenter,
{
    let record = match last {
        Some(l) => WindowIntegrity {
            foreground: l.foreground,
            minimized: l.minimized,
            position: l.position,
            occlusion: l.occlusion,
            retries,
            error,
        },
        None => WindowIntegrity { foreground: true, minimized: false, position: true, occlusion: false, retries, error },
    };
    let send = changed(last, &record);
    IntegrityReport { record, send, recenter: false }
}

impl Watch {
    /// A watched wait of `total_ms`, polling PresentMon's exit when
    /// `polls_exit`.
    pub fn start(total_ms: u64, polls_exit: bool) -> (r: (Self, WatchAction))
        ensures
            (r.0@, r.1) == watch_start(total_ms, polls_exit),
    {
        (Watch { remaining: total_ms, polls_exit, phase: WatchPhase::Cancel, end: None }, WatchAction::CheckCancel)
    }

    fn finish(&mut self, end: CaptureWait) -> (a: WatchAction)
        ensures
            (final(self)@, a) == watch_finish(old(self)@, wait_end(end)),
    {
        self.phase = WatchPhase::Finished;
        self.end = Some(end);
        WatchAction::Finish
    }

    fn turn_end(&mut self) -> (a: WatchAction)
        ensures
            (final(self)@, a) == watch_turn_end(old(self)@),
    {
        if self.remaining == 0 {
            self.finish(CaptureWait::TimedOut)
        } else {
            let step: u64 = if self.remaining < CANCEL_POLL_MS { self.remaining } else { CANCEL_POLL_MS };
            self.remaining = self.remaining - step;
            self.phase = WatchPhase::Sleeping;
            WatchAction::Sleep(step)
        }
    }

    /// Takes the outcome of the last action and returns the next one (see
    /// [`watch_next`]).
    pub fn advance(&mut self, event: WatchEvent) -> (a: WatchAction)
        ensures
            (final(self)@, a) == watch_next(old(self)@, event@),
    {
        let yes = match &event {
            WatchEvent::Answer(b) => *b,
            _ => false,
        };
        match self.phase {
            WatchPhase::Cancel => if yes {
                self.finish(CaptureWait::Cancelled)
            } else {
                self.phase = WatchPhase::Integrity;
                WatchAction::CheckIntegrity
            },
            WatchPhase::Integrity => if !yes {
                self.finish(CaptureWait::IntegrityBroken)
            } else if self.polls_exit {
                self.phase = WatchPhase::Exit;
                WatchAction::PollExit
            } else {
                self.turn_end()
            },
            WatchPhase::Exit => match event {
                WatchEvent::ExitPolled(Ok(true)) => self.finish(CaptureWait::Exited),
                WatchEvent::ExitPolled(Err(m)) => self.finish(CaptureWait::Failed(m)),
                _ => self.turn_end(),
            },
            WatchPhase::Sleeping => {
                self.phase = WatchPhase::Cancel;
                WatchAction::CheckCancel
            },
            WatchPhase::Finished => WatchAction::Finish,
        }
    }
}

} // verus!
