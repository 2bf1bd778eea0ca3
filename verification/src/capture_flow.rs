//! The decisions of one measured capture: file and session names, whether a
//! failed attempt is retried (and with what buffer), how a PresentMon run is
//! judged, what a step's failure means for the session, and the capture
//! quality counters.
use vstd::prelude::*;
use crate::codes::{ErrorCode, code_text};
use crate::digest::{hex, sha256, sha256_hex};
use vstd::utf8::encode_utf8;
use crate::model::{CaptureQuality, EquivalentSafetyStatus};
use crate::physical::{CoreTarget, mask, spec_candidates, target_view};
use crate::bits::{le_trimmed, lp_mask};
use crate::session_state::{first_with_lp, lemma_first_with_lp_stable};
use crate::text::{concat, dec, decimal, with_number, same_text};
use crate::topology::Topology;

verus! {

/// Attempts of one capture (a fresh workload and device generation each).
pub const MAX_CAPTURE_ATTEMPTS: u32 = 3;
/// Factor of the circular buffer after an overflow.
pub const CAPTURE_OVERFLOW_BUFFER_MULT: u32 = 2;

/// Decimal text of a signed number.
pub open spec fn idec(x: int) -> Seq<char> {
    if x < 0 { "-"@ + dec((-x) as nat) } else { dec(x as nat) }
}

/// Decimal text of an `i32`.
pub fn signed_decimal(x: i32) -> (s: String)
    ensures
        s@ == idec(x as int),
{
    if x < 0 {
        let m: u64 = (0i64 - x as i64) as u64;
        with_number("-", m)
    } else {
        decimal(x as u64)
    }
}

/// The CSV of one capture: `round-<round>-lp-<lp>.csv`.
pub fn capture_csv_name(round: u32, lp: u32) -> (s: String)
    ensures
        s@ == "round-"@ + dec(round as nat) + "-lp-"@ + dec(lp as nat) + ".csv"@,
{
    let a = with_number("round-", round as u64);
    let b = concat(a.as_str(), "-lp-");
    let c = with_number(b.as_str(), lp as u64);
    concat(c.as_str(), ".csv")
}

/// The dedicated ETW session of one attempt: `PaceDock-<session>-<round>-<lp>-<attempt>`.
pub fn presentmon_session_name(session_id: &str, round: u32, lp: u32, attempt: u32) -> (s: String)
    ensures
        s@ == "PaceDock-"@ + session_id@ + "-"@ + dec(round as nat) + "-"@ + dec(lp as nat) + "-"@
            + dec(attempt as nat),
{
    let a = concat("PaceDock-", session_id);
    let b = concat(a.as_str(), "-");
    let c = with_number(b.as_str(), round as u64);
    let d = concat(c.as_str(), "-");
    let e = with_number(d.as_str(), lp as u64);
    let f = concat(e.as_str(), "-");
    with_number(f.as_str(), attempt as u64)
}

/// The diagnostics file of one attempt: `capture-round-<r>-lp-<lp>.json` for
/// the first (or an unnumbered) attempt, `...-attempt-<a>.json` for later ones.
pub fn diagnostics_file_name(round: u32, lp: u32, attempt: u32) -> (s: String)
    ensures
        attempt <= 1 ==> s@ == "capture-round-"@ + dec(round as nat) + "-lp-"@ + dec(lp as nat) + ".json"@,
        attempt > 1 ==> s@ == "capture-round-"@ + dec(round as nat) + "-lp-"@ + dec(lp as nat) + "-attempt-"@
            + dec(attempt as nat) + ".json"@,
{
    let a = with_number("capture-round-", round as u64);
    let b = concat(a.as_str(), "-lp-");
    let c = with_number(b.as_str(), lp as u64);
    if attempt <= 1 {
        concat(c.as_str(), ".json")
    } else {
        let d = concat(c.as_str(), "-attempt-");
        let e = with_number(d.as_str(), attempt as u64);
        concat(e.as_str(), ".json")
    }
}

/// Progress percentage of a run: `done * 100 / max(total, 1)`, at most 100.
pub fn progress_pct(done: u32, total: u32) -> (p: u32)
    requires
        done * 100 <= u32::MAX,
    ensures
        p == (if done * 100 / (if total == 0 { 1 } else { total as int }) > 100 {
            100
        } else {
            done * 100 / (if total == 0 { 1 } else { total as int })
        }),
{
    let d: u32 = if total == 0 { 1 } else { total };
    let p = done * 100 / d;
    if p > 100 { 100 } else { p }
}

/// How PresentMon's wait ended.
#[derive(Clone, Debug)]
pub enum CaptureWait {
    /// PresentMon exited by itself.
    Exited,
    /// It did not exit within the sample time plus the margin.
    TimedOut,
    /// The wait was cancelled.
    Cancelled,
    /// The wait itself failed.
    Failed(String),
    /// The workload window lost its integrity.
    IntegrityBroken,
}

/// What the output CSV showed (read and measured by the caller).
#[derive(Clone, Copy, Debug, PartialEq, Eq, Structural)]
pub enum CsvCheck {
    /// No file.
    Missing,
    /// No valid frame time.
    Empty,
    /// Capture times go backwards.
    NotMonotonic,
    /// Observed span under 95% of the sample time.
    TooShort,
    /// Sound.
    Complete,
}

/// Why a capture is invalid, if it is: overflowed present events first, then
/// lost ETW events (both void the capture whatever the CSV holds), then the
/// CSV check. The reason is a short label.
pub open spec fn integrity_verdict(overflowed: u64, etw_lost: bool, csv: CsvCheck) -> Option<(ErrorCode, Seq<char>)> {
    if overflowed > 0 {
        Some((ErrorCode::BenchmarkCaptureOverflow, "overflowed_present_events"@))
    } else if etw_lost {
        Some((ErrorCode::BenchmarkCaptureEtwLost, "etw_events_lost"@))
    } else {
        match csv {
            CsvCheck::Missing => Some((ErrorCode::BenchmarkCaptureMissing, "missing"@)),
            CsvCheck::Empty => Some((ErrorCode::BenchmarkCaptureEmpty, "empty"@)),
            CsvCheck::NotMonotonic => Some((ErrorCode::BenchmarkCsvInvalid, "monotonic"@)),
            CsvCheck::TooShort => Some((ErrorCode::BenchmarkCsvInvalid, "duration"@)),
            CsvCheck::Complete => None,
        }
    }
}

/// The integrity of a capture (see [`integrity_verdict`]).
pub fn assess_capture_integrity(overflowed: u64, etw_lost: bool, csv: CsvCheck) -> (r: Option<(ErrorCode, String)>)
    ensures
        match integrity_verdict(overflowed, etw_lost, csv) {
            None => r is None,
            Some((c, why)) => r matches Some((c2, w2)) && c2 == c && w2@ == why,
        },
        overflowed == 0 && etw_lost ==> (r matches Some((c, w)) && c == ErrorCode::BenchmarkCaptureEtwLost
            && w@ == "etw_events_lost"@),
        r is None <==> (overflowed == 0 && !etw_lost && csv == CsvCheck::Complete),
{
    if overflowed > 0 {
        return Some((ErrorCode::BenchmarkCaptureOverflow, "overflowed_present_events".to_owned()));
    }
    if etw_lost {
        return Some((ErrorCode::BenchmarkCaptureEtwLost, "etw_events_lost".to_owned()));
    }
    match csv {
        CsvCheck::Missing => Some((ErrorCode::BenchmarkCaptureMissing, "missing".to_owned())),
        CsvCheck::Empty => Some((ErrorCode::BenchmarkCaptureEmpty, "empty".to_owned())),
        CsvCheck::NotMonotonic => Some((ErrorCode::BenchmarkCsvInvalid, "monotonic".to_owned())),
        CsvCheck::TooShort => Some((ErrorCode::BenchmarkCsvInvalid, "duration".to_owned())),
        CsvCheck::Complete => None,
    }
}

/// Law: lost events void a capture whatever its CSV holds: overflowed present
/// events give `BENCHMARK_CAPTURE_OVERFLOW`, and otherwise lost ETW events give
/// `BENCHMARK_CAPTURE_ETW_LOST` (`etw_events_lost`), so in either case the CSV
/// check does not change the verdict; a capture is accepted exactly when no
/// event was lost and its CSV is sound.
pub proof fn law_lost_events_void_capture(overflowed: u64, etw_lost: bool, csv: CsvCheck, other: CsvCheck)
    ensures
        overflowed > 0 ==> integrity_verdict(overflowed, etw_lost, csv)
            == Some((ErrorCode::BenchmarkCaptureOverflow, "overflowed_present_events"@)),
        overflowed == 0 && etw_lost ==> integrity_verdict(overflowed, etw_lost, csv)
            == Some((ErrorCode::BenchmarkCaptureEtwLost, "etw_events_lost"@)),
        overflowed > 0 || etw_lost ==> integrity_verdict(overflowed, etw_lost, csv)
            == integrity_verdict(overflowed, etw_lost, other),
        integrity_verdict(overflowed, etw_lost, csv) is None
            <==> (overflowed == 0 && !etw_lost && csv == CsvCheck::Complete),
{
}

/// The verdict of one PresentMon run and its rejection label: a failed wait
/// is `PRESENTMON_FAILED`, a timeout `PRESENTMON_TIMEOUT`, a cancel
/// `cancelled`, a broken window `WINDOW_INTEGRITY`; after a normal exit the
/// integrity verdict decides, and then a non-zero PresentMon exit code voids
/// the CSV (`PRESENTMON_FAILED`, `presentmon_exit_<code>`).
pub open spec fn spec_capture_verdict(wait: CaptureWait, integrity: Option<(ErrorCode, Seq<char>)>, exit_code: Option<i32>) -> (Option<Seq<char>>, Option<Seq<char>>) {
    match wait {
        CaptureWait::Failed(_) => (Some(code_text(ErrorCode::BenchmarkPresentmonFailed)), Some("presentmon_failed"@)),
        CaptureWait::TimedOut => (Some(code_text(ErrorCode::BenchmarkPresentmonTimeout)), Some("timeout"@)),
        CaptureWait::Cancelled => (Some("cancelled"@), Some("cancelled"@)),
        CaptureWait::IntegrityBroken => (Some(code_text(ErrorCode::BenchmarkWindowIntegrity)), Some("window_integrity"@)),
        CaptureWait::Exited => match integrity {
            Some((c, why)) => (Some(code_text(c)), Some(why)),
            None => match exit_code {
                Some(x) => if x != 0 {
                    (Some(code_text(ErrorCode::BenchmarkPresentmonFailed)), Some("presentmon_exit_"@ + idec(x as int)))
                } else {
                    (None, None)
                },
                None => (None, None),
            },
        },
    }
}

/// The verdict of one PresentMon run (see [`spec_capture_verdict`]):
/// `(error, rejection reason)`, both `None` for a valid capture.
pub fn capture_verdict(wait: &CaptureWait, integrity: &Option<(ErrorCode, String)>, exit_code: Option<i32>) -> (r: (Option<String>, Option<String>))
    ensures
        ({
            let iv = match integrity {
                Some((c, w)) => Some((*c, w@)),
                None => None,
            };
            let s = spec_capture_verdict(*wait, iv, exit_code);
            &&& match s.0 { Some(e) => r.0 matches Some(x) && x@ == e, None => r.0 is None }
            &&& match s.1 { Some(e) => r.1 matches Some(x) && x@ == e, None => r.1 is None }
        }),
{
    match wait {
        CaptureWait::Failed(_) => (
            Some(ErrorCode::BenchmarkPresentmonFailed.as_str().to_owned()),
            Some("presentmon_failed".to_owned()),
        ),
        CaptureWait::TimedOut => (
            Some(ErrorCode::BenchmarkPresentmonTimeout.as_str().to_owned()),
            Some("timeout".to_owned()),
        ),
        CaptureWait::Cancelled => (Some("cancelled".to_owned()), Some("cancelled".to_owned())),
        CaptureWait::IntegrityBroken => (
            Some(ErrorCode::BenchmarkWindowIntegrity.as_str().to_owned()),
            Some("window_integrity".to_owned()),
        ),
        CaptureWait::Exited => match integrity {
            Some((c, why)) => (Some(c.as_str().to_owned()), Some(why.clone())),
            None => match exit_code {
                Some(x) => if x != 0 {
                    let code = signed_decimal(x);
                    (
                        Some(ErrorCode::BenchmarkPresentmonFailed.as_str().to_owned()),
                        Some(concat("presentmon_exit_", code.as_str())),
                    )
                } else {
                    (None, None)
                },
                None => (None, None),
            },
        },
    }
}

/// Whether a failed attempt is retried, and with a doubled buffer: an
/// overflow on the first attempt is retried once with twice the buffer; a
/// missing or empty CSV or a broken window is retried with the same buffer
/// while attempts remain; anything else ends the attempts.
pub open spec fn spec_retry(error: Option<Seq<char>>, attempt: u32) -> Option<bool> {
    match error {
        None => None,
        Some(e) => if e == code_text(ErrorCode::BenchmarkCaptureOverflow) && attempt == 1 {
            Some(true)
        } else if (e == code_text(ErrorCode::BenchmarkCaptureMissing) || e == code_text(ErrorCode::BenchmarkCaptureEmpty)
            || e == code_text(ErrorCode::BenchmarkWindowIntegrity)) && attempt < MAX_CAPTURE_ATTEMPTS {
            Some(false)
        } else {
            None
        },
    }
}

/// The retry decision after attempt `attempt` (see [`spec_retry`]):
/// `Some(double_buffer)` to retry, `None` to stop.
pub fn capture_retry(error: Option<&str>, attempt: u32) -> (r: Option<bool>)
    ensures
        r == spec_retry(match error { Some(e) => Some(e@), None => None }, attempt),
{
    let e = match error {
        None => return None,
        Some(e) => e,
    };
    if same_text(e, ErrorCode::BenchmarkCaptureOverflow.as_str()) && attempt == 1 {
        Some(true)
    } else if (same_text(e, ErrorCode::BenchmarkCaptureMissing.as_str())
        || same_text(e, ErrorCode::BenchmarkCaptureEmpty.as_str())
        || same_text(e, ErrorCode::BenchmarkWindowIntegrity.as_str())) && attempt < MAX_CAPTURE_ATTEMPTS {
        Some(false)
    } else {
        None
    }
}

/// The buffer of the next attempt: doubled (saturating) after an overflow.
pub fn next_buffer(buffer: u32, double: bool) -> (b: u32)
    ensures
        b == (if !double { buffer as int } else if buffer * 2 > u32::MAX { u32::MAX as int } else { buffer * 2 }),
{
    if double {
        if buffer > u32::MAX / CAPTURE_OVERFLOW_BUFFER_MULT {
            u32::MAX
        } else {
            buffer * CAPTURE_OVERFLOW_BUFFER_MULT
        }
    } else {
        buffer
    }
}

/// What a capture step means for the session.
#[derive(Clone, Debug)]
pub enum StepOutcome {
    /// Captured; go on.
    Continue,
    /// This LP failed with the code and is set aside; the session goes on and
    /// will fail in the end.
    Isolated(String),
    /// Stop the session: cancelled.
    Cancelled,
    /// Stop the session with this code.
    Failed(String),
}

/// What a final capture error means: a missing or empty CSV sets the LP aside
/// once some capture of the session has succeeded, and stops the session
/// when none has (PresentMon cannot produce a CSV here at all); any other
/// error stops the session.
pub fn classify_failure(error: &str, any_success: bool) -> (r: StepOutcome)
    ensures
        (error@ == code_text(ErrorCode::BenchmarkCaptureMissing) || error@ == code_text(ErrorCode::BenchmarkCaptureEmpty))
            && any_success ==> (r matches StepOutcome::Isolated(e) && e@ == error@),
        !((error@ == code_text(ErrorCode::BenchmarkCaptureMissing) || error@ == code_text(ErrorCode::BenchmarkCaptureEmpty))
            && any_success) ==> (r matches StepOutcome::Failed(e) && e@ == error@),
{
    let csv_failure = same_text(error, ErrorCode::BenchmarkCaptureMissing.as_str())
        || same_text(error, ErrorCode::BenchmarkCaptureEmpty.as_str());
    if csv_failure && any_success {
        StepOutcome::Isolated(error.to_owned())
    } else {
        StepOutcome::Failed(error.to_owned())
    }
}

/// The override bytes of a quick-test step on `lp`: the whole core of the
/// first candidate whose first LP it is (see `physical::mask`); no such
/// candidate is `BENCHMARK_SESSION_INCOMPATIBLE`.
pub fn step_mask(candidates: &Vec<CoreTarget>, lp: u32, topo: &Topology) -> (r: Result<Vec<u8>, ErrorCode>)
    ensures
        match first_with_lp(candidates@, Some(lp), candidates@.len() as int) {
            None => r == Err::<Vec<u8>, ErrorCode>(ErrorCode::BenchmarkSessionIncompatible),
            Some(k) => {
                &&& (spec_candidates(*topo).contains(target_view(candidates@[k])) <==> r is Ok)
                &&& (r is Err ==> r == Err::<Vec<u8>, ErrorCode>(ErrorCode::BenchmarkSessionIncompatible))
                &&& (r matches Ok(bytes) ==> bytes@ == le_trimmed(lp_mask(candidates@[k].lp_indices@)))
            },
        },
{
    let mut i: usize = 0;
    while i < candidates.len()
        invariant
            0 <= i <= candidates@.len(),
            first_with_lp(candidates@, Some(lp), i as int) is None,
        decreases candidates@.len() - i,
    {
        let t = &candidates[i];
        if t.lp_indices.len() > 0 && t.lp_indices[0] == lp {
            proof {
                lemma_first_with_lp_stable(candidates@, Some(lp), i as int, candidates@.len() as int);
            }
            return mask(t, topo);
        }
        proof {
            assert(first_with_lp(candidates@, Some(lp), i as int + 1) is None);
        }
        i = i + 1;
    }
    Err(ErrorCode::BenchmarkSessionIncompatible)
}

impl CaptureQuality {
    /// Counts one capture attempt: valid or not, a window-integrity failure,
    /// and the overflowed and lost events PresentMon reported.
    pub fn record_attempt(&mut self, valid: bool, window_failure: bool, overflowed: u64, etw_lost: u64)
        requires
            old(self).total_captures < u32::MAX,
            old(self).valid_captures < u32::MAX,
            old(self).invalid_captures < u32::MAX,
            old(self).window_invalid_captures < u32::MAX,
            old(self).overflowed_present_events + overflowed <= u64::MAX,
            old(self).etw_events_lost + etw_lost <= u64::MAX,
        ensures
            final(self).total_captures == old(self).total_captures + 1,
            final(self).valid_captures == old(self).valid_captures + (if valid { 1int } else { 0 }),
            final(self).invalid_captures == old(self).invalid_captures + (if valid { 0int } else { 1 }),
            final(self).window_invalid_captures == old(self).window_invalid_captures + (if window_failure { 1int } else { 0 }),
            final(self).overflowed_present_events == old(self).overflowed_present_events + overflowed,
            final(self).etw_events_lost == old(self).etw_events_lost + etw_lost,
            final(self).window_retry_captures == old(self).window_retry_captures,
            final(self).integrity_passed == old(self).integrity_passed,
            final(self).effective_fps_cap == old(self).effective_fps_cap,
            final(self).circular_buffer_size == old(self).circular_buffer_size,
    {
        self.total_captures = self.total_captures + 1;
        if valid {
            self.valid_captures = self.valid_captures + 1;
        } else {
            self.invalid_captures = self.invalid_captures + 1;
        }
        if window_failure {
            self.window_invalid_captures = self.window_invalid_captures + 1;
        }
        self.overflowed_present_events = self.overflowed_present_events + overflowed;
        self.etw_events_lost = self.etw_events_lost + etw_lost;
    }
}

/// The status of an equivalent-safety validation: a stopped run is cancelled
/// (`cancelled`) or failed with its code; a complete run without paired
/// evidence fails with `BENCHMARK_CSV_INVALID`; otherwise the evidence decides
/// (`evidence_passed`: medians within the equivalence bounds and no
/// regression, judged by the caller).
pub fn validation_verdict(stop: Option<&StepOutcome>, evidence_passed: Option<bool>) -> (r: (EquivalentSafetyStatus, Option<String>))
    ensures
        stop matches Some(StepOutcome::Cancelled) ==> r.0 == EquivalentSafetyStatus::Cancelled
            && (r.1 matches Some(x) && x@ == "cancelled"@),
        stop matches Some(StepOutcome::Failed(e)) ==> r.0 == EquivalentSafetyStatus::Failed
            && (r.1 matches Some(x) && x@ == e@),
        stop matches Some(StepOutcome::Isolated(e)) ==> r.0 == EquivalentSafetyStatus::Failed
            && (r.1 matches Some(x) && x@ == e@),
        (stop is None || stop matches Some(StepOutcome::Continue)) ==> match evidence_passed {
            None => r.0 == EquivalentSafetyStatus::Failed
                && (r.1 matches Some(x) && x@ == code_text(ErrorCode::BenchmarkCsvInvalid)),
            Some(true) => r.0 == EquivalentSafetyStatus::Passed && r.1 is None,
            Some(false) => r.0 == EquivalentSafetyStatus::Failed && r.1 is None,
        },
{
    match stop {
        Some(StepOutcome::Cancelled) => return (EquivalentSafetyStatus::Cancelled, Some("cancelled".to_owned())),
        Some(StepOutcome::Failed(e)) => return (EquivalentSafetyStatus::Failed, Some(e.clone())),
        Some(StepOutcome::Isolated(e)) => return (EquivalentSafetyStatus::Failed, Some(e.clone())),
        _ => {},
    }
    match evidence_passed {
        None => (EquivalentSafetyStatus::Failed, Some(ErrorCode::BenchmarkCsvInvalid.as_str().to_owned())),
        Some(true) => (EquivalentSafetyStatus::Passed, None),
        Some(false) => (EquivalentSafetyStatus::Failed, None),
    }
}

/// A capture file accepted at the end of its capture: its path and the
/// SHA-256 of its text then. The file lies in a place other processes of the
/// user can write, so every later read is checked against that digest.
#[derive(Clone, Debug)]
pub struct CapturedCsv {
    pub path: String,
    pub sha256: String,
}

/// The digest a captured text is bound to: lowercase hex SHA-256 of its UTF-8.
pub open spec fn text_digest(text: Seq<char>) -> Seq<char> {
    hex(sha256(encode_utf8(text)))
}

impl CapturedCsv {
    /// Binds the capture at `path` to the text read when it finished
    /// (`None`: unreadable); `parsed` tells whether that text is a valid
    /// PresentMon CSV. An unreadable or invalid file is `BENCHMARK_CSV_INVALID`.
    pub fn capture(path: &str, text: Option<&str>, parsed: bool) -> (r: Result<CapturedCsv, ErrorCode>)
        ensures
            (text is None || !parsed) ==> r == Err::<CapturedCsv, ErrorCode>(ErrorCode::BenchmarkCsvInvalid),
            (text is Some && parsed) ==> (r matches Ok(c) && c.path@ == path@
                && c.sha256@ == text_digest(text->Some_0@)),
    {
        match text {
            None => Err(ErrorCode::BenchmarkCsvInvalid),
            Some(t) => if !parsed {
                Err(ErrorCode::BenchmarkCsvInvalid)
            } else {
                Ok(CapturedCsv { path: path.to_owned(), sha256: sha256_hex(t.as_bytes()) })
            },
        }
    }

    /// A later read of the capture (`None`: unreadable): its text only when
    /// it still has the digest taken at capture time, else
    /// `BENCHMARK_CSV_INVALID` (the file was replaced or changed).
    pub fn read_text(&self, text: Option<String>) -> (r: Result<String, ErrorCode>)
        ensures
            match text {
                None => r == Err::<String, ErrorCode>(ErrorCode::BenchmarkCsvInvalid),
                Some(t) => if text_digest(t@) == self.sha256@ {
                    r matches Ok(x) && x@ == t@
                } else {
                    r == Err::<String, ErrorCode>(ErrorCode::BenchmarkCsvInvalid)
                },
            },
    {
        match text {
            None => Err(ErrorCode::BenchmarkCsvInvalid),
            Some(t) => {
                let d = sha256_hex(t.as_str().as_bytes());
                if same_text(d.as_str(), self.sha256.as_str()) {
                    Ok(t)
                } else {
                    Err(ErrorCode::BenchmarkCsvInvalid)
                }
            },
        }
    }
}

} // verus!
