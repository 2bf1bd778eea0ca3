//! The two-phase quick test: every selected core is screened once in a
//! shuffled order, then the two best are retested in the reverse order.
//!
//! The run is a state machine: the caller performs each capture it asks for,
//! ranks the screening (by its frame-time metrics) and assesses the result,
//! and hands back what came of it.
use vstd::prelude::*;
use crate::capture_flow::StepOutcome;
use crate::codes::{ErrorCode, code_text};
use crate::model::SessionStatus;
use crate::text::same_text;

verus! {

/// The seed of the screening shuffle: the first four bytes, little-endian.
pub fn seed_from_bytes(bytes: &[u8]) -> (seed: u32)
    requires
        bytes@.len() >= 4,
    ensures
        seed == bytes@[0] + 256 * bytes@[1] + 65536 * bytes@[2] + 16777216 * bytes@[3],
{
    bytes[0] as u32 + 256 * (bytes[1] as u32) + 65536 * (bytes[2] as u32) + 16777216 * (bytes[3] as u32)
}

/// Whether `id` is one of the first two ranked cores.
pub open spec fn in_top_two(top: Seq<u32>, id: u32) -> bool {
    exists|i: int| 0 <= i < 2 && i < top.len() && top[i] == id
}

/// The retest order: the screening order reversed, keeping the first two
/// ranked cores only.
pub open spec fn spec_retest_order(order: Seq<u32>, top: Seq<u32>) -> Seq<u32>
    decreases order.len(),
{
    if order.len() == 0 {
        Seq::empty()
    } else {
        let rest = spec_retest_order(order.drop_first(), top);
        if in_top_two(top, order[0]) { rest.push(order[0]) } else { rest }
    }
}

/// The retest order (see [`spec_retest_order`]).
pub fn retest_order(order: &Vec<u32>, top: &Vec<u32>) -> (r: Vec<u32>)
    ensures
        r@ == spec_retest_order(order@, top@),
{
    let mut out: Vec<u32> = Vec::new();
    let n = order.len();
    let mut i: usize = n;
    proof {
        assert(order@.skip(n as int) =~= Seq::<u32>::empty());
    }
    while i > 0
        invariant
            n == order@.len(),
            0 <= i <= n,
            out@ == spec_retest_order(order@.skip(i as int), top@),
        decreases i,
    {
        i = i - 1;
        let id = order[i];
        let keep = (top.len() > 0 && top[0] == id) || (top.len() > 1 && top[1] == id);
        proof {
            let s = order@.skip(i as int);
            assert(s.drop_first() =~= order@.skip(i + 1));
            assert(s[0] == id);
            if keep {
                if top@.len() > 0 && top@[0] == id {
                    assert(in_top_two(top@, id));
                } else {
                    assert(top@[1] == id);
                    assert(in_top_two(top@, id));
                }
            }
        }
        if keep {
            out.push(id);
        }
    }
    proof {
        assert(order@.skip(0) =~= order@);
    }
    out
}

/// The final status of a quick run: no error completes it, `cancelled`
/// cancels it, any other error fails it; the stored error leaves out
/// `cancelled`.
pub fn finish_status(error: Option<&str>) -> (r: (SessionStatus, Option<String>))
    ensures
        error is None ==> r.0 == SessionStatus::Completed && r.1 is None,
        error is Some && error->Some_0@ == "cancelled"@ ==> r.0 == SessionStatus::Cancelled && r.1 is None,
        error is Some && error->Some_0@ != "cancelled"@ ==> r.0 == SessionStatus::Failed
            && (r.1 matches Some(x) && x@ == error->Some_0@),
{
    match error {
        None => (SessionStatus::Completed, None),
        Some(e) => if same_text(e, "cancelled") {
            (SessionStatus::Cancelled, None)
        } else {
            (SessionStatus::Failed, Some(e.to_owned()))
        },
    }
}

/// What the quick run asks for next.
#[derive(Clone, Copy, Debug, PartialEq, Eq, Structural)]
pub enum QuickAction {
    /// Capture `core_id` in `phase` (0 screening, 1 retest; the retest uses the
    /// schedule's retest warm-up and sample times); `done` captures so far.
    Capture { phase: u32, core_id: u32, done: u32 },
    /// Rank the screening and report how many cores it ranked and the first two.
    EndScreening,
    /// Assess screening against retest and report whether it was insufficient.
    Assess,
    /// Stop: the result is set (an error, or none for success).
    Finish,
}

/// A quick run in flight.
#[derive(Clone, Debug)]
pub struct QuickRun {
    /// The screening order (shuffled core ids).
    pub order: Vec<u32>,
    /// The retest order, once screening is ranked.
    pub retest_order: Vec<u32>,
    /// How many cores were selected.
    pub targets: usize,
    /// 0 screening, 1 retest.
    pub phase: u32,
    /// Position in the current phase's order.
    pub pos: usize,
    /// Successful captures so far.
    pub done: u32,
    /// Whether a capture is out.
    pub pending: bool,
    /// The final error (`Some(None)` is success), once finished.
    pub result: Option<Option<String>>,
}

impl QuickRun {
    /// A run over the screening order of `targets` selected cores.
    pub fn new(order: Vec<u32>, targets: usize) -> (q: Self)
        ensures
            q.order@ == order@,
            q.retest_order@.len() == 0,
            q.targets == targets,
            q.phase == 0,
            q.pos == 0,
            q.done == 0,
            !q.pending,
            q.result is None,
    {
        QuickRun { order, retest_order: Vec::new(), targets, phase: 0, pos: 0, done: 0, pending: false, result: None }
    }

    /// The order of the current phase.
    pub open spec fn phase_order(self) -> Seq<u32> {
        if self.phase == 0 { self.order@ } else { self.retest_order@ }
    }

    /// What to do next. A finished run finishes; a cancel before a capture
    /// finishes with `cancelled`; otherwise the next core of the phase is
    /// captured, and at the end of a phase the screening is ranked (phase 0)
    /// or the result assessed (phase 1).
    pub fn next(&mut self, cancelled: bool) -> (a: QuickAction)
        requires
            !old(self).pending,
            old(self).phase <= 1,
            old(self).pos <= old(self).phase_order().len(),
        ensures
            old(self).result is Some ==> a == QuickAction::Finish && *final(self) == *old(self),
            old(self).result is None && old(self).pos < old(self).phase_order().len() && cancelled ==>
                a == QuickAction::Finish && (final(self).result matches Some(Some(e)) && e@ == "cancelled"@)
                && final(self).order == old(self).order && final(self).retest_order == old(self).retest_order,
            old(self).result is None && old(self).pos < old(self).phase_order().len() && !cancelled ==>
                a == (QuickAction::Capture {
                    phase: old(self).phase,
                    core_id: old(self).phase_order()[old(self).pos as int],
                    done: old(self).done,
                }) && final(self).pending && *final(self) == (QuickRun { pending: true, ..*old(self) }),
            old(self).result is None && old(self).pos >= old(self).phase_order().len() ==>
                a == (if old(self).phase == 0 { QuickAction::EndScreening } else { QuickAction::Assess })
                && *final(self) == *old(self),
    {
        if self.result.is_some() {
            return QuickAction::Finish;
        }
        let len = if self.phase == 0 { self.order.len() } else { self.retest_order.len() };
        if self.pos < len {
            if cancelled {
                self.result = Some(Some("cancelled".to_owned()));
                return QuickAction::Finish;
            }
            let core_id = if self.phase == 0 { self.order[self.pos] } else { self.retest_order[self.pos] };
            self.pending = true;
            return QuickAction::Capture { phase: self.phase, core_id, done: self.done };
        }
        if self.phase == 0 { QuickAction::EndScreening } else { QuickAction::Assess }
    }

    /// The outcome of the capture asked for, and of saving the session after
    /// a successful one: success counts it and moves on (a failed save ends
    /// the run with the save's error); a cancel ends it with `cancelled`; an
    /// isolated or failed step ends it with its code.
    pub fn step_finished(&mut self, outcome: StepOutcome, saved: Result<(), String>)
        requires
            old(self).pending,
            old(self).result is None,
            old(self).done < u32::MAX,
            old(self).pos < usize::MAX,
        ensures
            !final(self).pending,
            final(self).phase == old(self).phase,
            final(self).order == old(self).order,
            final(self).retest_order == old(self).retest_order,
            final(self).targets == old(self).targets,
            outcome is Continue ==> final(self).done == old(self).done + 1 && final(self).pos == old(self).pos + 1
                && match saved {
                    Ok(()) => final(self).result is None,
                    Err(e) => final(self).result matches Some(Some(x)) && x@ == e@,
                },
            !(outcome is Continue) ==> final(self).done == old(self).done && final(self).pos == old(self).pos,
            outcome is Cancelled ==> (final(self).result matches Some(Some(x)) && x@ == "cancelled"@),
            outcome is Isolated ==> (final(self).result matches Some(Some(x)) && x@ == outcome->Isolated_0@),
            outcome is Failed ==> (final(self).result matches Some(Some(x)) && x@ == outcome->Failed_0@),
    {
        self.pending = false;
        match outcome {
            StepOutcome::Continue => {
                self.done = self.done + 1;
                self.pos = self.pos + 1;
                match saved {
                    Ok(()) => {},
                    Err(e) => {
                        self.result = Some(Some(e));
                    },
                }
            },
            StepOutcome::Cancelled => {
                self.result = Some(Some("cancelled".to_owned()));
            },
            StepOutcome::Isolated(e) => {
                self.result = Some(Some(e));
            },
            StepOutcome::Failed(e) => {
                self.result = Some(Some(e));
            },
        }
    }

    /// The ranked screening: unless every selected core was ranked
    /// (`BENCHMARK_CSV_INVALID` otherwise), the retest runs over the first two
    /// in reverse screening order.
    pub fn screening_ranked(&mut self, ranked: usize, top: &Vec<u32>)
        requires
            old(self).phase == 0,
            old(self).result is None,
            !old(self).pending,
        ensures
            ranked != old(self).targets ==> (final(self).result matches Some(Some(x))
                && x@ == code_text(ErrorCode::BenchmarkCsvInvalid)),
            ranked == old(self).targets ==> final(self).result is None && final(self).phase == 1
                && final(self).pos == 0 && final(self).retest_order@ == spec_retest_order(old(self).order@, top@),
            final(self).order == old(self).order,
            final(self).done == old(self).done,
            !final(self).pending,
    {
        if ranked != self.targets {
            self.result = Some(Some(ErrorCode::BenchmarkCsvInvalid.as_str().to_owned()));
            return;
        }
        self.retest_order = retest_order(&self.order, top);
        self.phase = 1;
        self.pos = 0;
    }

    /// The assessment: an insufficient ranking fails with
    /// `BENCHMARK_CSV_INVALID`, any other completes the run.
    pub fn assessed(&mut self, insufficient: bool)
        requires
            old(self).phase == 1,
            old(self).result is None,
        ensures
            insufficient ==> (final(self).result matches Some(Some(x)) && x@ == code_text(ErrorCode::BenchmarkCsvInvalid)),
            !insufficient ==> final(self).result == Some(None::<String>),
    {
        self.result = Some(if insufficient {
            Some(ErrorCode::BenchmarkCsvInvalid.as_str().to_owned())
        } else {
            None
        });
    }
}

/// Law: the retest order holds only cores of the screening order that were
/// ranked first or second.
pub proof fn law_retest_order_within_top_two(order: Seq<u32>, top: Seq<u32>, k: int)
    requires
        0 <= k < spec_retest_order(order, top).len(),
    ensures
        in_top_two(top, spec_retest_order(order, top)[k]),
        order.contains(spec_retest_order(order, top)[k]),
    decreases order.len(),
{
    let rest = spec_retest_order(order.drop_first(), top);
    if k < rest.len() {
        law_retest_order_within_top_two(order.drop_first(), top, k);
        let x = rest[k];
        let j = choose|j: int| 0 <= j < order.drop_first().len() && order.drop_first()[j] == x;
        assert(order[j + 1] == x);
    } else {
        assert(order[0] == spec_retest_order(order, top)[k]);
    }
}

/// A core is in the retest order exactly when it is in the screening order
/// and ranked first or second.
proof fn lemma_retest_membership(order: Seq<u32>, top: Seq<u32>, x: u32)
    ensures
        spec_retest_order(order, top).contains(x) <==> (order.contains(x) && in_top_two(top, x)),
    decreases order.len(),
{
    if order.len() > 0 {
        let rest = order.drop_first();
        lemma_retest_membership(rest, top, x);
        if order.contains(x) && x != order[0] {
            let j = choose|j: int| 0 <= j < order.len() && order[j] == x;
            assert(rest[j - 1] == x);
        }
        if rest.contains(x) {
            let j = choose|j: int| 0 <= j < rest.len() && rest[j] == x;
            assert(order[j + 1] == x);
        }
        if in_top_two(top, order[0]) {
            let r = spec_retest_order(rest, top);
            assert(r.push(order[0])[r.len() as int] == order[0]);
            if r.contains(x) {
                let j = choose|j: int| 0 <= j < r.len() && r[j] == x;
                assert(r.push(order[0])[j] == x);
            }
            if r.push(order[0]).contains(x) && x != order[0] {
                let j = choose|j: int| 0 <= j < r.len() + 1 && r.push(order[0])[j] == x;
                assert(r[j] == x);
            }
        }
        assert(order[0] == order[0]);
        assert(order.contains(order[0]));
    }
}

/// A screening order without repeats gives a retest order without repeats.
proof fn lemma_retest_no_duplicates(order: Seq<u32>, top: Seq<u32>)
    requires
        order.no_duplicates(),
    ensures
        spec_retest_order(order, top).no_duplicates(),
    decreases order.len(),
{
    if order.len() > 0 {
        let rest = order.drop_first();
        assert(rest.no_duplicates()) by {
            assert forall|i: int, j: int| 0 <= i < rest.len() && 0 <= j < rest.len() && i != j
                implies rest[i] != rest[j] by {
                assert(order[i + 1] != order[j + 1]);
            }
        }
        lemma_retest_no_duplicates(rest, top);
        let r = spec_retest_order(rest, top);
        if in_top_two(top, order[0]) {
            lemma_retest_membership(rest, top, order[0]);
            assert(!rest.contains(order[0])) by {
                if rest.contains(order[0]) {
                    let j = choose|j: int| 0 <= j < rest.len() && rest[j] == order[0];
                    assert(order[j + 1] == order[0]);
                }
            }
            assert(r.push(order[0]).no_duplicates()) by {
                assert forall|i: int, j: int| 0 <= i < r.len() + 1 && 0 <= j < r.len() + 1 && i != j
                    implies r.push(order[0])[i] != r.push(order[0])[j] by {
                    if i == r.len() {
                        assert(!r.contains(order[0]));
                        assert(r[j] != order[0]);
                    } else if j == r.len() {
                        assert(!r.contains(order[0]));
                        assert(r[i] != order[0]);
                    }
                }
            }
        }
    }
}

/// Law: when the screening order has no repeats and the ranking's first two
/// (at most) are distinct cores of it, the retest runs each of them exactly
/// once: `min(N, 2)` retest captures after `N` screening captures.
pub proof fn law_retest_runs_each_top_core_once(order: Seq<u32>, top: Seq<u32>)
    requires
        order.no_duplicates(),
        top.len() <= 2,
        top.no_duplicates(),
        forall|i: int| 0 <= i < top.len() ==> order.contains(#[trigger] top[i]),
    ensures
        spec_retest_order(order, top).len() == top.len(),
        forall|i: int| 0 <= i < top.len() ==> spec_retest_order(order, top).contains(#[trigger] top[i]),
{
    let r = spec_retest_order(order, top);
    lemma_retest_no_duplicates(order, top);
    assert forall|i: int| 0 <= i < top.len() implies r.contains(#[trigger] top[i]) by {
        lemma_retest_membership(order, top, top[i]);
        assert(in_top_two(top, top[i]));
    }
    assert(r.to_set() =~= top.to_set()) by {
        assert forall|x: u32| r.to_set().contains(x) <==> top.to_set().contains(x) by {
            lemma_retest_membership(order, top, x);
            if in_top_two(top, x) {
                let i = choose|i: int| 0 <= i < 2 && i < top.len() && top[i] == x;
                assert(top.contains(x));
            }
            if top.contains(x) {
                let i = choose|i: int| 0 <= i < top.len() && top[i] == x;
                assert(in_top_two(top, x));
            }
        }
    }
    r.unique_seq_to_set();
    top.unique_seq_to_set();
}

/// Law: the retest runs its cores in the reverse of their screening order:
/// of two retest captures, the earlier one's core was screened later.
pub proof fn law_retest_reverses_screening_order(order: Seq<u32>, top: Seq<u32>, a: int, b: int)
    requires
        0 <= a < b < spec_retest_order(order, top).len(),
    ensures
        exists|i: int, j: int| 0 <= j < i < order.len()
            && order[i] == spec_retest_order(order, top)[a] && order[j] == spec_retest_order(order, top)[b],
    decreases order.len(),
{
    let rest = order.drop_first();
    let r = spec_retest_order(rest, top);
    if b < r.len() {
        law_retest_reverses_screening_order(rest, top, a, b);
        let (i, j) = choose|i: int, j: int| 0 <= j < i < rest.len() && rest[i] == r[a] && rest[j] == r[b];
        assert(order[i + 1] == r[a] && order[j + 1] == r[b]);
        assert(spec_retest_order(order, top)[a] == r[a]);
        assert(spec_retest_order(order, top)[b] == r[b]);
    } else {
        assert(spec_retest_order(order, top) == r.push(order[0]));
        assert(spec_retest_order(order, top)[b] == order[0]);
        assert(spec_retest_order(order, top)[a] == r[a]);
        lemma_retest_membership(rest, top, r[a]);
        assert(r.contains(r[a]));
        let i = choose|i: int| 0 <= i < rest.len() && rest[i] == r[a];
        assert(order[i + 1] == r[a]);
        assert(order[0] == spec_retest_order(order, top)[b]);
    }
}

} // verus!
