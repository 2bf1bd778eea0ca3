//! FPS-cap calibration: circular-buffer sizing for PresentMon.
use vstd::prelude::*;
use vstd::arithmetic::power2::{pow2, lemma_pow2_unfold, lemma_pow2_strictly_increases};
use crate::codes::{ErrorCode, code_text};
use crate::model::FpsCapPolicy;
use crate::runner::PRESENTMON_CIRCULAR_BUFFER_SIZE;

verus! {

/// Smallest buffer PresentMon is ever given by calibration.
pub const MIN_CALIBRATION_BUFFER: u64 = 8192;

/// `p` is the smallest power of two that is at least `v` (for `v == 0` that is 1).
pub open spec fn is_next_power_of_two(v: nat, p: nat) -> bool {
    &&& exists|k: nat| p == pow2(k)
    &&& p >= v
    &&& (p == 1 || p / 2 < v)
}

/// Two powers of two that both satisfy the definition for the same `v` are equal.
pub proof fn lemma_next_power_of_two_unique(v: nat, p: nat, q: nat)
    requires
        is_next_power_of_two(v, p),
        is_next_power_of_two(v, q),
    ensures
        p == q,
{
    let a = choose|k: nat| p == pow2(k);
    let b = choose|k: nat| q == pow2(k);
    if a < b {
        lemma_pow2_unfold(b);
        if a < b - 1 {
            lemma_pow2_strictly_increases(a, (b - 1) as nat);
        }
        assert(q / 2 == pow2((b - 1) as nat));
        assert(q / 2 >= p);
    } else if b < a {
        lemma_pow2_unfold(a);
        if b < a - 1 {
            lemma_pow2_strictly_increases(b, (a - 1) as nat);
        }
        assert(p / 2 == pow2((a - 1) as nat));
        assert(p / 2 >= q);
    }
}

/// Smallest power of two that is `>= v` (1 for 0). The doubling loop does
/// not terminate above 2^63, so such inputs are excluded.
pub fn next_power_of_two(v: u64) -> (p: u64)
    requires
        v <= 0x8000_0000_0000_0000,
    ensures
        is_next_power_of_two(v as nat, p as nat),
{
    if v == 0 {
        assert(1 == pow2(0)) by { vstd::arithmetic::power2::lemma2_to64(); }
        return 1;
    }
    let mut p: u64 = 1;
    let ghost mut k: nat = 0;
    proof { vstd::arithmetic::power2::lemma2_to64(); }
    while p < v
        invariant
            1 <= p <= 0x8000_0000_0000_0000,
            p == pow2(k),
            v <= 0x8000_0000_0000_0000,
            p == 1 || p / 2 < v,
            k <= 63,
        decreases 63 - k,
    {
        proof {
            lemma_pow2_unfold(k + 1);
            if k >= 63 {
                if k > 63 {
                    lemma_pow2_strictly_increases(63, k);
                }
                assert(pow2(63) == 0x8000_0000_0000_0000) by {
                    vstd::arithmetic::power2::lemma2_to64_rest();
                }
                assert(false);
            }
            if k < 62 {
                lemma_pow2_strictly_increases(k, 62);
            }
            assert(pow2(62) == 0x4000_0000_0000_0000) by {
                vstd::arithmetic::power2::lemma2_to64_rest();
            }
        }
        p = p * 2;
        proof {
            k = k + 1;
        }
    }
    p
}

/// Circular buffer for a calibrated cap: `max(8192, next_power_of_two(cap * 8))`,
/// clamped to `u32::MAX`.
pub fn calibration_buffer(cap: u32) -> (b: u32)
    ensures
        exists|p: nat|
            is_next_power_of_two(cap as nat * 8, p) && b as nat == vstd::math::min(
                vstd::math::max(p as int, MIN_CALIBRATION_BUFFER as int),
                u32::MAX as int,
            ),
{
    let needed: u64 = (cap as u64) * 8;
    let pow2v = next_power_of_two(needed);
    let widened = if pow2v > MIN_CALIBRATION_BUFFER { pow2v } else { MIN_CALIBRATION_BUFFER };
    let clamped = if widened < u32::MAX as u64 { widened } else { u32::MAX as u64 };
    assert(is_next_power_of_two(cap as nat * 8, pow2v as nat));
    assert(clamped as nat == vstd::math::min(
        vstd::math::max(pow2v as int, MIN_CALIBRATION_BUFFER as int),
        u32::MAX as int,
    ));
    clamped as u32
}

/// Whether `b` is the PresentMon buffer of cap `cap` (see [`calibration_buffer`]).
pub open spec fn is_buffer_for(cap: u32, b: u32) -> bool {
    exists|p: nat|
        is_next_power_of_two(cap as nat * 8, p) && b as nat == vstd::math::min(
            vstd::math::max(p as int, MIN_CALIBRATION_BUFFER as int),
            u32::MAX as int,
        )
}

/// The number of calibration tiers.
pub const CALIBRATION_TIER_COUNT: usize = 5;

/// The capped frame rates calibration tries, lowest first.
pub open spec fn tier_at(i: int) -> u32 {
    if i == 0 { 240 } else if i == 1 { 500 } else if i == 2 { 1000 } else if i == 3 { 2000 } else { 4000 }
}

/// The `i`-th calibration tier.
pub fn calibration_tier(i: usize) -> (t: u32)
    requires
        i < CALIBRATION_TIER_COUNT,
    ensures
        t == tier_at(i as int),
{
    if i == 0 { 240 } else if i == 1 { 500 } else if i == 2 { 1000 } else if i == 3 { 2000 } else { 4000 }
}

/// What one calibration capture showed.
#[derive(Clone, Debug)]
pub enum TierOutcome {
    /// PresentMon overflowed its buffer at this cap.
    Overflow,
    /// A clean capture; `gain_below_min` tells whether its average FPS gains
    /// less than the minimum over the previous clean tier (or that gain cannot
    /// be measured), as the host computes it from the frame rates.
    Clean { gain_below_min: bool },
    /// The capture failed otherwise (the code, or `cancelled`).
    Failed(String),
}

/// What calibration asks for next.
#[derive(Clone, Copy, Debug, PartialEq, Eq, Structural)]
pub enum CalibrationStep {
    /// Capture the workload capped at `tier` with a PresentMon buffer of `buffer`.
    Capture { tier: u32, buffer: u32 },
    /// Stop: the outcome is set.
    Done,
}

/// The choice of the frame-rate cap and PresentMon buffer of a run.
///
/// An adaptive run tries the tiers in order: an overflow selects the previous
/// clean tier (an overflow on the first tier is an error); a clean capture of
/// the last tier, or one that gains too little over the previous clean tier,
/// is selected; otherwise the next tier is tried. A fixed run keeps its cap
/// and the default buffer.
#[derive(Clone, Debug)]
pub struct Calibration {
    /// The tier tried next.
    pub index: usize,
    /// The last clean tier.
    pub clean_tier: Option<u32>,
    /// `(cap, buffer)` once chosen, or why calibration failed.
    pub outcome: Option<Result<(u32, u32), String>>,
}

impl Calibration {
    /// Whether calibration is in a state it can reach: done, or at a tier with
    /// every earlier tier clean.
    pub open spec fn wf(self) -> bool {
        self.outcome is Some || (self.index < CALIBRATION_TIER_COUNT
            && self.clean_tier == (if self.index == 0 { None } else { Some(tier_at(self.index - 1)) }))
    }

    /// Calibration for `policy`: an adaptive run starts at the first tier; a
    /// fixed one is done at once with `fps_cap` and the default buffer.
    pub fn start(policy: FpsCapPolicy, fps_cap: u32) -> (c: Self)
        ensures
            c.wf(),
            policy == FpsCapPolicy::Fixed ==> c.outcome == Some(Ok::<(u32, u32), String>((fps_cap, PRESENTMON_CIRCULAR_BUFFER_SIZE))),
            policy == FpsCapPolicy::Adaptive ==> c.index == 0 && c.clean_tier is None && c.outcome is None,
    {
        match policy {
            FpsCapPolicy::Fixed => Calibration {
                index: 0,
                clean_tier: None,
                outcome: Some(Ok((fps_cap, PRESENTMON_CIRCULAR_BUFFER_SIZE))),
            },
            FpsCapPolicy::Adaptive => Calibration { index: 0, clean_tier: None, outcome: None },
        }
    }

    /// The next step: done once the outcome is set; a cancellation ends
    /// calibration with `cancelled`; otherwise the capture of the current tier.
    pub fn next(&mut self, cancelled: bool) -> (s: CalibrationStep)
        requires
            old(self).wf(),
        ensures
            final(self).wf(),
            old(self).outcome is Some ==> s == CalibrationStep::Done && *final(self) == *old(self),
            old(self).outcome is None && cancelled ==> s == CalibrationStep::Done
                && (final(self).outcome matches Some(Err(e)) && e@ == "cancelled"@),
            old(self).outcome is None && !cancelled ==> *final(self) == *old(self)
                && (s matches CalibrationStep::Capture { tier, buffer } && tier == tier_at(old(self).index as int)
                && is_buffer_for(tier, buffer)),
    {
        if self.outcome.is_some() {
            return CalibrationStep::Done;
        }
        if cancelled {
            self.outcome = Some(Err("cancelled".to_owned()));
            return CalibrationStep::Done;
        }
        let tier = calibration_tier(self.index);
        CalibrationStep::Capture { tier, buffer: calibration_buffer(tier) }
    }

    /// Takes the outcome of the capture of the current tier (see [`Calibration`]).
    pub fn record(&mut self, r: TierOutcome)
        requires
            old(self).wf(),
            old(self).outcome is None,
        ensures
            final(self).wf(),
            ({
                let i = old(self).index as int;
                match r {
                    TierOutcome::Overflow => if i == 0 {
                        final(self).outcome matches Some(Err(e)) && e@ == code_text(ErrorCode::BenchmarkCaptureOverflow)
                    } else {
                        final(self).outcome matches Some(Ok((cap, b))) && cap == tier_at(i - 1) && is_buffer_for(cap, b)
                    },
                    TierOutcome::Failed(e) => final(self).outcome matches Some(Err(x)) && x@ == e@,
                    TierOutcome::Clean { gain_below_min } => if i + 1 == CALIBRATION_TIER_COUNT || (i > 0 && gain_below_min) {
                        final(self).outcome matches Some(Ok((cap, b))) && cap == tier_at(i) && is_buffer_for(cap, b)
                    } else {
                        final(self).outcome is None && final(self).index == i + 1
                    },
                }
            }),
    {
        match r {
            TierOutcome::Overflow => {
                match self.clean_tier {
                    Some(prev) => {
                        let b = calibration_buffer(prev);
                        self.outcome = Some(Ok((prev, b)));
                    },
                    None => {
                        self.outcome = Some(Err(ErrorCode::BenchmarkCaptureOverflow.as_str().to_owned()));
                    },
                }
            },
            TierOutcome::Failed(e) => {
                self.outcome = Some(Err(e));
            },
            TierOutcome::Clean { gain_below_min } => {
                let tier = calibration_tier(self.index);
                if self.index + 1 == CALIBRATION_TIER_COUNT || (self.clean_tier.is_some() && gain_below_min) {
                    let b = calibration_buffer(tier);
                    self.outcome = Some(Ok((tier, b)));
                } else {
                    self.clean_tier = Some(tier);
                    self.index = self.index + 1;
                }
            },
        }
    }
}

} // verus!
