//! Whole-core GPU targets and the quick-test schedule. An LP is always a
//! logical-processor index.
use vstd::prelude::*;
use crate::codes::ErrorCode;
use crate::model::{BenchmarkConfig, FpsCapPolicy};
use crate::topology::{PhysicalCore, Topology};
use crate::bits::{lp_mask, le_trimmed, lemma_lp_mask_bits, lemma_lp_mask_nonzero};

verus! {

/// Method version of the whole-core quick test.
pub const METHOD_VERSION: u32 = 3;

/// Restart stabilisation after a device restart (ms).
pub const RESTART_STABILIZE_MS: u64 = 5000;
/// Fixed wait after the workload starts (ms).
pub const WORKLOAD_STARTUP_MS: u64 = 5000;
/// Calibration warm-up seconds per tier.
pub const CALIBRATION_WARMUP_SECS: u32 = 5;
/// Calibration capture seconds per tier.
pub const CALIBRATION_SAMPLE_SECS: u32 = 10;
/// Number of calibration tiers.
pub const CALIBRATION_TIER_COUNT: u64 = 5;

/// One physical core as a GPU interrupt target, with all of its LPs.
#[derive(Clone, Debug, PartialEq, Eq)]
pub struct CoreTarget {
    pub core_id: u32,
    pub lp_indices: Vec<u32>,
}

/// The plain view of a target.
pub open spec fn target_view(t: CoreTarget) -> (u32, Seq<u32>) {
    (t.core_id, t.lp_indices@)
}

/// The plain views of a list of targets.
pub open spec fn targets_view(ts: Seq<CoreTarget>) -> Seq<(u32, Seq<u32>)> {
    ts.map_values(|t: CoreTarget| target_view(t))
}

/// How many LP records of the topology name core `id`, among the first `n`.
pub open spec fn lps_of_core(lps: Seq<crate::topology::LogicalProcessor>, id: u32, n: int) -> nat
    decreases n,
{
    if n <= 0 {
        0
    } else {
        lps_of_core(lps, id, n - 1) + if lps[n - 1].core_id == id { 1nat } else { 0nat }
    }
}

/// Whether the topology lists LP `lp` under core `core`.
pub open spec fn lp_enumerated(topo: Topology, lp: u32, core: u32) -> bool {
    exists|l: int|
        0 <= l < topo.logical_processors@.len() && #[trigger] topo.logical_processors@[l].index == lp
            && topo.logical_processors@[l].core_id == core
}

/// A core is a candidate when: on a hybrid part it is a P-core; it has LPs,
/// all below 64; each of its LPs is enumerated under this core; its LP list
/// has no repeats; and the topology lists exactly that many LPs for it.
pub open spec fn core_qualifies(topo: Topology, c: PhysicalCore) -> bool {
    let lps = c.lp_indices@;
    &&& (!topo.has_hybrid || c.is_p_core)
    &&& lps.len() > 0
    &&& (forall|k: int| 0 <= k < lps.len() ==> #[trigger] lps[k] < 64)
    &&& (forall|k: int| 0 <= k < lps.len() ==> #[trigger] lp_enumerated(topo, lps[k], c.id))
    &&& lps.no_duplicates()
    &&& lps_of_core(topo.logical_processors@, c.id, topo.logical_processors@.len() as int) == lps.len()
}

/// Candidate targets among the first `n` physical cores, in order.
pub open spec fn candidate_prefix(topo: Topology, n: int) -> Seq<(u32, Seq<u32>)>
    decreases n,
{
    if n <= 0 {
        Seq::empty()
    } else {
        let c = topo.physical_cores@[n - 1];
        candidate_prefix(topo, n - 1) + if core_qualifies(topo, c) {
            seq![(c.id, c.lp_indices@)]
        } else {
            Seq::empty()
        }
    }
}

/// All candidate targets: none unless the machine has exactly one processor group.
pub open spec fn spec_candidates(topo: Topology) -> Seq<(u32, Seq<u32>)> {
    if topo.processor_groups != 1 {
        Seq::empty()
    } else {
        candidate_prefix(topo, topo.physical_cores@.len() as int)
    }
}

/// Every candidate has LPs, all below 64.
pub proof fn lemma_candidate_lps_below_64(topo: Topology, n: int, i: int)
    requires
        0 <= n <= topo.physical_cores@.len(),
        0 <= i < candidate_prefix(topo, n).len(),
    ensures
        candidate_prefix(topo, n)[i].1.len() > 0,
        forall|k: int|
            0 <= k < candidate_prefix(topo, n)[i].1.len() ==> #[trigger] candidate_prefix(topo, n)[i].1[k] < 64,
    decreases n,
{
    let prev = candidate_prefix(topo, n - 1);
    if i < prev.len() {
        lemma_candidate_lps_below_64(topo, n - 1, i);
    }
}

/// Whether `id` is enumerated under `core` in the topology.
fn lp_under_core(topo: &Topology, lp: u32, core: u32) -> (r: bool)
    ensures
        r == lp_enumerated(*topo, lp, core),
{
    let mut l: usize = 0;
    while l < topo.logical_processors.len()
        invariant
            0 <= l <= topo.logical_processors@.len(),
            forall|m: int|
                0 <= m < l ==> !(#[trigger] topo.logical_processors@[m].index == lp
                    && topo.logical_processors@[m].core_id == core),
        decreases topo.logical_processors@.len() - l,
    {
        if topo.logical_processors[l].index == lp && topo.logical_processors[l].core_id == core {
            assert(topo.logical_processors@[l as int].index == lp);
            return true;
        }
        l = l + 1;
    }
    false
}

/// Whether every LP is below 64.
fn all_below_64(lps: &Vec<u32>) -> (r: bool)
    ensures
        r == (forall|k: int| 0 <= k < lps@.len() ==> #[trigger] lps@[k] < 64),
{
    let mut k: usize = 0;
    while k < lps.len()
        invariant
            0 <= k <= lps@.len(),
            forall|q: int| 0 <= q < k ==> #[trigger] lps@[q] < 64,
        decreases lps@.len() - k,
    {
        if lps[k] >= 64 {
            assert(!(lps@[k as int] < 64));
            return false;
        }
        k = k + 1;
    }
    true
}

/// Whether every LP of the core is enumerated under the core.
fn all_enumerated(topo: &Topology, c: &PhysicalCore) -> (r: bool)
    ensures
        r == (forall|k: int| 0 <= k < c.lp_indices@.len() ==> #[trigger] lp_enumerated(*topo, c.lp_indices@[k], c.id)),
{
    let mut k: usize = 0;
    while k < c.lp_indices.len()
        invariant
            0 <= k <= c.lp_indices@.len(),
            forall|q: int| 0 <= q < k ==> #[trigger] lp_enumerated(*topo, c.lp_indices@[q], c.id),
        decreases c.lp_indices@.len() - k,
    {
        if !lp_under_core(topo, c.lp_indices[k], c.id) {
            return false;
        }
        k = k + 1;
    }
    true
}

/// Whether the LP list has no repeats.
fn distinct(lps: &Vec<u32>) -> (r: bool)
    ensures
        r == lps@.no_duplicates(),
{
    let mut a: usize = 0;
    while a < lps.len()
        invariant
            0 <= a <= lps@.len(),
            forall|x: int, y: int| 0 <= x < a && 0 <= y < lps@.len() && x != y ==> lps@[x] != lps@[y],
        decreases lps@.len() - a,
    {
        let mut b: usize = 0;
        while b < lps.len()
            invariant
                0 <= a < lps@.len(),
                0 <= b <= lps@.len(),
                forall|x: int, y: int| 0 <= x < a && 0 <= y < lps@.len() && x != y ==> lps@[x] != lps@[y],
                forall|y: int| 0 <= y < b && a != y ==> lps@[a as int] != lps@[y],
            decreases lps@.len() - b,
        {
            if a != b && lps[a] == lps[b] {
                assert(!lps@.no_duplicates()) by {
                    if a < b {
                        assert(lps@[a as int] == lps@[b as int]);
                    } else {
                        assert(lps@[b as int] == lps@[a as int]);
                    }
                }
                return false;
            }
            b = b + 1;
        }
        a = a + 1;
    }
    true
}

/// How many LP records name core `id`.
fn count_lps_of_core(topo: &Topology, id: u32) -> (r: usize)
    ensures
        r == lps_of_core(topo.logical_processors@, id, topo.logical_processors@.len() as int),
{
    let mut count: usize = 0;
    let mut l: usize = 0;
    while l < topo.logical_processors.len()
        invariant
            0 <= l <= topo.logical_processors@.len(),
            count == lps_of_core(topo.logical_processors@, id, l as int),
            count <= l,
        decreases topo.logical_processors@.len() - l,
    {
        if topo.logical_processors[l].core_id == id {
            count = count + 1;
        }
        l = l + 1;
    }
    count
}

/// Whether a core passes [`core_qualifies`].
fn qualifies(topo: &Topology, c: &PhysicalCore) -> (r: bool)
    ensures
        r == core_qualifies(*topo, *c),
{
    (!topo.has_hybrid || c.is_p_core) && c.lp_indices.len() > 0 && all_below_64(&c.lp_indices)
        && all_enumerated(topo, c) && distinct(&c.lp_indices) && count_lps_of_core(topo, c.id)
        == c.lp_indices.len()
}

/// Copy of a target.
fn copy_target(t: &CoreTarget) -> (r: CoreTarget)
    ensures
        target_view(r) == target_view(*t),
{
    CoreTarget { core_id: t.core_id, lp_indices: t.lp_indices.clone() }
}

/// Whole-core candidates in core order: nothing unless the machine has exactly
/// one processor group; on hybrid parts only P-cores; each target carries all
/// of its LPs (SMT siblings included, core 0 included).
pub fn candidates(topo: &Topology) -> (r: Vec<CoreTarget>)
    ensures
        targets_view(r@) == spec_candidates(*topo),
{
    let mut out: Vec<CoreTarget> = Vec::new();
    if topo.processor_groups != 1 {
        assert(targets_view(out@) =~= spec_candidates(*topo));
        return out;
    }
    let mut i: usize = 0;
    while i < topo.physical_cores.len()
        invariant
            topo.processor_groups == 1,
            0 <= i <= topo.physical_cores@.len(),
            targets_view(out@) == candidate_prefix(*topo, i as int),
        decreases topo.physical_cores@.len() - i,
    {
        let c = &topo.physical_cores[i];
        let ghost before = out@;
        if qualifies(topo, c) {
            out.push(CoreTarget { core_id: c.id, lp_indices: c.lp_indices.clone() });
        }
        assert(targets_view(out@) =~= candidate_prefix(*topo, i as int + 1));
        i = i + 1;
    }
    out
}

/// Whether two targets have the same core and LP list.
pub(crate) fn same_target(a: &CoreTarget, b: &CoreTarget) -> (r: bool)
    ensures
        r == (target_view(*a) == target_view(*b)),
{
    if a.core_id != b.core_id || a.lp_indices.len() != b.lp_indices.len() {
        assert(a.lp_indices@.len() != b.lp_indices@.len() ==> a.lp_indices@ != b.lp_indices@);
        return false;
    }
    let mut k: usize = 0;
    while k < a.lp_indices.len()
        invariant
            a.lp_indices@.len() == b.lp_indices@.len(),
            0 <= k <= a.lp_indices@.len(),
            forall|q: int| 0 <= q < k ==> a.lp_indices@[q] == b.lp_indices@[q],
        decreases a.lp_indices@.len() - k,
    {
        if a.lp_indices[k] != b.lp_indices[k] {
            return false;
        }
        k = k + 1;
    }
    assert(a.lp_indices@ =~= b.lp_indices@);
    true
}

/// Whether `t` is one of `ts`.
fn contains_target(ts: &Vec<CoreTarget>, t: &CoreTarget) -> (r: bool)
    ensures
        r == targets_view(ts@).contains(target_view(*t)),
{
    let mut i: usize = 0;
    while i < ts.len()
        invariant
            0 <= i <= ts@.len(),
            forall|q: int| 0 <= q < i ==> target_view(ts@[q]) != target_view(*t),
        decreases ts@.len() - i,
    {
        if same_target(&ts[i], t) {
            assert(targets_view(ts@)[i as int] == target_view(*t));
            return true;
        }
        i = i + 1;
    }
    assert forall|q: int| 0 <= q < targets_view(ts@).len() implies targets_view(ts@)[q] != target_view(*t) by {
        assert(targets_view(ts@)[q] == target_view(ts@[q]));
    }
    false
}

/// Index of the first target among the first `n` with core id `id`.
pub open spec fn first_with_id(avail: Seq<(u32, Seq<u32>)>, id: u32, n: int) -> Option<int>
    decreases n,
{
    if n <= 0 {
        None
    } else {
        match first_with_id(avail, id, n - 1) {
            Some(k) => Some(k),
            None => if avail[n - 1].0 == id { Some(n - 1) } else { None },
        }
    }
}

proof fn lemma_first_with_id_stable(avail: Seq<(u32, Seq<u32>)>, id: u32, j: int, n: int)
    requires
        0 <= j < n,
        first_with_id(avail, id, j + 1) == Some(j),
    ensures
        first_with_id(avail, id, n) == Some(j),
    decreases n - j,
{
    if n > j + 1 {
        lemma_first_with_id_stable(avail, id, j, n - 1);
    }
}

pub(crate) proof fn lemma_first_with_id_bounds(avail: Seq<(u32, Seq<u32>)>, id: u32, n: int)
    requires
        0 <= n,
    ensures
        first_with_id(avail, id, n) matches Some(k) ==> 0 <= k < n && avail[k].0 == id,
    decreases n,
{
    if n > 0 {
        lemma_first_with_id_bounds(avail, id, n - 1);
    }
}

/// Selection over the requested ids, left to right: an unknown id is an
/// incompatible-session error, a repeated target an invalid-config error.
pub open spec fn select_ids(avail: Seq<(u32, Seq<u32>)>, ids: Seq<u32>) -> Result<Seq<(u32, Seq<u32>)>, ErrorCode>
    decreases ids.len(),
{
    if ids.len() == 0 {
        Ok(Seq::empty())
    } else {
        match select_ids(avail, ids.drop_last()) {
            Err(e) => Err(e),
            Ok(sel) => match first_with_id(avail, ids.last(), avail.len() as int) {
                None => Err(ErrorCode::BenchmarkSessionIncompatible),
                Some(k) => if sel.contains(avail[k]) {
                    Err(ErrorCode::BenchmarkInvalidConfig)
                } else {
                    Ok(sel.push(avail[k]))
                },
            },
        }
    }
}

/// An error on a prefix of the requested ids is the error of the whole request.
proof fn lemma_select_err_propagates(avail: Seq<(u32, Seq<u32>)>, ids: Seq<u32>, m: int)
    requires
        0 <= m <= ids.len(),
        select_ids(avail, ids.take(m)) is Err,
    ensures
        select_ids(avail, ids) == select_ids(avail, ids.take(m)),
    decreases ids.len() - m,
{
    if m < ids.len() {
        assert(ids.take(m + 1).drop_last() =~= ids.take(m));
        lemma_select_err_propagates(avail, ids, m + 1);
    } else {
        assert(ids.take(m) =~= ids);
    }
}

/// What [`select`] returns: an incompatible-session error when there are no
/// candidates, every candidate for an empty request, else [`select_ids`].
pub open spec fn spec_select(topo: Topology, ids: Seq<u32>) -> Result<Seq<(u32, Seq<u32>)>, ErrorCode> {
    let avail = spec_candidates(topo);
    if avail.len() == 0 {
        Err(ErrorCode::BenchmarkSessionIncompatible)
    } else if ids.len() == 0 {
        Ok(avail)
    } else {
        select_ids(avail, ids)
    }
}

/// Picks the requested cores among the candidates (all of them for an empty request).
pub fn select(topo: &Topology, ids: &[u32]) -> (r: Result<Vec<CoreTarget>, ErrorCode>)
    ensures
        match (r, spec_select(*topo, ids@)) {
            (Ok(v), Ok(s)) => targets_view(v@) == s,
            (Err(e), Err(f)) => e == f,
            _ => false,
        },
{
    let available = candidates(topo);
    let ghost avail = targets_view(available@);
    assert(avail.len() == available@.len());
    if available.len() == 0 {
        return Err(ErrorCode::BenchmarkSessionIncompatible);
    }
    if ids.len() == 0 {
        return Ok(available);
    }
    let mut selected: Vec<CoreTarget> = Vec::new();
    let mut i: usize = 0;
    assert(ids@.take(0) =~= Seq::<u32>::empty());
    assert(targets_view(selected@) =~= Seq::<(u32, Seq<u32>)>::empty());
    while i < ids.len()
        invariant
            avail == targets_view(available@),
            avail == spec_candidates(*topo),
            0 <= i <= ids@.len(),
            select_ids(avail, ids@.take(i as int)) == Ok::<Seq<(u32, Seq<u32>)>, ErrorCode>(targets_view(selected@)),
        decreases ids@.len() - i,
    {
        let id = ids[i];
        let ghost pre = ids@.take(i as int + 1);
        assert(pre.drop_last() =~= ids@.take(i as int));
        assert(pre.last() == id);
        let mut j: usize = 0;
        while j < available.len() && available[j].core_id != id
            invariant
                avail == targets_view(available@),
                0 <= j <= available@.len(),
                first_with_id(avail, id, j as int) is None,
            decreases available@.len() - j,
        {
            assert(avail[j as int].0 == available@[j as int].core_id);
            j = j + 1;
        }
        let found: Option<usize> = if j < available.len() { Some(j) } else { None };
        proof {
            if j < available.len() {
                assert(avail[j as int].0 == available@[j as int].core_id);
            }
        }
        match found {
            None => {
                proof {
                    lemma_select_err_propagates(avail, ids@, i as int + 1);
                }
                return Err(ErrorCode::BenchmarkSessionIncompatible);
            },
            Some(k) => {
                proof {
                    assert(first_with_id(avail, id, k as int + 1) == Some(k as int));
                    lemma_first_with_id_stable(avail, id, k as int, available@.len() as int);
                }
                assert(target_view(available@[k as int]) == avail[k as int]);
                if contains_target(&selected, &available[k]) {
                    proof {
                        lemma_select_err_propagates(avail, ids@, i as int + 1);
                    }
                    return Err(ErrorCode::BenchmarkInvalidConfig);
                }
                let ghost old_sel = selected@;
                selected.push(copy_target(&available[k]));
                assert(targets_view(selected@) =~= targets_view(old_sel).push(avail[k as int]));
            },
        }
        i = i + 1;
    }
    assert(ids@.take(ids@.len() as int) =~= ids@);
    Ok(selected)
}

/// GPU affinity mask of a candidate target: the little-endian bytes (without
/// trailing zero bytes) of the word with exactly the target's LP bits set.
/// A target that is not a current candidate is an incompatible-session error.
pub fn mask(target: &CoreTarget, topo: &Topology) -> (r: Result<Vec<u8>, ErrorCode>)
    ensures
        spec_candidates(*topo).contains(target_view(*target)) <==> r is Ok,
        r is Err ==> r == Err::<Vec<u8>, ErrorCode>(ErrorCode::BenchmarkSessionIncompatible),
        r matches Ok(bytes) ==> bytes@ == le_trimmed(lp_mask(target.lp_indices@)),
        r matches Ok(bytes) ==> 1 <= bytes@.len() <= 8 && bytes@.last() != 0,
        r is Ok ==> forall|k: u32| k < 64 ==> (((lp_mask(target.lp_indices@) >> k) & 1 == 1)
            <==> target.lp_indices@.contains(k)),
{
    let cands = candidates(topo);
    if !contains_target(&cands, target) {
        return Err(ErrorCode::BenchmarkSessionIncompatible);
    }
    let ghost lps = target.lp_indices@;
    proof {
        let i = choose|i: int| 0 <= i < spec_candidates(*topo).len() && spec_candidates(*topo)[i] == target_view(*target);
        lemma_candidate_lps_below_64(*topo, topo.physical_cores@.len() as int, i);
        lemma_lp_mask_bits(lps);
        lemma_lp_mask_nonzero(lps);
    }
    let bits = crate::bits::mask_of_lps(&target.lp_indices);
    if bits == 0 {
        return Err(ErrorCode::BenchmarkSessionIncompatible);
    }
    proof {
        crate::bits::lemma_le_last_nonzero(bits);
        crate::bits::lemma_le_roundtrip(bits);
    }
    Ok(crate::bits::to_le_trimmed(bits))
}

/// Time plan of a quick test.
#[derive(Clone, Debug, PartialEq, Eq)]
pub struct QuickSchedule {
    pub screening_warmup_secs: u32,
    pub screening_sample_secs: u32,
    pub retest_warmup_secs: u32,
    pub retest_sample_secs: u32,
    pub candidate_captures: u32,
    pub estimated_min_secs: u64,
    pub estimated_max_secs: u64,
}

/// Per-capture overhead in seconds: 4 s plus restart stabilisation and workload start-up.
pub open spec fn capture_overhead() -> int {
    4 + (RESTART_STABILIZE_MS + WORKLOAD_STARTUP_MS) / 1000
}

/// Seconds of one calibration tier (warm-up, capture, workload start-up).
pub open spec fn calibration_secs() -> int {
    (CALIBRATION_WARMUP_SECS + CALIBRATION_SAMPLE_SECS) + WORKLOAD_STARTUP_MS / 1000
}

/// Base estimate: `n` screening captures, `min(n, 2)` retests, plus 4 s.
pub open spec fn schedule_base(c: BenchmarkConfig, n: int) -> int {
    n * (capture_overhead() + c.warm_up_secs + c.sample_secs) + vstd::math::min(n, 2) * (
    capture_overhead() + c.retest_warm_up_secs + c.retest_sample_secs) + 4
}

/// Quick-test plan for `count` candidates. The adaptive cap adds two (minimum)
/// or all (maximum) calibration tiers. Estimates must fit in 64 bits.
pub fn schedule(config: &BenchmarkConfig, count: usize) -> (s: QuickSchedule)
    requires
        schedule_base(*config, count as int) + calibration_secs() * CALIBRATION_TIER_COUNT <= u64::MAX,
    ensures
        s.screening_warmup_secs == config.warm_up_secs,
        s.screening_sample_secs == config.sample_secs,
        s.retest_warmup_secs == config.retest_warm_up_secs,
        s.retest_sample_secs == config.retest_sample_secs,
        s.candidate_captures == (count + vstd::math::min(count as int, 2)) % 0x1_0000_0000,
        s.estimated_min_secs == schedule_base(*config, count as int) + if config.fps_cap_policy
            == FpsCapPolicy::Adaptive {
            calibration_secs() * 2
        } else {
            0
        },
        s.estimated_max_secs == schedule_base(*config, count as int) + if config.fps_cap_policy
            == FpsCapPolicy::Adaptive {
            calibration_secs() * CALIBRATION_TIER_COUNT
        } else {
            0
        },
        config.fps_cap_policy == FpsCapPolicy::Adaptive ==> s.estimated_min_secs == schedule_base(*config, count as int) + 40
            && s.estimated_max_secs == s.estimated_min_secs + 60,
        config.fps_cap_policy != FpsCapPolicy::Adaptive ==> s.estimated_min_secs == schedule_base(*config, count as int)
            && s.estimated_max_secs == s.estimated_min_secs,
{
    let n = count as u64;
    let overhead: u64 = 4 + (RESTART_STABILIZE_MS + WORKLOAD_STARTUP_MS) / 1000;
    let retests: u64 = if n < 2 { n } else { 2 };
    proof {
        let a = capture_overhead() + config.warm_up_secs + config.sample_secs;
        let b = capture_overhead() + config.retest_warm_up_secs + config.retest_sample_secs;
        assert(0 <= n * a) by (nonlinear_arith) requires n >= 0, a >= 0;
        assert(0 <= retests * b) by (nonlinear_arith) requires retests >= 0, b >= 0;
    }
    let base = n * (overhead + config.warm_up_secs as u64 + config.sample_secs as u64)
        + retests * (overhead + config.retest_warm_up_secs as u64 + config.retest_sample_secs as u64)
        + 4;
    let calibration: u64 = (CALIBRATION_WARMUP_SECS + CALIBRATION_SAMPLE_SECS) as u64 + WORKLOAD_STARTUP_MS / 1000;
    let adaptive = config.fps_cap_policy == FpsCapPolicy::Adaptive;
    proof {
        let a = capture_overhead() + config.warm_up_secs + config.sample_secs;
        assert(n <= n * a) by (nonlinear_arith) requires n >= 0, a >= 1;
    }
    let captures: u64 = n + retests;
    let candidate_captures = #[verifier::truncate] (captures as u32);
    assert(candidate_captures == captures % 0x1_0000_0000) by (bit_vector)
        requires candidate_captures == #[verifier::truncate] (captures as u32);
    QuickSchedule {
        screening_warmup_secs: config.warm_up_secs,
        screening_sample_secs: config.sample_secs,
        retest_warmup_secs: config.retest_warm_up_secs,
        retest_sample_secs: config.retest_sample_secs,
        candidate_captures,
        estimated_min_secs: base + if adaptive { calibration * 2 } else { 0 },
        estimated_max_secs: base + if adaptive { calibration * CALIBRATION_TIER_COUNT } else { 0 },
    }
}

/// Seconds left after `done` captures out of `count` screenings and
/// `min(count, 2)` retests (the count is taken as a 32-bit value).
pub open spec fn spec_remaining_secs(plan: QuickSchedule, count: int, done: int) -> int {
    let c = count as u32 as int;
    let screening_left = if c > done { c - done } else { 0 };
    let retest_done = if done > c { done - c } else { 0 };
    let retest_total = vstd::math::min(count, 2);
    let retest_left = if retest_total > retest_done { retest_total - retest_done } else { 0 };
    screening_left * (capture_overhead() + plan.screening_warmup_secs + plan.screening_sample_secs)
        + retest_left * (capture_overhead() + plan.retest_warmup_secs + plan.retest_sample_secs) + 4
}

/// Law: the remaining-time estimate of a plan never grows as captures finish;
/// once all `count + min(count, 2)` captures are done only the final 4 s
/// remain; and before any capture it is the plan's base estimate (the
/// schedule's minimum for a fixed cap).
pub proof fn law_remaining_secs_counts_down(config: BenchmarkConfig, plan: QuickSchedule, count: int, d1: int, d2: int)
    requires
        0 <= count < 0x1_0000_0000,
        0 <= d1 <= d2,
    ensures
        spec_remaining_secs(plan, count, d2) <= spec_remaining_secs(plan, count, d1),
        d2 >= count + vstd::math::min(count, 2) ==> spec_remaining_secs(plan, count, d2) == 4,
        plan.screening_warmup_secs == config.warm_up_secs && plan.screening_sample_secs == config.sample_secs
            && plan.retest_warmup_secs == config.retest_warm_up_secs && plan.retest_sample_secs == config.retest_sample_secs
            ==> spec_remaining_secs(plan, count, 0) == schedule_base(config, count),
{
    let c = count as u32 as int;
    assert(c == count);
    let a = capture_overhead() + plan.screening_warmup_secs + plan.screening_sample_secs;
    let b = capture_overhead() + plan.retest_warmup_secs + plan.retest_sample_secs;
    let s1 = if c > d1 { c - d1 } else { 0 };
    let s2 = if c > d2 { c - d2 } else { 0 };
    let rd1 = if d1 > c { d1 - c } else { 0 };
    let rd2 = if d2 > c { d2 - c } else { 0 };
    let rt = vstd::math::min(count, 2);
    let r1 = if rt > rd1 { rt - rd1 } else { 0 };
    let r2 = if rt > rd2 { rt - rd2 } else { 0 };
    assert(s2 * a <= s1 * a) by (nonlinear_arith) requires 0 <= s2 <= s1, a >= 0;
    assert(r2 * b <= r1 * b) by (nonlinear_arith) requires 0 <= r2 <= r1, b >= 0;
    if d2 >= count + rt {
        assert(s2 == 0 && r2 == 0);
        assert(s2 * a == 0 && r2 * b == 0) by (nonlinear_arith) requires s2 == 0, r2 == 0;
    }
}

/// Remaining-time estimate after a calibration, on the same cost model as
/// [`schedule`] (retries not included).
pub fn remaining_secs(plan: &QuickSchedule, count: usize, done: u32) -> (r: u64)
    requires
        (count as u32 as int) * (capture_overhead() + plan.screening_warmup_secs + plan.screening_sample_secs)
            + 2 * (capture_overhead() + plan.retest_warmup_secs + plan.retest_sample_secs) + 4 <= u64::MAX,
    ensures
        r == spec_remaining_secs(*plan, count as int, done as int),
{
    #[verifier::truncate]
    let c32 = count as u32;
    let screening_left = c32.saturating_sub(done) as u64;
    let retest_done = done.saturating_sub(c32);
    let retest_total: u32 = if count < 2 { count as u32 } else { 2 };
    let retest_left = retest_total.saturating_sub(retest_done) as u64;
    let overhead: u64 = 4 + (RESTART_STABILIZE_MS + WORKLOAD_STARTUP_MS) / 1000;
    proof {
        let a = capture_overhead() + plan.screening_warmup_secs + plan.screening_sample_secs;
        let b = capture_overhead() + plan.retest_warmup_secs + plan.retest_sample_secs;
        assert(screening_left * a <= (c32 as int) * a) by (nonlinear_arith)
            requires screening_left <= c32, a >= 0;
        assert(retest_left * b <= 2 * b) by (nonlinear_arith) requires retest_left <= 2, b >= 0;
        assert(0 <= screening_left * a) by (nonlinear_arith) requires screening_left >= 0, a >= 0;
        assert(0 <= retest_left * b) by (nonlinear_arith) requires retest_left >= 0, b >= 0;
    }
    screening_left * (overhead + plan.screening_warmup_secs as u64 + plan.screening_sample_secs as u64)
        + retest_left * (overhead + plan.retest_warmup_secs as u64 + plan.retest_sample_secs as u64) + 4
}

/// Ranking verdict of a quick test.
#[derive(Clone, Copy, Debug, PartialEq, Eq, Structural)]
pub enum RankingStatus {
    Consistent,
    Close,
    Reversed,
    SingleCandidate,
    Insufficient,
}

impl Default for RankingStatus {
    fn default() -> (s: Self)
        ensures
            s == RankingStatus::Insufficient,
    {
        RankingStatus::Insufficient
    }
}

/// Whether `id` is one of the first two entries of `screening`.
pub open spec fn in_top_two(screening: Seq<u32>, id: u32) -> bool {
    (screening.len() > 0 && screening[0] == id) || (screening.len() > 1 && screening[1] == id)
}

/// Whether every retested core is among the first two screened.
pub open spec fn retest_within_top_two(screening: Seq<u32>, retest: Seq<u32>) -> bool {
    forall|i: int| 0 <= i < retest.len() ==> in_top_two(screening, #[trigger] retest[i])
}

/// The ranking verdict a quick test gets from the shape of its ranked lists
/// alone (core ids, best first), for `count` candidates: `Insufficient` when a
/// list is missing rows or the retest strays from the screening's top two,
/// `SingleCandidate` for one candidate, and no verdict yet (the score gap
/// decides) otherwise.
pub open spec fn spec_assess_shape(screening: Seq<u32>, retest: Seq<u32>, count: int) -> Option<RankingStatus> {
    if count == 0 || screening.len() != count || retest.len() != vstd::math::min(count, 2)
        || !retest_within_top_two(screening, retest) {
        Some(RankingStatus::Insufficient)
    } else if count == 1 {
        Some(RankingStatus::SingleCandidate)
    } else {
        None
    }
}

/// The verdict of [`spec_assess_shape`] for ranked lists of core ids.
pub fn assess_shape(screening: &Vec<u32>, retest: &Vec<u32>, count: usize) -> (r: Option<RankingStatus>)
    ensures
        r == spec_assess_shape(screening@, retest@, count as int),
        count >= 2 && screening@.len() == count && retest@.len() == 2
            && (retest@[0] == screening@[0] || retest@[0] == screening@[1])
            && (retest@[1] == screening@[0] || retest@[1] == screening@[1]) ==> r is None,
        r == Some(RankingStatus::SingleCandidate) ==> count == 1,
{
    let want: usize = if count < 2 { count } else { 2 };
    if count == 0 || screening.len() != count || retest.len() != want {
        return Some(RankingStatus::Insufficient);
    }
    let mut i: usize = 0;
    while i < retest.len()
        invariant
            0 <= i <= retest@.len(),
            forall|k: int| 0 <= k < i ==> in_top_two(screening@, #[trigger] retest@[k]),
        decreases retest@.len() - i,
    {
        let id = retest[i];
        let in0 = screening.len() > 0 && screening[0] == id;
        let in1 = screening.len() > 1 && screening[1] == id;
        if !in0 && !in1 {
            assert(!in_top_two(screening@, retest@[i as int]));
            return Some(RankingStatus::Insufficient);
        }
        i = i + 1;
    }
    assert(vstd::math::min(count as int, 2) == want as int);
    if count == 1 {
        Some(RankingStatus::SingleCandidate)
    } else {
        None
    }
}

/// The verdict of a quick test with two or more candidates once its score gap
/// is known: `Close` when the gap is within the tie margin, else `Reversed`
/// when the retest's winner differs from the screening's, else `Consistent`.
pub fn gap_status(close: bool, screening_first: u32, retest_first: u32) -> (r: RankingStatus)
    ensures
        r == (if close {
            RankingStatus::Close
        } else if screening_first != retest_first {
            RankingStatus::Reversed
        } else {
            RankingStatus::Consistent
        }),
{
    if close {
        RankingStatus::Close
    } else if screening_first != retest_first {
        RankingStatus::Reversed
    } else {
        RankingStatus::Consistent
    }
}

/// Verdict of the winner against the OS default policy.
#[derive(Clone, Copy, Debug, PartialEq, Eq, Structural)]
pub enum BaselineVerdict {
    BeatsDefault,
    WithinThreshold,
    Worse,
    Inconclusive,
}

/// The golden-ratio increment of the splitmix64 generator.
pub const SPLITMIX_GAMMA: u64 = 0x9e3779b97f4a7c15;

/// The splitmix64 output function.
pub open spec fn splitmix(state: u64) -> u64 {
    let z1 = (state ^ (state >> 30u64)).wrapping_mul(0xbf58476d1ce4e5b9u64);
    let z2 = (z1 ^ (z1 >> 27u64)).wrapping_mul(0x94d049bb133111ebu64);
    z2 ^ (z2 >> 31u64)
}

/// `s` with positions `i` and `j` exchanged.
pub open spec fn swapped(s: Seq<u32>, i: int, j: int) -> Seq<u32> {
    s.update(i, s[j]).update(j, s[i])
}

/// The Fisher-Yates passes from position `i` down to 1: each advances the
/// generator by the gamma and exchanges `i` with `splitmix(state) % (i + 1)`.
pub open spec fn fisher_yates(s: Seq<u32>, state: u64, i: int) -> Seq<u32>
    decreases i,
{
    if i < 1 || i >= s.len() {
        s
    } else {
        let next = state.wrapping_add(SPLITMIX_GAMMA);
        let j = (splitmix(next) % ((i + 1) as u64)) as int;
        fisher_yates(swapped(s, i, j), next, i - 1)
    }
}

/// The seeded shuffle of `ids`.
pub open spec fn spec_shuffled(ids: Seq<u32>, seed: u32) -> Seq<u32> {
    fisher_yates(ids, seed as u64, ids.len() - 1)
}

/// A deterministic shuffle of `ids` under `seed` (Fisher-Yates driven by
/// splitmix64): the same ids and seed always give the same order.
pub fn shuffled(ids: &[u32], seed: u32) -> (r: Vec<u32>)
    ensures
        r@ == spec_shuffled(ids@, seed),
{
    let mut result: Vec<u32> = Vec::new();
    let mut k: usize = 0;
    while k < ids.len()
        invariant
            0 <= k <= ids@.len(),
            result@ == ids@.take(k as int),
        decreases ids@.len() - k,
    {
        result.push(ids[k]);
        k = k + 1;
        assert(result@ =~= ids@.take(k as int));
    }
    assert(ids@.take(ids@.len() as int) =~= ids@);
    let n = result.len();
    if n < 2 {
        return result;
    }
    let mut state: u64 = seed as u64;
    let mut i: usize = n - 1;
    while i >= 1
        invariant
            result@.len() == n,
            n == ids@.len(),
            n >= 2,
            0 <= i < n,
            fisher_yates(result@, state, i as int) == spec_shuffled(ids@, seed),
        decreases i,
    {
        state = state.wrapping_add(SPLITMIX_GAMMA);
        let mut z = state;
        z = (z ^ (z >> 30)).wrapping_mul(0xbf58476d1ce4e5b9);
        z = (z ^ (z >> 27)).wrapping_mul(0x94d049bb133111eb);
        z = z ^ (z >> 31);
        let bound: u64 = i as u64 + 1;
        let j = (z % bound) as usize;
        let a = result[i];
        let b = result[j];
        let ghost before = result@;
        result.set(i, b);
        result.set(j, a);
        assert(result@ == swapped(before, i as int, j as int));
        i = i - 1;
    }
    result
}

/// Law: a shuffle is a permutation: every id occurs as often as before.
pub proof fn law_shuffled_is_permutation(ids: Seq<u32>, seed: u32)
    requires
        ids.len() <= u64::MAX,
    ensures
        spec_shuffled(ids, seed).to_multiset() == ids.to_multiset(),
{
    lemma_fisher_yates_permutes(ids, seed as u64, ids.len() - 1);
}

proof fn lemma_fisher_yates_permutes(s: Seq<u32>, state: u64, i: int)
    requires
        s.len() <= u64::MAX,
    ensures
        fisher_yates(s, state, i).to_multiset() == s.to_multiset(),
        fisher_yates(s, state, i).len() == s.len(),
    decreases i,
{
    if i >= 1 && i < s.len() {
        let next = state.wrapping_add(SPLITMIX_GAMMA);
        let j = (splitmix(next) % ((i + 1) as u64)) as int;
        assert((i + 1) as u64 == i + 1);
        lemma_swap_permutes(s, i, j);
        lemma_fisher_yates_permutes(swapped(s, i, j), next, i - 1);
    }
}

proof fn lemma_swap_permutes(s: Seq<u32>, i: int, j: int)
    requires
        0 <= i < s.len(),
        0 <= j < s.len(),
    ensures
        swapped(s, i, j).to_multiset() == s.to_multiset(),
        swapped(s, i, j).len() == s.len(),
{
    broadcast use vstd::seq_lib::to_multiset_update, vstd::multiset::group_multiset_properties,
        vstd::multiset::group_multiset_axioms;
    broadcast use vstd::seq_lib::to_multiset_contains;
    let s1 = s.update(i, s[j]);
    let m0 = s.to_multiset();
    let m1 = s1.to_multiset();
    let m2 = swapped(s, i, j).to_multiset();
    assert(s.contains(s[i]));
    assert(m0.count(s[i]) > 0);
    assert(m1 == m0.insert(s[j]).remove(s[i]));
    assert(s1[j] == s[j]);
    assert(m2 == m1.insert(s[i]).remove(s[j]));
    assert forall|v: u32| m2.count(v) == m0.count(v) by {
        if v == s[i] && v == s[j] {
        } else if v == s[i] {
        } else if v == s[j] {
            assert(m1.count(s[j]) > 0);
        }
    }
    assert(m2 =~= m0);
}

/// Law: one calibration tier takes 20 s (5 s warm-up, 10 s capture, 5 s
/// workload start-up), so an adaptive plan spends between 40 s (two tiers)
/// and 100 s (all five) calibrating.
pub proof fn law_calibration_tier_is_twenty_seconds()
    ensures
        calibration_secs() == 20,
        calibration_secs() * 2 == 40,
        calibration_secs() * CALIBRATION_TIER_COUNT == 100,
{
}

/// Law: each finished capture lowers the remaining-time estimate by exactly
/// its own cost (14 s of overhead plus its warm-up and sample time): a
/// screening while screenings are left, then a retest for each of the
/// `min(count, 2)` retests; during the retests the estimate is the retests
/// left times one retest's cost, plus the final 4 s.
pub proof fn law_remaining_secs_per_capture(plan: QuickSchedule, count: int, done: int)
    requires
        0 <= count < 0x1_0000_0000,
        0 <= done,
    ensures
        done < count ==> spec_remaining_secs(plan, count, done) - spec_remaining_secs(plan, count, done + 1)
            == 14 + plan.screening_warmup_secs + plan.screening_sample_secs,
        count <= done < count + vstd::math::min(count, 2) ==> spec_remaining_secs(plan, count, done)
            - spec_remaining_secs(plan, count, done + 1) == 14 + plan.retest_warmup_secs + plan.retest_sample_secs,
        count <= done <= count + vstd::math::min(count, 2) ==> spec_remaining_secs(plan, count, done)
            == (vstd::math::min(count, 2) - (done - count)) * (14 + plan.retest_warmup_secs + plan.retest_sample_secs) + 4,
{
    let c = count as u32 as int;
    assert(c == count);
    assert(capture_overhead() == 14);
    let a = 14 + plan.screening_warmup_secs + plan.screening_sample_secs;
    let b = 14 + plan.retest_warmup_secs + plan.retest_sample_secs;
    let rt = vstd::math::min(count, 2);
    if done < count {
        let s1 = count - done;
        let r1 = rt;
        assert(s1 * a - (s1 - 1) * a == a) by (nonlinear_arith);
    }
    if count <= done && done < count + rt {
        let r1 = rt - (done - count);
        assert(r1 * b - (r1 - 1) * b == b) by (nonlinear_arith);
        assert(0int * a == 0);
    }
    if count <= done && done <= count + rt {
        assert(0int * a == 0);
    }
}

/// Law: the shuffle of two ids reaches both of their orders (the partner of
/// each exchange ranges over every position up to and including its own):
/// some seed keeps them in place, some seed exchanges them, and no seed
/// gives anything else.
pub proof fn law_shuffled_two_ids_reach_both_orders(a: u32, b: u32)
    ensures
        exists|seed: u32| spec_shuffled(seq![a, b], seed) == seq![a, b],
        exists|seed: u32| spec_shuffled(seq![a, b], seed) == seq![b, a],
        forall|seed: u32| spec_shuffled(seq![a, b], seed) == seq![a, b] || spec_shuffled(seq![a, b], seed) == seq![b, a],
{
    let s = seq![a, b];
    assert forall|seed: u32| spec_shuffled(s, seed) == s || spec_shuffled(s, seed) == seq![b, a] by {
        lemma_fisher_yates_two(s, seed as u64);
    }
    lemma_fisher_yates_two(s, 0u64);
    assert(0u64.wrapping_add(SPLITMIX_GAMMA) == 0x9e3779b97f4a7c15u64);
    lemma_splitmix_keeps_two();
    assert(spec_shuffled(s, 0u32) == s);
    lemma_fisher_yates_two(s, 2u64);
    assert(2u64.wrapping_add(SPLITMIX_GAMMA) == 0x9e3779b97f4a7c17u64);
    lemma_splitmix_swaps_two();
    assert(spec_shuffled(s, 2u32) == seq![b, a]);
}

/// The shuffle of two ids is one exchange of the second with the position the
/// first draw picks modulo 2.
proof fn lemma_fisher_yates_two(s: Seq<u32>, state: u64)
    requires
        s.len() == 2,
    ensures
        ({
            let m = splitmix(state.wrapping_add(SPLITMIX_GAMMA)) % 2;
            &&& m == 0 ==> fisher_yates(s, state, 1) == seq![s[1], s[0]]
            &&& m == 1 ==> fisher_yates(s, state, 1) == s
            &&& m < 2
        }),
{
    let next = state.wrapping_add(SPLITMIX_GAMMA);
    let m = splitmix(next) % 2;
    assert((1 + 1) as u64 == 2u64);
    let j = (splitmix(next) % ((1 + 1) as u64)) as int;
    assert(fisher_yates(s, state, 1) == fisher_yates(swapped(s, 1, j), next, 0));
    assert(fisher_yates(swapped(s, 1, j), next, 0) == swapped(s, 1, j));
    if m == 0 {
        assert(swapped(s, 1, 0) =~= seq![s[1], s[0]]);
    } else if m == 1 {
        assert(swapped(s, 1, 1) =~= s);
    }
}

/// The generator's first draw under seed 0, taken modulo 2, is odd.
proof fn lemma_splitmix_keeps_two()
    ensures
        splitmix(0x9e3779b97f4a7c15u64) % 2 == 1,
{
    let x = 0x9e3779b97f4a7c15u64;
    let t1 = 0x9e3779bb07979af0u64;
    let z1 = 0x6f68261b57e7a770u64;
    let t2 = 0x6f682616bae3641au64;
    let z2 = 0xe220a838bf5c9ddeu64;
    let out = 0xe220a8397b1dcdafu64;
    assert(0x9e3779b97f4a7c15u64 ^ (0x9e3779b97f4a7c15u64 >> 30u64) == 0x9e3779bb07979af0u64) by (bit_vector);
    assert(t1.wrapping_mul(0xbf58476d1ce4e5b9u64) == z1);
    assert(0x6f68261b57e7a770u64 ^ (0x6f68261b57e7a770u64 >> 27u64) == 0x6f682616bae3641au64) by (bit_vector);
    assert(t2.wrapping_mul(0x94d049bb133111ebu64) == z2);
    assert(0xe220a838bf5c9ddeu64 ^ (0xe220a838bf5c9ddeu64 >> 31u64) == 0xe220a8397b1dcdafu64) by (bit_vector);
    assert(splitmix(x) == out);
}

/// The generator's first draw under seed 2, taken modulo 2, is even.
proof fn lemma_splitmix_swaps_two()
    ensures
        splitmix(0x9e3779b97f4a7c17u64) % 2 == 0,
{
    let x = 0x9e3779b97f4a7c17u64;
    let t1 = 0x9e3779bb07979af2u64;
    let z1 = 0xee18b4f591b172e2u64;
    let t2 = 0xee18b4e852a7ec50u64;
    let z2 = 0x975835df32273d70u64;
    let out = 0x975835de1c9756ceu64;
    assert(0x9e3779b97f4a7c17u64 ^ (0x9e3779b97f4a7c17u64 >> 30u64) == 0x9e3779bb07979af2u64) by (bit_vector);
    assert(t1.wrapping_mul(0xbf58476d1ce4e5b9u64) == z1);
    assert(0xee18b4f591b172e2u64 ^ (0xee18b4f591b172e2u64 >> 27u64) == 0xee18b4e852a7ec50u64) by (bit_vector);
    assert(t2.wrapping_mul(0x94d049bb133111ebu64) == z2);
    assert(0x975835df32273d70u64 ^ (0x975835df32273d70u64 >> 31u64) == 0x975835de1c9756ceu64) by (bit_vector);
    assert(splitmix(x) == out);
}

/// Law: the shape of the ranked lists gives a verdict only when it decides
/// the test: `Insufficient` exactly when there is no candidate, the
/// screening misses a row, the retest does not hold `min(count, 2)` rows, or
/// a retested core is not one of the screening's first two;
/// `SingleCandidate` exactly for one candidate whose one retest repeats the
/// screening; and for two or more candidates with complete lists no verdict
/// (the score gap decides).
pub proof fn law_assess_shape_verdicts(screening: Seq<u32>, retest: Seq<u32>, count: int)
    ensures
        spec_assess_shape(screening, retest, count) == Some(RankingStatus::Insufficient) <==> (count < 1
            || screening.len() != count || retest.len() != vstd::math::min(count, 2)
            || exists|i: int| 0 <= i < retest.len() && !(#[trigger] retest[i] == screening[0]
                || (screening.len() > 1 && retest[i] == screening[1]))),
        spec_assess_shape(screening, retest, count) == Some(RankingStatus::SingleCandidate) <==> (count == 1
            && screening.len() == 1 && retest.len() == 1 && retest[0] == screening[0]),
        count >= 2 && screening.len() == count && retest.len() == 2
            && (retest[0] == screening[0] || retest[0] == screening[1])
            && (retest[1] == screening[0] || retest[1] == screening[1])
            ==> spec_assess_shape(screening, retest, count) is None,
        spec_assess_shape(screening, retest, count) != Some(RankingStatus::Consistent)
            && spec_assess_shape(screening, retest, count) != Some(RankingStatus::Close)
            && spec_assess_shape(screening, retest, count) != Some(RankingStatus::Reversed),
{
    if count >= 1 && screening.len() == count {
        assert(screening.len() > 0);
        if !retest_within_top_two(screening, retest) {
            let i = choose|i: int| 0 <= i < retest.len() && !in_top_two(screening, #[trigger] retest[i]);
            assert(!(retest[i] == screening[0] || (screening.len() > 1 && retest[i] == screening[1])));
        }
        if exists|i: int| 0 <= i < retest.len() && !(#[trigger] retest[i] == screening[0]
            || (screening.len() > 1 && retest[i] == screening[1])) {
            let i = choose|i: int| 0 <= i < retest.len() && !(#[trigger] retest[i] == screening[0]
                || (screening.len() > 1 && retest[i] == screening[1]));
            assert(!in_top_two(screening, retest[i]));
        }
        if count == 1 && retest.len() == 1 && retest[0] == screening[0] {
            assert(in_top_two(screening, retest[0]));
        }
    }
}

/// Law: the base estimate of a plan is 4 s with no candidate, and each further
/// candidate adds its screening capture (14 s of overhead plus warm-up and
/// sample time) and, for the first two candidates, one retest capture.
pub proof fn law_schedule_base_per_candidate(c: BenchmarkConfig, n: int)
    requires
        n >= 0,
    ensures
        schedule_base(c, 0) == 4,
        schedule_base(c, n + 1) - schedule_base(c, n) == 14 + c.warm_up_secs + c.sample_secs
            + if n < 2 { 14 + c.retest_warm_up_secs + c.retest_sample_secs } else { 0 },
{
    assert(capture_overhead() == 14);
    let a = 14 + c.warm_up_secs + c.sample_secs;
    let b = 14 + c.retest_warm_up_secs + c.retest_sample_secs;
    assert((n + 1) * a - n * a == a) by (nonlinear_arith);
    assert(vstd::math::min(0int, 2) == 0);
    assert(0int * (capture_overhead() + c.warm_up_secs + c.sample_secs) == 0);
    assert(0int * (capture_overhead() + c.retest_warm_up_secs + c.retest_sample_secs) == 0);
    if n < 2 {
        assert(vstd::math::min(n + 1, 2) == n + 1);
        assert((n + 1) * b - n * b == b) by (nonlinear_arith);
    }
}

} // verus!
