//! Benchmark run planning: configuration checks, the LP candidate list, the
//! per-round order, process command lines and progress decoding.
use vstd::prelude::*;
use crate::assets::AssetError;
use crate::codes::{ErrorCode, code_text};
use crate::session_state::assets_code;
use crate::model::{BenchmarkConfig, BenchmarkPhase, BenchmarkStage, WorkloadKind, string_views};
use crate::physical::{spec_select, select, METHOD_VERSION};
use crate::sorting::{strictly_increasing, nondecreasing, insert_sorted_unique, sorted_copy};
use crate::text::{eq_ignore_ascii_case, eq_ignore_ascii_case_spec, same_text};
use crate::topology::{LogicalProcessor, Topology};

verus! {

/// PresentMon wait margin past the sample time (s).
pub const CAPTURE_WAIT_MARGIN_S: u64 = 15;
/// PresentMon circular buffer for fixed-cap runs.
pub const PRESENTMON_CIRCULAR_BUFFER_SIZE: u32 = 8192;
/// Screening rounds.
pub const SCREENING_ROUNDS: u32 = 1;
/// Refinement rounds.
pub const REFINEMENT_ROUNDS: u32 = 2;
/// First round number of forward confirmation.
pub const CONFIRMATION_ROUND_BASE: u32 = 100;
/// First round number of reverse confirmation.
pub const REVERSE_ROUND_BASE: u32 = 200;
/// First round number of equivalent-safety validation.
pub const EQUIVALENT_VALIDATION_ROUND_BASE: u32 = 400;
/// Pair-round budget of forward plus reverse confirmation.
pub const TOTAL_PAIR_BUDGET: u32 = 10;
/// Most reverse-confirmation rounds.
pub const REVERSE_MAX_ROUNDS: u32 = 5;
/// Fewest rounds before an equivalence verdict.
pub const EQUIVALENT_MIN_ROUNDS: u32 = 5;

/// Highest LP index (exclusive) a GPU policy can name: `min(total_lp, 64)`.
pub open spec fn max_lp(topo: Topology) -> u32 {
    if topo.total_lp < 64 { topo.total_lp } else { 64 }
}

/// A primary LP (not an SMT sibling) of a core other than core 0, below the
/// limit, on a P-core when `p_only`. The core is looked up by id as a position.
pub open spec fn is_primary(topo: Topology, lp: LogicalProcessor, p_only: bool) -> bool {
    &&& lp.index < max_lp(topo)
    &&& lp.core_id != 0
    &&& !lp.is_smt_sibling
    &&& lp.core_id < topo.physical_cores@.len()
    &&& (topo.physical_cores@[lp.core_id as int].is_p_core || !p_only)
}

/// Whether some LP is primary under the given P-core restriction.
pub open spec fn has_primary(topo: Topology, p_only: bool) -> bool {
    exists|l: int| 0 <= l < topo.logical_processors@.len() && is_primary(topo, #[trigger] topo.logical_processors@[l], p_only)
}

/// Whether `x` is a default candidate: a P-core primary, or any primary when
/// no P-core primary exists.
pub open spec fn default_candidate(topo: Topology, x: u32) -> bool {
    let p_only = has_primary(topo, true);
    exists|l: int|
        0 <= l < topo.logical_processors@.len() && is_primary(topo, #[trigger] topo.logical_processors@[l], p_only)
            && topo.logical_processors@[l].index == x
}

/// Whether `x` is an LP of physical core 0.
pub open spec fn on_core_zero(topo: Topology, x: u32) -> bool {
    exists|l: int|
        0 <= l < topo.logical_processors@.len() && #[trigger] topo.logical_processors@[l].core_id == 0
            && topo.logical_processors@[l].index == x
}

/// Whether `x` is an effective LP: from the explicit list (or the defaults
/// when it is empty), below the limit and not on core 0.
pub open spec fn effective_member(c: BenchmarkConfig, topo: Topology, x: u32) -> bool {
    &&& if c.candidate_lps@.len() == 0 { default_candidate(topo, x) } else { c.candidate_lps@.contains(x) }
    &&& x < max_lp(topo)
    &&& !on_core_zero(topo, x)
}

/// Whether some LP is effective.
pub open spec fn has_effective(c: BenchmarkConfig, topo: Topology) -> bool {
    exists|x: u32| effective_member(c, topo, x)
}

/// The primary LP indices of the topology.
fn primaries(topo: &Topology, p_only: bool) -> (r: Vec<u32>)
    ensures
        forall|x: u32| r@.contains(x) <==> exists|l: int|
            0 <= l < topo.logical_processors@.len() && is_primary(*topo, #[trigger] topo.logical_processors@[l], p_only)
                && topo.logical_processors@[l].index == x,
{
    let limit: u32 = if topo.total_lp < 64 { topo.total_lp } else { 64 };
    let mut out: Vec<u32> = Vec::new();
    let mut i: usize = 0;
    while i < topo.logical_processors.len()
        invariant
            limit == max_lp(*topo),
            0 <= i <= topo.logical_processors@.len(),
            forall|x: u32| out@.contains(x) <==> exists|l: int|
                0 <= l < i && is_primary(*topo, #[trigger] topo.logical_processors@[l], p_only)
                    && topo.logical_processors@[l].index == x,
        decreases topo.logical_processors@.len() - i,
    {
        let lp = &topo.logical_processors[i];
        let ghost before = out@;
        if lp.index < limit && lp.core_id != 0 && !lp.is_smt_sibling
            && (lp.core_id as usize) < topo.physical_cores.len()
            && (topo.physical_cores[lp.core_id as usize].is_p_core || !p_only) {
            out.push(lp.index);
        }
        proof {
            assert forall|x: u32| out@.contains(x) <==> exists|l: int|
                0 <= l < i + 1 && is_primary(*topo, #[trigger] topo.logical_processors@[l], p_only)
                    && topo.logical_processors@[l].index == x by {
                if out@.contains(x) && !before.contains(x) {
                    assert(out@.last() == x);
                    assert(topo.logical_processors@[i as int] == *lp);
                }
                if out@.len() > before.len() {
                    assert(out@ == before.push(lp.index));
                    if before.contains(x) {
                        let k = choose|k: int| 0 <= k < before.len() && before[k] == x;
                        assert(out@[k] == x);
                    }
                } else {
                    assert(out@ == before);
                }
                if exists|l: int|
                    0 <= l < i + 1 && is_primary(*topo, #[trigger] topo.logical_processors@[l], p_only)
                        && topo.logical_processors@[l].index == x {
                    let l = choose|l: int|
                        0 <= l < i + 1 && is_primary(*topo, #[trigger] topo.logical_processors@[l], p_only)
                            && topo.logical_processors@[l].index == x;
                    if l == i {
                        assert(out@.last() == x);
                        assert(out@.contains(x));
                    }
                }
            }
        }
        i = i + 1;
    }
    out
}

/// Whether `x` is an LP of core 0.
fn is_core_zero_lp(topo: &Topology, x: u32) -> (r: bool)
    ensures
        r == on_core_zero(*topo, x),
{
    let mut i: usize = 0;
    while i < topo.logical_processors.len()
        invariant
            0 <= i <= topo.logical_processors@.len(),
            forall|l: int| 0 <= l < i ==> !(#[trigger] topo.logical_processors@[l].core_id == 0
                && topo.logical_processors@[l].index == x),
        decreases topo.logical_processors@.len() - i,
    {
        if topo.logical_processors[i].core_id == 0 && topo.logical_processors[i].index == x {
            return true;
        }
        i = i + 1;
    }
    false
}

/// Effective LPs, ascending without repeats: the explicit list, or by default
/// the primary LPs of P-cores (all primaries when there is no P-core primary),
/// keeping those below `min(total_lp, 64)` and not on physical core 0.
pub fn effective_lps(config: &BenchmarkConfig, topo: &Topology) -> (r: Vec<u32>)
    ensures
        strictly_increasing(r@),
        forall|x: u32| r@.contains(x) <==> effective_member(*config, *topo, x),
{
    let limit: u32 = if topo.total_lp < 64 { topo.total_lp } else { 64 };
    let source: Vec<u32> = if config.candidate_lps.len() == 0 {
        let p = primaries(topo, true);
        if p.len() == 0 {
            proof {
                assert(!has_primary(*topo, true)) by {
                    if has_primary(*topo, true) {
                        let l = choose|l: int| 0 <= l < topo.logical_processors@.len() && is_primary(*topo, #[trigger] topo.logical_processors@[l], true);
                        assert(p@.contains(topo.logical_processors@[l].index));
                    }
                }
            }
            primaries(topo, false)
        } else {
            proof {
                assert(p@.contains(p@[0]));
            }
            p
        }
    } else {
        config.candidate_lps.clone()
    };
    assert(forall|x: u32| source@.contains(x) <==> (if config.candidate_lps@.len() == 0 {
        default_candidate(*topo, x)
    } else {
        config.candidate_lps@.contains(x)
    }));
    let mut out: Vec<u32> = Vec::new();
    let mut i: usize = 0;
    while i < source.len()
        invariant
            limit == max_lp(*topo),
            0 <= i <= source@.len(),
            strictly_increasing(out@),
            forall|y: u32| #[trigger] out@.contains(y) <==> (source@.take(i as int).contains(y)
                && y < limit && !on_core_zero(*topo, y)),
        decreases source@.len() - i,
    {
        let x = source[i];
        let ghost before = out@;
        let keep = x < limit && !is_core_zero_lp(topo, x);
        if keep {
            insert_sorted_unique(&mut out, x);
            proof {
                assert forall|y: u32| out@.contains(y) <==> before.contains(y) || y == x by {
                    assert(out@.to_set().contains(y) == before.to_set().insert(x).contains(y));
                }
            }
        }
        proof {
            assert(keep == (x < limit && !on_core_zero(*topo, x)));
            assert(x == source@[i as int]);
            assert(forall|y: u32| out@.contains(y) <==> before.contains(y) || (keep && y == x));
            assert forall|y: u32| #[trigger] out@.contains(y) <==> (source@.take(i + 1).contains(y)
                && y < limit && !on_core_zero(*topo, y)) by {
                lemma_take_push_contains(source@, i as int, y);
                assert(before.contains(y) <==> (source@.take(i as int).contains(y) && y < limit
                    && !on_core_zero(*topo, y)));
            }
        }
        i = i + 1;
    }
    proof {
        assert(source@.take(source@.len() as int) =~= source@);
    }
    out
}

/// Growing a prefix by one element adds exactly that element.
proof fn lemma_take_push_contains(s: Seq<u32>, i: int, y: u32)
    requires
        0 <= i < s.len(),
    ensures
        s.take(i + 1).contains(y) <==> s.take(i).contains(y) || y == s[i],
{
    if s.take(i).contains(y) {
        let k = choose|k: int| 0 <= k < i && #[trigger] s.take(i)[k] == y;
        assert(s.take(i + 1)[k] == y);
    }
    if y == s[i] {
        assert(s.take(i + 1)[i] == y);
    }
    if s.take(i + 1).contains(y) {
        let k = choose|k: int| 0 <= k < i + 1 && #[trigger] s.take(i + 1)[k] == y;
        if k < i {
            assert(s.take(i)[k] == y);
        }
    }
}

/// Whether a configuration is acceptable: a GPU is named; caps and times are in
/// range (cap at most 10000, sample 1..=120 s, warm-up at most 60 s, for both
/// screening and retest); windowed; the candidate cores (method 3) or LPs
/// (legacy) are non-empty and valid; Vulkan has arguments; the size is non-zero.
pub open spec fn config_valid(c: BenchmarkConfig, topo: Topology) -> bool {
    &&& c.gpu_instance_id is Some
    &&& c.fps_cap <= 10000
    &&& 0 < c.sample_secs <= 120
    &&& c.warm_up_secs <= 60
    &&& 0 < c.retest_sample_secs <= 120
    &&& c.retest_warm_up_secs <= 60
    &&& !c.fullscreen
    &&& if c.method_version == METHOD_VERSION {
        spec_select(topo, c.candidate_core_ids@) is Ok
    } else {
        has_effective(c, topo)
    }
    &&& !(c.workload == WorkloadKind::Vulkan && c.vulkan_args@.len() == 0)
    &&& c.width != 0
    &&& c.height != 0
}

/// Checks a configuration before a run; every refusal is an invalid-config error.
pub fn validate_config(config: &BenchmarkConfig, topo: &Topology) -> (r: Result<(), ErrorCode>)
    ensures
        r is Ok <==> config_valid(*config, *topo),
        r is Err ==> r == Err::<(), ErrorCode>(ErrorCode::BenchmarkInvalidConfig),
{
    if config.gpu_instance_id.is_none() {
        return Err(ErrorCode::BenchmarkInvalidConfig);
    }
    if config.fps_cap > 10000 || config.sample_secs == 0 || config.sample_secs > 120
        || config.warm_up_secs > 60 || config.retest_sample_secs == 0
        || config.retest_sample_secs > 120 || config.retest_warm_up_secs > 60 {
        return Err(ErrorCode::BenchmarkInvalidConfig);
    }
    if config.fullscreen {
        return Err(ErrorCode::BenchmarkInvalidConfig);
    }
    if config.method_version == METHOD_VERSION {
        let sel = select(topo, config.candidate_core_ids.as_slice());
        if sel.is_err() {
            return Err(ErrorCode::BenchmarkInvalidConfig);
        }
    } else {
        let lps = effective_lps(config, topo);
        if lps.len() == 0 {
            proof {
                assert(!has_effective(*config, *topo)) by {
                    if has_effective(*config, *topo) {
                        let x = choose|x: u32| effective_member(*config, *topo, x);
                        assert(lps@.contains(x));
                    }
                }
            }
            return Err(ErrorCode::BenchmarkInvalidConfig);
        }
        proof {
            assert(lps@.contains(lps@[0]));
        }
    }
    if config.workload == WorkloadKind::Vulkan && config.vulkan_args.len() == 0 {
        return Err(ErrorCode::BenchmarkInvalidConfig);
    }
    if config.width == 0 || config.height == 0 {
        return Err(ErrorCode::BenchmarkInvalidConfig);
    }
    Ok(())
}

/// A display adapter as the back end lists it.
#[derive(Clone, Debug)]
pub struct AdapterInfo {
    pub instance_id: String,
    pub friendly_name: String,
}

/// The first of the first `n` adapters whose instance id is `id` (ASCII case ignored).
pub open spec fn first_adapter(adapters: Seq<AdapterInfo>, id: Seq<char>, n: int) -> Option<int>
    decreases n,
{
    if n <= 0 {
        None
    } else {
        match first_adapter(adapters, id, n - 1) {
            Some(k) => Some(k),
            None => if eq_ignore_ascii_case_spec(adapters[n - 1].instance_id@, id) { Some(n - 1) } else { None },
        }
    }
}

proof fn lemma_first_adapter_stable(adapters: Seq<AdapterInfo>, id: Seq<char>, j: int, n: int)
    requires
        0 <= j < n,
        first_adapter(adapters, id, j) is None,
        eq_ignore_ascii_case_spec(adapters[j].instance_id@, id),
    ensures
        first_adapter(adapters, id, n) == Some(j),
    decreases n - j,
{
    if n > j + 1 {
        lemma_first_adapter_stable(adapters, id, j, n - 1);
    }
}

/// The checks before a run, in order: the bundled assets, a named adapter
/// that is present (its friendly name is taken from the first match), an
/// enabled basic display, and a valid configuration. On success, the adapter's
/// instance id and name.
pub open spec fn spec_pre_flight(
    assets: Result<(), Seq<char>>,
    config: BenchmarkConfig,
    topo: Topology,
    adapters: Result<Seq<AdapterInfo>, Seq<char>>,
    basic_display: Result<bool, Seq<char>>,
) -> Result<(Seq<char>, Seq<char>), Seq<char>> {
    if assets is Err {
        Err(assets->Err_0)
    } else if config.gpu_instance_id is None {
        Err(code_text(ErrorCode::BenchmarkInvalidConfig))
    } else if adapters is Err {
        Err(adapters->Err_0)
    } else {
        let id = config.gpu_instance_id->Some_0@;
        let list = adapters->Ok_0;
        match first_adapter(list, id, list.len() as int) {
            None => Err(code_text(ErrorCode::GpuNotFound)),
            Some(k) => if basic_display is Err {
                Err(basic_display->Err_0)
            } else if !(basic_display->Ok_0) {
                Err(code_text(ErrorCode::GpuBasicDisplayDisabled))
            } else if !config_valid(config, topo) {
                Err(code_text(ErrorCode::BenchmarkInvalidConfig))
            } else {
                Ok((id, list[k].friendly_name@))
            },
        }
    }
}

/// The view of a list of adapters, or of why it could not be had.
pub open spec fn res_adapter_infos(a: Result<Vec<AdapterInfo>, String>) -> Result<Seq<AdapterInfo>, Seq<char>> {
    match a {
        Ok(v) => Ok(v@),
        Err(e) => Err(e@),
    }
}

/// The checks before a run (see [`spec_pre_flight`]); the host reads the
/// baseline policy of the adapter after they pass.
pub fn pre_flight(
    assets: Result<(), AssetError>,
    config: &BenchmarkConfig,
    topo: &Topology,
    adapters: Result<Vec<AdapterInfo>, String>,
    basic_display: Result<bool, String>,
) -> (r: Result<(String, String), String>)
    ensures
        match spec_pre_flight(assets_code(assets), *config, *topo, res_adapter_infos(adapters),
            match basic_display { Ok(b) => Ok(b), Err(e) => Err(e@) }) {
            Ok((id, name)) => r matches Ok((x, y)) && x@ == id && y@ == name,
            Err(e) => r matches Err(x) && x@ == e,
        },
{
    match assets {
        Err(e) => return Err(e.code().as_str().to_owned()),
        Ok(()) => {},
    }
    let instance = match &config.gpu_instance_id {
        None => return Err(ErrorCode::BenchmarkInvalidConfig.as_str().to_owned()),
        Some(i) => i.clone(),
    };
    let list = match adapters {
        Err(e) => return Err(e),
        Ok(l) => l,
    };
    let mut i: usize = 0;
    while i < list.len() && !eq_ignore_ascii_case(list[i].instance_id.as_str(), instance.as_str())
        invariant
            0 <= i <= list@.len(),
            first_adapter(list@, instance@, i as int) is None,
        decreases list@.len() - i,
    {
        i = i + 1;
    }
    if i == list.len() {
        return Err(ErrorCode::GpuNotFound.as_str().to_owned());
    }
    proof {
        lemma_first_adapter_stable(list@, instance@, i as int, list@.len() as int);
    }
    let name = list[i].friendly_name.clone();
    match basic_display {
        Err(e) => return Err(e),
        Ok(false) => return Err(ErrorCode::GpuBasicDisplayDisabled.as_str().to_owned()),
        Ok(true) => {},
    }
    match validate_config(config, topo) {
        Err(e) => Err(e.as_str().to_owned()),
        Ok(()) => Ok((instance, name)),
    }
}

/// Whether a run of `config` goes ahead: only a configuration of the current
/// method runs (as a quick test); any other is an invalid configuration.
pub fn run_admission(config: &BenchmarkConfig) -> (r: Result<(), ErrorCode>)
    ensures
        r is Ok <==> config.method_version == METHOD_VERSION,
        r is Err ==> r == Err::<(), ErrorCode>(ErrorCode::BenchmarkInvalidConfig),
{
    if config.method_version != METHOD_VERSION {
        Err(ErrorCode::BenchmarkInvalidConfig)
    } else {
        Ok(())
    }
}

/// Position in the sorted list of the `i`-th LP of round `round` among `n`:
/// start at `round % n`, walking up on even rounds and down on odd ones.
pub open spec fn rotation_index(round: u32, n: int, i: int) -> int {
    let start = round as int % n;
    if round % 2 == 1 {
        (start + n - i) % n
    } else {
        (start + i) % n
    }
}

/// The order of LPs in a round: the ascending list rotated to start at
/// `round % n` and reversed on odd rounds.
pub fn round_order(round: u32, lps: &Vec<u32>) -> (r: Vec<u32>)
    ensures
        exists|v: Seq<u32>| nondecreasing(v) && v.to_multiset() == lps@.to_multiset() && r@ =~= Seq::new(
            v.len(),
            |i: int| v[rotation_index(round, v.len() as int, i)],
        ),
{
    let v = sorted_copy(lps);
    let n = v.len();
    proof {
        v@.to_multiset_ensures();
        lps@.to_multiset_ensures();
    }
    if n == 0 {
        assert(v@ =~= Seq::new(0, |i: int| v@[rotation_index(round, 0, i)]));
        return v;
    }
    let start = (round as usize) % n;
    let reverse = round % 2 == 1;
    let mut out: Vec<u32> = Vec::new();
    let mut i: usize = 0;
    while i < n
        invariant
            n == v@.len(),
            n > 0,
            start == round as int % n as int,
            reverse == (round % 2 == 1),
            0 <= i <= n,
            out@.len() == i,
            forall|k: int| 0 <= k < i ==> out@[k] == v@[rotation_index(round, n as int, k)],
        decreases n - i,
    {
        let idx = if reverse {
            if i <= start { start - i } else { n - (i - start) }
        } else {
            if i < n - start { start + i } else { i - (n - start) }
        };
        proof {
            let si = start as int;
            let ii = i as int;
            let ni = n as int;
            if reverse {
                assert(idx == (si + ni - ii) % ni) by (nonlinear_arith)
                    requires 0 <= si < ni, 0 <= ii < ni, idx == (if ii <= si { si - ii } else { ni - (ii - si) });
            } else {
                assert(idx == (si + ii) % ni) by (nonlinear_arith)
                    requires 0 <= si < ni, 0 <= ii < ni, idx == (if ii < ni - si { si + ii } else { ii - (ni - si) });
            }
        }
        out.push(v[idx]);
        i = i + 1;
    }
    assert(out@ =~= Seq::new(v@.len(), |i: int| v@[rotation_index(round, v@.len() as int, i)]));
    out
}

/// Law: within a round every position of the sorted list is visited exactly
/// once (no LP skipped, none repeated).
pub proof fn law_round_order_is_permutation(round: u32, n: int, j: int)
    requires
        0 <= j < n,
    ensures
        exists|i: int| 0 <= i < n && rotation_index(round, n, i) == j,
        forall|a: int, b: int|
            0 <= a < n && 0 <= b < n && rotation_index(round, n, a) == j && rotation_index(round, n, b) == j
                ==> a == b,
{
    let start = round as int % n;
    if round % 2 == 1 {
        let i = (start - j + n) % n;
        assert(rotation_index(round, n, i) == j) by {
            assert((start + n - ((start - j + n) % n)) % n == j) by (nonlinear_arith)
                requires 0 <= start < n, 0 <= j < n;
        }
        assert forall|a: int, b: int|
            0 <= a < n && 0 <= b < n && rotation_index(round, n, a) == j && rotation_index(round, n, b) == j
                implies a == b by {
            assert(((start + n - a) % n == (start + n - b) % n) ==> a == b) by (nonlinear_arith)
                requires 0 <= start < n, 0 <= a < n, 0 <= b < n;
        }
    } else {
        let i = (j - start + n) % n;
        assert(rotation_index(round, n, i) == j) by {
            assert((start + ((j - start + n) % n)) % n == j) by (nonlinear_arith)
                requires 0 <= start < n, 0 <= j < n;
        }
        assert forall|a: int, b: int|
            0 <= a < n && 0 <= b < n && rotation_index(round, n, a) == j && rotation_index(round, n, b) == j
                implies a == b by {
            assert(((start + a) % n == (start + b) % n) ==> a == b) by (nonlinear_arith)
                requires 0 <= start < n, 0 <= a < n, 0 <= b < n;
        }
    }
}

/// Bounded stdout/stderr tails of a child process (diagnostics).
#[derive(Clone, Debug, Default)]
pub struct ProcessOutput {
    pub stdout: String,
    pub stderr: String,
}

/// Child-process control: `spawn` gives the pid of a process the run owns and
/// later kills.
pub trait ProcessRunner {
    fn spawn(&self, exe: &str, args: &[String]) -> Result<u32, String>;

    fn is_alive(&self, pid: u32) -> bool;

    fn kill(&self, pid: u32) -> Result<(), String>;

    /// Waits at most `timeout_ms` for `pid` to exit: `true` exited, `false` timed out.
    fn wait_exit(&self, pid: u32, timeout_ms: u64) -> Result<bool, String>;

    /// Exit code of an exited process (`None`: running or unknown); a runner
    /// that does not track exit codes reports none.
    fn exit_code(&self, pid: u32) -> (r: Option<i32>)
        default_ensures
            r is None,
    {
        None
    }

    /// Bounded output tails of `pid` (`None`: not captured); a runner that
    /// does not capture output reports none.
    fn output_tail(&self, pid: u32, max_chars: usize) -> (r: Option<ProcessOutput>)
        default_ensures
            r is None,
    {
        None
    }
}

/// Cancellation, checked by the runner at safe stage boundaries.
pub trait CancelSignal {
    fn is_cancelled(&self) -> bool;
}

/// The attempt number a capture record has when it names none.
pub fn default_attempt() -> (r: u32)
    ensures
        r == 1,
{
    1
}

/// Whether the workload's window gets the close guard: only the bundled
/// Vulkan workload.
pub fn should_guard_close(config: &BenchmarkConfig) -> (r: bool)
    ensures
        r == (config.workload == WorkloadKind::Vulkan),
{
    config.workload == WorkloadKind::Vulkan
}

/// Seconds a legacy LP test takes: warm-up, sample and a fixed 19 s overhead.
pub open spec fn per_test_secs(c: BenchmarkConfig) -> int {
    c.sample_secs + c.warm_up_secs + 19
}

/// Remaining time of a legacy run: `None` without tests, else the tests not
/// done yet times the time per test.
pub fn eta_secs(config: &BenchmarkConfig, total_tests: u32, done: u32) -> (r: Option<u64>)
    requires
        total_tests * per_test_secs(*config) <= u64::MAX,
    ensures
        total_tests == 0 ==> r is None,
        total_tests != 0 ==> r is Some && r->Some_0 == (if done <= total_tests { total_tests - done } else { 0int })
            * per_test_secs(*config),
{
    if total_tests == 0 {
        return None;
    }
    let per_test: u64 = config.sample_secs as u64 + config.warm_up_secs as u64 + 19;
    let left: u64 = total_tests.saturating_sub(done) as u64;
    assert(left * per_test <= total_tests * per_test) by (nonlinear_arith)
        requires left <= total_tests, per_test >= 0;
    Some(left * per_test)
}

/// The phase and the 1-based round within it of a global round number:
/// screening `[0, 1)`, refinement `[1, 3)`, confirmation `[100, 200)`, reverse
/// confirmation `[200, 400)`, equivalent validation `400..`; anything else,
/// no round, or the calibration stage, has none.
pub open spec fn spec_progress_phase(calibrating: bool, round: Option<u32>) -> (Option<BenchmarkPhase>, Option<u32>) {
    if calibrating || round is None {
        (None, None)
    } else {
        let r = round->Some_0;
        if r < SCREENING_ROUNDS {
            (Some(BenchmarkPhase::Screening), Some((r + 1) as u32))
        } else if r < SCREENING_ROUNDS + REFINEMENT_ROUNDS {
            (Some(BenchmarkPhase::Refinement), Some((r - SCREENING_ROUNDS + 1) as u32))
        } else if CONFIRMATION_ROUND_BASE <= r < REVERSE_ROUND_BASE {
            (Some(BenchmarkPhase::Confirmation), Some((r - CONFIRMATION_ROUND_BASE + 1) as u32))
        } else if REVERSE_ROUND_BASE <= r < EQUIVALENT_VALIDATION_ROUND_BASE {
            (Some(BenchmarkPhase::ReverseConfirmation), Some((r - REVERSE_ROUND_BASE + 1) as u32))
        } else if r >= EQUIVALENT_VALIDATION_ROUND_BASE {
            (Some(BenchmarkPhase::EquivalentValidation), Some((r - EQUIVALENT_VALIDATION_ROUND_BASE + 1) as u32))
        } else {
            (None, None)
        }
    }
}

/// The phase of a progress event (see [`spec_progress_phase`]).
pub fn progress_phase(stage: &str, round: Option<u32>) -> (r: (Option<BenchmarkPhase>, Option<u32>))
    ensures
        r == spec_progress_phase(stage@ == "calibrating"@, round),
{
    if same_text(stage, "calibrating") {
        return (None, None);
    }
    let r = match round {
        None => return (None, None),
        Some(r) => r,
    };
    if r < SCREENING_ROUNDS {
        (Some(BenchmarkPhase::Screening), Some(r + 1))
    } else if r < SCREENING_ROUNDS + REFINEMENT_ROUNDS {
        (Some(BenchmarkPhase::Refinement), Some(r - SCREENING_ROUNDS + 1))
    } else if CONFIRMATION_ROUND_BASE <= r && r < REVERSE_ROUND_BASE {
        (Some(BenchmarkPhase::Confirmation), Some(r - CONFIRMATION_ROUND_BASE + 1))
    } else if REVERSE_ROUND_BASE <= r && r < EQUIVALENT_VALIDATION_ROUND_BASE {
        (Some(BenchmarkPhase::ReverseConfirmation), Some(r - REVERSE_ROUND_BASE + 1))
    } else if r >= EQUIVALENT_VALIDATION_ROUND_BASE {
        (Some(BenchmarkPhase::EquivalentValidation), Some(r - EQUIVALENT_VALIDATION_ROUND_BASE + 1))
    } else {
        (None, None)
    }
}

/// The run-time stage of a runner stage name: `collecting`, `finalizing`;
/// `applying`, `launching` and `restarting` are warm-up; anything else init.
pub fn runner_stage_to_enum(stage: &str) -> (s: BenchmarkStage)
    ensures
        s == (if stage@ == "collecting"@ {
            BenchmarkStage::Collecting
        } else if stage@ == "finalizing"@ {
            BenchmarkStage::Finalizing
        } else if stage@ == "applying"@ || stage@ == "launching"@ || stage@ == "restarting"@ {
            BenchmarkStage::Warmup
        } else {
            BenchmarkStage::Init
        }),
{
    if same_text(stage, "collecting") {
        BenchmarkStage::Collecting
    } else if same_text(stage, "finalizing") {
        BenchmarkStage::Finalizing
    } else if same_text(stage, "applying") || same_text(stage, "launching") || same_text(stage, "restarting") {
        BenchmarkStage::Warmup
    } else {
        BenchmarkStage::Init
    }
}

/// Whether a confirmation has enough rounds for an equivalence verdict.
pub fn equivalent_eligible(rounds: u32) -> (r: bool)
    ensures
        r == (rounds >= EQUIVALENT_MIN_ROUNDS),
{
    rounds >= EQUIVALENT_MIN_ROUNDS
}

/// Rounds left for reverse confirmation: at most five, and at most what the
/// pair budget of ten leaves after the forward rounds.
pub fn reverse_max_rounds(forward_rounds: u32) -> (r: u32)
    ensures
        r == (if forward_rounds >= TOTAL_PAIR_BUDGET {
            0
        } else if TOTAL_PAIR_BUDGET - forward_rounds < REVERSE_MAX_ROUNDS {
            TOTAL_PAIR_BUDGET - forward_rounds
        } else {
            REVERSE_MAX_ROUNDS as int
        }),
{
    let left = TOTAL_PAIR_BUDGET.saturating_sub(forward_rounds);
    if left < REVERSE_MAX_ROUNDS {
        left
    } else {
        REVERSE_MAX_ROUNDS
    }
}

/// Law: forward and reverse confirmation together never exceed the pair
/// budget, and reverse confirmation never exceeds its own limit.
pub proof fn law_pair_budget(forward_rounds: u32, reverse: u32)
    requires
        reverse == (if forward_rounds >= TOTAL_PAIR_BUDGET {
            0
        } else if TOTAL_PAIR_BUDGET - forward_rounds < REVERSE_MAX_ROUNDS {
            TOTAL_PAIR_BUDGET - forward_rounds
        } else {
            REVERSE_MAX_ROUNDS as int
        }),
    ensures
        reverse <= REVERSE_MAX_ROUNDS,
        forward_rounds <= TOTAL_PAIR_BUDGET ==> forward_rounds + reverse <= TOTAL_PAIR_BUDGET,
{
}

/// The signal of a forward (or reverse) confirmation step.
#[derive(Clone, Copy, Debug, PartialEq, Eq, Structural)]
pub enum ForwardVerdict {
    /// Not decisive yet: run the next round.
    Continue,
    /// The candidate won decisively.
    CandidatePassed,
    /// The runner-up won decisively by the mirrored criteria.
    RunnerUpReversal,
    /// The two are equivalent.
    Equivalent,
}

/// The summary spelling of a verdict.
pub open spec fn verdict_text(v: Option<ForwardVerdict>) -> Seq<char> {
    match v {
        Some(ForwardVerdict::CandidatePassed) => "passed"@,
        Some(ForwardVerdict::RunnerUpReversal) => "reversal"@,
        Some(ForwardVerdict::Equivalent) => "equivalent"@,
        _ => "inconclusive"@,
    }
}

/// The summary spelling of a verdict (see [`verdict_text`]).
pub fn forward_verdict_str(v: Option<ForwardVerdict>) -> (s: String)
    ensures
        s@ == verdict_text(v),
{
    match v {
        Some(ForwardVerdict::CandidatePassed) => "passed".to_owned(),
        Some(ForwardVerdict::RunnerUpReversal) => "reversal".to_owned(),
        Some(ForwardVerdict::Equivalent) => "equivalent".to_owned(),
        _ => "inconclusive".to_owned(),
    }
}

} // verus!
