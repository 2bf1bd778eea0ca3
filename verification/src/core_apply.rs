//! Applying a whole physical core as the interrupt target: which core a stored
//! quick test allows, and the preconditions of the change.
//!
//! The scores that rank a quick test's captures are floating point and are
//! computed by the host; what is decided here takes the ranked retest list and
//! the ranking verdict recomputed from the stored captures.
use vstd::prelude::*;
use crate::apply::{ApplyAction, ApplyTxn, apply_mask_to_gpu, apply_start};
use crate::bits::{le_trimmed, lp_mask};
use crate::codes::{ErrorCode, code_text};
use crate::digest::{hex, sha256};
use crate::fingerprint::{canonical_text, cpu_fingerprint_with};
use crate::gate::{adapter_present, listed, res_adapters, res_bool};
use crate::model::{CpuIdentity, SessionStatus};
use crate::physical::{
    CoreTarget, RankingStatus, METHOD_VERSION, lemma_first_with_id_bounds, mask, same_target, select, select_ids,
    spec_candidates,
    spec_select, target_view, targets_view,
};
use crate::text::{eq_ignore_ascii_case, eq_ignore_ascii_case_spec, same_text};
use crate::topology::Topology;
use vstd::utf8::encode_utf8;

verus! {

/// The quick-test part of a stored session.
#[derive(Clone, Debug)]
pub struct QuickFacts {
    pub method_version: u32,
    pub status: RankingStatus,
    /// The candidate cores the test ran on.
    pub candidates: Vec<CoreTarget>,
}

/// What applying a core reads from a stored (authenticated) session.
#[derive(Clone, Debug)]
pub struct QuickSessionFacts {
    pub id: String,
    pub gpu_instance_id: String,
    pub status: SessionStatus,
    pub has_error: bool,
    /// The method version of the session's configuration.
    pub config_method_version: u32,
    /// The candidate cores the configuration asked for (empty: all).
    pub candidate_core_ids: Vec<u32>,
    pub integrity_passed: bool,
    pub environment_passed: bool,
    pub cpu_fingerprint: String,
    pub quick: Option<QuickFacts>,
}

/// The CPU fingerprint of this machine.
pub open spec fn machine_fingerprint(topo: Topology, cpu: CpuIdentity) -> Seq<char> {
    hex(sha256(encode_utf8(canonical_text(topo, cpu))))
}

/// Whether a session is a finished, sound quick test of this machine with a
/// usable ranking: completed without error, of the current method, with
/// intact captures and a stable environment, fingerprinted on this CPU.
pub open spec fn quick_session_sound(f: QuickSessionFacts, topo: Topology, cpu: CpuIdentity) -> bool {
    &&& f.quick is Some
    &&& f.status == SessionStatus::Completed
    &&& !f.has_error
    &&& f.config_method_version == METHOD_VERSION
    &&& f.quick->Some_0.method_version == METHOD_VERSION
    &&& f.integrity_passed
    &&& f.environment_passed
    &&& f.cpu_fingerprint@ == machine_fingerprint(topo, cpu)
    &&& f.quick->Some_0.status != RankingStatus::Insufficient
}

/// Whether no two entries name the same core.
pub open spec fn distinct_cores(ts: Seq<(u32, Seq<u32>)>) -> bool {
    forall|i: int, j: int| 0 <= i < j < ts.len() ==> #[trigger] ts[i].0 != #[trigger] ts[j].0
}

/// Whether some entry names core `id`.
pub open spec fn names_core(ts: Seq<(u32, Seq<u32>)>, id: u32) -> bool {
    exists|i: int| 0 <= i < ts.len() && #[trigger] ts[i].0 == id
}

/// The entry that names core `id` (meaningful when [`names_core`] holds).
pub open spec fn entry_of(ts: Seq<(u32, Seq<u32>)>, id: u32) -> (u32, Seq<u32>) {
    ts[choose|i: int| 0 <= i < ts.len() && #[trigger] ts[i].0 == id]
}

/// The target of core `core_id` that a stored quick test allows, given the
/// ranking verdict (`assessed`) and ranked retest list recomputed from its
/// captures: the session must be sound (see [`quick_session_sound`]), its
/// candidates must still be the cores selected now, the recomputed verdict
/// must equal the stored one, the retest list must hold `min(n, 2)` distinct
/// cores, and the core must be one of them and still a candidate. Every
/// refusal is `BENCHMARK_SESSION_INCOMPATIBLE` but a selection error, which is
/// passed on.
pub open spec fn spec_tested_target(
    f: QuickSessionFacts,
    topo: Topology,
    cpu: CpuIdentity,
    core_id: u32,
    assessed: RankingStatus,
    retest: Seq<(u32, Seq<u32>)>,
) -> Result<(u32, Seq<u32>), ErrorCode> {
    if !quick_session_sound(f, topo, cpu) {
        Err(ErrorCode::BenchmarkSessionIncompatible)
    } else {
        match spec_select(topo, f.candidate_core_ids@) {
            Err(e) => Err(e),
            Ok(current) => if current != targets_view(f.quick->Some_0.candidates@)
                || assessed != f.quick->Some_0.status
                || retest.len() != vstd::math::min(current.len() as int, 2)
                || !distinct_cores(retest)
                || !names_core(retest, core_id)
                || !spec_candidates(topo).contains(entry_of(retest, core_id)) {
                Err(ErrorCode::BenchmarkSessionIncompatible)
            } else {
                Ok(entry_of(retest, core_id))
            },
        }
    }
}

/// Whether two target lists are equal, target by target.
fn same_targets(a: &Vec<CoreTarget>, b: &Vec<CoreTarget>) -> (r: bool)
    ensures
        r == (targets_view(a@) == targets_view(b@)),
{
    if a.len() != b.len() {
        assert(targets_view(a@).len() != targets_view(b@).len());
        return false;
    }
    let mut i: usize = 0;
    while i < a.len()
        invariant
            a@.len() == b@.len(),
            0 <= i <= a@.len(),
            forall|k: int| 0 <= k < i ==> target_view(#[trigger] a@[k]) == target_view(b@[k]),
        decreases a@.len() - i,
    {
        if !same_target(&a[i], &b[i]) {
            assert(targets_view(a@)[i as int] != targets_view(b@)[i as int]);
            return false;
        }
        i = i + 1;
    }
    assert(targets_view(a@) =~= targets_view(b@)) by {
        assert forall|k: int| 0 <= k < a@.len() implies #[trigger] targets_view(a@)[k] == targets_view(b@)[k] by {
            assert(target_view(a@[k]) == target_view(b@[k]));
        }
    }
    true
}

/// Whether the targets name distinct cores.
fn distinct_core_ids(ts: &Vec<CoreTarget>) -> (r: bool)
    ensures
        r == distinct_cores(targets_view(ts@)),
{
    let ghost v = targets_view(ts@);
    let mut i: usize = 0;
    while i < ts.len()
        invariant
            v == targets_view(ts@),
            0 <= i <= ts@.len(),
            forall|p: int, q: int| 0 <= p < q < ts@.len() && p < i ==> #[trigger] v[p].0 != #[trigger] v[q].0,
        decreases ts@.len() - i,
    {
        let mut j: usize = i + 1;
        while j < ts.len()
            invariant
                v == targets_view(ts@),
                0 <= i < ts@.len(),
                i + 1 <= j <= ts@.len(),
                forall|p: int, q: int| 0 <= p < q < ts@.len() && p < i ==> #[trigger] v[p].0 != #[trigger] v[q].0,
                forall|q: int| i < q < j ==> v[i as int].0 != #[trigger] v[q].0,
            decreases ts@.len() - j,
        {
            if ts[i].core_id == ts[j].core_id {
                assert(v[i as int].0 == v[j as int].0);
                return false;
            }
            j = j + 1;
        }
        i = i + 1;
    }
    true
}

/// The target of core `core_id` allowed by a stored quick test (see
/// [`spec_tested_target`]).
pub fn tested_target(
    f: &QuickSessionFacts,
    topo: &Topology,
    cpu: &CpuIdentity,
    core_id: u32,
    assessed: RankingStatus,
    retest: &Vec<CoreTarget>,
) -> (r: Result<CoreTarget, ErrorCode>)
    ensures
        match spec_tested_target(*f, *topo, *cpu, core_id, assessed, targets_view(retest@)) {
            Ok(t) => r matches Ok(x) && target_view(x) == t,
            Err(e) => r == Err::<CoreTarget, ErrorCode>(e),
        },
{
    let quick = match &f.quick {
        None => return Err(ErrorCode::BenchmarkSessionIncompatible),
        Some(q) => q,
    };
    let fp = cpu_fingerprint_with(topo, cpu);
    if f.status != SessionStatus::Completed || f.has_error || f.config_method_version != METHOD_VERSION
        || quick.method_version != METHOD_VERSION || !f.integrity_passed || !f.environment_passed
        || !same_text(f.cpu_fingerprint.as_str(), fp.as_str()) || quick.status == RankingStatus::Insufficient {
        return Err(ErrorCode::BenchmarkSessionIncompatible);
    }
    let current = match select(topo, f.candidate_core_ids.as_slice()) {
        Err(e) => return Err(e),
        Ok(c) => c,
    };
    let want: usize = if current.len() < 2 { current.len() } else { 2 };
    if !same_targets(&current, &quick.candidates) || assessed != quick.status || retest.len() != want
        || !distinct_core_ids(retest) {
        return Err(ErrorCode::BenchmarkSessionIncompatible);
    }
    let ghost rv = targets_view(retest@);
    let mut k: usize = 0;
    while k < retest.len() && retest[k].core_id != core_id
        invariant
            rv == targets_view(retest@),
            0 <= k <= retest@.len(),
            forall|p: int| 0 <= p < k ==> #[trigger] rv[p].0 != core_id,
        decreases retest@.len() - k,
    {
        assert(rv[k as int].0 == retest@[k as int].core_id);
        k = k + 1;
    }
    if k == retest.len() {
        assert(!names_core(rv, core_id));
        return Err(ErrorCode::BenchmarkSessionIncompatible);
    }
    assert(rv[k as int].0 == core_id);
    proof {
        let c = choose|i: int| 0 <= i < rv.len() && #[trigger] rv[i].0 == core_id;
        assert(names_core(rv, core_id));
        if c != k as int {
            if c < k as int {
                assert(rv[c].0 != rv[k as int].0);
            } else {
                assert(rv[k as int].0 != rv[c].0);
            }
        }
        assert(entry_of(rv, core_id) == rv[k as int]);
    }
    let target = CoreTarget { core_id: retest[k].core_id, lp_indices: retest[k].lp_indices.clone() };
    assert(target_view(target) == rv[k as int]);
    match mask(&target, topo) {
        Err(e) => Err(e),
        Ok(_) => Ok(target),
    }
}

/// The stored quick test a core change names, with what the host recomputed
/// from its captures.
#[derive(Debug)]
pub struct SessionChoice {
    /// The id the request named.
    pub id: String,
    /// The authenticated session (or why it could not be read).
    pub loaded: Result<QuickSessionFacts, String>,
    /// The ranking verdict recomputed from the stored captures.
    pub assessed: RankingStatus,
    /// The retest captures ranked again, best first.
    pub retest: Vec<CoreTarget>,
}

/// The core a change targets: from a stored quick test when one is named
/// (its id and adapter must match the request, then [`spec_tested_target`]),
/// else the requested core among the current candidates.
pub open spec fn spec_choose_target(
    choice: Option<SessionChoice>,
    topo: Topology,
    cpu: CpuIdentity,
    instance: Seq<char>,
    core_id: u32,
) -> Result<(u32, Seq<u32>), Seq<char>> {
    match choice {
        Some(c) => match c.loaded {
            Err(e) => Err(e@),
            Ok(f) => if f.id@ != c.id@ || !eq_ignore_ascii_case_spec(f.gpu_instance_id@, instance) {
                Err(code_text(ErrorCode::BenchmarkSessionIncompatible))
            } else {
                match spec_tested_target(f, topo, cpu, core_id, c.assessed, targets_view(c.retest@)) {
                    Ok(t) => Ok(t),
                    Err(e) => Err(code_text(e)),
                }
            },
        },
        None => match spec_select(topo, seq![core_id]) {
            Ok(s) => Ok(s[0]),
            Err(e) => Err(code_text(e)),
        },
    }
}

/// Why a change of `instance` to a whole core is refused, if it is: a pending
/// recovery, the target choice (see [`spec_choose_target`]), an absent
/// adapter or a disabled basic display. Back-end errors are passed on.
pub open spec fn core_apply_error(
    recovery_required: bool,
    target: Result<(u32, Seq<u32>), Seq<char>>,
    instance: Seq<char>,
    adapters: Result<Seq<String>, Seq<char>>,
    basic_display: Result<bool, Seq<char>>,
) -> Option<Seq<char>> {
    if recovery_required {
        Some(code_text(ErrorCode::BenchmarkRecoveryRequired))
    } else if target is Err {
        Some(target->Err_0)
    } else if adapters is Err {
        Some(adapters->Err_0)
    } else if !listed(adapters->Ok_0, instance) {
        Some(code_text(ErrorCode::GpuNotFound))
    } else if basic_display is Err {
        Some(basic_display->Err_0)
    } else if !(basic_display->Ok_0) {
        Some(code_text(ErrorCode::GpuBasicDisplayDisabled))
    } else {
        None
    }
}

/// A change of `instance` to the whole core `core_id`: refused as
/// [`core_apply_error`] says, else the change to the target's LP mask starts;
/// the target comes back for the applied-policy record.
pub fn apply_core_at(
    recovery_required: bool,
    choice: Option<SessionChoice>,
    topo: &Topology,
    cpu: &CpuIdentity,
    instance: &str,
    core_id: u32,
    adapters: Result<Vec<String>, String>,
    basic_display: Result<bool, String>,
) -> (r: Result<(ApplyTxn, ApplyAction, CoreTarget), String>)
    ensures
        ({
            let target = spec_choose_target(choice, *topo, *cpu, instance@, core_id);
            match core_apply_error(recovery_required, target, instance@, res_adapters(adapters),
                res_bool(basic_display)) {
                Some(e) => r matches Err(x) && x@ == e,
                None => r matches Ok(p) && target_view(p.2) == target->Ok_0
                    && (p.0@, p.1) == apply_start(instance@, le_trimmed(lp_mask(target->Ok_0.1))),
            }
        }),
{
    if recovery_required {
        return Err(ErrorCode::BenchmarkRecoveryRequired.as_str().to_owned());
    }
    let target = match choice {
        Some(c) => {
            let f = match c.loaded {
                Err(e) => return Err(e),
                Ok(f) => f,
            };
            if !same_text(f.id.as_str(), c.id.as_str()) || !eq_ignore_ascii_case(f.gpu_instance_id.as_str(), instance) {
                return Err(ErrorCode::BenchmarkSessionIncompatible.as_str().to_owned());
            }
            match tested_target(&f, topo, cpu, core_id, c.assessed, &c.retest) {
                Err(e) => return Err(e.as_str().to_owned()),
                Ok(t) => t,
            }
        },
        None => {
            let ids: Vec<u32> = vec![core_id];
            let sl = ids.as_slice();
            proof {
                assert(sl@ =~= seq![core_id]);
                assert(sl@.drop_last() =~= Seq::<u32>::empty());
                assert(select_ids(spec_candidates(*topo), Seq::<u32>::empty()) == Ok::<Seq<(u32, Seq<u32>)>, ErrorCode>(Seq::empty()));
            }
            match select(topo, sl) {
                Err(e) => return Err(e.as_str().to_owned()),
                Ok(v) => {
                    proof {
                        let avail = spec_candidates(*topo);
                        assert(avail.len() > 0);
                        assert(select_ids(avail, sl@) is Ok);
                        assert(targets_view(v@).len() == v@.len());
                        assert(targets_view(v@).len() == 1);
                        lemma_first_with_id_bounds(avail, core_id, avail.len() as int);
                        assert(avail.contains(targets_view(v@)[0]));
                    }
                    let t = CoreTarget { core_id: v[0].core_id, lp_indices: v[0].lp_indices.clone() };
                    assert(target_view(t) == targets_view(v@)[0]);
                    t
                },
            }
        },
    };
    assert(spec_candidates(*topo).contains(target_view(target)));
    let bytes = match mask(&target, topo) {
        Err(e) => return Err(e.as_str().to_owned()),
        Ok(b) => b,
    };
    let list = match adapters {
        Err(e) => return Err(e),
        Ok(l) => l,
    };
    if !adapter_present(&list, instance) {
        return Err(ErrorCode::GpuNotFound.as_str().to_owned());
    }
    match basic_display {
        Err(e) => Err(e),
        Ok(false) => Err(ErrorCode::GpuBasicDisplayDisabled.as_str().to_owned()),
        Ok(true) => {
            let (txn, action) = apply_mask_to_gpu(instance, bytes);
            Ok((txn, action, target))
        },
    }
}

} // verus!
