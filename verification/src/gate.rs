//! Whether a stored session may be applied now, the preconditions of each
//! apply path, and drift of an applied policy.
use vstd::prelude::*;
use crate::apply::{ApplyAction, ApplyError, ApplyTxn, apply_mask_to_gpu, apply_start};
use crate::bits::{le_trimmed, single_lp_mask_bytes, spec_mask_lp, mask_bytes_to_lp};
use crate::codes::{ErrorCode, code_text};
use crate::gpu::{AffinityPolicy, PolicyView, pinned_policy, spec_policy_matches, policy_matches, opt_bytes};
use crate::model::{ApplyStatus, EquivalentSafetyStatus, ReliabilityStatus, SessionStatus};
use crate::text::{same_text, eq_ignore_ascii_case, eq_ignore_ascii_case_spec, join_path, joined};

verus! {

/// The safety validation of an equivalent session, as far as applying reads it.
#[derive(Clone, Debug)]
pub struct ValidationFacts {
    pub status: EquivalentSafetyStatus,
    pub selected_lp: Option<u32>,
    /// Override bytes of the reference policy when the validation ran.
    pub reference_policy_mask: Option<Vec<u8>>,
}

/// What applying reads from a stored session.
#[derive(Clone, Debug)]
pub struct SessionFacts {
    pub status: SessionStatus,
    pub reliability: ReliabilityStatus,
    pub algorithm_version: u32,
    pub best_lp: Option<u32>,
    /// `[candidate, runner-up]` of an equivalent session; empty otherwise.
    pub equivalent_finalist_lps: Vec<u32>,
    pub cpu_fingerprint: String,
    pub gpu_instance_id: String,
    pub validation: Option<ValidationFacts>,
}

/// LPs a policy can name: `min(total_lp, 64)`.
pub open spec fn lp_limit(total_lp: u32) -> u32 {
    if total_lp < 64 { total_lp } else { 64 }
}

/// Whether `id` is among the present adapters (ASCII case ignored).
pub open spec fn listed(adapters: Seq<String>, id: Seq<char>) -> bool {
    exists|i: int| 0 <= i < adapters.len() && eq_ignore_ascii_case_spec(#[trigger] adapters[i]@, id)
}

/// Whether `id` is among the present adapters (ASCII case ignored).
pub fn adapter_present(adapters: &Vec<String>, id: &str) -> (r: bool)
    ensures
        r == listed(adapters@, id@),
{
    let mut i: usize = 0;
    while i < adapters.len()
        invariant
            0 <= i <= adapters@.len(),
            forall|k: int| 0 <= k < i ==> !eq_ignore_ascii_case_spec(#[trigger] adapters@[k]@, id@),
        decreases adapters@.len() - i,
    {
        if eq_ignore_ascii_case(adapters[i].as_str(), id) {
            return true;
        }
        i = i + 1;
    }
    false
}

/// Whether a stored session is offered for import: completed with a best LP,
/// passed, measured on this CPU (same fingerprint) and on an adapter present
/// now.
pub open spec fn spec_importable(f: SessionFacts, fingerprint: Seq<char>, adapters: Seq<String>) -> bool {
    &&& f.status == SessionStatus::Completed
    &&& f.best_lp is Some
    &&& f.reliability == ReliabilityStatus::Passed
    &&& f.cpu_fingerprint@ == fingerprint
    &&& listed(adapters, f.gpu_instance_id@)
}

/// The positions, in order, of the importable sessions among the first `n`.
pub open spec fn importable_positions(sessions: Seq<SessionFacts>, fingerprint: Seq<char>, adapters: Seq<String>, n: nat) -> Seq<usize>
    decreases n,
{
    if n == 0 {
        Seq::empty()
    } else {
        let before = importable_positions(sessions, fingerprint, adapters, (n - 1) as nat);
        if spec_importable(sessions[n - 1], fingerprint, adapters) {
            before.push((n - 1) as usize)
        } else {
            before
        }
    }
}

/// The adapters a listing goes by: none when they could not be read.
pub open spec fn adapters_or_none(adapters: Result<Vec<String>, String>) -> Seq<String> {
    match adapters {
        Ok(a) => a@,
        Err(_) => Seq::empty(),
    }
}

/// Whether `f` is offered for import (see [`spec_importable`]).
pub fn importable(f: &SessionFacts, fingerprint: &str, adapters: &Vec<String>) -> (r: bool)
    ensures
        r == spec_importable(*f, fingerprint@, adapters@),
{
    f.status == SessionStatus::Completed && f.best_lp.is_some() && f.reliability == ReliabilityStatus::Passed
        && same_text(f.cpu_fingerprint.as_str(), fingerprint) && adapter_present(adapters, f.gpu_instance_id.as_str())
}

/// The positions, in order, of the stored sessions that can be imported on
/// this machine: this CPU's `fingerprint` and the present adapters (none when
/// they could not be read).
pub fn list_importable(sessions: &Vec<SessionFacts>, fingerprint: &str, adapters: Result<Vec<String>, String>) -> (r: Vec<usize>)
    ensures
        r@ == importable_positions(sessions@, fingerprint@, adapters_or_none(adapters), sessions@.len()),
{
    let present: Vec<String> = match adapters {
        Ok(a) => a,
        Err(_) => Vec::new(),
    };
    let mut out: Vec<usize> = Vec::new();
    let mut i: usize = 0;
    while i < sessions.len()
        invariant
            0 <= i <= sessions@.len(),
            present@ == adapters_or_none(adapters),
            out@ == importable_positions(sessions@, fingerprint@, present@, i as nat),
        decreases sessions@.len() - i,
    {
        if importable(&sessions[i], fingerprint, &present) {
            out.push(i);
        }
        i = i + 1;
    }
    out
}

/// Law: a position is listed exactly when it holds an importable session, and
/// positions come in increasing order.
pub proof fn law_importable_listing_exact(sessions: Seq<SessionFacts>, fingerprint: Seq<char>, adapters: Seq<String>, n: nat)
    requires
        n <= sessions.len(),
        sessions.len() <= usize::MAX,
    ensures
        forall|k: usize| #[trigger] importable_positions(sessions, fingerprint, adapters, n).contains(k)
            <==> (k < n && spec_importable(sessions[k as int], fingerprint, adapters)),
        forall|i: int, j: int| 0 <= i < j < importable_positions(sessions, fingerprint, adapters, n).len()
            ==> importable_positions(sessions, fingerprint, adapters, n)[i] < importable_positions(sessions, fingerprint, adapters, n)[j],
    decreases n,
{
    if n > 0 {
        let m = (n - 1) as nat;
        law_importable_listing_exact(sessions, fingerprint, adapters, m);
        let before = importable_positions(sessions, fingerprint, adapters, m);
        let x = (n - 1) as usize;
        assert forall|k: usize| before.contains(k) implies k < x by {}
        if spec_importable(sessions[n - 1], fingerprint, adapters) {
            let after = before.push(x);
            assert forall|k: usize| #[trigger] after.contains(k) <==> (before.contains(k) || k == x) by {
                if after.contains(k) {
                    let i = choose|i: int| 0 <= i < after.len() && after[i] == k;
                    if i < before.len() {
                        assert(before[i] == k);
                    }
                }
                if before.contains(k) {
                    let i = choose|i: int| 0 <= i < before.len() && before[i] == k;
                    assert(after[i] == k);
                }
                if k == x {
                    assert(after[before.len() as int] == x);
                }
            }
            assert forall|i: int, j: int| 0 <= i < j < after.len() implies after[i] < after[j] by {
                if j == before.len() {
                    assert(before.contains(before[i]));
                }
            }
        }
    }
}

/// Whether every finalist is below the LP limit.
pub open spec fn finalists_in_range(f: SessionFacts, total_lp: u32) -> bool {
    forall|i: int| 0 <= i < f.equivalent_finalist_lps@.len() ==> #[trigger] f.equivalent_finalist_lps@[i] < lp_limit(total_lp)
}

fn all_below(lps: &Vec<u32>, limit: u32) -> (r: bool)
    ensures
        r == forall|i: int| 0 <= i < lps@.len() ==> #[trigger] lps@[i] < limit,
{
    let mut i: usize = 0;
    while i < lps.len()
        invariant
            0 <= i <= lps@.len(),
            forall|k: int| 0 <= k < i ==> #[trigger] lps@[k] < limit,
        decreases lps@.len() - i,
    {
        if lps[i] >= limit {
            return false;
        }
        i = i + 1;
    }
    true
}

fn contains_lp(lps: &Vec<u32>, x: u32) -> (r: bool)
    ensures
        r == lps@.contains(x),
{
    let mut i: usize = 0;
    while i < lps.len()
        invariant
            0 <= i <= lps@.len(),
            forall|k: int| 0 <= k < i ==> lps@[k] != x,
        decreases lps@.len() - i,
    {
        if lps[i] == x {
            proof {
                assert(lps@[i as int] == x);
            }
            return true;
        }
        i = i + 1;
    }
    false
}

/// Whether the session is an equivalent result (algorithm 2).
pub open spec fn equivalent_contract(f: SessionFacts) -> bool {
    f.reliability == ReliabilityStatus::Equivalent && f.algorithm_version == 2
}

/// Whether a passed validation for one of the finalists is on record.
pub open spec fn validated(f: SessionFacts) -> bool {
    f.validation matches Some(v) && v.status == EquivalentSafetyStatus::Passed
        && (v.selected_lp matches Some(lp) && f.equivalent_finalist_lps@.contains(lp))
}

/// Whether the live override still holds the bytes recorded by the validation
/// (a missing record never matches).
pub open spec fn reference_matches(v: ValidationFacts, current: PolicyView) -> bool {
    v.reference_policy_mask matches Some(m) && current.2.2 == Some(m@)
}

/// Why an equivalent session cannot be applied now, if it cannot.
pub open spec fn equivalent_apply_reason(
    f: SessionFacts,
    total_lp: u32,
    fingerprint: Seq<char>,
    adapters: Option<Seq<String>>,
    basic_display: Option<bool>,
    current: Option<PolicyView>,
) -> Option<ErrorCode> {
    if !(f.status == SessionStatus::Completed && f.equivalent_finalist_lps@.len() == 2) {
        Some(ErrorCode::BenchmarkNotEquivalent)
    } else if !finalists_in_range(f, total_lp) || f.cpu_fingerprint@ != fingerprint {
        Some(ErrorCode::BenchmarkSessionIncompatible)
    } else if !(adapters matches Some(a) && listed(a, f.gpu_instance_id@)) {
        Some(ErrorCode::GpuNotFound)
    } else if basic_display != Some(true) {
        Some(ErrorCode::GpuBasicDisplayDisabled)
    } else if !validated(f) {
        Some(ErrorCode::BenchmarkEquivalentValidationRequired)
    } else if !(current matches Some(p) && reference_matches(f.validation->Some_0, p)) {
        Some(ErrorCode::BenchmarkEquivalentReferenceChanged)
    } else {
        None
    }
}

/// Why a passed session cannot be applied now, if it cannot.
pub open spec fn legacy_apply_reason(
    f: SessionFacts,
    total_lp: u32,
    fingerprint: Seq<char>,
    adapters: Option<Seq<String>>,
    basic_display: Option<bool>,
) -> Option<ErrorCode> {
    if !(f.status == SessionStatus::Completed && f.best_lp is Some) {
        Some(ErrorCode::BenchmarkSessionNotCompleted)
    } else if f.reliability != ReliabilityStatus::Passed {
        Some(ErrorCode::BenchmarkReliabilityNotPassed)
    } else if f.best_lp->Some_0 >= lp_limit(total_lp) || f.cpu_fingerprint@ != fingerprint {
        Some(ErrorCode::BenchmarkSessionIncompatible)
    } else if !(adapters matches Some(a) && listed(a, f.gpu_instance_id@)) {
        Some(ErrorCode::GpuNotFound)
    } else if basic_display != Some(true) {
        Some(ErrorCode::GpuBasicDisplayDisabled)
    } else {
        None
    }
}

/// The view of an optional list of adapters.
pub open spec fn opt_adapters(a: Option<&Vec<String>>) -> Option<Seq<String>> {
    match a {
        Some(v) => Some(v@),
        None => None,
    }
}

/// The view of an optional policy.
pub open spec fn opt_policy(p: Option<&AffinityPolicy>) -> Option<PolicyView> {
    match p {
        Some(q) => Some(q@),
        None => None,
    }
}

/// Whether a stored session can be applied now. `facts` is `None` when the
/// session could not be loaded; `adapters`, `basic_display` and `current` are
/// `None` when the back end could not be read. An equivalent session
/// (algorithm 2) follows the equivalent contract: it needs a passed safety
/// validation whose reference is still the live override, and it reports its
/// finalists; any other needs a completed, passed session with a best LP.
pub fn check_apply_at(
    facts: Option<&SessionFacts>,
    total_lp: u32,
    fingerprint: &str,
    adapters: Option<&Vec<String>>,
    basic_display: Option<bool>,
    current: Option<&AffinityPolicy>,
) -> (s: ApplyStatus)
    ensures
        match facts {
            None => !s.can_apply && s.reason == Some(ErrorCode::BenchmarkSessionNotFound)
                && !s.equivalent_mode && s.allowed_lps@.len() == 0 && !s.requires_safety_validation,
            Some(f) => if equivalent_contract(*f) {
                let reason = equivalent_apply_reason(*f, total_lp, fingerprint@, opt_adapters(adapters),
                    basic_display, opt_policy(current));
                &&& s.reason == reason
                &&& s.can_apply == (reason is None)
                &&& s.equivalent_mode
                &&& s.allowed_lps@ == f.equivalent_finalist_lps@
                &&& s.requires_safety_validation == (reason is Some)
            } else {
                let reason = legacy_apply_reason(*f, total_lp, fingerprint@, opt_adapters(adapters), basic_display);
                &&& s.reason == reason
                &&& s.can_apply == (reason is None)
                &&& !s.equivalent_mode
                &&& s.allowed_lps@.len() == 0
                &&& !s.requires_safety_validation
            },
        },
{
    let f = match facts {
        None => {
            return ApplyStatus {
                can_apply: false,
                reason: Some(ErrorCode::BenchmarkSessionNotFound),
                equivalent_mode: false,
                allowed_lps: Vec::new(),
                requires_safety_validation: false,
            };
        },
        Some(f) => f,
    };
    let limit: u32 = if total_lp < 64 { total_lp } else { 64 };
    let present = match adapters {
        Some(a) => adapter_present(a, f.gpu_instance_id.as_str()),
        None => false,
    };
    let fingerprint_ok = same_text(f.cpu_fingerprint.as_str(), fingerprint);
    if f.reliability == ReliabilityStatus::Equivalent && f.algorithm_version == 2 {
        let finalists = &f.equivalent_finalist_lps;
        let reason: Option<ErrorCode> = if !(f.status == SessionStatus::Completed && finalists.len() == 2) {
            Some(ErrorCode::BenchmarkNotEquivalent)
        } else if !all_below(finalists, limit) || !fingerprint_ok {
            Some(ErrorCode::BenchmarkSessionIncompatible)
        } else if !present {
            Some(ErrorCode::GpuNotFound)
        } else if basic_display != Some(true) {
            Some(ErrorCode::GpuBasicDisplayDisabled)
        } else {
            let is_validated = match &f.validation {
                Some(v) => v.status == EquivalentSafetyStatus::Passed && match v.selected_lp {
                    Some(lp) => contains_lp(finalists, lp),
                    None => false,
                },
                None => false,
            };
            if !is_validated {
                Some(ErrorCode::BenchmarkEquivalentValidationRequired)
            } else {
                let ref_ok = match (&f.validation, current) {
                    (Some(v), Some(p)) => reference_still_live(v, p),
                    _ => false,
                };
                if !ref_ok {
                    Some(ErrorCode::BenchmarkEquivalentReferenceChanged)
                } else {
                    None
                }
            }
        };
        let blocked = reason.is_some();
        let allowed = copy_lps(finalists);
        return ApplyStatus {
            can_apply: !blocked,
            reason,
            equivalent_mode: true,
            allowed_lps: allowed,
            requires_safety_validation: blocked,
        };
    }
    let reason: Option<ErrorCode> = if !(f.status == SessionStatus::Completed && f.best_lp.is_some()) {
        Some(ErrorCode::BenchmarkSessionNotCompleted)
    } else if f.reliability != ReliabilityStatus::Passed {
        Some(ErrorCode::BenchmarkReliabilityNotPassed)
    } else if f.best_lp.unwrap() >= limit || !fingerprint_ok {
        Some(ErrorCode::BenchmarkSessionIncompatible)
    } else if !present {
        Some(ErrorCode::GpuNotFound)
    } else if basic_display != Some(true) {
        Some(ErrorCode::GpuBasicDisplayDisabled)
    } else {
        None
    };
    ApplyStatus {
        can_apply: reason.is_none(),
        reason,
        equivalent_mode: false,
        allowed_lps: Vec::new(),
        requires_safety_validation: false,
    }
}

/// Copies a list of LPs.
fn copy_lps(v: &Vec<u32>) -> (r: Vec<u32>)
    ensures
        r@ == v@,
{
    let mut out: Vec<u32> = Vec::new();
    let mut i: usize = 0;
    while i < v.len()
        invariant
            0 <= i <= v@.len(),
            out@ == v@.take(i as int),
        decreases v@.len() - i,
    {
        out.push(v[i]);
        i = i + 1;
        assert(out@ =~= v@.take(i as int));
    }
    assert(v@.take(v@.len() as int) =~= v@);
    out
}

/// Whether the live override still holds the validation's reference bytes.
fn reference_still_live(v: &ValidationFacts, current: &AffinityPolicy) -> (r: bool)
    ensures
        r == reference_matches(*v, current@),
{
    match (&v.reference_policy_mask, &current.assignment_set_override.bytes) {
        (Some(m), Some(b)) => crate::gpu::same_bytes(b, m),
        _ => false,
    }
}

/// The step after the equivalent preconditions hold.
#[derive(Clone, Copy, Debug, PartialEq, Eq, Structural)]
pub enum EquivalentValidationPlan {
    /// The LP pinned now is one of the pair: passed at once.
    ImmediatePass { reference_lp: u32 },
    /// The LP pinned now is outside the pair: compare the selected LP with it.
    RunCaptures { reference_lp: u32 },
}

/// Why the equivalent preconditions fail, if they do: the session must be an
/// equivalent pair, the selected LP one of them, all in range, on this CPU,
/// the adapter present and the basic display enabled. A back-end error is
/// passed on as it came.
pub open spec fn equivalent_precondition_error(
    f: SessionFacts,
    total_lp: u32,
    fingerprint: Seq<char>,
    adapters: Result<Seq<String>, Seq<char>>,
    basic_display: Result<bool, Seq<char>>,
    selected_lp: u32,
) -> Option<Seq<char>> {
    if !(f.status == SessionStatus::Completed && equivalent_contract(f) && f.equivalent_finalist_lps@.len() == 2) {
        Some(code_text(ErrorCode::BenchmarkNotEquivalent))
    } else if !f.equivalent_finalist_lps@.contains(selected_lp) {
        Some(code_text(ErrorCode::BenchmarkEquivalentLpInvalid))
    } else if !finalists_in_range(f, total_lp) || f.cpu_fingerprint@ != fingerprint {
        Some(code_text(ErrorCode::BenchmarkSessionIncompatible))
    } else if adapters is Err {
        Some(adapters->Err_0)
    } else if !listed(adapters->Ok_0, f.gpu_instance_id@) {
        Some(code_text(ErrorCode::GpuNotFound))
    } else if basic_display is Err {
        Some(basic_display->Err_0)
    } else if !(basic_display->Ok_0) {
        Some(code_text(ErrorCode::GpuBasicDisplayDisabled))
    } else {
        None
    }
}

/// The view of a back-end result.
pub open spec fn res_adapters(a: Result<Vec<String>, String>) -> Result<Seq<String>, Seq<char>> {
    match a {
        Ok(v) => Ok(v@),
        Err(e) => Err(e@),
    }
}

/// The view of a back-end result.
pub open spec fn res_bool(a: Result<bool, String>) -> Result<bool, Seq<char>> {
    match a {
        Ok(v) => Ok(v),
        Err(e) => Err(e@),
    }
}

fn equivalent_preconditions(
    f: &SessionFacts,
    total_lp: u32,
    fingerprint: &str,
    adapters: Result<Vec<String>, String>,
    basic_display: Result<bool, String>,
    selected_lp: u32,
) -> (r: Result<(), String>)
    ensures
        match equivalent_precondition_error(*f, total_lp, fingerprint@, res_adapters(adapters),
            res_bool(basic_display), selected_lp) {
            Some(e) => r matches Err(m) && m@ == e,
            None => r is Ok,
        },
{
    let finalists = &f.equivalent_finalist_lps;
    if !(f.status == SessionStatus::Completed && f.reliability == ReliabilityStatus::Equivalent
        && f.algorithm_version == 2 && finalists.len() == 2) {
        return Err(ErrorCode::BenchmarkNotEquivalent.as_str().to_owned());
    }
    if !contains_lp(finalists, selected_lp) {
        return Err(ErrorCode::BenchmarkEquivalentLpInvalid.as_str().to_owned());
    }
    let limit: u32 = if total_lp < 64 { total_lp } else { 64 };
    if !all_below(finalists, limit) || !same_text(f.cpu_fingerprint.as_str(), fingerprint) {
        return Err(ErrorCode::BenchmarkSessionIncompatible.as_str().to_owned());
    }
    let list = match adapters {
        Err(e) => return Err(e),
        Ok(l) => l,
    };
    if !adapter_present(&list, f.gpu_instance_id.as_str()) {
        return Err(ErrorCode::GpuNotFound.as_str().to_owned());
    }
    match basic_display {
        Err(e) => Err(e),
        Ok(false) => Err(ErrorCode::GpuBasicDisplayDisabled.as_str().to_owned()),
        Ok(true) => Ok(()),
    }
}

/// The plan of an equivalent safety validation: after the equivalent
/// preconditions, the LP pinned now (read from the live override) is the
/// reference; none is `BENCHMARK_EQUIVALENT_NO_REFERENCE`. A reference inside
/// the pair passes at once; otherwise the two are compared.
pub fn equivalent_validation_plan(
    facts: &SessionFacts,
    total_lp: u32,
    fingerprint: &str,
    adapters: Result<Vec<String>, String>,
    basic_display: Result<bool, String>,
    current_policy: &AffinityPolicy,
    selected_lp: u32,
) -> (r: Result<EquivalentValidationPlan, String>)
    ensures
        match equivalent_precondition_error(*facts, total_lp, fingerprint@, res_adapters(adapters),
            res_bool(basic_display), selected_lp) {
            Some(e) => r matches Err(m) && m@ == e,
            None => match spec_mask_lp(current_policy.assignment_set_override@.2) {
                None => r matches Err(m) && m@ == code_text(ErrorCode::BenchmarkEquivalentNoReference),
                Some(reference_lp) => r == Ok::<EquivalentValidationPlan, String>(
                    if facts.equivalent_finalist_lps@.contains(reference_lp) {
                        EquivalentValidationPlan::ImmediatePass { reference_lp }
                    } else {
                        EquivalentValidationPlan::RunCaptures { reference_lp }
                    },
                ),
            },
        },
{
    match equivalent_preconditions(facts, total_lp, fingerprint, adapters, basic_display, selected_lp) {
        Err(e) => return Err(e),
        Ok(()) => {},
    }
    let reference = match &current_policy.assignment_set_override.bytes {
        Some(b) => mask_bytes_to_lp(Some(b.as_slice())),
        None => mask_bytes_to_lp(None),
    };
    match reference {
        None => Err(ErrorCode::BenchmarkEquivalentNoReference.as_str().to_owned()),
        Some(reference_lp) => if contains_lp(&facts.equivalent_finalist_lps, reference_lp) {
            Ok(EquivalentValidationPlan::ImmediatePass { reference_lp })
        } else {
            Ok(EquivalentValidationPlan::RunCaptures { reference_lp })
        },
    }
}

/// The LP to apply in equivalent mode: after the equivalent preconditions, a
/// passed validation of exactly `selected_lp` must be on record
/// (`..._VALIDATION_REQUIRED` otherwise), and the live override must still be
/// its reference (`..._REFERENCE_CHANGED` otherwise).
pub fn apply_equivalent_decision(
    facts: &SessionFacts,
    total_lp: u32,
    fingerprint: &str,
    adapters: Result<Vec<String>, String>,
    basic_display: Result<bool, String>,
    current_policy: &AffinityPolicy,
    selected_lp: u32,
) -> (r: Result<u32, String>)
    ensures
        match equivalent_precondition_error(*facts, total_lp, fingerprint@, res_adapters(adapters),
            res_bool(basic_display), selected_lp) {
            Some(e) => r matches Err(m) && m@ == e,
            None => if !(facts.validation matches Some(v) && v.status == EquivalentSafetyStatus::Passed
                && v.selected_lp == Some(selected_lp)) {
                r matches Err(m) && m@ == code_text(ErrorCode::BenchmarkEquivalentValidationRequired)
            } else if !reference_matches(facts.validation->Some_0, current_policy@) {
                r matches Err(m) && m@ == code_text(ErrorCode::BenchmarkEquivalentReferenceChanged)
            } else {
                r == Ok::<u32, String>(selected_lp)
            },
        },
{
    match equivalent_preconditions(facts, total_lp, fingerprint, adapters, basic_display, selected_lp) {
        Err(e) => return Err(e),
        Ok(()) => {},
    }
    let v = match &facts.validation {
        None => return Err(ErrorCode::BenchmarkEquivalentValidationRequired.as_str().to_owned()),
        Some(v) => v,
    };
    if v.status != EquivalentSafetyStatus::Passed || v.selected_lp != Some(selected_lp) {
        return Err(ErrorCode::BenchmarkEquivalentValidationRequired.as_str().to_owned());
    }
    if !reference_still_live(v, current_policy) {
        return Err(ErrorCode::BenchmarkEquivalentReferenceChanged.as_str().to_owned());
    }
    Ok(selected_lp)
}

/// Starts pinning `instance_id` to the single LP `lp`.
pub fn apply_affinity_to_gpu(instance_id: &str, lp: u32) -> (r: (ApplyTxn, ApplyAction))
    requires
        lp < 64,
    ensures
        (r.0@, r.1) == apply_start(instance_id@, le_trimmed(1u64 << (lp as u64))),
{
    apply_mask_to_gpu(instance_id, single_lp_mask_bytes(lp))
}

/// Why the best LP of a stored session cannot be applied, if it cannot:
/// the verified load must succeed, the session be completed with a best LP
/// and passed, the LP in range, the CPU the same, the adapter present and the
/// basic display enabled. Back-end errors are passed on.
pub open spec fn best_apply_error(
    loaded: Result<SessionFacts, Seq<char>>,
    total_lp: u32,
    fingerprint: Seq<char>,
    adapters: Result<Seq<String>, Seq<char>>,
    basic_display: Result<bool, Seq<char>>,
) -> Option<Seq<char>> {
    match loaded {
        Err(e) => Some(e),
        Ok(f) => if !(f.status == SessionStatus::Completed && f.best_lp is Some) {
            Some(code_text(ErrorCode::BenchmarkSessionNotCompleted))
        } else if f.reliability != ReliabilityStatus::Passed {
            Some(code_text(ErrorCode::BenchmarkReliabilityNotPassed))
        } else if f.best_lp->Some_0 >= lp_limit(total_lp) || f.cpu_fingerprint@ != fingerprint {
            Some(code_text(ErrorCode::BenchmarkSessionIncompatible))
        } else if adapters is Err {
            Some(adapters->Err_0)
        } else if !listed(adapters->Ok_0, f.gpu_instance_id@) {
            Some(code_text(ErrorCode::GpuNotFound))
        } else if basic_display is Err {
            Some(basic_display->Err_0)
        } else if !(basic_display->Ok_0) {
            Some(code_text(ErrorCode::GpuBasicDisplayDisabled))
        } else {
            None
        },
    }
}

/// The view of a verified session load.
pub open spec fn res_facts(a: Result<SessionFacts, String>) -> Result<SessionFacts, Seq<char>> {
    match a {
        Ok(f) => Ok(f),
        Err(e) => Err(e@),
    }
}

/// Applies the best LP of a completed session: every refusal is clean; when
/// all preconditions hold (see [`best_apply_error`]) the change of the
/// session's adapter to its best LP starts.
pub fn apply_best_affinity(
    loaded: Result<SessionFacts, String>,
    total_lp: u32,
    fingerprint: &str,
    adapters: Result<Vec<String>, String>,
    basic_display: Result<bool, String>,
) -> (r: Result<(ApplyTxn, ApplyAction), ApplyError>)
    ensures
        match best_apply_error(res_facts(loaded), total_lp, fingerprint@, res_adapters(adapters),
            res_bool(basic_display)) {
            Some(e) => r matches Err(x) && x.code@ == e && x.clean,
            None => r matches Ok(p) && (p.0@, p.1) == apply_start(loaded->Ok_0.gpu_instance_id@,
                le_trimmed(1u64 << (loaded->Ok_0.best_lp->Some_0 as u64))),
        },
{
    let f = match loaded {
        Err(e) => return Err(ApplyError::clean(e.as_str())),
        Ok(f) => f,
    };
    if f.status != SessionStatus::Completed {
        return Err(ApplyError::clean(ErrorCode::BenchmarkSessionNotCompleted.as_str()));
    }
    let best = match f.best_lp {
        None => return Err(ApplyError::clean(ErrorCode::BenchmarkSessionNotCompleted.as_str())),
        Some(b) => b,
    };
    if f.reliability != ReliabilityStatus::Passed {
        return Err(ApplyError::clean(ErrorCode::BenchmarkReliabilityNotPassed.as_str()));
    }
    let limit: u32 = if total_lp < 64 { total_lp } else { 64 };
    if best >= limit || !same_text(f.cpu_fingerprint.as_str(), fingerprint) {
        return Err(ApplyError::clean(ErrorCode::BenchmarkSessionIncompatible.as_str()));
    }
    let list = match adapters {
        Err(e) => return Err(ApplyError::clean(e.as_str())),
        Ok(l) => l,
    };
    if !adapter_present(&list, f.gpu_instance_id.as_str()) {
        return Err(ApplyError::clean(ErrorCode::GpuNotFound.as_str()));
    }
    match basic_display {
        Err(e) => return Err(ApplyError::clean(e.as_str())),
        Ok(false) => return Err(ApplyError::clean(ErrorCode::GpuBasicDisplayDisabled.as_str())),
        Ok(true) => {},
    }
    Ok(apply_affinity_to_gpu(f.gpu_instance_id.as_str(), best))
}

/// Why a manual change of `instance` to LP `lp` is refused, if it is: a
/// pending recovery, another GPU operation (`busy`, the reservation's error),
/// an LP outside `min(total_lp, 64)`, an absent adapter or a disabled basic
/// display. Back-end errors are passed on.
pub open spec fn manual_apply_error(
    recovery_required: bool,
    busy: Option<Seq<char>>,
    total_lp: u32,
    lp: u32,
    instance: Seq<char>,
    adapters: Result<Seq<String>, Seq<char>>,
    basic_display: Result<bool, Seq<char>>,
) -> Option<Seq<char>> {
    if recovery_required {
        Some(code_text(ErrorCode::BenchmarkRecoveryRequired))
    } else if busy is Some {
        busy
    } else if lp >= lp_limit(total_lp) {
        Some(code_text(ErrorCode::BenchmarkSessionIncompatible))
    } else if adapters is Err {
        Some(adapters->Err_0)
    } else if !listed(adapters->Ok_0, instance) {
        Some(code_text(ErrorCode::GpuNotFound))
    } else if basic_display is Err {
        Some(basic_display->Err_0)
    } else if !(basic_display->Ok_0) {
        Some(code_text(ErrorCode::GpuBasicDisplayDisabled))
    } else {
        None
    }
}

/// A manual change of `instance_id` to the single LP `lp`: refused as
/// [`manual_apply_error`] says, else the change starts.
pub fn apply_gpu_affinity_at(
    recovery_required: bool,
    busy: Option<String>,
    total_lp: u32,
    lp: u32,
    instance_id: &str,
    adapters: Result<Vec<String>, String>,
    basic_display: Result<bool, String>,
) -> (r: Result<(ApplyTxn, ApplyAction), String>)
    ensures
        match manual_apply_error(recovery_required, match busy { Some(b) => Some(b@), None => None }, total_lp, lp,
            instance_id@, res_adapters(adapters), res_bool(basic_display)) {
            Some(e) => r matches Err(x) && x@ == e,
            None => r matches Ok(p) && (p.0@, p.1) == apply_start(instance_id@, le_trimmed(1u64 << (lp as u64))),
        },
{
    if recovery_required {
        return Err(ErrorCode::BenchmarkRecoveryRequired.as_str().to_owned());
    }
    match busy {
        Some(b) => return Err(b),
        None => {},
    }
    let limit: u32 = if total_lp < 64 { total_lp } else { 64 };
    if lp >= limit {
        return Err(ErrorCode::BenchmarkSessionIncompatible.as_str().to_owned());
    }
    let list = match adapters {
        Err(e) => return Err(e),
        Ok(l) => l,
    };
    if !adapter_present(&list, instance_id) {
        return Err(ErrorCode::GpuNotFound.as_str().to_owned());
    }
    match basic_display {
        Err(e) => Err(e),
        Ok(false) => Err(ErrorCode::GpuBasicDisplayDisabled.as_str().to_owned()),
        Ok(true) => Ok(apply_affinity_to_gpu(instance_id, lp)),
    }
}

/// Whether an applied policy is still in the registry.
#[derive(Clone, Copy, Debug, PartialEq, Eq, Structural)]
pub enum DriftStatus {
    /// Nothing to compare (no usable record, or the read failed).
    NotTracked,
    /// The registry holds the applied policy.
    Match,
    /// The registry differs from the applied policy.
    Drifted,
}

/// The policy last applied: which adapter, which core, which override bytes.
#[derive(Clone, Debug)]
pub struct AppliedPolicyRecord {
    pub instance_id: String,
    pub core_id: u32,
    /// All LPs of the core, SMT siblings included.
    pub lp_indices: Vec<u16>,
    /// The override bytes written (the comparison baseline).
    pub override_bytes: Vec<u8>,
    /// RFC 3339 time of the change.
    pub applied_at: String,
}

/// The file name of the applied-policy record.
pub open spec fn applied_record_file() -> Seq<char> {
    "gpu-applied.json"@
}

/// Path of the applied-policy record under `config_dir`.
pub fn applied_record_path(config_dir: &str) -> (p: String)
    ensures
        p@ == joined(config_dir@, applied_record_file()),
{
    join_path(config_dir, "gpu-applied.json")
}

/// Drift of the applied policy: `record` is `None` when no usable record was
/// loaded and `current` when the adapter's policy could not be read (both
/// give `NotTracked`); otherwise `Match` exactly when the registry holds the
/// single-processor policy with the recorded override bytes.
pub fn check_policy_drift_at(record: Option<&AppliedPolicyRecord>, current: Option<&AffinityPolicy>) -> (d: DriftStatus)
    ensures
        d == match (record, current) {
            (Some(r), Some(c)) => if spec_policy_matches(pinned_policy(r.instance_id@, r.override_bytes@), c@) {
                DriftStatus::Match
            } else {
                DriftStatus::Drifted
            },
            _ => DriftStatus::NotTracked,
        },
{
    match (record, current) {
        (Some(r), Some(c)) => {
            let expected = AffinityPolicy::pinned(r.instance_id.as_str(), &r.override_bytes);
            if policy_matches(&expected, c) {
                DriftStatus::Match
            } else {
                DriftStatus::Drifted
            }
        },
        _ => DriftStatus::NotTracked,
    }
}

/// Shortest time between two drift checks, in milliseconds.
pub const DRIFT_CHECK_INTERVAL_MS: u64 = 15_000;

/// Whether a drift check is due at `now_ms` (milliseconds since the epoch):
/// only while no GPU operation runs (a value just written would read as
/// drift), and at most once per [`DRIFT_CHECK_INTERVAL_MS`] after the last
/// check at `last_ms` (0: never checked). A check that is not due keeps the
/// cached result and the time of the last check.
pub fn drift_check_due(gpu_idle: bool, last_ms: u64, now_ms: u64) -> (r: bool)
    ensures
        r == (gpu_idle && (last_ms == 0 || now_ms >= last_ms + DRIFT_CHECK_INTERVAL_MS)),
{
    if !gpu_idle {
        return false;
    }
    last_ms == 0 || now_ms.saturating_sub(last_ms) >= DRIFT_CHECK_INTERVAL_MS
}

} // verus!
