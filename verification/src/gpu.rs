//! Registry values of a display adapter's interrupt policy, as read and written
//! by the GPU back end: `DevicePolicy`, `AssignmentSetOverride`, `MSISupported`.
use vstd::prelude::*;

verus! {

/// `REG_BINARY`.
pub const REG_BINARY: u32 = 3;
/// `REG_DWORD`.
pub const REG_DWORD: u32 = 4;
/// `DevicePolicy` value that pins interrupts to the `AssignmentSetOverride` set
/// (`IrqPolicySpecifiedProcessors`).
pub const DEVICE_POLICY_SINGLE_PROCESSOR: u32 = 4;

/// One registry value as found: present or absent, its type and raw bytes.
#[derive(Clone, Debug)]
pub struct RegistryValueSnapshot {
    pub present: bool,
    pub value_type: Option<u32>,
    pub bytes: Option<Vec<u8>>,
}

/// The mathematical value of a registry value.
pub type RegView = (bool, Option<u32>, Option<Seq<u8>>);

/// The bytes of an optional byte vector.
pub open spec fn opt_bytes(b: Option<Vec<u8>>) -> Option<Seq<u8>> {
    match b {
        Some(v) => Some(v@),
        None => None,
    }
}

impl View for RegistryValueSnapshot {
    type V = RegView;

    open spec fn view(&self) -> RegView {
        (self.present, self.value_type, opt_bytes(self.bytes))
    }
}

/// Little-endian bytes of a DWORD.
pub open spec fn dword_bytes(v: u32) -> Seq<u8> {
    seq![(v & 0xff) as u8, ((v >> 8) & 0xff) as u8, ((v >> 16) & 0xff) as u8, ((v >> 24) & 0xff) as u8]
}

/// The DWORD four little-endian bytes denote.
pub open spec fn dword_of(b: Seq<u8>) -> int {
    b[0] + 256 * b[1] + 65536 * b[2] + 16777216 * b[3]
}

/// A present `REG_DWORD` value.
pub open spec fn dword_view(v: u32) -> RegView {
    (true, Some(REG_DWORD), Some(dword_bytes(v)))
}

/// A present `REG_BINARY` value.
pub open spec fn binary_view(b: Seq<u8>) -> RegView {
    (true, Some(REG_BINARY), Some(b))
}

/// The DWORD a value holds: present, of type `REG_DWORD` and four bytes long.
pub open spec fn spec_as_dword(r: RegView) -> Option<u32> {
    match r.2 {
        Some(b) => if r.0 && r.1 == Some(REG_DWORD) && b.len() == 4 {
            Some(dword_of(b) as u32)
        } else {
            None
        },
        None => None,
    }
}

/// Copies a byte vector.
pub fn copy_bytes(v: &Vec<u8>) -> (r: Vec<u8>)
    ensures
        r@ == v@,
{
    let mut out: Vec<u8> = Vec::new();
    let mut i: usize = 0;
    while i < v.len()
        invariant
            0 <= i <= v@.len(),
            out@ == v@.take(i as int),
        decreases v@.len() - i,
    {
        out.push(v[i]);
        i = i + 1;
        assert(out@ =~= v@.take(i as int));
    }
    assert(v@.take(v@.len() as int) =~= v@);
    out
}

/// Whether two byte vectors hold the same bytes.
pub fn same_bytes(a: &Vec<u8>, b: &Vec<u8>) -> (r: bool)
    ensures
        r == (a@ == b@),
{
    if a.len() != b.len() {
        return false;
    }
    let mut i: usize = 0;
    while i < a.len()
        invariant
            a@.len() == b@.len(),
            0 <= i <= a@.len(),
            forall|k: int| 0 <= k < i ==> a@[k] == b@[k],
        decreases a@.len() - i,
    {
        if a[i] != b[i] {
            return false;
        }
        i = i + 1;
    }
    assert(a@ =~= b@);
    true
}

impl RegistryValueSnapshot {
    /// A present `REG_DWORD` holding `v`.
    pub fn dword(v: u32) -> (r: Self)
        ensures
            r@ == dword_view(v),
    {
        let mut b: Vec<u8> = Vec::new();
        b.push((v & 0xff) as u8);
        b.push(((v >> 8) & 0xff) as u8);
        b.push(((v >> 16) & 0xff) as u8);
        b.push(((v >> 24) & 0xff) as u8);
        assert(b@ =~= dword_bytes(v));
        RegistryValueSnapshot { present: true, value_type: Some(REG_DWORD), bytes: Some(b) }
    }

    /// A present `REG_BINARY` holding `bytes`.
    pub fn binary(bytes: Vec<u8>) -> (r: Self)
        ensures
            r@ == binary_view(bytes@),
    {
        RegistryValueSnapshot { present: true, value_type: Some(REG_BINARY), bytes: Some(bytes) }
    }

    /// The DWORD held, if the value is a present four-byte `REG_DWORD`.
    pub fn as_dword(&self) -> (r: Option<u32>)
        ensures
            r == spec_as_dword(self@),
    {
        if !self.present || self.value_type != Some(REG_DWORD) {
            return None;
        }
        match &self.bytes {
            Some(b) => {
                if b.len() != 4 {
                    return None;
                }
                let v: u32 = b[0] as u32 + 256 * (b[1] as u32) + 65536 * (b[2] as u32)
                    + 16777216 * (b[3] as u32);
                Some(v)
            },
            None => None,
        }
    }

    /// A copy of this value.
    pub fn duplicate(&self) -> (r: Self)
        ensures
            r@ == self@,
    {
        let bytes = match &self.bytes {
            Some(b) => Some(copy_bytes(b)),
            None => None,
        };
        RegistryValueSnapshot { present: self.present, value_type: self.value_type, bytes }
    }

    /// Whether two values are identical (presence, type and bytes).
    pub fn same_as(&self, other: &Self) -> (r: bool)
        ensures
            r == (self@ == other@),
    {
        if self.present != other.present || self.value_type != other.value_type {
            return false;
        }
        match (&self.bytes, &other.bytes) {
            (Some(a), Some(b)) => same_bytes(a, b),
            (None, None) => true,
            _ => false,
        }
    }
}

/// Law: a DWORD value reads back as the number written.
pub proof fn law_dword_roundtrip(v: u32)
    ensures
        spec_as_dword(dword_view(v)) == Some(v),
{
    let b = dword_bytes(v);
    assert(v == (v & 0xff) + 256 * ((v >> 8) & 0xff) + 65536 * ((v >> 16) & 0xff)
        + 16777216 * ((v >> 24) & 0xff)) by (bit_vector);
    assert((v & 0xff) < 256 && ((v >> 8) & 0xff) < 256 && ((v >> 16) & 0xff) < 256
        && ((v >> 24) & 0xff) < 256) by (bit_vector);
    assert(b[0] == (v & 0xff) && b[1] == ((v >> 8) & 0xff) && b[2] == ((v >> 16) & 0xff)
        && b[3] == ((v >> 24) & 0xff));
}

/// An adapter's interrupt policy: its instance id and the two policy values.
#[derive(Clone, Debug)]
pub struct AffinityPolicy {
    pub instance_id: String,
    pub device_policy: RegistryValueSnapshot,
    pub assignment_set_override: RegistryValueSnapshot,
}

/// The mathematical value of a policy.
pub type PolicyView = (Seq<char>, RegView, RegView);

impl View for AffinityPolicy {
    type V = PolicyView;

    open spec fn view(&self) -> PolicyView {
        (self.instance_id@, self.device_policy@, self.assignment_set_override@)
    }
}

/// Whether a policy holds the same two values as another (the instance id is
/// not compared).
pub open spec fn spec_policy_matches(a: PolicyView, b: PolicyView) -> bool {
    a.1 == b.1 && a.2 == b.2
}

/// The single-processor policy pinning `instance` to the LPs of `bytes`.
pub open spec fn pinned_policy(instance: Seq<char>, bytes: Seq<u8>) -> PolicyView {
    (instance, dword_view(DEVICE_POLICY_SINGLE_PROCESSOR), binary_view(bytes))
}

impl AffinityPolicy {
    /// The single-processor policy pinning `instance_id` to the LPs of `bytes`.
    pub fn pinned(instance_id: &str, bytes: &Vec<u8>) -> (r: Self)
        ensures
            r@ == pinned_policy(instance_id@, bytes@),
    {
        AffinityPolicy {
            instance_id: instance_id.to_owned(),
            device_policy: RegistryValueSnapshot::dword(DEVICE_POLICY_SINGLE_PROCESSOR),
            assignment_set_override: RegistryValueSnapshot::binary(copy_bytes(bytes)),
        }
    }

    /// A copy of this policy.
    pub fn duplicate(&self) -> (r: Self)
        ensures
            r@ == self@,
    {
        AffinityPolicy {
            instance_id: self.instance_id.clone(),
            device_policy: self.device_policy.duplicate(),
            assignment_set_override: self.assignment_set_override.duplicate(),
        }
    }
}

/// Whether `current` holds the same two values as `expected`.
pub fn policy_matches(expected: &AffinityPolicy, current: &AffinityPolicy) -> (r: bool)
    ensures
        r == spec_policy_matches(expected@, current@),
{
    expected.device_policy.same_as(&current.device_policy)
        && expected.assignment_set_override.same_as(&current.assignment_set_override)
}

/// Whether a snapshot may be written back: its `DevicePolicy` is absent or a
/// present DWORD. The driver reads `DevicePolicy` only as a DWORD, so a
/// snapshot holding any other type is refused before anything is written.
pub open spec fn spec_restorable(p: PolicyView) -> bool {
    !p.1.0 || spec_as_dword(p.1) is Some
}

impl AffinityPolicy {
    /// Whether this snapshot may be written back (see [`spec_restorable`]).
    pub fn restorable(&self) -> (r: bool)
        ensures
            r == spec_restorable(self@),
    {
        !self.device_policy.present || self.device_policy.as_dword().is_some()
    }
}

} // verus!
