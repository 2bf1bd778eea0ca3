//! LP affinity masks: the 64-bit word of a set of LPs and its trimmed
//! little-endian byte encoding (the registry's `AssignmentSetOverride`).
use vstd::prelude::*;
use vstd::arithmetic::power2::pow2;

verus! {

/// The word with bit `lp` set for every LP of `lps`.
pub open spec fn lp_mask(lps: Seq<u32>) -> u64
    decreases lps.len(),
{
    if lps.len() == 0 {
        0
    } else {
        lp_mask(lps.drop_last()) | (1u64 << (lps.last() as u64))
    }
}

/// Little-endian bytes of `v` without trailing zero bytes (empty for 0).
pub open spec fn le_trimmed(v: u64) -> Seq<u8>
    decreases v,
{
    if v == 0 {
        Seq::empty()
    } else {
        proof {
            lemma_shr8_decreases(v);
        }
        seq![(v & 0xff) as u8] + le_trimmed(v >> 8)
    }
}

/// The number a little-endian byte string denotes.
pub open spec fn le_value(bytes: Seq<u8>) -> nat
    decreases bytes.len(),
{
    if bytes.len() == 0 {
        0
    } else {
        bytes[0] as nat + 256 * le_value(bytes.drop_first())
    }
}

/// `256^n`.
pub open spec fn pow256(n: nat) -> nat
    decreases n,
{
    if n == 0 {
        1
    } else {
        256 * pow256((n - 1) as nat)
    }
}

pub proof fn lemma_shr8_decreases(v: u64)
    requires
        v != 0,
    ensures
        v >> 8 < v,
{
    assert(v != 0 ==> v >> 8 < v) by (bit_vector);
}

proof fn lemma_or_bit(a: u64, l: u64, k: u64)
    requires
        l < 64,
        k < 64,
    ensures
        (((a | (1u64 << l)) >> k) & 1 == 1) <==> (((a >> k) & 1 == 1) || k == l),
{
    assert(l < 64 && k < 64 ==> ((((a | (1u64 << l)) >> k) & 1 == 1) <==> (((a >> k) & 1 == 1)
        || k == l))) by (bit_vector);
}

/// Bit `k` of the mask is set exactly when `k` is one of the LPs.
pub proof fn lemma_lp_mask_bits(lps: Seq<u32>)
    requires
        forall|i: int| 0 <= i < lps.len() ==> #[trigger] lps[i] < 64,
    ensures
        forall|k: u32| k < 64 ==> (((lp_mask(lps) >> k) & 1 == 1) <==> lps.contains(k)),
    decreases lps.len(),
{
    if lps.len() > 0 {
        let init = lps.drop_last();
        lemma_lp_mask_bits(init);
        assert forall|k: u32| k < 64 implies (((lp_mask(lps) >> k) & 1 == 1) <==> lps.contains(k)) by {
            lemma_or_bit(lp_mask(init), lps.last() as u64, k as u64);
            if lps.contains(k) && k != lps.last() {
                let i = choose|i: int| 0 <= i < lps.len() && lps[i] == k;
                assert(init[i] == k);
            }
            if init.contains(k) {
                let i = choose|i: int| 0 <= i < init.len() && init[i] == k;
                assert(lps[i] == k);
            }
            assert(lps[lps.len() - 1] == lps.last());
        }
    } else {
        assert forall|k: u32| k < 64 implies !((lp_mask(lps) >> k) & 1 == 1) by {
            assert((0u64 >> k) & 1 == 0) by (bit_vector);
        }
    }
}

/// A non-empty LP set below 64 gives a non-zero mask.
pub proof fn lemma_lp_mask_nonzero(lps: Seq<u32>)
    requires
        lps.len() > 0,
        forall|i: int| 0 <= i < lps.len() ==> #[trigger] lps[i] < 64,
    ensures
        lp_mask(lps) != 0,
{
    lemma_lp_mask_bits(lps);
    let k = lps[0];
    assert(lps.contains(k));
    let m = lp_mask(lps);
    assert(((m >> k) & 1 == 1) ==> m != 0) by (bit_vector);
}

/// The mask of an LP list (every LP below 64).
pub fn mask_of_lps(lps: &Vec<u32>) -> (m: u64)
    requires
        forall|i: int| 0 <= i < lps@.len() ==> #[trigger] lps@[i] < 64,
    ensures
        m == lp_mask(lps@),
{
    let mut m: u64 = 0;
    let mut i: usize = 0;
    assert(lps@.take(0) =~= Seq::<u32>::empty());
    while i < lps.len()
        invariant
            0 <= i <= lps@.len(),
            forall|q: int| 0 <= q < lps@.len() ==> #[trigger] lps@[q] < 64,
            m == lp_mask(lps@.take(i as int)),
        decreases lps@.len() - i,
    {
        assert(lps@.take(i as int + 1).drop_last() =~= lps@.take(i as int));
        m = m | (1u64 << lps[i]);
        i = i + 1;
    }
    assert(lps@.take(lps@.len() as int) =~= lps@);
    m
}

/// Trimmed little-endian bytes of a word.
pub fn to_le_trimmed(v: u64) -> (bytes: Vec<u8>)
    ensures
        bytes@ == le_trimmed(v),
{
    let mut out: Vec<u8> = Vec::new();
    let mut rest = v;
    while rest != 0
        invariant
            out@ + le_trimmed(rest) == le_trimmed(v),
        decreases rest,
    {
        proof {
            lemma_shr8_decreases(rest);
        }
        let ghost before = out@;
        out.push((rest & 0xff) as u8);
        assert(out@ + le_trimmed(rest >> 8) =~= before + le_trimmed(rest));
        rest = rest >> 8;
    }
    assert(out@ =~= out@ + le_trimmed(0));
    out
}

/// Decoding the trimmed bytes gives the word back.
pub proof fn lemma_le_roundtrip(v: u64)
    ensures
        le_value(le_trimmed(v)) == v,
        le_trimmed(v).len() <= 8,
        le_trimmed(v).len() == 0 <==> v == 0,
    decreases v,
{
    if v != 0 {
        lemma_shr8_decreases(v);
        lemma_le_roundtrip(v >> 8);
        let t = le_trimmed(v);
        assert(t.drop_first() =~= le_trimmed(v >> 8));
        assert(v == (v & 0xff) + 256 * (v >> 8)) by (bit_vector);
        assert((v & 0xff) < 256) by (bit_vector);
        assert(t[0] as nat == (v & 0xff) as nat);
        assert((v >> 8) != 0 ==> v >= 256) by (bit_vector);
        assert(v < 256 ==> (v >> 8) == 0) by (bit_vector);
    }
    assert(pow256(8) == 0x1_0000_0000_0000_0000) by {
        reveal_with_fuel(pow256, 9);
    }
    lemma_le_len_bound(v, 8);
}

/// A word below `256^n` encodes in at most `n` bytes.
/// The trimmed encoding of a nonzero word ends in a nonzero byte.
pub proof fn lemma_le_last_nonzero(v: u64)
    requires
        v != 0,
    ensures
        le_trimmed(v).len() >= 1,
        le_trimmed(v).last() != 0,
    decreases v,
{
    lemma_shr8_decreases(v);
    let rest = le_trimmed(v >> 8);
    assert(le_trimmed(v) == seq![(v & 0xff) as u8] + rest);
    if v >> 8 == 0 {
        assert(v != 0 && v >> 8 == 0 ==> ((v & 0xff) as u8) != 0) by (bit_vector);
        assert(rest.len() == 0);
        assert(le_trimmed(v).last() == (v & 0xff) as u8);
    } else {
        lemma_le_last_nonzero(v >> 8);
        assert(le_trimmed(v).last() == rest.last());
    }
}

pub proof fn lemma_le_len_bound(w: u64, n: nat)
    requires
        w < pow256(n),
    ensures
        le_trimmed(w).len() <= n,
    decreases w,
{
    if w != 0 {
        lemma_shr8_decreases(w);
        assert(n > 0);
        vstd::bits::lemma_u64_shr_is_div(w, 8);
        vstd::arithmetic::power2::lemma2_to64();
        let m = (n - 1) as nat;
        lemma_pow256_pos(m);
        assert(w / 256 < pow256(m)) by (nonlinear_arith)
            requires w < 256 * pow256(m), pow256(m) >= 1;
        lemma_le_len_bound(w >> 8, m);
    }
}

/// `256^n >= 1`.
pub proof fn lemma_pow256_pos(n: nat)
    ensures
        pow256(n) >= 1,
    decreases n,
{
    if n > 0 {
        lemma_pow256_pos((n - 1) as nat);
    }
}

/// Bytes of a single-LP mask: bit `lp` only.
pub fn single_lp_mask_bytes(lp: u32) -> (bytes: Vec<u8>)
    requires
        lp < 64,
    ensures
        bytes@ == le_trimmed(1u64 << (lp as u64)),
{
    to_le_trimmed(1u64 << lp)
}

} // verus!

verus! {

/// The LP of a single-bit little-endian mask: `Some(k)` when the bytes are 1 to
/// 8 long and denote `2^k` (k < 64), `None` otherwise.
pub open spec fn spec_mask_lp(bytes: Option<Seq<u8>>) -> Option<u32> {
    match bytes {
        None => None,
        Some(s) => if s.len() == 0 || s.len() > 8 {
            None
        } else if exists|k: u32| k < 64 && le_value(s) == pow2(k as nat) {
            Some(choose|k: u32| k < 64 && le_value(s) == pow2(k as nat))
        } else {
            None
        },
    }
}

/// `2^a == 2^b` only for `a == b`.
pub proof fn lemma_pow2_injective(a: nat, b: nat)
    requires
        pow2(a) == pow2(b),
    ensures
        a == b,
{
    if a < b {
        vstd::arithmetic::power2::lemma_pow2_strictly_increases(a, b);
    } else if b < a {
        vstd::arithmetic::power2::lemma_pow2_strictly_increases(b, a);
    }
}

/// A little-endian string of `n` bytes denotes less than `256^n`.
pub proof fn lemma_le_value_bound(s: Seq<u8>)
    ensures
        le_value(s) < pow256(s.len()),
    decreases s.len(),
{
    if s.len() > 0 {
        lemma_le_value_bound(s.drop_first());
        let r = le_value(s.drop_first());
        let p = pow256((s.len() - 1) as nat);
        assert(s[0] as nat + 256 * r < 256 * p) by (nonlinear_arith)
            requires s[0] < 256, r < p, r >= 0;
    }
}

/// Reads a single-LP mask back to its LP index (see [`spec_mask_lp`]).
pub fn mask_bytes_to_lp(bytes: Option<&[u8]>) -> (r: Option<u32>)
    ensures
        r == spec_mask_lp(match bytes {
            Some(b) => Some(b@),
            None => None,
        }),
{
    let b = match bytes {
        None => return None,
        Some(b) => b,
    };
    if b.len() == 0 || b.len() > 8 {
        return None;
    }
    let ghost s = b@;
    assert(match bytes {
        Some(bb) => Some(bb@),
        None => None,
    } == Some(s));
    let mut m: u64 = 0;
    let mut i: usize = b.len();
    assert(s.skip(s.len() as int) =~= Seq::<u8>::empty());
    proof {
        reveal_with_fuel(pow256, 9);
    }
    while i > 0
        invariant
            s == b@,
            0 <= i <= s.len() <= 8,
            s.len() > 0,
            m == le_value(s.skip(i as int)),
            pow256(8) == 0x1_0000_0000_0000_0000,
        decreases i,
    {
        i = i - 1;
        proof {
            let t = s.skip(i as int);
            assert(t.drop_first() =~= s.skip(i as int + 1));
            lemma_le_value_bound(s.skip(i as int + 1));
            lemma_pow256_monotone((s.len() - i - 1) as nat, 7);
            assert(256 * (m as int) + 255 < 0x1_0000_0000_0000_0000) by (nonlinear_arith)
                requires m < pow256(7), pow256(7) * 256 == pow256(8), pow256(8) == 0x1_0000_0000_0000_0000;
        }
        m = b[i] as u64 + 256 * m;
    }
    assert(s.skip(0) =~= s);
    let mut k: u32 = 0;
    while k < 64
        invariant
            0 <= k <= 64,
            0 < s.len() <= 8,
            (match bytes {
                Some(bb) => Some(bb@),
                None => None,
            }) == Some(s),
            m == le_value(s),
            forall|q: u32| q < k ==> le_value(s) != pow2(q as nat),
        decreases 64 - k,
    {
        proof {
            vstd::bits::lemma_u64_pow2_no_overflow(k as nat);
            vstd::bits::lemma_u64_shl_is_mul(1, k as u64);
        }
        let bit: u64 = 1u64 << (k as u64);
        if m == bit {
            proof {
                assert(bit == pow2(k as nat));
                lemma_mask_lp_of(s, k);
            }
            return Some(k);
        }
        k = k + 1;
    }
    None
}

/// A 1..8-byte string denoting `2^k` reads back as `k`.
pub proof fn lemma_mask_lp_of(s: Seq<u8>, k: u32)
    requires
        0 < s.len() <= 8,
        k < 64,
        le_value(s) == pow2(k as nat),
    ensures
        spec_mask_lp(Some(s)) == Some(k),
{
    assert(exists|q: u32| q < 64 && le_value(s) == pow2(q as nat)) by {
        assert(k < 64 && le_value(s) == pow2(k as nat));
    }
    let c = choose|q: u32| q < 64 && le_value(s) == pow2(q as nat);
    lemma_pow2_injective(c as nat, k as nat);
}

/// `256^a <= 256^b` for `a <= b`.
pub proof fn lemma_pow256_monotone(a: nat, b: nat)
    requires
        a <= b,
    ensures
        pow256(a) <= pow256(b),
    decreases b - a,
{
    if a < b {
        lemma_pow256_monotone(a, (b - 1) as nat);
        lemma_pow256_pos((b - 1) as nat);
    }
}

/// Law: the bytes written for a single LP read back as that LP.
pub proof fn law_single_lp_mask_roundtrip(lp: u32)
    requires
        lp < 64,
    ensures
        spec_mask_lp(Some(le_trimmed(1u64 << (lp as u64)))) == Some(lp),
{
    let v = 1u64 << (lp as u64);
    vstd::bits::lemma_u64_pow2_no_overflow(lp as nat);
    vstd::bits::lemma_u64_shl_is_mul(1, lp as u64);
    lemma_le_roundtrip(v);
    assert(v != 0);
    let s = le_trimmed(v);
    assert(le_value(s) == pow2(lp as nat));
    lemma_mask_lp_of(s, lp);
}

} // verus!
