//! SHA-256 digests in lowercase hexadecimal.
use vstd::prelude::*;
use sha2::Digest;

verus! {

/// The SHA-256 digest of `data` (FIPS 180-4), as computed by the `sha2` crate.
pub uninterp spec fn sha256(data: Seq<u8>) -> Seq<u8>;

/// Calls `sha2::Sha256::digest` (the `Digest` trait of the `digest` crate) on
/// `data`. Trusted: the bytes returned are the digest named [`sha256`] of the
/// input, and there are 32 of them (the type's fixed output size `U32`).
#[verifier::external_body]
fn sha256_digest(data: &[u8]) -> (d: Vec<u8>)
    ensures
        d@ == sha256(data@),
        d@.len() == 32,
{
    sha2::Sha256::digest(data).to_vec()
}

/// The lowercase hexadecimal digit of a nibble.
pub open spec fn hex_digit(n: int) -> char {
    if n < 10 {
        ((n + 48) as u8) as char
    } else {
        ((n + 87) as u8) as char
    }
}

/// Lowercase hexadecimal text of bytes, two digits per byte, high nibble first.
pub open spec fn hex(b: Seq<u8>) -> Seq<char>
    decreases b.len(),
{
    if b.len() == 0 {
        Seq::empty()
    } else {
        hex(b.drop_last()) + seq![hex_digit(b.last() as int / 16), hex_digit(b.last() as int % 16)]
    }
}

fn hex_char(n: u8) -> (c: char)
    requires
        n < 16,
    ensures
        c == hex_digit(n as int),
{
    if n < 10 {
        (n + 48) as char
    } else {
        (n + 87) as char
    }
}

/// Lowercase hexadecimal text of `b` (what `format!("{:x}", digest)` gives).
pub fn to_hex(b: &Vec<u8>) -> (s: String)
    ensures
        s@ == hex(b@),
{
    let mut out = String::new();
    let mut i: usize = 0;
    proof {
        assert(b@.take(0) =~= Seq::<u8>::empty());
    }
    while i < b.len()
        invariant
            0 <= i <= b@.len(),
            out@ == hex(b@.take(i as int)),
        decreases b@.len() - i,
    {
        let hi = hex_char(b[i] / 16);
        let lo = hex_char(b[i] % 16);
        let ghost before = out@;
        push_char(&mut out, hi);
        push_char(&mut out, lo);
        proof {
            let t = b@.take(i + 1);
            assert(t.drop_last() =~= b@.take(i as int));
            assert(t.last() == b@[i as int]);
            assert(out@ =~= before + seq![hi, lo]);
        }
        i = i + 1;
    }
    proof {
        assert(b@.take(b@.len() as int) =~= b@);
    }
    out
}

/// Calls `String::push`. Trusted: the character is appended at the end
/// (std: "Appends the given char to the end of this String").
#[verifier::external_body]
pub(crate) fn push_char(s: &mut String, c: char)
    ensures
        final(s)@ == old(s)@.push(c),
{
    s.push(c);
}

/// The SHA-256 of `data` in lowercase hexadecimal (64 characters).
pub fn sha256_hex(data: &[u8]) -> (s: String)
    ensures
        s@ == hex(sha256(data@)),
{
    let d = sha256_digest(data);
    to_hex(&d)
}

} // verus!
