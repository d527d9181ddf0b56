//! The two outside primitives the library is built on: SHA-256 and the
//! operating system's randomness, plus small verified byte helpers.
use sha2::Digest;
use rand::RngCore;
use vstd::prelude::*;

verus! {

/// The SHA-256 digest of a byte string, as computed by the `sha2` crate.
pub uninterp spec fn sha256_spec(data: Seq<u8>) -> Seq<u8>;

/// Calls `sha2::Sha256::digest` on `data`.
///
/// Trusted: the 32 returned bytes are `sha256_spec` of the input bytes; the
/// digest depends on the input bytes alone.
#[verifier::external_body]
pub(crate) fn sha256_digest(data: &[u8]) -> (digest: [u8; 32])
    ensures
        digest@ == sha256_spec(data@),
{
    sha2::Sha256::digest(data).into()
}

/// Fills 32 bytes from `rand::thread_rng()` with `RngCore::fill_bytes`.
///
/// Trusted: nothing is claimed of the bytes; any value may come back, and two
/// calls may give different values.
#[verifier::external_body]
pub(crate) fn random_bytes32() -> (bytes: [u8; 32]) {
    let mut bytes = [0u8; 32];
    rand::thread_rng().fill_bytes(&mut bytes);
    bytes
}

/// Append the bytes of `b` to `out`.
pub fn append_bytes(out: &mut Vec<u8>, b: &[u8])
    ensures
        final(out)@ == old(out)@ + b@,
{
    let ghost start = out@;
    let mut j: usize = 0;
    while j < b.len()
        invariant
            j <= b.len(),
            out@ == start + b@.take(j as int),
        decreases b.len() - j,
    {
        out.push(b[j]);
        j = j + 1;
        assert(out@ =~= start + b@.take(j as int));
    }
    assert(b@.take(b.len() as int) =~= b@);
}

/// Concatenation of two byte strings.
pub fn concat_bytes(a: &[u8], b: &[u8]) -> (out: Vec<u8>)
    ensures
        out@ == a@ + b@,
{
    let mut out: Vec<u8> = Vec::new();
    append_bytes(&mut out, a);
    assert(out@ =~= a@);
    append_bytes(&mut out, b);
    out
}

/// The eight little-endian bytes of a `u64`.
pub open spec fn u64_le_bytes(v: u64) -> Seq<u8> {
    Seq::new(8, |k: int| (v >> (8 * k) as u64) as u8)
}

/// Append the eight little-endian bytes of `v` to `out`.
pub fn append_u64_le(out: &mut Vec<u8>, v: u64)
    ensures
        final(out)@ == old(out)@ + u64_le_bytes(v),
{
    let ghost start = out@;
    let mut k: u64 = 0;
    while k < 8
        invariant
            k <= 8,
            out@ == start + u64_le_bytes(v).take(k as int),
        decreases 8 - k,
    {
        out.push((v >> (8 * k)) as u8);
        k = k + 1;
        assert(out@ =~= start + u64_le_bytes(v).take(k as int));
    }
    assert(u64_le_bytes(v).take(8) =~= u64_le_bytes(v));
}

/// The four little-endian bytes of a `u32`.
pub open spec fn u32_le_bytes(v: u32) -> Seq<u8> {
    Seq::new(4, |k: int| (v >> (8 * k) as u32) as u8)
}

/// Append the four little-endian bytes of `v` to `out`.
pub fn append_u32_le(out: &mut Vec<u8>, v: u32)
    ensures
        final(out)@ == old(out)@ + u32_le_bytes(v),
{
    let ghost start = out@;
    let mut k: u32 = 0;
    while k < 4
        invariant
            k <= 4,
            out@ == start + u32_le_bytes(v).take(k as int),
        decreases 4 - k,
    {
        out.push((v >> (8 * k)) as u8);
        k = k + 1;
        assert(out@ =~= start + u32_le_bytes(v).take(k as int));
    }
    assert(u32_le_bytes(v).take(4) =~= u32_le_bytes(v));
}

/// The number that four bytes encode in little-endian order.
pub open spec fn le_u32_value(b: Seq<u8>) -> int {
    b[0] + 256 * b[1] + 65536 * b[2] + 16777216 * b[3]
}

/// The number that eight bytes encode in little-endian order.
pub open spec fn le_u64_value(b: Seq<u8>) -> int {
    le_u32_value(b) + 4294967296 * le_u32_value(b.subrange(4, 8))
}

/// Splitting off the low byte of `v >> s`.
proof fn lemma_u64_shift_step(v: u64, s: u64)
    requires
        s <= 48,
    ensures
        (v >> s) as int == ((v >> s) as u8) as int + 256 * (v >> (s + 8) as u64) as int,
{
    let x: u64 = v >> s;
    let t: u64 = (s + 8) as u64;
    assert(((v >> s) as u8) as u64 == (v >> s) % 256) by (bit_vector);
    assert(v >> t == (v >> s) / 256) by (bit_vector)
        requires
            s <= 48,
            t == s + 8,
    ;
    assert(x as int == x % 256 + 256 * (x / 256));
}

/// Splitting off the low byte of `v >> s`.
proof fn lemma_u32_shift_step(v: u32, s: u32)
    requires
        s <= 16,
    ensures
        (v >> s) as int == ((v >> s) as u8) as int + 256 * (v >> (s + 8) as u32) as int,
{
    let x: u32 = v >> s;
    let t: u32 = (s + 8) as u32;
    assert(((v >> s) as u8) as u32 == (v >> s) % 256) by (bit_vector);
    assert(v >> t == (v >> s) / 256) by (bit_vector)
        requires
            s <= 16,
            t == s + 8,
    ;
    assert(x as int == x % 256 + 256 * (x / 256));
}

/// Reading back the little-endian bytes of a `u32` gives the number.
pub proof fn lemma_u32_le_bytes_decode(v: u32)
    ensures
        u32_le_bytes(v).len() == 4,
        le_u32_value(u32_le_bytes(v)) == v,
{
    let b = u32_le_bytes(v);
    lemma_u32_shift_step(v, 0);
    lemma_u32_shift_step(v, 8);
    lemma_u32_shift_step(v, 16);
    assert(v >> 0u32 == v) by (bit_vector);
    assert((v >> 24u32) as u8 as u32 == v >> 24u32) by (bit_vector);
    assert(b[0] == (v >> 0u32) as u8);
    assert(b[1] == (v >> 8u32) as u8);
    assert(b[2] == (v >> 16u32) as u8);
    assert(b[3] == (v >> 24u32) as u8);
}

/// Reading back the little-endian bytes of a `u64` gives the number.
pub proof fn lemma_u64_le_bytes_decode(v: u64)
    ensures
        u64_le_bytes(v).len() == 8,
        le_u64_value(u64_le_bytes(v)) == v,
{
    let b = u64_le_bytes(v);
    lemma_u64_shift_step(v, 0);
    lemma_u64_shift_step(v, 8);
    lemma_u64_shift_step(v, 16);
    lemma_u64_shift_step(v, 24);
    lemma_u64_shift_step(v, 32);
    lemma_u64_shift_step(v, 40);
    lemma_u64_shift_step(v, 48);
    assert(v >> 0u64 == v) by (bit_vector);
    assert((v >> 56u64) as u8 as u64 == v >> 56u64) by (bit_vector);
    assert(b[0] == (v >> 0u64) as u8);
    assert(b[1] == (v >> 8u64) as u8);
    assert(b[2] == (v >> 16u64) as u8);
    assert(b[3] == (v >> 24u64) as u8);
    assert(b[4] == (v >> 32u64) as u8);
    assert(b[5] == (v >> 40u64) as u8);
    assert(b[6] == (v >> 48u64) as u8);
    assert(b[7] == (v >> 56u64) as u8);
    let hi = b.subrange(4, 8);
    assert(hi[0] == b[4] && hi[1] == b[5] && hi[2] == b[6] && hi[3] == b[7]);
}

/// Byte-wise equality of two 32-byte arrays.
pub fn bytes32_eq(a: &[u8; 32], b: &[u8; 32]) -> (eq: bool)
    ensures
        eq == (a@ == b@),
{
    let mut i: usize = 0;
    while i < 32
        invariant
            i <= 32,
            forall|k: int| 0 <= k < i ==> a@[k] == b@[k],
        decreases 32 - i,
    {
        if a[i] != b[i] {
            return false;
        }
        i = i + 1;
    }
    assert(a@ =~= b@);
    true
}

} // verus!
