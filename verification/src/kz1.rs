//! KZ1 commitment-to-knowledge proof system over hash-based Pedersen-style
//! commitments.
use crate::errors::Result;
use crate::primitives::{
    append_bytes, append_u64_le, bytes32_eq, le_u64_value, lemma_u64_le_bytes_decode,
    random_bytes32, sha256_digest, sha256_spec, u64_le_bytes,
};
use vstd::prelude::*;
use vstd::std_specs::cmp::PartialEqSpecImpl;

verus! {

/// Byte `i` of `value` read as a 256-bit little-endian integer: the value's
/// own eight bytes, then zeros.
pub open spec fn value_byte(value: u64, i: int) -> u8 {
    if 0 <= i < 8 {
        (value >> (8 * i) as u64) as u8
    } else {
        0
    }
}

/// `value` as a 32-byte little-endian string.
pub open spec fn value_bytes32(value: u64) -> Seq<u8> {
    Seq::new(32, |i: int| value_byte(value, i))
}

/// The label "G" as bytes.
pub open spec fn label_g() -> Seq<u8> {
    seq![71u8]
}

/// The label "H" as bytes.
pub open spec fn label_h() -> Seq<u8> {
    seq![72u8]
}

/// The label "KZ1" as bytes.
pub open spec fn label_kz1() -> Seq<u8> {
    seq![75u8, 90u8, 49u8]
}

/// The commitment base: `SHA-256(SHA-256("G") || SHA-256("H"))`.
pub open spec fn commitment_base() -> Seq<u8> {
    sha256_spec(sha256_spec(label_g()) + sha256_spec(label_h()))
}

/// The commitment to `value` with blinding bytes `randomness`: byte `i` is
/// `base[i] ^ randomness[i] ^ value_byte(value, i)`.
pub open spec fn pedersen_bytes(value: u64, randomness: Seq<u8>) -> Seq<u8> {
    Seq::new(32, |i: int| commitment_base()[i] ^ randomness[i] ^ value_byte(value, i))
}

/// Byte-wise XOR of two 32-byte strings.
pub open spec fn xor_bytes(a: Seq<u8>, b: Seq<u8>) -> Seq<u8> {
    Seq::new(32, |i: int| a[i] ^ b[i])
}

/// Byte-wise product modulo 256 of two 32-byte strings.
pub open spec fn mul_bytes(a: Seq<u8>, b: Seq<u8>) -> Seq<u8> {
    Seq::new(32, |i: int| ((a[i] as nat * b[i] as nat) % 256) as u8)
}

/// Byte-wise AND of two 32-byte strings: the product of scalars read as
/// vectors of 256 bits over GF(2), whose sum is XOR.
pub open spec fn and_bytes(a: Seq<u8>, b: Seq<u8>) -> Seq<u8> {
    Seq::new(32, |i: int| a[i] & b[i])
}

/// The announcement of the nonces: the commitment to `v_prime` with
/// blinding `r_prime`, `base ^ r_prime ^ v_prime`.
pub open spec fn announcement_spec(r_prime: Seq<u8>, v_prime: Seq<u8>) -> Seq<u8> {
    Seq::new(32, |i: int| commitment_base()[i] ^ r_prime[i] ^ v_prime[i])
}

/// The Fiat-Shamir challenge:
/// `SHA-256(commitment || announcement || message || "KZ1")`.
pub open spec fn challenge_spec(commitment: Seq<u8>, announcement: Seq<u8>, message: Seq<u8>) -> Seq<
    u8,
> {
    sha256_spec(commitment + announcement + message + label_kz1())
}

/// The announcement recomputed by verification from the responses:
/// `base ^ response_r ^ response_v ^ (challenge & (commitment ^ base))`.
pub open spec fn recompose_spec(
    response_r: Seq<u8>,
    response_v: Seq<u8>,
    challenge: Seq<u8>,
    commitment: Seq<u8>,
) -> Seq<u8> {
    Seq::new(
        32,
        |i: int|
            commitment_base()[i] ^ response_r[i] ^ response_v[i] ^ (challenge[i] & (commitment[i]
                ^ commitment_base()[i])),
    )
}

/// `proof` is accepted for `message`: the challenge is the hash of the
/// commitment, the announcement recomputed from the responses, and the
/// message.
pub open spec fn kz1_accepts(proof: KZ1Proof, message: Seq<u8>) -> bool {
    challenge_spec(
        proof.commitment.bytes@,
        recompose_spec(
            proof.response_r@,
            proof.response_v@,
            proof.challenge@,
            proof.commitment.bytes@,
        ),
        message,
    ) == proof.challenge@
}

/// `proof` is the KZ1 proof of `value` with blinding `randomness` for
/// `message`, made with the nonces `r_prime` and `v_prime`:
/// `response_r = r_prime + challenge * randomness` and
/// `response_v = v_prime + challenge * value` in GF(2)^256.
pub open spec fn is_kz1_proof(
    proof: KZ1Proof,
    value: u64,
    randomness: Seq<u8>,
    message: Seq<u8>,
    r_prime: Seq<u8>,
    v_prime: Seq<u8>,
) -> bool {
    &&& proof.commitment.bytes@ == pedersen_bytes(value, randomness)
    &&& proof.challenge@ == challenge_spec(
        proof.commitment.bytes@,
        announcement_spec(r_prime, v_prime),
        message,
    )
    &&& proof.response_r@ == xor_bytes(r_prime, and_bytes(proof.challenge@, randomness))
    &&& proof.response_v@ == xor_bytes(v_prime, and_bytes(proof.challenge@, value_bytes32(value)))
}

/// The announcement that verification recomputes from a generated proof is
/// the announcement of its nonces.
proof fn lemma_recompose_generated(
    proof: KZ1Proof,
    value: u64,
    randomness: Seq<u8>,
    message: Seq<u8>,
    r_prime: Seq<u8>,
    v_prime: Seq<u8>,
)
    requires
        randomness.len() == 32,
        r_prime.len() == 32,
        v_prime.len() == 32,
        is_kz1_proof(proof, value, randomness, message, r_prime, v_prime),
    ensures
        recompose_spec(
            proof.response_r@,
            proof.response_v@,
            proof.challenge@,
            proof.commitment.bytes@,
        ) == announcement_spec(r_prime, v_prime),
{
    let base = commitment_base();
    let c = proof.commitment.bytes@;
    let e = proof.challenge@;
    let vb = value_bytes32(value);
    let rec = recompose_spec(proof.response_r@, proof.response_v@, e, c);
    let ann = announcement_spec(r_prime, v_prime);
    assert forall|i: int| 0 <= i < 32 implies #[trigger] rec[i] == ann[i] by {
        let b = base[i];
        let rr = randomness[i];
        let vv = vb[i];
        let rp = r_prime[i];
        let vp = v_prime[i];
        let ei = e[i];
        assert(c[i] == b ^ rr ^ vv);
        assert(proof.response_r@[i] == rp ^ (ei & rr));
        assert(proof.response_v@[i] == vp ^ (ei & vv));
        assert(b ^ (rp ^ (ei & rr)) ^ (vp ^ (ei & vv)) ^ (ei & ((b ^ rr ^ vv) ^ b)) == b ^ rp ^ vp)
            by (bit_vector);
    }
    assert(rec =~= ann);
}

/// Completeness: a proof made by `generate` for a message is accepted for
/// that message, whatever the value, blinding bytes and nonces.
pub proof fn lemma_generated_proof_verifies(
    proof: KZ1Proof,
    value: u64,
    randomness: Seq<u8>,
    message: Seq<u8>,
    r_prime: Seq<u8>,
    v_prime: Seq<u8>,
)
    requires
        randomness.len() == 32,
        r_prime.len() == 32,
        v_prime.len() == 32,
        is_kz1_proof(proof, value, randomness, message, r_prime, v_prime),
    ensures
        kz1_accepts(proof, message),
{
    lemma_recompose_generated(proof, value, randomness, message, r_prime, v_prime);
}

/// Binding to the message: if a proof generated for `message` is accepted
/// for a different message `other`, then two different inputs have the same
/// SHA-256 digest, namely the challenge inputs for the two messages.
pub proof fn lemma_proof_binds_message(
    proof: KZ1Proof,
    value: u64,
    randomness: Seq<u8>,
    message: Seq<u8>,
    other: Seq<u8>,
    r_prime: Seq<u8>,
    v_prime: Seq<u8>,
)
    requires
        randomness.len() == 32,
        r_prime.len() == 32,
        v_prime.len() == 32,
        is_kz1_proof(proof, value, randomness, message, r_prime, v_prime),
        kz1_accepts(proof, other),
        other != message,
    ensures
        ({
            let c = proof.commitment.bytes@;
            let t = announcement_spec(r_prime, v_prime);
            let x1 = c + t + message + label_kz1();
            let x2 = c + t + other + label_kz1();
            x1 != x2 && sha256_spec(x1) == sha256_spec(x2)
        }),
{
    lemma_recompose_generated(proof, value, randomness, message, r_prime, v_prime);
    let c = proof.commitment.bytes@;
    let t = announcement_spec(r_prime, v_prime);
    let x1 = c + t + message + label_kz1();
    let x2 = c + t + other + label_kz1();
    assert(sha256_spec(x1) == proof.challenge@);
    assert(sha256_spec(x2) == proof.challenge@);
    assert(c.len() == 32 && t.len() == 32);
    if x1 == x2 {
        assert(x1.len() == 64 + message.len() + 3);
        assert(x2.len() == 64 + other.len() + 3);
        assert(message.len() == other.len());
        assert forall|i: int| 0 <= i < message.len() implies message[i] == other[i] by {
            assert(x1[64 + i] == message[i]);
            assert(x2[64 + i] == other[i]);
        }
        assert(message =~= other);
    }
}

/// Commitments are position-wise in their inputs. Two commitments to the
/// same value differ, byte by byte, exactly as their blinding bytes do; two
/// commitments with the same blinding bytes differ in byte `i < 8` exactly
/// as the little-endian bytes of the two values do, and agree on bytes 8 to
/// 31.
pub proof fn lemma_commitment_differences(
    value: u64,
    other_value: u64,
    randomness: Seq<u8>,
    other_randomness: Seq<u8>,
)
    requires
        randomness.len() == 32,
        other_randomness.len() == 32,
    ensures
        pedersen_bytes(value, randomness).len() == 32,
        forall|i: int|
            0 <= i < 32 ==> #[trigger] (pedersen_bytes(value, randomness)[i] ^ pedersen_bytes(
                value,
                other_randomness,
            )[i]) == randomness[i] ^ other_randomness[i],
        forall|i: int|
            0 <= i < 8 ==> #[trigger] (pedersen_bytes(value, randomness)[i] ^ pedersen_bytes(
                other_value,
                randomness,
            )[i]) == u64_le_bytes(value)[i] ^ u64_le_bytes(other_value)[i],
        forall|i: int|
            8 <= i < 32 ==> #[trigger] pedersen_bytes(value, randomness)[i] == pedersen_bytes(
                other_value,
                randomness,
            )[i],
{
    let base = commitment_base();
    assert forall|i: int| 0 <= i < 32 implies #[trigger] (pedersen_bytes(value, randomness)[i]
        ^ pedersen_bytes(value, other_randomness)[i]) == randomness[i] ^ other_randomness[i] by {
        let b = base[i];
        let r1 = randomness[i];
        let r2 = other_randomness[i];
        let v = value_byte(value, i);
        assert((b ^ r1 ^ v) ^ (b ^ r2 ^ v) == r1 ^ r2) by (bit_vector);
    }
    assert forall|i: int| 0 <= i < 8 implies #[trigger] (pedersen_bytes(value, randomness)[i]
        ^ pedersen_bytes(other_value, randomness)[i]) == u64_le_bytes(value)[i] ^ u64_le_bytes(
        other_value,
    )[i] by {
        let b = base[i];
        let r = randomness[i];
        let v1 = value_byte(value, i);
        let v2 = value_byte(other_value, i);
        assert(v1 == u64_le_bytes(value)[i]);
        assert(v2 == u64_le_bytes(other_value)[i]);
        assert((b ^ r ^ v1) ^ (b ^ r ^ v2) == v1 ^ v2) by (bit_vector);
    }
}

/// Opening a commitment: XOR-ing byte `i` of the commitment to `value`
/// with byte `i` of the blinding bytes and byte `i` of the value's
/// little-endian encoding (zero past byte 7) leaves byte `i` of
/// `SHA-256(SHA-256("G") || SHA-256("H"))`.
pub proof fn lemma_commitment_opening(value: u64, randomness: Seq<u8>)
    requires
        randomness.len() == 32,
    ensures
        forall|i: int|
            0 <= i < 8 ==> #[trigger] (pedersen_bytes(value, randomness)[i] ^ randomness[i]
                ^ u64_le_bytes(value)[i]) == sha256_spec(
                sha256_spec(seq![71u8]) + sha256_spec(seq![72u8]),
            )[i],
        forall|i: int|
            8 <= i < 32 ==> #[trigger] (pedersen_bytes(value, randomness)[i] ^ randomness[i])
                == sha256_spec(sha256_spec(seq![71u8]) + sha256_spec(seq![72u8]))[i],
{
    let base = commitment_base();
    assert(base == sha256_spec(sha256_spec(seq![71u8]) + sha256_spec(seq![72u8])));
    assert forall|i: int| 0 <= i < 8 implies #[trigger] (pedersen_bytes(value, randomness)[i]
        ^ randomness[i] ^ u64_le_bytes(value)[i]) == base[i] by {
        let b = base[i];
        let r = randomness[i];
        let v = value_byte(value, i);
        assert(v == u64_le_bytes(value)[i]);
        assert((b ^ r ^ v) ^ r ^ v == b) by (bit_vector);
    }
    assert forall|i: int| 8 <= i < 32 implies #[trigger] (pedersen_bytes(value, randomness)[i]
        ^ randomness[i]) == base[i] by {
        let b = base[i];
        let r = randomness[i];
        assert((b ^ r ^ 0u8) ^ r == b) by (bit_vector);
    }
}

/// The responses of a KZ1 proof open the nonces: XOR-ing `response_r` with
/// the blinding nonce gives `challenge & randomness` byte by byte, and
/// XOR-ing `response_v` with the value nonce gives `challenge & value` over
/// the value's little-endian bytes (zero past byte 7).
pub proof fn lemma_proof_responses(
    proof: KZ1Proof,
    value: u64,
    randomness: Seq<u8>,
    message: Seq<u8>,
    r_prime: Seq<u8>,
    v_prime: Seq<u8>,
)
    requires
        randomness.len() == 32,
        r_prime.len() == 32,
        v_prime.len() == 32,
        is_kz1_proof(proof, value, randomness, message, r_prime, v_prime),
    ensures
        forall|i: int|
            0 <= i < 32 ==> #[trigger] (proof.response_r@[i] ^ r_prime[i]) == proof.challenge@[i]
                & randomness[i],
        forall|i: int|
            0 <= i < 8 ==> #[trigger] (proof.response_v@[i] ^ v_prime[i]) == proof.challenge@[i]
                & u64_le_bytes(value)[i],
        forall|i: int|
            8 <= i < 32 ==> #[trigger] proof.response_v@[i] == v_prime[i],
{
    let e = proof.challenge@;
    assert forall|i: int| 0 <= i < 32 implies #[trigger] (proof.response_r@[i] ^ r_prime[i])
        == e[i] & randomness[i] by {
        let rp = r_prime[i];
        let x = e[i] & randomness[i];
        assert(proof.response_r@[i] == rp ^ x);
        assert((rp ^ x) ^ rp == x) by (bit_vector);
    }
    assert forall|i: int| 0 <= i < 8 implies #[trigger] (proof.response_v@[i] ^ v_prime[i])
        == e[i] & u64_le_bytes(value)[i] by {
        let vp = v_prime[i];
        let x = e[i] & value_byte(value, i);
        assert(value_byte(value, i) == u64_le_bytes(value)[i]);
        assert(proof.response_v@[i] == vp ^ x);
        assert((vp ^ x) ^ vp == x) by (bit_vector);
    }
    assert forall|i: int| 8 <= i < 32 implies #[trigger] proof.response_v@[i] == v_prime[i] by {
        let vp = v_prime[i];
        let ei = e[i];
        assert(proof.response_v@[i] == vp ^ (ei & 0u8));
        assert(vp ^ (ei & 0u8) == vp) by (bit_vector);
    }
}

/// `proof` is a KZ1 proof of `value` with blinding `randomness` for
/// `message`, for some pair of 32-byte nonces.
pub open spec fn is_kz1_proof_for_some_nonces(
    proof: KZ1Proof,
    value: u64,
    randomness: Seq<u8>,
    message: Seq<u8>,
) -> bool {
    exists|r_prime: Seq<u8>, v_prime: Seq<u8>|
        #![trigger is_kz1_proof(proof, value, randomness, message, r_prime, v_prime)]
        r_prime.len() == 32 && v_prime.len() == 32 && is_kz1_proof(
            proof,
            value,
            randomness,
            message,
            r_prime,
            v_prime,
        )
}

/// Hash-based commitment to a value with a 32-byte blinding factor.
#[derive(Debug)]
pub struct PedersenCommitment {
    /// Commitment bytes.
    pub bytes: [u8; 32],
}

impl Clone for PedersenCommitment {
    fn clone(&self) -> (copy: Self)
        ensures
            copy == *self,
    {
        PedersenCommitment { bytes: self.bytes }
    }
}

impl PartialEq for PedersenCommitment {
    fn eq(&self, other: &Self) -> (same: bool) {
        bytes32_eq(&self.bytes, &other.bytes)
    }
}

impl PartialEqSpecImpl for PedersenCommitment {
    open spec fn obeys_eq_spec() -> bool {
        true
    }

    open spec fn eq_spec(&self, other: &Self) -> bool {
        self.bytes@ == other.bytes@
    }
}

/// SHA-256 of a label.
fn hash_generator(label: &[u8]) -> (h: [u8; 32])
    ensures
        h@ == sha256_spec(label@),
{
    sha256_digest(label)
}

/// The commitment base `SHA-256(SHA-256("G") || SHA-256("H"))`.
fn commitment_base_bytes() -> (base: [u8; 32])
    ensures
        base@ == commitment_base(),
{
    let label_h_bytes: [u8; 1] = [72u8];
    let label_g_bytes: [u8; 1] = [71u8];
    assert(label_h_bytes@ =~= label_h());
    assert(label_g_bytes@ =~= label_g());
    let h = hash_generator(&label_h_bytes);
    let g = hash_generator(&label_g_bytes);
    let mut input: Vec<u8> = Vec::new();
    append_bytes(&mut input, &g);
    append_bytes(&mut input, &h);
    assert(input@ =~= sha256_spec(label_g()) + sha256_spec(label_h()));
    sha256_digest(input.as_slice())
}

impl PedersenCommitment {
    /// Create a new commitment to `value` with blinding bytes `randomness`.
    pub fn new(value: u64, randomness: &[u8; 32]) -> (c: Self)
        ensures
            c.bytes@ == pedersen_bytes(value, randomness@),
    {
        let base = commitment_base_bytes();
        let mut result = [0u8; 32];
        let mut i: usize = 0;
        while i < 32
            invariant
                i <= 32,
                base@ == commitment_base(),
                forall|k: int|
                    0 <= k < i ==> #[trigger] result@[k] == pedersen_bytes(value, randomness@)[k],
            decreases 32 - i,
        {
            let vb: u8 = if i < 8 {
                (value >> ((i * 8) as u64)) as u8
            } else {
                0
            };
            assert(vb == value_byte(value, i as int));
            result[i] = base[i] ^ randomness[i] ^ vb;
            i = i + 1;
        }
        assert(result@ =~= pedersen_bytes(value, randomness@));
        PedersenCommitment { bytes: result }
    }

    /// Create a commitment (same as `new`).
    pub fn create(amount: u64, randomness: &[u8; 32]) -> (c: Self)
        ensures
            c.bytes@ == pedersen_bytes(amount, randomness@),
    {
        Self::new(amount, randomness)
    }
}

/// KZ1 non-interactive proof of knowledge of the opening of a commitment.
#[derive(Debug)]
pub struct KZ1Proof {
    /// Challenge scalar.
    pub challenge: [u8; 32],
    /// Blinding factor response.
    pub response_r: [u8; 32],
    /// Value response.
    pub response_v: [u8; 32],
    /// Public commitment being proven.
    pub commitment: PedersenCommitment,
}

impl Clone for KZ1Proof {
    fn clone(&self) -> (copy: Self)
        ensures
            copy == *self,
    {
        KZ1Proof {
            challenge: self.challenge,
            response_r: self.response_r,
            response_v: self.response_v,
            commitment: self.commitment.clone(),
        }
    }
}

impl KZ1Proof {
    /// Build the KZ1 proof of `value` and `randomness` for `message` with the
    /// given nonces.
    pub fn generate_with_nonces(
        value: u64,
        randomness: [u8; 32],
        message: &[u8],
        r_prime: [u8; 32],
        v_prime: [u8; 32],
    ) -> (proof: Self)
        ensures
            is_kz1_proof(proof, value, randomness@, message@, r_prime@, v_prime@),
    {
        let commitment = PedersenCommitment::new(value, &randomness);
        let base = commitment_base_bytes();
        let announcement = Self::scalar_add(&Self::scalar_add(&base, &r_prime), &v_prime);
        assert(announcement@ =~= announcement_spec(r_prime@, v_prime@));
        let challenge = Self::compute_challenge(&commitment, &announcement, message);
        let value_bytes = Self::value_bytes(value);
        let response_r = Self::scalar_add(&r_prime, &Self::scalar_mul(&challenge, &randomness));
        let response_v = Self::scalar_add(&v_prime, &Self::scalar_mul(&challenge, &value_bytes));
        KZ1Proof { challenge, response_r, response_v, commitment }
    }

    /// Generate a KZ1 proof with two fresh random nonces.
    pub fn generate(value: u64, randomness: [u8; 32], message: &[u8]) -> (proof: Result<Self>)
        ensures
            proof matches Ok(p) && is_kz1_proof_for_some_nonces(p, value, randomness@, message@)
                && kz1_accepts(p, message@),
    {
        let r_prime = Self::random_bytes();
        let v_prime = Self::random_bytes();
        let proof = Self::generate_with_nonces(value, randomness, message, r_prime, v_prime);
        assert(is_kz1_proof(proof, value, randomness@, message@, r_prime@, v_prime@));
        proof {
            lemma_generated_proof_verifies(
                proof,
                value,
                randomness@,
                message@,
                r_prime@,
                v_prime@,
            );
        }
        Ok(proof)
    }

    /// Verify the proof: recompute the announcement from the responses, the
    /// challenge and the commitment, and check that hashing it with the
    /// commitment and the message gives back the challenge.
    pub fn verify(&self, message: &[u8]) -> (valid: bool)
        ensures
            valid == kz1_accepts(*self, message@),
    {
        let recomposed = Self::recompose_commitment(
            &self.response_r,
            &self.response_v,
            &self.challenge,
            &self.commitment,
        );
        let challenge = Self::compute_challenge(&self.commitment, &recomposed, message);
        bytes32_eq(&challenge, &self.challenge)
    }

    /// 32 fresh random bytes.
    fn random_bytes() -> [u8; 32] {
        random_bytes32()
    }

    /// `value` as 32 little-endian bytes.
    fn value_bytes(value: u64) -> (bytes: [u8; 32])
        ensures
            bytes@ == value_bytes32(value),
    {
        let mut bytes = [0u8; 32];
        let mut i: usize = 0;
        while i < 8
            invariant
                i <= 8,
                forall|k: int| 0 <= k < i ==> #[trigger] bytes@[k] == value_byte(value, k),
                forall|k: int| 8 <= k < 32 ==> #[trigger] bytes@[k] == 0,
            decreases 8 - i,
        {
            bytes[i] = (value >> ((i * 8) as u64)) as u8;
            i = i + 1;
        }
        assert(bytes@ =~= value_bytes32(value));
        bytes
    }

    fn compute_challenge(
        commitment: &PedersenCommitment,
        announcement: &[u8; 32],
        message: &[u8],
    ) -> (challenge: [u8; 32])
        ensures
            challenge@ == challenge_spec(commitment.bytes@, announcement@, message@),
    {
        let label: [u8; 3] = [75u8, 90u8, 49u8];
        assert(label@ =~= label_kz1());
        let mut input: Vec<u8> = Vec::new();
        append_bytes(&mut input, &commitment.bytes);
        append_bytes(&mut input, announcement);
        append_bytes(&mut input, message);
        append_bytes(&mut input, &label);
        assert(input@ =~= commitment.bytes@ + announcement@ + message@ + label_kz1());
        sha256_digest(input.as_slice())
    }

    /// Byte-wise sum in GF(2)^256: bitwise XOR.
    fn scalar_add(a: &[u8; 32], b: &[u8; 32]) -> (sum: [u8; 32])
        ensures
            sum@ == xor_bytes(a@, b@),
    {
        let mut result = [0u8; 32];
        let mut i: usize = 0;
        while i < 32
            invariant
                i <= 32,
                forall|k: int| 0 <= k < i ==> #[trigger] result@[k] == a@[k] ^ b@[k],
            decreases 32 - i,
        {
            result[i] = a[i] ^ b[i];
            i = i + 1;
        }
        assert(result@ =~= xor_bytes(a@, b@));
        result
    }

    /// Byte-wise product in GF(2)^256: bitwise AND.
    fn scalar_mul(a: &[u8; 32], b: &[u8; 32]) -> (product: [u8; 32])
        ensures
            product@ == and_bytes(a@, b@),
    {
        let mut result = [0u8; 32];
        let mut i: usize = 0;
        while i < 32
            invariant
                i <= 32,
                forall|k: int| 0 <= k < i ==> #[trigger] result@[k] == a@[k] & b@[k],
            decreases 32 - i,
        {
            result[i] = a[i] & b[i];
            i = i + 1;
        }
        assert(result@ =~= and_bytes(a@, b@));
        result
    }

    /// The announcement recomputed from the responses:
    /// `base ^ r_resp ^ v_resp ^ (challenge & (commitment ^ base))`.
    fn recompose_commitment(
        r_resp: &[u8; 32],
        v_resp: &[u8; 32],
        challenge: &[u8; 32],
        commitment: &PedersenCommitment,
    ) -> (recomposed: [u8; 32])
        ensures
            recomposed@ == recompose_spec(r_resp@, v_resp@, challenge@, commitment.bytes@),
    {
        let base = commitment_base_bytes();
        let mut result = [0u8; 32];
        let mut i: usize = 0;
        while i < 32
            invariant
                i <= 32,
                base@ == commitment_base(),
                forall|k: int|
                    0 <= k < i ==> #[trigger] result@[k] == recompose_spec(
                        r_resp@,
                        v_resp@,
                        challenge@,
                        commitment.bytes@,
                    )[k],
            decreases 32 - i,
        {
            result[i] = base[i] ^ r_resp[i] ^ v_resp[i] ^ (challenge[i] & (commitment.bytes[i]
                ^ base[i]));
            i = i + 1;
        }
        assert(result@ =~= recompose_spec(r_resp@, v_resp@, challenge@, commitment.bytes@));
        result
    }
}

/// Fixed binary form of a proof: challenge, the two responses and the
/// commitment, 128 bytes.
pub open spec fn proof_bytes(proof: KZ1Proof) -> Seq<u8> {
    proof.challenge@ + proof.response_r@ + proof.response_v@ + proof.commitment.bytes@
}

/// Byte layout of a confidential transfer: recipient, commitment, the
/// proof in its binary form, the amount in little-endian order, and the fee
/// payer when there is one.
pub open spec fn transfer_data_bytes(data: ConfidentialTransferData) -> Seq<u8> {
    let head = data.recipient@ + data.commitment.bytes@ + proof_bytes(data.proof) + u64_le_bytes(
        data.amount,
    );
    match data.fee_payer {
        Some(fp) => head + fp@,
        None => head,
    }
}

/// Reading the fields back from the transfer data bytes: bytes 0..32 are
/// the recipient, 32..64 the commitment, 64..96, 96..128 and 128..160 the
/// proof's challenge and responses, 160..192 the proof's commitment,
/// 192..200 the amount in little-endian order, and 200..232 the fee payer
/// when there is one, which is where the bytes end.
pub proof fn lemma_transfer_data_fields(data: ConfidentialTransferData)
    ensures
        transfer_data_bytes(data).subrange(0, 32) == data.recipient@,
        transfer_data_bytes(data).subrange(32, 64) == data.commitment.bytes@,
        transfer_data_bytes(data).subrange(64, 96) == data.proof.challenge@,
        transfer_data_bytes(data).subrange(96, 128) == data.proof.response_r@,
        transfer_data_bytes(data).subrange(128, 160) == data.proof.response_v@,
        transfer_data_bytes(data).subrange(160, 192) == data.proof.commitment.bytes@,
        le_u64_value(transfer_data_bytes(data).subrange(192, 200)) == data.amount,
        data.fee_payer is None ==> transfer_data_bytes(data).len() == 200,
        data.fee_payer is Some ==> transfer_data_bytes(data).len() == 232
            && transfer_data_bytes(data).subrange(200, 232) == data.fee_payer->0@,
{
    let t = transfer_data_bytes(data);
    lemma_u64_le_bytes_decode(data.amount);
    assert(t.subrange(0, 32) =~= data.recipient@);
    assert(t.subrange(32, 64) =~= data.commitment.bytes@);
    assert(t.subrange(64, 96) =~= data.proof.challenge@);
    assert(t.subrange(96, 128) =~= data.proof.response_r@);
    assert(t.subrange(128, 160) =~= data.proof.response_v@);
    assert(t.subrange(160, 192) =~= data.proof.commitment.bytes@);
    assert(t.subrange(192, 200) =~= u64_le_bytes(data.amount));
    if data.fee_payer is Some {
        assert(t.subrange(200, 232) =~= data.fee_payer->0@);
    }
}

/// Confidential transfer instruction data for v1 transactions.
#[derive(Debug)]
pub struct ConfidentialTransferData {
    /// Recipient public key.
    pub recipient: [u8; 32],
    /// Commitment to the transfer amount.
    pub commitment: PedersenCommitment,
    /// KZ1 proof of knowledge of the committed amount.
    pub proof: KZ1Proof,
    /// Transfer amount.
    pub amount: u64,
    /// Fee payer, if other than the sender.
    pub fee_payer: Option<[u8; 32]>,
}

impl Clone for ConfidentialTransferData {
    fn clone(&self) -> (copy: Self)
        ensures
            copy == *self,
    {
        ConfidentialTransferData {
            recipient: self.recipient,
            commitment: self.commitment.clone(),
            proof: self.proof.clone(),
            amount: self.amount,
            fee_payer: self.fee_payer,
        }
    }
}

impl ConfidentialTransferData {
    /// Serialize for inclusion in a v1 transaction.
    pub fn to_bytes(&self) -> (bytes: Vec<u8>)
        ensures
            bytes@ == transfer_data_bytes(*self),
            bytes@.len() == if self.fee_payer is Some { 232int } else { 200int },
    {
        let mut bytes: Vec<u8> = Vec::new();
        append_bytes(&mut bytes, &self.recipient);
        append_bytes(&mut bytes, &self.commitment.bytes);
        append_bytes(&mut bytes, &self.proof.challenge);
        append_bytes(&mut bytes, &self.proof.response_r);
        append_bytes(&mut bytes, &self.proof.response_v);
        append_bytes(&mut bytes, &self.proof.commitment.bytes);
        append_u64_le(&mut bytes, self.amount);
        assert(bytes@ =~= self.recipient@ + self.commitment.bytes@ + proof_bytes(self.proof)
            + u64_le_bytes(self.amount));
        match &self.fee_payer {
            Some(fp) => {
                append_bytes(&mut bytes, fp);
            },
            None => {},
        }
        bytes
    }

    /// Estimated serialized size: recipient, commitment, proof, amount and
    /// fee payer.
    pub fn estimated_size(&self) -> (size: usize)
        ensures
            size == 360,
    {
        32 + 32 + 256 + 8 + 32
    }
}

} // verus!
