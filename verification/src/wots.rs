//! Winternitz One-Time Signature (WOTS+) scheme with base-16 chains over
//! SHA-256.
use crate::errors::Result;
use crate::primitives::{bytes32_eq, random_bytes32, sha256_digest, sha256_spec};
use vstd::prelude::*;

verus! {

/// log2 of the chain base.
pub const WOTS_LOG_W: usize = 4;

/// Chain base: each chain has `WOTS_W` hash steps from secret to public key.
pub const WOTS_W: u8 = 16;

/// Hash output length in bytes.
pub const WOTS_N: usize = 32;

/// Message digest length in bits.
pub const WOTS_K: usize = 256;

/// Number of base-16 digits of a message digest.
pub const WOTS_LEN1: usize = 64;

/// Number of base-16 digits kept of the checksum.
pub const WOTS_LEN2: usize = 2;

/// Total number of chains.
pub const WOTS_LEN: usize = WOTS_LEN1 + WOTS_LEN2;

/// Secret key length in bytes.
pub const WOTS_SK_LEN: usize = WOTS_LEN * WOTS_N;

/// Public key length in bytes.
pub const WOTS_PK_LEN: usize = WOTS_LEN * WOTS_N;

/// Signature length in bytes.
pub const WOTS_SIG_LEN: usize = WOTS_LEN * WOTS_N;

/// `n` applications of SHA-256 to `data`.
pub open spec fn hash_chain(data: Seq<u8>, n: nat) -> Seq<u8>
    decreases n,
{
    if n == 0 {
        data
    } else {
        sha256_spec(hash_chain(data, (n - 1) as nat))
    }
}

/// Walking `a` steps and then `b` steps along a chain is walking `a + b` steps.
pub proof fn lemma_hash_chain_compose(data: Seq<u8>, a: nat, b: nat)
    ensures
        hash_chain(hash_chain(data, a), b) == hash_chain(data, a + b),
    decreases b,
{
    if b > 0 {
        lemma_hash_chain_compose(data, a, (b - 1) as nat);
        assert(hash_chain(data, a + b) == sha256_spec(hash_chain(data, (a + b - 1) as nat)));
    }
}

/// The 64 base-16 digits of a 32-byte digest, high nibble first.
pub open spec fn base_w_digits(digest: Seq<u8>) -> Seq<u8> {
    Seq::new(
        64,
        |i: int|
            if i % 2 == 0 {
                digest[i / 2] / 16
            } else {
                digest[i / 2] % 16
            },
    )
}

/// Sum of `15 - d` over the digits `d`.
pub open spec fn checksum_sum(digits: Seq<u8>) -> int
    decreases digits.len(),
{
    if digits.len() == 0 {
        0
    } else {
        checksum_sum(digits.drop_last()) + (15 - digits.last())
    }
}

/// The two low base-16 digits of the checksum, most significant first.
pub open spec fn checksum_digits(digits: Seq<u8>) -> Seq<u8> {
    let c = checksum_sum(digits);
    seq![((c / 16) % 16) as u8, (c % 16) as u8]
}

/// The 66 chain lengths that sign `message`: the digits of its SHA-256
/// digest followed by the checksum digits.
pub open spec fn message_digits(message: Seq<u8>) -> Seq<u8> {
    let d = base_w_digits(sha256_spec(message));
    d + checksum_digits(d)
}

/// `sig` is the signature of `message` under the secret key `sk`: chain `i`
/// is walked `message_digits(message)[i]` steps from the secret seed.
pub open spec fn is_signature_of(sk: [[u8; 32]; 66], message: Seq<u8>, sig: [[u8; 32]; 66]) -> bool {
    forall|i: int|
        #![trigger sig[i]]
        0 <= i < 66 ==> sig[i]@ == hash_chain(sk[i]@, message_digits(message)[i] as nat)
}

/// `sig` verifies for `message` against `pk`: walking each chain the
/// remaining `16 - digit` steps lands on the public key.
pub open spec fn signature_valid(message: Seq<u8>, sig: [[u8; 32]; 66], pk: [[u8; 32]; 66]) -> bool {
    forall|i: int|
        #![trigger pk[i]]
        0 <= i < 66 ==> hash_chain(sig[i]@, (16 - message_digits(message)[i]) as nat) == pk[i]@
}

/// Every digit of `message_digits` is a base-16 digit.
pub proof fn lemma_message_digits_bounded(message: Seq<u8>)
    ensures
        message_digits(message).len() == 66,
        forall|i: int| 0 <= i < 66 ==> #[trigger] message_digits(message)[i] <= 15,
{
    let d = base_w_digits(sha256_spec(message));
    assert forall|i: int| 0 <= i < 66 implies #[trigger] message_digits(message)[i] <= 15 by {
        if i < 64 {
            assert(message_digits(message)[i] == d[i]);
        } else {
            let c = checksum_sum(d);
            assert(((c / 16) % 16) as u8 <= 15);
            assert((c % 16) as u8 <= 15);
        }
    }
}

/// The sum of a sequence of digits.
pub open spec fn digit_total(digits: Seq<u8>) -> int {
    digits.fold_left(0int, |acc: int, x: u8| acc + x)
}

/// `checksum_sum` is `15` per digit minus the sum of the digits.
proof fn lemma_checksum_sum_is_complement(digits: Seq<u8>)
    ensures
        checksum_sum(digits) == 15 * digits.len() - digit_total(digits),
    decreases digits.len(),
{
    if digits.len() > 0 {
        lemma_checksum_sum_is_complement(digits.drop_last());
    }
}

/// The chain lengths of a message read its whole SHA-256 digest: for every
/// byte `i` of `SHA-256(message)`, digits `2i` and `2i + 1` are its high and
/// low base-16 digits, every digit is below 16, and the last two digits
/// encode `(15 * 64 - sum of the first 64 digits) mod 256`.
pub proof fn lemma_message_digits_encode_digest(message: Seq<u8>)
    ensures
        message_digits(message).len() == 66,
        forall|i: int|
            0 <= i < 32 ==> #[trigger] sha256_spec(message)[i] as int == 16
                * message_digits(message)[2 * i] + message_digits(message)[2 * i + 1],
        forall|i: int| 0 <= i < 66 ==> #[trigger] message_digits(message)[i] < 16,
        16 * message_digits(message)[64] + message_digits(message)[65] == (960 - digit_total(
            message_digits(message).take(64),
        )) % 256,
{
    lemma_message_digits_bounded(message);
    let h = sha256_spec(message);
    let d = base_w_digits(h);
    let md = message_digits(message);
    assert forall|i: int| 0 <= i < 32 implies #[trigger] sha256_spec(message)[i] as int == 16
        * md[2 * i] + md[2 * i + 1] by {
        assert(md[2 * i] == d[2 * i]);
        assert(md[2 * i + 1] == d[2 * i + 1]);
        assert(d[2 * i] == h[i] / 16);
        assert(d[2 * i + 1] == h[i] % 16);
    }
    assert(md.take(64) =~= d);
    lemma_checksum_sum_is_complement(d);
    let c = checksum_sum(d);
    assert(c == 960 - digit_total(d));
    assert(md[64] == ((c / 16) % 16) as u8);
    assert(md[65] == (c % 16) as u8);
    assert(0 <= c) by {
        lemma_checksum_sum_bounded(d);
    }
    assert(16 * ((c / 16) % 16) + c % 16 == c % 256);
}

/// `checksum_sum` of digits that are at most 15 is not negative.
proof fn lemma_checksum_sum_bounded(digits: Seq<u8>)
    requires
        forall|i: int| 0 <= i < digits.len() ==> #[trigger] digits[i] <= 15,
    ensures
        0 <= checksum_sum(digits) <= 15 * digits.len(),
    decreases digits.len(),
{
    if digits.len() > 0 {
        let rest = digits.drop_last();
        assert forall|i: int| 0 <= i < rest.len() implies #[trigger] rest[i] <= 15 by {
            assert(rest[i] == digits[i]);
        }
        lemma_checksum_sum_bounded(rest);
    }
}

/// Convert a 256-bit message digest to its 64 base-16 digits.
fn crunch(message: &[u8; 32]) -> (digits: [u8; 64])
    ensures
        digits@ == base_w_digits(message@),
{
    let mut result = [0u8; 64];
    let mut i: usize = 0;
    while i < 64
        invariant
            i <= 64,
            forall|k: int| 0 <= k < i ==> #[trigger] result@[k] == base_w_digits(message@)[k],
        decreases 64 - i,
    {
        let byte_idx = i / 2;
        let nib_idx = i % 2;
        let b = message[byte_idx];
        if nib_idx == 0 {
            let v = (b >> 4) & 0x0F;
            assert(v == b / 16) by (bit_vector)
                requires
                    v == (b >> 4) & 0x0F,
            ;
            result[i] = v;
        } else {
            let v = b & 0x0F;
            assert(v == b % 16) by (bit_vector)
                requires
                    v == b & 0x0F,
            ;
            result[i] = v;
        }
        i = i + 1;
    }
    assert(result@ =~= base_w_digits(message@));
    result
}

/// Base-16 checksum of the message digits: the two low digits of the sum
/// of `15 - d`.
fn checksum(crunch_array: &[u8; 64]) -> (digits: [u8; 2])
    requires
        forall|k: int| 0 <= k < 64 ==> #[trigger] crunch_array@[k] <= 15,
    ensures
        digits@ == checksum_digits(crunch_array@),
{
    let mut csum: u32 = 0;
    let mut i: usize = 0;
    while i < 64
        invariant
            i <= 64,
            csum == checksum_sum(crunch_array@.take(i as int)),
            csum <= 15 * i,
            forall|k: int| 0 <= k < 64 ==> #[trigger] crunch_array@[k] <= 15,
        decreases 64 - i,
    {
        let val = crunch_array[i];
        assert(crunch_array@.take(i + 1).drop_last() =~= crunch_array@.take(i as int));
        csum = csum + (WOTS_W as u32) - 1 - (val as u32);
        i = i + 1;
    }
    assert(crunch_array@.take(64) =~= crunch_array@);
    let mut result = [0u8; 2];
    let mut remaining = csum;
    result[1] = (remaining % (WOTS_W as u32)) as u8;
    remaining = remaining / (WOTS_W as u32);
    result[0] = (remaining % (WOTS_W as u32)) as u8;
    assert(result@ =~= checksum_digits(crunch_array@));
    result
}

/// Hash chain: SHA-256 applied `stop - start` times to `data` (no step when
/// `start >= stop`).
pub fn chain(data: &[u8; 32], start: usize, stop: usize) -> (out: [u8; 32])
    ensures
        out@ == hash_chain(data@, if start >= stop { 0 } else { (stop - start) as nat }),
{
    if start >= stop {
        return *data;
    }
    let mut result = *data;
    let mut k: usize = start;
    while k < stop
        invariant
            start <= k <= stop,
            result@ == hash_chain(data@, (k - start) as nat),
        decreases stop - k,
    {
        result = sha256_digest(&result);
        k = k + 1;
    }
    result
}

/// The 66 chain lengths of `message`: digest digits then checksum digits.
fn message_digit_array(message: &[u8]) -> (digits: [u8; 66])
    ensures
        digits@ == message_digits(message@),
        forall|i: int| 0 <= i < 66 ==> #[trigger] digits@[i] <= 15,
{
    let message_digest = sha256_digest(message);
    let crunch_array = crunch(&message_digest);
    assert forall|k: int| 0 <= k < 64 implies #[trigger] crunch_array@[k] <= 15 by {
        assert(crunch_array@[k] == base_w_digits(message_digest@)[k]);
    }
    let csum_array = checksum(&crunch_array);
    let mut msg_csum = [0u8; 66];
    let mut i: usize = 0;
    while i < 64
        invariant
            i <= 64,
            forall|k: int| 0 <= k < i ==> #[trigger] msg_csum@[k] == crunch_array@[k],
        decreases 64 - i,
    {
        msg_csum[i] = crunch_array[i];
        i = i + 1;
    }
    msg_csum[64] = csum_array[0];
    msg_csum[65] = csum_array[1];
    assert(msg_csum@ =~= message_digits(message@));
    proof {
        lemma_message_digits_bounded(message@);
    }
    msg_csum
}

/// Walking the remaining `16 - d` steps from a chain value `d` steps past the
/// secret seed lands on the public key: a signature made with a well-formed
/// key pair verifies against its public key.
pub proof fn lemma_sign_then_verify(
    keypair: WOTSKeyPair,
    message: Seq<u8>,
    signature: [[u8; 32]; 66],
)
    requires
        keypair.is_well_formed(),
        is_signature_of(keypair.secret_key, message, signature),
    ensures
        signature_valid(message, signature, keypair.public_key),
{
    lemma_message_digits_bounded(message);
    assert forall|i: int| 0 <= i < 66 implies hash_chain(
        signature[i]@,
        (16 - message_digits(message)[i]) as nat,
    ) == #[trigger] keypair.public_key[i]@ by {
        let d = message_digits(message)[i] as nat;
        assert(signature[i]@ == hash_chain(keypair.secret_key[i]@, d));
        lemma_hash_chain_compose(keypair.secret_key[i]@, d, (16 - d) as nat);
    }
}

/// `keypair` is the key pair derived from `seed`: secret seed `i` is
/// `SHA-256(seed || [i])` and the key pair is well formed.
pub open spec fn is_seed_keypair(keypair: WOTSKeyPair, seed: Seq<u8>) -> bool {
    &&& keypair.is_well_formed()
    &&& forall|i: int|
        #![trigger keypair.secret_key[i]]
        0 <= i < 66 ==> keypair.secret_key[i]@ == sha256_spec(seed.push(i as u8))
}

/// Key derivation from a seed is deterministic: two key pairs derived from
/// the same seed are equal.
pub proof fn lemma_from_seed_deterministic(kp1: WOTSKeyPair, kp2: WOTSKeyPair, seed: Seq<u8>)
    requires
        is_seed_keypair(kp1, seed),
        is_seed_keypair(kp2, seed),
    ensures
        kp1 == kp2,
{
    assert forall|i: int| 0 <= i < 66 implies kp1.secret_key[i] == kp2.secret_key[i] by {
        assert(kp1.secret_key[i]@ == kp2.secret_key[i]@);
        assert(kp1.secret_key[i] =~= kp2.secret_key[i]);
    }
    assert(kp1.secret_key =~= kp2.secret_key);
    assert forall|i: int| 0 <= i < 66 implies kp1.public_key[i] == kp2.public_key[i] by {
        assert(kp1.public_key[i]@ == kp2.public_key[i]@);
        assert(kp1.public_key[i] =~= kp2.public_key[i]);
    }
    assert(kp1.public_key =~= kp2.public_key);
}

/// Winternitz one-time signature key pair.
#[derive(Debug)]
pub struct WOTSKeyPair {
    /// Secret key: one chain seed per chain.
    pub secret_key: [[u8; 32]; 66],
    /// Public key: the end of each chain.
    pub public_key: [[u8; 32]; 66],
}

impl Clone for WOTSKeyPair {
    fn clone(&self) -> (copy: Self)
        ensures
            copy == *self,
    {
        WOTSKeyPair { secret_key: self.secret_key, public_key: self.public_key }
    }
}

impl WOTSKeyPair {
    /// Each public key entry is the end of the chain that starts at the
    /// matching secret seed, 16 hash steps away.
    pub open spec fn is_well_formed(self) -> bool {
        forall|i: int|
            #![trigger self.public_key[i]]
            0 <= i < 66 ==> self.public_key[i]@ == hash_chain(self.secret_key[i]@, 16)
    }

    /// Build the key pair whose secret seeds are `secret_key`, computing each
    /// public key entry by 16 hash steps.
    pub fn from_secret_key(secret_key: [[u8; 32]; 66]) -> (keypair: Self)
        ensures
            keypair.secret_key == secret_key,
            keypair.is_well_formed(),
    {
        let mut pk = [[0u8; 32]; 66];
        let mut i: usize = 0;
        while i < 66
            invariant
                i <= 66,
                forall|k: int|
                    #![trigger pk[k]]
                    0 <= k < i ==> pk[k]@ == hash_chain(secret_key[k]@, 16),
            decreases 66 - i,
        {
            pk[i] = chain(&secret_key[i], 0, WOTS_W as usize);
            i = i + 1;
        }
        WOTSKeyPair { secret_key, public_key: pk }
    }

    /// Generate a new random key pair: each secret seed is 32 fresh random
    /// bytes.
    pub fn generate() -> (keypair: Result<Self>)
        ensures
            keypair matches Ok(kp) && kp.is_well_formed(),
    {
        let mut secret_key = [[0u8; 32]; 66];
        let mut i: usize = 0;
        while i < 66
            invariant
                i <= 66,
            decreases 66 - i,
        {
            secret_key[i] = random_bytes32();
            i = i + 1;
        }
        Ok(Self::from_secret_key(secret_key))
    }

    /// Derive a key pair from a seed: secret seed `i` is
    /// `SHA-256(seed || [i])`.
    pub fn from_seed(seed: &[u8; 32]) -> (keypair: Result<Self>)
        ensures
            keypair matches Ok(kp) && is_seed_keypair(kp, seed@),
    {
        let mut secret_key = [[0u8; 32]; 66];
        let mut i: usize = 0;
        while i < 66
            invariant
                i <= 66,
                forall|k: int|
                    #![trigger secret_key[k]]
                    0 <= k < i ==> secret_key[k]@ == sha256_spec(seed@.push(k as u8)),
            decreases 66 - i,
        {
            let mut input: Vec<u8> = Vec::new();
            let mut j: usize = 0;
            while j < 32
                invariant
                    j <= 32,
                    input@ == seed@.take(j as int),
                decreases 32 - j,
            {
                input.push(seed[j]);
                j = j + 1;
                assert(input@ =~= seed@.take(j as int));
            }
            input.push(i as u8);
            assert(input@ =~= seed@.push(i as u8));
            secret_key[i] = sha256_digest(input.as_slice());
            i = i + 1;
        }
        let kp = Self::from_secret_key(secret_key);
        assert(is_seed_keypair(kp, seed@));
        Ok(kp)
    }

    /// Sign a message: chain `i` is walked `d_i` steps from the secret seed,
    /// where `d` are the digest and checksum digits of the message.
    pub fn sign(&self, message: &[u8]) -> (signature: [[u8; 32]; 66])
        ensures
            is_signature_of(self.secret_key, message@, signature),
    {
        let msg_csum = message_digit_array(message);
        let mut signature = [[0u8; 32]; 66];
        let mut i: usize = 0;
        while i < 66
            invariant
                i <= 66,
                msg_csum@ == message_digits(message@),
                forall|k: int|
                    #![trigger signature[k]]
                    0 <= k < i ==> signature[k]@ == hash_chain(
                        self.secret_key[k]@,
                        message_digits(message@)[k] as nat,
                    ),
            decreases 66 - i,
        {
            signature[i] = chain(&self.secret_key[i], 0, msg_csum[i] as usize);
            i = i + 1;
        }
        signature
    }

    /// Verify a signature against the stored public key.
    pub fn verify_message(&self, message: &[u8], signature: &[[u8; 32]; 66]) -> (valid: bool)
        ensures
            valid == signature_valid(message@, *signature, self.public_key),
    {
        verify_signature(message, signature, &self.public_key)
    }

    /// The public key as one byte string: the 66 chain ends in order.
    pub fn public_key_bytes(&self) -> (bytes: Vec<u8>)
        ensures
            bytes@ == self.public_key@.map_values(|e: [u8; 32]| e@).flatten(),
    {
        let ghost chunks = self.public_key@.map_values(|e: [u8; 32]| e@);
        let mut out: Vec<u8> = Vec::new();
        let mut i: usize = 0;
        while i < 66
            invariant
                i <= 66,
                chunks == self.public_key@.map_values(|e: [u8; 32]| e@),
                out@ == chunks.take(i as int).flatten(),
            decreases 66 - i,
        {
            let ghost before = out@;
            let mut j: usize = 0;
            while j < 32
                invariant
                    j <= 32,
                    i < 66,
                    out@ == before + self.public_key[i as int]@.take(j as int),
                decreases 32 - j,
            {
                out.push(self.public_key[i][j]);
                j = j + 1;
                assert(out@ =~= before + self.public_key[i as int]@.take(j as int));
            }
            proof {
                assert(self.public_key[i as int]@.take(32) =~= self.public_key[i as int]@);
                assert(chunks.take(i + 1) =~= chunks.take(i as int).push(chunks[i as int]));
                chunks.take(i as int).lemma_flatten_push(chunks[i as int]);
            }
            i = i + 1;
        }
        assert(chunks.take(66) =~= chunks);
        out
    }
}

/// Verify a signature against a public key.
pub fn verify_signature(
    message: &[u8],
    signature: &[[u8; 32]; 66],
    public_key: &[[u8; 32]; 66],
) -> (valid: bool)
    ensures
        valid == signature_valid(message@, *signature, *public_key),
{
    let msg_csum = message_digit_array(message);
    let mut i: usize = 0;
    while i < 66
        invariant
            i <= 66,
            msg_csum@ == message_digits(message@),
            forall|k: int| 0 <= k < 66 ==> #[trigger] msg_csum@[k] <= 15,
            forall|k: int|
                #![trigger public_key[k]]
                0 <= k < i ==> hash_chain(
                    signature[k]@,
                    (16 - message_digits(message@)[k]) as nat,
                ) == public_key[k]@,
        decreases 66 - i,
    {
        let computed = chain(&signature[i], 0, (WOTS_W as usize) - (msg_csum[i] as usize));
        if !bytes32_eq(&computed, &public_key[i]) {
            return false;
        }
        i = i + 1;
    }
    true
}

} // verus!
