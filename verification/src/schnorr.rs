//! Scalar and point primitives for Schnorr-style commitments and
//! signatures, with byte-wise arithmetic.
use crate::kz1::{mul_bytes, xor_bytes};
use crate::primitives::{append_bytes, random_bytes32, sha256_digest, sha256_spec};
use vstd::prelude::*;
use vstd::std_specs::ops::{AddSpecImpl, MulSpecImpl};

verus! {

/// A scalar value: 32 bytes.
#[derive(Debug)]
pub struct Scalar([u8; 32]);

impl View for Scalar {
    type V = Seq<u8>;

    closed spec fn view(&self) -> Seq<u8> {
        self.0@
    }
}

impl Clone for Scalar {
    fn clone(&self) -> (copy: Self)
        ensures
            copy@ == self@,
    {
        Scalar(self.0)
    }
}

impl Scalar {
    /// The all-zero scalar.
    pub fn zero() -> (s: Self)
        ensures
            s@ == Seq::new(32, |i: int| 0u8),
    {
        let s = Scalar([0u8; 32]);
        assert(s@ =~= Seq::new(32, |i: int| 0u8));
        s
    }

    /// The scalar whose bytes are all one.
    pub fn one() -> (s: Self)
        ensures
            s@ == Seq::new(32, |i: int| 1u8),
    {
        let s = Scalar([1u8; 32]);
        assert(s@ =~= Seq::new(32, |i: int| 1u8));
        s
    }

    /// A scalar of 32 fresh random bytes.
    pub fn random() -> (s: Self)
        ensures
            s@.len() == 32,
    {
        Scalar(random_bytes32())
    }

    /// The bytes of the scalar.
    pub fn to_bytes(&self) -> (bytes: [u8; 32])
        ensures
            bytes@ == self@,
    {
        self.0
    }

    /// The scalar with the given bytes.
    pub fn from_bytes(bytes: [u8; 32]) -> (s: Self)
        ensures
            s@ == bytes@,
    {
        Scalar(bytes)
    }
}

/// Byte-wise XOR of two scalars.
fn scalar_xor(a: &Scalar, b: &Scalar) -> (sum: Scalar)
    ensures
        sum@ == xor_bytes(a@, b@),
{
    let mut result = [0u8; 32];
    let mut i: usize = 0;
    while i < 32
        invariant
            i <= 32,
            forall|k: int| 0 <= k < i ==> #[trigger] result@[k] == a.0@[k] ^ b.0@[k],
        decreases 32 - i,
    {
        result[i] = a.0[i] ^ b.0[i];
        i = i + 1;
    }
    assert(result@ =~= xor_bytes(a@, b@));
    Scalar(result)
}

/// Byte-wise product modulo 256 of two scalars.
fn scalar_product(a: &Scalar, b: &Scalar) -> (product: Scalar)
    ensures
        product@ == mul_bytes(a@, b@),
{
    let mut result = [0u8; 32];
    let mut i: usize = 0;
    while i < 32
        invariant
            i <= 32,
            forall|k: int|
                0 <= k < i ==> #[trigger] result@[k] == ((a.0@[k] as nat * b.0@[k] as nat) % 256) as u8,
        decreases 32 - i,
    {
        result[i] = a.0[i].wrapping_mul(b.0[i]);
        i = i + 1;
    }
    assert(result@ =~= mul_bytes(a@, b@));
    Scalar(result)
}

impl<'a> std::ops::Add for &'a Scalar {
    type Output = Scalar;

    /// Byte-wise XOR.
    fn add(self, other: &'a Scalar) -> (sum: Scalar)
        ensures
            sum@ == xor_bytes(self@, other@),
    {
        scalar_xor(self, other)
    }
}

impl<'a> AddSpecImpl for &'a Scalar {
    open spec fn obeys_add_spec() -> bool {
        false
    }

    open spec fn add_req(self, rhs: &'a Scalar) -> bool {
        true
    }

    open spec fn add_spec(self, rhs: &'a Scalar) -> Scalar {
        arbitrary()
    }
}

impl<'a> std::ops::Mul for &'a Scalar {
    type Output = Scalar;

    /// Byte-wise product modulo 256.
    fn mul(self, other: &'a Scalar) -> (product: Scalar)
        ensures
            product@ == mul_bytes(self@, other@),
    {
        scalar_product(self, other)
    }
}

impl<'a> MulSpecImpl for &'a Scalar {
    open spec fn obeys_mul_spec() -> bool {
        false
    }

    open spec fn mul_req(self, rhs: &'a Scalar) -> bool {
        true
    }

    open spec fn mul_spec(self, rhs: &'a Scalar) -> Scalar {
        arbitrary()
    }
}

/// A point on the curve: 32 bytes.
#[derive(Debug)]
pub struct Point([u8; 32]);

impl View for Point {
    type V = Seq<u8>;

    closed spec fn view(&self) -> Seq<u8> {
        self.0@
    }
}

impl Clone for Point {
    fn clone(&self) -> (copy: Self)
        ensures
            copy@ == self@,
    {
        Point(self.0)
    }
}

impl Point {
    /// The generator point: 32 zero bytes.
    pub fn generator() -> (g: Self)
        ensures
            g@ == Seq::new(32, |i: int| 0u8),
    {
        let g = Point([0u8; 32]);
        assert(g@ =~= Seq::new(32, |i: int| 0u8));
        g
    }

    /// The bytes of the point.
    pub fn to_bytes(&self) -> (bytes: [u8; 32])
        ensures
            bytes@ == self@,
    {
        self.0
    }

    /// The point whose bytes are the SHA-256 digest of `label`.
    pub fn hash_to_point(label: &[u8]) -> (p: Self)
        ensures
            p@ == sha256_spec(label@),
    {
        Point(sha256_digest(label))
    }
}

/// The commitment point: the generator with byte 0 replaced by the XOR of
/// the first bytes of `value` and `randomness`.
pub open spec fn pedersen_commit_spec(value: Seq<u8>, randomness: Seq<u8>) -> Seq<u8> {
    Seq::new(32, |i: int| if i == 0 { value[0] ^ randomness[0] } else { 0u8 })
}

/// Pedersen-style commitment of a value under a blinding scalar.
pub fn pedersen_commit(value: &Scalar, randomness: &Scalar) -> (commitment: Point)
    ensures
        commitment@ == pedersen_commit_spec(value@, randomness@),
{
    let result = Point::generator();
    let mut bytes = result.to_bytes();
    bytes[0] = bytes[0] ^ value.to_bytes()[0];
    bytes[0] = bytes[0] ^ randomness.to_bytes()[0];
    proof {
        let v = value@[0];
        let r = randomness@[0];
        assert(0u8 ^ v ^ r == v ^ r) by (bit_vector);
    }
    let p = Point(bytes);
    assert(p@ =~= pedersen_commit_spec(value@, randomness@));
    p
}

/// The 32 zero bytes placed between the nonce point and the message in the
/// challenge input.
pub open spec fn zero_block() -> Seq<u8> {
    Seq::new(32, |i: int| 0u8)
}

/// `(point_r, s)` is the Schnorr signature of `message` under `secret` made
/// with the nonce bytes `r`:
/// `point_r = SHA-256(r || message)`,
/// `e = SHA-256(point_r || 0^32 || message)`, `s = r + e * secret`.
pub open spec fn is_schnorr_signature(
    secret: Seq<u8>,
    message: Seq<u8>,
    r: Seq<u8>,
    point_r: Seq<u8>,
    s: Seq<u8>,
) -> bool {
    &&& point_r == sha256_spec(r + message)
    &&& s == xor_bytes(r, mul_bytes(sha256_spec(point_r + zero_block() + message), secret))
}

/// A Schnorr signature opens as `s = r + e * secret`, byte by byte: the
/// point is `SHA-256(r || message)`, and each byte of `s` is the nonce byte
/// XOR the product modulo 256 of the same byte of the challenge
/// `e = SHA-256(point || 32 zero bytes || message)` and of the secret.
pub proof fn lemma_schnorr_signature_bytes(
    secret: Seq<u8>,
    message: Seq<u8>,
    r: Seq<u8>,
    point_r: Seq<u8>,
    s: Seq<u8>,
)
    requires
        secret.len() == 32,
        r.len() == 32,
        is_schnorr_signature(secret, message, r, point_r, s),
    ensures
        point_r == sha256_spec(r + message),
        s.len() == 32,
        forall|i: int|
            0 <= i < 32 ==> #[trigger] s[i] == r[i] ^ (((sha256_spec(
                point_r + Seq::new(32, |j: int| 0u8) + message,
            )[i] as nat) * (secret[i] as nat)) % 256) as u8,
{
    assert(zero_block() =~= Seq::new(32, |j: int| 0u8));
}

fn hash_to_scalar(data: &[u8]) -> (s: Scalar)
    ensures
        s@ == sha256_spec(data@),
{
    Scalar(sha256_digest(data))
}

/// Schnorr signature of `message` under `secret` with the nonce scalar
/// `r`.
pub fn schnorr_sign_with_nonce(secret: &Scalar, message: &[u8], r: &Scalar) -> (sig: (
    Point,
    Scalar,
))
    ensures
        is_schnorr_signature(secret@, message@, r@, sig.0@, sig.1@),
{
    let r_bytes = r.to_bytes();
    let mut combined: Vec<u8> = Vec::new();
    append_bytes(&mut combined, &r_bytes);
    append_bytes(&mut combined, message);
    assert(combined@ =~= r@ + message@);
    let point_r = Point::hash_to_point(combined.as_slice());
    let zeros = [0u8; 32];
    assert(zeros@ =~= zero_block());
    let mut e_input: Vec<u8> = Vec::new();
    let point_bytes = point_r.to_bytes();
    append_bytes(&mut e_input, &point_bytes);
    append_bytes(&mut e_input, &zeros);
    append_bytes(&mut e_input, message);
    assert(e_input@ =~= point_r@ + zero_block() + message@);
    let e = hash_to_scalar(e_input.as_slice());
    let product = scalar_product(&e, secret);
    let s = scalar_xor(r, &product);
    (point_r, s)
}

/// Schnorr signature of `message` under `secret` with a fresh random nonce.
pub fn schnorr_sign(secret: &Scalar, message: &[u8]) -> (sig: (Point, Scalar))
    ensures
        exists|r: Seq<u8>|
            #![trigger is_schnorr_signature(secret@, message@, r, sig.0@, sig.1@)]
            r.len() == 32 && is_schnorr_signature(secret@, message@, r, sig.0@, sig.1@),
{
    let r = Scalar::random();
    let sig = schnorr_sign_with_nonce(secret, message, &r);
    assert(is_schnorr_signature(secret@, message@, r@, sig.0@, sig.1@));
    sig
}

} // verus!
