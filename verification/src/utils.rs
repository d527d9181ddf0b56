//! Encoding, hashing and fee helpers.
use crate::errors::{Result, ZkCtError};
use crate::primitives::{sha256_digest, sha256_spec};
use base64::Engine;
use vstd::prelude::*;
use vstd::string::StringSliceAdditionalSpecFns;

verus! {

/// The lower-case hex digit for a value below 16.
pub open spec fn hex_digit_char(n: int) -> char {
    if n < 10 {
        (48 + n) as char
    } else {
        (87 + n) as char
    }
}

/// Lower-case hex encoding: two digits per byte, high nibble first.
pub open spec fn hex_encode_spec(data: Seq<u8>) -> Seq<char>
    decreases data.len(),
{
    if data.len() == 0 {
        Seq::empty()
    } else {
        seq![hex_digit_char((data[0] / 16) as int), hex_digit_char((data[0] % 16) as int)] + hex_encode_spec(
            data.drop_first(),
        )
    }
}

/// The value of a hex digit of either case.
pub open spec fn hex_digit_value(c: char) -> Option<u8> {
    let v = c as u32;
    if 48 <= v <= 57 {
        Some((v - 48) as u8)
    } else if 97 <= v <= 102 {
        Some((v - 87) as u8)
    } else if 65 <= v <= 70 {
        Some((v - 55) as u8)
    } else {
        None
    }
}

/// Hex decoding: `None` for an odd number of digits or a character that is
/// not a hex digit; otherwise one byte per pair of digits.
pub open spec fn hex_decode_spec(s: Seq<char>) -> Option<Seq<u8>>
    decreases s.len(),
{
    if s.len() == 0 {
        Some(Seq::empty())
    } else if s.len() == 1 {
        None
    } else {
        match (hex_digit_value(s[0]), hex_digit_value(s[1]), hex_decode_spec(s.skip(2))) {
            (Some(h), Some(l), Some(rest)) => Some(seq![(h * 16 + l) as u8] + rest),
            _ => None,
        }
    }
}

/// Decoding the hex encoding of a byte string gives back the byte string.
pub proof fn lemma_hex_roundtrip(data: Seq<u8>)
    ensures
        hex_decode_spec(hex_encode_spec(data)) == Some(data),
    decreases data.len(),
{
    if data.len() > 0 {
        let b = data[0];
        let enc = hex_encode_spec(data);
        let rest = hex_encode_spec(data.drop_first());
        lemma_hex_roundtrip(data.drop_first());
        assert(enc.skip(2) =~= rest);
        let h = b / 16;
        let l = b % 16;
        assert(hex_digit_value(hex_digit_char(h as int)) == Some(h));
        assert(hex_digit_value(hex_digit_char(l as int)) == Some(l));
        assert(enc[0] == hex_digit_char(h as int));
        assert(enc[1] == hex_digit_char(l as int));
        assert((h * 16 + l) as u8 == b);
        assert(seq![b] + data.drop_first() =~= data);
    }
}

/// The standard base64 alphabet.
pub open spec fn base64_char(n: int) -> char {
    if n < 26 {
        (65 + n) as char
    } else if n < 52 {
        (71 + n) as char
    } else if n < 62 {
        (n - 4) as char
    } else if n == 62 {
        '+'
    } else {
        '/'
    }
}

/// Standard base64 encoding with `=` padding (RFC 4648, section 4).
pub open spec fn base64_encode_spec(data: Seq<u8>) -> Seq<char>
    decreases data.len(),
{
    if data.len() == 0 {
        Seq::empty()
    } else if data.len() == 1 {
        let a = data[0] as int;
        seq![base64_char(a / 4), base64_char((a % 4) * 16), '=', '=']
    } else if data.len() == 2 {
        let a = data[0] as int;
        let b = data[1] as int;
        seq![base64_char(a / 4), base64_char((a % 4) * 16 + b / 16), base64_char((b % 16) * 4), '=']
    } else {
        let a = data[0] as int;
        let b = data[1] as int;
        let c = data[2] as int;
        seq![
            base64_char(a / 4),
            base64_char((a % 4) * 16 + b / 16),
            base64_char((b % 16) * 4 + c / 64),
            base64_char(c % 64),
        ] + base64_encode_spec(data.skip(3))
    }
}

/// Standard base64 decoding with canonical padding and no stray trailing
/// bits: a string decodes exactly when it is the encoding of some bytes, and
/// then to those bytes.
pub open spec fn base64_decode_spec(s: Seq<char>) -> Option<Seq<u8>> {
    if exists|d: Seq<u8>| #[trigger] base64_encode_spec(d) == s {
        Some(choose|d: Seq<u8>| #[trigger] base64_encode_spec(d) == s)
    } else {
        None
    }
}

/// The code point of each symbol of the base64 alphabet.
pub open spec fn base64_code(n: int) -> int {
    if n < 26 {
        65 + n
    } else if n < 52 {
        71 + n
    } else if n < 62 {
        n - 4
    } else if n == 62 {
        43
    } else {
        47
    }
}

/// Distinct six-bit values have distinct symbols, and no symbol is `=`.
proof fn lemma_base64_char(x: int, y: int)
    requires
        0 <= x < 64,
        0 <= y < 64,
    ensures
        base64_char(x) as u32 == base64_code(x),
        base64_char(x) != '=',
        base64_char(x) == base64_char(y) ==> x == y,
{
    assert(base64_char(y) as u32 == base64_code(y));
}

/// The shape of an encoding: four symbols per started group of three
/// bytes, with padding only in the last group.
proof fn lemma_base64_shape(d: Seq<u8>)
    ensures
        d.len() == 0 ==> base64_encode_spec(d).len() == 0,
        d.len() > 0 ==> base64_encode_spec(d).len() >= 4,
        d.len() > 0 ==> base64_encode_spec(d)[0] == base64_char(d[0] as int / 4),
        d.len() == 1 ==> base64_encode_spec(d)[1] == base64_char((d[0] as int % 4) * 16)
            && base64_encode_spec(d)[2] == '=',
        d.len() >= 2 ==> base64_encode_spec(d)[1] == base64_char(
            (d[0] as int % 4) * 16 + d[1] as int / 16,
        ),
        d.len() == 2 ==> base64_encode_spec(d)[2] == base64_char((d[1] as int % 16) * 4)
            && base64_encode_spec(d)[2] != '=' && base64_encode_spec(d)[3] == '=',
        d.len() >= 3 ==> base64_encode_spec(d)[2] == base64_char(
            (d[1] as int % 16) * 4 + d[2] as int / 64,
        ) && base64_encode_spec(d)[3] == base64_char(d[2] as int % 64)
            && base64_encode_spec(d)[2] != '=' && base64_encode_spec(d)[3] != '=',
{
    if d.len() == 2 {
        let b = d[1] as int;
        lemma_base64_char((b % 16) * 4, 0);
    } else if d.len() >= 3 {
        let a = d[0] as int;
        let b = d[1] as int;
        let c = d[2] as int;
        let head = seq![
            base64_char(a / 4),
            base64_char((a % 4) * 16 + b / 16),
            base64_char((b % 16) * 4 + c / 64),
            base64_char(c % 64),
        ];
        assert(base64_encode_spec(d) == head + base64_encode_spec(d.skip(3)));
        lemma_base64_char((b % 16) * 4 + c / 64, 0);
        lemma_base64_char(c % 64, 0);
    }
}

/// Base64 encoding is injective.
pub proof fn lemma_base64_encode_injective(d1: Seq<u8>, d2: Seq<u8>)
    requires
        base64_encode_spec(d1) == base64_encode_spec(d2),
    ensures
        d1 == d2,
    decreases d1.len(),
{
    let e = base64_encode_spec(d1);
    lemma_base64_shape(d1);
    lemma_base64_shape(d2);
    if d1.len() == 0 || d2.len() == 0 {
        return;
    }
    let a1 = d1[0] as int;
    let a2 = d2[0] as int;
    lemma_base64_char(a1 / 4, a2 / 4);
    assert(a1 / 4 == a2 / 4);
    if d1.len() == 1 {
        assert(d2.len() == 1);
        lemma_base64_char((a1 % 4) * 16, (a2 % 4) * 16);
        assert(d1 =~= d2);
        return;
    }
    assert(d2.len() >= 2);
    let b1 = d1[1] as int;
    let b2 = d2[1] as int;
    lemma_base64_char((a1 % 4) * 16 + b1 / 16, (a2 % 4) * 16 + b2 / 16);
    assert(a1 % 4 == a2 % 4 && b1 / 16 == b2 / 16);
    assert(a1 == a2);
    if d1.len() == 2 {
        assert(d2.len() == 2);
        lemma_base64_char((b1 % 16) * 4, (b2 % 16) * 4);
        assert(b1 == b2);
        assert(d1 =~= d2);
        return;
    }
    assert(d2.len() >= 3);
    let c1 = d1[2] as int;
    let c2 = d2[2] as int;
    lemma_base64_char((b1 % 16) * 4 + c1 / 64, (b2 % 16) * 4 + c2 / 64);
    lemma_base64_char(c1 % 64, c2 % 64);
    assert(b1 % 16 == b2 % 16 && c1 / 64 == c2 / 64);
    assert(b1 == b2);
    assert(c1 == c2);
    let r1 = base64_encode_spec(d1.skip(3));
    let r2 = base64_encode_spec(d2.skip(3));
    assert(e.skip(4) =~= r1);
    assert(base64_encode_spec(d2).skip(4) =~= r2);
    lemma_base64_encode_injective(d1.skip(3), d2.skip(3));
    assert(d1 =~= seq![d1[0], d1[1], d1[2]] + d1.skip(3));
    assert(d2 =~= seq![d2[0], d2[1], d2[2]] + d2.skip(3));
}

/// Decoding the base64 encoding of a byte string gives back the byte
/// string.
pub proof fn lemma_base64_roundtrip(data: Seq<u8>)
    ensures
        base64_decode_spec(base64_encode_spec(data)) == Some(data),
{
    let s = base64_encode_spec(data);
    assert(base64_encode_spec(data) == s);
    let d = choose|d: Seq<u8>| #[trigger] base64_encode_spec(d) == s;
    lemma_base64_encode_injective(d, data);
}

/// Why hex decoding failed, as `hex::FromHexError` reports it.
#[derive(Clone, Copy, Debug)]
pub enum HexDecodeError {
    /// A byte that is not a hex digit, read as a character, and its index.
    InvalidHexCharacter { c: char, index: usize },
    /// An odd number of bytes.
    OddLength,
    /// A length that does not fit a fixed-size output.
    InvalidStringLength,
}

/// Why base64 decoding failed, as `base64::DecodeError` reports it.
#[derive(Clone, Copy, Debug)]
pub enum Base64DecodeError {
    /// A byte outside the alphabet, with its offset.
    InvalidByte(usize, u8),
    /// An input length that no encoding has.
    InvalidLength(usize),
    /// A last symbol with stray trailing bits, with its offset.
    InvalidLastSymbol(usize, u8),
    /// Padding that is absent or not canonical.
    InvalidPadding,
}

/// A byte that is a hex digit of either case.
pub open spec fn is_hex_byte(b: u8) -> bool {
    (48 <= b <= 57) || (97 <= b <= 102) || (65 <= b <= 70)
}

/// The error `hex::decode` reports for the bytes of a string that does not
/// decode: an odd length first; otherwise the first byte that is not a hex
/// digit, read as a character, and its index.
pub open spec fn hex_decode_error_spec(bytes: Seq<u8>) -> HexDecodeError {
    if bytes.len() % 2 == 1 {
        HexDecodeError::OddLength
    } else {
        let i = choose|i: int|
            0 <= i < bytes.len() && !is_hex_byte(#[trigger] bytes[i]) && forall|j: int|
                0 <= j < i ==> is_hex_byte(bytes[j]);
        HexDecodeError::InvalidHexCharacter { c: bytes[i] as char, index: i as usize }
    }
}

/// The display text of a hex decoding error (`Display` of
/// `hex::FromHexError`).
pub uninterp spec fn hex_error_display(e: HexDecodeError) -> Seq<char>;

/// The error that the `base64` crate's standard engine reports for a string
/// that does not decode.
pub uninterp spec fn base64_decode_error_spec(s: Seq<char>) -> Base64DecodeError;

/// The display text of a base64 decoding error (`Display` of
/// `base64::DecodeError`).
pub uninterp spec fn base64_error_display(e: Base64DecodeError) -> Seq<char>;

/// Calls `hex::encode`, which writes two lower-case hex digits per byte.
#[verifier::external_body]
fn hex_encode(data: &[u8]) -> (s: String)
    ensures
        s@ == hex_encode_spec(data@),
{
    hex::encode(data)
}

/// Calls `hex::decode`, which fails on an odd number of bytes, then on the
/// first byte that is not a hex digit, and otherwise decodes each pair of
/// digits of either case. The error is passed on variant by variant.
#[verifier::external_body]
fn hex_decode(s: &str) -> (r: core::result::Result<Vec<u8>, HexDecodeError>)
    ensures
        match r {
            Ok(v) => hex_decode_spec(s@) == Some(v@),
            Err(e) => hex_decode_spec(s@) is None && e == hex_decode_error_spec(s.spec_bytes()),
        },
{
    match hex::decode(s) {
        Ok(v) => Ok(v),
        Err(hex::FromHexError::InvalidHexCharacter { c, index }) => Err(
            HexDecodeError::InvalidHexCharacter { c, index },
        ),
        Err(hex::FromHexError::OddLength) => Err(HexDecodeError::OddLength),
        Err(hex::FromHexError::InvalidStringLength) => Err(HexDecodeError::InvalidStringLength),
    }
}

/// Calls `ToString::to_string` on the `hex::FromHexError` of the same
/// variant and fields: "Odd number of digits", "Invalid string length", and
/// for an invalid character a text named by `hex_error_display`.
#[verifier::external_body]
fn hex_error_text(e: HexDecodeError) -> (text: String)
    ensures
        text@ == hex_error_display(e),
        e is OddLength ==> text@ == "Odd number of digits"@,
        e is InvalidStringLength ==> text@ == "Invalid string length"@,
{
    let err = match e {
        HexDecodeError::InvalidHexCharacter { c, index } => hex::FromHexError::InvalidHexCharacter {
            c,
            index,
        },
        HexDecodeError::OddLength => hex::FromHexError::OddLength,
        HexDecodeError::InvalidStringLength => hex::FromHexError::InvalidStringLength,
    };
    err.to_string()
}

/// Calls `Engine::encode` of `base64::engine::general_purpose::STANDARD`:
/// standard alphabet with `=` padding.
#[verifier::external_body]
fn base64_encode(data: &[u8]) -> (s: String)
    ensures
        s@ == base64_encode_spec(data@),
{
    base64::engine::general_purpose::STANDARD.encode(data)
}

/// Calls `Engine::decode` of `base64::engine::general_purpose::STANDARD`,
/// which requires canonical `=` padding and rejects non-zero trailing bits:
/// it succeeds exactly on the standard encodings of byte strings, and
/// returns the encoded bytes. Its error, passed on variant by variant, is
/// named by `base64_decode_error_spec`.
#[verifier::external_body]
fn base64_decode(s: &str) -> (r: core::result::Result<Vec<u8>, Base64DecodeError>)
    ensures
        match r {
            Ok(v) => base64_encode_spec(v@) == s@,
            Err(e) => (forall|d: Seq<u8>| #[trigger] base64_encode_spec(d) != s@) && e
                == base64_decode_error_spec(s@),
        },
{
    match base64::engine::general_purpose::STANDARD.decode(s) {
        Ok(v) => Ok(v),
        Err(base64::DecodeError::InvalidByte(i, b)) => Err(Base64DecodeError::InvalidByte(i, b)),
        Err(base64::DecodeError::InvalidLength(n)) => Err(Base64DecodeError::InvalidLength(n)),
        Err(base64::DecodeError::InvalidLastSymbol(i, b)) => Err(
            Base64DecodeError::InvalidLastSymbol(i, b),
        ),
        Err(base64::DecodeError::InvalidPadding) => Err(Base64DecodeError::InvalidPadding),
    }
}

/// Calls `ToString::to_string` on the `base64::DecodeError` of the same
/// variant and fields: "Invalid padding", and otherwise a text named by
/// `base64_error_display`.
#[verifier::external_body]
fn base64_error_text(e: Base64DecodeError) -> (text: String)
    ensures
        text@ == base64_error_display(e),
        e is InvalidPadding ==> text@ == "Invalid padding"@,
{
    let err = match e {
        Base64DecodeError::InvalidByte(i, b) => base64::DecodeError::InvalidByte(i, b),
        Base64DecodeError::InvalidLength(n) => base64::DecodeError::InvalidLength(n),
        Base64DecodeError::InvalidLastSymbol(i, b) => base64::DecodeError::InvalidLastSymbol(i, b),
        Base64DecodeError::InvalidPadding => base64::DecodeError::InvalidPadding,
    };
    err.to_string()
}

/// Serialize bytes to a lower-case hex string.
pub fn to_hex(data: &[u8]) -> (s: String)
    ensures
        s@ == hex_encode_spec(data@),
{
    hex_encode(data)
}

/// Parse a hex string (digits of either case) to bytes.
pub fn from_hex(s: &str) -> (r: Result<Vec<u8>>)
    ensures
        match r {
            Ok(v) => hex_decode_spec(s@) == Some(v@),
            Err(e) => hex_decode_spec(s@) is None && (e matches ZkCtError::SerializationError(t)
                && t@ == hex_error_display(hex_decode_error_spec(s.spec_bytes()))),
        },
{
    match hex_decode(s) {
        Ok(v) => Ok(v),
        Err(e) => Err(ZkCtError::SerializationError(hex_error_text(e))),
    }
}

/// Serialize bytes to standard padded base64.
pub fn to_base64(data: &[u8]) -> (s: String)
    ensures
        s@ == base64_encode_spec(data@),
{
    base64_encode(data)
}

/// Parse standard padded base64 to bytes.
pub fn from_base64(s: &str) -> (r: Result<Vec<u8>>)
    ensures
        match r {
            Ok(v) => base64_decode_spec(s@) == Some(v@),
            Err(e) => base64_decode_spec(s@) is None && (e matches ZkCtError::SerializationError(t)
                && t@ == base64_error_display(base64_decode_error_spec(s@))),
        },
{
    match base64_decode(s) {
        Ok(v) => {
            proof {
                lemma_base64_roundtrip(v@);
            }
            Ok(v)
        },
        Err(e) => Err(ZkCtError::SerializationError(base64_error_text(e))),
    }
}

/// SHA-256 of `data`.
pub fn sha256_hash(data: &[u8]) -> (digest: [u8; 32])
    ensures
        digest@ == sha256_spec(data@),
{
    sha256_digest(data)
}

/// The size part of the fee: 1000 per KiB, at least 1000.
pub open spec fn fee_size_component(size_bytes: int) -> int {
    if size_bytes <= 1024 {
        1000
    } else {
        size_bytes * 1000 / 1024
    }
}

/// The fee estimate: a base of 5000, the size part, and one per thousand
/// compute units.
pub open spec fn fee_estimate(size_bytes: int, compute_units: int) -> int {
    5000 + fee_size_component(size_bytes) + compute_units / 1000
}

/// Estimate the fee of a transaction of `size_bytes` bytes using
/// `compute_units` compute units.
pub fn estimate_fee(size_bytes: usize, compute_units: u32) -> (fee: u64)
    ensures
        fee == fee_estimate(size_bytes as int, compute_units as int),
{
    let base_fee: u64 = 5000;
    let size_component: u64 = if size_bytes <= 1024 {
        1000
    } else {
        let x: u128 = size_bytes as u128;
        assert(x * 1000 < 18014398509481984000 * 1024);
        assert(x * 1000 / 1024 <= 18014398509481983999);
        let wide: u128 = x * 1000 / 1024;
        wide as u64
    };
    let cu_cost: u64 = (compute_units / 1000) as u64;
    assert(cu_cost <= 4294967);
    base_fee + size_component + cu_cost
}

/// Check that a transaction of `size` bytes fits within `limit`.
pub fn validate_v1_size(size: usize, limit: usize) -> (r: Result<()>)
    ensures
        r is Ok <==> size <= limit,
        r matches Err(e) ==> e is TransactionTooLarge,
{
    if size > limit {
        Err(ZkCtError::TransactionTooLarge)
    } else {
        Ok(())
    }
}

} // verus!
