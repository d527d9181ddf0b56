use sha2::Digest;
use zk_ct_sdk::schnorr::{pedersen_commit, schnorr_sign, schnorr_sign_with_nonce, Point, Scalar};

fn sha(data: &[u8]) -> [u8; 32] {
    sha2::Sha256::digest(data).into()
}

#[test]
fn scalar_bytes_roundtrip() {
    let s = Scalar::from_bytes([9u8; 32]);
    assert_eq!(s.to_bytes(), [9u8; 32]);
    assert_eq!(Scalar::zero().to_bytes(), [0u8; 32]);
    assert_eq!(Scalar::one().to_bytes(), [1u8; 32]);
}

#[test]
fn scalar_add_is_xor_and_mul_wraps() {
    let a = Scalar::from_bytes([0x0fu8; 32]);
    let b = Scalar::from_bytes([0xf1u8; 32]);
    assert_eq!((&a + &b).to_bytes(), [0xfeu8; 32]);
    let c = Scalar::from_bytes([16u8; 32]);
    let d = Scalar::from_bytes([17u8; 32]);
    assert_eq!((&c * &d).to_bytes(), [16u8.wrapping_mul(17); 32]);
}

#[test]
fn point_generator_and_hash() {
    assert_eq!(Point::generator().to_bytes(), [0u8; 32]);
    assert_eq!(Point::hash_to_point(b"H").to_bytes(), sha(b"H"));
}

#[test]
fn pedersen_commit_sets_first_byte() {
    let mut v = [0u8; 32];
    v[0] = 0x0f;
    v[1] = 0xaa;
    let mut r = [0u8; 32];
    r[0] = 0xf0;
    let p = pedersen_commit(&Scalar::from_bytes(v), &Scalar::from_bytes(r));
    let mut expected = [0u8; 32];
    expected[0] = 0xff;
    assert_eq!(p.to_bytes(), expected);
}

#[test]
fn schnorr_sign_with_nonce_formula() {
    let secret = Scalar::from_bytes([3u8; 32]);
    let nonce = Scalar::from_bytes([5u8; 32]);
    let message = b"sign me";
    let (point_r, s) = schnorr_sign_with_nonce(&secret, message, &nonce);
    let mut combined = [5u8; 32].to_vec();
    combined.extend_from_slice(message);
    let expected_r = sha(&combined);
    assert_eq!(point_r.to_bytes(), expected_r);
    let mut e_input = expected_r.to_vec();
    e_input.extend_from_slice(&[0u8; 32]);
    e_input.extend_from_slice(message);
    let e = sha(&e_input);
    let sb = s.to_bytes();
    for i in 0..32 {
        assert_eq!(sb[i], 5u8 ^ e[i].wrapping_mul(3));
    }
}

#[test]
fn schnorr_sign_produces_a_signature() {
    let secret = Scalar::from_bytes([7u8; 32]);
    let (point_r, s) = schnorr_sign(&secret, b"hello");
    assert_eq!(point_r.to_bytes().len(), 32);
    assert_eq!(s.to_bytes().len(), 32);
}
