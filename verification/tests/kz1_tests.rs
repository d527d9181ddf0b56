use sha2::Digest;
use zk_ct_sdk::{ConfidentialTransferData, KZ1Proof, PedersenCommitment};

fn sha(data: &[u8]) -> [u8; 32] {
    sha2::Sha256::digest(data).into()
}

fn expected_commitment(value: u64, randomness: &[u8; 32]) -> [u8; 32] {
    let g = sha(b"G");
    let h = sha(b"H");
    let mut gh = g.to_vec();
    gh.extend_from_slice(&h);
    let base = sha(&gh);
    let vb = value.to_le_bytes();
    let mut out = [0u8; 32];
    for i in 0..32 {
        let v = if i < 8 { vb[i] } else { 0 };
        out[i] = base[i] ^ randomness[i] ^ v;
    }
    out
}

#[test]
fn test_pedersen_commitment() {
    let randomness = rand::random();
    let commitment = PedersenCommitment::new(1000, &randomness);
    assert_eq!(commitment.bytes.len(), 32);
}

#[test]
fn commitment_formula() {
    let randomness = [0x5au8; 32];
    let value = 0x0102_0304_0506_0708u64;
    let c = PedersenCommitment::new(value, &randomness);
    assert_eq!(c.bytes, expected_commitment(value, &randomness));
    assert_eq!(PedersenCommitment::create(value, &randomness), c);
}

#[test]
fn commitments_differ_by_value() {
    let randomness = [7u8; 32];
    assert!(PedersenCommitment::new(1, &randomness) != PedersenCommitment::new(2, &randomness));
}

#[test]
fn test_kz1_proof_roundtrip() {
    let message = b"transfer 1000 tokens to recipient";
    let randomness = rand::random();

    let proof = KZ1Proof::generate(1000, randomness, message).unwrap();
    assert!(proof.verify(message), "KZ1 proof verification failed");
}

#[test]
fn test_confidential_transfer_data() {
    let data = ConfidentialTransferData {
        recipient: [1u8; 32],
        commitment: PedersenCommitment::new(1000, &rand::random()),
        proof: KZ1Proof::generate(1000, rand::random(), b"test").unwrap(),
        amount: 1000,
        fee_payer: None,
    };

    let serialized = data.to_bytes();
    assert!(serialized.len() < 512, "Transfer data should fit in v1 transaction");
}

fn base() -> [u8; 32] {
    let g = sha(b"G");
    let h = sha(b"H");
    let mut gh = g.to_vec();
    gh.extend_from_slice(&h);
    sha(&gh)
}

#[test]
fn proof_with_nonces_formula() {
    let value = 1000u64;
    let randomness = [3u8; 32];
    let r_prime = [5u8; 32];
    let v_prime = [9u8; 32];
    let message = b"transfer 1000 tokens";
    let proof = KZ1Proof::generate_with_nonces(value, randomness, message, r_prime, v_prime);
    let commitment = expected_commitment(value, &randomness);
    assert_eq!(proof.commitment.bytes, commitment);
    let b = base();
    let mut input = commitment.to_vec();
    for i in 0..32 {
        input.push(b[i] ^ r_prime[i] ^ v_prime[i]);
    }
    input.extend_from_slice(message);
    input.extend_from_slice(b"KZ1");
    let challenge = sha(&input);
    assert_eq!(proof.challenge, challenge);
    let mut vb = [0u8; 32];
    vb[..8].copy_from_slice(&value.to_le_bytes());
    for i in 0..32 {
        assert_eq!(proof.response_r[i], r_prime[i] ^ (challenge[i] & randomness[i]));
        assert_eq!(proof.response_v[i], v_prime[i] ^ (challenge[i] & vb[i]));
    }
}

#[test]
fn generate_commits_to_the_value() {
    let randomness = [1u8; 32];
    let proof = KZ1Proof::generate(77, randomness, b"msg").unwrap();
    assert_eq!(proof.commitment, PedersenCommitment::new(77, &randomness));
}

#[test]
fn proof_verifies_only_for_its_message() {
    let proof = KZ1Proof::generate_with_nonces(5, [2u8; 32], b"m", [4u8; 32], [6u8; 32]);
    assert!(proof.verify(b"m"));
    assert!(!proof.verify(b"other"));
}

#[test]
fn tampered_proof_fails() {
    let mut proof = KZ1Proof::generate_with_nonces(5, [2u8; 32], b"m", [4u8; 32], [6u8; 32]);
    proof.response_v[3] ^= 0x10;
    assert!(!proof.verify(b"m"));
    let mut proof2 = KZ1Proof::generate_with_nonces(5, [2u8; 32], b"m", [4u8; 32], [6u8; 32]);
    proof2.commitment.bytes[0] ^= 1;
    assert!(!proof2.verify(b"m"));
}

#[test]
fn transfer_data_layout() {
    let proof = KZ1Proof::generate_with_nonces(1000, [3u8; 32], b"t", [1u8; 32], [2u8; 32]);
    let data = ConfidentialTransferData {
        recipient: [1u8; 32],
        commitment: proof.commitment.clone(),
        proof,
        amount: 1000,
        fee_payer: None,
    };
    let bytes = data.to_bytes();
    let mut expected = vec![1u8; 32];
    expected.extend_from_slice(&data.commitment.bytes);
    expected.extend_from_slice(&data.proof.challenge);
    expected.extend_from_slice(&data.proof.response_r);
    expected.extend_from_slice(&data.proof.response_v);
    expected.extend_from_slice(&data.proof.commitment.bytes);
    expected.extend_from_slice(&1000u64.to_le_bytes());
    assert_eq!(bytes, expected);
    assert_eq!(bytes.len(), 200);
    assert_eq!(data.estimated_size(), 360);

    let mut with_payer = data.clone();
    with_payer.fee_payer = Some([6u8; 32]);
    let bytes2 = with_payer.to_bytes();
    expected.extend_from_slice(&[6u8; 32]);
    assert_eq!(bytes2, expected);
}
