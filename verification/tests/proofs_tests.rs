use zk_ct_sdk::proofs::BatchProofGenerator;
use zk_ct_sdk::{PedersenCommitment, ProofGenerator};

#[test]
fn proof_generator_setup_is_consistent() {
    let generator = ProofGenerator::new(1000, b"transfer");
    let (commitment, proof, randomness) = generator.generate().unwrap();
    assert_eq!(commitment, PedersenCommitment::new(1000, &randomness));
    assert_eq!(proof.commitment, commitment);
}

#[test]
fn batch_generates_one_setup_per_transfer_in_order() {
    let mut batch = BatchProofGenerator::new();
    batch.add_transfer(10, b"a");
    batch.add_transfer(20, b"b");
    let setups = batch.generate_all().unwrap();
    assert_eq!(setups.len(), 2);
    assert_eq!(setups[0].0, PedersenCommitment::new(10, &setups[0].2));
    assert_eq!(setups[1].0, PedersenCommitment::new(20, &setups[1].2));
}

#[test]
fn empty_batch() {
    let batch = BatchProofGenerator::default();
    assert!(batch.generate_all().unwrap().is_empty());
}
