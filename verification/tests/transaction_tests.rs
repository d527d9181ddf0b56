use zk_ct_sdk::transaction::{
    derive_sender_pubkey, try_derive_sender_pubkey, AccountMeta, TransactionConfig,
};
use zk_ct_sdk::{KZ1Proof, PedersenCommitment, ZkCtError, ZkTransferTxBuilder};

fn account(b: u8) -> AccountMeta {
    AccountMeta { pubkey: [b; 32], is_signer: false, is_writable: true }
}

#[test]
fn default_config() {
    let c = TransactionConfig::default();
    assert_eq!(c.compute_units, 200_000);
    assert_eq!(c.loaded_accounts_data_size, 0);
    assert_eq!(c.heap_frame, 32_768);
    assert_eq!(c.priority_fee, 0);
}

#[test]
fn build_without_amount_fails() {
    let r = ZkTransferTxBuilder::new().with_recipient([1u8; 32]).build();
    match r {
        Err(ZkCtError::InvalidProof(m)) => assert_eq!(m, "amount not set"),
        _ => panic!("expected an error"),
    }
}

#[test]
fn build_without_recipient_fails() {
    let r = ZkTransferTxBuilder::new().with_amount(5).build();
    match r {
        Err(ZkCtError::InvalidProof(m)) => assert_eq!(m, "recipient not set"),
        _ => panic!("expected an error"),
    }
}

#[test]
fn build_generates_a_consistent_transfer() {
    let tx = ZkTransferTxBuilder::new()
        .with_amount(1000)
        .with_recipient([2u8; 32])
        .with_message(b"pay".to_vec())
        .with_compute_units(300_000)
        .with_priority_fee(7)
        .with_account(account(1))
        .with_account(account(2))
        .build()
        .unwrap();
    assert_eq!(tx.transfer_data.amount, 1000);
    assert_eq!(tx.transfer_data.recipient, [2u8; 32]);
    assert!(tx.transfer_data.fee_payer.is_none());
    assert_eq!(tx.transfer_data.proof.commitment, tx.transfer_data.commitment);
    assert_eq!(tx.config.compute_units, 300_000);
    assert_eq!(tx.config.priority_fee, 7);
    assert_eq!(tx.accounts.len(), 2);
    assert_eq!(tx.size_limit, 4096);
    assert_eq!(tx.size(), 29 + 360 + 2 * 32);
    assert!(tx.is_valid_size());
    assert_eq!(tx.estimate_gas(), 5000);
}

#[test]
fn build_with_is_deterministic() {
    let fresh = [3u8; 32];
    let make = || {
        ZkTransferTxBuilder::new()
            .with_amount(42)
            .with_recipient([9u8; 32])
            .build_with(fresh, [4u8; 32], [5u8; 32])
            .unwrap()
    };
    let a = make();
    let b = make();
    assert_eq!(a.transfer_data.commitment, PedersenCommitment::new(42, &fresh));
    assert_eq!(a.transfer_data.proof.challenge, b.transfer_data.proof.challenge);
    let expected = KZ1Proof::generate_with_nonces(42, fresh, b"", [4u8; 32], [5u8; 32]);
    assert_eq!(a.transfer_data.proof.response_r, expected.response_r);
    assert_eq!(a.transfer_data.proof.response_v, expected.response_v);
}

#[test]
fn build_with_matching_proof_succeeds() {
    let fresh = [8u8; 32];
    let proof = KZ1Proof::generate_with_nonces(10, fresh, b"x", [1u8; 32], [1u8; 32]);
    let tx = ZkTransferTxBuilder::new()
        .with_amount(10)
        .with_recipient([1u8; 32])
        .with_proof(&proof)
        .build_with(fresh, [0u8; 32], [0u8; 32])
        .unwrap();
    assert_eq!(tx.transfer_data.proof.challenge, proof.challenge);
}

#[test]
fn build_accepts_a_caller_made_proof() {
    let proof = KZ1Proof::generate(1000, rand::random(), b"hello").unwrap();
    let keypair = zk_ct_sdk::WOTSKeyPair::from_seed(&[1u8; 32]).unwrap();
    let tx = ZkTransferTxBuilder::new()
        .with_amount(1000)
        .with_recipient([5u8; 32])
        .with_sender_keypair(&keypair)
        .with_proof(&proof)
        .build()
        .unwrap();
    assert_eq!(tx.transfer_data.proof.challenge, proof.challenge);
    assert_eq!(tx.transfer_data.proof.commitment, proof.commitment);
    assert_eq!(tx.transfer_data.commitment, proof.commitment);
}

#[test]
fn built_proof_verifies_for_the_message() {
    let tx = ZkTransferTxBuilder::new()
        .with_amount(9)
        .with_recipient([5u8; 32])
        .with_message(b"pay nine".to_vec())
        .build()
        .unwrap();
    assert!(tx.transfer_data.proof.verify(b"pay nine"));
}

#[test]
fn build_with_matching_randomness_and_proof_succeeds() {
    let randomness = [8u8; 32];
    let proof = KZ1Proof::generate_with_nonces(10, randomness, b"x", [1u8; 32], [1u8; 32]);
    let tx = ZkTransferTxBuilder::new()
        .with_amount(10)
        .with_recipient([1u8; 32])
        .with_randomness(randomness)
        .with_proof(&proof)
        .build()
        .unwrap();
    assert_eq!(tx.transfer_data.commitment, PedersenCommitment::new(10, &randomness));
}

#[test]
fn build_with_mismatched_proof_fails() {
    let proof = KZ1Proof::generate_with_nonces(10, [8u8; 32], b"x", [1u8; 32], [1u8; 32]);
    let r = ZkTransferTxBuilder::new()
        .with_amount(10)
        .with_recipient([1u8; 32])
        .with_randomness([9u8; 32])
        .with_proof(&proof)
        .build_with([9u8; 32], [0u8; 32], [0u8; 32]);
    match r {
        Err(ZkCtError::InvalidProof(m)) => assert_eq!(m, "proof commitment mismatch"),
        _ => panic!("expected a mismatch"),
    }
}

#[test]
fn size_counts_at_most_64_accounts() {
    let mut b = ZkTransferTxBuilder::new().with_amount(1).with_recipient([1u8; 32]);
    for i in 0..70u8 {
        b = b.with_account(account(i));
    }
    let tx = b.build().unwrap();
    assert_eq!(tx.size(), 29 + 360 + 64 * 32);
    assert!(tx.is_valid_size());
    assert_eq!(tx.estimate_gas(), (2437u64 * 5000) / 1024);
}

#[test]
fn wire_format() {
    let tx = ZkTransferTxBuilder::new()
        .with_amount(1)
        .with_recipient([1u8; 32])
        .build_with([2u8; 32], [3u8; 32], [4u8; 32])
        .unwrap();
    let td = tx.transfer_data.to_bytes();
    let bytes = tx.to_bytes();
    assert_eq!(bytes.len(), 226);
    assert_eq!(bytes[0], 0x81);
    assert_eq!(&bytes[1..5], &(td.len() as u32).to_le_bytes());
    assert_eq!(&bytes[5..5 + td.len()], &td[..]);
    let rest = &bytes[5 + td.len()..];
    assert_eq!(rest[0], 0x0f);
    assert_eq!(&rest[1..5], &200_000u32.to_le_bytes());
    assert_eq!(&rest[5..9], &0u32.to_le_bytes());
    assert_eq!(&rest[9..13], &32_768u32.to_le_bytes());
    assert_eq!(&rest[13..21], &0u64.to_le_bytes());
    assert_eq!(rest.len(), 21);

    let ix = tx.to_instruction();
    assert_eq!(ix.data, td);
    assert_eq!(ix.accounts.len(), 0);
}

#[test]
fn sender_pubkey_is_the_program_address() {
    let commitment = [7u8; 32];
    let mut program_id = [0u8; 32];
    program_id[5..29].copy_from_slice(&[
        1, 129, 147, 20, 178, 187, 192, 228, 171, 68, 68, 164, 24, 49, 191, 65, 5, 184, 211, 46,
        56, 17, 131, 11,
    ]);
    let expected = solana_program::pubkey::Pubkey::find_program_address(
        &[&commitment, b"sender"],
        &solana_program::pubkey::Pubkey::new_from_array(program_id),
    )
    .0;
    assert_eq!(derive_sender_pubkey(&commitment), expected.to_bytes());
    assert_eq!(try_derive_sender_pubkey(&commitment), Some(expected.to_bytes()));
}
