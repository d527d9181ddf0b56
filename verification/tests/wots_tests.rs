use sha2::Digest;
use zk_ct_sdk::wots::{chain, verify_signature, WOTS_LEN};
use zk_ct_sdk::WOTSKeyPair;

#[test]
fn test_keypair_generation() {
    let keypair = WOTSKeyPair::generate().unwrap();
    assert_eq!(keypair.secret_key.len(), WOTS_LEN);
    assert_eq!(keypair.public_key.len(), WOTS_LEN);
}

#[test]
fn test_sign_verify() {
    let keypair = WOTSKeyPair::generate().unwrap();
    let message = b"confidential transfer: 1000 tokens";

    let signature = keypair.sign(message);
    assert!(keypair.verify_message(message, &signature));
}

#[test]
fn test_verify_standalone() {
    let keypair = WOTSKeyPair::generate().unwrap();
    let message = b"transfer 500 tokens";

    let signature = keypair.sign(message);
    assert!(verify_signature(message, &signature, &keypair.public_key));
}

#[test]
fn test_wrong_message_fails() {
    let keypair = WOTSKeyPair::generate().unwrap();
    let msg1 = b"transfer 1000 tokens";
    let msg2 = b"transfer 2000 tokens";

    let signature = keypair.sign(msg1);
    assert!(!keypair.verify_message(msg2, &signature));
}

#[test]
fn test_deterministic_keypair() {
    let seed = [42u8; 32];
    let keypair1 = WOTSKeyPair::from_seed(&seed).unwrap();
    let keypair2 = WOTSKeyPair::from_seed(&seed).unwrap();

    assert_eq!(keypair1.secret_key, keypair2.secret_key);
    assert_eq!(keypair1.public_key, keypair2.public_key);
}

#[test]
fn seeded_keypair_signs_and_verifies() {
    let keypair = WOTSKeyPair::from_seed(&[7u8; 32]).unwrap();
    let message = b"seeded transfer";
    let signature = keypair.sign(message);
    assert!(keypair.verify_message(message, &signature));
    assert!(verify_signature(message, &signature, &keypair.public_key));
}

#[test]
fn from_seed_uses_sha256_of_seed_and_index() {
    let seed = [3u8; 32];
    let keypair = WOTSKeyPair::from_seed(&seed).unwrap();
    for i in 0..66usize {
        let mut input = seed.to_vec();
        input.push(i as u8);
        let expected: [u8; 32] = sha2::Sha256::digest(&input).into();
        assert_eq!(keypair.secret_key[i], expected);
    }
}

#[test]
fn public_key_is_sixteen_hash_steps_from_secret() {
    let keypair = WOTSKeyPair::from_seed(&[9u8; 32]).unwrap();
    for i in 0..66usize {
        let mut x = keypair.secret_key[i];
        for _ in 0..16 {
            x = sha2::Sha256::digest(&x).into();
        }
        assert_eq!(keypair.public_key[i], x);
    }
}

#[test]
fn from_secret_key_keeps_the_seeds() {
    let sk = [[5u8; 32]; 66];
    let keypair = WOTSKeyPair::from_secret_key(sk);
    assert_eq!(keypair.secret_key, sk);
    assert_ne!(keypair.public_key, sk);
}

#[test]
fn tampered_signature_fails() {
    let keypair = WOTSKeyPair::from_seed(&[11u8; 32]).unwrap();
    let message = b"transfer 42 tokens";
    let mut signature = keypair.sign(message);
    signature[10][0] ^= 1;
    assert!(!keypair.verify_message(message, &signature));
}

#[test]
fn signature_against_other_key_fails() {
    let kp1 = WOTSKeyPair::from_seed(&[1u8; 32]).unwrap();
    let kp2 = WOTSKeyPair::from_seed(&[2u8; 32]).unwrap();
    let message = b"transfer 7 tokens";
    let signature = kp1.sign(message);
    assert!(!verify_signature(message, &signature, &kp2.public_key));
}

#[test]
fn public_key_bytes_flattens_the_chain_ends() {
    let keypair = WOTSKeyPair::from_seed(&[4u8; 32]).unwrap();
    let bytes = keypair.public_key_bytes();
    assert_eq!(bytes.len(), 66 * 32);
    for i in 0..66usize {
        assert_eq!(&bytes[i * 32..(i + 1) * 32], &keypair.public_key[i][..]);
    }
}

#[test]
fn clone_is_equal() {
    let keypair = WOTSKeyPair::from_seed(&[8u8; 32]).unwrap();
    let copy = keypair.clone();
    assert_eq!(copy.secret_key, keypair.secret_key);
    assert_eq!(copy.public_key, keypair.public_key);
}

#[test]
fn chain_composes_and_counts_steps() {
    let x = [12u8; 32];
    assert_eq!(chain(&x, 5, 5), x);
    assert_eq!(chain(&x, 7, 3), x);
    let one: [u8; 32] = sha2::Sha256::digest(&x).into();
    assert_eq!(chain(&x, 0, 1), one);
    assert_eq!(chain(&chain(&x, 0, 3), 0, 4), chain(&x, 0, 7));
    assert_eq!(chain(&x, 2, 9), chain(&x, 0, 7));
}
