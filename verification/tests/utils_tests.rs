use zk_ct_sdk::utils::{
    estimate_fee, from_base64, from_hex, sha256_hash, to_base64, to_hex, validate_v1_size,
};
use zk_ct_sdk::ZkCtError;

#[test]
fn test_hex_roundtrip() {
    let data = [0x01, 0x02, 0x03, 0x04];
    let hex = to_hex(&data);
    let decoded = from_hex(&hex).unwrap();
    assert_eq!(decoded, data.to_vec());
}

#[test]
fn test_sha256() {
    let input = b"test";
    let hash = sha256_hash(input);
    assert_eq!(hash.len(), 32);
}

#[test]
fn to_hex_is_lower_case_pairs() {
    assert_eq!(to_hex(&[0x01, 0xab, 0xff, 0x00]), "01abff00");
    assert_eq!(to_hex(&[]), "");
}

#[test]
fn from_hex_accepts_both_cases() {
    assert_eq!(from_hex("ABcd").unwrap(), vec![0xab, 0xcd]);
}

#[test]
fn from_hex_rejects_odd_length() {
    assert!(matches!(from_hex("123"), Err(ZkCtError::SerializationError(_))));
}

#[test]
fn from_hex_rejects_non_hex() {
    assert!(matches!(from_hex("zz"), Err(ZkCtError::SerializationError(_))));
}

#[test]
fn sha256_known_vector() {
    let hash = sha256_hash(b"test");
    assert_eq!(
        to_hex(&hash),
        "9f86d081884c7d659a2feaa0c55ad015a3bf4f1b2b0b822cd15d6c15b0f00a08"
    );
}

#[test]
fn base64_known_vectors() {
    assert_eq!(to_base64(b"hello"), "aGVsbG8=");
    assert_eq!(to_base64(b"hi"), "aGk=");
    assert_eq!(to_base64(b"abc"), "YWJj");
    assert_eq!(to_base64(b""), "");
    assert_eq!(to_base64(&[0xfb, 0xff]), "+/8=");
}

#[test]
fn base64_roundtrip() {
    let data = vec![0u8, 1, 2, 250, 251, 252, 253];
    assert_eq!(from_base64(&to_base64(&data)).unwrap(), data);
}

#[test]
fn from_base64_rejects_invalid() {
    assert!(matches!(from_base64("a$b="), Err(ZkCtError::SerializationError(_))));
}

#[test]
fn estimate_fee_values() {
    assert_eq!(estimate_fee(100, 0), 6000);
    assert_eq!(estimate_fee(1024, 999), 6000);
    assert_eq!(estimate_fee(2048, 200_000), 5000 + 2000 + 200);
    assert_eq!(estimate_fee(1536, 1000), 5000 + 1500 + 1);
}

#[test]
fn validate_v1_size_limits() {
    assert!(validate_v1_size(4096, 4096).is_ok());
    assert!(matches!(validate_v1_size(4097, 4096), Err(ZkCtError::TransactionTooLarge)));
}

#[test]
fn from_base64_requires_canonical_encoding() {
    assert_eq!(from_base64("QQ==").unwrap(), vec![b'A']);
    assert!(from_base64("QR==").is_err());
    assert!(from_base64("QQ").is_err());
    assert!(from_base64("QQ=").is_err());
    assert!(from_base64("QQ==QQ==").is_err());
    assert_eq!(from_base64("").unwrap(), Vec::<u8>::new());
}

#[test]
fn from_hex_error_texts() {
    match from_hex("123") {
        Err(ZkCtError::SerializationError(t)) => assert_eq!(t, "Odd number of digits"),
        _ => panic!("expected an error"),
    }
    match from_hex("zz") {
        Err(ZkCtError::SerializationError(t)) => {
            assert_eq!(t, "Invalid character 'z' at position 0")
        }
        _ => panic!("expected an error"),
    }
    match from_hex("0g") {
        Err(ZkCtError::SerializationError(t)) => {
            assert_eq!(t, "Invalid character 'g' at position 1")
        }
        _ => panic!("expected an error"),
    }
}

#[test]
fn from_base64_error_texts() {
    match from_base64("QQ") {
        Err(ZkCtError::SerializationError(t)) => assert_eq!(t, "Invalid padding"),
        _ => panic!("expected an error"),
    }
    assert!(matches!(from_base64("Q$=="), Err(ZkCtError::SerializationError(_))));
}
