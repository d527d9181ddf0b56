use zk_ct_sdk::ZkCtError;

#[test]
fn recoverable_errors() {
    assert!(ZkCtError::InvalidCommitment("x".to_string()).is_recoverable());
    assert!(ZkCtError::MissingField("x".to_string()).is_recoverable());
    assert!(!ZkCtError::InvalidProof("x".to_string()).is_recoverable());
    assert!(!ZkCtError::TransactionTooLarge.is_recoverable());
}

#[test]
fn error_codes() {
    assert_eq!(ZkCtError::InvalidProof(String::new()).code(), "INVALID_PROOF");
    assert_eq!(ZkCtError::SignatureFailed(String::new()).code(), "SIGNATURE_FAILED");
    assert_eq!(ZkCtError::TransactionTooLarge.code(), "TX_TOO_LARGE");
    assert_eq!(ZkCtError::InvalidCommitment(String::new()).code(), "INVALID_COMMITMENT");
    assert_eq!(ZkCtError::RandomnessError(String::new()).code(), "RANDOMNESS_ERROR");
    assert_eq!(ZkCtError::SerializationError(String::new()).code(), "SERIALIZATION_ERROR");
    assert_eq!(ZkCtError::MissingComputeLimit.code(), "MISSING_COMPUTE_LIMIT");
    assert_eq!(ZkCtError::MissingField(String::new()).code(), "MISSING_FIELD");
    assert_eq!(ZkCtError::InvalidRecipient(String::new()).code(), "INVALID_RECIPIENT");
    assert_eq!(ZkCtError::AccountLimitExceeded(String::new()).code(), "ACCOUNT_LIMIT_EXCEEDED");
}

#[test]
fn error_messages() {
    assert_eq!(ZkCtError::InvalidProof("bad".to_string()).to_string(), "Invalid proof: bad");
    assert_eq!(
        ZkCtError::TransactionTooLarge.to_string(),
        "Transaction exceeds 4096 byte limit"
    );
    assert_eq!(
        ZkCtError::MissingComputeLimit.to_string(),
        "Compute unit limit not set for v1 transaction"
    );
    assert_eq!(
        ZkCtError::AccountLimitExceeded("65".to_string()).to_string(),
        "Account limit exceeded: 65"
    );
}
