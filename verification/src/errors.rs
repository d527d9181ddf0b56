//! Error type of the SDK.
use vstd::prelude::*;

verus! {

/// Errors reported by the SDK.
#[derive(Debug)]
pub enum ZkCtError {
    InvalidProof(String),
    SignatureFailed(String),
    TransactionTooLarge,
    InvalidCommitment(String),
    RandomnessError(String),
    SerializationError(String),
    MissingComputeLimit,
    MissingField(String),
    InvalidRecipient(String),
    AccountLimitExceeded(String),
}

/// Result type of the SDK.
pub type Result<T> = core::result::Result<T, ZkCtError>;

/// The API code of each error kind.
pub open spec fn error_code(e: ZkCtError) -> Seq<char> {
    match e {
        ZkCtError::InvalidProof(_) => "INVALID_PROOF"@,
        ZkCtError::SignatureFailed(_) => "SIGNATURE_FAILED"@,
        ZkCtError::TransactionTooLarge => "TX_TOO_LARGE"@,
        ZkCtError::InvalidCommitment(_) => "INVALID_COMMITMENT"@,
        ZkCtError::RandomnessError(_) => "RANDOMNESS_ERROR"@,
        ZkCtError::SerializationError(_) => "SERIALIZATION_ERROR"@,
        ZkCtError::MissingComputeLimit => "MISSING_COMPUTE_LIMIT"@,
        ZkCtError::MissingField(_) => "MISSING_FIELD"@,
        ZkCtError::InvalidRecipient(_) => "INVALID_RECIPIENT"@,
        ZkCtError::AccountLimitExceeded(_) => "ACCOUNT_LIMIT_EXCEEDED"@,
    }
}

/// The human-readable message of each error.
pub open spec fn error_message(e: ZkCtError) -> Seq<char> {
    match e {
        ZkCtError::InvalidProof(s) => "Invalid proof: "@ + s@,
        ZkCtError::SignatureFailed(s) => "Signature verification failed: "@ + s@,
        ZkCtError::TransactionTooLarge => "Transaction exceeds 4096 byte limit"@,
        ZkCtError::InvalidCommitment(s) => "Invalid commitment: "@ + s@,
        ZkCtError::RandomnessError(s) => "Randomness error: "@ + s@,
        ZkCtError::SerializationError(s) => "Serialization error: "@ + s@,
        ZkCtError::MissingComputeLimit => "Compute unit limit not set for v1 transaction"@,
        ZkCtError::MissingField(s) => "Missing required field: "@ + s@,
        ZkCtError::InvalidRecipient(s) => "Invalid recipient: "@ + s@,
        ZkCtError::AccountLimitExceeded(s) => "Account limit exceeded: "@ + s@,
    }
}

impl ZkCtError {
    /// Check if the error is recoverable.
    pub fn is_recoverable(&self) -> (r: bool)
        ensures
            r == (self is InvalidCommitment || self is MissingField),
    {
        match self {
            ZkCtError::InvalidCommitment(_) | ZkCtError::MissingField(_) => true,
            _ => false,
        }
    }

    /// Error code for API responses.
    pub fn code(&self) -> (code: &'static str)
        ensures
            code@ == error_code(*self),
    {
        match self {
            ZkCtError::InvalidProof(_) => "INVALID_PROOF",
            ZkCtError::SignatureFailed(_) => "SIGNATURE_FAILED",
            ZkCtError::TransactionTooLarge => "TX_TOO_LARGE",
            ZkCtError::InvalidCommitment(_) => "INVALID_COMMITMENT",
            ZkCtError::RandomnessError(_) => "RANDOMNESS_ERROR",
            ZkCtError::SerializationError(_) => "SERIALIZATION_ERROR",
            ZkCtError::MissingComputeLimit => "MISSING_COMPUTE_LIMIT",
            ZkCtError::MissingField(_) => "MISSING_FIELD",
            ZkCtError::InvalidRecipient(_) => "INVALID_RECIPIENT",
            ZkCtError::AccountLimitExceeded(_) => "ACCOUNT_LIMIT_EXCEEDED",
        }
    }

    /// The human-readable message of the error.
    pub fn to_string(&self) -> (msg: String)
        ensures
            msg@ == error_message(*self),
    {
        match self {
            ZkCtError::InvalidProof(s) => String::from_str("Invalid proof: ").concat(s.as_str()),
            ZkCtError::SignatureFailed(s) => String::from_str(
                "Signature verification failed: ",
            ).concat(s.as_str()),
            ZkCtError::TransactionTooLarge => String::from_str(
                "Transaction exceeds 4096 byte limit",
            ),
            ZkCtError::InvalidCommitment(s) => String::from_str("Invalid commitment: ").concat(
                s.as_str(),
            ),
            ZkCtError::RandomnessError(s) => String::from_str("Randomness error: ").concat(
                s.as_str(),
            ),
            ZkCtError::SerializationError(s) => String::from_str("Serialization error: ").concat(
                s.as_str(),
            ),
            ZkCtError::MissingComputeLimit => String::from_str(
                "Compute unit limit not set for v1 transaction",
            ),
            ZkCtError::MissingField(s) => String::from_str("Missing required field: ").concat(
                s.as_str(),
            ),
            ZkCtError::InvalidRecipient(s) => String::from_str("Invalid recipient: ").concat(
                s.as_str(),
            ),
            ZkCtError::AccountLimitExceeded(s) => String::from_str("Account limit exceeded: ").concat(
                s.as_str(),
            ),
        }
    }
}

} // verus!
