//! ZK Confidential Transfer SDK for Solana v1 transactions.
//!
//! Post-quantum confidential transfers built from Winternitz one-time
//! signatures and KZ1 commitment-to-knowledge proofs.
pub mod errors;
pub mod kz1;
pub mod primitives;
pub mod proofs;
pub mod schnorr;
pub mod transaction;
pub mod utils;
pub mod wots;

pub use errors::{Result, ZkCtError};
pub use kz1::{ConfidentialTransferData, KZ1Proof, PedersenCommitment};
pub use proofs::ProofGenerator;
pub use transaction::{V1Transaction, ZkTransferTxBuilder};
pub use wots::WOTSKeyPair;

use vstd::prelude::*;

verus! {

/// Base of the WOTS+ chains.
pub const WOTS_PARAM: u8 = 16;

/// log2 of the chain base.
pub const WOTS_LOG_W: u8 = 4;

/// Hash output length in bytes.
pub const WOTS_N: usize = 32;

/// Message digest length in bits.
pub const WOTS_K: usize = 256;

/// Number of base-W digits of a message digest.
pub const WOTS_LEN1: usize = 64;

/// Number of base-W digits of the checksum.
pub const WOTS_LEN2: usize = 2;

/// Total number of chains.
pub const WOTS_LEN: usize = WOTS_LEN1 + WOTS_LEN2;

/// Secret key length in bytes.
pub const WOTS_SK_LEN: usize = WOTS_LEN * WOTS_N;

/// Public key length in bytes.
pub const WOTS_PK_LEN: usize = WOTS_LEN * WOTS_N;

/// Signature length in bytes.
pub const WOTS_SIG_LEN: usize = WOTS_LEN * WOTS_N;

/// Maximum transaction size for the v1 format.
pub const MAX_TRANSACTION_SIZE: usize = 4096;

} // verus!
