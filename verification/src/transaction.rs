//! Builder and wire format of v1 confidential transfer transactions.
use crate::errors::{Result, ZkCtError};
use crate::kz1::{
    is_kz1_proof, kz1_accepts, lemma_generated_proof_verifies, pedersen_bytes,
    transfer_data_bytes, ConfidentialTransferData, KZ1Proof, PedersenCommitment,
};
use crate::primitives::{
    append_bytes, append_u32_le, append_u64_le, bytes32_eq, le_u32_value, le_u64_value,
    lemma_u32_le_bytes_decode, lemma_u64_le_bytes_decode, random_bytes32, u32_le_bytes,
    u64_le_bytes,
};
use crate::wots::WOTSKeyPair;
use vstd::prelude::*;

verus! {

/// Maximum accounts counted in a v1 transaction.
pub const MAX_ACCOUNTS: usize = 64;

/// Default compute unit limit.
const DEFAULT_COMPUTE_UNITS: u32 = 200000;

/// Default heap frame size.
const DEFAULT_HEAP_FRAME: u32 = 32768;

/// Default loaded accounts data size limit.
const DEFAULT_LOADED_DATA_SIZE: u32 = 0;

/// Base fee used by the gas estimate.
const BASE_FEE: u64 = 5000;

/// v1 transaction configuration.
#[derive(Clone, Copy, Debug)]
pub struct TransactionConfig {
    /// Compute unit limit (required for v1).
    pub compute_units: u32,
    /// Loaded accounts data size limit.
    pub loaded_accounts_data_size: u32,
    /// Heap frame size.
    pub heap_frame: u32,
    /// Priority fee in micro-lamports.
    pub priority_fee: u64,
}

impl Default for TransactionConfig {
    fn default() -> (config: Self)
        ensures
            config == (TransactionConfig {
                compute_units: 200000,
                loaded_accounts_data_size: 0,
                heap_frame: 32768,
                priority_fee: 0,
            }),
    {
        TransactionConfig {
            compute_units: DEFAULT_COMPUTE_UNITS,
            loaded_accounts_data_size: DEFAULT_LOADED_DATA_SIZE,
            heap_frame: DEFAULT_HEAP_FRAME,
            priority_fee: 0,
        }
    }
}

/// An account taking part in the transaction.
#[derive(Clone, Copy, Debug)]
pub struct AccountMeta {
    /// The account's public key.
    pub pubkey: [u8; 32],
    /// Whether the account signs the transaction.
    pub is_signer: bool,
    /// Whether the account is written by the transaction.
    pub is_writable: bool,
}

/// An instruction of the confidential transfer program.
#[derive(Debug)]
pub struct Instruction {
    /// Program that executes the instruction.
    pub program_id: [u8; 32],
    /// Accounts passed to the program.
    pub accounts: Vec<AccountMeta>,
    /// Instruction data.
    pub data: Vec<u8>,
}

/// Address of the confidential transfer program. Its name,
/// `ConfTransfer111111111111111111111111`, is not a valid 32-byte base58
/// address: read as a base58 number it has 27 bytes. These are those 27
/// bytes, big-endian, after five zero bytes (the leading zeros that five more
/// leading `1` digits would encode).
pub open spec fn transfer_program_id() -> Seq<u8> {
    seq![
        0u8, 0u8, 0u8, 0u8, 0u8, 1u8, 129u8, 147u8, 20u8, 178u8, 187u8, 192u8, 228u8, 171u8, 68u8,
        68u8, 164u8, 24u8, 49u8, 191u8, 65u8, 5u8, 184u8, 211u8, 46u8, 56u8, 17u8, 131u8, 11u8,
        0u8, 0u8, 0u8,
    ]
}

/// The address of the confidential transfer program.
fn transfer_program_id_array() -> (id: [u8; 32])
    ensures
        id@ == transfer_program_id(),
{
    let id: [u8; 32] = [
        0u8, 0u8, 0u8, 0u8, 0u8, 1u8, 129u8, 147u8, 20u8, 178u8, 187u8, 192u8, 228u8, 171u8, 68u8,
        68u8, 164u8, 24u8, 49u8, 191u8, 65u8, 5u8, 184u8, 211u8, 46u8, 56u8, 17u8, 131u8, 11u8,
        0u8, 0u8, 0u8,
    ];
    assert(id@ =~= transfer_program_id());
    id
}

/// Size estimate of a v1 transaction with `n_accounts` accounts: 29 bytes of
/// framing, 360 bytes of transfer data, and 32 bytes per account counted up
/// to `MAX_ACCOUNTS`.
pub open spec fn tx_size(n_accounts: int) -> int {
    29 + 360 + (if n_accounts < 64 {
        n_accounts
    } else {
        64
    }) * 32
}

/// The size estimate starts at 389 bytes with no accounts, grows by 32
/// bytes with each account while there are fewer than `MAX_ACCOUNTS`, and
/// stays at 2437 bytes from `MAX_ACCOUNTS` accounts on.
pub proof fn lemma_tx_size_growth(n: int)
    requires
        0 <= n,
    ensures
        tx_size(0) == 389,
        n < 64 ==> tx_size(n + 1) == tx_size(n) + 32,
        n < 64 ==> tx_size(n) == 389 + 32 * n,
        n >= 64 ==> tx_size(n + 1) == tx_size(n),
        n >= 64 ==> tx_size(n) == 2437,
{
}

/// What a builder holds: the fields set so far.
pub struct TxBuilderState {
    pub amount: Option<u64>,
    pub recipient: Option<[u8; 32]>,
    pub sender_keypair: Option<WOTSKeyPair>,
    pub proof: Option<KZ1Proof>,
    pub config: TransactionConfig,
    pub accounts: Seq<AccountMeta>,
    pub randomness: Option<[u8; 32]>,
    pub message: Option<Seq<u8>>,
}

/// The blinding bytes `build` uses: the builder's own; fresh ones when an
/// amount is set and neither blinding bytes nor a proof were set; none when
/// a proof was set without blinding bytes.
pub open spec fn effective_randomness(s: TxBuilderState, fresh: [u8; 32]) -> Option<[u8; 32]> {
    if s.amount is Some && s.randomness is None && s.proof is None {
        Some(fresh)
    } else {
        s.randomness
    }
}

/// The message bytes used by `build`: empty when none was set.
pub open spec fn effective_message(s: TxBuilderState) -> Seq<u8> {
    match s.message {
        Some(m) => m,
        None => Seq::empty(),
    }
}

/// `data` is the transfer data built from the builder state `s`: with a
/// set proof, that proof and its commitment; otherwise the commitment to the
/// amount with the blinding bytes `randomness` and the proof made with the
/// nonces `r_prime` and `v_prime`.
pub open spec fn is_built_transfer_data(
    data: ConfidentialTransferData,
    s: TxBuilderState,
    randomness: [u8; 32],
    r_prime: [u8; 32],
    v_prime: [u8; 32],
) -> bool {
    &&& s.amount is Some
    &&& s.recipient is Some
    &&& data.amount == s.amount->0
    &&& data.recipient == s.recipient->0
    &&& data.fee_payer is None
    &&& match s.proof {
        Some(p) => data.proof == p && data.commitment == p.commitment,
        None => data.commitment.bytes@ == pedersen_bytes(s.amount->0, randomness@) && is_kz1_proof(
            data.proof,
            s.amount->0,
            randomness@,
            effective_message(s),
            r_prime@,
            v_prime@,
        ),
    }
}

/// `r` is what `build` returns for the builder state `s` when it draws the
/// blinding bytes `fresh` and the proof nonces `r_prime` and `v_prime`:
/// - no amount: `InvalidProof("amount not set")`;
/// - no recipient: `InvalidProof("recipient not set")`;
/// - a set proof and set blinding bytes whose commitment to the amount
///   differs from the proof's: `InvalidProof("proof commitment mismatch")`;
/// - otherwise the transaction with the built transfer data, the builder's
///   configuration and accounts, and the 4096-byte size limit.
pub open spec fn is_build_outcome(
    s: TxBuilderState,
    r: Result<V1Transaction>,
    fresh: [u8; 32],
    r_prime: [u8; 32],
    v_prime: [u8; 32],
) -> bool {
    if s.amount is None {
        r matches Err(ZkCtError::InvalidProof(m)) && m@ == "amount not set"@
    } else if s.recipient is None {
        r matches Err(ZkCtError::InvalidProof(m)) && m@ == "recipient not set"@
    } else if s.proof is Some && s.randomness is Some && s.proof->0.commitment.bytes@
        != pedersen_bytes(s.amount->0, s.randomness->0@) {
        r matches Err(ZkCtError::InvalidProof(m)) && m@ == "proof commitment mismatch"@
    } else {
        r matches Ok(tx) && is_built_transfer_data(
            tx.transfer_data,
            s,
            effective_randomness(s, fresh)->0,
            r_prime,
            v_prime,
        ) && tx.config == s.config && tx.accounts@ == s.accounts && tx.size_limit == 4096
    }
}

/// The transfer data bytes have a fixed length: 200 bytes, and 32 more with
/// a fee payer.
pub proof fn lemma_transfer_data_len(data: ConfidentialTransferData)
    ensures
        transfer_data_bytes(data).len() == if data.fee_payer is Some {
            232int
        } else {
            200int
        },
{
}

/// Every transaction that `build` returns fits within its size limit,
/// which is the 4096-byte v1 limit: both its size estimate and its wire
/// bytes.
pub proof fn lemma_built_transaction_fits(
    s: TxBuilderState,
    r: Result<V1Transaction>,
    fresh: [u8; 32],
    r_prime: [u8; 32],
    v_prime: [u8; 32],
)
    requires
        is_build_outcome(s, r, fresh, r_prime, v_prime),
        r is Ok,
    ensures
        r matches Ok(tx) && tx_size(tx.accounts@.len() as int) <= tx.size_limit
            && tx.size_limit == 4096 && v1_wire_bytes(tx).len() <= tx.size_limit,
{
    lemma_transfer_data_len(r->Ok_0.transfer_data);
}

/// Every transaction that `build` returns carries a proof whose commitment
/// is the transfer's commitment; unless a proof was set without blinding
/// bytes, that commitment is the commitment to the amount with the blinding
/// bytes used.
pub proof fn lemma_built_proof_matches_commitment(
    s: TxBuilderState,
    r: Result<V1Transaction>,
    fresh: [u8; 32],
    r_prime: [u8; 32],
    v_prime: [u8; 32],
)
    requires
        is_build_outcome(s, r, fresh, r_prime, v_prime),
        r is Ok,
    ensures
        r matches Ok(tx) && tx.transfer_data.proof.commitment == tx.transfer_data.commitment && (
        s.proof is None || s.randomness is Some ==> tx.transfer_data.commitment.bytes@
            == pedersen_bytes(tx.transfer_data.amount, effective_randomness(s, fresh)->0@)),
{
    let tx = r->Ok_0;
    assert(tx.transfer_data.proof.commitment.bytes =~= tx.transfer_data.commitment.bytes);
}

/// A proof that `build` makes itself is accepted for the builder's message.
pub proof fn lemma_built_proof_verifies(
    s: TxBuilderState,
    r: Result<V1Transaction>,
    fresh: [u8; 32],
    r_prime: [u8; 32],
    v_prime: [u8; 32],
)
    requires
        is_build_outcome(s, r, fresh, r_prime, v_prime),
        r is Ok,
        s.proof is None,
    ensures
        r matches Ok(tx) && kz1_accepts(tx.transfer_data.proof, effective_message(s)),
{
    let tx = r->Ok_0;
    lemma_generated_proof_verifies(
        tx.transfer_data.proof,
        s.amount->0,
        effective_randomness(s, fresh)->0@,
        effective_message(s),
        r_prime@,
        v_prime@,
    );
}

/// A builder with an amount, a recipient and a caller-made proof, and no
/// blinding bytes, builds: the transaction carries that proof and its
/// commitment.
pub proof fn lemma_build_accepts_caller_proof(
    s: TxBuilderState,
    r: Result<V1Transaction>,
    fresh: [u8; 32],
    r_prime: [u8; 32],
    v_prime: [u8; 32],
)
    requires
        is_build_outcome(s, r, fresh, r_prime, v_prime),
        s.amount is Some,
        s.recipient is Some,
        s.proof is Some,
        s.randomness is None,
    ensures
        r matches Ok(tx) && tx.transfer_data.proof == s.proof->0
            && tx.transfer_data.commitment == s.proof->0.commitment,
{
}

/// Builder for v1 confidential transfer transactions.
pub struct ZkTransferTxBuilder {
    amount: Option<u64>,
    recipient: Option<[u8; 32]>,
    sender_keypair: Option<WOTSKeyPair>,
    proof: Option<KZ1Proof>,
    config: TransactionConfig,
    accounts: Vec<AccountMeta>,
    randomness: Option<[u8; 32]>,
    message: Option<Vec<u8>>,
}

impl View for ZkTransferTxBuilder {
    type V = TxBuilderState;

    closed spec fn view(&self) -> TxBuilderState {
        TxBuilderState {
            amount: self.amount,
            recipient: self.recipient,
            sender_keypair: self.sender_keypair,
            proof: self.proof,
            config: self.config,
            accounts: self.accounts@,
            randomness: self.randomness,
            message: match self.message {
                Some(m) => Some(m@),
                None => None,
            },
        }
    }
}

impl ZkTransferTxBuilder {
    /// A builder with nothing set and the default configuration.
    pub fn new() -> (builder: Self)
        ensures
            builder@ == (TxBuilderState {
                amount: None,
                recipient: None,
                sender_keypair: None,
                proof: None,
                config: TransactionConfig {
                    compute_units: 200000,
                    loaded_accounts_data_size: 0,
                    heap_frame: 32768,
                    priority_fee: 0,
                },
                accounts: Seq::empty(),
                randomness: None,
                message: None,
            }),
    {
        let b = ZkTransferTxBuilder {
            amount: None,
            recipient: None,
            sender_keypair: None,
            proof: None,
            config: TransactionConfig::default(),
            accounts: Vec::new(),
            randomness: None,
            message: None,
        };
        assert(b@.accounts =~= Seq::<AccountMeta>::empty());
        b
    }

    /// Set the transfer amount.
    pub fn with_amount(self, amount: u64) -> (builder: Self)
        ensures
            builder@ == (TxBuilderState { amount: Some(amount), ..self@ }),
    {
        let mut s = self;
        s.amount = Some(amount);
        s
    }

    /// Set the recipient public key.
    pub fn with_recipient(self, recipient: [u8; 32]) -> (builder: Self)
        ensures
            builder@ == (TxBuilderState { recipient: Some(recipient), ..self@ }),
    {
        let mut s = self;
        s.recipient = Some(recipient);
        s
    }

    /// Set the sender's WOTS key pair.
    pub fn with_sender_keypair(self, keypair: &WOTSKeyPair) -> (builder: Self)
        ensures
            builder@ == (TxBuilderState { sender_keypair: Some(*keypair), ..self@ }),
    {
        let mut s = self;
        s.sender_keypair = Some(keypair.clone());
        s
    }

    /// Set the KZ1 proof.
    pub fn with_proof(self, proof: &KZ1Proof) -> (builder: Self)
        ensures
            builder@ == (TxBuilderState { proof: Some(*proof), ..self@ }),
    {
        let mut s = self;
        s.proof = Some(proof.clone());
        s
    }

    /// Set the compute unit limit.
    pub fn with_compute_units(self, units: u32) -> (builder: Self)
        ensures
            builder@ == (TxBuilderState {
                config: TransactionConfig { compute_units: units, ..self@.config },
                ..self@
            }),
    {
        let mut s = self;
        s.config.compute_units = units;
        s
    }

    /// Set the priority fee.
    pub fn with_priority_fee(self, fee: u64) -> (builder: Self)
        ensures
            builder@ == (TxBuilderState {
                config: TransactionConfig { priority_fee: fee, ..self@.config },
                ..self@
            }),
    {
        let mut s = self;
        s.config.priority_fee = fee;
        s
    }

    /// Set the message being transferred.
    pub fn with_message(self, message: Vec<u8>) -> (builder: Self)
        ensures
            builder@ == (TxBuilderState { message: Some(message@), ..self@ }),
    {
        let mut s = self;
        s.message = Some(message);
        s
    }

    /// Set the blinding bytes of the commitment.
    pub fn with_randomness(self, randomness: [u8; 32]) -> (builder: Self)
        ensures
            builder@ == (TxBuilderState { randomness: Some(randomness), ..self@ }),
    {
        let mut s = self;
        s.randomness = Some(randomness);
        s
    }

    /// Add an account to the transaction.
    pub fn with_account(self, meta: AccountMeta) -> (builder: Self)
        ensures
            builder@ == (TxBuilderState { accounts: self@.accounts.push(meta), ..self@ }),
    {
        let mut s = self;
        s.accounts.push(meta);
        s
    }

    /// Build the confidential transfer data: with a set proof, that proof
    /// and its commitment, checked against the commitment to the amount when
    /// blinding bytes are set; otherwise a proof made with the nonces
    /// `r_prime` and `v_prime`.
    fn build_transfer_data(&self, r_prime: [u8; 32], v_prime: [u8; 32]) -> (r: Result<
        ConfidentialTransferData,
    >)
        ensures
            self.amount is None ==> (r matches Err(ZkCtError::InvalidProof(m)) && m@
                == "amount not set"@),
            self.amount is Some && self.recipient is None ==> (r matches Err(
                ZkCtError::InvalidProof(m),
            ) && m@ == "recipient not set"@),
            self.amount is Some && self.recipient is Some && self.proof is None
                && self.randomness is None ==> (r matches Err(ZkCtError::InvalidProof(m)) && m@
                == "randomness not set"@),
            self.amount is Some && self.recipient is Some && self.proof is Some
                && self.randomness is Some && self.proof->0.commitment.bytes@ != pedersen_bytes(
                self.amount->0,
                self.randomness->0@,
            ) ==> (r matches Err(ZkCtError::InvalidProof(m)) && m@
                == "proof commitment mismatch"@),
            self.amount is Some && self.recipient is Some && (self.proof is Some
                || self.randomness is Some) && !(self.proof is Some && self.randomness is Some
                && self.proof->0.commitment.bytes@ != pedersen_bytes(
                self.amount->0,
                self.randomness->0@,
            )) ==> (r matches Ok(d) && is_built_transfer_data(
                d,
                self@,
                self.randomness->0,
                r_prime,
                v_prime,
            )),
    {
        let amount = match self.amount {
            Some(a) => a,
            None => {
                return Err(ZkCtError::InvalidProof(String::from_str("amount not set")));
            },
        };
        let recipient = match self.recipient {
            Some(r) => r,
            None => {
                return Err(ZkCtError::InvalidProof(String::from_str("recipient not set")));
            },
        };
        let set_proof = &self.proof;
        match set_proof {
            Some(p) => {
                match self.randomness {
                    Some(randomization) => {
                        let commitment = PedersenCommitment::new(amount, &randomization);
                        if !bytes32_eq(&p.commitment.bytes, &commitment.bytes) {
                            return Err(
                                ZkCtError::InvalidProof(
                                    String::from_str("proof commitment mismatch"),
                                ),
                            );
                        }
                    },
                    None => {},
                }
                Ok(
                    ConfidentialTransferData {
                        recipient,
                        commitment: p.commitment.clone(),
                        proof: p.clone(),
                        amount,
                        fee_payer: None,
                    },
                )
            },
            None => {
                let randomization = match self.randomness {
                    Some(r) => r,
                    None => {
                        return Err(ZkCtError::InvalidProof(String::from_str("randomness not set")));
                    },
                };
                let commitment = PedersenCommitment::new(amount, &randomization);
                let proof = match &self.message {
                    Some(m) => KZ1Proof::generate_with_nonces(
                        amount,
                        randomization,
                        m.as_slice(),
                        r_prime,
                        v_prime,
                    ),
                    None => {
                        let empty: [u8; 0] = [];
                        assert(empty@ =~= Seq::<u8>::empty());
                        KZ1Proof::generate_with_nonces(
                            amount,
                            randomization,
                            &empty,
                            r_prime,
                            v_prime,
                        )
                    },
                };
                Ok(ConfidentialTransferData { recipient, commitment, proof, amount, fee_payer: None })
            },
        }
    }

    /// Build the v1 transaction with the given draws: `fresh` blinding bytes
    /// (used when an amount is set and neither blinding bytes nor a proof
    /// are) and the proof nonces (used when no proof is set).
    pub fn build_with(self, fresh: [u8; 32], r_prime: [u8; 32], v_prime: [u8; 32]) -> (r: Result<
        V1Transaction,
    >)
        ensures
            is_build_outcome(self@, r, fresh, r_prime, v_prime),
    {
        let ghost s = self@;
        let mut b = self;
        if b.amount.is_some() && b.randomness.is_none() && b.proof.is_none() {
            b.randomness = Some(fresh);
        }
        assert(b@.randomness == effective_randomness(s, fresh));
        let transfer_data = b.build_transfer_data(r_prime, v_prime)?;
        assert(is_built_transfer_data(
            transfer_data,
            s,
            effective_randomness(s, fresh)->0,
            r_prime,
            v_prime,
        ));
        let size = Self::estimate_size(&transfer_data, b.accounts.as_slice(), &b.config);
        if size > crate::MAX_TRANSACTION_SIZE {
            return Err(ZkCtError::TransactionTooLarge);
        }
        Ok(V1Transaction {
            transfer_data,
            config: b.config,
            accounts: b.accounts,
            size_limit: crate::MAX_TRANSACTION_SIZE,
        })
    }

    /// Build the v1 transaction, drawing fresh blinding bytes when an amount
    /// is set and neither blinding bytes nor a proof are, and fresh proof
    /// nonces when no proof is set.
    pub fn build(self) -> (r: Result<V1Transaction>)
        ensures
            exists|fresh: [u8; 32], r_prime: [u8; 32], v_prime: [u8; 32]|
                #![trigger is_build_outcome(self@, r, fresh, r_prime, v_prime)]
                is_build_outcome(self@, r, fresh, r_prime, v_prime),
    {
        let ghost s = self@;
        let fresh = if self.amount.is_some() && self.randomness.is_none() && self.proof.is_none() {
            random_bytes32()
        } else {
            [0u8; 32]
        };
        let (r_prime, v_prime) = if self.proof.is_none() {
            (random_bytes32(), random_bytes32())
        } else {
            ([0u8; 32], [0u8; 32])
        };
        let r = self.build_with(fresh, r_prime, v_prime);
        assert(is_build_outcome(s, r, fresh, r_prime, v_prime));
        r
    }

    /// Estimated transaction size.
    fn estimate_size(
        data: &ConfidentialTransferData,
        accounts: &[AccountMeta],
        config: &TransactionConfig,
    ) -> (size: usize)
        ensures
            size == tx_size(accounts@.len() as int),
    {
        let tx_data_size = data.estimated_size();
        let counted = if accounts.len() < MAX_ACCOUNTS {
            accounts.len()
        } else {
            MAX_ACCOUNTS
        };
        let accounts_size = counted * 32;
        let overhead = 1 + 4 + 4 + 4 + 4 + 4 + 8;
        overhead + tx_data_size + accounts_size
    }
}

impl Default for ZkTransferTxBuilder {
    fn default() -> (builder: Self)
        ensures
            builder@ == (TxBuilderState {
                amount: None,
                recipient: None,
                sender_keypair: None,
                proof: None,
                config: TransactionConfig {
                    compute_units: 200000,
                    loaded_accounts_data_size: 0,
                    heap_frame: 32768,
                    priority_fee: 0,
                },
                accounts: Seq::empty(),
                randomness: None,
                message: None,
            }),
    {
        Self::new()
    }
}

/// v1 wire format: the 0x81 discriminator, the transfer data length as a
/// little-endian `u32`, the transfer data, the 0x0F config mask, and the
/// four config values in little-endian order.
pub open spec fn v1_wire_bytes(tx: V1Transaction) -> Seq<u8> {
    let td = transfer_data_bytes(tx.transfer_data);
    seq![0x81u8] + u32_le_bytes(td.len() as u32) + td + seq![0x0Fu8] + u32_le_bytes(
        tx.config.compute_units,
    ) + u32_le_bytes(tx.config.loaded_accounts_data_size) + u32_le_bytes(tx.config.heap_frame)
        + u64_le_bytes(tx.config.priority_fee)
}

/// Reading the v1 wire bytes back: byte 0 is 0x81, bytes 1..5 give the
/// length `n` of the transfer data in little-endian order, the transfer
/// data follows, then the 0x0F config mask, and then, each in its own
/// little-endian slot, the compute units, the loaded accounts data size,
/// the heap frame and, in the last eight bytes, the priority fee.
pub proof fn lemma_wire_bytes_fields(tx: V1Transaction)
    ensures
        ({
            let w = v1_wire_bytes(tx);
            let td = transfer_data_bytes(tx.transfer_data);
            let n = td.len() as int;
            &&& w.len() == n + 26
            &&& w[0] == 0x81u8
            &&& le_u32_value(w.subrange(1, 5)) == n
            &&& w.subrange(5, 5 + n) == td
            &&& w[5 + n] == 0x0Fu8
            &&& le_u32_value(w.subrange(6 + n, 10 + n)) == tx.config.compute_units
            &&& le_u32_value(w.subrange(10 + n, 14 + n)) == tx.config.loaded_accounts_data_size
            &&& le_u32_value(w.subrange(14 + n, 18 + n)) == tx.config.heap_frame
            &&& le_u64_value(w.subrange(18 + n, 26 + n)) == tx.config.priority_fee
        }),
{
    let w = v1_wire_bytes(tx);
    let td = transfer_data_bytes(tx.transfer_data);
    let n = td.len() as int;
    lemma_transfer_data_len(tx.transfer_data);
    lemma_u32_le_bytes_decode(n as u32);
    lemma_u32_le_bytes_decode(tx.config.compute_units);
    lemma_u32_le_bytes_decode(tx.config.loaded_accounts_data_size);
    lemma_u32_le_bytes_decode(tx.config.heap_frame);
    lemma_u64_le_bytes_decode(tx.config.priority_fee);
    assert(w.subrange(1, 5) =~= u32_le_bytes(n as u32));
    assert(w.subrange(5, 5 + n) =~= td);
    assert(w.subrange(6 + n, 10 + n) =~= u32_le_bytes(tx.config.compute_units));
    assert(w.subrange(10 + n, 14 + n) =~= u32_le_bytes(tx.config.loaded_accounts_data_size));
    assert(w.subrange(14 + n, 18 + n) =~= u32_le_bytes(tx.config.heap_frame));
    assert(w.subrange(18 + n, 26 + n) =~= u64_le_bytes(tx.config.priority_fee));
}

/// Gas estimate: the base fee scaled by the size in KiB, at least the base
/// fee.
pub open spec fn gas_estimate(size: int) -> int {
    if size <= 1024 {
        5000
    } else {
        size * 5000 / 1024
    }
}

/// A v1 confidential transfer transaction.
#[derive(Debug)]
pub struct V1Transaction {
    /// Transfer data.
    pub transfer_data: ConfidentialTransferData,
    /// Transaction configuration.
    pub config: TransactionConfig,
    /// Additional accounts.
    pub accounts: Vec<AccountMeta>,
    /// Maximum transaction size.
    pub size_limit: usize,
}

impl Clone for V1Transaction {
    fn clone(&self) -> (copy: Self)
        ensures
            copy.transfer_data == self.transfer_data,
            copy.config == self.config,
            copy.accounts@ == self.accounts@,
            copy.size_limit == self.size_limit,
    {
        let accounts = self.accounts.clone();
        assert(accounts@ =~= self.accounts@);
        V1Transaction {
            transfer_data: self.transfer_data.clone(),
            config: self.config,
            accounts,
            size_limit: self.size_limit,
        }
    }
}

impl V1Transaction {
    /// Transaction size in bytes.
    pub fn size(&self) -> (size: usize)
        ensures
            size == tx_size(self.accounts@.len() as int),
    {
        ZkTransferTxBuilder::estimate_size(
            &self.transfer_data,
            self.accounts.as_slice(),
            &self.config,
        )
    }

    /// Whether the transaction fits in its size limit.
    pub fn is_valid_size(&self) -> (valid: bool)
        ensures
            valid == (tx_size(self.accounts@.len() as int) <= self.size_limit),
    {
        self.size() <= self.size_limit
    }

    /// Serialize for the v1 wire format.
    pub fn to_bytes(&self) -> (bytes: Vec<u8>)
        ensures
            bytes@ == v1_wire_bytes(*self),
            bytes@.len() == if self.transfer_data.fee_payer is Some {
                258int
            } else {
                226int
            },
    {
        let mut bytes: Vec<u8> = Vec::new();
        bytes.push(0x81u8);
        let tx_data = self.transfer_data.to_bytes();
        append_u32_le(&mut bytes, tx_data.len() as u32);
        append_bytes(&mut bytes, tx_data.as_slice());
        bytes.push(0x0Fu8);
        append_u32_le(&mut bytes, self.config.compute_units);
        append_u32_le(&mut bytes, self.config.loaded_accounts_data_size);
        append_u32_le(&mut bytes, self.config.heap_frame);
        append_u64_le(&mut bytes, self.config.priority_fee);
        assert(bytes@ =~= v1_wire_bytes(*self));
        bytes
    }

    /// The confidential transfer program instruction.
    pub fn to_instruction(&self) -> (ix: Instruction)
        ensures
            ix.program_id@ == transfer_program_id(),
            ix.accounts@ == self.accounts@,
            ix.data@ == transfer_data_bytes(self.transfer_data),
    {
        let program_id = transfer_program_id_array();
        let accounts = self.accounts.clone();
        assert(accounts@ =~= self.accounts@);
        Instruction { program_id, accounts, data: self.transfer_data.to_bytes() }
    }

    /// Estimated gas fee.
    pub fn estimate_gas(&self) -> (gas: u64)
        ensures
            gas == gas_estimate(tx_size(self.accounts@.len() as int)),
    {
        let size = self.size();
        if size <= 1024 {
            BASE_FEE
        } else {
            (size as u64) * BASE_FEE / 1024
        }
    }
}

/// The program derived address and bump seed that
/// `Pubkey::try_find_program_address` finds for the seeds under the program
/// id; `None` when it finds none.
pub uninterp spec fn program_address_spec(seeds: Seq<Seq<u8>>, program_id: Seq<u8>) -> Option<
    (Seq<u8>, u8),
>;

/// Calls `solana_program::pubkey::Pubkey::try_find_program_address` with
/// the two seeds and the program id; the result is named by
/// `program_address_spec`.
#[verifier::external_body]
fn try_find_program_address(seed0: &[u8], seed1: &[u8], program_id: &[u8; 32]) -> (r: Option<
    ([u8; 32], u8),
>)
    ensures
        match r {
            Some((address, bump)) => program_address_spec(seq![seed0@, seed1@], program_id@)
                == Some((address@, bump)),
            None => program_address_spec(seq![seed0@, seed1@], program_id@) is None,
        },
{
    let program = solana_program::pubkey::Pubkey::new_from_array(*program_id);
    match solana_program::pubkey::Pubkey::try_find_program_address(&[seed0, seed1], &program) {
        Some((address, bump)) => Some((address.to_bytes(), bump)),
        None => None,
    }
}

/// The seed label "sender".
pub open spec fn sender_seed() -> Seq<u8> {
    seq![115u8, 101u8, 110u8, 100u8, 101u8, 114u8]
}

/// The address derivation of a sender from a commitment.
pub open spec fn sender_address(commitment_bytes: Seq<u8>) -> Option<(Seq<u8>, u8)> {
    program_address_spec(seq![commitment_bytes, sender_seed()], transfer_program_id())
}

/// Derive the sender public key from a commitment: the program derived
/// address of the seeds (commitment, "sender") under the transfer program.
pub fn derive_sender_pubkey(commitment_bytes: &[u8; 32]) -> (pubkey: [u8; 32])
    requires
        sender_address(commitment_bytes@) is Some,
    ensures
        pubkey@ == (sender_address(commitment_bytes@)->0).0,
{
    let seed: [u8; 6] = [115u8, 101u8, 110u8, 100u8, 101u8, 114u8];
    assert(seed@ =~= sender_seed());
    let program_id = transfer_program_id_array();
    match try_find_program_address(commitment_bytes, &seed, &program_id) {
        Some((address, _bump)) => address,
        None => {
            assert(false);
            [0u8; 32]
        },
    }
}

/// Derive the sender public key from a commitment, or `None` when the
/// derivation finds no address.
pub fn try_derive_sender_pubkey(commitment_bytes: &[u8; 32]) -> (pubkey: Option<[u8; 32]>)
    ensures
        match pubkey {
            Some(pk) => sender_address(commitment_bytes@) matches Some(a) && pk@ == a.0,
            None => sender_address(commitment_bytes@) is None,
        },
{
    let seed: [u8; 6] = [115u8, 101u8, 110u8, 100u8, 101u8, 114u8];
    assert(seed@ =~= sender_seed());
    let program_id = transfer_program_id_array();
    match try_find_program_address(commitment_bytes, &seed, &program_id) {
        Some(_) => Some(derive_sender_pubkey(commitment_bytes)),
        None => None,
    }
}

} // verus!
