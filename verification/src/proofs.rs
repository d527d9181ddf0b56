//! Proof generation for single and batched confidential transfers.
use crate::errors::Result;
use crate::kz1::{is_kz1_proof_for_some_nonces, pedersen_bytes, KZ1Proof, PedersenCommitment};
use crate::primitives::random_bytes32;
use vstd::prelude::*;

verus! {

/// `out` is a confidential transfer setup for `amount` and `message`: the
/// commitment with the returned blinding bytes, and a KZ1 proof of it.
pub open spec fn is_transfer_setup(
    out: (PedersenCommitment, KZ1Proof, [u8; 32]),
    amount: u64,
    message: Seq<u8>,
) -> bool {
    &&& out.0.bytes@ == pedersen_bytes(amount, out.2@)
    &&& out.1.commitment == out.0
    &&& is_kz1_proof_for_some_nonces(out.1, amount, out.2@, message)
}

/// Proof generator for one confidential transfer.
pub struct ProofGenerator {
    message: Vec<u8>,
    amount: u64,
}

impl View for ProofGenerator {
    /// The amount and the message.
    type V = (u64, Seq<u8>);

    closed spec fn view(&self) -> (u64, Seq<u8>) {
        (self.amount, self.message@)
    }
}

impl ProofGenerator {
    /// Create a new proof generator.
    pub fn new(amount: u64, message: &[u8]) -> (generator: Self)
        ensures
            generator@ == (amount, message@),
    {
        let mut copy: Vec<u8> = Vec::new();
        crate::primitives::append_bytes(&mut copy, message);
        assert(copy@ =~= message@);
        ProofGenerator { message: copy, amount }
    }

    /// Generate a complete confidential transfer setup with fresh random
    /// blinding bytes.
    pub fn generate(&self) -> (out: Result<(PedersenCommitment, KZ1Proof, [u8; 32])>)
        ensures
            out matches Ok(o) && is_transfer_setup(o, self@.0, self@.1),
    {
        let randomness = random_bytes32();
        let commitment = PedersenCommitment::new(self.amount, &randomness);
        let proof = KZ1Proof::generate(self.amount, randomness, self.message.as_slice())?;
        assert(proof.commitment.bytes =~= commitment.bytes);
        Ok((commitment, proof, randomness))
    }
}

/// Batch proof generation for several transfers.
pub struct BatchProofGenerator {
    transfers: Vec<(u64, Vec<u8>)>,
}

impl View for BatchProofGenerator {
    /// The (amount, message) pairs in insertion order.
    type V = Seq<(u64, Seq<u8>)>;

    closed spec fn view(&self) -> Seq<(u64, Seq<u8>)> {
        self.transfers@.map_values(|t: (u64, Vec<u8>)| (t.0, t.1@))
    }
}

impl BatchProofGenerator {
    /// An empty batch.
    pub fn new() -> (batch: Self)
        ensures
            batch@ == Seq::<(u64, Seq<u8>)>::empty(),
    {
        let batch = BatchProofGenerator { transfers: Vec::new() };
        assert(batch@ =~= Seq::<(u64, Seq<u8>)>::empty());
        batch
    }

    /// Add a transfer to the batch.
    pub fn add_transfer(&mut self, amount: u64, message: &[u8])
        ensures
            final(self)@ == old(self)@.push((amount, message@)),
    {
        let mut copy: Vec<u8> = Vec::new();
        crate::primitives::append_bytes(&mut copy, message);
        assert(copy@ =~= message@);
        self.transfers.push((amount, copy));
        assert(self@ =~= old(self)@.push((amount, message@)));
    }

    /// Generate a setup for each transfer, in order.
    pub fn generate_all(&self) -> (out: Result<Vec<(PedersenCommitment, KZ1Proof, [u8; 32])>>)
        ensures
            out matches Ok(v) && v@.len() == self@.len() && (forall|i: int|
                0 <= i < v@.len() ==> is_transfer_setup(
                    #[trigger] v@[i],
                    self@[i].0,
                    self@[i].1,
                )),
    {
        let mut results: Vec<(PedersenCommitment, KZ1Proof, [u8; 32])> = Vec::new();
        let mut i: usize = 0;
        while i < self.transfers.len()
            invariant
                i <= self.transfers@.len(),
                results@.len() == i,
                self@.len() == self.transfers@.len(),
                forall|k: int|
                    0 <= k < i ==> is_transfer_setup(#[trigger] results@[k], self@[k].0, self@[k].1),
            decreases self.transfers@.len() - i,
        {
            let (amount, msg) = &self.transfers[i];
            let generator = ProofGenerator::new(*amount, msg.as_slice());
            let setup = generator.generate()?;
            results.push(setup);
            i = i + 1;
        }
        Ok(results)
    }
}

impl Default for BatchProofGenerator {
    fn default() -> (batch: Self)
        ensures
            batch@ == Seq::<(u64, Seq<u8>)>::empty(),
    {
        Self::new()
    }
}

} // verus!
