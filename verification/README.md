# zk_ct_sdk

Verified core of a confidential-transfer SDK for Solana v1 transactions.

- `src/wots.rs`: Winternitz one-time signatures (base-16 SHA-256 chains);
  signing followed by verification with a well-formed key pair is proved to
  succeed.
- `src/kz1.rs`: hash-based commitments and KZ1 proofs over GF(2)^256 (a
  generated proof is proved to verify for its message), and the binary
  transfer data layout.
- `src/schnorr.rs`: byte-wise scalars and points, Schnorr-style signing.
- `src/proofs.rs`: single and batched proof generation.
- `src/transaction.rs`: transaction builder (a caller-made proof is accepted),
  size rules and the v1 wire format, proved to fit in 4096 bytes.
- `src/utils.rs`: hex, base64, SHA-256 and fee helpers.
- `src/primitives.rs`: the SHA-256 and randomness calls the library trusts,
  and byte helpers.
- `app/`: the WOTS command-line tool and the serde / thiserror / Solana forms
  of the library's types.
