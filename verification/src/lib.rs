//! A sparse Merkle tree over a Poseidon hash for the MNT 753-bit curve
//! cycle, with machine-checked proofs.
//!
//! The crate builds up from verified multi-limb arithmetic (`bignum`) to
//! canonical field elements of the two scalar fields (`field`, `params`),
//! the Poseidon permutation and sponge (`poseidon`), and a fixed-height
//! binary Merkle tree that stores only its non-trivial parts (`smt`). The
//! tree's central invariant — its running root equals the dense full-tree
//! fold of its leaves (`merkle_model`, `dense`) — is proved for every
//! insertion, removal and batch. `laws` states the library-wide properties
//! once and in full generality, and `keys` fixes the byte encodings a
//! persistent store would use.
pub mod bignum;
pub mod field;
pub mod params;
pub mod poseidon;
pub mod merkle_model;
pub mod smt;
pub mod laws;
pub mod dense;
pub mod keys;
