//! Commitment hashes of Starknet transactions: for each kind of transaction and
//! each era of the chain, the exact sequence of field elements that is hashed,
//! and the contract-address derivation that deploy transactions hash in.
pub mod address;
pub mod compute_hash;
pub mod crypto;
pub mod felt;
pub mod hasher;
pub mod laws;
pub mod policy;
pub mod transaction;
