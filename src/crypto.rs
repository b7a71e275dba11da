//! The Pedersen hash chain and Starknet Keccak, with names for their results.
use crate::felt::{felt_values, Felt};
use starknet_core::crypto::compute_hash_on_elements;
use starknet_core::utils::starknet_keccak;
use starknet_crypto::FieldElement;
use vstd::prelude::*;

verus! {

/// The Pedersen hash chain over a sequence of field-element values: each
/// element folded in from the left, starting at zero, then the length.
pub uninterp spec fn pedersen_on_elements(elements: Seq<int>) -> int;

/// The Keccak-256 digest of an ASCII string's bytes, cut to its low 250 bits.
pub uninterp spec fn keccak_250_of(s: Seq<char>) -> int;

/// Relies on `starknet_core::crypto::compute_hash_on_elements`: a Pedersen hash
/// chain whose result depends on the values of the elements and their order alone.
/// Every `Felt` is canonical, so its conversion to a `FieldElement` cannot fail.
#[verifier::external_body]
pub(crate) fn hash_on_elements(elements: &[Felt]) -> (r: Felt)
    ensures
        r@ == pedersen_on_elements(felt_values(elements@)),
{
    let data: Vec<FieldElement> =
        elements.iter().map(|e| FieldElement::from_bytes_be(&e.bytes).unwrap()).collect();
    Felt { bytes: compute_hash_on_elements(&data).to_bytes_be() }
}

/// Relies on `starknet_core::utils::starknet_keccak`: Keccak-256 of the bytes with
/// the top six bits cleared, a function of the bytes alone.
#[verifier::external_body]
pub(crate) fn keccak_250(s: &str) -> (r: Felt)
    ensures
        r@ == keccak_250_of(s@),
{
    Felt { bytes: starknet_keccak(s.as_bytes()).to_bytes_be() }
}

} // verus!
