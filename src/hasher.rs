//! The pluggable hash that commitments are taken under.
use crate::crypto::{hash_on_elements, pedersen_on_elements};
use crate::felt::{felt_values, Felt};
use vstd::prelude::*;

verus! {

/// A hash of an ordered sequence of field elements, under which the
/// commitment hash of a transaction is taken.
pub trait HasherT {
    /// The hash of a sequence of field-element values.
    spec fn spec_hash_on_elements(elements: Seq<int>) -> int;

    fn compute_hash_on_elements(elements: &[Felt]) -> (r: Felt)
        ensures
            r@ == Self::spec_hash_on_elements(felt_values(elements@)),
    ;
}

/// The Pedersen hash chain of the Starknet commitments.
pub struct PedersenHasher;

impl HasherT for PedersenHasher {
    open spec fn spec_hash_on_elements(elements: Seq<int>) -> int {
        pedersen_on_elements(elements)
    }

    fn compute_hash_on_elements(elements: &[Felt]) -> (r: Felt) {
        hash_on_elements(elements)
    }
}

} // verus!
