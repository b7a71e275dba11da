//! Derivation of contract addresses.
use crate::crypto::{hash_on_elements, pedersen_on_elements};
use crate::felt::{felt_values, Felt};
use crate::policy::{addr_bound, addr_bound_felt, contract_address_prefix, contract_address_prefix_felt};
use crate::transaction::{DeployAccountTransaction, DeployTransaction};
use vstd::prelude::*;

verus! {

/// The address of a contract deployed from `class_hash` with `salt` and
/// constructor calldata: the Pedersen hash of the contract-address prefix, 0,
/// the salt, the class hash and the hash of the calldata, reduced modulo the
/// address bound.
pub open spec fn spec_contract_address(salt: int, class_hash: int, constructor_calldata: Seq<int>) -> int {
    pedersen_on_elements(
        seq![
            contract_address_prefix(),
            0,
            salt,
            class_hash,
            pedersen_on_elements(constructor_calldata),
        ],
    ) % addr_bound()
}

/// Derives the address of a contract from its salt, class hash and
/// constructor calldata; it lies below 2^251 - 256.
pub fn derive_address(salt: Felt, class_hash: Felt, constructor_calldata: &[Felt]) -> (r: Felt)
    ensures
        r@ == spec_contract_address(salt@, class_hash@, felt_values(constructor_calldata@)),
        0 <= r@ < addr_bound(),
{
    let mut elements: Vec<Felt> = Vec::new();
    elements.push(contract_address_prefix_felt());
    elements.push(Felt::from_u64(0));
    elements.push(salt);
    elements.push(class_hash);
    elements.push(hash_on_elements(constructor_calldata));
    assert(felt_values(elements@) =~= seq![
        contract_address_prefix(),
        0,
        salt@,
        class_hash@,
        pedersen_on_elements(felt_values(constructor_calldata@)),
    ]);
    let hash = hash_on_elements(elements.as_slice());
    hash.rem(&addr_bound_felt())
}

impl DeployAccountTransaction {
    /// The address that this transaction deploys the account at.
    pub open spec fn spec_account_address(&self) -> int {
        spec_contract_address(
            self.contract_address_salt@,
            self.class_hash@,
            felt_values(self.constructor_calldata@),
        )
    }

    pub fn get_account_address(&self) -> (r: Felt)
        ensures
            r@ == self.spec_account_address(),
    {
        Self::calculate_contract_address(
            self.contract_address_salt,
            self.class_hash,
            self.constructor_calldata.as_slice(),
        )
    }

    pub fn calculate_contract_address(
        contract_address_salt: Felt,
        class_hash: Felt,
        constructor_calldata: &[Felt],
    ) -> (r: Felt)
        ensures
            r@ == spec_contract_address(
                contract_address_salt@,
                class_hash@,
                felt_values(constructor_calldata@),
            ),
            0 <= r@ < addr_bound(),
    {
        derive_address(contract_address_salt, class_hash, constructor_calldata)
    }
}

impl DeployTransaction {
    /// The address that this transaction deploys the contract at.
    pub open spec fn spec_account_address(&self) -> int {
        spec_contract_address(
            self.contract_address_salt@,
            self.class_hash@,
            felt_values(self.constructor_calldata@),
        )
    }

    pub fn get_account_address(&self) -> (r: Felt)
        ensures
            r@ == self.spec_account_address(),
    {
        Self::calculate_contract_address(
            self.contract_address_salt,
            self.class_hash,
            self.constructor_calldata.as_slice(),
        )
    }

    pub fn calculate_contract_address(
        contract_address_salt: Felt,
        class_hash: Felt,
        constructor_calldata: &[Felt],
    ) -> (r: Felt)
        ensures
            r@ == spec_contract_address(
                contract_address_salt@,
                class_hash@,
                felt_values(constructor_calldata@),
            ),
            0 <= r@ < addr_bound(),
    {
        derive_address(contract_address_salt, class_hash, constructor_calldata)
    }
}

} // verus!
