//! Laws that relate the hashes of transactions across calls and flags.
use crate::compute_hash::ComputeTransactionHash;
use crate::felt::Felt;
use crate::hasher::HasherT;
use crate::policy::{simulate_version_offset, spec_general_era, Era};
use crate::transaction::{
    DeclareTransactionV0, DeclareTransactionV1, DeclareTransactionV2, DeployAccountTransaction,
    DeployTransaction, HandleL1MessageTransaction, InvokeTransactionV0, InvokeTransactionV1,
    Transaction,
};
use vstd::prelude::*;

verus! {

/// Two hashes of the same transaction with the same chain id, query flag and
/// height are equal.
pub proof fn lemma_compute_hash_deterministic<H: HasherT>(
    tx: Transaction,
    chain_id: Felt,
    is_query: bool,
    block_number: Option<u64>,
    first: Felt,
    second: Felt,
)
    requires
        first@ == H::spec_hash_on_elements(tx.spec_hash_elements(chain_id@, is_query, block_number)),
        second@ == H::spec_hash_on_elements(tx.spec_hash_elements(chain_id@, is_query, block_number)),
    ensures
        first@ == second@,
{
}

/// A query shifts the version slot (the second element) of the sequence by the
/// simulation offset and leaves every other element as it was.
pub open spec fn shifts_only_version(on_chain: Seq<int>, query: Seq<int>) -> bool {
    &&& on_chain.len() > 1
    &&& query == on_chain.update(1, on_chain[1] + simulate_version_offset())
}

/// For an invoke transaction of version 1 a query shifts only the version.
pub proof fn lemma_invoke_v1_query_offset(
    tx: InvokeTransactionV1,
    chain_id: int,
    block_number: Option<u64>,
)
    ensures
        shifts_only_version(
            tx.spec_hash_elements(chain_id, false, block_number),
            tx.spec_hash_elements(chain_id, true, block_number),
        ),
{
    assert(tx.spec_hash_elements(chain_id, true, block_number) =~= tx.spec_hash_elements(
        chain_id,
        false,
        block_number,
    ).update(1, 1 + simulate_version_offset()));
}

/// For a declare transaction of version 2 a query shifts only the version.
pub proof fn lemma_declare_v2_query_offset(
    tx: DeclareTransactionV2,
    chain_id: int,
    block_number: Option<u64>,
)
    ensures
        shifts_only_version(
            tx.spec_hash_elements(chain_id, false, block_number),
            tx.spec_hash_elements(chain_id, true, block_number),
        ),
{
    assert(tx.spec_hash_elements(chain_id, true, block_number) =~= tx.spec_hash_elements(
        chain_id,
        false,
        block_number,
    ).update(1, 2 + simulate_version_offset()));
}

/// For a deploy-account transaction a query shifts only the version.
pub proof fn lemma_deploy_account_query_offset(
    tx: DeployAccountTransaction,
    chain_id: int,
    block_number: Option<u64>,
)
    ensures
        shifts_only_version(
            tx.spec_hash_elements(chain_id, false, block_number),
            tx.spec_hash_elements(chain_id, true, block_number),
        ),
{
    assert(tx.spec_hash_elements(chain_id, true, block_number) =~= tx.spec_hash_elements(
        chain_id,
        false,
        block_number,
    ).update(1, 1 + simulate_version_offset()));
}

/// In the legacy era an invoke transaction of version 0 has no version slot:
/// a query does not change its hash.
pub proof fn lemma_invoke_v0_legacy_ignores_query(
    tx: InvokeTransactionV0,
    chain_id: int,
    block_number: Option<u64>,
)
    requires
        spec_general_era(block_number) != Era::Current,
    ensures
        tx.spec_hash_elements(chain_id, true, block_number) == tx.spec_hash_elements(
            chain_id,
            false,
            block_number,
        ),
{
}

/// A query does not change the hash of a declare transaction of version 0.
pub proof fn lemma_declare_v0_ignores_query(
    tx: DeclareTransactionV0,
    chain_id: int,
    block_number: Option<u64>,
)
    ensures
        tx.spec_hash_elements(chain_id, true, block_number) == tx.spec_hash_elements(
            chain_id,
            false,
            block_number,
        ),
{
}

/// A query does not change the hash of a declare transaction of version 1.
pub proof fn lemma_declare_v1_ignores_query(
    tx: DeclareTransactionV1,
    chain_id: int,
    block_number: Option<u64>,
)
    ensures
        tx.spec_hash_elements(chain_id, true, block_number) == tx.spec_hash_elements(
            chain_id,
            false,
            block_number,
        ),
{
}

/// A query does not change the hash of a deploy transaction.
pub proof fn lemma_deploy_ignores_query(
    tx: DeployTransaction,
    chain_id: int,
    block_number: Option<u64>,
)
    ensures
        tx.spec_hash_elements(chain_id, true, block_number) == tx.spec_hash_elements(
            chain_id,
            false,
            block_number,
        ),
{
}

/// A query does not change the hash of an L1 handler transaction.
pub proof fn lemma_l1_handler_ignores_query(
    tx: HandleL1MessageTransaction,
    chain_id: int,
    block_number: Option<u64>,
)
    ensures
        tx.spec_hash_elements(chain_id, true, block_number) == tx.spec_hash_elements(
            chain_id,
            false,
            block_number,
        ),
{
}

/// A deploy and a deploy-account transaction with the same salt, class hash
/// and constructor calldata derive the same contract address.
pub proof fn lemma_address_consistency(
    deploy_account: DeployAccountTransaction,
    deploy: DeployTransaction,
)
    requires
        deploy_account.contract_address_salt == deploy.contract_address_salt,
        deploy_account.class_hash == deploy.class_hash,
        deploy_account.constructor_calldata@ == deploy.constructor_calldata@,
    ensures
        deploy_account.spec_account_address() == deploy.spec_account_address(),
{
}

} // verus!
