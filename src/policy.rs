//! Domain prefixes, the simulation offset, the address bound and the eras
//! that block heights select.
use crate::felt::{be_value, field_prime, pow2_64, short_string_value, Felt};
use vstd::arithmetic::div_mod::lemma_small_mod;
use vstd::prelude::*;

verus! {

/// The last block whose transactions use the legacy encodings.
pub const LEGACY_BLOCK_NUMBER: u64 = 1470;

/// The last block whose L1 handler transactions use the oldest encoding; it
/// lies below `LEGACY_BLOCK_NUMBER`.
pub const LEGACY_L1_HANDLER_BLOCK: u64 = 854;

/// The encoding regime that a block height selects.
#[derive(Clone, Copy, Debug, PartialEq, Eq, Structural)]
pub enum Era {
    Current,
    Legacy,
    PreLegacy,
}

/// The era of invoke (version 0) and deploy transactions: `Current` above
/// `LEGACY_BLOCK_NUMBER`, `Legacy` at or below it. Without a height the
/// encoding is `Legacy` too; L1 handler transactions read a missing height
/// the other way (see `spec_l1_handler_era`).
pub open spec fn spec_general_era(block_number: Option<u64>) -> Era {
    match block_number {
        Some(h) => if h > LEGACY_BLOCK_NUMBER {
            Era::Current
        } else {
            Era::Legacy
        },
        None => Era::Legacy,
    }
}

/// The era of L1 handler transactions: `PreLegacy` at or below
/// `LEGACY_L1_HANDLER_BLOCK`, `Legacy` from there up to `LEGACY_BLOCK_NUMBER`,
/// `Current` above. Unlike `spec_general_era`, no height means `Current`.
pub open spec fn spec_l1_handler_era(block_number: Option<u64>) -> Era {
    match block_number {
        Some(h) => if h <= LEGACY_L1_HANDLER_BLOCK {
            Era::PreLegacy
        } else if h <= LEGACY_BLOCK_NUMBER {
            Era::Legacy
        } else {
            Era::Current
        },
        None => Era::Current,
    }
}

pub fn general_era(block_number: Option<u64>) -> (r: Era)
    ensures
        r == spec_general_era(block_number),
{
    match block_number {
        Some(h) => if h > LEGACY_BLOCK_NUMBER {
            Era::Current
        } else {
            Era::Legacy
        },
        None => Era::Legacy,
    }
}

pub fn l1_handler_era(block_number: Option<u64>) -> (r: Era)
    ensures
        r == spec_l1_handler_era(block_number),
{
    match block_number {
        Some(h) => if h <= LEGACY_L1_HANDLER_BLOCK {
            Era::PreLegacy
        } else if h <= LEGACY_BLOCK_NUMBER {
            Era::Legacy
        } else {
            Era::Current
        },
        None => Era::Current,
    }
}

/// What a query (simulation) adds to the version of a transaction: 2^128.
pub open spec fn simulate_version_offset() -> int {
    pow2_64() * pow2_64()
}

/// The version slot: `version`, shifted by the simulation offset for a query.
pub open spec fn version_value(version: int, is_query: bool) -> int {
    if is_query {
        version + simulate_version_offset()
    } else {
        version
    }
}

/// The bound below which derived contract addresses lie: 2^251 - 256.
pub open spec fn addr_bound() -> int {
    0x0800_0000_0000_0000 * pow2_64() * pow2_64() * pow2_64() - 256
}

pub open spec fn declare_prefix() -> int {
    short_string_value("declare"@) as int
}

pub open spec fn deploy_account_prefix() -> int {
    short_string_value("deploy_account"@) as int
}

pub open spec fn deploy_prefix() -> int {
    short_string_value("deploy"@) as int
}

pub open spec fn invoke_prefix() -> int {
    short_string_value("invoke"@) as int
}

pub open spec fn l1_handler_prefix() -> int {
    short_string_value("l1_handler"@) as int
}

/// The prefix of contract-address derivation, the short string
/// `STARKNET_CONTRACT_ADDRESS`.
pub open spec fn contract_address_prefix() -> int {
    short_string_value("STARKNET_CONTRACT_ADDRESS"@) as int
}

pub fn declare_prefix_felt() -> (r: Felt)
    ensures
        r@ == declare_prefix(),
{
    proof {
        reveal_strlit("declare");
    }
    Felt::from_short_string("declare")
}

pub fn deploy_account_prefix_felt() -> (r: Felt)
    ensures
        r@ == deploy_account_prefix(),
{
    proof {
        reveal_strlit("deploy_account");
    }
    Felt::from_short_string("deploy_account")
}

pub fn deploy_prefix_felt() -> (r: Felt)
    ensures
        r@ == deploy_prefix(),
{
    proof {
        reveal_strlit("deploy");
    }
    Felt::from_short_string("deploy")
}

pub fn invoke_prefix_felt() -> (r: Felt)
    ensures
        r@ == invoke_prefix(),
{
    proof {
        reveal_strlit("invoke");
    }
    Felt::from_short_string("invoke")
}

pub fn l1_handler_prefix_felt() -> (r: Felt)
    ensures
        r@ == l1_handler_prefix(),
{
    proof {
        reveal_strlit("l1_handler");
    }
    Felt::from_short_string("l1_handler")
}

pub fn contract_address_prefix_felt() -> (r: Felt)
    ensures
        r@ == contract_address_prefix(),
{
    proof {
        reveal_strlit("STARKNET_CONTRACT_ADDRESS");
    }
    Felt::from_short_string("STARKNET_CONTRACT_ADDRESS")
}

/// The version slot as a field element.
pub fn version_felt(version: u64, is_query: bool) -> (r: Felt)
    ensures
        r@ == version_value(version as int, is_query),
{
    let v = Felt::from_u64(version);
    if is_query {
        let max = Felt::from_u128(u128::MAX);
        let one = Felt::from_u64(1);
        proof {
            lemma_small_mod((max@ + one@) as nat, field_prime() as nat);
        }
        let offset = max.add(&one);
        proof {
            lemma_small_mod((v@ + offset@) as nat, field_prime() as nat);
        }
        v.add(&offset)
    } else {
        v
    }
}

/// `2^251 - 256` as a field element.
pub fn addr_bound_felt() -> (r: Felt)
    ensures
        r@ == addr_bound(),
{
    let bytes: [u8; 32] = [
        0x07, 0xff, 0xff, 0xff, 0xff, 0xff, 0xff, 0xff,
        0xff, 0xff, 0xff, 0xff, 0xff, 0xff, 0xff, 0xff,
        0xff, 0xff, 0xff, 0xff, 0xff, 0xff, 0xff, 0xff,
        0xff, 0xff, 0xff, 0xff, 0xff, 0xff, 0xff, 0x00,
    ];
    proof {
        assert(bytes@ =~= seq![
            0x07u8, 0xff, 0xff, 0xff, 0xff, 0xff, 0xff, 0xff,
            0xff, 0xff, 0xff, 0xff, 0xff, 0xff, 0xff, 0xff,
            0xff, 0xff, 0xff, 0xff, 0xff, 0xff, 0xff, 0xff,
            0xff, 0xff, 0xff, 0xff, 0xff, 0xff, 0xff, 0x00,
        ]);
        reveal_with_fuel(be_value, 33);
        assert(be_value(seq![
            0x07u8, 0xff, 0xff, 0xff, 0xff, 0xff, 0xff, 0xff,
            0xff, 0xff, 0xff, 0xff, 0xff, 0xff, 0xff, 0xff,
            0xff, 0xff, 0xff, 0xff, 0xff, 0xff, 0xff, 0xff,
            0xff, 0xff, 0xff, 0xff, 0xff, 0xff, 0xff, 0x00,
        ]) == addr_bound());
    }
    match Felt::from_bytes_be(bytes) {
        Some(f) => f,
        None => {
            proof {
                assert(false);
            }
            Felt::from_u64(0)
        },
    }
}

} // verus!
