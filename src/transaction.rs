//! The transactions whose commitment hashes this crate computes.
use crate::felt::Felt;
use vstd::prelude::*;

verus! {

/// An invoke transaction of version 0: a call of `entry_point_selector` on
/// `contract_address`.
#[derive(Clone, Debug, PartialEq, Eq)]
pub struct InvokeTransactionV0 {
    pub max_fee: u128,
    pub contract_address: Felt,
    pub entry_point_selector: Felt,
    pub calldata: Vec<Felt>,
}

/// An invoke transaction of version 1, sent from an account.
#[derive(Clone, Debug, PartialEq, Eq)]
pub struct InvokeTransactionV1 {
    pub max_fee: u128,
    pub nonce: u64,
    pub sender_address: Felt,
    pub calldata: Vec<Felt>,
}

#[derive(Clone, Debug, PartialEq, Eq)]
pub enum InvokeTransaction {
    V0(InvokeTransactionV0),
    V1(InvokeTransactionV1),
}

#[derive(Clone, Debug, PartialEq, Eq)]
pub struct DeclareTransactionV0 {
    pub max_fee: u128,
    pub sender_address: Felt,
    pub class_hash: Felt,
}

#[derive(Clone, Debug, PartialEq, Eq)]
pub struct DeclareTransactionV1 {
    pub max_fee: u128,
    pub nonce: u64,
    pub sender_address: Felt,
    pub class_hash: Felt,
}

#[derive(Clone, Debug, PartialEq, Eq)]
pub struct DeclareTransactionV2 {
    pub max_fee: u128,
    pub nonce: u64,
    pub sender_address: Felt,
    pub class_hash: Felt,
    pub compiled_class_hash: Felt,
}

#[derive(Clone, Debug, PartialEq, Eq)]
pub enum DeclareTransaction {
    V0(DeclareTransactionV0),
    V1(DeclareTransactionV1),
    V2(DeclareTransactionV2),
}

/// Deploys an account contract at the address derived from its class hash,
/// salt and constructor calldata.
#[derive(Clone, Debug, PartialEq, Eq)]
pub struct DeployAccountTransaction {
    pub max_fee: u128,
    pub nonce: u64,
    pub contract_address_salt: Felt,
    pub constructor_calldata: Vec<Felt>,
    pub class_hash: Felt,
}

/// Deploys a contract at the address derived from its class hash, salt and
/// constructor calldata.
#[derive(Clone, Debug, PartialEq, Eq)]
pub struct DeployTransaction {
    pub contract_address_salt: Felt,
    pub constructor_calldata: Vec<Felt>,
    pub class_hash: Felt,
}

/// A message from L1, handled by `entry_point_selector` of `contract_address`.
#[derive(Clone, Debug, PartialEq, Eq)]
pub struct HandleL1MessageTransaction {
    pub nonce: u64,
    pub contract_address: Felt,
    pub entry_point_selector: Felt,
    pub calldata: Vec<Felt>,
}

/// Any transaction of the chain.
#[derive(Clone, Debug, PartialEq, Eq)]
pub enum Transaction {
    Declare(DeclareTransaction),
    DeployAccount(DeployAccountTransaction),
    Deploy(DeployTransaction),
    Invoke(InvokeTransaction),
    L1Handler(HandleL1MessageTransaction),
}

/// A transaction as a user submits it, before it is in a block.
#[derive(Clone, Debug, PartialEq, Eq)]
pub enum UserTransaction {
    Declare(DeclareTransaction),
    DeployAccount(DeployAccountTransaction),
    Invoke(InvokeTransaction),
}

} // verus!
