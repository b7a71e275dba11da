//! The element sequences of every transaction kind and their hashes.
use crate::crypto::{hash_on_elements, keccak_250, keccak_250_of, pedersen_on_elements};
use crate::felt::{felt_values, Felt};
use crate::hasher::HasherT;
use crate::policy::{
    declare_prefix, declare_prefix_felt, deploy_account_prefix, deploy_account_prefix_felt,
    deploy_prefix, deploy_prefix_felt, general_era, invoke_prefix, invoke_prefix_felt,
    l1_handler_era, l1_handler_prefix, l1_handler_prefix_felt, spec_general_era,
    spec_l1_handler_era, version_felt, version_value, Era,
};
use crate::transaction::{
    DeclareTransaction, DeclareTransactionV0, DeclareTransactionV1, DeclareTransactionV2,
    DeployAccountTransaction, DeployTransaction, HandleL1MessageTransaction, InvokeTransaction,
    InvokeTransactionV0, InvokeTransactionV1, Transaction, UserTransaction,
};
use vstd::prelude::*;

verus! {

/// The Pedersen hash of a sequence of field elements (the hash of calldata).
pub open spec fn hash_of(s: Seq<Felt>) -> int {
    pedersen_on_elements(felt_values(s))
}

/// The commitment hash of a transaction.
pub trait ComputeTransactionHash {
    /// The elements, in order, that the commitment hash is taken over.
    spec fn spec_hash_elements(&self, chain_id: int, is_query: bool, block_number: Option<u64>) -> Seq<int>;

    /// The elements that the commitment hash is taken over.
    fn hash_elements(&self, chain_id: Felt, is_query: bool, block_number: Option<u64>) -> (r: Vec<Felt>)
        ensures
            felt_values(r@) == self.spec_hash_elements(chain_id@, is_query, block_number),
    ;

    /// The commitment hash: the hash of `hash_elements` under `H`.
    fn compute_hash<H: HasherT>(&self, chain_id: Felt, is_query: bool, block_number: Option<u64>) -> (r: Felt)
        ensures
            r@ == H::spec_hash_on_elements(self.spec_hash_elements(chain_id@, is_query, block_number)),
    ;
}

impl ComputeTransactionHash for InvokeTransactionV0 {
    /// Above the legacy block: prefix, version (0, shifted for a query), contract
    /// address, selector, calldata hash, max fee, chain id. At or below it, and
    /// without a height: prefix, contract address, selector, calldata hash, chain id.
    open spec fn spec_hash_elements(&self, chain_id: int, is_query: bool, block_number: Option<u64>) -> Seq<int> {
        if spec_general_era(block_number) == Era::Current {
            seq![
                invoke_prefix(),
                version_value(0, is_query),
                self.contract_address@,
                self.entry_point_selector@,
                hash_of(self.calldata@),
                self.max_fee as int,
                chain_id,
            ]
        } else {
            seq![
                invoke_prefix(),
                self.contract_address@,
                self.entry_point_selector@,
                hash_of(self.calldata@),
                chain_id,
            ]
        }
    }

    fn hash_elements(&self, chain_id: Felt, is_query: bool, block_number: Option<u64>) -> (r: Vec<Felt>) {
        let mut r: Vec<Felt> = Vec::new();
        r.push(invoke_prefix_felt());
        let current = general_era(block_number) == Era::Current;
        if current {
            r.push(version_felt(0, is_query));
        }
        r.push(self.contract_address);
        r.push(self.entry_point_selector);
        r.push(hash_on_elements(self.calldata.as_slice()));
        if current {
            r.push(Felt::from_u128(self.max_fee));
        }
        r.push(chain_id);
        assert(felt_values(r@) =~= self.spec_hash_elements(chain_id@, is_query, block_number));
        r
    }

    fn compute_hash<H: HasherT>(&self, chain_id: Felt, is_query: bool, block_number: Option<u64>) -> (r: Felt) {
        H::compute_hash_on_elements(self.hash_elements(chain_id, is_query, block_number).as_slice())
    }
}

impl ComputeTransactionHash for InvokeTransactionV1 {
    /// Prefix, version (1, shifted for a query), sender address, 0, calldata
    /// hash, max fee, chain id, nonce.
    open spec fn spec_hash_elements(&self, chain_id: int, is_query: bool, block_number: Option<u64>) -> Seq<int> {
        seq![
            invoke_prefix(),
            version_value(1, is_query),
            self.sender_address@,
            0,
            hash_of(self.calldata@),
            self.max_fee as int,
            chain_id,
            self.nonce as int,
        ]
    }

    fn hash_elements(&self, chain_id: Felt, is_query: bool, block_number: Option<u64>) -> (r: Vec<Felt>) {
        let mut r: Vec<Felt> = Vec::new();
        r.push(invoke_prefix_felt());
        r.push(version_felt(1, is_query));
        r.push(self.sender_address);
        r.push(Felt::from_u64(0));
        r.push(hash_on_elements(self.calldata.as_slice()));
        r.push(Felt::from_u128(self.max_fee));
        r.push(chain_id);
        r.push(Felt::from_u64(self.nonce));
        assert(felt_values(r@) =~= self.spec_hash_elements(chain_id@, is_query, block_number));
        r
    }

    fn compute_hash<H: HasherT>(&self, chain_id: Felt, is_query: bool, block_number: Option<u64>) -> (r: Felt) {
        H::compute_hash_on_elements(self.hash_elements(chain_id, is_query, block_number).as_slice())
    }
}

impl ComputeTransactionHash for InvokeTransaction {
    open spec fn spec_hash_elements(&self, chain_id: int, is_query: bool, block_number: Option<u64>) -> Seq<int> {
        match self {
            InvokeTransaction::V0(tx) => tx.spec_hash_elements(chain_id, is_query, block_number),
            InvokeTransaction::V1(tx) => tx.spec_hash_elements(chain_id, is_query, block_number),
        }
    }

    fn hash_elements(&self, chain_id: Felt, is_query: bool, block_number: Option<u64>) -> (r: Vec<Felt>) {
        match self {
            InvokeTransaction::V0(tx) => tx.hash_elements(chain_id, is_query, block_number),
            InvokeTransaction::V1(tx) => tx.hash_elements(chain_id, is_query, block_number),
        }
    }

    fn compute_hash<H: HasherT>(&self, chain_id: Felt, is_query: bool, block_number: Option<u64>) -> (r: Felt) {
        match self {
            InvokeTransaction::V0(tx) => tx.compute_hash::<H>(chain_id, is_query, block_number),
            InvokeTransaction::V1(tx) => tx.compute_hash::<H>(chain_id, is_query, block_number),
        }
    }
}

impl ComputeTransactionHash for DeclareTransactionV0 {
    /// Prefix, version 0, sender address, 0, hash of no elements, max fee,
    /// chain id, class hash. A query changes nothing.
    open spec fn spec_hash_elements(&self, chain_id: int, is_query: bool, block_number: Option<u64>) -> Seq<int> {
        seq![
            declare_prefix(),
            0,
            self.sender_address@,
            0,
            pedersen_on_elements(seq![]),
            self.max_fee as int,
            chain_id,
            self.class_hash@,
        ]
    }

    fn hash_elements(&self, chain_id: Felt, is_query: bool, block_number: Option<u64>) -> (r: Vec<Felt>) {
        let empty: Vec<Felt> = Vec::new();
        let mut r: Vec<Felt> = Vec::new();
        r.push(declare_prefix_felt());
        r.push(Felt::from_u64(0));
        r.push(self.sender_address);
        r.push(Felt::from_u64(0));
        r.push(hash_on_elements(empty.as_slice()));
        r.push(Felt::from_u128(self.max_fee));
        r.push(chain_id);
        r.push(self.class_hash);
        assert(felt_values(empty@) =~= seq![]);
        assert(felt_values(r@) =~= self.spec_hash_elements(chain_id@, is_query, block_number));
        r
    }

    fn compute_hash<H: HasherT>(&self, chain_id: Felt, is_query: bool, block_number: Option<u64>) -> (r: Felt) {
        H::compute_hash_on_elements(self.hash_elements(chain_id, is_query, block_number).as_slice())
    }
}

impl ComputeTransactionHash for DeclareTransactionV1 {
    /// Prefix, version 1, sender address, 0, hash of the class hash, max fee,
    /// chain id, nonce. A query changes nothing.
    open spec fn spec_hash_elements(&self, chain_id: int, is_query: bool, block_number: Option<u64>) -> Seq<int> {
        seq![
            declare_prefix(),
            1,
            self.sender_address@,
            0,
            pedersen_on_elements(seq![self.class_hash@]),
            self.max_fee as int,
            chain_id,
            self.nonce as int,
        ]
    }

    fn hash_elements(&self, chain_id: Felt, is_query: bool, block_number: Option<u64>) -> (r: Vec<Felt>) {
        let mut class: Vec<Felt> = Vec::new();
        class.push(self.class_hash);
        let mut r: Vec<Felt> = Vec::new();
        r.push(declare_prefix_felt());
        r.push(Felt::from_u64(1));
        r.push(self.sender_address);
        r.push(Felt::from_u64(0));
        r.push(hash_on_elements(class.as_slice()));
        r.push(Felt::from_u128(self.max_fee));
        r.push(chain_id);
        r.push(Felt::from_u64(self.nonce));
        assert(felt_values(class@) =~= seq![self.class_hash@]);
        assert(felt_values(r@) =~= self.spec_hash_elements(chain_id@, is_query, block_number));
        r
    }

    fn compute_hash<H: HasherT>(&self, chain_id: Felt, is_query: bool, block_number: Option<u64>) -> (r: Felt) {
        H::compute_hash_on_elements(self.hash_elements(chain_id, is_query, block_number).as_slice())
    }
}

impl ComputeTransactionHash for DeclareTransactionV2 {
    /// Prefix, version (2, shifted for a query), sender address, 0, hash of the
    /// class hash, max fee, chain id, nonce, compiled class hash.
    open spec fn spec_hash_elements(&self, chain_id: int, is_query: bool, block_number: Option<u64>) -> Seq<int> {
        seq![
            declare_prefix(),
            version_value(2, is_query),
            self.sender_address@,
            0,
            pedersen_on_elements(seq![self.class_hash@]),
            self.max_fee as int,
            chain_id,
            self.nonce as int,
            self.compiled_class_hash@,
        ]
    }

    fn hash_elements(&self, chain_id: Felt, is_query: bool, block_number: Option<u64>) -> (r: Vec<Felt>) {
        let mut class: Vec<Felt> = Vec::new();
        class.push(self.class_hash);
        let mut r: Vec<Felt> = Vec::new();
        r.push(declare_prefix_felt());
        r.push(version_felt(2, is_query));
        r.push(self.sender_address);
        r.push(Felt::from_u64(0));
        r.push(hash_on_elements(class.as_slice()));
        r.push(Felt::from_u128(self.max_fee));
        r.push(chain_id);
        r.push(Felt::from_u64(self.nonce));
        r.push(self.compiled_class_hash);
        assert(felt_values(class@) =~= seq![self.class_hash@]);
        assert(felt_values(r@) =~= self.spec_hash_elements(chain_id@, is_query, block_number));
        r
    }

    fn compute_hash<H: HasherT>(&self, chain_id: Felt, is_query: bool, block_number: Option<u64>) -> (r: Felt) {
        H::compute_hash_on_elements(self.hash_elements(chain_id, is_query, block_number).as_slice())
    }
}

impl ComputeTransactionHash for DeclareTransaction {
    /// Declarations are hashed alike at every height.
    open spec fn spec_hash_elements(&self, chain_id: int, is_query: bool, block_number: Option<u64>) -> Seq<int> {
        match self {
            DeclareTransaction::V0(tx) => tx.spec_hash_elements(chain_id, is_query, None),
            DeclareTransaction::V1(tx) => tx.spec_hash_elements(chain_id, is_query, None),
            DeclareTransaction::V2(tx) => tx.spec_hash_elements(chain_id, is_query, None),
        }
    }

    fn hash_elements(&self, chain_id: Felt, is_query: bool, block_number: Option<u64>) -> (r: Vec<Felt>) {
        match self {
            DeclareTransaction::V0(tx) => tx.hash_elements(chain_id, is_query, None),
            DeclareTransaction::V1(tx) => tx.hash_elements(chain_id, is_query, None),
            DeclareTransaction::V2(tx) => tx.hash_elements(chain_id, is_query, None),
        }
    }

    fn compute_hash<H: HasherT>(&self, chain_id: Felt, is_query: bool, block_number: Option<u64>) -> (r: Felt) {
        match self {
            DeclareTransaction::V0(tx) => tx.compute_hash::<H>(chain_id, is_query, None),
            DeclareTransaction::V1(tx) => tx.compute_hash::<H>(chain_id, is_query, None),
            DeclareTransaction::V2(tx) => tx.compute_hash::<H>(chain_id, is_query, None),
        }
    }
}

impl DeployAccountTransaction {
    /// Prefix, version (1, shifted for a query), the contract address, 0, the
    /// hash of class hash, salt and constructor calldata, max fee, chain id, nonce.
    pub open spec fn spec_elements_given_contract_address(
        &self,
        chain_id: int,
        contract_address: int,
        is_query: bool,
    ) -> Seq<int> {
        seq![
            deploy_account_prefix(),
            version_value(1, is_query),
            contract_address,
            0,
            pedersen_on_elements(
                seq![self.class_hash@, self.contract_address_salt@]
                    + felt_values(self.constructor_calldata@),
            ),
            self.max_fee as int,
            chain_id,
            self.nonce as int,
        ]
    }

    pub fn elements_given_contract_address(
        &self,
        chain_id: Felt,
        contract_address: Felt,
        is_query: bool,
    ) -> (r: Vec<Felt>)
        ensures
            felt_values(r@) == self.spec_elements_given_contract_address(
                chain_id@,
                contract_address@,
                is_query,
            ),
    {
        let mut calldata: Vec<Felt> = Vec::new();
        calldata.push(self.class_hash);
        calldata.push(self.contract_address_salt);
        let n = self.constructor_calldata.len();
        let mut i: usize = 0;
        while i < n
            invariant
                n == self.constructor_calldata@.len(),
                i <= n,
                calldata@ =~= seq![self.class_hash, self.contract_address_salt]
                    + self.constructor_calldata@.subrange(0, i as int),
            decreases n - i,
        {
            calldata.push(self.constructor_calldata[i]);
            i = i + 1;
        }
        assert(self.constructor_calldata@.subrange(0, n as int) =~= self.constructor_calldata@);
        assert(felt_values(calldata@) =~= seq![self.class_hash@, self.contract_address_salt@]
            + felt_values(self.constructor_calldata@));
        let mut r: Vec<Felt> = Vec::new();
        r.push(deploy_account_prefix_felt());
        r.push(version_felt(1, is_query));
        r.push(contract_address);
        r.push(Felt::from_u64(0));
        r.push(hash_on_elements(calldata.as_slice()));
        r.push(Felt::from_u128(self.max_fee));
        r.push(chain_id);
        r.push(Felt::from_u64(self.nonce));
        assert(felt_values(r@) =~= self.spec_elements_given_contract_address(
            chain_id@,
            contract_address@,
            is_query,
        ));
        r
    }

    pub fn compute_hash_given_contract_address<H: HasherT>(
        &self,
        chain_id: Felt,
        contract_address: Felt,
        is_query: bool,
    ) -> (r: Felt)
        ensures
            r@ == H::spec_hash_on_elements(
                self.spec_elements_given_contract_address(chain_id@, contract_address@, is_query),
            ),
    {
        H::compute_hash_on_elements(
            self.elements_given_contract_address(chain_id, contract_address, is_query).as_slice(),
        )
    }
}

impl ComputeTransactionHash for DeployAccountTransaction {
    /// The elements at the derived account address. No height changes them.
    open spec fn spec_hash_elements(&self, chain_id: int, is_query: bool, block_number: Option<u64>) -> Seq<int> {
        self.spec_elements_given_contract_address(chain_id, self.spec_account_address(), is_query)
    }

    fn hash_elements(&self, chain_id: Felt, is_query: bool, block_number: Option<u64>) -> (r: Vec<Felt>) {
        let contract_address = self.get_account_address();
        self.elements_given_contract_address(chain_id, contract_address, is_query)
    }

    fn compute_hash<H: HasherT>(&self, chain_id: Felt, is_query: bool, block_number: Option<u64>) -> (r: Felt) {
        let contract_address = self.get_account_address();
        self.compute_hash_given_contract_address::<H>(chain_id, contract_address, is_query)
    }
}

impl DeployTransaction {
    /// Above the legacy block: prefix, version 0, the contract address, the
    /// selector of `constructor`, the calldata hash, 0, chain id. At or below it,
    /// and without a height: prefix, the contract address, the selector, the
    /// calldata hash, chain id. A query changes nothing.
    pub open spec fn spec_elements_given_contract_address(
        &self,
        chain_id: int,
        contract_address: int,
        block_number: Option<u64>,
    ) -> Seq<int> {
        if spec_general_era(block_number) == Era::Current {
            seq![
                deploy_prefix(),
                0,
                contract_address,
                keccak_250_of("constructor"@),
                hash_of(self.constructor_calldata@),
                0,
                chain_id,
            ]
        } else {
            seq![
                deploy_prefix(),
                contract_address,
                keccak_250_of("constructor"@),
                hash_of(self.constructor_calldata@),
                chain_id,
            ]
        }
    }

    pub fn elements_given_contract_address(
        &self,
        chain_id: Felt,
        contract_address: Felt,
        block_number: Option<u64>,
    ) -> (r: Vec<Felt>)
        ensures
            felt_values(r@) == self.spec_elements_given_contract_address(
                chain_id@,
                contract_address@,
                block_number,
            ),
    {
        let current = general_era(block_number) == Era::Current;
        let mut r: Vec<Felt> = Vec::new();
        r.push(deploy_prefix_felt());
        if current {
            r.push(Felt::from_u64(0));
        }
        r.push(contract_address);
        r.push(keccak_250("constructor"));
        r.push(hash_on_elements(self.constructor_calldata.as_slice()));
        if current {
            r.push(Felt::from_u64(0));
        }
        r.push(chain_id);
        assert(felt_values(r@) =~= self.spec_elements_given_contract_address(
            chain_id@,
            contract_address@,
            block_number,
        ));
        r
    }

    pub fn compute_hash_given_contract_address<H: HasherT>(
        &self,
        chain_id: Felt,
        contract_address: Felt,
        is_query: bool,
        block_number: Option<u64>,
    ) -> (r: Felt)
        ensures
            r@ == H::spec_hash_on_elements(
                self.spec_elements_given_contract_address(chain_id@, contract_address@, block_number),
            ),
    {
        H::compute_hash_on_elements(
            self.elements_given_contract_address(chain_id, contract_address, block_number).as_slice(),
        )
    }
}

impl ComputeTransactionHash for DeployTransaction {
    /// The elements at the derived contract address.
    open spec fn spec_hash_elements(&self, chain_id: int, is_query: bool, block_number: Option<u64>) -> Seq<int> {
        self.spec_elements_given_contract_address(chain_id, self.spec_account_address(), block_number)
    }

    fn hash_elements(&self, chain_id: Felt, is_query: bool, block_number: Option<u64>) -> (r: Vec<Felt>) {
        let contract_address = self.get_account_address();
        self.elements_given_contract_address(chain_id, contract_address, block_number)
    }

    fn compute_hash<H: HasherT>(&self, chain_id: Felt, is_query: bool, block_number: Option<u64>) -> (r: Felt) {
        let contract_address = self.get_account_address();
        self.compute_hash_given_contract_address::<H>(chain_id, contract_address, is_query, block_number)
    }
}

impl ComputeTransactionHash for HandleL1MessageTransaction {
    /// At or below the L1 handler legacy block: the invoke prefix, contract
    /// address, selector, calldata hash, chain id. Above it and up to the legacy
    /// block: the same, then the nonce. Above that, and without a height: the
    /// L1 handler prefix, version 0, contract address, selector, calldata hash,
    /// a fee of 0, chain id, nonce. A query changes nothing.
    open spec fn spec_hash_elements(&self, chain_id: int, is_query: bool, block_number: Option<u64>) -> Seq<int> {
        match spec_l1_handler_era(block_number) {
            Era::PreLegacy => seq![
                invoke_prefix(),
                self.contract_address@,
                self.entry_point_selector@,
                hash_of(self.calldata@),
                chain_id,
            ],
            Era::Legacy => seq![
                invoke_prefix(),
                self.contract_address@,
                self.entry_point_selector@,
                hash_of(self.calldata@),
                chain_id,
                self.nonce as int,
            ],
            Era::Current => seq![
                l1_handler_prefix(),
                0,
                self.contract_address@,
                self.entry_point_selector@,
                hash_of(self.calldata@),
                0,
                chain_id,
                self.nonce as int,
            ],
        }
    }

    fn hash_elements(&self, chain_id: Felt, is_query: bool, block_number: Option<u64>) -> (r: Vec<Felt>) {
        let era = l1_handler_era(block_number);
        let mut r: Vec<Felt> = Vec::new();
        match era {
            Era::Current => {
                r.push(l1_handler_prefix_felt());
                r.push(Felt::from_u64(0));
            },
            _ => {
                r.push(invoke_prefix_felt());
            },
        }
        r.push(self.contract_address);
        r.push(self.entry_point_selector);
        r.push(hash_on_elements(self.calldata.as_slice()));
        if era == Era::Current {
            // L1 handler transactions pay no fee on L2.
            r.push(Felt::from_u64(0));
        }
        r.push(chain_id);
        if era != Era::PreLegacy {
            r.push(Felt::from_u64(self.nonce));
        }
        assert(felt_values(r@) =~= self.spec_hash_elements(chain_id@, is_query, block_number));
        r
    }

    fn compute_hash<H: HasherT>(&self, chain_id: Felt, is_query: bool, block_number: Option<u64>) -> (r: Felt) {
        H::compute_hash_on_elements(self.hash_elements(chain_id, is_query, block_number).as_slice())
    }
}

impl ComputeTransactionHash for Transaction {
    open spec fn spec_hash_elements(&self, chain_id: int, is_query: bool, block_number: Option<u64>) -> Seq<int> {
        match self {
            Transaction::Declare(tx) => tx.spec_hash_elements(chain_id, is_query, block_number),
            Transaction::DeployAccount(tx) => tx.spec_hash_elements(chain_id, is_query, block_number),
            Transaction::Deploy(tx) => tx.spec_hash_elements(chain_id, is_query, block_number),
            Transaction::Invoke(tx) => tx.spec_hash_elements(chain_id, is_query, block_number),
            Transaction::L1Handler(tx) => tx.spec_hash_elements(chain_id, is_query, block_number),
        }
    }

    fn hash_elements(&self, chain_id: Felt, is_query: bool, block_number: Option<u64>) -> (r: Vec<Felt>) {
        match self {
            Transaction::Declare(tx) => tx.hash_elements(chain_id, is_query, block_number),
            Transaction::DeployAccount(tx) => tx.hash_elements(chain_id, is_query, block_number),
            Transaction::Deploy(tx) => tx.hash_elements(chain_id, is_query, block_number),
            Transaction::Invoke(tx) => tx.hash_elements(chain_id, is_query, block_number),
            Transaction::L1Handler(tx) => tx.hash_elements(chain_id, is_query, block_number),
        }
    }

    fn compute_hash<H: HasherT>(&self, chain_id: Felt, is_query: bool, block_number: Option<u64>) -> (r: Felt) {
        match self {
            Transaction::Declare(tx) => tx.compute_hash::<H>(chain_id, is_query, block_number),
            Transaction::DeployAccount(tx) => tx.compute_hash::<H>(chain_id, is_query, block_number),
            Transaction::Deploy(tx) => tx.compute_hash::<H>(chain_id, is_query, block_number),
            Transaction::Invoke(tx) => tx.compute_hash::<H>(chain_id, is_query, block_number),
            Transaction::L1Handler(tx) => tx.compute_hash::<H>(chain_id, is_query, block_number),
        }
    }
}

impl ComputeTransactionHash for UserTransaction {
    /// A transaction that is not in a block yet has no height.
    open spec fn spec_hash_elements(&self, chain_id: int, is_query: bool, block_number: Option<u64>) -> Seq<int> {
        match self {
            UserTransaction::Declare(tx) => tx.spec_hash_elements(chain_id, is_query, None),
            UserTransaction::DeployAccount(tx) => tx.spec_hash_elements(chain_id, is_query, None),
            UserTransaction::Invoke(tx) => tx.spec_hash_elements(chain_id, is_query, None),
        }
    }

    fn hash_elements(&self, chain_id: Felt, is_query: bool, block_number: Option<u64>) -> (r: Vec<Felt>) {
        match self {
            UserTransaction::Declare(tx) => tx.hash_elements(chain_id, is_query, None),
            UserTransaction::DeployAccount(tx) => tx.hash_elements(chain_id, is_query, None),
            UserTransaction::Invoke(tx) => tx.hash_elements(chain_id, is_query, None),
        }
    }

    fn compute_hash<H: HasherT>(&self, chain_id: Felt, is_query: bool, block_number: Option<u64>) -> (r: Felt) {
        match self {
            UserTransaction::Declare(tx) => tx.compute_hash::<H>(chain_id, is_query, None),
            UserTransaction::DeployAccount(tx) => tx.compute_hash::<H>(chain_id, is_query, None),
            UserTransaction::Invoke(tx) => tx.compute_hash::<H>(chain_id, is_query, None),
        }
    }
}

} // verus!
