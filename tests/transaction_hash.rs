use mp_transactions::address::derive_address;
use mp_transactions::compute_hash::ComputeTransactionHash;
use mp_transactions::felt::Felt;
use mp_transactions::hasher::{HasherT, PedersenHasher};
use mp_transactions::policy::{general_era, l1_handler_era, Era, LEGACY_BLOCK_NUMBER, LEGACY_L1_HANDLER_BLOCK};
use mp_transactions::transaction::{
    DeclareTransaction, DeclareTransactionV0, DeclareTransactionV1, DeclareTransactionV2,
    DeployAccountTransaction, DeployTransaction, HandleL1MessageTransaction, InvokeTransaction,
    InvokeTransactionV0, InvokeTransactionV1, Transaction, UserTransaction,
};
use starknet_crypto::FieldElement;

fn felt(hex: &str) -> Felt {
    let digits = hex.trim_start_matches("0x");
    let padded = format!("{:0>64}", digits);
    let mut bytes = [0u8; 32];
    for i in 0..32 {
        bytes[i] = u8::from_str_radix(&padded[2 * i..2 * i + 2], 16).unwrap();
    }
    Felt::from_bytes_be(bytes).unwrap()
}

fn n(v: u64) -> Felt {
    Felt::from_u64(v)
}

fn short(s: &str) -> Felt {
    let mut bytes = [0u8; 32];
    bytes[32 - s.len()..].copy_from_slice(s.as_bytes());
    Felt::from_bytes_be(bytes).unwrap()
}

fn to_field(f: &Felt) -> FieldElement {
    FieldElement::from_bytes_be(&f.to_bytes_be()).unwrap()
}

fn pedersen(elements: &[Felt]) -> Felt {
    let data: Vec<FieldElement> = elements.iter().map(to_field).collect();
    let h = starknet_core::crypto::compute_hash_on_elements(&data);
    Felt::from_bytes_be(h.to_bytes_be()).unwrap()
}

fn offset() -> Felt {
    felt("0x100000000000000000000000000000000")
}

fn empty_hash() -> Felt {
    felt("0x049ee3eba8c1600700ee1b87eb599f16716b0b1022947733551fde4050ca6804")
}

fn chain() -> Felt {
    short("SN_GOERLI")
}

fn invoke_v0() -> InvokeTransactionV0 {
    InvokeTransactionV0 {
        max_fee: 1000,
        contract_address: n(0x1234),
        entry_point_selector: n(0x56),
        calldata: vec![n(1), n(2), n(3)],
    }
}

fn invoke_v1() -> InvokeTransactionV1 {
    InvokeTransactionV1 { max_fee: 5, nonce: 7, sender_address: n(0xabc), calldata: vec![] }
}

fn declare_v2() -> DeclareTransactionV2 {
    DeclareTransactionV2 {
        max_fee: 11,
        nonce: 3,
        sender_address: n(0x77),
        class_hash: n(0x88),
        compiled_class_hash: n(0x99),
    }
}

fn deploy_account() -> DeployAccountTransaction {
    DeployAccountTransaction {
        max_fee: 20,
        nonce: 0,
        contract_address_salt: felt("0x0018a7a329d1d85b621350f2b5fc9c64b2e57dfe708525f0aff2c90de1e5b9c8"),
        constructor_calldata: vec![n(1)],
        class_hash: felt("0x0750cd490a7cd1572411169eaa8be292325990d33c5d4733655fe6b926985062"),
    }
}

fn deploy() -> DeployTransaction {
    let d = deploy_account();
    DeployTransaction {
        contract_address_salt: d.contract_address_salt,
        constructor_calldata: d.constructor_calldata.clone(),
        class_hash: d.class_hash,
    }
}

fn l1_handler() -> HandleL1MessageTransaction {
    HandleL1MessageTransaction {
        nonce: 9,
        contract_address: n(0x4242),
        entry_point_selector: n(0x24),
        calldata: vec![n(10), n(20)],
    }
}

#[test]
fn invoke_v1_end_to_end_sequence() {
    let a = n(0xabc);
    let x = chain();
    let elements = invoke_v1().hash_elements(x, false, None);
    assert_eq!(elements, vec![short("invoke"), n(1), a, n(0), empty_hash(), n(5), x, n(7)]);
    assert_eq!(invoke_v1().compute_hash::<PedersenHasher>(x, false, None), pedersen(&elements));
}

#[test]
fn invoke_v0_era_boundary() {
    let tx = invoke_v0();
    let x = chain();
    let calldata_hash = pedersen(&[n(1), n(2), n(3)]);
    let current = tx.hash_elements(x, false, Some(LEGACY_BLOCK_NUMBER + 1));
    assert_eq!(current, vec![short("invoke"), n(0), n(0x1234), n(0x56), calldata_hash, n(1000), x]);
    let legacy = tx.hash_elements(x, false, Some(LEGACY_BLOCK_NUMBER));
    assert_eq!(legacy, vec![short("invoke"), n(0x1234), n(0x56), calldata_hash, x]);
    assert_eq!(tx.hash_elements(x, false, None), legacy);
    assert_eq!(tx.compute_hash::<PedersenHasher>(x, false, Some(LEGACY_BLOCK_NUMBER)), pedersen(&legacy));
}

#[test]
fn invoke_v0_query_in_current_era() {
    let tx = invoke_v0();
    let elements = tx.hash_elements(chain(), true, Some(LEGACY_BLOCK_NUMBER + 1));
    assert_eq!(elements[1], offset());
    let legacy_q = tx.compute_hash::<PedersenHasher>(chain(), true, Some(5));
    assert_eq!(legacy_q, tx.compute_hash::<PedersenHasher>(chain(), false, Some(5)));
}

#[test]
fn l1_handler_three_tiers() {
    let tx = l1_handler();
    let x = chain();
    let calldata_hash = pedersen(&[n(10), n(20)]);
    let pre = tx.hash_elements(x, false, Some(LEGACY_L1_HANDLER_BLOCK));
    assert_eq!(pre, vec![short("invoke"), n(0x4242), n(0x24), calldata_hash, x]);
    let legacy = tx.hash_elements(x, false, Some(LEGACY_L1_HANDLER_BLOCK + 1));
    assert_eq!(legacy, vec![short("invoke"), n(0x4242), n(0x24), calldata_hash, x, n(9)]);
    assert_eq!(tx.hash_elements(x, false, Some(LEGACY_BLOCK_NUMBER)), legacy);
    let current = tx.hash_elements(x, false, Some(LEGACY_BLOCK_NUMBER + 1));
    assert_eq!(
        current,
        vec![short("l1_handler"), n(0), n(0x4242), n(0x24), calldata_hash, n(0), x, n(9)]
    );
    assert_eq!(tx.hash_elements(x, false, None), current);
    assert_eq!(tx.compute_hash::<PedersenHasher>(x, true, None), pedersen(&current));
}

#[test]
fn era_selection() {
    assert_eq!(general_era(None), Era::Legacy);
    assert_eq!(general_era(Some(0)), Era::Legacy);
    assert_eq!(general_era(Some(LEGACY_BLOCK_NUMBER)), Era::Legacy);
    assert_eq!(general_era(Some(LEGACY_BLOCK_NUMBER + 1)), Era::Current);
    assert_eq!(general_era(Some(u64::MAX)), Era::Current);
    assert_eq!(l1_handler_era(None), Era::Current);
    assert_eq!(l1_handler_era(Some(0)), Era::PreLegacy);
    assert_eq!(l1_handler_era(Some(LEGACY_L1_HANDLER_BLOCK)), Era::PreLegacy);
    assert_eq!(l1_handler_era(Some(LEGACY_L1_HANDLER_BLOCK + 1)), Era::Legacy);
    assert_eq!(l1_handler_era(Some(LEGACY_BLOCK_NUMBER)), Era::Legacy);
    assert_eq!(l1_handler_era(Some(LEGACY_BLOCK_NUMBER + 1)), Era::Current);
}

#[test]
fn query_offset_shifts_only_version() {
    let x = chain();
    let pairs = vec![
        (invoke_v1().hash_elements(x, false, None), invoke_v1().hash_elements(x, true, None)),
        (declare_v2().hash_elements(x, false, None), declare_v2().hash_elements(x, true, None)),
        (
            deploy_account().hash_elements(x, false, None),
            deploy_account().hash_elements(x, true, None),
        ),
    ];
    for (on_chain, query) in pairs {
        assert_eq!(on_chain.len(), query.len());
        for i in 0..on_chain.len() {
            if i == 1 {
                assert_eq!(query[i], on_chain[i].add(&offset()));
            } else {
                assert_eq!(query[i], on_chain[i]);
            }
        }
    }
    assert_eq!(invoke_v1().hash_elements(x, true, None)[1], felt("0x100000000000000000000000000000001"));
    assert_eq!(declare_v2().hash_elements(x, true, None)[1], felt("0x100000000000000000000000000000002"));
}

#[test]
fn query_ignored_without_version_slot() {
    let x = chain();
    let d0 = DeclareTransactionV0 { max_fee: 1, sender_address: n(2), class_hash: n(3) };
    let d1 = DeclareTransactionV1 { max_fee: 1, nonce: 4, sender_address: n(2), class_hash: n(3) };
    assert_eq!(d0.compute_hash::<PedersenHasher>(x, true, None), d0.compute_hash::<PedersenHasher>(x, false, None));
    assert_eq!(d1.compute_hash::<PedersenHasher>(x, true, None), d1.compute_hash::<PedersenHasher>(x, false, None));
    for h in [None, Some(1), Some(LEGACY_BLOCK_NUMBER + 1)] {
        assert_eq!(deploy().compute_hash::<PedersenHasher>(x, true, h), deploy().compute_hash::<PedersenHasher>(x, false, h));
        assert_eq!(l1_handler().compute_hash::<PedersenHasher>(x, true, h), l1_handler().compute_hash::<PedersenHasher>(x, false, h));
    }
}

#[test]
fn declare_sequences() {
    let x = chain();
    let d0 = DeclareTransactionV0 { max_fee: 1, sender_address: n(2), class_hash: n(3) };
    assert_eq!(
        d0.hash_elements(x, false, None),
        vec![short("declare"), n(0), n(2), n(0), empty_hash(), n(1), x, n(3)]
    );
    let d1 = DeclareTransactionV1 { max_fee: 1, nonce: 4, sender_address: n(2), class_hash: n(3) };
    assert_eq!(
        d1.hash_elements(x, false, None),
        vec![short("declare"), n(1), n(2), n(0), pedersen(&[n(3)]), n(1), x, n(4)]
    );
    assert_eq!(
        declare_v2().hash_elements(x, false, None),
        vec![short("declare"), n(2), n(0x77), n(0), pedersen(&[n(0x88)]), n(11), x, n(3), n(0x99)]
    );
    let wrapped = Transaction::Declare(DeclareTransaction::V2(declare_v2()));
    assert_eq!(wrapped.compute_hash::<PedersenHasher>(x, false, Some(1)), declare_v2().compute_hash::<PedersenHasher>(x, false, None));
}

#[test]
fn derive_address_known_vector() {
    let d = deploy_account();
    let expected = felt("0x00da27ef7c3869c3a6cc6a0f7bf07a51c3e590825adba8a51cae27d815839eec");
    assert_eq!(derive_address(d.contract_address_salt, d.class_hash, &d.constructor_calldata), expected);
    assert_eq!(d.get_account_address(), expected);
    assert_eq!(deploy().get_account_address(), expected);
    assert_eq!(
        DeployTransaction::calculate_contract_address(d.contract_address_salt, d.class_hash, &[n(1)]),
        expected
    );
}

#[test]
fn derive_address_below_bound() {
    let bound = felt("0x7ffffffffffffffffffffffffffffffffffffffffffffffffffffffffffff00");
    let max = felt("0x800000000000011000000000000000000000000000000000000000000000000");
    let a = DeployAccountTransaction::calculate_contract_address(max, max, &[max, n(0)]);
    assert!(a.to_bytes_be() < bound.to_bytes_be());
    let b = derive_address(n(0), n(0), &[]);
    assert!(b.to_bytes_be() < bound.to_bytes_be());
}

#[test]
fn deploy_account_sequence() {
    let x = chain();
    let d = deploy_account();
    let address = felt("0x00da27ef7c3869c3a6cc6a0f7bf07a51c3e590825adba8a51cae27d815839eec");
    let inner = pedersen(&[d.class_hash, d.contract_address_salt, n(1)]);
    let elements = d.hash_elements(x, false, None);
    assert_eq!(elements, vec![short("deploy_account"), n(1), address, n(0), inner, n(20), x, n(0)]);
    assert_eq!(d.compute_hash::<PedersenHasher>(x, false, None), pedersen(&elements));
    assert_eq!(d.compute_hash_given_contract_address::<PedersenHasher>(x, address, false), pedersen(&elements));
}

#[test]
fn deploy_sequences() {
    let x = chain();
    let address = felt("0x00da27ef7c3869c3a6cc6a0f7bf07a51c3e590825adba8a51cae27d815839eec");
    let constructor = felt("0x28ffe4ff0f226a9107253e17a904099aa4f63a02a5621de0576e5aa71bc5194");
    let calldata_hash = pedersen(&[n(1)]);
    let current = deploy().hash_elements(x, false, Some(LEGACY_BLOCK_NUMBER + 1));
    assert_eq!(current, vec![short("deploy"), n(0), address, constructor, calldata_hash, n(0), x]);
    let legacy = deploy().hash_elements(x, false, Some(LEGACY_BLOCK_NUMBER));
    assert_eq!(legacy, vec![short("deploy"), address, constructor, calldata_hash, x]);
    assert_eq!(deploy().compute_hash::<PedersenHasher>(x, false, None), pedersen(&legacy));
    assert_eq!(
        deploy().compute_hash_given_contract_address::<PedersenHasher>(x, address, false, Some(LEGACY_BLOCK_NUMBER + 1)),
        pedersen(&current)
    );
}

#[test]
fn dispatch_and_determinism() {
    let x = chain();
    let tx = Transaction::Invoke(InvokeTransaction::V0(invoke_v0()));
    let h = Some(LEGACY_BLOCK_NUMBER + 5);
    assert_eq!(tx.compute_hash::<PedersenHasher>(x, false, h), tx.compute_hash::<PedersenHasher>(x, false, h));
    assert_eq!(tx.compute_hash::<PedersenHasher>(x, false, h), invoke_v0().compute_hash::<PedersenHasher>(x, false, h));
    let l1 = Transaction::L1Handler(l1_handler());
    assert_eq!(l1.compute_hash::<PedersenHasher>(x, false, Some(3)), l1_handler().compute_hash::<PedersenHasher>(x, false, Some(3)));
    let user = UserTransaction::Invoke(InvokeTransaction::V0(invoke_v0()));
    assert_eq!(user.compute_hash::<PedersenHasher>(x, false, h), invoke_v0().compute_hash::<PedersenHasher>(x, false, None));
    let user_da = UserTransaction::DeployAccount(deploy_account());
    assert_eq!(user_da.compute_hash::<PedersenHasher>(x, true, h), deploy_account().compute_hash::<PedersenHasher>(x, true, None));
    assert_ne!(
        Transaction::Deploy(deploy()).compute_hash::<PedersenHasher>(x, false, h),
        Transaction::Deploy(deploy()).compute_hash::<PedersenHasher>(short("SN_MAIN"), false, h)
    );
}

#[test]
fn felt_arithmetic() {
    assert_eq!(short("invoke").to_bytes_be()[26..], *b"invoke");
    assert_eq!(Felt::from_short_string("invoke"), short("invoke"));
    assert_eq!(Felt::from_u128(u128::MAX).add(&n(1)), offset());
    let p_minus_one = felt("0x800000000000011000000000000000000000000000000000000000000000000");
    assert_eq!(p_minus_one.add(&n(3)), n(2));
    assert_eq!(n(17).rem(&n(5)), n(2));
    assert_eq!(n(3).rem(&n(5)), n(3));
    let mut over = [0u8; 32];
    over[0] = 0x08;
    over[7] = 0x11;
    over[31] = 0x01;
    assert!(Felt::from_bytes_be(over).is_none());
    over[31] = 0x00;
    assert!(Felt::from_bytes_be(over).is_some());
}

#[test]
fn pedersen_hasher_hashes_elements() {
    assert_eq!(PedersenHasher::compute_hash_on_elements(&[]), empty_hash());
    let expected = felt("0x025cde77210b1c223b2c6e69db6e9021aa1599177ab177474d5326cd2a62cb69");
    assert_eq!(PedersenHasher::compute_hash_on_elements(&[n(0xaa), n(0xbb), n(0xcc), n(0xdd)]), expected);
}
