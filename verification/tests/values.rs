use governor_indexer::xdr::{
    AccountId, ContractExecutable, Int128Parts, ScAddress, ScError, ScErrorCode, ScMapEntry, ScVal,
    UInt256Parts,
};

fn sym(name: &str) -> ScVal {
    ScVal::Symbol(name.as_bytes().to_vec())
}

fn nested() -> ScVal {
    ScVal::Vec(Some(vec![
        ScVal::U32(1),
        ScVal::Mapping(Some(vec![ScMapEntry {
            key: sym("key"),
            val: ScVal::Vec(Some(vec![ScVal::Bool(true), ScVal::Void])),
        }])),
        ScVal::ContractInstance(
            ContractExecutable::Wasm(governor_indexer::xdr::Hash([3u8; 32])),
            Some(vec![ScMapEntry { key: ScVal::I64(-5), val: ScVal::Bytes(vec![1, 2, 3]) }]),
        ),
    ]))
}

#[test]
fn hash_equality_compares_every_byte() {
    let a = governor_indexer::xdr::Hash([7u8; 32]);
    let mut bytes = [7u8; 32];
    assert_eq!(a, governor_indexer::xdr::Hash(bytes));
    bytes[31] = 8;
    assert_ne!(a, governor_indexer::xdr::Hash(bytes));
    bytes[31] = 7;
    bytes[0] = 0;
    assert_ne!(a, governor_indexer::xdr::Hash(bytes));
}

#[test]
fn address_equality_tells_accounts_from_contracts() {
    let account = ScAddress::Account(AccountId([1u8; 32]));
    let contract = ScAddress::Contract(governor_indexer::xdr::Hash([1u8; 32]));
    assert_ne!(account, contract);
    assert_eq!(account, ScAddress::Account(AccountId([1u8; 32])));
    assert_ne!(account, ScAddress::Account(AccountId([2u8; 32])));
    assert_eq!(contract, ScAddress::Contract(governor_indexer::xdr::Hash([1u8; 32])));
}

#[test]
fn executable_equality() {
    let wasm = ContractExecutable::Wasm(governor_indexer::xdr::Hash([9u8; 32]));
    assert_eq!(wasm, ContractExecutable::Wasm(governor_indexer::xdr::Hash([9u8; 32])));
    assert_ne!(wasm, ContractExecutable::Wasm(governor_indexer::xdr::Hash([8u8; 32])));
    assert_ne!(wasm, ContractExecutable::StellarAsset);
    assert_eq!(ContractExecutable::StellarAsset, ContractExecutable::StellarAsset);
}

#[test]
fn values_of_one_shape_compare_by_content() {
    assert_eq!(ScVal::U32(7), ScVal::U32(7));
    assert_ne!(ScVal::U32(7), ScVal::U32(8));
    assert_eq!(ScVal::Bool(false), ScVal::Bool(false));
    assert_ne!(ScVal::Bool(false), ScVal::Bool(true));
    assert_eq!(ScVal::Void, ScVal::Void);
    assert_eq!(
        ScVal::I128(Int128Parts { hi: 0, lo: 1_000_000_000_000 }),
        ScVal::I128(Int128Parts { hi: 0, lo: 1_000_000_000_000 })
    );
    assert_ne!(
        ScVal::I128(Int128Parts { hi: 0, lo: 1 }),
        ScVal::I128(Int128Parts { hi: -1, lo: 1 })
    );
    assert_ne!(
        ScVal::U256(UInt256Parts { hi_hi: 0, hi_lo: 0, lo_hi: 0, lo_lo: 1 }),
        ScVal::U256(UInt256Parts { hi_hi: 0, hi_lo: 0, lo_hi: 1, lo_lo: 1 })
    );
    assert_eq!(
        ScVal::Error(ScError::Storage(ScErrorCode::MissingValue)),
        ScVal::Error(ScError::Storage(ScErrorCode::MissingValue))
    );
    assert_ne!(
        ScVal::Error(ScError::Storage(ScErrorCode::MissingValue)),
        ScVal::Error(ScError::Auth(ScErrorCode::MissingValue))
    );
    assert_ne!(ScVal::Error(ScError::Contract(1)), ScVal::Error(ScError::Contract(2)));
    assert_eq!(ScVal::LedgerKeyNonce(4), ScVal::LedgerKeyNonce(4));
    assert_ne!(ScVal::LedgerKeyNonce(4), ScVal::LedgerKeyNonce(5));
    assert_eq!(ScVal::LedgerKeyContractInstance, ScVal::LedgerKeyContractInstance);
}

#[test]
fn values_of_different_shapes_differ() {
    assert_ne!(ScVal::U32(7), ScVal::I32(7));
    assert_ne!(ScVal::U64(7), ScVal::Timepoint(7));
    assert_ne!(ScVal::Timepoint(7), ScVal::Duration(7));
    assert_ne!(ScVal::Void, ScVal::LedgerKeyContractInstance);
    assert_ne!(ScVal::Bytes(vec![1]), ScVal::String(vec![1]));
    assert_ne!(ScVal::String(b"vote_cast".to_vec()), sym("vote_cast"));
    assert_ne!(ScVal::Vec(None), ScVal::Mapping(None));
}

#[test]
fn byte_strings_compare_by_length_and_content() {
    assert_eq!(sym("vote_cast"), sym("vote_cast"));
    assert_ne!(sym("vote_cast"), sym("vote_cas"));
    assert_ne!(sym("vote_cast"), sym("vote_casu"));
    assert_ne!(sym(""), sym("a"));
    assert_eq!(ScVal::Bytes(vec![]), ScVal::Bytes(vec![]));
}

#[test]
fn an_absent_list_is_not_an_empty_list() {
    assert_ne!(ScVal::Vec(None), ScVal::Vec(Some(vec![])));
    assert_ne!(ScVal::Mapping(None), ScVal::Mapping(Some(vec![])));
    assert_eq!(ScVal::Vec(None), ScVal::Vec(None));
    assert_eq!(ScVal::Vec(Some(vec![])), ScVal::Vec(Some(vec![])));
    assert_ne!(
        ScVal::ContractInstance(ContractExecutable::StellarAsset, None),
        ScVal::ContractInstance(ContractExecutable::StellarAsset, Some(vec![]))
    );
}

#[test]
fn lists_compare_item_by_item_in_order() {
    let a = ScVal::Vec(Some(vec![ScVal::U32(1), ScVal::U32(2)]));
    assert_eq!(a, ScVal::Vec(Some(vec![ScVal::U32(1), ScVal::U32(2)])));
    assert_ne!(a, ScVal::Vec(Some(vec![ScVal::U32(2), ScVal::U32(1)])));
    assert_ne!(a, ScVal::Vec(Some(vec![ScVal::U32(1)])));
    assert_ne!(a, ScVal::Vec(Some(vec![ScVal::U32(1), ScVal::U32(2), ScVal::U32(3)])));
}

#[test]
fn maps_compare_entry_by_entry() {
    let entry = |k: u32, v: u32| ScMapEntry { key: ScVal::U32(k), val: ScVal::U32(v) };
    let a = ScVal::Mapping(Some(vec![entry(1, 10), entry(2, 20)]));
    assert_eq!(a, ScVal::Mapping(Some(vec![entry(1, 10), entry(2, 20)])));
    assert_ne!(a, ScVal::Mapping(Some(vec![entry(1, 10), entry(2, 21)])));
    assert_ne!(a, ScVal::Mapping(Some(vec![entry(1, 10), entry(3, 20)])));
    assert_ne!(a, ScVal::Mapping(Some(vec![entry(2, 20), entry(1, 10)])));
    assert_eq!(entry(1, 10), entry(1, 10));
    assert_ne!(entry(1, 10), entry(1, 11));
}

#[test]
fn nested_values_compare_in_depth() {
    assert_eq!(nested(), nested());
    let mut other = nested();
    if let ScVal::Vec(Some(items)) = &mut other {
        if let ScVal::Mapping(Some(entries)) = &mut items[1] {
            entries[0].val = ScVal::Vec(Some(vec![ScVal::Bool(true), ScVal::U32(0)]));
        }
    }
    assert_ne!(nested(), other);
}

#[test]
fn contract_instances_compare_executable_and_storage() {
    let storage = || Some(vec![ScMapEntry { key: ScVal::U32(1), val: ScVal::Void }]);
    let a = ScVal::ContractInstance(ContractExecutable::StellarAsset, storage());
    assert_eq!(a, ScVal::ContractInstance(ContractExecutable::StellarAsset, storage()));
    assert_ne!(
        a,
        ScVal::ContractInstance(
            ContractExecutable::Wasm(governor_indexer::xdr::Hash([0u8; 32])),
            storage()
        )
    );
    assert_ne!(a, ScVal::ContractInstance(ContractExecutable::StellarAsset, None));
}

#[test]
fn a_clone_is_equal_and_independent() {
    let source = nested();
    let mut copy = source.clone();
    assert_eq!(copy, source);
    if let ScVal::Vec(Some(items)) = &mut copy {
        items.push(ScVal::Void);
    }
    assert_ne!(copy, source);
    assert_eq!(source, nested());

    let entry = ScMapEntry { key: sym("k"), val: nested() };
    assert_eq!(entry.clone(), entry);
    for v in [
        ScVal::Bool(true),
        ScVal::Void,
        ScVal::Error(ScError::Contract(3)),
        ScVal::U32(1),
        ScVal::I32(-1),
        ScVal::U64(2),
        ScVal::I64(-2),
        ScVal::Timepoint(3),
        ScVal::Duration(4),
        ScVal::Bytes(vec![1, 2]),
        ScVal::String(vec![3]),
        sym("abc"),
        ScVal::Vec(None),
        ScVal::Mapping(None),
        ScVal::Address(ScAddress::Account(AccountId([5u8; 32]))),
        ScVal::LedgerKeyContractInstance,
        ScVal::LedgerKeyNonce(9),
        ScVal::ContractInstance(ContractExecutable::StellarAsset, None),
    ] {
        assert_eq!(v.clone(), v);
    }
}
