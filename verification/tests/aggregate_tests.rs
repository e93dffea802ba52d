use asset_simulator::address::Address;
use asset_simulator::aggregate::{aggregate_missing_assets, same_shortfall};
use asset_simulator::amount::U256;
use asset_simulator::types::{AssetSpec, MissingAssetInfo};

fn addr(n: u8) -> Address {
    Address { hi: 0, lo: n as u128 }
}

fn erc20_entry(account: u8, token: u8, required: u128, balance: u128, missing: u128)
    -> MissingAssetInfo {
    MissingAssetInfo {
        account: addr(account),
        required: AssetSpec::ERC20 { token: addr(token), amount: U256::from_u128(required) },
        current_balance: U256::from_u128(balance),
        missing_amount: U256::from_u128(missing),
    }
}

#[test]
fn test_aggregation_sums_same_shortfall() {
    // Two observations of the same (account, token): one entry whose
    // missing amount is S1 + S2, with the required amounts summed too and
    // the first observation's current balance kept.
    let reports = vec![erc20_entry(1, 9, 10, 3, 5), erc20_entry(1, 9, 20, 4, 7)];
    let merged = aggregate_missing_assets(&reports);
    assert_eq!(merged.len(), 1);
    assert_eq!(merged[0].account, addr(1));
    assert_eq!(merged[0].missing_amount, U256::from_u128(12));
    assert_eq!(merged[0].current_balance, U256::from_u128(3));
    assert_eq!(
        merged[0].required,
        AssetSpec::ERC20 { token: addr(9), amount: U256::from_u128(30) }
    );
}

#[test]
fn test_aggregation_keeps_distinct_tokens_apart() {
    let reports = vec![erc20_entry(1, 9, 10, 0, 10), erc20_entry(1, 8, 20, 0, 20)];
    let merged = aggregate_missing_assets(&reports);
    assert_eq!(merged.len(), 2);
    assert_eq!(merged[0].missing_amount, U256::from_u128(10));
    assert_eq!(merged[1].missing_amount, U256::from_u128(20));
}

#[test]
fn test_aggregation_keeps_distinct_accounts_apart() {
    let reports = vec![erc20_entry(1, 9, 10, 0, 10), erc20_entry(2, 9, 10, 0, 10)];
    let merged = aggregate_missing_assets(&reports);
    assert_eq!(merged.len(), 2);
}

#[test]
fn test_aggregation_of_three_observations() {
    let reports =
        vec![erc20_entry(1, 9, 10, 2, 5), erc20_entry(1, 9, 10, 9, 6), erc20_entry(1, 9, 10, 9, 7)];
    let merged = aggregate_missing_assets(&reports);
    assert_eq!(merged.len(), 1);
    assert_eq!(merged[0].missing_amount, U256::from_u128(18));
    assert_eq!(merged[0].current_balance, U256::from_u128(2));
}

#[test]
fn test_native_identity_ignores_amount() {
    let a = MissingAssetInfo {
        account: addr(1),
        required: AssetSpec::Native(U256::from_u128(5)),
        current_balance: U256::zero(),
        missing_amount: U256::from_u128(5),
    };
    let b = MissingAssetInfo {
        account: addr(1),
        required: AssetSpec::Native(U256::from_u128(9)),
        current_balance: U256::zero(),
        missing_amount: U256::from_u128(9),
    };
    assert!(same_shortfall(&a, &b));
    let merged = aggregate_missing_assets(&vec![a, b]);
    assert_eq!(merged.len(), 1);
    assert_eq!(merged[0].missing_amount, U256::from_u128(14));
    // Only the fungible-token variant sums the embedded required amount.
    assert_eq!(merged[0].required, AssetSpec::Native(U256::from_u128(5)));
}

#[test]
fn test_non_fungible_identity_compares_ids() {
    let with_ids = |ids: Vec<u128>| MissingAssetInfo {
        account: addr(1),
        required: AssetSpec::ERC721 {
            token: addr(9),
            token_ids: ids.into_iter().map(U256::from_u128).collect(),
        },
        current_balance: U256::zero(),
        missing_amount: U256::from_u128(1),
    };
    assert!(same_shortfall(&with_ids(vec![1, 2]), &with_ids(vec![1, 2])));
    assert!(!same_shortfall(&with_ids(vec![1, 2]), &with_ids(vec![1, 3])));
    let merged = aggregate_missing_assets(&vec![with_ids(vec![1, 2]), with_ids(vec![1, 3])]);
    assert_eq!(merged.len(), 2);
}

#[test]
fn test_different_classes_never_merge() {
    let erc20 = erc20_entry(1, 9, 10, 0, 10);
    let native = MissingAssetInfo {
        account: addr(1),
        required: AssetSpec::Native(U256::from_u128(10)),
        current_balance: U256::zero(),
        missing_amount: U256::from_u128(10),
    };
    assert!(!same_shortfall(&erc20, &native));
    assert_eq!(aggregate_missing_assets(&vec![erc20, native]).len(), 2);
}

#[test]
fn test_aggregation_of_empty_history_is_empty() {
    assert!(aggregate_missing_assets(&Vec::new()).is_empty());
}
