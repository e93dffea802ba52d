use asset_simulator::address::Address;
use asset_simulator::amount::U256;
use asset_simulator::checkers::erc20::{deal_value, ERC20Checker};
use asset_simulator::checkers::traits::{AssetChecker, PotentialMissingAsset};
use asset_simulator::error::{AssetSimulatorError, CheckerError, RemediationError};
use asset_simulator::types::{AssetSpec, AssetType, CallKind, TraceNode};

fn addr(n: u8) -> Address {
    Address { hi: 0, lo: n as u128 }
}

fn transfer_calldata(to: &Address, amount: &U256) -> Vec<u8> {
    let mut d = vec![0xa9u8, 0x05, 0x9c, 0xbb];
    d.extend(vec![0u8; 12]);
    d.extend(to.to_bytes());
    d.extend(amount.to_be_bytes());
    d
}

fn transfer_from_calldata(from: &Address, to: &Address, amount: &U256) -> Vec<u8> {
    let mut d = vec![0x23u8, 0xb8, 0x72, 0xdd];
    d.extend(vec![0u8; 12]);
    d.extend(from.to_bytes());
    d.extend(vec![0u8; 12]);
    d.extend(to.to_bytes());
    d.extend(amount.to_be_bytes());
    d
}

fn node(caller: u8, address: u8, data: Vec<u8>) -> TraceNode {
    TraceNode {
        kind: CallKind::Call,
        caller: addr(caller),
        address: addr(address),
        data,
        steps: Vec::new(),
    }
}

fn candidate(token: u8, account: u8, required: u128) -> PotentialMissingAsset {
    PotentialMissingAsset {
        asset_type: AssetType::ERC20,
        token_address: addr(token),
        account: addr(account),
        required_amount: U256::from_u128(required),
    }
}

#[test]
fn test_identify_transfer_debits_the_caller() {
    let checker = ERC20Checker::new();
    let amount = U256::from_u128(100);
    let n = node(1, 9, transfer_calldata(&addr(2), &amount));
    let found = checker.identify_asset(&n).expect("identifies");
    assert_eq!(found.asset_type, AssetType::ERC20);
    assert_eq!(found.token_address, addr(9));
    assert_eq!(found.account, addr(1));
    assert_eq!(found.required_amount, amount);
}

#[test]
fn test_identify_transfer_from_debits_the_explicit_from() {
    let checker = ERC20Checker::new();
    let amount = U256::from_u128(100);
    let n = node(3, 9, transfer_from_calldata(&addr(1), &addr(2), &amount));
    let found = checker.identify_asset(&n).expect("identifies");
    assert_eq!(found.account, addr(1));
    assert_eq!(found.token_address, addr(9));
    assert_eq!(found.required_amount, amount);
}

#[test]
fn test_identify_rejects_allowance_calls() {
    // approve(spender, amount) must yield no candidate: an allowance
    // problem is never attributed as a balance shortfall.
    let checker = ERC20Checker::new();
    let mut data = transfer_calldata(&addr(2), &U256::from_u128(100));
    data[0] = 0x09;
    data[1] = 0x5e;
    data[2] = 0xa7;
    data[3] = 0xb3;
    assert!(checker.identify_asset(&node(1, 9, data)).is_none());
}

#[test]
fn test_balance_query_uses_neutral_caller() {
    let checker = ERC20Checker::new();
    let q = checker.balance_query(&candidate(9, 1, 100));
    assert_eq!(q.caller, Address { hi: 0, lo: 0 });
    assert_eq!(q.target, addr(9));
    assert!(q.value.is_zero());
    assert_eq!(q.data[0..4], [0x70, 0xa0, 0x82, 0x31]);
    assert_eq!(q.data.len(), 36);
}

#[test]
fn test_check_balance_computes_shortfall() {
    let checker = ERC20Checker::new();
    let output = Some(U256::from_u128(30).to_be_bytes());
    let info = checker.check_balance(&candidate(9, 1, 100), &output).expect("ok");
    assert_eq!(info.account, addr(1));
    assert_eq!(info.current_balance, U256::from_u128(30));
    assert_eq!(info.missing_amount, U256::from_u128(70));
    assert_eq!(info.required, AssetSpec::ERC20 { token: addr(9), amount: U256::from_u128(100) });
}

#[test]
fn test_check_balance_saturates_at_zero() {
    let checker = ERC20Checker::new();
    let output = Some(U256::from_u128(500).to_be_bytes());
    let info = checker.check_balance(&candidate(9, 1, 100), &output).expect("ok");
    assert!(info.missing_amount.is_zero());
    assert_eq!(info.current_balance, U256::from_u128(500));
}

#[test]
fn test_check_balance_missing_output_is_a_query_failure() {
    let checker = ERC20Checker::new();
    let r = checker.check_balance(&candidate(9, 1, 100), &None);
    assert_eq!(r.unwrap_err(), CheckerError::BalanceQueryFailure);
}

#[test]
fn test_check_balance_undecodable_output_is_a_query_failure() {
    let checker = ERC20Checker::new();
    let r = checker.check_balance(&candidate(9, 1, 100), &Some(vec![0u8; 31]));
    assert_eq!(r.unwrap_err(), CheckerError::BalanceQueryFailure);
}

#[test]
fn test_deal_plan_patches_every_read_slot() {
    let checker = ERC20Checker::new();
    let required = AssetSpec::ERC20 { token: addr(9), amount: U256::from_u128(100) };
    let accesses = vec![U256::from_u128(3), U256::from_u128(8)];
    let plan = checker.deal_plan(addr(1), &required, &accesses).expect("plans");
    assert_eq!(plan.writes.len(), 2);
    assert_eq!(plan.writes[0].target, addr(9));
    assert_eq!(plan.writes[0].slot, U256::from_u128(3));
    assert_eq!(plan.writes[1].slot, U256::from_u128(8));
    // Large but not maximal, to avoid overflow in later contract
    // arithmetic: 2^255 - 1.
    assert_eq!(plan.writes[0].value, deal_value());
    assert_eq!(deal_value(), U256 { hi: u128::MAX >> 1, lo: u128::MAX });
    // The verification read-back queries the recipient's balance as the
    // recipient.
    assert_eq!(plan.verify.caller, addr(1));
    assert_eq!(plan.verify.target, addr(9));
    assert_eq!(plan.verify.data.len(), 36);
}

#[test]
fn test_deal_plan_without_evidence_fails() {
    let checker = ERC20Checker::new();
    let required = AssetSpec::ERC20 { token: addr(9), amount: U256::from_u128(100) };
    let r = checker.deal_plan(addr(1), &required, &Vec::new());
    assert_eq!(
        r.unwrap_err(),
        AssetSimulatorError::RemediationFailed(RemediationError::NoStorageAccesses)
    );
}

#[test]
fn test_deal_plan_rejects_other_asset_classes() {
    let checker = ERC20Checker::new();
    let required = AssetSpec::Native(U256::from_u128(100));
    let r = checker.deal_plan(addr(1), &required, &vec![U256::from_u128(3)]);
    assert_eq!(
        r.unwrap_err(),
        AssetSimulatorError::RemediationFailed(RemediationError::UnsupportedAsset)
    );
}

#[test]
fn test_asset_type_tag() {
    assert_eq!(ERC20Checker::new().asset_type(), AssetType::ERC20);
}
