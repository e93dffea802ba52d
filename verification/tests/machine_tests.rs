use asset_simulator::address::Address;
use asset_simulator::amount::U256;
use asset_simulator::asset_simulator::{
    AssetSimulator, DriverStep, EngineAction, EngineEvent, SimulationRun,
};
use asset_simulator::checkers::erc20::ERC20Checker;
use asset_simulator::error::{AssetSimulatorError, RemediationError};
use asset_simulator::types::{AssetSpec, Call, CallKind, MissingAssetInfo, TraceNode, TraceStep};

fn addr(n: u8) -> Address {
    Address { hi: 0, lo: n as u128 }
}

fn transfer_calldata(to: &Address, amount: &U256) -> Vec<u8> {
    let mut d = vec![0xa9u8, 0x05, 0x9c, 0xbb];
    d.extend(vec![0u8; 12]);
    d.extend(to.to_bytes());
    d.extend(amount.to_be_bytes());
    d
}

fn transfer_from_calldata(from: &Address, to: &Address, amount: &U256) -> Vec<u8> {
    let mut d = vec![0x23u8, 0xb8, 0x72, 0xdd];
    d.extend(vec![0u8; 12]);
    d.extend(from.to_bytes());
    d.extend(vec![0u8; 12]);
    d.extend(to.to_bytes());
    d.extend(amount.to_be_bytes());
    d
}

/// A call node with one recorded storage read per slot.
fn node_with_slots(
    kind: CallKind,
    caller: Address,
    address: Address,
    data: Vec<u8>,
    slots: Vec<u128>,
) -> TraceNode {
    let steps = slots
        .into_iter()
        .map(|s| TraceStep { op: b"SLOAD".to_vec(), stack: Some(vec![U256::from_u128(s)]) })
        .collect();
    TraceNode { kind, caller, address, data, steps }
}

fn erc20_simulator() -> AssetSimulator<ERC20Checker> {
    AssetSimulator::new().with_erc20_checker()
}

/// Drives a run with a scripted list of engine answers; returns the
/// outcome and every action the run asked for.
fn drive(
    mut run: SimulationRun<ERC20Checker>,
    events: Vec<EngineEvent>,
) -> (Result<Vec<MissingAssetInfo>, AssetSimulatorError>, Vec<EngineAction>) {
    let mut actions = Vec::new();
    let mut events = events.into_iter();
    loop {
        match run.next_action() {
            DriverStep::Perform(action) => {
                actions.push(action);
                run = run.step(events.next().expect("the script ran out of engine answers"));
            }
            DriverStep::Done => {
                assert!(run.is_terminal());
                return (run.finish(), actions);
            }
        }
    }
}

fn count_executes(actions: &[EngineAction]) -> usize {
    actions.iter().filter(|a| matches!(a, EngineAction::Execute { .. })).count()
}

#[test]
fn test_successful_transfer_returns_empty() {
    let sender = addr(0x11);
    let token = addr(0x99);
    let call = Call::new(sender, token, transfer_calldata(&addr(0x22), &U256::from_u128(100)),
        U256::zero());
    let run = erc20_simulator().check_transaction(call);
    let (result, actions) = drive(run, vec![EngineEvent::Executed { reverted: false, trace: None }]);
    assert!(result.unwrap().is_empty(), "a run that does not revert reports no missing assets");
    assert_eq!(actions.len(), 1);
    match &actions[0] {
        EngineAction::Execute { from, to, .. } => {
            assert_eq!(*from, sender);
            assert_eq!(*to, token);
        }
        _ => panic!("the first action must execute the transaction"),
    }
}

#[test]
fn test_insufficient_balance_detected() {
    let sender = addr(0x11);
    let recipient = addr(0x22);
    let token = addr(0x99);
    let amount = U256::from_u128(100);
    let calldata = transfer_calldata(&recipient, &amount);
    let call = Call::new(sender, token, calldata.clone(), U256::zero());

    let run = erc20_simulator().check_transaction_with_options(call, false, 10);
    let trace = vec![node_with_slots(CallKind::Call, sender, token, calldata, vec![])];
    let (result, actions) = drive(
        run,
        vec![
            EngineEvent::Executed { reverted: true, trace: Some(trace) },
            EngineEvent::ReadReturned { output: Some(U256::zero().to_be_bytes()) },
        ],
    );

    // The balance query goes to the token from the neutral zero caller.
    match &actions[1] {
        EngineAction::ReadCall(q) => {
            assert_eq!(q.caller, addr(0));
            assert_eq!(q.target, token);
            assert_eq!(q.data[0..4], [0x70, 0xa0, 0x82, 0x31]);
        }
        _ => panic!("the second action must be the balance query"),
    }

    let report = result.unwrap();
    assert_eq!(report.len(), 1, "exactly one shortfall entry");
    assert_eq!(report[0].account, sender);
    assert_eq!(report[0].missing_amount, amount);
    assert_eq!(report[0].current_balance, U256::zero());
    assert_eq!(report[0].required, AssetSpec::ERC20 { token, amount });
}

#[test]
fn test_allowance_issue_not_balance_issue() {
    // transferFrom without approval: the balance is sufficient, so the
    // revert cannot be attributed to a balance shortfall and the report
    // stays empty.
    let sender = addr(0x11);
    let recipient = addr(0x22);
    let spender = addr(0x33);
    let token = addr(0x99);
    let amount = U256::from_u128(100);
    let calldata = transfer_from_calldata(&sender, &recipient, &amount);
    let call = Call::new(spender, token, calldata.clone(), U256::zero());

    let run = erc20_simulator().check_transaction(call);
    let trace = vec![node_with_slots(CallKind::Call, spender, token, calldata, vec![1])];
    let (result, _) = drive(
        run,
        vec![
            EngineEvent::Executed { reverted: true, trace: Some(trace) },
            EngineEvent::ReadReturned { output: Some(U256::from_u128(200).to_be_bytes()) },
        ],
    );
    assert!(
        result.unwrap().is_empty(),
        "an allowance revert must not be reported as a balance shortfall"
    );
}

#[test]
fn test_unmatched_revert_returns_empty() {
    // approve-shaped calldata: no checker identifies a candidate, the run
    // ends with nothing recorded.
    let sender = addr(0x11);
    let token = addr(0x99);
    let mut calldata = transfer_calldata(&addr(0x22), &U256::from_u128(100));
    calldata[0] = 0x09;
    calldata[1] = 0x5e;
    calldata[2] = 0xa7;
    calldata[3] = 0xb3;
    let call = Call::new(sender, token, calldata.clone(), U256::zero());
    let run = erc20_simulator().check_transaction(call);
    let trace = vec![node_with_slots(CallKind::Call, sender, token, calldata, vec![1])];
    let (result, actions) =
        drive(run, vec![EngineEvent::Executed { reverted: true, trace: Some(trace) }]);
    assert!(result.unwrap().is_empty());
    assert_eq!(actions.len(), 1);
}

#[test]
fn test_revert_without_trace_returns_empty() {
    let call = Call::new(addr(1), addr(2), Vec::new(), U256::zero());
    let run = erc20_simulator().check_transaction(call);
    let (result, _) = drive(run, vec![EngineEvent::Executed { reverted: true, trace: None }]);
    assert!(result.unwrap().is_empty());
}

#[test]
fn test_multicall_detects_two_missing_assets() {
    // Two legs over two distinct tokens, each with an impossibly large
    // amount: with auto-fix the run patches the first leg, re-executes,
    // finds the second, and finally reports exactly one entry per token.
    let sender = addr(0x11);
    let recipient = addr(0x22);
    let multicall = addr(0x77);
    let usdc = addr(0x88);
    let weth = addr(0x99);
    let amount_usdc = U256::from_u128(100_000_000_000_000_000_000_000); // 1e23
    let amount_weth = U256::from_u128(1_000_000_000_000_000_000_000_000); // 1e24

    let call = Call::new(sender, multicall, vec![0xde, 0xad], U256::zero());
    let run = erc20_simulator().check_transaction(call);

    let leg = |token: Address, amount: &U256| {
        vec![
            node_with_slots(CallKind::Call, sender, multicall, vec![0xde, 0xad], vec![]),
            node_with_slots(
                CallKind::Call,
                multicall,
                token,
                transfer_calldata(&recipient, amount),
                vec![4],
            ),
        ]
    };

    let events = vec![
        // Iteration one: the USDC leg reverts.
        EngineEvent::Executed { reverted: true, trace: Some(leg(usdc, &amount_usdc)) },
        EngineEvent::ReadReturned { output: Some(U256::zero().to_be_bytes()) },
        EngineEvent::StorageSet,
        EngineEvent::ReadReturned { output: None }, // best-effort verification
        // Iteration two: the WETH leg reverts.
        EngineEvent::Executed { reverted: true, trace: Some(leg(weth, &amount_weth)) },
        EngineEvent::ReadReturned { output: Some(U256::zero().to_be_bytes()) },
        EngineEvent::StorageSet,
        EngineEvent::ReadReturned { output: None },
        // Iteration three: everything covered.
        EngineEvent::Executed { reverted: false, trace: None },
    ];
    let (result, actions) = drive(run, events);
    assert_eq!(count_executes(&actions), 3);

    let report = result.unwrap();
    assert_eq!(report.len(), 2, "should report two distinct missing assets");
    let amount_of = |token: Address| {
        report
            .iter()
            .find_map(|m| match &m.required {
                AssetSpec::ERC20 { token: t, amount } if *t == token => Some(*amount),
                _ => None,
            })
            .expect("an entry per token")
    };
    assert_eq!(amount_of(usdc), amount_usdc);
    assert_eq!(amount_of(weth), amount_weth);
}

#[test]
fn test_repeated_shortfall_is_summed_across_iterations() {
    // The same (account, token) shortfall seen in two iterations: the
    // final report carries the total, not the latest observation.
    let sender = addr(0x11);
    let token = addr(0x99);
    let amount = U256::from_u128(100);
    let calldata = transfer_calldata(&addr(0x22), &amount);
    let call = Call::new(sender, token, calldata.clone(), U256::zero());
    let run = erc20_simulator().check_transaction_with_options(call, true, 2);
    let trace =
        || vec![node_with_slots(CallKind::Call, sender, token, calldata.clone(), vec![4])];

    let events = vec![
        EngineEvent::Executed { reverted: true, trace: Some(trace()) },
        EngineEvent::ReadReturned { output: Some(U256::zero().to_be_bytes()) },
        EngineEvent::StorageSet,
        EngineEvent::ReadReturned { output: None },
        EngineEvent::Executed { reverted: true, trace: Some(trace()) },
        EngineEvent::ReadReturned { output: Some(U256::zero().to_be_bytes()) },
        EngineEvent::StorageSet,
        EngineEvent::ReadReturned { output: None },
        // The iteration cap (2) is reached: no third execution.
    ];
    let (result, actions) = drive(run, events);
    assert_eq!(count_executes(&actions), 2, "the cap bounds engine executions");
    let report = result.unwrap();
    assert_eq!(report.len(), 1);
    assert_eq!(report[0].missing_amount, U256::from_u128(200));
    assert_eq!(report[0].required, AssetSpec::ERC20 { token, amount: U256::from_u128(200) });
}

#[test]
fn test_zero_iterations_returns_empty_without_executing() {
    let call = Call::new(addr(1), addr(2), Vec::new(), U256::zero());
    let run = erc20_simulator().check_transaction_with_options(call, true, 0);
    let (result, actions) = drive(run, Vec::new());
    assert!(result.unwrap().is_empty());
    assert!(actions.is_empty());
}

#[test]
fn test_execution_failure_is_fatal() {
    let call = Call::new(addr(1), addr(2), Vec::new(), U256::zero());
    let run = erc20_simulator().check_transaction(call);
    let (result, _) = drive(run, vec![EngineEvent::ExecutionFailed]);
    assert_eq!(result.unwrap_err(), AssetSimulatorError::EngineFailure);
}

#[test]
fn test_storage_write_rejection_is_fatal() {
    let sender = addr(0x11);
    let token = addr(0x99);
    let calldata = transfer_calldata(&addr(0x22), &U256::from_u128(100));
    let call = Call::new(sender, token, calldata.clone(), U256::zero());
    let run = erc20_simulator().check_transaction(call);
    let trace = vec![node_with_slots(CallKind::Call, sender, token, calldata, vec![4])];
    let (result, _) = drive(
        run,
        vec![
            EngineEvent::Executed { reverted: true, trace: Some(trace) },
            EngineEvent::ReadReturned { output: Some(U256::zero().to_be_bytes()) },
            EngineEvent::StorageSetFailed,
        ],
    );
    assert_eq!(
        result.unwrap_err(),
        AssetSimulatorError::RemediationFailed(RemediationError::StorageWriteRejected)
    );
}

#[test]
fn test_deal_without_storage_reads_is_fatal() {
    // Auto-fix needs recorded storage reads; a trace without any leaves
    // nothing to patch and the run surfaces the remediation failure.
    let sender = addr(0x11);
    let token = addr(0x99);
    let calldata = transfer_calldata(&addr(0x22), &U256::from_u128(100));
    let call = Call::new(sender, token, calldata.clone(), U256::zero());
    let run = erc20_simulator().check_transaction(call);
    let trace = vec![node_with_slots(CallKind::Call, sender, token, calldata, vec![])];
    let (result, _) = drive(
        run,
        vec![
            EngineEvent::Executed { reverted: true, trace: Some(trace) },
            EngineEvent::ReadReturned { output: Some(U256::zero().to_be_bytes()) },
        ],
    );
    assert_eq!(
        result.unwrap_err(),
        AssetSimulatorError::RemediationFailed(RemediationError::NoStorageAccesses)
    );
}

#[test]
fn test_balance_query_failure_skips_the_checker() {
    // A failed balance read is a per-round failure, not a run failure.
    let sender = addr(0x11);
    let token = addr(0x99);
    let calldata = transfer_calldata(&addr(0x22), &U256::from_u128(100));
    let call = Call::new(sender, token, calldata.clone(), U256::zero());
    let run = erc20_simulator().check_transaction(call);
    let trace = vec![node_with_slots(CallKind::Call, sender, token, calldata, vec![4])];
    let (result, _) = drive(
        run,
        vec![
            EngineEvent::Executed { reverted: true, trace: Some(trace) },
            EngineEvent::ReadFailed,
        ],
    );
    assert!(result.unwrap().is_empty());
}

#[test]
fn test_proxy_chain_attributes_shortfall_to_proxy_address() {
    // An upgradeable proxy repeats the transfer calldata verbatim in its
    // delegate-call: the shortfall is attributed to the proxy (the token
    // address users hold), not the implementation.
    let sender = addr(0x11);
    let proxy = addr(0x88);
    let implementation = addr(0x99);
    let amount = U256::from_u128(100);
    let calldata = transfer_calldata(&addr(0x22), &amount);
    let call = Call::new(sender, proxy, calldata.clone(), U256::zero());
    let run = erc20_simulator().check_transaction_with_options(call, false, 10);
    let trace = vec![
        node_with_slots(CallKind::Call, sender, proxy, calldata.clone(), vec![]),
        node_with_slots(CallKind::DelegateCall, proxy, implementation, calldata, vec![]),
    ];
    let (result, _) = drive(
        run,
        vec![
            EngineEvent::Executed { reverted: true, trace: Some(trace) },
            EngineEvent::ReadReturned { output: Some(U256::zero().to_be_bytes()) },
        ],
    );
    let report = result.unwrap();
    assert_eq!(report.len(), 1);
    assert_eq!(report[0].required, AssetSpec::ERC20 { token: proxy, amount });
}

#[test]
fn test_diverging_delegate_call_is_the_cause() {
    // A delegate-call whose calldata differs from its caller's encodes
    // the failing intent itself and is attributed the shortfall.
    let sender = addr(0x11);
    let outer = addr(0x88);
    let module = addr(0x99);
    let amount = U256::from_u128(100);
    let inner_calldata = transfer_calldata(&addr(0x22), &amount);
    let call = Call::new(sender, outer, vec![1, 2, 3], U256::zero());
    let run = erc20_simulator().check_transaction_with_options(call, false, 10);
    let trace = vec![
        node_with_slots(CallKind::Call, sender, outer, vec![1, 2, 3], vec![]),
        node_with_slots(CallKind::DelegateCall, outer, module, inner_calldata, vec![]),
    ];
    let (result, _) = drive(
        run,
        vec![
            EngineEvent::Executed { reverted: true, trace: Some(trace) },
            EngineEvent::ReadReturned { output: Some(U256::zero().to_be_bytes()) },
        ],
    );
    let report = result.unwrap();
    assert_eq!(report.len(), 1);
    assert_eq!(report[0].required, AssetSpec::ERC20 { token: module, amount });
}

#[test]
fn test_builder_configures_fork_and_checkers() {
    let simulator: AssetSimulator<ERC20Checker> = AssetSimulator::builder()
        .with_fork(String::from("https://mainnet.base.org"), Some(30155463))
        .with_erc20_checker()
        .build();
    assert_eq!(simulator.checkers.len(), 1);
    let fork = simulator.fork_info.as_ref().expect("fork selected");
    assert_eq!(fork.rpc_url.as_deref(), Some("https://mainnet.base.org"));
    assert_eq!(fork.block_number, Some(30155463));
}
