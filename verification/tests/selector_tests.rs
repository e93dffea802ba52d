use asset_simulator::address::Address;
use asset_simulator::types::{CallKind, TraceNode};
use asset_simulator::utils::{bytes_eq, find_last_non_proxy_call};

fn addr(n: u8) -> Address {
    Address { hi: 0, lo: n as u128 }
}

fn node(kind: CallKind, caller: u8, address: u8, data: Vec<u8>) -> TraceNode {
    TraceNode { kind, caller: addr(caller), address: addr(address), data, steps: Vec::new() }
}

#[test]
fn test_empty_trace_selects_nothing() {
    let nodes: Vec<TraceNode> = Vec::new();
    assert!(find_last_non_proxy_call(&nodes).is_none());
}

#[test]
fn test_single_delegate_call_is_selected() {
    // The chronologically first node is always accepted, whatever its kind.
    let nodes = vec![node(CallKind::DelegateCall, 1, 2, vec![1, 2, 3])];
    assert_eq!(find_last_non_proxy_call(&nodes), Some(0));
}

#[test]
fn test_pure_proxy_hop_is_skipped() {
    // A delegate-call whose calldata repeats its predecessor's byte for
    // byte is a pass-through proxy hop: the predecessor is returned.
    let payload = vec![0xa9, 0x05, 0x9c, 0xbb, 7, 7];
    let nodes = vec![
        node(CallKind::Call, 1, 2, payload.clone()),
        node(CallKind::DelegateCall, 2, 3, payload),
    ];
    assert_eq!(find_last_non_proxy_call(&nodes), Some(0));
}

#[test]
fn test_proxy_chain_collapses_to_first_diverging_hop() {
    // Two stacked pass-through hops: the walk continues to an earlier
    // ancestor under the same rule.
    let payload = vec![5, 5, 5];
    let nodes = vec![
        node(CallKind::Call, 1, 2, payload.clone()),
        node(CallKind::DelegateCall, 2, 3, payload.clone()),
        node(CallKind::DelegateCall, 3, 4, payload),
    ];
    assert_eq!(find_last_non_proxy_call(&nodes), Some(0));
}

#[test]
fn test_diverging_delegate_call_is_selected() {
    // A delegate-call whose calldata differs from its predecessor's
    // encodes its own intent and is itself returned.
    let nodes = vec![
        node(CallKind::Call, 1, 2, vec![1, 2, 3]),
        node(CallKind::DelegateCall, 2, 3, vec![4, 5, 6]),
    ];
    assert_eq!(find_last_non_proxy_call(&nodes), Some(1));
}

#[test]
fn test_last_plain_call_is_selected() {
    let nodes = vec![
        node(CallKind::Call, 1, 2, vec![1]),
        node(CallKind::StaticCall, 2, 3, vec![1]),
        node(CallKind::Call, 3, 4, vec![1]),
    ];
    assert_eq!(find_last_non_proxy_call(&nodes), Some(2));
}

#[test]
fn test_proxy_rule_ignores_non_delegate_repeats() {
    // A plain call repeating calldata is not a proxy hop.
    let payload = vec![9, 9];
    let nodes = vec![
        node(CallKind::Call, 1, 2, payload.clone()),
        node(CallKind::Call, 2, 3, payload),
    ];
    assert_eq!(find_last_non_proxy_call(&nodes), Some(1));
}

#[test]
fn test_bytes_eq() {
    assert!(bytes_eq(&vec![1, 2], &vec![1, 2]));
    assert!(!bytes_eq(&vec![1, 2], &vec![1, 3]));
    assert!(!bytes_eq(&vec![1, 2], &vec![1, 2, 3]));
    assert!(bytes_eq(&Vec::new(), &Vec::new()));
}
