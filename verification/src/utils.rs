//! Trace selection: picking the call node responsible for a revert.
//!
//! Multi-layer proxies repeat calldata verbatim at each delegate-call hop;
//! the first hop (walking backwards from the last-executed node) whose
//! payload diverges from its caller's is the one that encodes the actual
//! failing intent.

use crate::types::{CallKind, TraceNode, TraceNodeView};
use vstd::prelude::*;

verus! {

/// The views of a list of trace nodes.
pub open spec fn nodes_view(ns: Seq<TraceNode>) -> Seq<TraceNodeView> {
    ns.map_values(|n: TraceNode| n@)
}

/// Whether the reversed walk accepts node `i`: every node is accepted
/// except a delegate-call whose payload is byte-identical to the node one
/// position earlier (a pure pass-through proxy hop). The chronologically
/// first node is always accepted.
pub open spec fn spec_accepted(nodes: Seq<TraceNodeView>, i: int) -> bool {
    nodes[i].kind != CallKind::DelegateCall || i == 0 || nodes[i].data != nodes[i - 1].data
}

/// The index the reversed walk selects from position `i` downward.
pub open spec fn spec_select_from(nodes: Seq<TraceNodeView>, i: int) -> Option<int>
    decreases i + 1,
{
    if i < 0 {
        None
    } else if spec_accepted(nodes, i) {
        Some(i)
    } else {
        spec_select_from(nodes, i - 1)
    }
}

/// The node a revert is attributed to: the last-executed node that is not
/// a pure proxy hop. Empty traces select nothing; non-empty traces always
/// select a node, since the first node is always accepted.
pub open spec fn spec_select(nodes: Seq<TraceNodeView>) -> Option<int> {
    spec_select_from(nodes, nodes.len() - 1)
}

proof fn lemma_select_from_characterizes(nodes: Seq<TraceNodeView>, i: int)
    requires
        i < nodes.len(),
    ensures
        i >= 0 ==> (spec_select_from(nodes, i) matches Some(k) && 0 <= k <= i && spec_accepted(
            nodes,
            k,
        ) && forall|j: int| k < j <= i ==> !spec_accepted(nodes, j)),
        i < 0 ==> spec_select_from(nodes, i) is None,
    decreases i + 1,
{
    if i >= 0 && !spec_accepted(nodes, i) {
        lemma_select_from_characterizes(nodes, i - 1);
    }
}

/// What the selection returns: nothing for an empty trace, otherwise the
/// largest accepted index, with every later node rejected.
pub proof fn lemma_select_characterizes(nodes: Seq<TraceNodeView>)
    ensures
        nodes.len() == 0 ==> spec_select(nodes) is None,
        nodes.len() > 0 ==> (spec_select(nodes) matches Some(k) && 0 <= k < nodes.len()
            && spec_accepted(nodes, k) && forall|j: int|
            k < j < nodes.len() ==> !spec_accepted(nodes, j)),
{
    lemma_select_from_characterizes(nodes, nodes.len() - 1);
}

/// A pure proxy hop is never selected: a delegate-call whose payload
/// repeats its predecessor's is skipped wherever it stands.
pub proof fn lemma_select_skips_pure_proxy(nodes: Seq<TraceNodeView>, i: int)
    requires
        0 < i < nodes.len(),
        nodes[i].kind == CallKind::DelegateCall,
        nodes[i].data == nodes[i - 1].data,
    ensures
        spec_select(nodes) != Some(i),
{
    lemma_select_characterizes(nodes);
}

/// When the last-executed node is a pure proxy hop, its predecessor, or an
/// earlier ancestor under the same rule, is selected instead.
pub proof fn lemma_select_prefers_ancestor(nodes: Seq<TraceNodeView>, i: int)
    requires
        i == nodes.len() - 1,
        0 < i,
        nodes[i].kind == CallKind::DelegateCall,
        nodes[i].data == nodes[i - 1].data,
    ensures
        spec_select(nodes) matches Some(k) && 0 <= k < i,

{
    lemma_select_characterizes(nodes);
}

/// A delegate-call whose payload diverges from its predecessor's is itself
/// selected when it executed last.
pub proof fn lemma_select_keeps_diverging_delegate(nodes: Seq<TraceNodeView>, i: int)
    requires
        i == nodes.len() - 1,
        0 <= i,
        nodes[i].kind == CallKind::DelegateCall,
        i == 0 || nodes[i].data != nodes[i - 1].data,
    ensures
        spec_select(nodes) == Some(i),
{
}

/// Byte-wise equality of two payloads.
pub fn bytes_eq(a: &Vec<u8>, b: &Vec<u8>) -> (r: bool)
    ensures
        r == (a@ == b@),
{
    if a.len() != b.len() {
        return false;
    }
    let mut i: usize = 0;
    while i < a.len()
        invariant
            a@.len() == b@.len(),
            i <= a@.len(),
            forall|j: int| 0 <= j < i ==> a@[j] == b@[j],
        decreases a@.len() - i,
    {
        if a[i] != b[i] {
            return false;
        }
        i = i + 1;
    }
    proof {
        assert(a@ =~= b@);
    }
    true
}

/// Returns the index of the last relevant call node: the reversed walk's
/// first node that is not a pure proxy hop, or nothing for an empty trace.
pub fn find_last_non_proxy_call(nodes: &Vec<TraceNode>) -> (r: Option<usize>)
    ensures
        match r {
            Some(k) => spec_select(nodes_view(nodes@)) == Some(k as int) && k < nodes@.len(),
            None => spec_select(nodes_view(nodes@)) is None && nodes@.len() == 0,
        },
{
    let ghost v = nodes_view(nodes@);
    if nodes.len() == 0 {
        return None;
    }
    let mut i: usize = nodes.len() - 1;
    loop
        invariant
            nodes@.len() > 0,
            i < nodes@.len(),
            v == nodes_view(nodes@),
            v.len() == nodes@.len(),
            spec_select(v) == spec_select_from(v, i as int),
        decreases i,
    {
        let node = &nodes[i];
        proof {
            assert(v[i as int] == nodes@[i as int]@);
        }
        let accepted = if !(node.kind == CallKind::DelegateCall) {
            true
        } else if i == 0 {
            true
        } else {
            proof {
                assert(v[i as int - 1] == nodes@[i as int - 1]@);
            }
            !bytes_eq(&node.data, &nodes[i - 1].data)
        };
        if accepted {
            proof {
                assert(spec_accepted(v, i as int));
            }
            return Some(i);
        }
        proof {
            assert(!spec_accepted(v, i as int));
            assert(spec_accepted(v, 0));
            assert(i != 0);
        }
        i = i - 1;
    }
}

} // verus!
