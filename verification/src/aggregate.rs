//! Aggregation of recorded shortfalls.
//!
//! Shortfalls recorded across iterations are grouped by account and asset
//! identity (ignoring the numeric payload for the fungible classes) and
//! summed, so that a caller sees one total per distinct requirement. One
//! representative per group keeps the first observation's current balance.

use crate::amount::{spec_wrap_add, u256_bound, U256};
use crate::types::{AssetSpec, AssetSpecView, MissingAssetInfo, MissingAssetInfoView};
use vstd::pervasive::VecAdditionalExecFns;
use vstd::prelude::*;

verus! {

/// The views of a list of shortfall reports.
pub open spec fn infos_view(s: Seq<MissingAssetInfo>) -> Seq<MissingAssetInfoView> {
    s.map_values(|m: MissingAssetInfo| m@)
}

/// Two requirements have the same asset identity: the numeric payload is
/// ignored for the fungible classes, while the non-fungible classes
/// compare whole.
pub open spec fn spec_same_identity(a: AssetSpecView, b: AssetSpecView) -> bool {
    match (a, b) {
        (AssetSpecView::Native(_), AssetSpecView::Native(_)) => true,
        (
            AssetSpecView::ERC20 { token: t1, .. },
            AssetSpecView::ERC20 { token: t2, .. },
        ) => t1 == t2,
        (
            AssetSpecView::ERC721 { token: t1, token_ids: i1 },
            AssetSpecView::ERC721 { token: t2, token_ids: i2 },
        ) => t1 == t2 && i1 == i2,
        (
            AssetSpecView::ERC1155 { token: t1, token_amounts: m1 },
            AssetSpecView::ERC1155 { token: t2, token_amounts: m2 },
        ) => t1 == t2 && m1 == m2,
        _ => false,
    }
}

/// Two reports concern the same shortfall: same account, same identity.
pub open spec fn spec_same_shortfall(a: MissingAssetInfoView, b: MissingAssetInfoView) -> bool {
    a.account == b.account && spec_same_identity(a.required, b.required)
}

/// A later observation merged into a group's entry: missing amounts
/// accumulate; for the fungible-token variant the required amount embedded
/// in the requirement accumulates too; the first observation's current
/// balance is kept.
pub open spec fn spec_merge(
    a: MissingAssetInfoView,
    b: MissingAssetInfoView,
) -> MissingAssetInfoView {
    MissingAssetInfoView {
        account: a.account,
        required: match (a.required, b.required) {
            (
                AssetSpecView::ERC20 { token, amount: a1 },
                AssetSpecView::ERC20 { amount: a2, .. },
            ) => AssetSpecView::ERC20 { token, amount: spec_wrap_add(a1, a2) },
            _ => a.required,
        },
        current_balance: a.current_balance,
        missing_amount: spec_wrap_add(a.missing_amount, b.missing_amount),
    }
}

/// The first group entry that a report belongs to, if any.
pub open spec fn spec_find_group(
    acc: Seq<MissingAssetInfoView>,
    e: MissingAssetInfoView,
) -> Option<int>
    decreases acc.len(),
{
    if acc.len() == 0 {
        None
    } else if spec_same_shortfall(acc.first(), e) {
        Some(0)
    } else {
        match spec_find_group(acc.drop_first(), e) {
            Some(k) => Some(k + 1),
            None => None,
        }
    }
}

/// One report folded into the running groups.
pub open spec fn spec_insert_report(
    acc: Seq<MissingAssetInfoView>,
    e: MissingAssetInfoView,
) -> Seq<MissingAssetInfoView> {
    match spec_find_group(acc, e) {
        Some(k) => acc.update(k, spec_merge(acc[k], e)),
        None => acc.push(e),
    }
}

/// The aggregation of a recorded history, in order of first occurrence.
pub open spec fn spec_aggregate(reports: Seq<MissingAssetInfoView>) -> Seq<MissingAssetInfoView>
    decreases reports.len(),
{
    if reports.len() == 0 {
        Seq::empty()
    } else {
        spec_insert_report(spec_aggregate(reports.drop_last()), reports.last())
    }
}

proof fn lemma_find_group_first_match(
    acc: Seq<MissingAssetInfoView>,
    e: MissingAssetInfoView,
    j: int,
)
    requires
        0 <= j < acc.len(),
        spec_same_shortfall(acc[j], e),
        forall|l: int| 0 <= l < j ==> !spec_same_shortfall(acc[l], e),
    ensures
        spec_find_group(acc, e) == Some(j),
    decreases j,
{
    if j > 0 {
        lemma_find_group_first_match(acc.drop_first(), e, j - 1);
    }
}

proof fn lemma_find_group_no_match(acc: Seq<MissingAssetInfoView>, e: MissingAssetInfoView)
    requires
        forall|l: int| 0 <= l < acc.len() ==> !spec_same_shortfall(acc[l], e),
    ensures
        spec_find_group(acc, e) is None,
    decreases acc.len(),
{
    if acc.len() > 0 {
        lemma_find_group_no_match(acc.drop_first(), e);
    }
}

fn u256_vec_eq(a: &Vec<U256>, b: &Vec<U256>) -> (r: bool)
    ensures
        r == (a@ == b@),
{
    if a.len() != b.len() {
        return false;
    }
    let mut i: usize = 0;
    while i < a.len()
        invariant
            a@.len() == b@.len(),
            i <= a@.len(),
            forall|j: int| 0 <= j < i ==> a@[j] == b@[j],
        decreases a@.len() - i,
    {
        if !(a[i] == b[i]) {
            return false;
        }
        i = i + 1;
    }
    proof {
        assert(a@ =~= b@);
    }
    true
}

fn pair_vec_eq(a: &Vec<(U256, U256)>, b: &Vec<(U256, U256)>) -> (r: bool)
    ensures
        r == (a@ == b@),
{
    if a.len() != b.len() {
        return false;
    }
    let mut i: usize = 0;
    while i < a.len()
        invariant
            a@.len() == b@.len(),
            i <= a@.len(),
            forall|j: int| 0 <= j < i ==> a@[j] == b@[j],
        decreases a@.len() - i,
    {
        let x = &a[i];
        let y = &b[i];
        if !(x.0 == y.0 && x.1 == y.1) {
            return false;
        }
        proof {
            assert(a@[i as int] == b@[i as int]);
        }
        i = i + 1;
    }
    proof {
        assert(a@ =~= b@);
    }
    true
}

/// Whether two reports concern the same shortfall.
pub fn same_shortfall(a: &MissingAssetInfo, b: &MissingAssetInfo) -> (r: bool)
    ensures
        r == spec_same_shortfall(a@, b@),
{
    if !(a.account == b.account) {
        return false;
    }
    match (&a.required, &b.required) {
        (AssetSpec::Native(_), AssetSpec::Native(_)) => true,
        (AssetSpec::ERC20 { token: t1, .. }, AssetSpec::ERC20 { token: t2, .. }) => *t1 == *t2,
        (
            AssetSpec::ERC721 { token: t1, token_ids: i1 },
            AssetSpec::ERC721 { token: t2, token_ids: i2 },
        ) => *t1 == *t2 && u256_vec_eq(i1, i2),
        (
            AssetSpec::ERC1155 { token: t1, token_amounts: m1 },
            AssetSpec::ERC1155 { token: t2, token_amounts: m2 },
        ) => *t1 == *t2 && pair_vec_eq(m1, m2),
        _ => false,
    }
}

fn find_group(acc: &Vec<MissingAssetInfo>, e: &MissingAssetInfo) -> (r: Option<usize>)
    ensures
        match r {
            Some(k) => k < acc@.len() && spec_find_group(infos_view(acc@), e@) == Some(k as int),
            None => spec_find_group(infos_view(acc@), e@) is None,
        },
{
    let ghost v = infos_view(acc@);
    let mut i: usize = 0;
    while i < acc.len()
        invariant
            i <= acc@.len(),
            v == infos_view(acc@),
            v.len() == acc@.len(),
            forall|l: int| 0 <= l < i ==> !spec_same_shortfall(v[l], e@),
        decreases acc@.len() - i,
    {
        proof {
            assert(v[i as int] == acc@[i as int]@);
        }
        if same_shortfall(&acc[i], e) {
            proof {
                lemma_find_group_first_match(v, e@, i as int);
            }
            return Some(i);
        }
        i = i + 1;
    }
    proof {
        lemma_find_group_no_match(v, e@);
    }
    None
}

fn merge_reports(a: &MissingAssetInfo, b: &MissingAssetInfo) -> (r: MissingAssetInfo)
    ensures
        r@ == spec_merge(a@, b@),
{
    let required = match (&a.required, &b.required) {
        (AssetSpec::ERC20 { token, amount: a1 }, AssetSpec::ERC20 { amount: a2, .. }) => {
            AssetSpec::ERC20 { token: *token, amount: a1.wrapping_add(a2) }
        },
        _ => a.required.duplicate(),
    };
    MissingAssetInfo {
        account: a.account,
        required,
        current_balance: a.current_balance,
        missing_amount: a.missing_amount.wrapping_add(&b.missing_amount),
    }
}

/// Merges duplicate reports: one entry per (account, asset identity)
/// group, amounts summed, in order of first occurrence.
pub fn aggregate_missing_assets(reports: &Vec<MissingAssetInfo>) -> (r: Vec<MissingAssetInfo>)
    ensures
        infos_view(r@) == spec_aggregate(infos_view(reports@)),
{
    let ghost v = infos_view(reports@);
    let mut out: Vec<MissingAssetInfo> = Vec::new();
    let mut i: usize = 0;
    proof {
        assert(infos_view(out@) =~= Seq::<MissingAssetInfoView>::empty());
        assert(v.take(0) =~= Seq::<MissingAssetInfoView>::empty());
    }
    while i < reports.len()
        invariant
            i <= reports@.len(),
            v == infos_view(reports@),
            v.len() == reports@.len(),
            infos_view(out@) == spec_aggregate(v.take(i as int)),
        decreases reports@.len() - i,
    {
        let e = &reports[i];
        proof {
            assert(v[i as int] == reports@[i as int]@);
            assert(v.take(i + 1).drop_last() =~= v.take(i as int));
            assert(v.take(i + 1).last() == v[i as int]);
        }
        match find_group(&out, e) {
            Some(k) => {
                let merged = merge_reports(&out[k], e);
                out.set(k, merged);
                proof {
                    assert(infos_view(out@) =~= spec_aggregate(v.take(i as int)).update(
                        k as int,
                        spec_merge(spec_aggregate(v.take(i as int))[k as int], v[i as int]),
                    ));
                }
            },
            None => {
                out.push(e.duplicate());
                proof {
                    assert(infos_view(out@) =~= spec_aggregate(v.take(i as int)).push(v[i as int]));
                }
            },
        }
        i = i + 1;
    }
    proof {
        assert(v.take(v.len() as int) =~= v);
    }
    out
}

/// A single observation aggregates to itself.
pub proof fn lemma_aggregate_singleton(e: MissingAssetInfoView)
    ensures
        spec_aggregate(seq![e]) == seq![e],
{
    assert(seq![e].drop_last() =~= Seq::<MissingAssetInfoView>::empty());
    assert(spec_find_group(Seq::<MissingAssetInfoView>::empty(), e) is None);
    assert(spec_aggregate(Seq::<MissingAssetInfoView>::empty())
        =~= Seq::<MissingAssetInfoView>::empty());
    assert(spec_aggregate(seq![e]) =~= Seq::<MissingAssetInfoView>::empty().push(e));
    assert(Seq::<MissingAssetInfoView>::empty().push(e) =~= seq![e]);
}

/// Aggregation merges two observations of the same shortfall into one
/// entry whose missing amount is the sum of the two shortfalls, keeping
/// the first observation's account and current balance.
pub proof fn lemma_aggregate_merges_same_shortfall(
    e1: MissingAssetInfoView,
    e2: MissingAssetInfoView,
)
    requires
        spec_same_shortfall(e1, e2),
        e1.missing_amount.as_nat() + e2.missing_amount.as_nat() < u256_bound(),
    ensures
        spec_aggregate(seq![e1, e2]).len() == 1,
        spec_aggregate(seq![e1, e2])[0].missing_amount.as_nat() == e1.missing_amount.as_nat()
            + e2.missing_amount.as_nat(),
        spec_aggregate(seq![e1, e2])[0].account == e1.account,
        spec_aggregate(seq![e1, e2])[0].current_balance == e1.current_balance,
{
    let s = seq![e1, e2];
    assert(s.drop_last() =~= seq![e1]);
    lemma_aggregate_singleton(e1);
    assert(spec_find_group(seq![e1], e2) == Some(0int));
    crate::amount::lemma_wrap_add_value(e1.missing_amount, e2.missing_amount);
}

/// For the fungible-token variant, the merged entry's embedded required
/// amount is the sum of the two required amounts.
pub proof fn lemma_aggregate_sums_fungible_required(
    e1: MissingAssetInfoView,
    e2: MissingAssetInfoView,
    t: crate::address::Address,
    a1: U256,
    a2: U256,
)
    requires
        spec_same_shortfall(e1, e2),
        e1.required == (AssetSpecView::ERC20 { token: t, amount: a1 }),
        e2.required == (AssetSpecView::ERC20 { token: t, amount: a2 }),
        a1.as_nat() + a2.as_nat() < u256_bound(),
    ensures
        spec_aggregate(seq![e1, e2]).len() == 1,
        spec_aggregate(seq![e1, e2])[0].required matches AssetSpecView::ERC20 {
            token,
            amount,
        } && token == t && amount.as_nat() == a1.as_nat() + a2.as_nat(),
{
    let s = seq![e1, e2];
    assert(s.drop_last() =~= seq![e1]);
    lemma_aggregate_singleton(e1);
    assert(spec_find_group(seq![e1], e2) == Some(0int));
    crate::amount::lemma_wrap_add_value(a1, a2);
}

} // verus!
