//! Data model: calls, traces, asset specifications and shortfall reports.

use crate::address::Address;
use crate::amount::U256;
use crate::checkers::traits::PotentialMissingAsset;
use vstd::prelude::*;

verus! {

/// A transaction to simulate. Immutable once constructed.
pub struct Call {
    pub from: Address,
    pub to: Address,
    pub value: U256,
    pub data: Vec<u8>,
}

#[verifier::ext_equal]
pub struct CallView {
    pub from: Address,
    pub to: Address,
    pub value: U256,
    pub data: Seq<u8>,
}

impl View for Call {
    type V = CallView;

    open spec fn view(&self) -> CallView {
        CallView { from: self.from, to: self.to, value: self.value, data: self.data@ }
    }
}

impl Call {
    pub fn new(from: Address, to: Address, data: Vec<u8>, value: U256) -> (r: Call)
        ensures
            r@ == (CallView { from, to, value, data: data@ }),
    {
        Call { from, to, value, data }
    }
}

/// Which historical chain state to fork from; consumed by the engine setup.
pub struct ForkInfo {
    pub rpc_url: Option<String>,
    pub block_number: Option<u64>,
}

/// Classification tag of an asset class.
#[derive(Clone, Copy, Debug, Hash, PartialEq, Eq, Structural)]
pub enum AssetType {
    Native,
    ERC20,
    ERC721,
    ERC1155,
}

/// The kind of one call node inside a trace.
#[derive(Clone, Copy, Debug, PartialEq, Eq, Structural)]
pub enum CallKind {
    Call,
    StaticCall,
    CallCode,
    DelegateCall,
    AuthCall,
    Create,
    Create2,
}

/// One interpreter step recorded during a traced call: the instruction's
/// ASCII name and, where the tracer recorded it, the stack before the step.
pub struct TraceStep {
    pub op: Vec<u8>,
    pub stack: Option<Vec<U256>>,
}

#[verifier::ext_equal]
pub struct TraceStepView {
    pub op: Seq<u8>,
    pub stack: Option<Seq<U256>>,
}

impl View for TraceStep {
    type V = TraceStepView;

    open spec fn view(&self) -> TraceStepView {
        TraceStepView {
            op: self.op@,
            stack: match self.stack {
                Some(s) => Some(s@),
                None => None,
            },
        }
    }
}

/// One call node of a transaction trace, in execution order.
pub struct TraceNode {
    pub kind: CallKind,
    pub caller: Address,
    pub address: Address,
    pub data: Vec<u8>,
    pub steps: Vec<TraceStep>,
}

#[verifier::ext_equal]
pub struct TraceNodeView {
    pub kind: CallKind,
    pub caller: Address,
    pub address: Address,
    pub data: Seq<u8>,
    pub steps: Seq<TraceStepView>,
}

impl View for TraceNode {
    type V = TraceNodeView;

    open spec fn view(&self) -> TraceNodeView {
        TraceNodeView {
            kind: self.kind,
            caller: self.caller,
            address: self.address,
            data: self.data@,
            steps: self.steps@.map_values(|s: TraceStep| s@),
        }
    }
}

/// What is required, independent of who is short. The semi-fungible
/// variant keeps its id-to-amount pairs sorted by id so that structural
/// equality agrees with map equality.
#[derive(Clone, Debug, Hash, PartialEq, Eq)]
pub enum AssetSpec {
    Native(U256),
    ERC20 { token: Address, amount: U256 },
    ERC721 { token: Address, token_ids: Vec<U256> },
    ERC1155 { token: Address, token_amounts: Vec<(U256, U256)> },
}

#[verifier::ext_equal]
pub enum AssetSpecView {
    Native(U256),
    ERC20 { token: Address, amount: U256 },
    ERC721 { token: Address, token_ids: Seq<U256> },
    ERC1155 { token: Address, token_amounts: Seq<(U256, U256)> },
}

impl View for AssetSpec {
    type V = AssetSpecView;

    open spec fn view(&self) -> AssetSpecView {
        match self {
            AssetSpec::Native(amount) => AssetSpecView::Native(*amount),
            AssetSpec::ERC20 { token, amount } => AssetSpecView::ERC20 {
                token: *token,
                amount: *amount,
            },
            AssetSpec::ERC721 { token, token_ids } => AssetSpecView::ERC721 {
                token: *token,
                token_ids: token_ids@,
            },
            AssetSpec::ERC1155 { token, token_amounts } => AssetSpecView::ERC1155 {
                token: *token,
                token_amounts: token_amounts@,
            },
        }
    }
}

impl AssetSpec {
    /// A structurally equal copy.
    pub fn duplicate(&self) -> (r: AssetSpec)
        ensures
            r@ == self@,
    {
        match self {
            AssetSpec::Native(amount) => AssetSpec::Native(*amount),
            AssetSpec::ERC20 { token, amount } => AssetSpec::ERC20 {
                token: *token,
                amount: *amount,
            },
            AssetSpec::ERC721 { token, token_ids } => AssetSpec::ERC721 {
                token: *token,
                token_ids: copy_u256_vec(token_ids),
            },
            AssetSpec::ERC1155 { token, token_amounts } => AssetSpec::ERC1155 {
                token: *token,
                token_amounts: copy_pair_vec(token_amounts),
            },
        }
    }
}

pub fn copy_bytes(v: &Vec<u8>) -> (r: Vec<u8>)
    ensures
        r@ == v@,
{
    let mut r: Vec<u8> = Vec::new();
    let mut i: usize = 0;
    while i < v.len()
        invariant
            i <= v.len(),
            r@ == v@.take(i as int),
        decreases v.len() - i,
    {
        r.push(v[i]);
        proof {
            assert(v@.take(i + 1) =~= v@.take(i as int).push(v@[i as int]));
        }
        i = i + 1;
    }
    proof {
        assert(v@.take(v@.len() as int) =~= v@);
    }
    r
}

pub fn copy_u256_vec(v: &Vec<U256>) -> (r: Vec<U256>)
    ensures
        r@ == v@,
{
    let mut r: Vec<U256> = Vec::new();
    let mut i: usize = 0;
    while i < v.len()
        invariant
            i <= v.len(),
            r@ == v@.take(i as int),
        decreases v.len() - i,
    {
        r.push(v[i]);
        proof {
            assert(v@.take(i + 1) =~= v@.take(i as int).push(v@[i as int]));
        }
        i = i + 1;
    }
    proof {
        assert(v@.take(v@.len() as int) =~= v@);
    }
    r
}

pub fn copy_pair_vec(v: &Vec<(U256, U256)>) -> (r: Vec<(U256, U256)>)
    ensures
        r@ == v@,
{
    let mut r: Vec<(U256, U256)> = Vec::new();
    let mut i: usize = 0;
    while i < v.len()
        invariant
            i <= v.len(),
            r@ == v@.take(i as int),
        decreases v.len() - i,
    {
        r.push(v[i]);
        proof {
            assert(v@.take(i + 1) =~= v@.take(i as int).push(v@[i as int]));
        }
        i = i + 1;
    }
    proof {
        assert(v@.take(v@.len() as int) =~= v@);
    }
    r
}

/// The externally reported unit of shortfall.
#[derive(Clone, Debug)]
pub struct MissingAssetInfo {
    pub account: Address,
    pub required: AssetSpec,
    pub current_balance: U256,
    pub missing_amount: U256,
}

#[verifier::ext_equal]
pub struct MissingAssetInfoView {
    pub account: Address,
    pub required: AssetSpecView,
    pub current_balance: U256,
    pub missing_amount: U256,
}

impl View for MissingAssetInfo {
    type V = MissingAssetInfoView;

    open spec fn view(&self) -> MissingAssetInfoView {
        MissingAssetInfoView {
            account: self.account,
            required: self.required@,
            current_balance: self.current_balance,
            missing_amount: self.missing_amount,
        }
    }
}

impl MissingAssetInfo {
    /// A structurally equal copy.
    pub fn duplicate(&self) -> (r: MissingAssetInfo)
        ensures
            r@ == self@,
    {
        MissingAssetInfo {
            account: self.account,
            required: self.required.duplicate(),
            current_balance: self.current_balance,
            missing_amount: self.missing_amount,
        }
    }
}

/// A concrete asset endowment for one recipient.
#[derive(Clone, Debug)]
pub struct AssetGrant {
    pub recipient: Address,
    pub asset: AssetSpec,
}

impl AssetGrant {
    pub fn native(recipient: Address, amount: U256) -> (r: AssetGrant)
        ensures
            r.recipient == recipient,
            r.asset@ == AssetSpecView::Native(amount),
    {
        AssetGrant { recipient, asset: AssetSpec::Native(amount) }
    }

    pub fn erc20(recipient: Address, token: Address, amount: U256) -> (r: AssetGrant)
        ensures
            r.recipient == recipient,
            r.asset@ == (AssetSpecView::ERC20 { token, amount }),
    {
        AssetGrant { recipient, asset: AssetSpec::ERC20 { token, amount } }
    }

    pub fn erc721(recipient: Address, token: Address, token_ids: Vec<U256>) -> (r: AssetGrant)
        ensures
            r.recipient == recipient,
            r.asset@ == (AssetSpecView::ERC721 { token, token_ids: token_ids@ }),
    {
        AssetGrant { recipient, asset: AssetSpec::ERC721 { token, token_ids } }
    }

    pub fn erc1155(recipient: Address, token: Address, token_amounts: Vec<(U256, U256)>) -> (r:
        AssetGrant)
        requires
            forall|i: int, j: int|
                0 <= i < j < token_amounts@.len() ==> token_amounts@[i].0.as_nat()
                    < token_amounts@[j].0.as_nat(),
        ensures
            r.recipient == recipient,
            r.asset@ == (AssetSpecView::ERC1155 { token, token_amounts: token_amounts@ }),
    {
        AssetGrant { recipient, asset: AssetSpec::ERC1155 { token, token_amounts } }
    }

    pub fn asset_type(&self) -> (r: AssetType)
        ensures
            r == match self.asset@ {
                AssetSpecView::Native(_) => AssetType::Native,
                AssetSpecView::ERC20 { .. } => AssetType::ERC20,
                AssetSpecView::ERC721 { .. } => AssetType::ERC721,
                AssetSpecView::ERC1155 { .. } => AssetType::ERC1155,
            },
    {
        match &self.asset {
            AssetSpec::Native(_) => AssetType::Native,
            AssetSpec::ERC20 { .. } => AssetType::ERC20,
            AssetSpec::ERC721 { .. } => AssetType::ERC721,
            AssetSpec::ERC1155 { .. } => AssetType::ERC1155,
        }
    }
}

/// True of the ASCII name of the storage-read instruction, "SLOAD".
pub open spec fn spec_is_sload(op: Seq<u8>) -> bool {
    op.len() == 5 && op[0] == 83 && op[1] == 76 && op[2] == 79 && op[3] == 65 && op[4] == 68
}

pub fn is_sload(op: &Vec<u8>) -> (r: bool)
    ensures
        r == spec_is_sload(op@),
{
    op.len() == 5 && op[0] == 83 && op[1] == 76 && op[2] == 79 && op[3] == 65 && op[4] == 68
}

/// The storage slots read during a traced call: for every storage-read
/// step whose stack was recorded and non-empty, the slot on top of the
/// stack, in step order.
pub open spec fn spec_storage_accesses(steps: Seq<TraceStepView>) -> Seq<U256>
    decreases steps.len(),
{
    if steps.len() == 0 {
        Seq::empty()
    } else {
        let rest = spec_storage_accesses(steps.drop_last());
        let s = steps.last();
        if spec_is_sload(s.op) && (s.stack matches Some(st) && st.len() > 0) {
            rest.push(s.stack->0.last())
        } else {
            rest
        }
    }
}

/// Evidence for one remediation attempt: the candidate, the trace node it
/// came from, and the storage slots read during that call.
pub struct AssetContext {
    pub potential_asset: PotentialMissingAsset,
    pub trace: TraceNode,
    pub storage_accesses: Vec<U256>,
}

#[verifier::ext_equal]
pub struct AssetContextView {
    pub potential_asset: PotentialMissingAsset,
    pub trace: TraceNodeView,
    pub storage_accesses: Seq<U256>,
}

impl View for AssetContext {
    type V = AssetContextView;

    open spec fn view(&self) -> AssetContextView {
        AssetContextView {
            potential_asset: self.potential_asset,
            trace: self.trace@,
            storage_accesses: self.storage_accesses@,
        }
    }
}

impl AssetContext {
    /// Collects the storage slots read during the call.
    pub fn extract_storage_accesses(trace: &TraceNode) -> (r: Vec<U256>)
        ensures
            r@ == spec_storage_accesses(trace@.steps),
    {
        let mut out: Vec<U256> = Vec::new();
        let mut i: usize = 0;
        proof {
            assert(trace@.steps.take(0) =~= Seq::<TraceStepView>::empty());
        }
        while i < trace.steps.len()
            invariant
                i <= trace.steps.len(),
                trace@.steps.len() == trace.steps.len(),
                trace@.steps == trace.steps@.map_values(|s: TraceStep| s@),
                out@ == spec_storage_accesses(trace@.steps.take(i as int)),
            decreases trace.steps.len() - i,
        {
            let step = &trace.steps[i];
            proof {
                assert(trace@.steps[i as int] == trace.steps@[i as int]@);
                assert(trace@.steps.take(i + 1).drop_last() =~= trace@.steps.take(i as int));
                assert(trace@.steps.take(i + 1).last() == trace@.steps[i as int]);
            }
            if is_sload(&step.op) {
                match &step.stack {
                    Some(st) => {
                        if st.len() > 0 {
                            out.push(st[st.len() - 1]);
                        }
                    },
                    None => {},
                }
            }
            i = i + 1;
        }
        proof {
            assert(trace@.steps.take(trace.steps.len() as int) =~= trace@.steps);
        }
        out
    }

    /// Builds remediation evidence from the candidate and its trace node.
    pub fn from_trace(potential_asset: PotentialMissingAsset, trace: TraceNode) -> (r: AssetContext)
        ensures
            r@ == (AssetContextView {
                potential_asset,
                trace: trace@,
                storage_accesses: spec_storage_accesses(trace@.steps),
            }),
    {
        let storage_accesses = Self::extract_storage_accesses(&trace);
        AssetContext { potential_asset, trace, storage_accesses }
    }
}

} // verus!
