//! The asset-checker capability.
//!
//! A checker is polymorphic over asset classes and contributes three pure
//! decisions: identify a candidate requirement from a call node, read a
//! balance-query result into a shortfall report, and plan the remediation
//! of a shortfall. The engine work those decisions refer to (the read-only
//! balance call, the storage writes) is carried out by whoever drives the
//! simulation; a checker only says what to ask and what the answer means.

use crate::address::Address;
use crate::amount::U256;
use crate::error::{AssetSimulatorError, CheckerError};
use crate::types::{AssetSpec, AssetSpecView, AssetType, MissingAssetInfo, MissingAssetInfoView,
    TraceNode, TraceNodeView, copy_bytes};
use vstd::prelude::*;

verus! {

/// A candidate missing-asset requirement, read off a call node.
/// Transient: produced by `identify_asset`, consumed by `check_balance`.
#[derive(Clone, Copy, Debug, PartialEq, Eq, Structural)]
pub struct PotentialMissingAsset {
    pub asset_type: AssetType,
    pub token_address: Address,
    pub account: Address,
    pub required_amount: U256,
}

/// A read-only engine call that does not persist effects.
#[derive(Debug)]
pub struct ReadRequest {
    pub caller: Address,
    pub target: Address,
    pub data: Vec<u8>,
    pub value: U256,
}

#[verifier::ext_equal]
pub struct ReadRequestView {
    pub caller: Address,
    pub target: Address,
    pub data: Seq<u8>,
    pub value: U256,
}

impl View for ReadRequest {
    type V = ReadRequestView;

    open spec fn view(&self) -> ReadRequestView {
        ReadRequestView {
            caller: self.caller,
            target: self.target,
            data: self.data@,
            value: self.value,
        }
    }
}

impl ReadRequest {
    /// A structurally equal copy.
    pub fn duplicate(&self) -> (r: ReadRequest)
        ensures
            r@ == self@,
    {
        ReadRequest {
            caller: self.caller,
            target: self.target,
            data: copy_bytes(&self.data),
            value: self.value,
        }
    }
}

/// One forced storage write: `slot` of `target`'s storage becomes `value`.
#[derive(Clone, Copy, Debug, PartialEq, Eq, Structural)]
pub struct StorageWrite {
    pub target: Address,
    pub slot: U256,
    pub value: U256,
}

/// A planned remediation: the storage writes to apply, and the read-back
/// that verifies them (best effort; its outcome is not acted on).
#[derive(Debug)]
pub struct DealPlan {
    pub writes: Vec<StorageWrite>,
    pub verify: ReadRequest,
}

#[verifier::ext_equal]
pub struct DealPlanView {
    pub writes: Seq<StorageWrite>,
    pub verify: ReadRequestView,
}

impl View for DealPlan {
    type V = DealPlanView;

    open spec fn view(&self) -> DealPlanView {
        DealPlanView { writes: self.writes@, verify: self.verify@ }
    }
}

/// The view of an optional byte string handed back by the engine.
pub open spec fn opt_bytes_view(o: Option<Vec<u8>>) -> Option<Seq<u8>> {
    match o {
        Some(v) => Some(v@),
        None => None,
    }
}

/// Core capability for checking one asset class.
pub trait AssetChecker: Sized {
    /// What candidate, if any, this checker reads off a call node.
    spec fn spec_identify(&self, node: TraceNodeView) -> Option<PotentialMissingAsset>;

    /// The read-only query measuring a candidate's current balance.
    spec fn spec_balance_query(&self, asset: PotentialMissingAsset) -> ReadRequestView;

    /// How this checker reads a balance-query result: the shortfall report,
    /// or a per-round failure.
    spec fn spec_check_balance(&self, asset: PotentialMissingAsset, output: Option<Seq<u8>>)
        -> Result<MissingAssetInfoView, CheckerError>;

    /// The remediation plan for a shortfall, given the storage slots read
    /// during the originating call.
    spec fn spec_deal_plan(
        &self,
        recipient: Address,
        required: AssetSpecView,
        accesses: Seq<U256>,
    ) -> Result<DealPlanView, AssetSimulatorError>;

    /// Static classification tag.
    spec fn spec_asset_type(&self) -> AssetType;

    /// First phase: identify a potential missing asset.
    fn identify_asset(&self, node: &TraceNode) -> (r: Option<PotentialMissingAsset>)
        ensures
            r == self.spec_identify(node@),
    ;

    /// The read-only call whose answer `check_balance` interprets.
    fn balance_query(&self, asset: &PotentialMissingAsset) -> (r: ReadRequest)
        ensures
            r@ == self.spec_balance_query(*asset),
    ;

    /// Second phase: turn the balance query's answer into a shortfall
    /// report, with `missing_amount` saturating at zero.
    fn check_balance(&self, asset: &PotentialMissingAsset, output: &Option<Vec<u8>>) -> (r: Result<
        MissingAssetInfo,
        CheckerError,
    >)
        ensures
            match r {
                Ok(m) => self.spec_check_balance(*asset, opt_bytes_view(*output))
                    == Ok::<MissingAssetInfoView, CheckerError>(m@),
                Err(e) => self.spec_check_balance(*asset, opt_bytes_view(*output))
                    == Err::<MissingAssetInfoView, CheckerError>(e),
            },
    ;

    /// Third phase: plan the forced storage writes that make `recipient`
    /// appear to hold the required asset.
    fn deal_plan(&self, recipient: Address, required: &AssetSpec, accesses: &Vec<U256>) -> (r:
        Result<DealPlan, AssetSimulatorError>)
        ensures
            match r {
                Ok(p) => self.spec_deal_plan(recipient, required@, accesses@)
                    == Ok::<DealPlanView, AssetSimulatorError>(p@),
                Err(e) => self.spec_deal_plan(recipient, required@, accesses@)
                    == Err::<DealPlanView, AssetSimulatorError>(e),
            },
    ;

    /// The asset class this checker handles.
    fn asset_type(&self) -> (r: AssetType)
        ensures
            r == self.spec_asset_type(),
    ;
}

} // verus!
