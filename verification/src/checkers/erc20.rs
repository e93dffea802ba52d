//! Fungible-token checker.
//!
//! Recognized call shapes: `transfer(to, amount)` (the debited account is
//! the node's caller) and `transferFrom(from, to, amount)` (the debited
//! account is the explicit `from` argument). Allowance-related calls are
//! deliberately not recognized: a revert caused purely by a missing
//! spending allowance must yield no candidate and so no reported
//! shortfall.

use crate::address::{spec_address_of_bytes, Address};
use crate::amount::{spec_sat_sub, spec_u256_of_bytes, U256};
use crate::checkers::traits::{
    AssetChecker, DealPlan, DealPlanView, PotentialMissingAsset, ReadRequest, ReadRequestView,
    StorageWrite,
};
use crate::error::{AssetSimulatorError, CheckerError, RemediationError};
use crate::types::{
    AssetSpec, AssetSpecView, AssetType, MissingAssetInfo, MissingAssetInfoView, TraceNode,
    TraceNodeView,
};
use vstd::prelude::*;

verus! {

/// A decoded `transfer(address to, uint256 amount)` payload.
#[allow(non_camel_case_types)]
#[derive(Clone, Copy, Debug, PartialEq, Eq, Structural)]
pub struct transferCall {
    pub to: Address,
    pub amount: U256,
}

/// A decoded `transferFrom(address from, address to, uint256 amount)`
/// payload.
#[allow(non_camel_case_types)]
#[derive(Clone, Copy, Debug, PartialEq, Eq, Structural)]
pub struct transferFromCall {
    pub from: Address,
    pub to: Address,
    pub amount: U256,
}

/// How a recognized transfer shape maps to the class-agnostic candidate:
/// which account the transfer debits, and by how much.
pub trait ERC20TransferCheck: Sized {
    /// The debited account, given the call node the shape was decoded
    /// from.
    spec fn spec_account(&self, node: TraceNodeView) -> Address;

    /// The transferred amount.
    spec fn spec_amount(&self) -> U256;

    fn get_account(&self, trace: &TraceNode) -> (r: Address)
        ensures
            r == self.spec_account(trace@),
    ;

    fn get_amount(&self) -> (r: U256)
        ensures
            r == self.spec_amount(),
    ;
}

/// A plain transfer debits whoever made the call.
impl ERC20TransferCheck for transferCall {
    open spec fn spec_account(&self, node: TraceNodeView) -> Address {
        node.caller
    }

    open spec fn spec_amount(&self) -> U256 {
        self.amount
    }

    fn get_account(&self, trace: &TraceNode) -> (r: Address) {
        trace.caller
    }

    fn get_amount(&self) -> (r: U256) {
        self.amount
    }
}

/// A transfer-from debits the explicit `from` argument.
impl ERC20TransferCheck for transferFromCall {
    open spec fn spec_account(&self, node: TraceNodeView) -> Address {
        self.from
    }

    open spec fn spec_amount(&self) -> U256 {
        self.amount
    }

    fn get_account(&self, _trace: &TraceNode) -> (r: Address) {
        self.from
    }

    fn get_amount(&self) -> (r: U256) {
        self.amount
    }
}

/// Bytes `lo..hi` of `d` are zero: the padding of a static address word.
pub open spec fn spec_zero_padded(d: Seq<u8>, lo: int, hi: int) -> bool {
    forall|i: int| lo <= i < hi ==> d[i] == 0
}

fn check_zero_padding(d: &Vec<u8>, lo: usize, hi: usize) -> (r: bool)
    requires
        lo <= hi,
        hi <= d.len(),
    ensures
        r == spec_zero_padded(d@, lo as int, hi as int),
{
    let mut i: usize = lo;
    while i < hi
        invariant
            lo <= i <= hi,
            hi <= d.len(),
            forall|j: int| lo <= j < i ==> d@[j] == 0,
        decreases hi - i,
    {
        if d[i] != 0 {
            return false;
        }
        i = i + 1;
    }
    true
}

impl transferCall {
    /// Strict reading of a transfer payload: the selector 0xa9059cbb, a
    /// zero-padded address word and an amount word, nothing more.
    pub open spec fn spec_try_decode(d: Seq<u8>) -> Option<transferCall> {
        if d.len() == 68 && d[0] == 0xa9 && d[1] == 0x05 && d[2] == 0x9c && d[3] == 0xbb
            && spec_zero_padded(d, 4, 16) {
            Some(
                transferCall {
                    to: spec_address_of_bytes(d.subrange(16, 36)),
                    amount: spec_u256_of_bytes(d.subrange(36, 68)),
                },
            )
        } else {
            None
        }
    }

    /// Decode-or-fail against the transfer shape.
    pub fn try_decode(data: &Vec<u8>) -> (r: Option<transferCall>)
        ensures
            r == Self::spec_try_decode(data@),
    {
        if data.len() == 68 && data[0] == 0xa9 && data[1] == 0x05 && data[2] == 0x9c && data[3]
            == 0xbb && check_zero_padding(data, 4, 16) {
            let to = Address::from_bytes_at(data, 16);
            let amount = U256::from_bytes_at(data, 36);
            Some(transferCall { to, amount })
        } else {
            None
        }
    }
}

impl transferFromCall {
    /// Strict reading of a transfer-from payload: the selector 0x23b872dd,
    /// two zero-padded address words and an amount word, nothing more.
    pub open spec fn spec_try_decode(d: Seq<u8>) -> Option<transferFromCall> {
        if d.len() == 100 && d[0] == 0x23 && d[1] == 0xb8 && d[2] == 0x72 && d[3] == 0xdd
            && spec_zero_padded(d, 4, 16) && spec_zero_padded(d, 36, 48) {
            Some(
                transferFromCall {
                    from: spec_address_of_bytes(d.subrange(16, 36)),
                    to: spec_address_of_bytes(d.subrange(48, 68)),
                    amount: spec_u256_of_bytes(d.subrange(68, 100)),
                },
            )
        } else {
            None
        }
    }

    /// Decode-or-fail against the transfer-from shape.
    pub fn try_decode(data: &Vec<u8>) -> (r: Option<transferFromCall>)
        ensures
            r == Self::spec_try_decode(data@),
    {
        if data.len() == 100 && data[0] == 0x23 && data[1] == 0xb8 && data[2] == 0x72 && data[3]
            == 0xdd && check_zero_padding(data, 4, 16) && check_zero_padding(data, 36, 48) {
            let from = Address::from_bytes_at(data, 16);
            let to = Address::from_bytes_at(data, 48);
            let amount = U256::from_bytes_at(data, 68);
            Some(transferFromCall { from, to, amount })
        } else {
            None
        }
    }
}

/// The `balanceOf(address)` payload: the selector 0x70a08231 and the
/// zero-padded account address.
pub open spec fn spec_balance_of_call(account: Address) -> Seq<u8> {
    seq![0x70u8, 0xa0u8, 0x82u8, 0x31u8] + Seq::new(12, |i: int| 0u8) + account.spec_to_bytes()
}

pub fn encode_balance_of(account: &Address) -> (r: Vec<u8>)
    ensures
        r@ == spec_balance_of_call(*account),
        r@.len() == 36,
{
    let mut v: Vec<u8> = Vec::new();
    v.push(0x70);
    v.push(0xa0);
    v.push(0x82);
    v.push(0x31);
    let mut i: usize = 0;
    while i < 12
        invariant
            i <= 12,
            v@.len() == 4 + i,
            v@ == seq![0x70u8, 0xa0u8, 0x82u8, 0x31u8] + Seq::new(i as nat, |j: int| 0u8),
        decreases 12 - i,
    {
        v.push(0);
        proof {
            assert(v@ =~= seq![0x70u8, 0xa0u8, 0x82u8, 0x31u8] + Seq::new(
                (i + 1) as nat,
                |j: int| 0u8,
            ));
        }
        i = i + 1;
    }
    let mut ab = account.to_bytes();
    v.append(&mut ab);
    proof {
        assert(v@ =~= spec_balance_of_call(*account));
    }
    v
}

/// The patch value written into each read slot: large, but not the
/// maximum, so that later arithmetic inside the patched contract does not
/// overflow (2^255 - 1).
pub open spec fn spec_deal_value() -> U256 {
    U256 {
        hi: 0x7fff_ffff_ffff_ffff_ffff_ffff_ffff_ffffu128,
        lo: 0xffff_ffff_ffff_ffff_ffff_ffff_ffff_ffffu128,
    }
}

pub fn deal_value() -> (r: U256)
    ensures
        r == spec_deal_value(),
{
    U256 {
        hi: 0x7fff_ffff_ffff_ffff_ffff_ffff_ffff_ffffu128,
        lo: 0xffff_ffff_ffff_ffff_ffff_ffff_ffff_ffffu128,
    }
}

/// The candidate the fungible-token checker reads off a call node, if any:
/// the first matching shape in priority order (transfer, then
/// transfer-from).
pub open spec fn spec_identify_erc20(node: TraceNodeView) -> Option<PotentialMissingAsset> {
    match transferCall::spec_try_decode(node.data) {
        Some(t) => Some(
            PotentialMissingAsset {
                asset_type: AssetType::ERC20,
                token_address: node.address,
                account: node.caller,
                required_amount: t.amount,
            },
        ),
        None => match transferFromCall::spec_try_decode(node.data) {
            Some(t) => Some(
                PotentialMissingAsset {
                    asset_type: AssetType::ERC20,
                    token_address: node.address,
                    account: t.from,
                    required_amount: t.amount,
                },
            ),
            None => None,
        },
    }
}

/// The balance query for a candidate: a `balanceOf` read from the neutral
/// zero caller, so that read-only calls never fail due to unrelated
/// access-control checks.
pub open spec fn spec_balance_query_erc20(asset: PotentialMissingAsset) -> ReadRequestView {
    ReadRequestView {
        caller: Address { hi: 0, lo: 0 },
        target: asset.token_address,
        data: spec_balance_of_call(asset.account),
        value: U256 { hi: 0, lo: 0 },
    }
}

/// How the checker reads a balance query's answer: a 32-byte word is the
/// current balance and the missing amount saturates at zero; anything else
/// is a per-round query failure.
pub open spec fn spec_check_balance_erc20(
    asset: PotentialMissingAsset,
    output: Option<Seq<u8>>,
) -> Result<MissingAssetInfoView, CheckerError> {
    match output {
        Some(out) => if out.len() == 32 {
            let bal = spec_u256_of_bytes(out);
            Ok(
                MissingAssetInfoView {
                    account: asset.account,
                    required: AssetSpecView::ERC20 {
                        token: asset.token_address,
                        amount: asset.required_amount,
                    },
                    current_balance: bal,
                    missing_amount: spec_sat_sub(asset.required_amount, bal),
                },
            )
        } else {
            Err(CheckerError::BalanceQueryFailure)
        },
        None => Err(CheckerError::BalanceQueryFailure),
    }
}

/// The remediation plan for a fungible-token shortfall: overwrite every
/// storage slot read during the originating call with the patch value, in
/// the token contract's storage, then read the balance back. Fails when
/// nothing was read (no evidence) or the asset is not a fungible token.
/// The storage writes of a fungible-token remediation: each slot read
/// during the originating call is overwritten with the patch value.
pub open spec fn spec_deal_writes(token: Address, accesses: Seq<U256>) -> Seq<StorageWrite>
    decreases accesses.len(),
{
    if accesses.len() == 0 {
        Seq::empty()
    } else {
        spec_deal_writes(token, accesses.drop_last()).push(
            StorageWrite { target: token, slot: accesses.last(), value: spec_deal_value() },
        )
    }
}

pub open spec fn spec_deal_plan_erc20(
    recipient: Address,
    required: AssetSpecView,
    accesses: Seq<U256>,
) -> Result<DealPlanView, AssetSimulatorError> {
    match required {
        AssetSpecView::ERC20 { token, .. } => if accesses.len() == 0 {
            Err(AssetSimulatorError::RemediationFailed(RemediationError::NoStorageAccesses))
        } else {
            Ok(
                DealPlanView {
                    writes: spec_deal_writes(token, accesses),
                    verify: ReadRequestView {
                        caller: recipient,
                        target: token,
                        data: spec_balance_of_call(recipient),
                        value: U256 { hi: 0, lo: 0 },
                    },
                },
            )
        },
        _ => Err(AssetSimulatorError::RemediationFailed(RemediationError::UnsupportedAsset)),
    }
}

/// Checker for fungible-token balances.
#[derive(Clone, Copy, Debug)]
pub struct ERC20Checker {}

impl ERC20Checker {
    pub fn new() -> (r: ERC20Checker)
        ensures
            r == (ERC20Checker {  }),
    {
        ERC20Checker {  }
    }
}

impl AssetChecker for ERC20Checker {
    open spec fn spec_identify(&self, node: TraceNodeView) -> Option<PotentialMissingAsset> {
        spec_identify_erc20(node)
    }

    open spec fn spec_balance_query(&self, asset: PotentialMissingAsset) -> ReadRequestView {
        spec_balance_query_erc20(asset)
    }

    open spec fn spec_check_balance(
        &self,
        asset: PotentialMissingAsset,
        output: Option<Seq<u8>>,
    ) -> Result<MissingAssetInfoView, CheckerError> {
        spec_check_balance_erc20(asset, output)
    }

    open spec fn spec_deal_plan(
        &self,
        recipient: Address,
        required: AssetSpecView,
        accesses: Seq<U256>,
    ) -> Result<DealPlanView, AssetSimulatorError> {
        spec_deal_plan_erc20(recipient, required, accesses)
    }

    open spec fn spec_asset_type(&self) -> AssetType {
        AssetType::ERC20
    }

    fn identify_asset(&self, node: &TraceNode) -> (r: Option<PotentialMissingAsset>) {
        match transferCall::try_decode(&node.data) {
            Some(t) => Some(
                PotentialMissingAsset {
                    asset_type: AssetType::ERC20,
                    token_address: node.address,
                    account: t.get_account(node),
                    required_amount: t.get_amount(),
                },
            ),
            None => match transferFromCall::try_decode(&node.data) {
                Some(t) => Some(
                    PotentialMissingAsset {
                        asset_type: AssetType::ERC20,
                        token_address: node.address,
                        account: t.get_account(node),
                        required_amount: t.get_amount(),
                    },
                ),
                None => None,
            },
        }
    }

    fn balance_query(&self, asset: &PotentialMissingAsset) -> (r: ReadRequest) {
        ReadRequest {
            caller: Address::zero(),
            target: asset.token_address,
            data: encode_balance_of(&asset.account),
            value: U256::zero(),
        }
    }

    fn check_balance(&self, asset: &PotentialMissingAsset, output: &Option<Vec<u8>>) -> (r: Result<
        MissingAssetInfo,
        CheckerError,
    >) {
        match output {
            Some(out) => {
                if out.len() == 32 {
                    let bal = U256::from_bytes_at(out, 0);
                    proof {
                        assert(out@.subrange(0, 32) =~= out@);
                    }
                    Ok(
                        MissingAssetInfo {
                            account: asset.account,
                            required: AssetSpec::ERC20 {
                                token: asset.token_address,
                                amount: asset.required_amount,
                            },
                            current_balance: bal,
                            missing_amount: asset.required_amount.saturating_sub(&bal),
                        },
                    )
                } else {
                    Err(CheckerError::BalanceQueryFailure)
                }
            },
            None => Err(CheckerError::BalanceQueryFailure),
        }
    }

    fn deal_plan(&self, recipient: Address, required: &AssetSpec, accesses: &Vec<U256>) -> (r:
        Result<DealPlan, AssetSimulatorError>) {
        match required {
            AssetSpec::ERC20 { token, .. } => {
                if accesses.len() == 0 {
                    Err(AssetSimulatorError::RemediationFailed(
                        RemediationError::NoStorageAccesses,
                    ))
                } else {
                    let value = deal_value();
                    let mut writes: Vec<StorageWrite> = Vec::new();
                    let mut i: usize = 0;
                    proof {
                        assert(accesses@.take(0) =~= Seq::<U256>::empty());
                    }
                    while i < accesses.len()
                        invariant
                            i <= accesses.len(),
                            value == spec_deal_value(),
                            writes@ == spec_deal_writes(*token, accesses@.take(i as int)),
                        decreases accesses.len() - i,
                    {
                        writes.push(StorageWrite { target: *token, slot: accesses[i], value });
                        proof {
                            assert(accesses@.take(i + 1).drop_last() =~= accesses@.take(i as int));
                            assert(accesses@.take(i + 1).last() == accesses@[i as int]);
                        }
                        i = i + 1;
                    }
                    proof {
                        assert(accesses@.take(accesses@.len() as int) =~= accesses@);
                    }
                    Ok(
                        DealPlan {
                            writes,
                            verify: ReadRequest {
                                caller: recipient,
                                target: *token,
                                data: encode_balance_of(&recipient),
                                value: U256::zero(),
                            },
                        },
                    )
                }
            },
            _ => Err(AssetSimulatorError::RemediationFailed(RemediationError::UnsupportedAsset)),
        }
    }

    fn asset_type(&self) -> (r: AssetType) {
        AssetType::ERC20
    }
}

} // verus!
