//! Fluent configuration of a simulator.
//!
//! The builder collects the fork choice and the ordered checker set; the
//! execution engine that the fork choice describes is constructed by the
//! embedding application, which owns all engine I/O.

use crate::asset_simulator::AssetSimulator;
use crate::checkers::erc20::ERC20Checker;
use crate::checkers::traits::AssetChecker;
use crate::types::ForkInfo;
use vstd::prelude::*;

verus! {

/// Fluent builder for an [`AssetSimulator`].
pub struct AssetSimulatorBuilder<C: AssetChecker> {
    pub fork_info: Option<ForkInfo>,
    pub checkers: Vec<C>,
}

impl<C: AssetChecker> AssetSimulatorBuilder<C> {
    /// An empty builder: no fork selected, no checkers registered.
    pub fn new() -> (r: AssetSimulatorBuilder<C>)
        ensures
            r.checkers@.len() == 0,
            r.fork_info is None,
    {
        AssetSimulatorBuilder { fork_info: None, checkers: Vec::new() }
    }

    /// Selects the fork source: an RPC endpoint and, optionally, a pinned
    /// block.
    pub fn with_fork(self, rpc_url: String, block_number: Option<u64>) -> (r:
        AssetSimulatorBuilder<C>)
        ensures
            r.checkers@ == self.checkers@,
            r.fork_info matches Some(f) && f.rpc_url matches Some(u) && u@ == rpc_url@
                && f.block_number == block_number,
    {
        AssetSimulatorBuilder {
            fork_info: Some(ForkInfo { rpc_url: Some(rpc_url), block_number }),
            checkers: self.checkers,
        }
    }

    /// Registers one checker; checkers act in registration order.
    pub fn with_checker(self, checker: C) -> (r: AssetSimulatorBuilder<C>)
        ensures
            r.checkers@ == self.checkers@.push(checker),
            r.fork_info == self.fork_info,
    {
        let mut checkers = self.checkers;
        checkers.push(checker);
        AssetSimulatorBuilder { fork_info: self.fork_info, checkers }
    }

    /// The configured simulator.
    pub fn build(self) -> (r: AssetSimulator<C>)
        ensures
            r.checkers@ == self.checkers@,
            r.fork_info == self.fork_info,
    {
        AssetSimulator { checkers: self.checkers, fork_info: self.fork_info }
    }
}

impl AssetSimulatorBuilder<ERC20Checker> {
    /// Registers the fungible-token checker.
    pub fn with_erc20_checker(self) -> (r: AssetSimulatorBuilder<ERC20Checker>)
        ensures
            r.checkers@ == self.checkers@.push(ERC20Checker {  }),
            r.fork_info == self.fork_info,
    {
        self.with_checker(ERC20Checker::new())
    }
}

} // verus!
