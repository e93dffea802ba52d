//! Pre-flight simulation support for blockchain transactions.
//!
//! The library detects that a simulated transaction reverts because the
//! sender lacks a required fungible-token balance, and (optionally) plans
//! storage patches that supply the missing balance so simulation can
//! continue, surfacing every distinct missing-asset requirement the
//! transaction touches.
//!
//! The execution engine itself (transaction execution, forked state, trace
//! capture) is an external collaborator: the orchestrator is an explicit
//! state machine that emits engine actions and consumes engine events, so
//! every decision it takes is verified while the engine I/O stays outside.

pub mod address;
pub mod aggregate;
pub mod amount;
pub mod asset_simulator;
pub mod builder;
pub mod checkers;
pub mod encoding;
pub mod error;
pub mod types;
pub mod utils;

pub use crate::address::Address;
pub use crate::amount::U256;
pub use crate::asset_simulator::{AssetSimulator, SimulationRun};
pub use crate::builder::AssetSimulatorBuilder;
pub use crate::checkers::erc20::ERC20Checker;
pub use crate::checkers::traits::{AssetChecker, PotentialMissingAsset};
pub use crate::error::AssetSimulatorError;
pub use crate::types::{AssetType, Call, ForkInfo, MissingAssetInfo};
