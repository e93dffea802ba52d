pub mod erc20;
pub mod traits;

pub use erc20::{ERC20Checker, ERC20TransferCheck};
pub use traits::{AssetChecker, PotentialMissingAsset};
