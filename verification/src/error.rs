//! Error taxonomy.
//!
//! An engine failure or a failed remediation is fatal to a run and reaches
//! the caller; a checker that cannot read a balance only contributes
//! nothing in that round.

use vstd::prelude::*;

verus! {

/// Why a remediation attempt could not proceed.
#[derive(Clone, Copy, Debug, Hash, PartialEq, Eq, Structural)]
pub enum RemediationError {
    /// The trace recorded no storage reads, so there is nothing to patch.
    NoStorageAccesses,
    /// The checker was asked to remediate an asset class it does not handle.
    UnsupportedAsset,
    /// The engine rejected a storage write.
    StorageWriteRejected,
}

/// A fatal error of one simulation run.
#[derive(Clone, Copy, Debug, Hash, PartialEq, Eq, Structural)]
pub enum AssetSimulatorError {
    /// Transaction execution itself failed (not a revert).
    EngineFailure,
    /// A remediation was required but could not be applied.
    RemediationFailed(RemediationError),
}

/// A per-checker, per-round failure: the run continues without this
/// checker's finding.
#[derive(Clone, Copy, Debug, Hash, PartialEq, Eq, Structural)]
pub enum CheckerError {
    /// The balance read failed or returned undecodable data.
    BalanceQueryFailure,
}

} // verus!
