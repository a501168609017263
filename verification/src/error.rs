//! The reasons for which the vault refuses a request.
use vstd::prelude::*;

verus! {

/// Why a request to the vault was refused. A refused request leaves the vault unchanged.
#[derive(Debug, Clone, Copy, PartialEq, Eq, Structural)]
pub enum VaultError {
    /// The vault has already been initialized.
    AlreadyInitialized,
    /// Deposits, withdrawals and rebalancing are disabled while the vault is paused.
    Paused,
    /// The amount must be positive.
    NonPositiveAmount,
    /// A deposit must be at least one USDC.
    BelowMinimumDeposit,
    /// The deposit would take the user's principal above the per-user cap.
    ExceedsUserDepositCap,
    /// The deposit would take the vault's total deposits above the TVL cap.
    ExceedsTvlCap,
    /// The deposit would mint no shares.
    ZeroSharesMinted,
    /// The user holds no shares.
    InsufficientShares,
    /// The vault has no shares or no assets to pay out.
    NoAssetsToWithdraw,
    /// The requested amount corresponds to no shares.
    ZeroSharesBurned,
    /// The user holds fewer shares than the requested amount needs.
    InsufficientSharesForAmount,
    /// The user holds no shares to withdraw.
    NoSharesToWithdraw,
    /// The user's shares redeem nothing.
    NoAssetsToReturn,
    /// Only the owner may do this.
    NotOwner,
    /// The vault is not paused.
    NotPaused,
    /// Only the agent may do this.
    NotAgent,
    /// No ownership transfer is pending.
    NoPendingOwner,
    /// The caller is not the pending owner.
    NotPendingOwner,
    /// Total assets may not decrease through an update.
    TotalAssetsDecrease,
    /// The vault's token balance does not cover the reported total assets.
    InsufficientVaultBalance,
    /// A computation left the range of `i128`.
    ArithmeticOverflow,
}

} // verus!
