//! What the vault reports of each change it makes. Accounts are written as their address text.
use vstd::prelude::*;

verus! {

/// A user deposited `amount` and received `shares`.
#[derive(Debug)]
pub struct DepositEvent {
    pub user: String,
    pub amount: i128,
    pub shares: i128,
}

/// A user burned `shares` and received `amount`.
#[derive(Debug)]
pub struct WithdrawEvent {
    pub user: String,
    pub amount: i128,
    pub shares: i128,
}

/// The agent signalled a move of funds to `protocol`, expecting `expected_apy` basis points.
#[derive(Debug)]
pub struct RebalanceEvent {
    pub protocol: String,
    pub expected_apy: i128,
}

/// The vault was initialized.
#[derive(Debug)]
pub struct VaultInitializedEvent {
    pub agent: String,
    pub usdc_token: String,
    pub tvl_cap: i128,
}

/// The owner paused the vault.
#[derive(Debug)]
pub struct VaultPausedEvent {
    pub owner: String,
}

/// The owner unpaused the vault.
#[derive(Debug)]
pub struct VaultUnpausedEvent {
    pub owner: String,
}

/// The owner paused the vault in an emergency.
#[derive(Debug)]
pub struct EmergencyPausedEvent {
    pub owner: String,
}

/// The per-user deposit cap (`min`) or the TVL cap (`max`) changed.
#[derive(Debug, Clone, Copy, PartialEq, Eq, Structural)]
pub struct LimitsUpdatedEvent {
    pub old_min: i128,
    pub new_min: i128,
    pub old_max: i128,
    pub new_max: i128,
}

/// The agent was replaced.
#[derive(Debug)]
pub struct AgentUpdatedEvent {
    pub old_agent: String,
    pub new_agent: String,
}

/// The owner proposed a new owner.
#[derive(Debug)]
pub struct OwnershipTransferInitiatedEvent {
    pub current_owner: String,
    pub pending_owner: String,
}

/// The pending owner accepted ownership.
#[derive(Debug)]
pub struct OwnershipTransferredEvent {
    pub old_owner: String,
    pub new_owner: String,
}

/// The owner withdrew a pending ownership transfer.
#[derive(Debug)]
pub struct OwnershipTransferCancelledEvent {
    pub owner: String,
    pub cancelled_pending: String,
}

/// The agent updated the vault's total assets.
#[derive(Debug, Clone, Copy, PartialEq, Eq, Structural)]
pub struct AssetsUpdatedEvent {
    pub old_total: i128,
    pub new_total: i128,
}

} // verus!
