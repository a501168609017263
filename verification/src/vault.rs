//! The vault's state and its administrative operations.
use vstd::prelude::*;
use vstd::hash_map::StringHashMap;
use crate::error::VaultError;
use crate::events::VaultInitializedEvent;
use crate::ledger::{all_non_negative, held, lemma_total_held_empty, total_held};

verus! {

/// Smallest deposit accepted: one USDC in 7-decimal units.
pub const MIN_DEPOSIT: i128 = 1_000_000;

/// TVL cap of a freshly initialized vault (100M USDC).
pub const DEFAULT_TVL_CAP: i128 = 100_000_000_000;

/// Per-user deposit cap of a freshly initialized vault (10K USDC).
pub const DEFAULT_USER_DEPOSIT_CAP: i128 = 10_000_000_000;

/// Version recorded by `initialize`.
pub const VAULT_VERSION: u32 = 1;

/// The state of an initialized vault.
///
/// Accounts (agent, owner, users, token) are identified by their address text.
/// `balances` records each user's deposited principal, `shares` each user's vault shares;
/// an account without an entry holds zero. `total_assets` is the managed value
/// (principal and yield) that prices shares; where it has never been recorded,
/// `total_deposits` stands in for it.
pub struct NeuroWealthVault {
    pub agent: String,
    pub usdc_token: String,
    pub owner: String,
    pub pending_owner: Option<String>,
    pub paused: bool,
    pub total_deposits: i128,
    pub total_shares: i128,
    pub total_assets: Option<i128>,
    pub tvl_cap: i128,
    pub user_deposit_cap: i128,
    pub version: u32,
    pub balances: StringHashMap<i128>,
    pub shares: StringHashMap<i128>,
}

/// Whether two optional account names name the same account (or both none).
pub open spec fn same_account(a: Option<String>, b: Option<String>) -> bool {
    match (a, b) {
        (Some(x), Some(y)) => x@ == y@,
        (None, None) => true,
        _ => false,
    }
}

impl NeuroWealthVault {
    /// The principal a user has deposited and not yet withdrawn.
    pub open spec fn principal_of(&self, user: Seq<char>) -> int {
        held(self.balances@, user)
    }

    /// The shares a user holds.
    pub open spec fn shares_of(&self, user: Seq<char>) -> int {
        held(self.shares@, user)
    }

    /// The total assets that price shares: the recorded value, else total deposits.
    pub open spec fn assets_basis(&self) -> int {
        match self.total_assets {
            Some(t) => t as int,
            None => self.total_deposits as int,
        }
    }

    /// Every share in circulation belongs to some user: the user ledger is finite,
    /// holds no negative entry, and sums to `total_shares`.
    pub open spec fn shares_balanced(&self) -> bool {
        &&& self.shares@.dom().finite()
        &&& all_non_negative(self.shares@)
        &&& self.total_shares as int == total_held(self.shares@)
    }

    /// `total_deposits` is the sum of all users' principal balances, none negative.
    pub open spec fn principal_balanced(&self) -> bool {
        &&& self.balances@.dom().finite()
        &&& all_non_negative(self.balances@)
        &&& self.total_deposits as int == total_held(self.balances@)
    }

    /// Agent, token, owner and pending owner are the same in `self` and `other`.
    pub open spec fn same_roles(&self, other: &NeuroWealthVault) -> bool {
        &&& self.agent@ == other.agent@
        &&& self.usdc_token@ == other.usdc_token@
        &&& self.owner@ == other.owner@
        &&& same_account(self.pending_owner, other.pending_owner)
    }

    /// The caps and the version are the same in `self` and `other`.
    pub open spec fn same_limits(&self, other: &NeuroWealthVault) -> bool {
        &&& self.tvl_cap == other.tvl_cap
        &&& self.user_deposit_cap == other.user_deposit_cap
        &&& self.version == other.version
    }

    /// Everything but the accounting totals and the user ledgers is the same in `self` and `other`.
    pub open spec fn same_settings(&self, other: &NeuroWealthVault) -> bool {
        &&& self.same_roles(other)
        &&& self.paused == other.paused
        &&& self.same_limits(other)
    }

    /// The accounting totals and user ledgers are the same in `self` and `other`.
    pub open spec fn same_accounts(&self, other: &NeuroWealthVault) -> bool {
        &&& self.total_deposits == other.total_deposits
        &&& self.total_shares == other.total_shares
        &&& self.total_assets == other.total_assets
        &&& self.balances@ == other.balances@
        &&& self.shares@ == other.shares@
    }

    /// The principal recorded for `user`, zero where there is none.
    pub(crate) fn principal_balance(&self, user: &str) -> (r: i128)
        ensures
            r as int == self.principal_of(user@),
    {
        match self.balances.get(user) {
            Some(v) => *v,
            None => 0,
        }
    }

    /// The shares that `user` holds, zero where there is no entry.
    pub fn get_shares(&self, user: &str) -> (r: i128)
        ensures
            r as int == self.shares_of(user@),
    {
        match self.shares.get(user) {
            Some(v) => *v,
            None => 0,
        }
    }

    /// Total shares in circulation.
    pub(crate) fn get_total_shares_internal(&self) -> (r: i128)
        ensures
            r == self.total_shares,
    {
        self.total_shares
    }

    /// Total assets that price shares; total deposits where none have been recorded.
    pub(crate) fn get_total_assets_internal(&self) -> (r: i128)
        ensures
            r as int == self.assets_basis(),
    {
        match self.total_assets {
            Some(v) => v,
            None => self.total_deposits,
        }
    }

    /// Refuses while the vault is paused.
    pub(crate) fn require_not_paused(&self) -> (r: Result<(), VaultError>)
        ensures
            r == (if self.paused {
                Err::<(), VaultError>(VaultError::Paused)
            } else {
                Ok(())
            }),
    {
        if self.paused {
            Err(VaultError::Paused)
        } else {
            Ok(())
        }
    }

    /// Refuses an amount that is not positive.
    pub fn require_positive_amount(amount: i128) -> (r: Result<(), VaultError>)
        ensures
            r == (if amount > 0 {
                Ok(())
            } else {
                Err::<(), VaultError>(VaultError::NonPositiveAmount)
            }),
    {
        if amount > 0 {
            Ok(())
        } else {
            Err(VaultError::NonPositiveAmount)
        }
    }

    /// Refuses a deposit below one USDC.
    pub fn require_minimum_deposit(amount: i128) -> (r: Result<(), VaultError>)
        ensures
            r == (if amount >= MIN_DEPOSIT {
                Ok(())
            } else {
                Err::<(), VaultError>(VaultError::BelowMinimumDeposit)
            }),
    {
        if amount >= MIN_DEPOSIT {
            Ok(())
        } else {
            Err(VaultError::BelowMinimumDeposit)
        }
    }

    /// Sets up a vault: `agent` becomes agent and owner; nothing is deposited yet;
    /// the caps take their defaults; the vault is not paused. Refused where a vault
    /// is already stored.
    pub fn initialize(stored: Option<&NeuroWealthVault>, agent: String, usdc_token: String) -> (r:
        Result<(NeuroWealthVault, VaultInitializedEvent), VaultError>)
        ensures
            stored is Some ==> r == Err::<(NeuroWealthVault, VaultInitializedEvent), VaultError>(
                VaultError::AlreadyInitialized,
            ),
            stored is None ==> r is Ok,
            r matches Ok((v, ev)) ==> {
                &&& v.agent@ == agent@
                &&& v.owner@ == agent@
                &&& v.usdc_token@ == usdc_token@
                &&& v.pending_owner is None
                &&& !v.paused
                &&& v.total_deposits == 0
                &&& v.total_shares == 0
                &&& v.total_assets == Some(0i128)
                &&& v.tvl_cap == DEFAULT_TVL_CAP
                &&& v.user_deposit_cap == DEFAULT_USER_DEPOSIT_CAP
                &&& v.version == VAULT_VERSION
                &&& v.balances@ == Map::<Seq<char>, i128>::empty()
                &&& v.shares@ == Map::<Seq<char>, i128>::empty()
                &&& v.shares_balanced()
                &&& v.principal_balanced()
                &&& ev.agent@ == agent@
                &&& ev.usdc_token@ == usdc_token@
                &&& ev.tvl_cap == DEFAULT_TVL_CAP
            },
    {
        if stored.is_some() {
            return Err(VaultError::AlreadyInitialized);
        }
        let ev = VaultInitializedEvent {
            agent: agent.clone(),
            usdc_token: usdc_token.clone(),
            tvl_cap: DEFAULT_TVL_CAP,
        };
        let v = NeuroWealthVault {
            agent: agent.clone(),
            usdc_token,
            owner: agent,
            pending_owner: None,
            paused: false,
            total_deposits: 0,
            total_shares: 0,
            total_assets: Some(0),
            tvl_cap: DEFAULT_TVL_CAP,
            user_deposit_cap: DEFAULT_USER_DEPOSIT_CAP,
            version: VAULT_VERSION,
            balances: StringHashMap::new(),
            shares: StringHashMap::new(),
        };
        proof {
            lemma_total_held_empty();
        }
        Ok((v, ev))
    }
}

} // verus!
