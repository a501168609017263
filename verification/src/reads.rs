//! Read-only queries, and the builders that load a stored vault and read it back for storage.
use vstd::prelude::*;
use vstd::hash_map::StringHashMap;
use crate::error::VaultError;
use crate::shares::{assets_for, assets_for_shares, shares_for, shares_for_assets};
use crate::vault::NeuroWealthVault;

verus! {

/// The result of a share conversion: the value, or `ArithmeticOverflow` where it leaves `i128`.
pub open spec fn conversion_result(v: Option<int>, r: Result<i128, VaultError>) -> bool {
    match v {
        Some(x) => r == Ok::<i128, VaultError>(x as i128),
        None => r == Err::<i128, VaultError>(VaultError::ArithmeticOverflow),
    }
}

impl NeuroWealthVault {
    /// What `user`'s shares redeem at the current price: the user's claim on total assets,
    /// yield included.
    pub fn get_balance(&self, user: &str) -> (r: Result<i128, VaultError>)
        ensures
            conversion_result(
                assets_for(self.shares_of(user@), self.total_shares as int, self.assets_basis()),
                r,
            ),
    {
        let shares = self.get_shares(user);
        if shares == 0 {
            return Ok(0);
        }
        let total_shares = self.get_total_shares_internal();
        let total_assets = self.get_total_assets_internal();
        match assets_for_shares(shares, total_shares, total_assets) {
            Some(v) => Ok(v),
            None => Err(VaultError::ArithmeticOverflow),
        }
    }

    /// The principal deposited and not yet withdrawn, over all users (yield excluded).
    pub fn get_total_deposits(&self) -> (r: i128)
        ensures
            r == self.total_deposits,
    {
        self.total_deposits
    }

    /// The vault's total managed assets (principal and yield), which price shares.
    pub fn get_total_assets(&self) -> (r: i128)
        ensures
            r as int == self.assets_basis(),
    {
        self.get_total_assets_internal()
    }

    /// The shares `assets` buy at the current price.
    pub fn convert_to_shares(&self, assets: i128) -> (r: Result<i128, VaultError>)
        ensures
            conversion_result(
                shares_for(assets as int, self.total_shares as int, self.assets_basis()),
                r,
            ),
    {
        match shares_for_assets(assets, self.get_total_shares_internal(), self.get_total_assets_internal()) {
            Some(v) => Ok(v),
            None => Err(VaultError::ArithmeticOverflow),
        }
    }

    /// The assets `shares` redeem at the current price.
    pub fn convert_to_assets(&self, shares: i128) -> (r: Result<i128, VaultError>)
        ensures
            conversion_result(
                assets_for(shares as int, self.total_shares as int, self.assets_basis()),
                r,
            ),
    {
        match assets_for_shares(shares, self.get_total_shares_internal(), self.get_total_assets_internal()) {
            Some(v) => Ok(v),
            None => Err(VaultError::ArithmeticOverflow),
        }
    }

    /// The agent, the only account that may rebalance and report total assets.
    pub fn get_agent(&self) -> (r: String)
        ensures
            r@ == self.agent@,
    {
        self.agent.clone()
    }

    /// The owner, who may pause, set limits, replace the agent and transfer ownership.
    pub fn get_owner(&self) -> (r: String)
        ensures
            r@ == self.owner@,
    {
        self.owner.clone()
    }

    /// Whether the vault is paused.
    pub fn is_paused(&self) -> (r: bool)
        ensures
            r == self.paused,
    {
        self.paused
    }

    /// The vault's version.
    pub fn get_version(&self) -> (r: u32)
        ensures
            r == self.version,
    {
        self.version
    }

    /// The token the vault accepts.
    pub fn get_usdc_token(&self) -> (r: String)
        ensures
            r@ == self.usdc_token@,
    {
        self.usdc_token.clone()
    }

    /// A stored vault's settings and totals, with no user entries loaded yet.
    pub fn restore(
        agent: String,
        usdc_token: String,
        owner: String,
        pending_owner: Option<String>,
        paused: bool,
        total_deposits: i128,
        total_shares: i128,
        total_assets: Option<i128>,
        tvl_cap: i128,
        user_deposit_cap: i128,
        version: u32,
    ) -> (v: NeuroWealthVault)
        ensures
            v.agent == agent,
            v.usdc_token == usdc_token,
            v.owner == owner,
            v.pending_owner == pending_owner,
            v.paused == paused,
            v.total_deposits == total_deposits,
            v.total_shares == total_shares,
            v.total_assets == total_assets,
            v.tvl_cap == tvl_cap,
            v.user_deposit_cap == user_deposit_cap,
            v.version == version,
            v.balances@ == Map::<Seq<char>, i128>::empty(),
            v.shares@ == Map::<Seq<char>, i128>::empty(),
    {
        NeuroWealthVault {
            agent,
            usdc_token,
            owner,
            pending_owner,
            paused,
            total_deposits,
            total_shares,
            total_assets,
            tvl_cap,
            user_deposit_cap,
            version,
            balances: StringHashMap::new(),
            shares: StringHashMap::new(),
        }
    }

    /// Loads a user's stored principal and shares; an absent record stays absent.
    pub fn load_user(&mut self, user: String, principal: Option<i128>, shares: Option<i128>)
        ensures
            final(self).same_settings(old(self)),
            final(self).total_deposits == old(self).total_deposits,
            final(self).total_shares == old(self).total_shares,
            final(self).total_assets == old(self).total_assets,
            final(self).balances@ == (match principal {
                Some(p) => old(self).balances@.insert(user@, p),
                None => old(self).balances@,
            }),
            final(self).shares@ == (match shares {
                Some(s) => old(self).shares@.insert(user@, s),
                None => old(self).shares@,
            }),
    {
        if let Some(p) = principal {
            self.balances.insert(user.clone(), p);
        }
        if let Some(s) = shares {
            self.shares.insert(user, s);
        }
    }

    /// The principal recorded for `user`, if any (to store it back).
    pub fn principal_entry(&self, user: &str) -> (r: Option<i128>)
        ensures
            r == (if self.balances@.contains_key(user@) {
                Some(self.balances@[user@])
            } else {
                None
            }),
    {
        match self.balances.get(user) {
            Some(v) => Some(*v),
            None => None,
        }
    }

    /// The shares recorded for `user`, if any (to store them back).
    pub fn shares_entry(&self, user: &str) -> (r: Option<i128>)
        ensures
            r == (if self.shares@.contains_key(user@) {
                Some(self.shares@[user@])
            } else {
                None
            }),
    {
        match self.shares.get(user) {
            Some(v) => Some(*v),
            None => None,
        }
    }
}

} // verus!
