//! Administration: pausing, limits, the agent, ownership transfer, and the agent's
//! reports (rebalancing signals and total-asset updates).
use vstd::prelude::*;
use crate::error::VaultError;
use crate::events::{
    AgentUpdatedEvent, AssetsUpdatedEvent, EmergencyPausedEvent, LimitsUpdatedEvent,
    OwnershipTransferCancelledEvent, OwnershipTransferInitiatedEvent, OwnershipTransferredEvent,
    RebalanceEvent, VaultPausedEvent, VaultUnpausedEvent,
};
use crate::vault::NeuroWealthVault;

verus! {

impl NeuroWealthVault {
    /// `post` differs from `self` at most in whether it is paused.
    pub open spec fn only_pause_changed(&self, post: &NeuroWealthVault) -> bool {
        &&& post.same_roles(self)
        &&& post.same_limits(self)
        &&& post.same_accounts(self)
    }

    /// Why `caller` may not pause the vault; `None` where it may.
    pub open spec fn pause_refusal(&self, caller: Seq<char>) -> Option<VaultError> {
        if caller != self.owner@ {
            Some(VaultError::NotOwner)
        } else {
            None
        }
    }

    /// Why `caller` may not unpause the vault, checked in this order; `None` where it may.
    pub open spec fn unpause_refusal(&self, caller: Seq<char>) -> Option<VaultError> {
        if caller != self.owner@ {
            Some(VaultError::NotOwner)
        } else if !self.paused {
            Some(VaultError::NotPaused)
        } else {
            None
        }
    }

    /// Pauses the vault; only the owner may. Deposits, withdrawals and rebalancing are
    /// refused until it is unpaused; reads keep working.
    pub fn pause(&mut self, owner: String) -> (r: Result<VaultPausedEvent, VaultError>)
        ensures
            old(self).pause_refusal(owner@) matches Some(e) ==> r == Err::<VaultPausedEvent, VaultError>(e)
                && *final(self) == *old(self),
            old(self).pause_refusal(owner@) is None ==> r is Ok,
            r matches Ok(ev) ==> {
                &&& old(self).pause_refusal(owner@) is None
                &&& final(self).paused
                &&& old(self).only_pause_changed(final(self))
                &&& ev.owner@ == old(self).owner@
            },
    {
        if owner != self.owner {
            return Err(VaultError::NotOwner);
        }
        self.paused = true;
        Ok(VaultPausedEvent { owner: self.owner.clone() })
    }

    /// Unpauses a paused vault; only the owner may.
    pub fn unpause(&mut self, owner: String) -> (r: Result<VaultUnpausedEvent, VaultError>)
        ensures
            old(self).unpause_refusal(owner@) matches Some(e) ==> r == Err::<VaultUnpausedEvent, VaultError>(e)
                && *final(self) == *old(self),
            old(self).unpause_refusal(owner@) is None ==> r is Ok,
            r matches Ok(ev) ==> {
                &&& old(self).unpause_refusal(owner@) is None
                &&& !final(self).paused
                &&& old(self).only_pause_changed(final(self))
                &&& ev.owner@ == old(self).owner@
            },
    {
        if owner != self.owner {
            return Err(VaultError::NotOwner);
        }
        if !self.paused {
            return Err(VaultError::NotPaused);
        }
        self.paused = false;
        Ok(VaultUnpausedEvent { owner: self.owner.clone() })
    }

    /// Pauses the vault as `pause` does, reported as an emergency.
    pub fn emergency_pause(&mut self, owner: String) -> (r: Result<EmergencyPausedEvent, VaultError>)
        ensures
            old(self).pause_refusal(owner@) matches Some(e) ==> r == Err::<EmergencyPausedEvent, VaultError>(e)
                && *final(self) == *old(self),
            old(self).pause_refusal(owner@) is None ==> r is Ok,
            r matches Ok(ev) ==> {
                &&& old(self).pause_refusal(owner@) is None
                &&& final(self).paused
                &&& old(self).only_pause_changed(final(self))
                &&& ev.owner@ == old(self).owner@
            },
    {
        if owner != self.owner {
            return Err(VaultError::NotOwner);
        }
        self.paused = true;
        Ok(EmergencyPausedEvent { owner: self.owner.clone() })
    }

    /// Sets the TVL cap (0 removes it). Existing deposits are not affected.
    /// The owner's authorization is the caller's to check.
    pub fn set_tvl_cap(&mut self, cap: i128) -> (ev: LimitsUpdatedEvent)
        ensures
            final(self).tvl_cap == cap,
            final(self).user_deposit_cap == old(self).user_deposit_cap,
            final(self).version == old(self).version,
            final(self).same_roles(old(self)),
            final(self).paused == old(self).paused,
            final(self).same_accounts(old(self)),
            ev == (LimitsUpdatedEvent {
                old_min: old(self).user_deposit_cap,
                new_min: old(self).user_deposit_cap,
                old_max: old(self).tvl_cap,
                new_max: cap,
            }),
    {
        let old_tvl_cap = self.tvl_cap;
        let old_user_cap = self.user_deposit_cap;
        self.tvl_cap = cap;
        LimitsUpdatedEvent { old_min: old_user_cap, new_min: old_user_cap, old_max: old_tvl_cap, new_max: cap }
    }

    /// Sets the per-user deposit cap (0 removes it). Existing balances are not affected.
    /// The owner's authorization is the caller's to check.
    pub fn set_user_deposit_cap(&mut self, cap: i128) -> (ev: LimitsUpdatedEvent)
        ensures
            final(self).user_deposit_cap == cap,
            final(self).tvl_cap == old(self).tvl_cap,
            final(self).version == old(self).version,
            final(self).same_roles(old(self)),
            final(self).paused == old(self).paused,
            final(self).same_accounts(old(self)),
            ev == (LimitsUpdatedEvent {
                old_min: old(self).user_deposit_cap,
                new_min: cap,
                old_max: old(self).tvl_cap,
                new_max: old(self).tvl_cap,
            }),
    {
        let old_tvl_cap = self.tvl_cap;
        let old_user_cap = self.user_deposit_cap;
        self.user_deposit_cap = cap;
        LimitsUpdatedEvent { old_min: old_user_cap, new_min: cap, old_max: old_tvl_cap, new_max: old_tvl_cap }
    }

    /// Sets the per-user deposit cap to `min` and the TVL cap to `max` at once.
    /// The owner's authorization is the caller's to check.
    pub fn set_limits(&mut self, min: i128, max: i128) -> (ev: LimitsUpdatedEvent)
        ensures
            final(self).user_deposit_cap == min,
            final(self).tvl_cap == max,
            final(self).version == old(self).version,
            final(self).same_roles(old(self)),
            final(self).paused == old(self).paused,
            final(self).same_accounts(old(self)),
            ev == (LimitsUpdatedEvent {
                old_min: old(self).user_deposit_cap,
                new_min: min,
                old_max: old(self).tvl_cap,
                new_max: max,
            }),
    {
        let old_user_cap = self.user_deposit_cap;
        let old_tvl_cap = self.tvl_cap;
        self.user_deposit_cap = min;
        self.tvl_cap = max;
        LimitsUpdatedEvent { old_min: old_user_cap, new_min: min, old_max: old_tvl_cap, new_max: max }
    }

    /// The TVL cap; 0 means no cap.
    pub fn get_tvl_cap(&self) -> (r: i128)
        ensures
            r == self.tvl_cap,
    {
        self.tvl_cap
    }

    /// The per-user deposit cap; 0 means no cap.
    pub fn get_user_deposit_cap(&self) -> (r: i128)
        ensures
            r == self.user_deposit_cap,
    {
        self.user_deposit_cap
    }

    /// Replaces the agent; the old agent loses its rights at once.
    /// The owner's authorization is the caller's to check.
    pub fn update_agent(&mut self, new_agent: String) -> (ev: AgentUpdatedEvent)
        ensures
            final(self).agent@ == new_agent@,
            final(self).usdc_token@ == old(self).usdc_token@,
            final(self).owner@ == old(self).owner@,
            crate::vault::same_account(final(self).pending_owner, old(self).pending_owner),
            final(self).paused == old(self).paused,
            final(self).same_limits(old(self)),
            final(self).same_accounts(old(self)),
            ev.old_agent@ == old(self).agent@,
            ev.new_agent@ == new_agent@,
    {
        let old_agent = self.agent.clone();
        self.agent = new_agent.clone();
        AgentUpdatedEvent { old_agent, new_agent }
    }

    /// Proposes `new_owner` as owner (step one of two); a later proposal replaces it.
    /// The owner's authorization is the caller's to check.
    pub fn transfer_ownership(&mut self, new_owner: String) -> (ev: OwnershipTransferInitiatedEvent)
        ensures
            final(self).pending_owner matches Some(p) && p@ == new_owner@,
            final(self).agent@ == old(self).agent@,
            final(self).usdc_token@ == old(self).usdc_token@,
            final(self).owner@ == old(self).owner@,
            final(self).paused == old(self).paused,
            final(self).same_limits(old(self)),
            final(self).same_accounts(old(self)),
            ev.current_owner@ == old(self).owner@,
            ev.pending_owner@ == new_owner@,
    {
        let current_owner = self.owner.clone();
        self.pending_owner = Some(new_owner.clone());
        OwnershipTransferInitiatedEvent { current_owner, pending_owner: new_owner }
    }

    /// Why `caller` may not accept ownership, checked in this order; `None` where it may.
    pub open spec fn accept_refusal(&self, caller: Seq<char>) -> Option<VaultError> {
        match self.pending_owner {
            None => Some(VaultError::NoPendingOwner),
            Some(p) => if p@ != caller {
                Some(VaultError::NotPendingOwner)
            } else {
                None
            },
        }
    }

    /// Completes a transfer (step two of two): the pending owner becomes owner and
    /// nothing stays pending. The new owner's authorization is the caller's to check.
    pub fn accept_ownership(&mut self, new_owner: String) -> (r: Result<OwnershipTransferredEvent, VaultError>)
        ensures
            old(self).accept_refusal(new_owner@) matches Some(e) ==> r == Err::<
                OwnershipTransferredEvent,
                VaultError,
            >(e) && *final(self) == *old(self),
            old(self).accept_refusal(new_owner@) is None ==> r is Ok,
            r matches Ok(ev) ==> {
                &&& old(self).accept_refusal(new_owner@) is None
                &&& final(self).owner@ == new_owner@
                &&& final(self).pending_owner is None
                &&& final(self).agent@ == old(self).agent@
                &&& final(self).usdc_token@ == old(self).usdc_token@
                &&& final(self).paused == old(self).paused
                &&& final(self).same_limits(old(self))
                &&& final(self).same_accounts(old(self))
                &&& ev.old_owner@ == old(self).owner@
                &&& ev.new_owner@ == new_owner@
            },
    {
        let pending = match &self.pending_owner {
            None => return Err(VaultError::NoPendingOwner),
            Some(p) => p.clone(),
        };
        if new_owner != pending {
            return Err(VaultError::NotPendingOwner);
        }
        let old_owner = self.owner.clone();
        self.owner = new_owner.clone();
        self.pending_owner = None;
        Ok(OwnershipTransferredEvent { old_owner, new_owner })
    }

    /// Withdraws a pending ownership transfer; refused where none is pending.
    /// The owner's authorization is the caller's to check.
    pub fn cancel_ownership_transfer(&mut self) -> (r: Result<OwnershipTransferCancelledEvent, VaultError>)
        ensures
            old(self).pending_owner is None <==> r == Err::<OwnershipTransferCancelledEvent, VaultError>(
                VaultError::NoPendingOwner,
            ),
            old(self).pending_owner is Some ==> r is Ok,
            r is Err ==> *final(self) == *old(self),
            r matches Ok(ev) ==> {
                &&& final(self).pending_owner is None
                &&& final(self).agent@ == old(self).agent@
                &&& final(self).usdc_token@ == old(self).usdc_token@
                &&& final(self).owner@ == old(self).owner@
                &&& final(self).paused == old(self).paused
                &&& final(self).same_limits(old(self))
                &&& final(self).same_accounts(old(self))
                &&& ev.owner@ == old(self).owner@
                &&& old(self).pending_owner matches Some(p) && ev.cancelled_pending@ == p@
            },
    {
        let pending = match &self.pending_owner {
            None => return Err(VaultError::NoPendingOwner),
            Some(p) => p.clone(),
        };
        let owner = self.owner.clone();
        self.pending_owner = None;
        Ok(OwnershipTransferCancelledEvent { owner, cancelled_pending: pending })
    }

    /// The proposed owner, if a transfer is pending.
    pub fn get_pending_owner(&self) -> (r: Option<String>)
        ensures
            crate::vault::same_account(r, self.pending_owner),
    {
        match &self.pending_owner {
            Some(p) => Some(p.clone()),
            None => None,
        }
    }

    /// Signals a move of funds to `protocol`; refused while paused. Funds do not move.
    /// The agent's authorization is the caller's to check.
    pub fn rebalance(&self, protocol: String, expected_apy: i128) -> (r: Result<RebalanceEvent, VaultError>)
        ensures
            self.paused ==> r == Err::<RebalanceEvent, VaultError>(VaultError::Paused),
            !self.paused ==> r is Ok,
            r matches Ok(ev) ==> ev.protocol@ == protocol@ && ev.expected_apy == expected_apy,
    {
        if let Err(e) = self.require_not_paused() {
            return Err(e);
        }
        Ok(RebalanceEvent { protocol, expected_apy })
    }

    /// Why the report of `new_total` total assets by `agent` is refused, checked in this order,
    /// given the vault's token balance `vault_balance`; `None` where it is accepted.
    pub open spec fn update_total_assets_refusal(&self, agent: Seq<char>, new_total: int, vault_balance: int) -> Option<VaultError> {
        if agent != self.agent@ {
            Some(VaultError::NotAgent)
        } else if new_total < self.assets_basis() {
            Some(VaultError::TotalAssetsDecrease)
        } else if vault_balance < new_total {
            Some(VaultError::InsufficientVaultBalance)
        } else {
            None
        }
    }

    /// The checks on a report of `new_total` total assets by `agent` that come before the
    /// vault's token balance is read: only the agent may report, and total assets may not decrease.
    pub fn check_total_assets_report(&self, agent: &String, new_total: i128) -> (r: Result<(), VaultError>)
        ensures
            r == (if agent@ != self.agent@ {
                Err::<(), VaultError>(VaultError::NotAgent)
            } else if new_total < self.assets_basis() {
                Err::<(), VaultError>(VaultError::TotalAssetsDecrease)
            } else {
                Ok(())
            }),
    {
        if *agent != self.agent {
            return Err(VaultError::NotAgent);
        }
        if new_total < self.get_total_assets_internal() {
            return Err(VaultError::TotalAssetsDecrease);
        }
        Ok(())
    }

    /// Records realized yield: total assets become `new_total`. Only the agent may, total
    /// assets never decrease this way, and the vault's token balance `vault_balance`
    /// (read by the caller) must cover the new total.
    pub fn update_total_assets(&mut self, agent: String, new_total: i128, vault_balance: i128) -> (r:
        Result<AssetsUpdatedEvent, VaultError>)
        ensures
            old(self).update_total_assets_refusal(agent@, new_total as int, vault_balance as int) matches Some(e)
                ==> r == Err::<AssetsUpdatedEvent, VaultError>(e) && *final(self) == *old(self),
            old(self).update_total_assets_refusal(agent@, new_total as int, vault_balance as int) is None ==> r is Ok,
            r matches Ok(ev) ==> {
                &&& old(self).update_total_assets_refusal(agent@, new_total as int, vault_balance as int) is None
                &&& final(self).total_assets == Some(new_total)
                &&& final(self).assets_basis() >= old(self).assets_basis()
                &&& final(self).same_settings(old(self))
                &&& final(self).total_deposits == old(self).total_deposits
                &&& final(self).total_shares == old(self).total_shares
                &&& final(self).balances@ == old(self).balances@
                &&& final(self).shares@ == old(self).shares@
                &&& ev.old_total == old(self).assets_basis()
                &&& ev.new_total == new_total
            },
            old(self).shares_balanced() ==> final(self).shares_balanced(),
            old(self).principal_balanced() ==> final(self).principal_balanced(),
    {
        if let Err(e) = self.check_total_assets_report(&agent, new_total) {
            return Err(e);
        }
        let old_total = self.get_total_assets_internal();
        if vault_balance < new_total {
            return Err(VaultError::InsufficientVaultBalance);
        }
        self.total_assets = Some(new_total);
        Ok(AssetsUpdatedEvent { old_total, new_total })
    }
}

} // verus!
