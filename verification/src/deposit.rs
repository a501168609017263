//! Deposits: the checks a deposit must pass, and the shares it mints.
use vstd::prelude::*;
use crate::error::VaultError;
use crate::events::DepositEvent;
use crate::ledger::lemma_total_held_insert;
use crate::shares::{fits_i128, shares_for, shares_for_assets};
use crate::vault::{NeuroWealthVault, MIN_DEPOSIT};

verus! {

impl NeuroWealthVault {
    /// The shares a deposit of `amount` mints (`None` where the computation overflows).
    pub open spec fn deposit_minted(&self, amount: int) -> Option<int> {
        shares_for(amount, self.total_shares as int, self.assets_basis())
    }

    /// Why a deposit of `amount` by `user` is refused, checked in this order; `None` where it is accepted.
    pub open spec fn deposit_refusal(&self, user: Seq<char>, amount: int) -> Option<VaultError> {
        let new_principal = self.principal_of(user) + amount;
        let new_deposits = self.total_deposits + amount;
        let minted = self.deposit_minted(amount);
        if self.paused {
            Some(VaultError::Paused)
        } else if amount <= 0 {
            Some(VaultError::NonPositiveAmount)
        } else if amount < MIN_DEPOSIT {
            Some(VaultError::BelowMinimumDeposit)
        } else if self.user_deposit_cap > 0 && !fits_i128(new_principal) {
            Some(VaultError::ArithmeticOverflow)
        } else if self.user_deposit_cap > 0 && new_principal > self.user_deposit_cap {
            Some(VaultError::ExceedsUserDepositCap)
        } else if self.tvl_cap > 0 && !fits_i128(new_deposits) {
            Some(VaultError::ArithmeticOverflow)
        } else if self.tvl_cap > 0 && new_deposits > self.tvl_cap {
            Some(VaultError::ExceedsTvlCap)
        } else if !fits_i128(new_principal) || !fits_i128(new_deposits) || minted is None {
            Some(VaultError::ArithmeticOverflow)
        } else if minted.unwrap() <= 0 {
            Some(VaultError::ZeroSharesMinted)
        } else if !fits_i128(self.shares_of(user) + minted.unwrap()) || !fits_i128(
            self.total_shares + minted.unwrap(),
        ) || !fits_i128(self.assets_basis() + amount) {
            Some(VaultError::ArithmeticOverflow)
        } else {
            None
        }
    }

    /// `post` is the vault after an accepted deposit of `amount` by `user`: the user's principal
    /// and the total deposits grow by `amount`, the minted shares go to the user and into
    /// circulation, and total assets become the priced basis plus `amount`.
    pub open spec fn deposit_effect(&self, post: &NeuroWealthVault, user: Seq<char>, amount: int) -> bool {
        let minted = self.deposit_minted(amount).unwrap();
        &&& post.same_settings(self)
        &&& post.balances@ == self.balances@.insert(user, (self.principal_of(user) + amount) as i128)
        &&& post.total_deposits == self.total_deposits + amount
        &&& post.shares@ == self.shares@.insert(user, (self.shares_of(user) + minted) as i128)
        &&& post.total_shares == self.total_shares + minted
        &&& post.total_assets == Some((self.assets_basis() + amount) as i128)
    }

    /// Refuses a deposit that would take the user's principal above a positive per-user cap.
    pub(crate) fn require_within_deposit_cap(&self, user: &str, amount: i128) -> (r: Result<
        (),
        VaultError,
    >)
        ensures
            r == (if self.user_deposit_cap > 0 && !fits_i128(self.principal_of(user@) + amount) {
                Err::<(), VaultError>(VaultError::ArithmeticOverflow)
            } else if self.user_deposit_cap > 0 && self.principal_of(user@) + amount
                > self.user_deposit_cap {
                Err::<(), VaultError>(VaultError::ExceedsUserDepositCap)
            } else {
                Ok(())
            }),
    {
        let cap = self.user_deposit_cap;
        if cap > 0 {
            let current_balance = self.principal_balance(user);
            match current_balance.checked_add(amount) {
                None => Err(VaultError::ArithmeticOverflow),
                Some(total) => if total <= cap {
                    Ok(())
                } else {
                    Err(VaultError::ExceedsUserDepositCap)
                },
            }
        } else {
            Ok(())
        }
    }

    /// Refuses a deposit that would take total deposits above a positive TVL cap.
    pub(crate) fn require_within_tvl_cap(&self, amount: i128) -> (r: Result<(), VaultError>)
        ensures
            r == (if self.tvl_cap > 0 && !fits_i128(self.total_deposits + amount) {
                Err::<(), VaultError>(VaultError::ArithmeticOverflow)
            } else if self.tvl_cap > 0 && self.total_deposits + amount > self.tvl_cap {
                Err::<(), VaultError>(VaultError::ExceedsTvlCap)
            } else {
                Ok(())
            }),
    {
        let cap = self.tvl_cap;
        if cap > 0 {
            match self.total_deposits.checked_add(amount) {
                None => Err(VaultError::ArithmeticOverflow),
                Some(total) => if total <= cap {
                    Ok(())
                } else {
                    Err(VaultError::ExceedsTvlCap)
                },
            }
        } else {
            Ok(())
        }
    }

    /// Deposits `amount` for `user`: records the principal, mints shares at the current
    /// price (one to one in an empty vault) and adds `amount` to total assets.
    /// The token transfer from the user is the caller's to make.
    pub fn deposit(&mut self, user: String, amount: i128) -> (r: Result<DepositEvent, VaultError>)
        ensures
            old(self).deposit_refusal(user@, amount as int) matches Some(e) ==> r == Err::<
                DepositEvent,
                VaultError,
            >(e) && *final(self) == *old(self),
            old(self).deposit_refusal(user@, amount as int) is None ==> r is Ok,
            r matches Ok(ev) ==> {
                &&& old(self).deposit_effect(final(self), user@, amount as int)
                &&& ev.user@ == user@
                &&& ev.amount == amount
                &&& ev.shares == old(self).deposit_minted(amount as int).unwrap()
            },
            old(self).shares_balanced() ==> final(self).shares_balanced(),
            old(self).principal_balanced() ==> final(self).principal_balanced(),
    {
        if let Err(e) = self.require_not_paused() {
            return Err(e);
        }
        if let Err(e) = Self::require_positive_amount(amount) {
            return Err(e);
        }
        if let Err(e) = Self::require_minimum_deposit(amount) {
            return Err(e);
        }
        if let Err(e) = self.require_within_deposit_cap(user.as_str(), amount) {
            return Err(e);
        }
        if let Err(e) = self.require_within_tvl_cap(amount) {
            return Err(e);
        }
        let basis = self.get_total_assets_internal();
        let current_balance = self.principal_balance(user.as_str());
        let new_balance = match current_balance.checked_add(amount) {
            Some(v) => v,
            None => return Err(VaultError::ArithmeticOverflow),
        };
        let new_total_deposits = match self.total_deposits.checked_add(amount) {
            Some(v) => v,
            None => return Err(VaultError::ArithmeticOverflow),
        };

        let minted = match shares_for_assets(amount, self.get_total_shares_internal(), basis) {
            Some(s) => s,
            None => return Err(VaultError::ArithmeticOverflow),
        };
        if minted <= 0 {
            return Err(VaultError::ZeroSharesMinted);
        }
        let new_user_shares = match self.get_shares(user.as_str()).checked_add(minted) {
            Some(v) => v,
            None => return Err(VaultError::ArithmeticOverflow),
        };
        let new_total_shares = match self.total_shares.checked_add(minted) {
            Some(v) => v,
            None => return Err(VaultError::ArithmeticOverflow),
        };
        let new_total_assets = match basis.checked_add(amount) {
            Some(v) => v,
            None => return Err(VaultError::ArithmeticOverflow),
        };
        proof {
            if old(self).shares_balanced() {
                lemma_total_held_insert(old(self).shares@, user@, new_user_shares);
            }
            if old(self).principal_balanced() {
                lemma_total_held_insert(old(self).balances@, user@, new_balance);
            }
        }
        self.balances.insert(user.clone(), new_balance);
        self.total_deposits = new_total_deposits;
        self.shares.insert(user.clone(), new_user_shares);
        self.total_shares = new_total_shares;
        self.total_assets = Some(new_total_assets);
        proof {
            assert forall|u: Seq<char>| #[trigger] self.shares@.contains_key(u)
                && old(self).shares_balanced() implies self.shares@[u] >= 0 by {
                if u != user@ {
                    assert(old(self).shares@.contains_key(u));
                }
            }
            assert forall|u: Seq<char>| #[trigger] self.balances@.contains_key(u)
                && old(self).principal_balanced() implies self.balances@[u] >= 0 by {
                if u != user@ {
                    assert(old(self).balances@.contains_key(u));
                }
            }
        }
        Ok(DepositEvent { user, amount, shares: minted })
    }
}

} // verus!
