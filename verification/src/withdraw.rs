//! Withdrawals: burning shares for their proportional part of the vault's assets.
use vstd::prelude::*;
use crate::error::VaultError;
use crate::events::WithdrawEvent;
use crate::ledger::lemma_total_held_insert;
use crate::shares::{assets_for, assets_for_shares, fits_i128, shares_for, shares_for_assets};
use crate::laws::law_round_trip_never_pays_more;
use crate::vault::NeuroWealthVault;

verus! {

/// The smaller of two integers.
pub open spec fn min_int(a: int, b: int) -> int {
    if a <= b {
        a
    } else {
        b
    }
}

impl NeuroWealthVault {
    /// The principal that a payout of `payout` to `user` repays: the whole payout, capped at
    /// the user's principal; nothing where the user has no positive principal.
    pub open spec fn principal_repaid(&self, user: Seq<char>, payout: int) -> int {
        if self.principal_of(user) > 0 {
            min_int(self.principal_of(user), payout)
        } else {
            0
        }
    }

    /// The principal ledger and total deposits after `user` is repaid `repaid`, the user's
    /// principal set to `new_principal` (only where the user had positive principal).
    pub open spec fn principal_after(
        &self,
        post: &NeuroWealthVault,
        user: Seq<char>,
        new_principal: int,
        repaid: int,
    ) -> bool {
        &&& post.balances@ == (if self.principal_of(user) > 0 {
            self.balances@.insert(user, new_principal as i128)
        } else {
            self.balances@
        })
        &&& post.total_deposits == self.total_deposits - repaid
    }

    /// The shares burned for a withdrawal of `amount`.
    pub open spec fn withdraw_burn(&self, amount: int) -> Option<int> {
        shares_for(amount, self.total_shares as int, self.assets_basis())
    }

    /// The assets paid out for a withdrawal of `amount`: the value of the burned shares.
    pub open spec fn withdraw_payout(&self, amount: int) -> Option<int> {
        assets_for(self.withdraw_burn(amount).unwrap(), self.total_shares as int, self.assets_basis())
    }

    /// Why a withdrawal of `amount` by `user` is refused, checked in this order; `None` where accepted.
    pub open spec fn withdraw_refusal(&self, user: Seq<char>, amount: int) -> Option<VaultError> {
        let burn = self.withdraw_burn(amount);
        let payout = self.withdraw_payout(amount);
        if self.paused {
            Some(VaultError::Paused)
        } else if amount <= 0 {
            Some(VaultError::NonPositiveAmount)
        } else if self.shares_of(user) <= 0 {
            Some(VaultError::InsufficientShares)
        } else if self.total_shares <= 0 || self.assets_basis() <= 0 {
            Some(VaultError::NoAssetsToWithdraw)
        } else if burn is None {
            Some(VaultError::ArithmeticOverflow)
        } else if burn.unwrap() <= 0 {
            Some(VaultError::ZeroSharesBurned)
        } else if self.shares_of(user) < burn.unwrap() {
            Some(VaultError::InsufficientSharesForAmount)
        } else if payout is None {
            Some(VaultError::ArithmeticOverflow)
        } else if !fits_i128(self.total_deposits - self.principal_repaid(user, payout.unwrap())) {
            Some(VaultError::ArithmeticOverflow)
        } else {
            None
        }
    }

    /// `post` is the vault after an accepted withdrawal of `amount` by `user`: the burned shares
    /// leave the user and circulation, the payout leaves total assets, and the payout repays
    /// principal up to the user's principal.
    pub open spec fn withdraw_effect(&self, post: &NeuroWealthVault, user: Seq<char>, amount: int) -> bool {
        let burn = self.withdraw_burn(amount).unwrap();
        let payout = self.withdraw_payout(amount).unwrap();
        let repaid = self.principal_repaid(user, payout);
        &&& post.same_settings(self)
        &&& post.shares@ == self.shares@.insert(user, (self.shares_of(user) - burn) as i128)
        &&& post.total_shares == self.total_shares - burn
        &&& post.total_assets == Some((self.assets_basis() - payout) as i128)
        &&& self.principal_after(post, user, self.principal_of(user) - repaid, repaid)
    }

    /// The assets paid out when `user` redeems all shares.
    pub open spec fn withdraw_all_payout(&self, user: Seq<char>) -> Option<int> {
        assets_for(self.shares_of(user), self.total_shares as int, self.assets_basis())
    }

    /// Why a full withdrawal by `user` is refused, checked in this order; `None` where accepted.
    pub open spec fn withdraw_all_refusal(&self, user: Seq<char>) -> Option<VaultError> {
        let payout = self.withdraw_all_payout(user);
        if self.paused {
            Some(VaultError::Paused)
        } else if self.shares_of(user) <= 0 {
            Some(VaultError::NoSharesToWithdraw)
        } else if self.total_shares <= 0 || self.assets_basis() <= 0 {
            Some(VaultError::NoAssetsToWithdraw)
        } else if payout is None {
            Some(VaultError::ArithmeticOverflow)
        } else if payout.unwrap() <= 0 {
            Some(VaultError::NoAssetsToReturn)
        } else if !fits_i128(self.total_deposits - self.principal_cleared(user)) {
            Some(VaultError::ArithmeticOverflow)
        } else {
            None
        }
    }

    /// `post` is the vault after an accepted full withdrawal by `user`: all the user's shares
    /// are burned, their value leaves total assets, and the user's principal is cleared and
    /// leaves total deposits, whatever the payout.
    pub open spec fn withdraw_all_effect(&self, post: &NeuroWealthVault, user: Seq<char>) -> bool {
        let payout = self.withdraw_all_payout(user).unwrap();
        &&& post.same_settings(self)
        &&& post.shares@ == self.shares@.insert(user, 0i128)
        &&& post.total_shares == self.total_shares - self.shares_of(user)
        &&& post.total_assets == Some((self.assets_basis() - payout) as i128)
        &&& self.principal_after(post, user, 0, self.principal_cleared(user))
    }

    /// The principal a full withdrawal by `user` clears: all of it, where it is positive.
    pub open spec fn principal_cleared(&self, user: Seq<char>) -> int {
        if self.principal_of(user) > 0 {
            self.principal_of(user)
        } else {
            0
        }
    }

    /// The principal removed from `user` (and from total deposits): with `clear` all of it
    /// (see `principal_cleared`), else what a payout of `payout` repays (see `principal_repaid`).
    pub open spec fn principal_reduction(&self, user: Seq<char>, payout: int, clear: bool) -> int {
        if clear {
            self.principal_cleared(user)
        } else {
            self.principal_repaid(user, payout)
        }
    }

    /// Lowers `user`'s principal, and total deposits by the same amount, after a payout of
    /// `payout` (see `principal_reduction`).
    fn repay_principal(&mut self, user: &String, payout: i128, clear: bool) -> (r: Result<(), VaultError>)
        requires
            payout >= 0,
        ensures
            !fits_i128(old(self).total_deposits - old(self).principal_reduction(user@, payout as int, clear))
                <==> r is Err,
            r is Err ==> r == Err::<(), VaultError>(VaultError::ArithmeticOverflow) && *final(self)
                == *old(self),
            r is Ok ==> {
                let reduction = old(self).principal_reduction(user@, payout as int, clear);
                &&& old(self).principal_after(
                    final(self),
                    user@,
                    old(self).principal_of(user@) - reduction,
                    reduction,
                )
                &&& final(self).same_settings(old(self))
                &&& final(self).total_shares == old(self).total_shares
                &&& final(self).total_assets == old(self).total_assets
                &&& final(self).shares@ == old(self).shares@
            },
            old(self).principal_balanced() ==> final(self).principal_balanced(),
    {
        let principal = self.principal_balance(user.as_str());
        if principal > 0 {
            let reduction = if clear || principal <= payout {
                principal
            } else {
                payout
            };
            let new_total = match self.total_deposits.checked_sub(reduction) {
                Some(v) => v,
                None => return Err(VaultError::ArithmeticOverflow),
            };
            let left: i128 = principal - reduction;
            proof {
                if old(self).principal_balanced() {
                    lemma_total_held_insert(old(self).balances@, user@, left);
                }
            }
            self.balances.insert(user.clone(), left);
            self.total_deposits = new_total;
            proof {
                assert forall|u: Seq<char>| #[trigger] self.balances@.contains_key(u)
                    && old(self).principal_balanced() implies self.balances@[u] >= 0 by {
                    if u != user@ {
                        assert(old(self).balances@.contains_key(u));
                    }
                }
            }
        }
        Ok(())
    }

    /// Withdraws `amount` for `user`: burns the shares `amount` buys at the current price
    /// and pays out their value, which rounding may make less than `amount` but never more.
    /// The token transfer to the user is the caller's to make.
    pub fn withdraw(&mut self, user: String, amount: i128) -> (r: Result<WithdrawEvent, VaultError>)
        ensures
            old(self).withdraw_refusal(user@, amount as int) matches Some(e) ==> r == Err::<
                WithdrawEvent,
                VaultError,
            >(e) && *final(self) == *old(self),
            old(self).withdraw_refusal(user@, amount as int) is None ==> r is Ok,
            r matches Ok(ev) ==> {
                &&& old(self).withdraw_effect(final(self), user@, amount as int)
                &&& ev.user@ == user@
                &&& ev.amount == old(self).withdraw_payout(amount as int).unwrap()
                &&& ev.shares == old(self).withdraw_burn(amount as int).unwrap()
                &&& ev.amount <= amount
            },
            old(self).shares_balanced() ==> final(self).shares_balanced(),
            old(self).principal_balanced() ==> final(self).principal_balanced(),
    {
        if let Err(e) = self.require_not_paused() {
            return Err(e);
        }
        if let Err(e) = Self::require_positive_amount(amount) {
            return Err(e);
        }
        let user_shares = self.get_shares(user.as_str());
        if user_shares <= 0 {
            return Err(VaultError::InsufficientShares);
        }
        let total_shares = self.get_total_shares_internal();
        let total_assets = self.get_total_assets_internal();
        if !(total_shares > 0 && total_assets > 0) {
            return Err(VaultError::NoAssetsToWithdraw);
        }
        let shares_to_burn = match shares_for_assets(amount, total_shares, total_assets) {
            Some(s) => s,
            None => return Err(VaultError::ArithmeticOverflow),
        };
        if shares_to_burn <= 0 {
            return Err(VaultError::ZeroSharesBurned);
        }
        if user_shares < shares_to_burn {
            return Err(VaultError::InsufficientSharesForAmount);
        }
        let payout = match assets_for_shares(shares_to_burn, total_shares, total_assets) {
            Some(a) => a,
            None => return Err(VaultError::ArithmeticOverflow),
        };
        assert(payout >= 0) by (nonlinear_arith)
            requires
                payout == (shares_to_burn * total_assets) / (total_shares as int),
                shares_to_burn > 0,
                total_assets > 0,
                total_shares > 0,
        ;
        proof {
            law_round_trip_never_pays_more(amount as int, total_shares as int, total_assets as int);
        }
        if let Err(e) = self.repay_principal(&user, payout, false) {
            return Err(e);
        }
        let ghost mid = *self;
        proof {
            if old(self).shares_balanced() {
                lemma_total_held_insert(old(self).shares@, user@, (user_shares - shares_to_burn) as i128);
            }
        }
        self.shares.insert(user.clone(), user_shares - shares_to_burn);
        self.total_shares = total_shares - shares_to_burn;
        self.total_assets = Some(total_assets - payout);
        proof {
            assert forall|u: Seq<char>| #[trigger] self.shares@.contains_key(u)
                && old(self).shares_balanced() implies self.shares@[u] >= 0 by {
                if u != user@ {
                    assert(old(self).shares@.contains_key(u));
                }
            }
            assert(self.balances@ == mid.balances@);
        }
        Ok(WithdrawEvent { user, amount: payout, shares: shares_to_burn })
    }

    /// Withdraws everything `user` holds: burns all the user's shares and pays out their
    /// value; the user's whole principal is cleared and leaves total deposits.
    /// The token transfer is the caller's to make.
    pub fn withdraw_all(&mut self, user: String) -> (r: Result<WithdrawEvent, VaultError>)
        ensures
            old(self).withdraw_all_refusal(user@) matches Some(e) ==> r == Err::<
                WithdrawEvent,
                VaultError,
            >(e) && *final(self) == *old(self),
            old(self).withdraw_all_refusal(user@) is None ==> r is Ok,
            r matches Ok(ev) ==> {
                &&& old(self).withdraw_all_effect(final(self), user@)
                &&& ev.user@ == user@
                &&& ev.amount == old(self).withdraw_all_payout(user@).unwrap()
                &&& ev.shares == old(self).shares_of(user@)
            },
            old(self).shares_balanced() ==> final(self).shares_balanced(),
            old(self).principal_balanced() ==> final(self).principal_balanced(),
    {
        if let Err(e) = self.require_not_paused() {
            return Err(e);
        }
        let user_shares = self.get_shares(user.as_str());
        if user_shares <= 0 {
            return Err(VaultError::NoSharesToWithdraw);
        }
        let total_shares = self.get_total_shares_internal();
        let total_assets = self.get_total_assets_internal();
        if !(total_shares > 0 && total_assets > 0) {
            return Err(VaultError::NoAssetsToWithdraw);
        }
        let payout = match assets_for_shares(user_shares, total_shares, total_assets) {
            Some(a) => a,
            None => return Err(VaultError::ArithmeticOverflow),
        };
        if payout <= 0 {
            return Err(VaultError::NoAssetsToReturn);
        }
        if let Err(e) = self.repay_principal(&user, payout, true) {
            return Err(e);
        }
        let ghost mid = *self;
        proof {
            if old(self).shares_balanced() {
                lemma_total_held_insert(old(self).shares@, user@, 0i128);
            }
        }
        self.shares.insert(user.clone(), 0);
        self.total_shares = total_shares - user_shares;
        self.total_assets = Some(total_assets - payout);
        proof {
            assert forall|u: Seq<char>| #[trigger] self.shares@.contains_key(u)
                && old(self).shares_balanced() implies self.shares@[u] >= 0 by {
                if u != user@ {
                    assert(old(self).shares@.contains_key(u));
                }
            }
            assert(self.balances@ == mid.balances@);
        }
        Ok(WithdrawEvent { user, amount: payout, shares: user_shares })
    }
}

} // verus!
