//! What each operation owes its callers, stated directly over the vault's fields and plain
//! arithmetic: when a request must be accepted, when it must be refused, and what it pays.
use vstd::prelude::*;
use vstd::arithmetic::div_mod::lemma_div_by_multiple;
use crate::error::VaultError;
use crate::laws::lemma_mul_div_floor;
use crate::ledger::lemma_held_within_total;
use crate::shares::fits_i128;
use crate::vault::{NeuroWealthVault, MIN_DEPOSIT};

verus! {

/// An accepted deposit respects every limit: the vault is not paused, the amount is at least
/// the minimum, a positive per-user cap still covers the user's principal plus the amount,
/// and a positive TVL cap still covers total deposits plus the amount. Conversely, where all
/// earlier checks pass, a deposit that would take the user's principal above a positive
/// per-user cap is refused with `ExceedsUserDepositCap`.
pub proof fn law_deposit_respects_limits(v: NeuroWealthVault, user: Seq<char>, amount: int)
    ensures
        v.deposit_refusal(user, amount) is None ==> {
            &&& !v.paused
            &&& amount >= MIN_DEPOSIT
            &&& (v.user_deposit_cap > 0 ==> v.principal_of(user) + amount <= v.user_deposit_cap)
            &&& (v.tvl_cap > 0 ==> v.total_deposits + amount <= v.tvl_cap)
        },
        !v.paused && amount >= MIN_DEPOSIT && v.user_deposit_cap > 0 && fits_i128(
            v.principal_of(user) + amount,
        ) && v.principal_of(user) + amount > v.user_deposit_cap ==> v.deposit_refusal(user, amount)
            == Some(VaultError::ExceedsUserDepositCap),
{
}

/// After an accepted deposit the user's principal is the old principal plus the amount, and
/// so never above a positive per-user cap.
pub proof fn law_accepted_deposit_stays_under_user_cap(
    before: NeuroWealthVault,
    after: NeuroWealthVault,
    user: Seq<char>,
    amount: int,
)
    requires
        before.deposit_refusal(user, amount) is None,
        before.deposit_effect(&after, user, amount),
    ensures
        after.principal_of(user) == before.principal_of(user) + amount,
        before.user_deposit_cap > 0 ==> after.principal_of(user) <= before.user_deposit_cap,
        after.user_deposit_cap == before.user_deposit_cap,
{
}

/// A withdrawal is accepted whenever the vault is not paused, the amount is positive, the
/// vault holds shares and assets, and the shares the amount buys at the current price
/// (`amount * total_shares / total_assets`, rounded down) are positive and at most the user's
/// shares. It burns exactly those shares and pays their value, rounded down.
pub proof fn law_withdraw_within_holdings_is_accepted(v: NeuroWealthVault, user: Seq<char>, amount: int)
    requires
        v.principal_balanced(),
        !v.paused,
        amount > 0,
        v.total_shares > 0,
        v.assets_basis() > 0,
        fits_i128(amount * v.total_shares),
        0 < (amount * v.total_shares) / v.assets_basis() <= v.shares_of(user),
        fits_i128(((amount * v.total_shares) / v.assets_basis()) * v.assets_basis()),
    ensures
        v.withdraw_refusal(user, amount) is None,
        v.withdraw_burn(amount) == Some((amount * v.total_shares) / v.assets_basis()),
        v.withdraw_payout(amount) == Some(
            (((amount * v.total_shares) / v.assets_basis()) * v.assets_basis()) / (v.total_shares as int),
        ),
{
    let ts = v.total_shares as int;
    let ta = v.assets_basis();
    lemma_mul_div_floor(amount, ts, ta);
    let b = (amount * ts) / ta;
    lemma_mul_div_floor(b, ta, ts);
    let r = (b * ta) / ts;
    assert((b * ta) / ts <= i128::MAX) by (nonlinear_arith)
        requires
            b * ta <= i128::MAX,
            b * ta >= 0,
            ((b * ta) / ts) * ts <= b * ta,
            ts > 0,
            (b * ta) / ts >= 0,
    ;
    lemma_held_within_total(v.balances@, user);
}

/// In a vault without yield (total assets equal total shares), withdrawing any positive amount
/// up to one's shares is accepted, burns exactly that many shares and pays it back in full.
pub proof fn law_withdraw_without_yield_pays_back_in_full(v: NeuroWealthVault, user: Seq<char>, amount: int)
    requires
        v.principal_balanced(),
        !v.paused,
        v.total_shares > 0,
        v.assets_basis() == v.total_shares,
        0 < amount <= v.shares_of(user),
        fits_i128(amount * v.total_shares),
    ensures
        v.withdraw_refusal(user, amount) is None,
        v.withdraw_burn(amount) == Some(amount),
        v.withdraw_payout(amount) == Some(amount),
{
    let ts = v.total_shares as int;
    lemma_div_by_multiple(amount, ts);
    law_withdraw_within_holdings_is_accepted(v, user, amount);
}

/// A full withdrawal is accepted whenever the vault is not paused, holds shares and assets,
/// and the user's shares are positive and worth something (`shares * total_assets / total_shares`,
/// rounded down, positive) — whatever part of the vault the user holds, all of it included.
/// It pays exactly that value.
pub proof fn law_withdraw_all_is_accepted(v: NeuroWealthVault, user: Seq<char>)
    requires
        v.principal_balanced(),
        !v.paused,
        v.shares_of(user) > 0,
        v.total_shares > 0,
        v.assets_basis() > 0,
        fits_i128(v.shares_of(user) * v.assets_basis()),
        (v.shares_of(user) * v.assets_basis()) / (v.total_shares as int) > 0,
    ensures
        v.withdraw_all_refusal(user) is None,
        v.withdraw_all_payout(user) == Some(
            (v.shares_of(user) * v.assets_basis()) / (v.total_shares as int),
        ),
{
    let ts = v.total_shares as int;
    let ta = v.assets_basis();
    let us = v.shares_of(user);
    lemma_mul_div_floor(us, ta, ts);
    assert((us * ta) / ts <= i128::MAX) by (nonlinear_arith)
        requires
            us * ta <= i128::MAX,
            ((us * ta) / ts) * ts <= us * ta,
            ts > 0,
            (us * ta) / ts >= 0,
    ;
    lemma_held_within_total(v.balances@, user);
}

/// The agent's report of a total not below the current total assets and covered by the vault's
/// token balance is accepted; a report is refused as a decrease only where the new total is
/// strictly below the current total assets.
pub proof fn law_total_assets_report_accepted(v: NeuroWealthVault, agent: Seq<char>, new_total: int, vault_balance: int)
    ensures
        agent == v.agent@ && new_total >= v.assets_basis() && vault_balance >= new_total
            ==> v.update_total_assets_refusal(agent, new_total, vault_balance) is None,
        v.update_total_assets_refusal(agent, new_total, vault_balance) == Some(
            VaultError::TotalAssetsDecrease,
        ) ==> new_total < v.assets_basis(),
{
}

/// Pausing (and emergency pausing) is refused exactly for callers other than the owner: the
/// owner may pause whether or not the vault is already paused. The owner may unpause a
/// paused vault.
pub proof fn law_owner_may_always_pause(v: NeuroWealthVault, caller: Seq<char>)
    ensures
        v.pause_refusal(caller) is None <==> caller == v.owner@,
        caller != v.owner@ ==> v.pause_refusal(caller) == Some(VaultError::NotOwner),
        caller == v.owner@ && v.paused ==> v.unpause_refusal(caller) is None,
{
}

/// A positive TVL cap refuses, where all earlier checks pass, a deposit that would take total
/// deposits above it; neither cap refuses a deposit that stays within it.
pub proof fn law_deposit_tvl_cap(v: NeuroWealthVault, user: Seq<char>, amount: int)
    ensures
        !v.paused && amount >= MIN_DEPOSIT && (v.user_deposit_cap > 0 ==> fits_i128(
            v.principal_of(user) + amount,
        ) && v.principal_of(user) + amount <= v.user_deposit_cap) && v.tvl_cap > 0 && fits_i128(
            v.total_deposits + amount,
        ) && v.total_deposits + amount > v.tvl_cap ==> v.deposit_refusal(user, amount) == Some(
            VaultError::ExceedsTvlCap,
        ),
        v.deposit_refusal(user, amount) != Some(VaultError::ExceedsUserDepositCap) || (
        v.user_deposit_cap > 0 && v.principal_of(user) + amount > v.user_deposit_cap),
        v.deposit_refusal(user, amount) != Some(VaultError::ExceedsTvlCap) || (v.tvl_cap > 0
            && v.total_deposits + amount > v.tvl_cap),
{
}

/// Shares a deposit of `amount` buys at the vault's price, written out: `amount * total_shares /
/// total_assets` rounded down, or `amount` itself in an empty vault (no shares or no assets).
pub open spec fn shares_at_price(v: NeuroWealthVault, amount: int) -> int {
    if v.total_shares == 0 || v.assets_basis() == 0 {
        amount
    } else {
        (amount * v.total_shares) / v.assets_basis()
    }
}

/// A deposit within the limits is accepted and mints shares at the current price
/// (`shares_at_price`), provided that is positive and the totals stay within `i128`.
pub proof fn law_deposit_within_limits_is_accepted(v: NeuroWealthVault, user: Seq<char>, amount: int)
    requires
        v.total_shares >= 0,
        v.assets_basis() >= 0,
        !v.paused,
        amount >= MIN_DEPOSIT,
        v.user_deposit_cap > 0 ==> v.principal_of(user) + amount <= v.user_deposit_cap,
        v.tvl_cap > 0 ==> v.total_deposits + amount <= v.tvl_cap,
        fits_i128(v.principal_of(user) + amount),
        fits_i128(v.total_deposits + amount),
        fits_i128(amount * v.total_shares),
        shares_at_price(v, amount) > 0,
        fits_i128(v.shares_of(user) + shares_at_price(v, amount)),
        fits_i128(v.total_shares + shares_at_price(v, amount)),
        fits_i128(v.assets_basis() + amount),
    ensures
        v.deposit_refusal(user, amount) is None,
        v.deposit_minted(amount) == Some(shares_at_price(v, amount)),
{
    let ts = v.total_shares as int;
    let ta = v.assets_basis();
    if ts != 0 && ta != 0 {
        lemma_mul_div_floor(amount, ts, ta);
        let m = (amount * ts) / ta;
        assert(m <= amount * ts) by (nonlinear_arith)
            requires
                m * ta <= amount * ts,
                m >= 0,
                ta >= 1,
        ;
    }
}

/// A withdrawal is refused, where the earlier checks pass, when the shares the amount buys
/// exceed the user's shares; every withdrawal refused as `InsufficientSharesForAmount` needs
/// more shares than the user holds.
pub proof fn law_withdraw_beyond_holdings_is_refused(v: NeuroWealthVault, user: Seq<char>, amount: int)
    ensures
        v.withdraw_refusal(user, amount) == Some(VaultError::InsufficientSharesForAmount) ==> (
        v.withdraw_burn(amount) matches Some(b) && b > v.shares_of(user)),
        !v.paused && amount > 0 && v.shares_of(user) > 0 && v.total_shares > 0 && v.assets_basis() > 0
            && fits_i128(amount * v.total_shares) && (amount * v.total_shares) / v.assets_basis()
            > v.shares_of(user) ==> v.withdraw_refusal(user, amount) == Some(
            VaultError::InsufficientSharesForAmount,
        ),
{
    let ts = v.total_shares as int;
    let ta = v.assets_basis();
    if !v.paused && amount > 0 && v.shares_of(user) > 0 && ts > 0 && ta > 0 && fits_i128(amount * ts) {
        lemma_mul_div_floor(amount, ts, ta);
        let b = (amount * ts) / ta;
        assert(b <= amount * ts) by (nonlinear_arith)
            requires
                b * ta <= amount * ts,
                b >= 0,
                ta >= 1,
        ;
    }
}

/// Only the agent's reports are accepted, and the vault's token balance must cover the new total.
pub proof fn law_total_assets_report_refusals(v: NeuroWealthVault, agent: Seq<char>, new_total: int, vault_balance: int)
    ensures
        agent != v.agent@ ==> v.update_total_assets_refusal(agent, new_total, vault_balance) == Some(
            VaultError::NotAgent,
        ),
        agent == v.agent@ && new_total >= v.assets_basis() && vault_balance < new_total
            ==> v.update_total_assets_refusal(agent, new_total, vault_balance) == Some(
            VaultError::InsufficientVaultBalance,
        ),
        v.update_total_assets_refusal(agent, new_total, vault_balance) is None ==> agent == v.agent@
            && v.assets_basis() <= new_total <= vault_balance,
{
}

/// Unpausing is accepted exactly for the owner on a paused vault.
pub proof fn law_unpause_rules(v: NeuroWealthVault, caller: Seq<char>)
    ensures
        v.unpause_refusal(caller) is None <==> caller == v.owner@ && v.paused,
        caller == v.owner@ && !v.paused ==> v.unpause_refusal(caller) == Some(VaultError::NotPaused),
        caller != v.owner@ ==> v.unpause_refusal(caller) == Some(VaultError::NotOwner),
{
}

} // verus!
