//! Properties of the vault as a whole: rounding always favours the vault, deposits and
//! withdrawals never lower the price of a share, a paused vault refuses user operations,
//! and the administrative steps compose as documented.
use vstd::prelude::*;
use crate::error::VaultError;
use crate::shares::{
    assets_for, div_toward_zero, lemma_floor_at_least, lemma_floor_below, mul_div, shares_for,
};
use crate::vault::NeuroWealthVault;

verus! {

/// For non-negative operands and a positive divisor, `mul_div` is the floor of `a * b / c`.
pub proof fn lemma_mul_div_floor(a: int, b: int, c: int)
    requires
        a >= 0,
        b >= 0,
        c > 0,
    ensures
        a * b >= 0,
        (a * b) / c >= 0,
        ((a * b) / c) * c <= a * b,
        div_toward_zero(a * b, c) == (a * b) / c,
        mul_div(a, b, c) is Some ==> mul_div(a, b, c) == Some((a * b) / c),
{
    assert(a * b >= 0) by (nonlinear_arith)
        requires
            a >= 0,
            b >= 0,
    ;
    lemma_floor_below(a * b, c);
    if (a * b) / c < 0 {
        assert(((a * b) / c) * c < 0) by (nonlinear_arith)
            requires
                (a * b) / c < 0,
                c > 0,
        ;
        assert(false);
    }
}

/// Redeemed value is never negative when shares and totals are not.
proof fn lemma_assets_for_non_negative(x: int, ts: int, ta: int)
    requires
        x >= 0,
        ts >= 0,
        ta >= 0,
        assets_for(x, ts, ta) is Some,
    ensures
        assets_for(x, ts, ta).unwrap() >= 0,
{
    if !(x == 0 || ts == 0 || ta == 0) {
        lemma_mul_div_floor(x, ta, ts);
    }
}

/// Floor division respects the order of ratios: if `p / q <= p2 / q2` then
/// `x * p / q <= x * p2 / q2` for every `x >= 0`, both rounded down.
proof fn lemma_floor_ratio_monotone(x: int, p: int, q: int, p2: int, q2: int)
    requires
        x >= 0,
        p >= 0,
        q > 0,
        p2 >= 0,
        q2 > 0,
        p * q2 <= p2 * q,
    ensures
        (x * p) / q <= (x * p2) / q2,
{
    lemma_mul_div_floor(x, p, q);
    let k = (x * p) / q;
    assert(k * q2 <= x * p2) by (nonlinear_arith)
        requires
            k * q <= x * p,
            k >= 0,
            x >= 0,
            q > 0,
            q2 > 0,
            p * q2 <= p2 * q,
    ;
    lemma_floor_at_least(k, x * p2, q2);
}

/// The value of `x` shares does not drop when the price `ta / ts` does not drop.
proof fn lemma_share_value_monotone(x: int, ts: int, ta: int, ts2: int, ta2: int)
    requires
        x >= 0,
        ts > 0,
        ta > 0,
        ts2 > 0,
        ta2 >= 0,
        ta * ts2 <= ta2 * ts,
        assets_for(x, ts, ta) is Some,
        assets_for(x, ts2, ta2) is Some,
    ensures
        assets_for(x, ts, ta).unwrap() <= assets_for(x, ts2, ta2).unwrap(),
{
    if x == 0 {
    } else if ta2 == 0 {
        assert(ta * ts2 > 0) by (nonlinear_arith)
            requires
                ta > 0,
                ts2 > 0,
        ;
    } else {
        lemma_mul_div_floor(x, ta, ts);
        lemma_mul_div_floor(x, ta2, ts2);
        lemma_floor_ratio_monotone(x, ta, ts, ta2, ts2);
    }
}

/// Rounding favours the vault: redeeming the shares that `assets` buy never gives back more
/// than `assets`.
pub proof fn law_round_trip_never_pays_more(assets: int, total_shares: int, total_assets: int)
    requires
        assets > 0,
        total_shares > 0,
        total_assets > 0,
        shares_for(assets, total_shares, total_assets) is Some,
        assets_for(shares_for(assets, total_shares, total_assets).unwrap(), total_shares, total_assets) is Some,
    ensures
        assets_for(shares_for(assets, total_shares, total_assets).unwrap(), total_shares, total_assets).unwrap()
            <= assets,
{
    lemma_mul_div_floor(assets, total_shares, total_assets);
    let s = (assets * total_shares) / total_assets;
    if s != 0 {
        lemma_mul_div_floor(s, total_assets, total_shares);
        let r = (s * total_assets) / total_shares;
        assert(r <= assets) by (nonlinear_arith)
            requires
                r * total_shares <= s * total_assets,
                s * total_assets <= assets * total_shares,
                total_shares > 0,
        ;
    }
}

/// A deposit never lowers the price of a share: any number of shares redeems at least as much
/// after an accepted deposit as before it.
pub proof fn law_deposit_keeps_share_value(
    before: NeuroWealthVault,
    after: NeuroWealthVault,
    user: Seq<char>,
    amount: int,
    x: int,
)
    requires
        before.deposit_refusal(user, amount) is None,
        before.deposit_effect(&after, user, amount),
        before.total_shares >= 0,
        before.assets_basis() >= 0,
        x >= 0,
        assets_for(x, before.total_shares as int, before.assets_basis()) is Some,
        assets_for(x, after.total_shares as int, after.assets_basis()) is Some,
    ensures
        assets_for(x, before.total_shares as int, before.assets_basis()).unwrap() <= assets_for(
            x,
            after.total_shares as int,
            after.assets_basis(),
        ).unwrap(),
{
    let ts = before.total_shares as int;
    let b0 = before.assets_basis();
    let s = before.deposit_minted(amount).unwrap();
    assert(after.assets_basis() == b0 + amount);
    assert(after.total_shares == ts + s);
    if ts == 0 || b0 == 0 {
        lemma_assets_for_non_negative(x, after.total_shares as int, after.assets_basis());
    } else {
        lemma_mul_div_floor(amount, ts, b0);
        assert(s * b0 <= amount * ts) by (nonlinear_arith)
            requires
                s == (amount * ts) / b0,
                ((amount * ts) / b0) * b0 <= amount * ts,
        ;
        assert(b0 * (ts + s) <= (b0 + amount) * ts) by (nonlinear_arith)
            requires
                s * b0 <= amount * ts,
                b0 > 0,
                ts > 0,
                s >= 0,
        ;
        lemma_share_value_monotone(x, ts, b0, ts + s, b0 + amount);
    }
}

/// Shares minted by a deposit redeem, right after it, at most the deposited amount; so a
/// deposit followed by a withdrawal cannot take value from the vault. (Not where the vault
/// holds assets but no shares: the first depositor then also receives those assets.)
pub proof fn law_deposit_then_redeem_never_profits(
    before: NeuroWealthVault,
    after: NeuroWealthVault,
    user: Seq<char>,
    amount: int,
)
    requires
        before.deposit_refusal(user, amount) is None,
        before.deposit_effect(&after, user, amount),
        before.total_shares > 0 || before.assets_basis() == 0,
        before.total_shares >= 0,
        before.assets_basis() >= 0,
        assets_for(
            before.deposit_minted(amount).unwrap(),
            after.total_shares as int,
            after.assets_basis(),
        ) is Some,
    ensures
        assets_for(
            before.deposit_minted(amount).unwrap(),
            after.total_shares as int,
            after.assets_basis(),
        ).unwrap() <= amount,
{
    let ts = before.total_shares as int;
    let b1 = before.assets_basis();
    let s = before.deposit_minted(amount).unwrap();
    let ts2 = ts + s;
    let ta2 = b1 + amount;
    assert(after.assets_basis() == ta2);
    assert(after.total_shares == ts2);
    if ts > 0 && b1 > 0 {
        lemma_mul_div_floor(amount, ts, b1);
        lemma_mul_div_floor(s, ta2, ts2);
        let v = (s * ta2) / ts2;
        assert(v <= amount) by (nonlinear_arith)
            requires
                v * ts2 <= s * ta2,
                s * b1 <= amount * ts,
                ts2 == ts + s,
                ta2 == b1 + amount,
                ts2 > 0,
                s > 0,
        ;
    } else {
        assert(s == amount);
        lemma_mul_div_floor(s, ta2, ts2);
        let v = (s * ta2) / ts2;
        assert(b1 == 0);
        assert(v * ts2 <= amount * ts2) by (nonlinear_arith)
            requires
                v * ts2 <= amount * amount,
                amount > 0,
                ts >= 0,
                ts2 == ts + amount,
        ;
        assert(v <= amount) by (nonlinear_arith)
            requires
                v * ts2 <= amount * ts2,
                ts2 > 0,
        ;
    }
}

/// A withdrawal never lowers the price of a share for the holders that remain.
pub proof fn law_withdraw_keeps_share_value(
    before: NeuroWealthVault,
    after: NeuroWealthVault,
    user: Seq<char>,
    amount: int,
    x: int,
)
    requires
        before.withdraw_refusal(user, amount) is None,
        before.withdraw_effect(&after, user, amount),
        after.total_shares > 0,
        x >= 0,
        assets_for(x, before.total_shares as int, before.assets_basis()) is Some,
        assets_for(x, after.total_shares as int, after.assets_basis()) is Some,
    ensures
        assets_for(x, before.total_shares as int, before.assets_basis()).unwrap() <= assets_for(
            x,
            after.total_shares as int,
            after.assets_basis(),
        ).unwrap(),
{
    let ts = before.total_shares as int;
    let b = before.assets_basis();
    let burn = before.withdraw_burn(amount).unwrap();
    let r = before.withdraw_payout(amount).unwrap();
    lemma_mul_div_floor(burn, b, ts);
    assert(after.assets_basis() == b - r);
    lemma_redeem_keeps_price(ts, b, burn, r);
    lemma_share_value_monotone(x, ts, b, ts - burn, b - r);
}

/// Burning `burn` of `ts` shares for `r <= burn * b / ts` of `b` assets leaves a price no lower.
proof fn lemma_redeem_keeps_price(ts: int, b: int, burn: int, r: int)
    requires
        ts > 0,
        b > 0,
        0 < burn < ts,
        r >= 0,
        r * ts <= burn * b,
    ensures
        b - r > 0,
        b * (ts - burn) <= (b - r) * ts,
{
    assert(b - r > 0) by (nonlinear_arith)
        requires
            r * ts <= burn * b,
            burn < ts,
            b > 0,
            ts > 0,
    ;
    assert(b * (ts - burn) <= (b - r) * ts) by (nonlinear_arith)
        requires
            r * ts <= burn * b,
    ;
}

/// A full withdrawal never lowers the price of a share for the holders that remain.
pub proof fn law_withdraw_all_keeps_share_value(
    before: NeuroWealthVault,
    after: NeuroWealthVault,
    user: Seq<char>,
    x: int,
)
    requires
        before.withdraw_all_refusal(user) is None,
        before.withdraw_all_effect(&after, user),
        after.total_shares > 0,
        x >= 0,
        assets_for(x, before.total_shares as int, before.assets_basis()) is Some,
        assets_for(x, after.total_shares as int, after.assets_basis()) is Some,
    ensures
        assets_for(x, before.total_shares as int, before.assets_basis()).unwrap() <= assets_for(
            x,
            after.total_shares as int,
            after.assets_basis(),
        ).unwrap(),
{
    let ts = before.total_shares as int;
    let b = before.assets_basis();
    let burn = before.shares_of(user);
    let r = before.withdraw_all_payout(user).unwrap();
    lemma_mul_div_floor(burn, b, ts);
    assert(after.assets_basis() == b - r);
    lemma_redeem_keeps_price(ts, b, burn, r);
    lemma_share_value_monotone(x, ts, b, ts - burn, b - r);
}

/// A paused vault refuses deposits, withdrawals and full withdrawals, whoever asks.
pub proof fn law_paused_vault_refuses_user_operations(v: NeuroWealthVault, user: Seq<char>, amount: int)
    requires
        v.paused,
    ensures
        v.deposit_refusal(user, amount) == Some(VaultError::Paused),
        v.withdraw_refusal(user, amount) == Some(VaultError::Paused),
        v.withdraw_all_refusal(user) == Some(VaultError::Paused),
{
}

/// A cap of zero is no cap: no deposit is refused for exceeding it.
pub proof fn law_zero_cap_is_no_cap(v: NeuroWealthVault, user: Seq<char>, amount: int)
    ensures
        v.user_deposit_cap == 0 ==> v.deposit_refusal(user, amount) != Some(VaultError::ExceedsUserDepositCap),
        v.tvl_cap == 0 ==> v.deposit_refusal(user, amount) != Some(VaultError::ExceedsTvlCap),
{
}

/// Unpausing undoes pausing: pausing an unpaused vault and unpausing it again gives back
/// a vault with the same settings and accounts.
pub proof fn law_unpause_undoes_pause(before: NeuroWealthVault, mid: NeuroWealthVault, after: NeuroWealthVault)
    requires
        !before.paused,
        mid.paused,
        before.only_pause_changed(&mid),
        mid.only_pause_changed(&after),
        !after.paused,
    ensures
        after.same_settings(&before),
        after.same_accounts(&before),
{
}

/// Two-step ownership transfer: once `new_owner` is proposed, exactly that account may accept,
/// and nobody may accept once nothing is pending.
pub proof fn law_only_the_proposed_owner_accepts(v: NeuroWealthVault, new_owner: Seq<char>, other: Seq<char>)
    ensures
        v.pending_owner matches Some(p) && p@ == new_owner ==> v.accept_refusal(new_owner) is None
            && (other != new_owner ==> v.accept_refusal(other) == Some(VaultError::NotPendingOwner)),
        v.pending_owner is None ==> v.accept_refusal(other) == Some(VaultError::NoPendingOwner),
{
}

/// Changes of settings (pausing, limits, agent, ownership) keep the ledgers balanced: where the
/// accounts are unchanged, all shares still belong to users and total deposits still sum the
/// users' principal.
pub proof fn law_settings_changes_keep_ledgers_balanced(before: NeuroWealthVault, after: NeuroWealthVault)
    requires
        after.same_accounts(&before),
    ensures
        before.shares_balanced() ==> after.shares_balanced(),
        before.principal_balanced() ==> after.principal_balanced(),
{
}

} // verus!
