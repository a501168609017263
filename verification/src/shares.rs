//! Share accounting: the conversion between assets and vault shares.
//!
//! `shares = assets * total_shares / total_assets` and
//! `assets = shares * total_assets / total_shares`, both rounded toward zero
//! in `i128`, with the bootstrap rules of an empty vault.
use vstd::prelude::*;
use vstd::arithmetic::div_mod::lemma_fundamental_div_mod;

verus! {

/// Whether a mathematical integer can be held in an `i128`.
pub open spec fn fits_i128(x: int) -> bool {
    i128::MIN <= x <= i128::MAX
}

/// Integer division that rounds toward zero, as `/` does on Rust's signed integers.
pub open spec fn div_toward_zero(x: int, d: int) -> int
    recommends
        d != 0,
{
    if x >= 0 && d > 0 {
        x / d
    } else if x < 0 && d < 0 {
        (-x) / (-d)
    } else if x < 0 {
        -((-x) / d)
    } else {
        -(x / (-d))
    }
}

/// `a * b / c` evaluated in `i128`: `None` where the product or the quotient does not fit,
/// or the divisor is zero.
pub open spec fn mul_div(a: int, b: int, c: int) -> Option<int> {
    if !fits_i128(a * b) || c == 0 || !fits_i128(div_toward_zero(a * b, c)) {
        None
    } else {
        Some(div_toward_zero(a * b, c))
    }
}

/// An optional `i128` read as an optional mathematical integer.
pub open spec fn opt_int(o: Option<i128>) -> Option<int> {
    match o {
        Some(v) => Some(v as int),
        None => None,
    }
}

/// Shares that `assets` buy at the price `total_assets / total_shares`.
/// An empty vault (no shares or no assets) maps assets to shares one to one.
/// `None` where the computation leaves `i128`.
pub open spec fn shares_for(assets: int, total_shares: int, total_assets: int) -> Option<int> {
    if assets == 0 {
        Some(0)
    } else if total_shares == 0 || total_assets == 0 {
        Some(assets)
    } else {
        mul_div(assets, total_shares, total_assets)
    }
}

/// Assets that `shares` redeem at the price `total_assets / total_shares`.
/// An empty vault redeems nothing. `None` where the computation leaves `i128`.
pub open spec fn assets_for(shares: int, total_shares: int, total_assets: int) -> Option<int> {
    if shares == 0 || total_shares == 0 || total_assets == 0 {
        Some(0)
    } else {
        mul_div(shares, total_assets, total_shares)
    }
}

/// `a * b / c` in `i128`, with Rust's rounding toward zero; `None` on overflow or a zero divisor.
pub fn checked_mul_div(a: i128, b: i128, c: i128) -> (r: Option<i128>)
    ensures
        opt_int(r) == mul_div(a as int, b as int, c as int),
{
    match a.checked_mul(b) {
        None => None,
        Some(p) => p.checked_div(c),
    }
}

/// Shares that `assets` buy given the vault's totals (see `shares_for`).
pub fn shares_for_assets(assets: i128, total_shares: i128, total_assets: i128) -> (r: Option<i128>)
    ensures
        opt_int(r) == shares_for(assets as int, total_shares as int, total_assets as int),
{
    if assets == 0 {
        return Some(0);
    }
    if total_shares == 0 || total_assets == 0 {
        Some(assets)
    } else {
        checked_mul_div(assets, total_shares, total_assets)
    }
}

/// Assets that `shares` redeem given the vault's totals (see `assets_for`).
pub fn assets_for_shares(shares: i128, total_shares: i128, total_assets: i128) -> (r: Option<i128>)
    ensures
        opt_int(r) == assets_for(shares as int, total_shares as int, total_assets as int),
{
    if shares == 0 {
        return Some(0);
    }
    if total_shares == 0 || total_assets == 0 {
        Some(0)
    } else {
        checked_mul_div(shares, total_assets, total_shares)
    }
}

/// Rounding down never gives more than the exact quotient: `(y / d) * d <= y`.
pub proof fn lemma_floor_below(y: int, d: int)
    requires
        d > 0,
    ensures
        (y / d) * d <= y,
        y < (y / d) * d + d,
{
    lemma_fundamental_div_mod(y, d);
    assert(0 <= y % d < d);
    assert(y / d * d == d * (y / d)) by (nonlinear_arith);
}

/// A multiple of `d` that does not exceed `y` is at most `d * (y / d)`.
pub proof fn lemma_floor_at_least(k: int, y: int, d: int)
    requires
        d > 0,
        k * d <= y,
    ensures
        k <= y / d,
{
    lemma_floor_below(y, d);
    let q = y / d;
    assert(k * d < q * d + d);
    assert(k < q + 1) by (nonlinear_arith)
        requires
            k * d < q * d + d,
            d > 0,
    ;
}

} // verus!
