use neurowealth_vault::error::VaultError;
use neurowealth_vault::shares::{assets_for_shares, checked_mul_div, shares_for_assets};
use neurowealth_vault::vault::NeuroWealthVault;

const AGENT: &str = "GAGENTAAAAAAAAAAAAAAAAAAAAAAAAAAAAAAAAAAAAAAAAAAAAAAAAAA";
const USDC: &str = "CUSDCTOKENAAAAAAAAAAAAAAAAAAAAAAAAAAAAAAAAAAAAAAAAAAAAAA";
const ALICE: &str = "GALICEAAAAAAAAAAAAAAAAAAAAAAAAAAAAAAAAAAAAAAAAAAAAAAAAAA";
const BOB: &str = "GBOBAAAAAAAAAAAAAAAAAAAAAAAAAAAAAAAAAAAAAAAAAAAAAAAAAAAA";
const CAROL: &str = "GCAROLAAAAAAAAAAAAAAAAAAAAAAAAAAAAAAAAAAAAAAAAAAAAAAAAAA";

fn fresh() -> NeuroWealthVault {
    NeuroWealthVault::initialize(None, AGENT.to_string(), USDC.to_string()).unwrap().0
}

/// Alice deposits 5 USDC, yield raises total assets to 6 USDC, Bob deposits 3 USDC.
fn with_yield() -> NeuroWealthVault {
    let mut v = fresh();
    v.deposit(ALICE.to_string(), 5_000_000).unwrap();
    v.update_total_assets(AGENT.to_string(), 6_000_000, 6_000_000).unwrap();
    v.deposit(BOB.to_string(), 3_000_000).unwrap();
    v
}

#[test]
fn initialize_twice_is_refused() {
    let v = fresh();
    assert_eq!(
        NeuroWealthVault::initialize(Some(&v), AGENT.to_string(), USDC.to_string()).err(),
        Some(VaultError::AlreadyInitialized)
    );
}

#[test]
fn initialize_sets_defaults() {
    let v = fresh();
    assert_eq!(v.get_owner(), AGENT);
    assert_eq!(v.get_tvl_cap(), 100_000_000_000);
    assert_eq!(v.get_user_deposit_cap(), 10_000_000_000);
    assert_eq!(v.get_total_assets(), 0);
    assert_eq!(v.get_pending_owner(), None);
}

#[test]
fn first_deposit_mints_one_to_one() {
    let mut v = fresh();
    let ev = v.deposit(ALICE.to_string(), 5_000_000).unwrap();
    assert_eq!(ev.user, ALICE);
    assert_eq!(ev.amount, 5_000_000);
    assert_eq!(ev.shares, 5_000_000);
    assert_eq!(v.get_shares(ALICE), 5_000_000);
    assert_eq!(v.get_balance(ALICE), Ok(5_000_000));
    assert_eq!(v.get_total_deposits(), 5_000_000);
    assert_eq!(v.get_total_assets(), 5_000_000);
}

#[test]
fn deposit_after_yield_mints_at_the_share_price() {
    let v = with_yield();
    assert_eq!(v.get_shares(BOB), 2_500_000);
    assert_eq!(v.get_total_assets(), 9_000_000);
    assert_eq!(v.get_total_deposits(), 8_000_000);
    assert_eq!(v.get_balance(ALICE), Ok(6_000_000));
    assert_eq!(v.convert_to_shares(3_000_000), Ok(2_500_000));
    assert_eq!(v.convert_to_assets(2_500_000), Ok(3_000_000));
}

#[test]
fn withdraw_rounds_in_favour_of_the_vault() {
    let mut v = with_yield();
    let ev = v.withdraw(BOB.to_string(), 1_000_000).unwrap();
    assert_eq!(ev.shares, 833_333);
    assert_eq!(ev.amount, 999_999);
    assert!(ev.amount <= 1_000_000);
    assert_eq!(v.get_shares(BOB), 2_500_000 - 833_333);
    assert_eq!(v.principal_entry(BOB), Some(2_000_001));
    assert_eq!(v.get_total_deposits(), 7_000_001);
    assert_eq!(v.get_total_assets(), 8_000_001);
}

#[test]
fn withdraw_all_burns_every_share() {
    let mut v = with_yield();
    v.withdraw(BOB.to_string(), 1_000_000).unwrap();
    let ev = v.withdraw_all(ALICE.to_string()).unwrap();
    assert_eq!(ev.amount, 6_000_000);
    assert_eq!(ev.shares, 5_000_000);
    assert_eq!(v.get_shares(ALICE), 0);
    assert_eq!(v.principal_entry(ALICE), Some(0));
    assert_eq!(v.get_total_assets(), 2_000_001);
    assert_eq!(v.get_total_deposits(), 2_000_001);
}

#[test]
fn withdraw_all_below_principal_clears_the_whole_principal_from_total_deposits() {
    let mut v = fresh();
    v.deposit(ALICE.to_string(), 5_000_000).unwrap();
    v.update_total_assets(AGENT.to_string(), 6_000_000, 6_000_000).unwrap();
    let ev = v.deposit(CAROL.to_string(), 1_000_001).unwrap();
    assert_eq!(ev.shares, 833_334);
    let out = v.withdraw_all(CAROL.to_string()).unwrap();
    assert_eq!(out.amount, 1_000_000);
    assert_eq!(v.principal_entry(CAROL), Some(0));
    assert_eq!(v.get_total_deposits(), 5_000_000);
}

#[test]
fn total_deposits_stay_the_sum_of_principals_after_a_rounded_full_withdrawal() {
    let mut v = fresh();
    v.deposit(ALICE.to_string(), 1_000_000).unwrap();
    v.update_total_assets(AGENT.to_string(), 3_000_000, 3_000_000).unwrap();
    assert_eq!(v.deposit(BOB.to_string(), 1_000_000).unwrap().shares, 333_333);
    assert_eq!(v.withdraw_all(BOB.to_string()).unwrap().amount, 999_999);
    assert_eq!(v.get_balance(BOB), Ok(0));
    assert_eq!(v.get_total_deposits(), 1_000_000);
}

#[test]
fn deposit_then_withdraw_all_never_profits() {
    let mut v = with_yield();
    let before = v.get_total_assets();
    v.deposit(CAROL.to_string(), 7_777_777).unwrap();
    let out = v.withdraw_all(CAROL.to_string()).unwrap();
    assert!(out.amount <= 7_777_777);
    assert!(v.get_total_assets() >= before);
}

#[test]
fn deposit_does_not_lower_other_holders_value() {
    let mut v = with_yield();
    let alice_before = v.get_balance(ALICE).unwrap();
    v.deposit(CAROL.to_string(), 1_234_567).unwrap();
    assert!(v.get_balance(ALICE).unwrap() >= alice_before);
    let bob_before = v.get_balance(BOB).unwrap();
    v.withdraw(CAROL.to_string(), 1_000_000).unwrap();
    assert!(v.get_balance(BOB).unwrap() >= bob_before);
}

#[test]
fn other_users_are_untouched_by_a_deposit() {
    let mut v = with_yield();
    v.deposit(CAROL.to_string(), 2_000_000).unwrap();
    assert_eq!(v.get_shares(ALICE), 5_000_000);
    assert_eq!(v.get_shares(BOB), 2_500_000);
    assert_eq!(v.principal_entry(ALICE), Some(5_000_000));
}

#[test]
fn paused_vault_refuses_user_operations_and_changes_nothing() {
    let mut v = with_yield();
    v.pause(AGENT.to_string()).unwrap();
    assert_eq!(v.deposit(ALICE.to_string(), 2_000_000).unwrap_err(), VaultError::Paused);
    assert_eq!(v.withdraw(ALICE.to_string(), 1_000_000).unwrap_err(), VaultError::Paused);
    assert_eq!(v.withdraw_all(ALICE.to_string()).unwrap_err(), VaultError::Paused);
    assert_eq!(v.get_shares(ALICE), 5_000_000);
    assert_eq!(v.get_total_assets(), 9_000_000);
    assert_eq!(v.get_balance(ALICE), Ok(6_000_000));
}

#[test]
fn unpause_undoes_pause() {
    let mut v = with_yield();
    v.pause(AGENT.to_string()).unwrap();
    v.unpause(AGENT.to_string()).unwrap();
    assert!(!v.is_paused());
    assert_eq!(v.get_total_assets(), 9_000_000);
    assert_eq!(v.deposit(CAROL.to_string(), 1_000_000).map(|e| e.amount), Ok(1_000_000));
}

#[test]
fn unpause_of_unpaused_vault_is_refused() {
    let mut v = fresh();
    assert_eq!(v.unpause(AGENT.to_string()).unwrap_err(), VaultError::NotPaused);
}

#[test]
fn user_deposit_cap_is_enforced_and_zero_removes_it() {
    let mut v = fresh();
    v.set_user_deposit_cap(2_000_000);
    v.deposit(ALICE.to_string(), 1_500_000).unwrap();
    assert_eq!(v.deposit(ALICE.to_string(), 600_000_000).unwrap_err(), VaultError::ExceedsUserDepositCap);
    v.set_user_deposit_cap(0);
    assert!(v.deposit(ALICE.to_string(), 600_000_000).is_ok());
}

#[test]
fn tvl_cap_is_enforced_and_zero_removes_it() {
    let mut v = fresh();
    v.set_tvl_cap(3_000_000);
    v.deposit(ALICE.to_string(), 2_000_000).unwrap();
    assert_eq!(v.deposit(BOB.to_string(), 1_000_001).unwrap_err(), VaultError::ExceedsTvlCap);
    v.set_tvl_cap(0);
    assert!(v.deposit(BOB.to_string(), 1_000_001).is_ok());
}

#[test]
fn deposit_minting_no_shares_is_refused() {
    let mut v = fresh();
    v.deposit(ALICE.to_string(), 1_000_000).unwrap();
    v.update_total_assets(AGENT.to_string(), 2_000_000_000_000, 2_000_000_000_000).unwrap();
    assert_eq!(v.deposit(BOB.to_string(), 1_000_000).unwrap_err(), VaultError::ZeroSharesMinted);
    assert_eq!(v.withdraw(ALICE.to_string(), 1).unwrap_err(), VaultError::ZeroSharesBurned);
}

#[test]
fn withdraw_more_than_held_is_refused() {
    let mut v = with_yield();
    assert_eq!(v.withdraw(BOB.to_string(), 4_000_000).unwrap_err(), VaultError::InsufficientSharesForAmount);
    assert_eq!(v.get_shares(BOB), 2_500_000);
}

#[test]
fn withdraw_all_without_shares_is_refused() {
    let mut v = fresh();
    assert_eq!(v.withdraw_all(ALICE.to_string()).unwrap_err(), VaultError::NoSharesToWithdraw);
}

fn restored(total_shares: i128, total_assets: Option<i128>) -> NeuroWealthVault {
    NeuroWealthVault::restore(
        AGENT.to_string(),
        USDC.to_string(),
        AGENT.to_string(),
        None,
        false,
        0,
        total_shares,
        total_assets,
        0,
        0,
        1,
    )
}

#[test]
fn withdrawal_from_a_vault_without_assets_is_refused() {
    let mut v = restored(1_000_000, Some(0));
    v.load_user(ALICE.to_string(), None, Some(1_000_000));
    assert_eq!(v.withdraw(ALICE.to_string(), 1_000_000).unwrap_err(), VaultError::NoAssetsToWithdraw);
    assert_eq!(v.withdraw_all(ALICE.to_string()).unwrap_err(), VaultError::NoAssetsToWithdraw);
}

#[test]
fn withdraw_all_of_worthless_shares_is_refused() {
    let mut v = restored(1_000_000, Some(1));
    v.load_user(ALICE.to_string(), None, Some(1));
    assert_eq!(v.withdraw_all(ALICE.to_string()).unwrap_err(), VaultError::NoAssetsToReturn);
}

#[test]
fn total_assets_fall_back_to_total_deposits() {
    let mut v = NeuroWealthVault::restore(
        AGENT.to_string(),
        USDC.to_string(),
        AGENT.to_string(),
        None,
        false,
        4_000_000,
        0,
        None,
        0,
        0,
        1,
    );
    assert_eq!(v.get_total_assets(), 4_000_000);
    let ev = v.deposit(ALICE.to_string(), 2_000_000).unwrap();
    assert_eq!(ev.shares, 2_000_000);
    assert_eq!(v.get_total_assets(), 6_000_000);
    assert_eq!(v.get_total_deposits(), 6_000_000);
}

#[test]
fn conversions_report_overflow() {
    let v = restored(2, Some(1));
    assert_eq!(v.convert_to_shares(i128::MAX), Err(VaultError::ArithmeticOverflow));
    assert_eq!(v.convert_to_assets(i128::MAX), Ok(i128::MAX / 2));
    assert_eq!(v.convert_to_shares(0), Ok(0));
}

#[test]
fn total_assets_report_checks_come_before_the_balance() {
    let v = with_yield();
    assert_eq!(v.check_total_assets_report(&ALICE.to_string(), 10_000_000), Err(VaultError::NotAgent));
    assert_eq!(v.check_total_assets_report(&AGENT.to_string(), 8_999_999), Err(VaultError::TotalAssetsDecrease));
    assert_eq!(v.check_total_assets_report(&AGENT.to_string(), 9_000_000), Ok(()));
}

#[test]
fn share_math_exact_values() {
    assert_eq!(shares_for_assets(3_000_000, 5_000_000, 6_000_000), Some(2_500_000));
    assert_eq!(shares_for_assets(7, 0, 100), Some(7));
    assert_eq!(shares_for_assets(7, 100, 0), Some(7));
    assert_eq!(assets_for_shares(7, 0, 100), Some(0));
    assert_eq!(assets_for_shares(833_333, 7_500_000, 9_000_000), Some(999_999));
    assert_eq!(shares_for_assets(-10, 3, 2), Some(-15));
    assert_eq!(checked_mul_div(-7, 1, 2), Some(-3));
    assert_eq!(checked_mul_div(7, 1, -2), Some(-3));
    assert_eq!(checked_mul_div(i128::MIN, 1, -1), None);
    assert_eq!(checked_mul_div(1, 1, 0), None);
}

#[test]
fn round_trip_never_pays_more_on_samples() {
    for &(a, ts, ta) in &[(1_000_001i128, 5_000_000i128, 6_000_000i128), (999_999, 7, 3), (12_345, 3, 7)] {
        let s = shares_for_assets(a, ts, ta).unwrap();
        let back = assets_for_shares(s, ts, ta).unwrap();
        assert!(back <= a);
    }
}

#[test]
fn only_the_agent_reports_total_assets_and_never_downward() {
    let mut v = with_yield();
    assert_eq!(v.update_total_assets(ALICE.to_string(), 10_000_000, 10_000_000).unwrap_err(), VaultError::NotAgent);
    assert_eq!(v.update_total_assets(AGENT.to_string(), 8_000_000, 10_000_000).unwrap_err(), VaultError::TotalAssetsDecrease);
    assert_eq!(
        v.update_total_assets(AGENT.to_string(), 10_000_000, 9_999_999).unwrap_err(),
        VaultError::InsufficientVaultBalance
    );
    let ev = v.update_total_assets(AGENT.to_string(), 10_000_000, 10_000_000).unwrap();
    assert_eq!(ev.old_total, 9_000_000);
    assert_eq!(v.get_total_assets(), 10_000_000);
}

#[test]
fn two_step_ownership_transfer() {
    let mut v = fresh();
    assert_eq!(v.accept_ownership(BOB.to_string()).unwrap_err(), VaultError::NoPendingOwner);
    let ev = v.transfer_ownership(BOB.to_string());
    assert_eq!(ev.current_owner, AGENT);
    assert_eq!(ev.pending_owner, BOB);
    assert_eq!(v.get_pending_owner(), Some(BOB.to_string()));
    assert_eq!(v.accept_ownership(CAROL.to_string()).unwrap_err(), VaultError::NotPendingOwner);
    let done = v.accept_ownership(BOB.to_string()).unwrap();
    assert_eq!(done.old_owner, AGENT);
    assert_eq!(done.new_owner, BOB);
    assert_eq!(v.get_owner(), BOB);
    assert_eq!(v.get_pending_owner(), None);
    assert_eq!(v.pause(AGENT.to_string()).unwrap_err(), VaultError::NotOwner);
    v.pause(BOB.to_string()).unwrap();
}

#[test]
fn cancelled_transfer_cannot_be_accepted() {
    let mut v = fresh();
    assert_eq!(v.cancel_ownership_transfer().unwrap_err(), VaultError::NoPendingOwner);
    v.transfer_ownership(BOB.to_string());
    let ev = v.cancel_ownership_transfer().unwrap();
    assert_eq!(ev.owner, AGENT);
    assert_eq!(ev.cancelled_pending, BOB);
    assert_eq!(v.accept_ownership(BOB.to_string()).unwrap_err(), VaultError::NoPendingOwner);
    assert_eq!(v.get_owner(), AGENT);
}

#[test]
fn helpers_check_amounts() {
    assert_eq!(NeuroWealthVault::require_positive_amount(1), Ok(()));
    assert_eq!(NeuroWealthVault::require_positive_amount(0), Err(VaultError::NonPositiveAmount));
    assert_eq!(NeuroWealthVault::require_positive_amount(-5), Err(VaultError::NonPositiveAmount));
    assert_eq!(NeuroWealthVault::require_minimum_deposit(1_000_000), Ok(()));
    assert_eq!(NeuroWealthVault::require_minimum_deposit(999_999), Err(VaultError::BelowMinimumDeposit));
}

#[test]
fn load_user_and_entries_round_trip() {
    let mut v = restored(10, Some(10));
    v.load_user(ALICE.to_string(), Some(4), Some(10));
    assert_eq!(v.principal_entry(ALICE), Some(4));
    assert_eq!(v.shares_entry(ALICE), Some(10));
    assert_eq!(v.shares_entry(BOB), None);
    assert_eq!(v.get_balance(ALICE), Ok(10));
}
