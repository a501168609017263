use neurowealth_vault::error::VaultError;
use neurowealth_vault::vault::NeuroWealthVault;

const AGENT: &str = "GAGENTAAAAAAAAAAAAAAAAAAAAAAAAAAAAAAAAAAAAAAAAAAAAAAAAAA";
const USDC: &str = "CUSDCTOKENAAAAAAAAAAAAAAAAAAAAAAAAAAAAAAAAAAAAAAAAAAAAAA";
const USER: &str = "GUSERAAAAAAAAAAAAAAAAAAAAAAAAAAAAAAAAAAAAAAAAAAAAAAAAAAA";
const NEW_AGENT: &str = "GNEWAGENTAAAAAAAAAAAAAAAAAAAAAAAAAAAAAAAAAAAAAAAAAAAAAAA";
const NON_OWNER: &str = "GNONOWNERAAAAAAAAAAAAAAAAAAAAAAAAAAAAAAAAAAAAAAAAAAAAAAA";

/// A freshly initialized vault; the agent is also the owner.
fn setup_vault() -> (NeuroWealthVault, String, String) {
    let (vault, _) = NeuroWealthVault::initialize(None, AGENT.to_string(), USDC.to_string()).unwrap();
    (vault, AGENT.to_string(), AGENT.to_string())
}

#[test]
fn test_vault_initialization() {
    let (vault, _) = NeuroWealthVault::initialize(None, AGENT.to_string(), USDC.to_string()).unwrap();
    assert_eq!(vault.get_agent(), AGENT);
    assert_eq!(vault.get_usdc_token(), USDC);
    assert_eq!(vault.get_total_deposits(), 0);
    assert!(!vault.is_paused());
}

#[test]
fn test_pause_and_unpause() {
    let (mut vault, _agent, owner) = setup_vault();
    assert!(!vault.is_paused());
    vault.pause(owner.clone()).unwrap();
    assert!(vault.is_paused());
    vault.unpause(owner).unwrap();
    assert!(!vault.is_paused());
}

#[test]
fn test_emergency_pause() {
    let (mut vault, _agent, owner) = setup_vault();
    assert!(!vault.is_paused());
    vault.emergency_pause(owner).unwrap();
    assert!(vault.is_paused());
}

#[test]
fn test_set_limits() {
    let (mut vault, _agent, _owner) = setup_vault();
    let new_min = 20_000_000_000_i128;
    let new_max = 200_000_000_000_i128;
    vault.set_limits(new_min, new_max);
    assert_eq!(vault.get_user_deposit_cap(), new_min);
    assert_eq!(vault.get_tvl_cap(), new_max);
}

#[test]
fn test_set_tvl_cap() {
    let (mut vault, _agent, _owner) = setup_vault();
    let new_max = 150_000_000_000_i128;
    vault.set_tvl_cap(new_max);
    assert_eq!(vault.get_tvl_cap(), new_max);
}

#[test]
fn test_set_user_deposit_cap() {
    let (mut vault, _agent, _owner) = setup_vault();
    let new_min = 15_000_000_000_i128;
    vault.set_user_deposit_cap(new_min);
    assert_eq!(vault.get_user_deposit_cap(), new_min);
}

#[test]
fn test_update_agent() {
    let (mut vault, old_agent, _owner) = setup_vault();
    vault.update_agent(NEW_AGENT.to_string());
    assert_eq!(vault.get_agent(), NEW_AGENT);
    assert_ne!(vault.get_agent(), old_agent);
}

#[test]
fn test_update_total_assets() {
    let (vault, _agent, _owner) = setup_vault();
    assert_eq!(vault.get_total_assets(), 0);
}

#[test]
fn test_get_balance() {
    let (vault, _agent, _owner) = setup_vault();
    assert_eq!(vault.get_balance(USER), Ok(0));
}

#[test]
fn test_get_version() {
    let (vault, _agent, _owner) = setup_vault();
    assert_eq!(vault.get_version(), 1);
}

#[test]
fn test_withdraw_checks_effects_interactions_pattern() {
    let (vault, _) = NeuroWealthVault::initialize(None, AGENT.to_string(), USDC.to_string()).unwrap();
    assert_eq!(vault.get_balance(USER), Ok(0));
    assert_eq!(vault.get_total_deposits(), 0);
}

#[test]
fn test_withdraw_fails_when_paused() {
    let (mut vault, _agent, owner) = setup_vault();
    vault.pause(owner).unwrap();
    assert_eq!(vault.withdraw(USER.to_string(), 1_000_000).unwrap_err(), VaultError::Paused);
}

#[test]
fn test_withdraw_rejects_zero_amount() {
    let (mut vault, _agent, _owner) = setup_vault();
    assert_eq!(vault.withdraw(USER.to_string(), 0).unwrap_err(), VaultError::NonPositiveAmount);
}

#[test]
fn test_withdraw_fails_insufficient_balance() {
    let (mut vault, _agent, _owner) = setup_vault();
    assert_eq!(vault.withdraw(USER.to_string(), 1_000_000).unwrap_err(), VaultError::InsufficientShares);
}

#[test]
fn test_withdraw_reentrancy_protection() {
    let (vault, _) = NeuroWealthVault::initialize(None, AGENT.to_string(), USDC.to_string()).unwrap();
    assert_eq!(vault.get_total_deposits(), 0);
}

#[test]
fn test_deposit_fails_when_paused() {
    let (mut vault, _agent, owner) = setup_vault();
    vault.pause(owner).unwrap();
    assert_eq!(vault.deposit(USER.to_string(), 1_000_000).unwrap_err(), VaultError::Paused);
}

#[test]
fn test_deposit_rejects_zero_amount() {
    let (mut vault, _agent, _owner) = setup_vault();
    assert_eq!(vault.deposit(USER.to_string(), 0).unwrap_err(), VaultError::NonPositiveAmount);
}

#[test]
fn test_deposit_enforces_minimum() {
    let (mut vault, _agent, _owner) = setup_vault();
    assert_eq!(vault.deposit(USER.to_string(), 999_999).unwrap_err(), VaultError::BelowMinimumDeposit);
}

#[test]
fn test_rebalance_basic() {
    let (vault, _agent, _owner) = setup_vault();
    let ev = vault.rebalance("balanced".to_string(), 850).unwrap();
    assert_eq!(ev.protocol, "balanced");
    assert_eq!(ev.expected_apy, 850);
}

#[test]
fn test_vault_initialized_event() {
    let (_, ev) = NeuroWealthVault::initialize(None, AGENT.to_string(), USDC.to_string()).unwrap();
    assert_eq!(ev.agent, AGENT);
    assert_eq!(ev.usdc_token, USDC);
    assert_eq!(ev.tvl_cap, 100_000_000_000);
}

#[test]
fn test_vault_paused_event() {
    let (mut vault, _agent, owner) = setup_vault();
    let ev = vault.pause(owner.clone()).unwrap();
    assert_eq!(ev.owner, owner);
}

#[test]
fn test_vault_unpaused_event() {
    let (mut vault, _agent, owner) = setup_vault();
    vault.pause(owner.clone()).unwrap();
    let ev = vault.unpause(owner.clone()).unwrap();
    assert_eq!(ev.owner, owner);
}

#[test]
fn test_emergency_paused_event() {
    let (mut vault, _agent, owner) = setup_vault();
    let ev = vault.emergency_pause(owner.clone()).unwrap();
    assert_eq!(ev.owner, owner);
}

#[test]
fn test_limits_updated_event() {
    let (mut vault, _agent, _owner) = setup_vault();
    let old_min = 10_000_000_000_i128;
    let old_max = 100_000_000_000_i128;
    let new_min = 20_000_000_000_i128;
    let new_max = 200_000_000_000_i128;
    let ev = vault.set_limits(new_min, new_max);
    assert_eq!(ev.old_min, old_min);
    assert_eq!(ev.new_min, new_min);
    assert_eq!(ev.old_max, old_max);
    assert_eq!(ev.new_max, new_max);
}

#[test]
fn test_limits_updated_event_from_set_tvl_cap() {
    let (mut vault, _agent, _owner) = setup_vault();
    let old_max = 100_000_000_000_i128;
    let new_max = 150_000_000_000_i128;
    let ev = vault.set_tvl_cap(new_max);
    assert_eq!(ev.old_max, old_max);
    assert_eq!(ev.new_max, new_max);
    assert_eq!(ev.old_min, 10_000_000_000);
    assert_eq!(ev.new_min, 10_000_000_000);
}

#[test]
fn test_limits_updated_event_from_set_user_deposit_cap() {
    let (mut vault, _agent, _owner) = setup_vault();
    let old_min = 10_000_000_000_i128;
    let new_min = 15_000_000_000_i128;
    let ev = vault.set_user_deposit_cap(new_min);
    assert_eq!(ev.old_min, old_min);
    assert_eq!(ev.new_min, new_min);
    assert_eq!(ev.old_max, 100_000_000_000);
    assert_eq!(ev.new_max, 100_000_000_000);
}

#[test]
fn test_agent_updated_event() {
    let (mut vault, old_agent, _owner) = setup_vault();
    let ev = vault.update_agent(NEW_AGENT.to_string());
    assert_eq!(ev.old_agent, old_agent);
    assert_eq!(ev.new_agent, NEW_AGENT);
}

#[test]
fn test_assets_updated_event() {
    let (mut vault, agent, _owner) = setup_vault();
    let old_total = 0_i128;
    let new_total = 50_000_000_000_i128;
    let ev = vault.update_total_assets(agent, new_total, new_total).unwrap();
    assert_eq!(ev.old_total, old_total);
    assert_eq!(ev.new_total, new_total);
}

#[test]
fn test_rebalance_event() {
    let (vault, _agent, _owner) = setup_vault();
    let ev = vault.rebalance("balanced".to_string(), 850).unwrap();
    assert_eq!(ev.protocol, "balanced");
    assert_eq!(ev.expected_apy, 850);
}

#[test]
fn test_deposit_and_withdraw_events() {
    let (vault, _) = NeuroWealthVault::initialize(None, AGENT.to_string(), USDC.to_string()).unwrap();
    let _deposit_amount = 1_000_000_i128;
    assert_eq!(vault.get_balance(USER), Ok(0));
}

#[test]
fn test_pause_and_unpause_events() {
    let (mut vault, _agent, owner) = setup_vault();
    assert!(!vault.is_paused());
    vault.pause(owner.clone()).unwrap();
    assert!(vault.is_paused());
    vault.unpause(owner).unwrap();
    assert!(!vault.is_paused());
}

#[test]
fn test_pause_by_non_owner_fails() {
    let (mut vault, _) = NeuroWealthVault::initialize(None, AGENT.to_string(), USDC.to_string()).unwrap();
    assert!(!vault.is_paused(), "Vault should start unpaused");
    assert_eq!(vault.pause(NON_OWNER.to_string()).unwrap_err(), VaultError::NotOwner);
    assert!(!vault.is_paused());
}

#[test]
fn test_rebalance_while_paused() {
    let (mut vault, _agent, owner) = setup_vault();
    vault.pause(owner).unwrap();
    assert!(vault.is_paused());
    assert_eq!(vault.rebalance("balanced".to_string(), 850).unwrap_err(), VaultError::Paused);
    assert!(vault.is_paused());
}

#[test]
fn test_agent_can_trigger_emergency_pause() {
    let (mut vault, _) = NeuroWealthVault::initialize(None, AGENT.to_string(), USDC.to_string()).unwrap();
    vault.emergency_pause(AGENT.to_string()).unwrap();
    assert!(vault.is_paused());
}

#[test]
fn test_only_owner_can_unpause() {
    let (mut vault, _) = NeuroWealthVault::initialize(None, AGENT.to_string(), USDC.to_string()).unwrap();
    vault.pause(AGENT.to_string()).unwrap();
    assert!(vault.is_paused());
    assert_eq!(vault.unpause(NON_OWNER.to_string()).unwrap_err(), VaultError::NotOwner);
    assert!(vault.is_paused());
    vault.unpause(AGENT.to_string()).unwrap();
    assert!(!vault.is_paused());
}
