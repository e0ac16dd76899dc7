//! Scenario tests of yield farming on timestamp deposits.

use safe_haven::address::Address;
use safe_haven::constants::{FARMING_RISK_LEVEL, MAX_FARMING_PROPORTION_BPS, MIN_FARMING_AMOUNT};
use safe_haven::errors::VaultError;
use safe_haven::types::{FarmingState, FarmingStrategy, LedgerInfo, Transfer};
use safe_haven::vault::SafeHaven;
use safe_haven::yield_farming::{
    add_farming_protocol, calculate_farming_rewards, claim_farming_rewards, disable_farming,
    enable_yield_farming, get_farming_info, initialize_farming_config,
};

struct Env {
    vault: SafeHaven,
    ledger: LedgerInfo,
}

const ADMIN: Address = Address { id: 1 };
const DEPOSITOR: Address = Address { id: 2 };
const TOKEN: Address = Address { id: 3 };
const PROTOCOL: Address = Address { id: 4 };

/// An initialized vault (admin also fee recipient, maximum deposit 10^15,
/// maximum lock five years) and its clock at zero.
fn setup() -> Env {
    let mut vault = SafeHaven::new();
    vault.initialize(ADMIN, ADMIN, Some(1_000_000_000_000_000), Some(157_788_000)).unwrap();
    Env { vault, ledger: LedgerInfo { timestamp: 0, sequence: 0 } }
}

impl Env {
    fn advance_time(&mut self, seconds: u64) {
        self.ledger.timestamp += seconds;
    }

    fn deposit(&mut self, amount: i128, unlock_time: u64) -> u32 {
        let mut t: Vec<Transfer> = Vec::new();
        self.vault.deposit(self.ledger, DEPOSITOR, TOKEN, amount, unlock_time, 0, &mut t).unwrap()
    }

    fn enable(&mut self, id: u32, strategy: FarmingStrategy, protocol: Address) -> Result<(), VaultError> {
        enable_yield_farming(&mut self.vault, self.ledger, DEPOSITOR, id, strategy, protocol)
    }

    fn claim(&mut self, id: u32) -> Result<i128, VaultError> {
        claim_farming_rewards(&mut self.vault, self.ledger, DEPOSITOR, id)
    }

    fn disable(&mut self, id: u32) -> Result<(i128, i128), VaultError> {
        disable_farming(&mut self.vault, self.ledger, DEPOSITOR, id)
    }

    fn info(&self, id: u32) -> Result<(bool, i128, i128), VaultError> {
        get_farming_info(&self.vault, self.ledger, DEPOSITOR, id)
    }

    fn total_rewards_claimed(&self) -> i128 {
        *self.vault.farming_rewards_claimed.get(&DEPOSITOR.id).unwrap_or(&0)
    }
}

/// A vault with farming configured and `PROTOCOL` approved.
fn farming_setup() -> Env {
    let mut env = setup();
    initialize_farming_config(&mut env.vault, ADMIN).unwrap();
    add_farming_protocol(&mut env.vault, ADMIN, PROTOCOL).unwrap();
    env
}

#[test]
fn test_init_yield_farming_success() {
    let mut env = setup();
    let result = initialize_farming_config(&mut env.vault, ADMIN);
    assert!(result.is_ok());
    let cfg = env.vault.farming_config.as_ref().expect("config should exist");
    assert!(cfg.enabled);
    assert_eq!(cfg.min_farming_amount, MIN_FARMING_AMOUNT);
    assert_eq!(cfg.max_farming_proportion_bps, MAX_FARMING_PROPORTION_BPS);
    assert_eq!(cfg.risk_level, FARMING_RISK_LEVEL);
}

#[test]
fn test_add_farming_protocol_success() {
    let mut env = setup();
    initialize_farming_config(&mut env.vault, ADMIN).unwrap();
    assert!(add_farming_protocol(&mut env.vault, ADMIN, PROTOCOL).is_ok());
    assert_eq!(env.vault.farming_config.as_ref().unwrap().approved_protocols.len(), 1);
}

#[test]
fn test_add_farming_protocol_duplicate_rejected() {
    let mut env = farming_setup();
    assert!(add_farming_protocol(&mut env.vault, ADMIN, PROTOCOL).is_err());
}

#[test]
fn test_enable_farming_success() {
    let mut env = farming_setup();
    let deposit_id = env.deposit(100_000_000, 86400);
    assert!(env.enable(deposit_id, FarmingStrategy::DirectStaking, PROTOCOL).is_ok());
    let (enabled, deployed, rewards) = env.info(deposit_id).unwrap();
    assert!(enabled);
    assert_eq!(deployed, 90_000_000);
    assert_eq!(rewards, 0);
}

#[test]
fn test_enable_farming_below_minimum_fails() {
    let mut env = farming_setup();
    let deposit_id = env.deposit(100, 86400);
    assert!(env.enable(deposit_id, FarmingStrategy::DirectStaking, PROTOCOL).is_err());
}

#[test]
fn test_enable_farming_unapproved_protocol_fails() {
    let mut env = setup();
    initialize_farming_config(&mut env.vault, ADMIN).unwrap();
    let deposit_id = env.deposit(100_000_000, 86400);
    let unapproved_protocol = Address::new(99);
    assert!(env.enable(deposit_id, FarmingStrategy::DirectStaking, unapproved_protocol).is_err());
}

#[test]
fn test_enable_farming_already_enabled_fails() {
    let mut env = farming_setup();
    let deposit_id = env.deposit(100_000_000, 86400);
    env.enable(deposit_id, FarmingStrategy::DirectStaking, PROTOCOL).unwrap();
    assert!(env.enable(deposit_id, FarmingStrategy::DirectStaking, PROTOCOL).is_err());
}

#[test]
fn test_claim_farming_rewards_accumulates() {
    let mut env = farming_setup();
    let deposit_id = env.deposit(100_000_000, 86400);
    env.enable(deposit_id, FarmingStrategy::DirectStaking, PROTOCOL).unwrap();
    env.advance_time(365 * 24 * 60 * 60);
    let claimed = env.claim(deposit_id).unwrap();
    assert!(claimed > 0);
    assert_eq!(env.total_rewards_claimed(), claimed);
}

#[test]
fn test_claim_farming_rewards_no_farming_fails() {
    let mut env = setup();
    let deposit_id = env.deposit(100_000_000, 86400);
    assert!(env.claim(deposit_id).is_err());
}

#[test]
fn test_claim_farming_rewards_no_accrual_yet() {
    let mut env = farming_setup();
    let deposit_id = env.deposit(100_000_000, 86400);
    env.enable(deposit_id, FarmingStrategy::DirectStaking, PROTOCOL).unwrap();
    assert_eq!(env.claim(deposit_id).unwrap(), 0);
}

#[test]
fn test_claim_multiple_times() {
    let mut env = farming_setup();
    let deposit_id = env.deposit(100_000_000, 86400);
    env.enable(deposit_id, FarmingStrategy::DirectStaking, PROTOCOL).unwrap();
    env.advance_time(180 * 24 * 60 * 60);
    let first_claim = env.claim(deposit_id).unwrap();
    env.advance_time(180 * 24 * 60 * 60);
    let second_claim = env.claim(deposit_id).unwrap();
    assert!(first_claim > 0);
    assert!(second_claim > 0);
    assert_eq!(env.total_rewards_claimed(), first_claim + second_claim);
}

#[test]
fn test_disable_farming_success() {
    let mut env = farming_setup();
    let deposit_id = env.deposit(100_000_000, 86400);
    env.enable(deposit_id, FarmingStrategy::DirectStaking, PROTOCOL).unwrap();
    env.advance_time(30 * 24 * 60 * 60);
    let (deployed, rewards) = env.disable(deposit_id).unwrap();
    assert_eq!(deployed, 90_000_000);
    assert!(rewards >= 0);
    let (enabled, _, _) = env.info(deposit_id).unwrap();
    assert!(!enabled);
}

#[test]
fn test_disable_farming_not_enabled_fails() {
    let mut env = setup();
    let deposit_id = env.deposit(100_000_000, 86400);
    assert!(env.disable(deposit_id).is_err());
}

#[test]
fn test_disable_farming_finalizes_rewards() {
    let mut env = farming_setup();
    let deposit_id = env.deposit(100_000_000, 86400);
    env.enable(deposit_id, FarmingStrategy::DirectStaking, PROTOCOL).unwrap();
    env.advance_time(365 * 24 * 60 * 60);
    let (_, final_rewards) = env.disable(deposit_id).unwrap();
    assert!(final_rewards > 0);
    assert_eq!(env.total_rewards_claimed(), final_rewards);
}

#[test]
fn test_farming_does_not_affect_deposit_withdrawal() {
    let mut env = farming_setup();
    let original_amount = 100_000_000i128;
    let deposit_id = env.deposit(original_amount, 86400);
    env.enable(deposit_id, FarmingStrategy::DirectStaking, PROTOCOL).unwrap();
    env.advance_time(180 * 24 * 60 * 60);
    env.claim(deposit_id).unwrap();
    env.advance_time(86400);
    let mut t: Vec<Transfer> = Vec::new();
    env.vault.withdraw(env.ledger, DEPOSITOR, deposit_id, &mut t).unwrap();
    assert_eq!(t, vec![Transfer::FromVault { token: TOKEN, to: DEPOSITOR, amount: original_amount }]);
    assert!(env.vault.get_vault(DEPOSITOR, deposit_id).is_none());
}

#[test]
fn test_farming_deployment_respects_max_proportion() {
    let mut env = farming_setup();
    let original_amount = 100_000_000i128;
    let deposit_id = env.deposit(original_amount, 86400);
    env.enable(deposit_id, FarmingStrategy::DirectStaking, PROTOCOL).unwrap();
    let (_, deployed, _) = env.info(deposit_id).unwrap();
    let max_deployable = (original_amount as u128 * 9000) / 10000;
    assert_eq!(deployed as u128, max_deployable);
}

#[test]
fn test_different_farming_strategies() {
    let mut env = setup();
    initialize_farming_config(&mut env.vault, ADMIN).unwrap();
    let protocol1 = Address::new(11);
    let protocol2 = Address::new(12);
    let protocol3 = Address::new(13);
    add_farming_protocol(&mut env.vault, ADMIN, protocol1).unwrap();
    add_farming_protocol(&mut env.vault, ADMIN, protocol2).unwrap();
    add_farming_protocol(&mut env.vault, ADMIN, protocol3).unwrap();
    let amount = 100_000_000i128;
    let dep1 = env.deposit(amount, 86400);
    let dep2 = env.deposit(amount, 86400);
    let dep3 = env.deposit(amount, 86400);
    env.enable(dep1, FarmingStrategy::DirectStaking, protocol1).unwrap();
    env.enable(dep2, FarmingStrategy::LiquidityProvision, protocol2).unwrap();
    env.enable(dep3, FarmingStrategy::LendingYield, protocol3).unwrap();
    assert!(env.info(dep1).unwrap().0);
    assert!(env.info(dep2).unwrap().0);
    assert!(env.info(dep3).unwrap().0);
}

#[test]
fn test_total_rewards_claimed_tracking() {
    let mut env = farming_setup();
    let dep1 = env.deposit(100_000_000, 86400 * 2);
    let dep2 = env.deposit(100_000_000, 86400 * 2);
    env.enable(dep1, FarmingStrategy::DirectStaking, PROTOCOL).unwrap();
    env.enable(dep2, FarmingStrategy::DirectStaking, PROTOCOL).unwrap();
    env.advance_time(365 * 24 * 60 * 60);
    env.claim(dep1).unwrap();
    env.claim(dep2).unwrap();
    assert!(env.total_rewards_claimed() > 0);
}

#[test]
fn test_contract_paused_prevents_farming() {
    let mut env = farming_setup();
    let deposit_id = env.deposit(100_000_000, 86400);
    env.vault.pause(ADMIN).unwrap();
    assert!(env.enable(deposit_id, FarmingStrategy::DirectStaking, PROTOCOL).is_err());
}

// ---------------------------------------------------------------- exact values

#[test]
fn farming_rewards_exact_for_one_year() {
    let state = FarmingState {
        enabled: true,
        strategy: Some(FarmingStrategy::DirectStaking),
        deployed_amount: 90_000_000,
        total_rewards: 0,
        enabled_at: 0,
        last_claim_time: 0,
        protocol_address: Some(PROTOCOL),
    };
    // 90_000_000 * 300 * 31_536_000 / (31_536_000 * 10_000) = 2_700_000
    assert_eq!(calculate_farming_rewards(&state, 31_536_000), 2_700_000);
    assert_eq!(calculate_farming_rewards(&state, 0), 0);
    let off = FarmingState { enabled: false, ..state };
    assert_eq!(calculate_farming_rewards(&off, 31_536_000), 0);
}

#[test]
fn farming_errors_are_specific() {
    let mut env = setup();
    let deposit_id = env.deposit(100_000_000, 86400);
    assert_eq!(env.enable(deposit_id, FarmingStrategy::DirectStaking, PROTOCOL), Err(VaultError::FarmingNotConfigured));
    initialize_farming_config(&mut env.vault, ADMIN).unwrap();
    assert_eq!(env.enable(deposit_id, FarmingStrategy::DirectStaking, PROTOCOL), Err(VaultError::UnapprovedFarmingProtocol));
    add_farming_protocol(&mut env.vault, ADMIN, PROTOCOL).unwrap();
    assert_eq!(add_farming_protocol(&mut env.vault, ADMIN, PROTOCOL), Err(VaultError::ProtocolAlreadyApproved));
    assert_eq!(env.enable(77, FarmingStrategy::DirectStaking, PROTOCOL), Err(VaultError::DepositNotFound));
    let small = env.deposit(100, 86400);
    assert_eq!(env.enable(small, FarmingStrategy::DirectStaking, PROTOCOL), Err(VaultError::InsufficientFundsForFarming));
    env.enable(deposit_id, FarmingStrategy::DirectStaking, PROTOCOL).unwrap();
    assert_eq!(env.enable(deposit_id, FarmingStrategy::DirectStaking, PROTOCOL), Err(VaultError::FarmingAlreadyEnabled));
    assert_eq!(env.claim(small), Err(VaultError::FarmingNotEnabled));
    assert_eq!(initialize_farming_config(&mut env.vault, DEPOSITOR), Err(VaultError::Unauthorized));
}
