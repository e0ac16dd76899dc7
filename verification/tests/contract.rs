//! Scenario tests of the vault's entry points. Token movements decided by
//! the vault are settled against an in-memory balance book so that balances
//! can be checked as a host would see them.

use std::collections::HashMap;

use safe_haven::address::Address;
use safe_haven::constants::{
    BUMP_TARGET, BUMP_THRESHOLD, FEE_RECIPIENT_PENALTY_BPS, MAX_BATCH_SIZE, MAX_DEPOSIT_AMOUNT,
    MAX_LOCK_DURATION_SECS, STAKER_PENALTY_BPS,
};
use safe_haven::errors::VaultError;
use safe_haven::types::{DepositRequest, DepositType, LedgerInfo, TokenDeposit, Transfer};
use safe_haven::vault::SafeHaven;
use safe_haven::admin::get_time;

/// The vault's own account in the balance book.
const VAULT: Address = Address { id: 0 };

struct Env {
    vault: SafeHaven,
    ledger: LedgerInfo,
    balances: HashMap<(u64, u64), i128>,
    next_address: u64,
}

impl Env {
    fn new() -> Env {
        Env {
            vault: SafeHaven::new(),
            ledger: LedgerInfo { timestamp: 0, sequence: 0 },
            balances: HashMap::new(),
            next_address: 0,
        }
    }

    fn generate(&mut self) -> Address {
        self.next_address += 1;
        Address::new(self.next_address)
    }

    fn mint(&mut self, token: Address, to: Address, amount: i128) {
        *self.balances.entry((token.id, to.id)).or_insert(0) += amount;
    }

    fn balance(&self, token: Address, holder: Address) -> i128 {
        *self.balances.get(&(token.id, holder.id)).unwrap_or(&0)
    }

    fn settle(&mut self, transfers: Vec<Transfer>) {
        for t in transfers {
            match t {
                Transfer::ToVault { token, from, amount } => {
                    self.mint(token, from, -amount);
                    self.mint(token, VAULT, amount);
                }
                Transfer::FromVault { token, to, amount } => {
                    self.mint(token, VAULT, -amount);
                    self.mint(token, to, amount);
                }
            }
        }
    }

    fn now(&self) -> u64 {
        self.ledger.timestamp
    }

    fn sequence(&self) -> u32 {
        self.ledger.sequence
    }

    fn advance_time(&mut self, seconds: u64) {
        self.ledger.timestamp += seconds;
    }

    fn set_timestamp(&mut self, t: u64) {
        self.ledger.timestamp = t;
    }

    fn set_sequence(&mut self, s: u32) {
        self.ledger.sequence = s;
    }

    fn deposit(&mut self, d: Address, token: Address, amount: i128, unlock: u64, bps: u32) -> Result<u32, VaultError> {
        let mut t = Vec::new();
        let r = self.vault.deposit(self.ledger, d, token, amount, unlock, bps, &mut t);
        self.settle(t);
        r
    }

    fn deposit_for(
        &mut self,
        payer: Address,
        d: Address,
        token: Address,
        amount: i128,
        unlock: u64,
        bps: u32,
    ) -> Result<u32, VaultError> {
        let mut t = Vec::new();
        let r = self.vault.deposit_for(self.ledger, payer, d, token, amount, unlock, bps, &mut t);
        self.settle(t);
        r
    }

    fn deposit_with_delay(
        &mut self,
        d: Address,
        token: Address,
        amount: i128,
        unlock: u64,
        bps: u32,
        delay: u64,
    ) -> Result<u32, VaultError> {
        let mut t = Vec::new();
        let r = self.vault.deposit_with_delay(self.ledger, d, token, amount, unlock, bps, delay, &mut t);
        self.settle(t);
        r
    }

    fn deposit_with_compound_interest(
        &mut self,
        d: Address,
        token: Address,
        amount: i128,
        unlock: u64,
        bps: u32,
        freq: u64,
    ) -> Result<u32, VaultError> {
        let mut t = Vec::new();
        let r = self.vault.deposit_with_compound_interest(self.ledger, d, token, amount, unlock, bps, freq, &mut t);
        self.settle(t);
        r
    }

    fn deposit_by_ledger(&mut self, d: Address, token: Address, amount: i128, unlock: u32, bps: u32) -> Result<u32, VaultError> {
        let mut t = Vec::new();
        let r = self.vault.deposit_by_ledger(self.ledger, d, token, amount, unlock, bps, &mut t);
        self.settle(t);
        r
    }

    fn multi_deposit(&mut self, d: Address, tokens: Vec<TokenDeposit>, unlock: u64, bps: u32) -> Result<u32, VaultError> {
        let mut t = Vec::new();
        let r = self.vault.multi_deposit(self.ledger, d, tokens, unlock, bps, &mut t);
        self.settle(t);
        r
    }

    fn batch_deposit(&mut self, d: Address, reqs: Vec<DepositRequest>) -> Result<Vec<u32>, VaultError> {
        let mut t = Vec::new();
        let r = self.vault.batch_deposit(self.ledger, d, reqs, &mut t);
        self.settle(t);
        r
    }

    fn withdraw(&mut self, d: Address, id: u32) -> Result<(), VaultError> {
        let mut t = Vec::new();
        let r = self.vault.withdraw(self.ledger, d, id, &mut t);
        self.settle(t);
        r
    }

    fn withdraw_to(&mut self, d: Address, id: u32, to: Address) -> Result<(), VaultError> {
        let mut t = Vec::new();
        let r = self.vault.withdraw_to(self.ledger, d, id, to, &mut t);
        self.settle(t);
        r
    }

    fn cancel_deposit(&mut self, d: Address, id: u32) -> Result<(), VaultError> {
        let mut t = Vec::new();
        let r = self.vault.cancel_deposit(self.ledger, d, id, &mut t);
        self.settle(t);
        r
    }

    fn emergency_withdraw(&mut self, admin: Address, d: Address, id: u32) -> Result<(), VaultError> {
        let mut t = Vec::new();
        let r = self.vault.emergency_withdraw(self.ledger, admin, d, id, &mut t);
        self.settle(t);
        r
    }

    fn execute_subscription(&mut self, d: Address, sub_id: u32) -> Result<u32, VaultError> {
        let mut t = Vec::new();
        let r = self.vault.execute_subscription(self.ledger, d, sub_id, &mut t);
        self.settle(t);
        r
    }

    fn approve_claim(&mut self, admin: Address, claim_id: u32) -> Result<i128, VaultError> {
        let mut t = Vec::new();
        let r = self.vault.approve_claim(admin, claim_id, &mut t);
        self.settle(t);
        r
    }

    fn time_remaining(&self, d: Address, id: u32) -> u64 {
        self.vault.time_remaining(self.ledger, d, id)
    }

    fn time_to_withdrawal(&self, d: Address, id: u32) -> u64 {
        self.vault.time_to_withdrawal(self.ledger, d, id)
    }
}

/// A fresh initialized vault: returns the environment, a token, the admin,
/// alice (holding 10_000 of the token) and the fee recipient.
fn setup() -> (Env, Address, Address, Address, Address) {
    let mut env = Env::new();
    let admin = env.generate();
    let alice = env.generate();
    let fee_recipient = env.generate();
    let token = env.generate();
    env.mint(token, alice, 10_000);
    env.vault.initialize(admin, fee_recipient, None, None).unwrap();
    (env, token, admin, alice, fee_recipient)
}

/// Like `setup`, with custom limits and alice holding 1_000_000.
fn setup_with_limits(max_deposit: Option<i128>, max_lock_secs: Option<u64>) -> (Env, Address, Address, Address) {
    let mut env = Env::new();
    let admin = env.generate();
    let alice = env.generate();
    let fee_recipient = env.generate();
    let token = env.generate();
    env.mint(token, alice, 1_000_000);
    env.vault.initialize(admin, fee_recipient, max_deposit, max_lock_secs).unwrap();
    (env, token, admin, alice)
}

// ---------------------------------------------------------------- initialization

#[test]
fn test_initialize_sets_admin() {
    let (env, _token, admin, _alice, _fee) = setup();
    assert_eq!(env.vault.get_admin(), Some(admin));
}

#[test]
fn test_initialize_sets_fee_recipient() {
    let (env, _token, _admin, _alice, fee) = setup();
    assert_eq!(env.vault.get_fee_recipient(), Some(fee));
}

#[test]
fn test_double_initialize_fails() {
    let (mut env, _token, admin, _alice, fee) = setup();
    let result = env.vault.initialize(admin, fee, None, None);
    assert_eq!(result, Err(VaultError::AlreadyInitialized));
}

#[test]
fn test_is_initialized() {
    let mut env = Env::new();
    let admin = env.generate();
    let fee = env.generate();
    assert!(!env.vault.is_initialized());
    env.vault.initialize(admin, fee, None, None).unwrap();
    assert!(env.vault.is_initialized());
    env.vault.renounce_admin(admin).unwrap();
    assert!(env.vault.is_initialized());
}

// ---------------------------------------------------------------- deposit

#[test]
fn test_deposit_success() {
    let (mut env, token, _admin, alice, _fee) = setup();
    let unlock_time = env.now() + 3600;
    let id = env.deposit(alice, token, 1_000, unlock_time, 0).unwrap();
    assert_eq!(id, 0);
    let entry = env.vault.get_vault(alice, id).expect("entry should exist");
    assert_eq!(entry.amount, 1_000);
    assert_eq!(entry.unlock_time, unlock_time);
    assert_eq!(entry.token, token);
    assert_eq!(entry.depositor, alice);
    assert_eq!(entry.penalty_bps, 0);
    assert_eq!(entry.withdrawal_delay_secs, 0);
}

#[test]
fn test_deposit_transfers_tokens_to_contract() {
    let (mut env, token, _admin, alice, _fee) = setup();
    let unlock_time = env.now() + 3600;
    env.deposit(alice, token, 1_000, unlock_time, 0).unwrap();
    assert_eq!(env.balance(token, alice), 9_000);
}

#[test]
fn test_deposit_with_delay_enforces_delay_after_unlock() {
    let (mut env, token, _admin, alice, _fee) = setup();
    let unlock_time = env.now() + 3600;
    let id = env.deposit_with_delay(alice, token, 1_000, unlock_time, 0, 600).unwrap();
    env.advance_time(3601);
    assert_eq!(env.time_to_withdrawal(alice, id), 599);
    assert_eq!(env.withdraw(alice, id), Err(VaultError::WithdrawalDelayActive));
    env.advance_time(599);
    env.withdraw(alice, id).unwrap();
    assert_eq!(env.time_to_withdrawal(alice, id), 0);
}

#[test]
fn test_deposit_with_zero_delay_withdraws_at_unlock() {
    let (mut env, token, _admin, alice, _fee) = setup();
    let unlock_time = env.now() + 3600;
    let id = env.deposit_with_delay(alice, token, 1_000, unlock_time, 0, 0).unwrap();
    env.advance_time(3600);
    assert_eq!(env.time_to_withdrawal(alice, id), 0);
    env.withdraw(alice, id).unwrap();
}

#[test]
fn test_deposit_zero_amount_fails() {
    let (mut env, token, _admin, alice, _fee) = setup();
    let unlock_time = env.now() + 3600;
    assert_eq!(env.deposit(alice, token, 0, unlock_time, 0), Err(VaultError::InvalidAmount));
}

#[test]
fn test_deposit_negative_amount_fails() {
    let (mut env, token, _admin, alice, _fee) = setup();
    let unlock_time = env.now() + 3600;
    assert_eq!(env.deposit(alice, token, -1, unlock_time, 0), Err(VaultError::InvalidAmount));
}

#[test]
fn test_deposit_amount_exceeds_max_fails() {
    let (mut env, token, _admin, alice, _fee) = setup();
    env.mint(token, alice, MAX_DEPOSIT_AMOUNT);
    let unlock_time = env.now() + 3600;
    assert_eq!(
        env.deposit(alice, token, MAX_DEPOSIT_AMOUNT + 1, unlock_time, 0),
        Err(VaultError::AmountTooLarge)
    );
}

#[test]
fn test_deposit_at_max_amount_succeeds() {
    let (mut env, token, _admin, alice, _fee) = setup();
    env.mint(token, alice, MAX_DEPOSIT_AMOUNT);
    let unlock_time = env.now() + 3600;
    env.deposit(alice, token, MAX_DEPOSIT_AMOUNT, unlock_time, 0).unwrap();
    let entry = env.vault.get_vault(alice, 0).expect("entry should exist");
    assert_eq!(entry.amount, MAX_DEPOSIT_AMOUNT);
}

#[test]
fn test_deposit_unlock_time_in_past_fails() {
    let (mut env, token, _admin, alice, _fee) = setup();
    let unlock_time = env.now();
    assert_eq!(env.deposit(alice, token, 1_000, unlock_time, 0), Err(VaultError::UnlockTimeNotInFuture));
}

#[test]
fn test_deposit_lock_duration_too_long_fails() {
    let (mut env, token, _admin, alice, _fee) = setup();
    let unlock_time = env.now() + MAX_LOCK_DURATION_SECS + 1;
    assert_eq!(env.deposit(alice, token, 1_000, unlock_time, 0), Err(VaultError::LockDurationTooLong));
}

#[test]
fn test_deposit_at_max_duration_succeeds() {
    let (mut env, token, _admin, alice, _fee) = setup();
    let unlock_time = env.now() + MAX_LOCK_DURATION_SECS;
    env.deposit(alice, token, 1_000, unlock_time, 0).unwrap();
    assert!(env.vault.get_vault(alice, 0).is_some());
}

#[test]
fn test_deposit_invalid_penalty_bps_fails() {
    let (mut env, token, _admin, alice, _fee) = setup();
    let unlock_time = env.now() + 3600;
    assert_eq!(env.deposit(alice, token, 1_000, unlock_time, 10_001), Err(VaultError::InvalidPenaltyBps));
}

#[test]
fn test_deposit_lock_duration_too_short_fails() {
    let (mut env, token, _admin, alice, _fee) = setup();
    let unlock_time = env.now() + 10;
    assert_eq!(env.deposit(alice, token, 1_000, unlock_time, 0), Err(VaultError::LockDurationTooShort));
}

#[test]
fn test_multiple_deposits_same_address() {
    let (mut env, token, _admin, alice, _fee) = setup();
    env.mint(token, alice, 5_000);
    let t1 = env.now() + 3600;
    let t2 = env.now() + 7200;
    let t3 = env.now() + 10800;
    let id0 = env.deposit(alice, token, 1_000, t1, 0).unwrap();
    let id1 = env.deposit(alice, token, 2_000, t2, 0).unwrap();
    let id2 = env.deposit(alice, token, 3_000, t3, 0).unwrap();
    assert_eq!(id0, 0);
    assert_eq!(id1, 1);
    assert_eq!(id2, 2);
    assert_eq!(env.vault.get_vault(alice, 0).unwrap().amount, 1_000);
    assert_eq!(env.vault.get_vault(alice, 1).unwrap().amount, 2_000);
    assert_eq!(env.vault.get_vault(alice, 2).unwrap().amount, 3_000);
}

#[test]
fn test_get_deposit_ids_returns_active_ids() {
    let (mut env, token, _admin, alice, _fee) = setup();
    env.mint(token, alice, 3_000);
    let t1 = env.now() + 3600;
    let t2 = env.now() + 7200;
    env.deposit(alice, token, 1_000, t1, 0).unwrap();
    env.deposit(alice, token, 2_000, t2, 0).unwrap();
    let ids = env.vault.get_deposit_ids(alice);
    assert_eq!(ids.len(), 2);
    assert_eq!(ids[0], 0);
    assert_eq!(ids[1], 1);
}

#[test]
fn test_partial_withdrawal_leaves_other_deposits_intact() {
    let (mut env, token, _admin, alice, _fee) = setup();
    env.mint(token, alice, 3_000);
    let t1 = env.now() + 3600;
    let t2 = env.now() + 7200;
    env.deposit(alice, token, 1_000, t1, 0).unwrap();
    env.deposit(alice, token, 2_000, t2, 0).unwrap();
    env.advance_time(3601);
    env.withdraw(alice, 0).unwrap();
    assert!(env.vault.get_vault(alice, 0).is_none());
    assert!(env.vault.get_vault(alice, 1).is_some());
    assert_eq!(env.vault.get_vault(alice, 1).unwrap().amount, 2_000);
    let ids = env.vault.get_deposit_ids(alice);
    assert_eq!(ids.len(), 1);
    assert_eq!(ids[0], 1);
    assert_eq!(env.balance(token, alice), 10_000 + 3_000 - 3_000 + 1_000);
}

#[test]
fn test_deposits_have_independent_unlock_times() {
    let (mut env, token, _admin, alice, _fee) = setup();
    env.mint(token, alice, 2_000);
    let t1 = env.now() + 3600;
    let t2 = env.now() + 7200;
    env.deposit(alice, token, 1_000, t1, 0).unwrap();
    env.deposit(alice, token, 1_000, t2, 0).unwrap();
    env.advance_time(3601);
    env.withdraw(alice, 0).unwrap();
    assert_eq!(env.withdraw(alice, 1), Err(VaultError::FundsStillLocked));
}

#[test]
fn test_deposit_ids_increment_after_withdrawal() {
    let (mut env, token, _admin, alice, _fee) = setup();
    env.mint(token, alice, 3_000);
    let t1 = env.now() + 3600;
    let id0 = env.deposit(alice, token, 1_000, t1, 0).unwrap();
    assert_eq!(id0, 0);
    env.advance_time(3601);
    env.withdraw(alice, 0).unwrap();
    let t2 = env.now() + 3600;
    let id1 = env.deposit(alice, token, 1_000, t2, 0).unwrap();
    assert_eq!(id1, 1);
}

// ---------------------------------------------------------------- deposit_for

#[test]
fn test_deposit_for_different_addresses_succeeds() {
    let (mut env, token, _admin, alice, _fee) = setup();
    let bob = env.generate();
    env.mint(token, alice, 5_000);
    let unlock_time = env.now() + 3600;
    let id = env.deposit_for(alice, bob, token, 1_000, unlock_time, 0).unwrap();
    assert_eq!(id, 0);
    let entry = env.vault.get_vault(bob, id).expect("entry should exist");
    assert_eq!(entry.amount, 1_000);
    assert_eq!(entry.token, token);
    assert_eq!(entry.depositor, bob);
    assert_eq!(entry.penalty_bps, 0);
    assert_eq!(env.balance(token, alice), 14_000);
    assert_eq!(env.balance(token, bob), 0);
    assert_eq!(env.balance(token, VAULT), 1_000);
}

#[test]
fn test_deposit_for_beneficiary_can_withdraw() {
    let (mut env, token, _admin, alice, _fee) = setup();
    let bob = env.generate();
    env.mint(token, alice, 5_000);
    let unlock_time = env.now() + 3600;
    let id = env.deposit_for(alice, bob, token, 1_000, unlock_time, 0).unwrap();
    assert_eq!(env.withdraw(bob, id), Err(VaultError::FundsStillLocked));
    env.advance_time(3601);
    env.withdraw(bob, id).unwrap();
    assert!(env.vault.get_vault(bob, id).is_none());
    assert_eq!(env.balance(token, bob), 1_000);
}

#[test]
fn test_deposit_for_same_address_succeeds() {
    let (mut env, token, _admin, alice, _fee) = setup();
    let unlock_time = env.now() + 3600;
    let id = env.deposit_for(alice, alice, token, 1_000, unlock_time, 0).unwrap();
    assert_eq!(id, 0);
    let entry = env.vault.get_vault(alice, 0).expect("entry should exist");
    assert_eq!(entry.amount, 1_000);
    assert_eq!(entry.depositor, alice);
}

#[test]
fn test_deposit_for_payer_has_no_access() {
    let (mut env, token, _admin, alice, _fee) = setup();
    let bob = env.generate();
    env.mint(token, alice, 5_000);
    let unlock_time = env.now() + 3600;
    let id = env.deposit_for(alice, bob, token, 1_000, unlock_time, 0).unwrap();
    assert_eq!(env.withdraw(alice, id), Err(VaultError::NoDepositFound));
    assert_eq!(env.cancel_deposit(alice, id), Err(VaultError::NoDepositFound));
}

#[test]
fn test_deposit_for_validation_errors() {
    let (mut env, token, _admin, alice, _fee) = setup();
    let bob = env.generate();
    env.mint(token, alice, 5_000);
    let unlock_time = env.now() + 3600;
    assert_eq!(env.deposit_for(alice, bob, token, 0, unlock_time, 0), Err(VaultError::InvalidAmount));
    assert_eq!(
        env.deposit_for(alice, bob, token, MAX_DEPOSIT_AMOUNT + 1, unlock_time, 0),
        Err(VaultError::AmountTooLarge)
    );
    let now = env.now();
    assert_eq!(env.deposit_for(alice, bob, token, 1_000, now, 0), Err(VaultError::UnlockTimeNotInFuture));
    assert_eq!(
        env.deposit_for(alice, bob, token, 1_000, now + MAX_LOCK_DURATION_SECS + 1, 0),
        Err(VaultError::LockDurationTooLong)
    );
    assert_eq!(env.deposit_for(alice, bob, token, 1_000, unlock_time, 10_001), Err(VaultError::InvalidPenaltyBps));
    assert_eq!(env.deposit_for(alice, bob, token, 1_000, now + 10, 0), Err(VaultError::LockDurationTooShort));
}

#[test]
fn test_deposit_for_adds_beneficiary_to_depositor_list() {
    let (mut env, token, _admin, alice, _fee) = setup();
    let bob = env.generate();
    env.mint(token, alice, 5_000);
    assert_eq!(env.vault.get_depositor_count(), 0);
    let unlock_time = env.now() + 3600;
    env.deposit_for(alice, bob, token, 1_000, unlock_time, 0).unwrap();
    assert_eq!(env.vault.get_depositor_count(), 1);
    let page = env.vault.get_depositors(0, 10);
    assert_eq!(page.total_count, 1);
    assert_eq!(page.items[0], bob);
}

// ---------------------------------------------------------------- withdraw

#[test]
fn test_withdraw_after_unlock_succeeds() {
    let (mut env, token, _admin, alice, _fee) = setup();
    let unlock_time = env.now() + 3600;
    env.deposit(alice, token, 1_000, unlock_time, 0).unwrap();
    env.advance_time(3601);
    env.withdraw(alice, 0).unwrap();
    assert!(env.vault.get_vault(alice, 0).is_none());
    assert_eq!(env.balance(token, alice), 10_000);
}

#[test]
fn test_withdraw_exactly_at_unlock_time_succeeds() {
    let (mut env, token, _admin, alice, _fee) = setup();
    let unlock_time = env.now() + 3600;
    env.deposit(alice, token, 1_000, unlock_time, 0).unwrap();
    env.advance_time(3600);
    env.withdraw(alice, 0).unwrap();
    assert!(env.vault.get_vault(alice, 0).is_none());
}

#[test]
fn test_withdraw_before_unlock_fails() {
    let (mut env, token, _admin, alice, _fee) = setup();
    let unlock_time = env.now() + 3600;
    env.deposit(alice, token, 1_000, unlock_time, 0).unwrap();
    env.advance_time(1800);
    assert_eq!(env.withdraw(alice, 0), Err(VaultError::FundsStillLocked));
}

#[test]
fn test_withdraw_no_deposit_fails() {
    let (mut env, _token, _admin, alice, _fee) = setup();
    assert_eq!(env.withdraw(alice, 0), Err(VaultError::NoDepositFound));
}

// ---------------------------------------------------------------- cancel_deposit

#[test]
fn test_cancel_deposit_zero_penalty_returns_full_amount() {
    let (mut env, token, _admin, alice, _fee) = setup();
    let unlock_time = env.now() + 3600;
    env.deposit(alice, token, 1_000, unlock_time, 0).unwrap();
    env.cancel_deposit(alice, 0).unwrap();
    assert!(env.vault.get_vault(alice, 0).is_none());
    assert_eq!(env.balance(token, alice), 10_000);
}

#[test]
fn test_cancel_deposit_no_deposit_fails() {
    let (mut env, _token, _admin, alice, _fee) = setup();
    assert_eq!(env.cancel_deposit(alice, 0), Err(VaultError::NoDepositFound));
}

#[test]
fn test_cancel_deposit_after_unlock_fails() {
    let (mut env, token, _admin, alice, _fee) = setup();
    let unlock_time = env.now() + 3600;
    env.deposit(alice, token, 1_000, unlock_time, 500).unwrap();
    env.advance_time(3601);
    assert_eq!(env.cancel_deposit(alice, 0), Err(VaultError::VaultAlreadyUnlocked));
}

#[test]
fn test_cancel_deposit_penalty_stored_in_vault_entry() {
    let (mut env, token, _admin, alice, _fee) = setup();
    let unlock_time = env.now() + 3600;
    env.deposit(alice, token, 1_000, unlock_time, 500).unwrap();
    assert_eq!(env.vault.get_vault(alice, 0).unwrap().penalty_bps, 500);
}

// ---------------------------------------------------------------- time helpers

#[test]
fn test_time_remaining_before_unlock() {
    let (mut env, token, _admin, alice, _fee) = setup();
    let unlock_time = env.now() + 3600;
    env.deposit(alice, token, 1_000, unlock_time, 0).unwrap();
    env.advance_time(1800);
    assert_eq!(env.time_remaining(alice, 0), 1800);
}

#[test]
fn test_time_remaining_after_unlock_is_zero() {
    let (mut env, token, _admin, alice, _fee) = setup();
    let unlock_time = env.now() + 3600;
    env.deposit(alice, token, 1_000, unlock_time, 0).unwrap();
    env.advance_time(7200);
    assert_eq!(env.time_remaining(alice, 0), 0);
}

#[test]
fn test_time_remaining_no_deposit_is_zero() {
    let (env, _token, _admin, alice, _fee) = setup();
    assert_eq!(env.time_remaining(alice, 0), 0);
}

#[test]
fn test_time_remaining_nonexistent_deposit_id_returns_zero() {
    let (mut env, token, _admin, alice, _fee) = setup();
    let unlock_time = env.now() + 3600;
    env.deposit(alice, token, 1_000, unlock_time, 0).unwrap();
    assert_eq!(env.time_remaining(alice, 99), 0);
    env.advance_time(3601);
    env.withdraw(alice, 0).unwrap();
    assert_eq!(env.time_remaining(alice, 0), 0);
}

#[test]
fn test_get_time_returns_ledger_timestamp() {
    let (env, _token, _admin, _alice, _fee) = setup();
    assert_eq!(get_time(env.ledger), env.now());
}

// ---------------------------------------------------------------- emergency withdrawal

#[test]
fn test_emergency_withdraw_by_admin_before_unlock_succeeds() {
    let (mut env, token, admin, alice, _fee) = setup();
    let unlock_time = env.now() + 86400;
    env.deposit(alice, token, 2_000, unlock_time, 0).unwrap();
    env.emergency_withdraw(admin, alice, 0).unwrap();
    assert!(env.vault.get_vault(alice, 0).is_none());
    assert_eq!(env.balance(token, alice), 10_000);
}

#[test]
fn test_emergency_withdraw_by_non_admin_fails() {
    let (mut env, token, _admin, alice, _fee) = setup();
    let bob = env.generate();
    let unlock_time = env.now() + 86400;
    env.deposit(alice, token, 2_000, unlock_time, 0).unwrap();
    assert_eq!(env.emergency_withdraw(bob, alice, 0), Err(VaultError::Unauthorized));
}

#[test]
fn test_emergency_withdraw_no_deposit_fails() {
    let (mut env, _token, admin, alice, _fee) = setup();
    assert_eq!(env.emergency_withdraw(admin, alice, 0), Err(VaultError::NoDepositFound));
}

// ---------------------------------------------------------------- admin transfer

#[test]
fn test_transfer_admin_two_step_succeeds() {
    let (mut env, _token, admin, _alice, _fee) = setup();
    let new_admin = env.generate();
    env.vault.transfer_admin(admin, new_admin).unwrap();
    assert_eq!(env.vault.get_pending_admin(), Some(new_admin));
    assert_eq!(env.vault.get_admin(), Some(admin));
    env.vault.accept_admin(new_admin).unwrap();
    assert_eq!(env.vault.get_admin(), Some(new_admin));
    assert_eq!(env.vault.get_pending_admin(), None);
}

#[test]
fn test_transfer_admin_non_admin_cannot_initiate() {
    let (mut env, _token, _admin, _alice, _fee) = setup();
    let bob = env.generate();
    let carol = env.generate();
    assert_eq!(env.vault.transfer_admin(bob, carol), Err(VaultError::Unauthorized));
}

#[test]
fn test_accept_admin_wrong_address_fails() {
    let (mut env, _token, admin, _alice, _fee) = setup();
    let new_admin = env.generate();
    let impostor = env.generate();
    env.vault.transfer_admin(admin, new_admin).unwrap();
    assert_eq!(env.vault.accept_admin(impostor), Err(VaultError::Unauthorized));
    assert_eq!(env.vault.get_admin(), Some(admin));
}

#[test]
fn test_accept_admin_with_no_pending_fails() {
    let (mut env, _token, _admin, _alice, _fee) = setup();
    let bob = env.generate();
    assert_eq!(env.vault.accept_admin(bob), Err(VaultError::Unauthorized));
}

#[test]
fn test_cancel_transfer_admin_clears_pending() {
    let (mut env, _token, admin, _alice, _fee) = setup();
    let new_admin = env.generate();
    env.vault.transfer_admin(admin, new_admin).unwrap();
    env.vault.cancel_transfer_admin(admin).unwrap();
    assert_eq!(env.vault.get_pending_admin(), None);
    assert_eq!(env.vault.get_admin(), Some(admin));
}

#[test]
fn test_cancel_transfer_admin_by_non_admin_fails() {
    let (mut env, _token, admin, _alice, _fee) = setup();
    let new_admin = env.generate();
    let bob = env.generate();
    env.vault.transfer_admin(admin, new_admin).unwrap();
    assert_eq!(env.vault.cancel_transfer_admin(bob), Err(VaultError::Unauthorized));
}

#[test]
fn test_accept_admin_by_admin_with_no_pending_fails() {
    let (mut env, _token, admin, _alice, _fee) = setup();
    assert_eq!(env.vault.accept_admin(admin), Err(VaultError::Unauthorized));
}

#[test]
fn test_accept_admin_after_cancel_fails() {
    let (mut env, _token, admin, _alice, _fee) = setup();
    let new_admin = env.generate();
    env.vault.transfer_admin(admin, new_admin).unwrap();
    env.vault.cancel_transfer_admin(admin).unwrap();
    assert_eq!(env.vault.accept_admin(new_admin), Err(VaultError::Unauthorized));
    assert_eq!(env.vault.get_pending_admin(), None);
}

#[test]
fn test_new_admin_can_emergency_withdraw_after_transfer() {
    let (mut env, token, admin, alice, _fee) = setup();
    let new_admin = env.generate();
    let unlock_time = env.now() + 86400;
    env.deposit(alice, token, 1_000, unlock_time, 0).unwrap();
    env.vault.transfer_admin(admin, new_admin).unwrap();
    env.vault.accept_admin(new_admin).unwrap();
    assert_eq!(env.emergency_withdraw(admin, alice, 0), Err(VaultError::Unauthorized));
    env.emergency_withdraw(new_admin, alice, 0).unwrap();
    assert_eq!(env.balance(token, alice), 10_000);
}

#[test]
fn test_renounce_admin_removes_admin() {
    let (mut env, _token, admin, _alice, _fee) = setup();
    env.vault.renounce_admin(admin).unwrap();
    assert_eq!(env.vault.get_admin(), None);
}

#[test]
fn test_renounce_admin_disables_emergency_withdraw() {
    let (mut env, token, admin, alice, _fee) = setup();
    let unlock_time = env.now() + 86400;
    env.deposit(alice, token, 1_000, unlock_time, 0).unwrap();
    env.vault.renounce_admin(admin).unwrap();
    assert_eq!(env.emergency_withdraw(admin, alice, 0), Err(VaultError::Unauthorized));
}

#[test]
fn test_renounce_admin_by_non_admin_fails() {
    let (mut env, _token, _admin, _alice, _fee) = setup();
    let bob = env.generate();
    assert_eq!(env.vault.renounce_admin(bob), Err(VaultError::Unauthorized));
}

#[test]
fn test_renounce_admin_clears_pending_transfer() {
    let (mut env, _token, admin, _alice, _fee) = setup();
    let new_admin = env.generate();
    env.vault.transfer_admin(admin, new_admin).unwrap();
    env.vault.renounce_admin(admin).unwrap();
    assert_eq!(env.vault.get_admin(), None);
    assert_eq!(env.vault.get_pending_admin(), None);
}

#[test]
fn test_redeposit_after_withdraw_succeeds() {
    let (mut env, token, _admin, alice, _fee) = setup();
    let unlock_time = env.now() + 3600;
    env.deposit(alice, token, 1_000, unlock_time, 0).unwrap();
    env.advance_time(3601);
    env.withdraw(alice, 0).unwrap();
    let new_unlock = env.now() + 7200;
    let id = env.deposit(alice, token, 500, new_unlock, 0).unwrap();
    assert_eq!(id, 1);
    let entry = env.vault.get_vault(alice, 1).expect("entry should exist");
    assert_eq!(entry.amount, 500);
}

#[test]
fn test_bump_target_covers_max_lock_duration() {
    const LEDGER_INTERVAL_SECS: u64 = 5;
    let max_lock_ledgers = MAX_LOCK_DURATION_SECS / LEDGER_INTERVAL_SECS;
    assert!(BUMP_TARGET as u64 >= max_lock_ledgers);
}

#[test]
fn test_get_vault_is_readonly() {
    let (env, _token, _admin, alice, _fee) = setup();
    assert!(env.vault.get_vault(alice, 0).is_none());
    assert!(env.vault.get_vault(alice, 0).is_none());
}

#[test]
fn test_time_remaining_is_readonly() {
    let (env, _token, _admin, alice, _fee) = setup();
    assert_eq!(env.time_remaining(alice, 0), 0);
    assert_eq!(env.time_remaining(alice, 0), 0);
}

// ---------------------------------------------------------------- depositor list and pagination

#[test]
fn test_depositor_count_empty() {
    let (env, _token, _admin, _alice, _fee) = setup();
    assert_eq!(env.vault.get_depositor_count(), 0);
}

#[test]
fn test_depositors_empty_returns_empty_vec() {
    let (env, _token, _admin, _alice, _fee) = setup();
    let page = env.vault.get_depositors(0, 10);
    assert_eq!(page.items.len(), 0);
    assert_eq!(page.total_count, 0);
}

#[test]
fn test_depositor_count_single_entry() {
    let (mut env, token, _admin, alice, _fee) = setup();
    let unlock_time = env.now() + 3600;
    env.deposit(alice, token, 1_000, unlock_time, 0).unwrap();
    assert_eq!(env.vault.get_depositor_count(), 1);
}

#[test]
fn test_depositors_single_entry() {
    let (mut env, token, _admin, alice, _fee) = setup();
    let unlock_time = env.now() + 3600;
    env.deposit(alice, token, 1_000, unlock_time, 0).unwrap();
    let page = env.vault.get_depositors(0, 10);
    assert_eq!(page.items.len(), 1);
    assert_eq!(page.total_count, 1);
    assert_eq!(page.items[0], alice);
}

fn three_depositors(env: &mut Env, token: Address, alice: Address) -> (Address, Address) {
    let bob = env.generate();
    let carol = env.generate();
    env.mint(token, bob, 5_000);
    env.mint(token, carol, 5_000);
    let unlock_time = env.now() + 3600;
    env.deposit(alice, token, 1_000, unlock_time, 0).unwrap();
    env.deposit(bob, token, 2_000, unlock_time, 0).unwrap();
    env.deposit(carol, token, 3_000, unlock_time, 0).unwrap();
    (bob, carol)
}

#[test]
fn test_depositor_count_multiple_entries() {
    let (mut env, token, _admin, alice, _fee) = setup();
    three_depositors(&mut env, token, alice);
    assert_eq!(env.vault.get_depositor_count(), 3);
}

#[test]
fn test_depositors_multiple_entries_full_page() {
    let (mut env, token, _admin, alice, _fee) = setup();
    three_depositors(&mut env, token, alice);
    let page = env.vault.get_depositors(0, 10);
    assert_eq!(page.items.len(), 3);
    assert_eq!(page.total_count, 3);
}

#[test]
fn test_depositor_removed_on_withdraw() {
    let (mut env, token, _admin, alice, _fee) = setup();
    let unlock_time = env.now() + 3600;
    env.deposit(alice, token, 1_000, unlock_time, 0).unwrap();
    assert_eq!(env.vault.get_depositor_count(), 1);
    env.advance_time(3601);
    env.withdraw(alice, 0).unwrap();
    assert_eq!(env.vault.get_depositor_count(), 0);
    let page = env.vault.get_depositors(0, 10);
    assert_eq!(page.items.len(), 0);
    assert_eq!(page.total_count, 0);
}

#[test]
fn test_depositor_removed_on_emergency_withdraw() {
    let (mut env, token, admin, alice, _fee) = setup();
    let unlock_time = env.now() + 86400;
    env.deposit(alice, token, 1_000, unlock_time, 0).unwrap();
    assert_eq!(env.vault.get_depositor_count(), 1);
    env.emergency_withdraw(admin, alice, 0).unwrap();
    assert_eq!(env.vault.get_depositor_count(), 0);
}

#[test]
fn test_depositor_list_consistent_after_partial_removal() {
    let (mut env, token, _admin, alice, _fee) = setup();
    let bob = env.generate();
    env.mint(token, bob, 5_000);
    let unlock_time = env.now() + 3600;
    env.deposit(alice, token, 1_000, unlock_time, 0).unwrap();
    env.deposit(bob, token, 2_000, unlock_time, 0).unwrap();
    assert_eq!(env.vault.get_depositor_count(), 2);
    env.advance_time(3601);
    env.withdraw(alice, 0).unwrap();
    assert_eq!(env.vault.get_depositor_count(), 1);
    let page = env.vault.get_depositors(0, 10);
    assert_eq!(page.items.len(), 1);
    assert_eq!(page.items[0], bob);
}

#[test]
fn test_pagination_offset_and_limit() {
    let (mut env, token, _admin, alice, _fee) = setup();
    three_depositors(&mut env, token, alice);
    let page1 = env.vault.get_depositors(0, 2);
    assert_eq!(page1.items.len(), 2);
    let page2 = env.vault.get_depositors(2, 2);
    assert_eq!(page2.items.len(), 1);
}

#[test]
fn test_pagination_offset_beyond_end_returns_empty() {
    let (mut env, token, _admin, alice, _fee) = setup();
    let unlock_time = env.now() + 3600;
    env.deposit(alice, token, 1_000, unlock_time, 0).unwrap();
    let page = env.vault.get_depositors(10, 5);
    assert_eq!(page.items.len(), 0);
}

#[test]
fn test_pagination_with_large_offset_does_not_overflow() {
    let (mut env, token, _admin, alice, _fee) = setup();
    let unlock_time = env.now() + 3600;
    env.deposit(alice, token, 1_000, unlock_time, 0).unwrap();
    let page = env.vault.get_depositors(u32::MAX - 1, 2);
    assert!(page.items.is_empty());
}

#[test]
fn test_pagination_limit_zero_returns_empty() {
    let (mut env, token, _admin, alice, _fee) = setup();
    let unlock_time = env.now() + 3600;
    env.deposit(alice, token, 1_000, unlock_time, 0).unwrap();
    let page = env.vault.get_depositors(0, 0);
    assert_eq!(page.items.len(), 0);
}

#[test]
fn test_redeposit_after_withdraw_adds_back_to_list() {
    let (mut env, token, _admin, alice, _fee) = setup();
    let unlock_time = env.now() + 3600;
    env.deposit(alice, token, 1_000, unlock_time, 0).unwrap();
    assert_eq!(env.vault.get_depositor_count(), 1);
    env.advance_time(3601);
    env.withdraw(alice, 0).unwrap();
    assert_eq!(env.vault.get_depositor_count(), 0);
    let new_unlock = env.now() + 7200;
    env.deposit(alice, token, 500, new_unlock, 0).unwrap();
    assert_eq!(env.vault.get_depositor_count(), 1);
    let page = env.vault.get_depositors(0, 10);
    assert_eq!(page.items[0], alice);
}

// ---------------------------------------------------------------- configurable limits

#[test]
fn test_get_constants_returns_custom_limits() {
    let (env, _token, _admin, _alice) = setup_with_limits(Some(5_000), Some(7200));
    let (max_amount, max_duration) = env.vault.get_constants();
    assert_eq!(max_amount, 5_000);
    assert_eq!(max_duration, 7200);
}

#[test]
fn test_custom_max_deposit_enforced() {
    let (mut env, token, _admin, alice) = setup_with_limits(Some(500), None);
    let unlock_time = env.now() + 3600;
    env.deposit(alice, token, 500, unlock_time, 0).unwrap();
    env.advance_time(3601);
    env.withdraw(alice, 0).unwrap();
    assert_eq!(env.deposit(alice, token, 501, unlock_time, 0), Err(VaultError::AmountTooLarge));
}

#[test]
fn test_custom_max_lock_secs_enforced() {
    let (mut env, token, _admin, alice) = setup_with_limits(None, Some(3600));
    let unlock_time = env.now() + 3600;
    env.deposit(alice, token, 100, unlock_time, 0).unwrap();
    env.advance_time(3601);
    env.withdraw(alice, 0).unwrap();
    let too_far = env.now() + 3601;
    assert_eq!(env.deposit(alice, token, 100, too_far, 0), Err(VaultError::LockDurationTooLong));
}

#[test]
fn test_default_fallback_when_no_custom_limits() {
    let (mut env, token, _admin, alice) = setup_with_limits(None, None);
    let unlock_time = env.now() + 3600;
    assert_eq!(
        env.deposit(alice, token, MAX_DEPOSIT_AMOUNT + 1, unlock_time, 0),
        Err(VaultError::AmountTooLarge)
    );
    let too_far = env.now() + MAX_LOCK_DURATION_SECS + 1;
    assert_eq!(env.deposit(alice, token, 100, too_far, 0), Err(VaultError::LockDurationTooLong));
}

#[test]
fn test_initialize_invalid_max_deposit_fails() {
    let mut env = Env::new();
    let admin = env.generate();
    let fee = env.generate();
    assert_eq!(env.vault.initialize(admin, fee, Some(0), None), Err(VaultError::InvalidAmount));
}

#[test]
fn test_initialize_invalid_max_lock_secs_fails() {
    let mut env = Env::new();
    let admin = env.generate();
    let fee = env.generate();
    assert_eq!(env.vault.initialize(admin, fee, None, Some(0)), Err(VaultError::LockDurationTooLong));
}

// ---------------------------------------------------------------- boundaries and lifecycle

#[test]
fn test_deposit_exact_max_lock_duration_succeeds() {
    let (mut env, token, _admin, alice, _fee) = setup();
    let unlock_time = env.now() + MAX_LOCK_DURATION_SECS;
    let id = env.deposit(alice, token, 1_000, unlock_time, 0).unwrap();
    assert!(env.vault.get_vault(alice, id).is_some());
}

#[test]
fn test_withdraw_fails_at_unlock_time_minus_one() {
    let (mut env, token, _admin, alice, _fee) = setup();
    let unlock_time = env.now() + 3600;
    let id = env.deposit(alice, token, 1_000, unlock_time, 0).unwrap();
    env.advance_time(3599);
    assert_eq!(env.withdraw(alice, id), Err(VaultError::FundsStillLocked));
}

#[test]
fn test_withdraw_succeeds_at_exact_unlock_time() {
    let (mut env, token, _admin, alice, _fee) = setup();
    let unlock_time = env.now() + 3600;
    let id = env.deposit(alice, token, 1_000, unlock_time, 0).unwrap();
    env.advance_time(3600);
    env.withdraw(alice, id).unwrap();
    assert!(env.vault.get_vault(alice, id).is_none());
}

#[test]
fn test_full_lifecycle_deposit_withdraw_redeposit() {
    let (mut env, token, _admin, alice, _fee) = setup();
    let unlock_time = env.now() + 3600;
    let id = env.deposit(alice, token, 1_000, unlock_time, 0).unwrap();
    assert!(env.vault.get_vault(alice, id).is_some());
    env.advance_time(3601);
    env.withdraw(alice, id).unwrap();
    assert!(env.vault.get_vault(alice, id).is_none());
    let new_unlock = env.now() + 3600;
    let new_id = env.deposit(alice, token, 500, new_unlock, 0).unwrap();
    assert!(env.vault.get_vault(alice, new_id).is_some());
    assert_eq!(env.vault.get_vault(alice, new_id).unwrap().amount, 500);
}

// ---------------------------------------------------------------- ledger-based deposits

const MIN_LOCK_LEDGERS: u32 = safe_haven::constants::MIN_LOCK_LEDGERS;

impl Env {
    fn advance_ledger(&mut self, ledgers: u32) {
        self.ledger.sequence += ledgers;
    }
}

#[test]
fn test_withdraw_to_ledger_deposit_succeeds() {
    let (mut env, token, _admin, alice, _fee) = setup();
    let bob = env.generate();
    let unlock_ledger = env.sequence() + MIN_LOCK_LEDGERS;
    let id = env.deposit_by_ledger(alice, token, 1_000, unlock_ledger, 0).unwrap();
    env.advance_ledger(MIN_LOCK_LEDGERS);
    env.withdraw_to(alice, id, bob).unwrap();
    assert_eq!(env.balance(token, bob), 1_000);
    assert_eq!(env.balance(token, alice), 9_000);
}

#[test]
fn test_withdraw_to_ledger_deposit_still_locked_fails() {
    let (mut env, token, _admin, alice, _fee) = setup();
    let bob = env.generate();
    let unlock_ledger = env.sequence() + 100;
    let id = env.deposit_by_ledger(alice, token, 1_000, unlock_ledger, 0).unwrap();
    assert_eq!(env.withdraw_to(alice, id, bob), Err(VaultError::FundsStillLocked));
}

#[test]
fn test_withdraw_to_ledger_deposit_not_found_fails() {
    let (mut env, _token, _admin, alice, _fee) = setup();
    let bob = env.generate();
    assert_eq!(env.withdraw_to(alice, 0, bob), Err(VaultError::NoDepositFound));
}

#[test]
fn test_cancel_ledger_deposit_zero_penalty_returns_full_amount() {
    let (mut env, token, _admin, alice, _fee) = setup();
    let unlock_ledger = env.sequence() + 100;
    let id = env.deposit_by_ledger(alice, token, 1_000, unlock_ledger, 0).unwrap();
    env.cancel_deposit(alice, id).unwrap();
    assert_eq!(env.balance(token, alice), 10_000);
}

#[test]
fn test_cancel_ledger_deposit_after_unlock_fails() {
    let (mut env, token, _admin, alice, _fee) = setup();
    let unlock_ledger = env.sequence() + MIN_LOCK_LEDGERS;
    let id = env.deposit_by_ledger(alice, token, 1_000, unlock_ledger, 500).unwrap();
    env.advance_ledger(MIN_LOCK_LEDGERS);
    assert_eq!(env.cancel_deposit(alice, id), Err(VaultError::VaultAlreadyUnlocked));
}

#[test]
fn test_cancel_ledger_deposit_not_found_fails() {
    let (mut env, _token, _admin, alice, _fee) = setup();
    assert_eq!(env.cancel_deposit(alice, 99), Err(VaultError::NoDepositFound));
}

#[test]
fn test_deposit_by_ledger_blocked_when_paused() {
    let (mut env, token, admin, alice, _fee) = setup();
    env.vault.pause(admin).unwrap();
    assert!(env.vault.is_paused());
    let unlock_ledger = env.sequence() + 100;
    assert_eq!(env.deposit_by_ledger(alice, token, 1_000, unlock_ledger, 0), Err(VaultError::ContractPaused));
}

#[test]
fn test_deposit_by_ledger_succeeds_after_unpause() {
    let (mut env, token, admin, alice, _fee) = setup();
    env.vault.pause(admin).unwrap();
    env.vault.unpause(admin).unwrap();
    assert!(!env.vault.is_paused());
    let unlock_ledger = env.sequence() + 100;
    let id = env.deposit_by_ledger(alice, token, 1_000, unlock_ledger, 0).unwrap();
    assert!(id == 0);
}

#[test]
fn test_deposit_by_ledger_respects_pause() {
    let (mut env, token, admin, alice, _fee) = setup();
    let unlock_ledger = env.sequence() + 100;
    assert!(!env.vault.is_paused());
    let id = env.deposit_by_ledger(alice, token, 500, unlock_ledger, 0).unwrap();
    assert_eq!(id, 0);
    env.vault.pause(admin).unwrap();
    assert!(env.vault.is_paused());
    let unlock_ledger2 = env.sequence() + 100;
    assert_eq!(env.deposit_by_ledger(alice, token, 1_000, unlock_ledger2, 0), Err(VaultError::ContractPaused));
    env.vault.unpause(admin).unwrap();
    assert!(!env.vault.is_paused());
    let unlock_ledger3 = env.sequence() + 100;
    let id2 = env.deposit_by_ledger(alice, token, 500, unlock_ledger3, 0).unwrap();
    assert_eq!(id2, 1);
}

#[test]
fn test_deposit_by_ledger_lock_duration_too_short_fails() {
    let (mut env, token, _admin, alice, _fee) = setup();
    let unlock_ledger = env.sequence() + (MIN_LOCK_LEDGERS - 1);
    assert_eq!(
        env.deposit_by_ledger(alice, token, 1_000, unlock_ledger, 0),
        Err(VaultError::LockDurationTooShort)
    );
}

#[test]
fn test_reinitialize_after_renounce_admin_fails() {
    let (mut env, _token, admin, _alice, fee) = setup();
    let attacker = env.generate();
    env.vault.renounce_admin(admin).unwrap();
    assert_eq!(env.vault.get_admin(), None);
    assert!(env.vault.is_initialized());
    assert_eq!(env.vault.initialize(attacker, attacker, None, None), Err(VaultError::AlreadyInitialized));
    assert_eq!(env.vault.get_admin(), None);
    assert_eq!(env.vault.get_fee_recipient(), Some(fee));
}

#[test]
fn test_emergency_withdraw_ledger_deposit_succeeds() {
    let (mut env, token, admin, alice, _fee) = setup();
    let unlock_ledger = env.sequence() + 1_000;
    let id = env.deposit_by_ledger(alice, token, 2_000, unlock_ledger, 0).unwrap();
    env.emergency_withdraw(admin, alice, id).unwrap();
    assert!(env.vault.get_vault(alice, id).is_none());
    assert_eq!(env.balance(token, alice), 10_000);
    assert_eq!(env.balance(token, admin), 0);
}

#[test]
fn test_emergency_withdraw_ledger_deposit_removes_depositor() {
    let (mut env, token, admin, alice, _fee) = setup();
    let unlock_ledger = env.sequence() + 1_000;
    let id = env.deposit_by_ledger(alice, token, 1_000, unlock_ledger, 0).unwrap();
    assert_eq!(env.vault.get_depositor_count(), 1);
    env.emergency_withdraw(admin, alice, id).unwrap();
    assert_eq!(env.vault.get_depositor_count(), 0);
}

#[test]
fn test_emergency_withdraw_nonexistent_deposit_fails() {
    let (mut env, _token, admin, alice, _fee) = setup();
    assert_eq!(env.emergency_withdraw(admin, alice, 99), Err(VaultError::NoDepositFound));
}

// ---------------------------------------------------------------- active ids and depositor list

#[test]
fn test_get_deposit_ids_reflects_only_active_deposits() {
    let (mut env, token, _admin, alice, _fee) = setup();
    env.mint(token, alice, 100_000);
    for _ in 0..5 {
        let unlock = env.now() + 3600;
        env.deposit(alice, token, 100, unlock, 0).unwrap();
    }
    env.advance_time(3601);
    env.withdraw(alice, 0).unwrap();
    env.withdraw(alice, 1).unwrap();
    env.withdraw(alice, 2).unwrap();
    let ids = env.vault.get_deposit_ids(alice);
    assert_eq!(ids.len(), 2);
    assert_eq!(ids[0], 3);
    assert_eq!(ids[1], 4);
}

#[test]
fn test_add_depositor_o1_flag_handles_redeposit_correctly() {
    let (mut env, token, _admin, alice, _fee) = setup();
    let unlock = env.now() + 3600;
    env.deposit(alice, token, 1_000, unlock, 0).unwrap();
    assert_eq!(env.vault.get_depositor_count(), 1);
    env.advance_time(3601);
    env.withdraw(alice, 0).unwrap();
    assert_eq!(env.vault.get_depositor_count(), 0);
    let unlock2 = env.now() + 3600;
    env.deposit(alice, token, 500, unlock2, 0).unwrap();
    assert_eq!(env.vault.get_depositor_count(), 1);
    let page = env.vault.get_depositors(0, 10);
    assert_eq!(page.items.len(), 1);
    assert_eq!(page.items[0], alice);
}

#[test]
fn test_add_depositor_no_duplicate_in_list() {
    let (mut env, token, _admin, alice, _fee) = setup();
    env.mint(token, alice, 10_000);
    let unlock = env.now() + 3600;
    env.deposit(alice, token, 1_000, unlock, 0).unwrap();
    env.deposit(alice, token, 1_000, unlock, 0).unwrap();
    env.deposit(alice, token, 1_000, unlock, 0).unwrap();
    assert_eq!(env.vault.get_depositor_count(), 1);
}

#[test]
fn test_get_deposit_ids_includes_ledger_deposits() {
    let (mut env, token, _admin, alice, _fee) = setup();
    env.mint(token, alice, 5_000);
    let unlock_time = env.now() + 3600;
    env.deposit(alice, token, 1_000, unlock_time, 0).unwrap();
    let unlock_ledger = env.sequence() + 100;
    env.deposit_by_ledger(alice, token, 1_000, unlock_ledger, 0).unwrap();
    let ids = env.vault.get_deposit_ids(alice);
    assert_eq!(ids.len(), 2);
    assert_eq!(ids[0], 0);
    assert_eq!(ids[1], 1);
}

#[test]
fn test_get_deposit_ids_removes_ledger_deposit_on_withdraw() {
    let (mut env, token, _admin, alice, _fee) = setup();
    env.mint(token, alice, 5_000);
    let unlock_ledger = env.sequence() + MIN_LOCK_LEDGERS;
    let id = env.deposit_by_ledger(alice, token, 1_000, unlock_ledger, 0).unwrap();
    assert_eq!(env.vault.get_deposit_ids(alice).len(), 1);
    env.advance_ledger(MIN_LOCK_LEDGERS);
    env.withdraw(alice, id).unwrap();
    assert_eq!(env.vault.get_deposit_ids(alice).len(), 0);
}

// ---------------------------------------------------------------- time remaining of ledger deposits

#[test]
fn test_time_remaining_ledger_deposit_locked_returns_estimate() {
    let (mut env, token, _admin, alice, _fee) = setup();
    let remaining_ledgers: u32 = 100;
    let unlock_ledger = env.sequence() + remaining_ledgers;
    let id = env.deposit_by_ledger(alice, token, 1_000, unlock_ledger, 0).unwrap();
    let expected_secs = remaining_ledgers as u64 * 5;
    assert_eq!(env.time_remaining(alice, id), expected_secs);
}

#[test]
fn test_time_remaining_ledger_deposit_unlocked_returns_zero() {
    let (mut env, token, _admin, alice, _fee) = setup();
    let unlock_ledger = env.sequence() + MIN_LOCK_LEDGERS;
    let id = env.deposit_by_ledger(alice, token, 1_000, unlock_ledger, 0).unwrap();
    env.advance_ledger(MIN_LOCK_LEDGERS);
    assert_eq!(env.time_remaining(alice, id), 0);
}

#[test]
fn test_time_remaining_timestamp_deposit_unaffected() {
    let (mut env, token, _admin, alice, _fee) = setup();
    let unlock_time = env.now() + 3600;
    let id = env.deposit(alice, token, 1_000, unlock_time, 0).unwrap();
    env.advance_time(1800);
    assert_eq!(env.time_remaining(alice, id), 1800);
}

#[test]
fn test_time_remaining_ledger_estimate_decreases_with_progression() {
    let (mut env, token, _admin, alice, _fee) = setup();
    let remaining_ledgers: u32 = 50;
    let unlock_ledger = env.sequence() + remaining_ledgers;
    let id = env.deposit_by_ledger(alice, token, 1_000, unlock_ledger, 0).unwrap();
    let initial_estimate = env.time_remaining(alice, id);
    assert_eq!(initial_estimate, (remaining_ledgers as u64) * 5);
    env.advance_ledger(10);
    let estimate_after_10 = env.time_remaining(alice, id);
    assert_eq!(estimate_after_10, (remaining_ledgers as u64 - 10) * 5);
    assert_eq!(initial_estimate - estimate_after_10, 50);
    env.advance_ledger(20);
    let estimate_after_30 = env.time_remaining(alice, id);
    assert_eq!(estimate_after_30, (remaining_ledgers as u64 - 30) * 5);
    assert_eq!(initial_estimate - estimate_after_30, 150);
}

#[test]
fn test_time_remaining_mixed_deposit_types() {
    let (mut env, token, _admin, alice, _fee) = setup();
    let ts_unlock_time = env.now() + 3600;
    let ts_id = env.deposit(alice, token, 1_000, ts_unlock_time, 0).unwrap();
    let ledger_unlock = env.sequence() + 40;
    let ledger_id = env.deposit_by_ledger(alice, token, 1_000, ledger_unlock, 0).unwrap();
    assert_eq!(env.time_remaining(alice, ts_id), 3600);
    assert_eq!(env.time_remaining(alice, ledger_id), 200);
    env.advance_ledger(10);
    let ts_remaining = env.time_remaining(alice, ts_id);
    assert!(ts_remaining >= 3550 && ts_remaining <= 3600);
    assert_eq!(env.time_remaining(alice, ledger_id), 150);
}

#[test]
fn test_time_remaining_ledger_consistent_in_same_ledger() {
    let (mut env, token, _admin, alice, _fee) = setup();
    let unlock_ledger = env.sequence() + 20;
    let id = env.deposit_by_ledger(alice, token, 1_000, unlock_ledger, 0).unwrap();
    let estimate_1 = env.time_remaining(alice, id);
    let estimate_2 = env.time_remaining(alice, id);
    let estimate_3 = env.time_remaining(alice, id);
    assert_eq!(estimate_1, estimate_2);
    assert_eq!(estimate_2, estimate_3);
    assert_eq!(estimate_1, 100);
}

// ---------------------------------------------------------------- deposits page

#[test]
fn test_get_deposits_page_empty() {
    let (env, _token, _admin, _alice, _fee) = setup();
    let page = env.vault.get_deposits_page(0, 10);
    assert_eq!(page.len(), 0);
}

#[test]
fn test_get_deposits_page_single_deposit() {
    let (mut env, token, _admin, alice, _fee) = setup();
    let unlock = env.now() + 3600;
    let id = env.deposit(alice, token, 1_000, unlock, 0).unwrap();
    let page = env.vault.get_deposits_page(0, 10);
    assert_eq!(page.len(), 1);
    let (addr, dep_id, entry) = page[0];
    assert_eq!(addr, alice);
    assert_eq!(dep_id, id);
    assert_eq!(entry.amount, 1_000);
}

#[test]
fn test_get_deposits_page_multiple_depositors() {
    let (mut env, token, _admin, alice, _fee) = setup();
    let bob = env.generate();
    env.mint(token, bob, 5_000);
    let unlock = env.now() + 3600;
    env.deposit(alice, token, 1_000, unlock, 0).unwrap();
    env.deposit(bob, token, 2_000, unlock, 0).unwrap();
    let page = env.vault.get_deposits_page(0, 10);
    assert_eq!(page.len(), 2);
}

#[test]
fn test_get_deposits_page_pagination() {
    let (mut env, token, _admin, alice, _fee) = setup();
    env.mint(token, alice, 50_000);
    let unlock = env.now() + 3600;
    env.deposit(alice, token, 100, unlock, 0).unwrap();
    env.deposit(alice, token, 200, unlock, 0).unwrap();
    env.deposit(alice, token, 300, unlock, 0).unwrap();
    assert_eq!(env.vault.get_deposits_page(0, 2).len(), 2);
    assert_eq!(env.vault.get_deposits_page(2, 2).len(), 1);
    assert_eq!(env.vault.get_deposits_page(3, 10).len(), 0);
}

#[test]
fn test_get_deposits_page_excludes_withdrawn() {
    let (mut env, token, _admin, alice, _fee) = setup();
    let unlock = env.now() + 3600;
    let id = env.deposit(alice, token, 1_000, unlock, 0).unwrap();
    env.advance_time(3601);
    env.withdraw(alice, id).unwrap();
    assert_eq!(env.vault.get_deposits_page(0, 10).len(), 0);
}

#[test]
fn test_bump_threshold_derived_from_bump_target() {
    assert!(BUMP_TARGET > 0, "BUMP_TARGET must be positive");
    assert_eq!(BUMP_THRESHOLD, BUMP_TARGET / 2);
}

// ---------------------------------------------------------------- migration

#[test]
fn test_get_storage_version_unset() {
    let (env, _token, _admin, _alice, _fee) = setup();
    assert_eq!(env.vault.get_storage_version(), None);
}

#[test]
fn test_upgrade_harness_handles_legacy_deploy() {
    let (mut env, token, admin, alice, _fee) = setup();
    let unlock_time = env.now() + 3600;
    let deposit_id = env.deposit(alice, token, 1_000, unlock_time, 0).unwrap();
    // A deployment from before versioning carries no stored version.
    env.vault.config.storage_version = None;
    assert_eq!(env.vault.get_storage_version(), None);
    let legacy_entry = env.vault.get_vault(alice, deposit_id).expect("legacy deposit should remain readable");
    assert_eq!(legacy_entry.amount, 1_000);
    assert_eq!(legacy_entry.unlock_time, unlock_time);
    assert!(env.vault.migrate(admin).unwrap(), "first migrate call should return true");
    assert_eq!(env.vault.get_storage_version(), Some(1));
    assert!(!env.vault.migrate(admin).unwrap(), "second migrate call should return false");
    assert_eq!(env.vault.get_storage_version(), Some(1));
    let migrated_entry = env.vault.get_vault(alice, deposit_id).expect("deposit should survive migration");
    assert_eq!(migrated_entry.amount, 1_000);
    assert_eq!(migrated_entry.unlock_time, unlock_time);
}

#[test]
fn test_migrate_sets_version() {
    let (mut env, _token, admin, _alice, _fee) = setup();
    let migrated = env.vault.migrate(admin).unwrap();
    assert!(migrated, "first migrate call should return true");
    assert_eq!(env.vault.get_storage_version(), Some(1));
}

#[test]
fn test_migrate_idempotent() {
    let (mut env, _token, admin, _alice, _fee) = setup();
    env.vault.migrate(admin).unwrap();
    let migrated_again = env.vault.migrate(admin).unwrap();
    assert!(!migrated_again, "second migrate call should return false");
    assert_eq!(env.vault.get_storage_version(), Some(1));
}

#[test]
fn test_migrate_non_admin_fails() {
    let (mut env, _token, _admin, alice, _fee) = setup();
    assert_eq!(env.vault.migrate(alice), Err(VaultError::Unauthorized));
}

#[test]
fn test_remove_depositor_o1_no_duplicate_on_redeposit() {
    let (mut env, token, _admin, alice, _fee) = setup();
    env.mint(token, alice, 10_000);
    let unlock = env.now() + 3600;
    env.deposit(alice, token, 1_000, unlock, 0).unwrap();
    assert_eq!(env.vault.get_depositor_count(), 1);
    env.advance_time(3601);
    env.withdraw(alice, 0).unwrap();
    assert_eq!(env.vault.get_depositor_count(), 0);
    let unlock2 = env.now() + 3600;
    env.deposit(alice, token, 500, unlock2, 0).unwrap();
    assert_eq!(env.vault.get_depositor_count(), 1);
    let page = env.vault.get_depositors(0, 10);
    assert_eq!(page.items.len(), 1);
    assert_eq!(page.items[0], alice);
}

#[test]
fn test_deposit_by_ledger_withdraw_lifecycle() {
    let (mut env, token, _admin, alice, _fee) = setup();
    assert_eq!(env.balance(token, alice), 10_000);
    let unlock_ledger = env.sequence() + 50;
    let id = env.deposit_by_ledger(alice, token, 5_000, unlock_ledger, 0).unwrap();
    assert_eq!(id, 0);
    assert!(env.vault.get_vault(alice, id).is_none());
    let ledger_entry = env.vault.get_ledger_vault(alice, id).expect("ledger deposit should exist");
    assert_eq!(ledger_entry.amount, 5_000);
    assert_eq!(ledger_entry.unlock_ledger, unlock_ledger);
    assert_eq!(ledger_entry.depositor, alice);
    assert_eq!(env.balance(token, alice), 5_000);
    assert_eq!(env.withdraw(alice, id), Err(VaultError::FundsStillLocked));
    env.advance_ledger(25);
    assert_eq!(env.withdraw(alice, id), Err(VaultError::FundsStillLocked));
    env.advance_ledger(25);
    assert_eq!(env.sequence(), unlock_ledger);
    env.withdraw(alice, id).unwrap();
    assert!(env.vault.get_ledger_vault(alice, id).is_none());
    assert_eq!(env.balance(token, alice), 10_000);
}

#[test]
fn test_cancel_deposit_ledger_based_zero_penalty() {
    let (mut env, token, _admin, alice, _fee) = setup();
    let unlock_ledger = env.sequence() + 100;
    let id = env.deposit_by_ledger(alice, token, 3_000, unlock_ledger, 0).unwrap();
    assert_eq!(env.balance(token, alice), 7_000);
    env.cancel_deposit(alice, id).unwrap();
    assert_eq!(env.balance(token, alice), 10_000);
    assert!(env.vault.get_vault(alice, id).is_none());
}

#[test]
fn test_cancel_deposit_ledger_based_after_unlock_fails() {
    let (mut env, token, _admin, alice, _fee) = setup();
    let unlock_ledger = env.sequence() + MIN_LOCK_LEDGERS;
    let id = env.deposit_by_ledger(alice, token, 2_000, unlock_ledger, 500).unwrap();
    env.advance_ledger(MIN_LOCK_LEDGERS);
    assert_eq!(env.cancel_deposit(alice, id), Err(VaultError::VaultAlreadyUnlocked));
}

#[test]
fn test_cancel_deposit_ledger_based_not_found() {
    let (mut env, _token, _admin, alice, _fee) = setup();
    assert_eq!(env.cancel_deposit(alice, 999), Err(VaultError::NoDepositFound));
}

#[test]
fn test_emergency_withdraw_ledger_based_succeeds() {
    let (mut env, token, admin, alice, _fee) = setup();
    let unlock_ledger = env.sequence() + 500;
    let id = env.deposit_by_ledger(alice, token, 3_500, unlock_ledger, 0).unwrap();
    assert_eq!(env.balance(token, alice), 6_500);
    env.emergency_withdraw(admin, alice, id).unwrap();
    assert_eq!(env.balance(token, alice), 10_000);
    assert!(env.vault.get_vault(alice, id).is_none());
}

#[test]
fn test_emergency_withdraw_ledger_based_non_admin_fails() {
    let (mut env, token, _admin, alice, _fee) = setup();
    let bob = env.generate();
    let unlock_ledger = env.sequence() + 500;
    env.deposit_by_ledger(alice, token, 2_000, unlock_ledger, 0).unwrap();
    assert_eq!(env.emergency_withdraw(bob, alice, 0), Err(VaultError::Unauthorized));
}

#[test]
fn test_emergency_withdraw_ledger_based_not_found() {
    let (mut env, _token, admin, alice, _fee) = setup();
    assert_eq!(env.emergency_withdraw(admin, alice, 999), Err(VaultError::NoDepositFound));
}

// ---------------------------------------------------------------- batches

#[test]
fn test_batch_deposit_returns_ids_and_creates_all_entries() {
    let (mut env, token, _admin, alice, _fee) = setup();
    env.mint(token, alice, 2_000);
    let deposits = vec![
        DepositRequest { token, amount: 1_000, unlock_time: env.now() + 3600, penalty_bps: 0 },
        DepositRequest { token, amount: 1_000, unlock_time: env.now() + 7200, penalty_bps: 0 },
    ];
    let ids = env.batch_deposit(alice, deposits).unwrap();
    assert_eq!(ids.len(), 2);
    assert_eq!(ids.get(0), Some(&0));
    assert_eq!(ids.get(1), Some(&1));
    assert_eq!(env.vault.get_vault(alice, 0).unwrap().amount, 1_000);
    assert_eq!(env.vault.get_vault(alice, 1).unwrap().amount, 1_000);
}

#[test]
fn test_batch_deposit_is_atomic_when_one_request_is_invalid() {
    let (mut env, token, _admin, alice, _fee) = setup();
    let deposits = vec![
        DepositRequest { token, amount: 1_000, unlock_time: env.now() + 3600, penalty_bps: 0 },
        DepositRequest { token, amount: 0, unlock_time: env.now() + 7200, penalty_bps: 0 },
    ];
    assert_eq!(env.batch_deposit(alice, deposits), Err(VaultError::InvalidAmount));
    assert_eq!(env.vault.get_deposit_ids(alice).len(), 0);
}

#[test]
fn test_batch_deposit_rejects_more_than_max_batch_size() {
    let (mut env, token, _admin, alice, _fee) = setup();
    let mut deposits = Vec::new();
    for _ in 0..26 {
        deposits.push(DepositRequest { token, amount: 1, unlock_time: env.now() + 3600, penalty_bps: 0 });
    }
    assert_eq!(env.batch_deposit(alice, deposits), Err(VaultError::BatchTooLarge));
}

#[test]
fn test_get_vault_batch_clamps_at_max_batch_size() {
    let (mut env, token, _admin, alice, _fee) = setup();
    let unlock_time = env.now() + 3600;
    env.deposit(alice, token, 1_000, unlock_time, 0).unwrap();
    let mut depositors = Vec::new();
    let excess = MAX_BATCH_SIZE + 5;
    for _ in 0..excess {
        depositors.push(alice);
    }
    let results = env.vault.get_vault_batch(depositors, 0);
    assert_eq!(results.len(), MAX_BATCH_SIZE as usize);
    for i in 0..MAX_BATCH_SIZE as usize {
        let entry = results[i];
        assert!(entry.is_some(), "index {} should have a deposit", i);
        assert_eq!(entry.unwrap().amount, 1_000);
    }
}

#[test]
fn test_get_vault_batch_smaller_than_max_returns_exact_count() {
    let (mut env, token, _admin, alice, _fee) = setup();
    let (bob, carol) = three_depositors(&mut env, token, alice);
    let results = env.vault.get_vault_batch(vec![alice, bob, carol], 0);
    assert_eq!(results.len(), 3);
}

#[test]
fn test_get_deposit_batch_clamps_at_max_batch_size() {
    let (env, _token, _admin, alice, _fee) = setup();
    let deposit_ids: Vec<u32> = (0u32..(MAX_BATCH_SIZE + 5)).collect();
    let results = env.vault.get_deposit_batch(alice, deposit_ids);
    assert_eq!(results.len(), MAX_BATCH_SIZE as usize);
}

// ---------------------------------------------------------------- multi-token deposits

/// A vault with two tokens, alice holding 10_000 of each: returns the
/// environment, token a, token b, the admin, alice and the fee recipient.
fn setup_multi_token() -> (Env, Address, Address, Address, Address, Address) {
    let mut env = Env::new();
    let admin = env.generate();
    let alice = env.generate();
    let fee_recipient = env.generate();
    let token_a = env.generate();
    let token_b = env.generate();
    env.mint(token_a, alice, 10_000);
    env.mint(token_b, alice, 10_000);
    env.vault.initialize(admin, fee_recipient, None, None).unwrap();
    (env, token_a, token_b, admin, alice, fee_recipient)
}

#[test]
fn test_multi_deposit_success() {
    let (mut env, token_a, token_b, _admin, alice, _fee) = setup_multi_token();
    let unlock_time = env.now() + 3600;
    let tokens = vec![TokenDeposit { token: token_a, amount: 500 }, TokenDeposit { token: token_b, amount: 300 }];
    let id = env.multi_deposit(alice, tokens, unlock_time, 0).unwrap();
    assert_eq!(id, 0);
    let entry = env.vault.get_multi_vault(alice, id).expect("multi vault should exist");
    assert_eq!(entry.tokens.len(), 2);
    assert_eq!(entry.unlock_time, unlock_time);
    assert_eq!(entry.depositor, alice);
    assert_eq!(entry.penalty_bps, 0);
}

#[test]
fn test_multi_deposit_transfers_tokens() {
    let (mut env, token_a, token_b, _admin, alice, _fee) = setup_multi_token();
    let unlock_time = env.now() + 3600;
    assert_eq!(env.balance(token_a, alice), 10_000);
    assert_eq!(env.balance(token_b, alice), 10_000);
    let tokens = vec![TokenDeposit { token: token_a, amount: 500 }, TokenDeposit { token: token_b, amount: 300 }];
    env.multi_deposit(alice, tokens, unlock_time, 0).unwrap();
    assert_eq!(env.balance(token_a, alice), 9_500);
    assert_eq!(env.balance(token_b, alice), 9_700);
}

#[test]
fn test_multi_deposit_max_tokens_enforced() {
    let (mut env, _token_a, _token_b, _admin, alice, _fee) = setup_multi_token();
    let unlock_time = env.now() + 3600;
    let mut tokens = Vec::new();
    for _ in 0u32..6 {
        let extra_token = env.generate();
        env.mint(extra_token, alice, 1_000);
        tokens.push(TokenDeposit { token: extra_token, amount: 100 });
    }
    assert_eq!(env.multi_deposit(alice, tokens, unlock_time, 0), Err(VaultError::TooManyTokens));
}

#[test]
fn test_multi_deposit_empty_list_rejected() {
    let (mut env, _token_a, _token_b, _admin, alice, _fee) = setup_multi_token();
    let unlock_time = env.now() + 3600;
    assert_eq!(env.multi_deposit(alice, Vec::new(), unlock_time, 0), Err(VaultError::EmptyTokenList));
}

#[test]
fn test_multi_deposit_withdraw_returns_all_tokens() {
    let (mut env, token_a, token_b, _admin, alice, _fee) = setup_multi_token();
    let unlock_time = env.now() + 3600;
    let tokens = vec![TokenDeposit { token: token_a, amount: 500 }, TokenDeposit { token: token_b, amount: 300 }];
    let id = env.multi_deposit(alice, tokens, unlock_time, 0).unwrap();
    env.advance_time(3601);
    env.withdraw(alice, id).unwrap();
    assert_eq!(env.balance(token_a, alice), 10_000);
    assert_eq!(env.balance(token_b, alice), 10_000);
    assert!(env.vault.get_multi_vault(alice, id).is_none());
}

#[test]
fn test_multi_deposit_withdraw_locked_fails() {
    let (mut env, token_a, token_b, _admin, alice, _fee) = setup_multi_token();
    let unlock_time = env.now() + 3600;
    let tokens = vec![TokenDeposit { token: token_a, amount: 500 }, TokenDeposit { token: token_b, amount: 300 }];
    let id = env.multi_deposit(alice, tokens, unlock_time, 0).unwrap();
    assert_eq!(env.withdraw(alice, id), Err(VaultError::FundsStillLocked));
}

#[test]
fn test_multi_deposit_single_token_allowed() {
    let (mut env, token_a, _token_b, _admin, alice, _fee) = setup_multi_token();
    let unlock_time = env.now() + 3600;
    let id = env.multi_deposit(alice, vec![TokenDeposit { token: token_a, amount: 500 }], unlock_time, 0).unwrap();
    let entry = env.vault.get_multi_vault(alice, id).expect("should exist");
    assert_eq!(entry.tokens.len(), 1);
}

#[test]
fn test_multi_deposit_get_deposit_type() {
    let (mut env, token_a, token_b, _admin, alice, _fee) = setup_multi_token();
    let unlock_time = env.now() + 3600;
    let tokens = vec![TokenDeposit { token: token_a, amount: 500 }, TokenDeposit { token: token_b, amount: 300 }];
    let id = env.multi_deposit(alice, tokens, unlock_time, 0).unwrap();
    assert_eq!(env.vault.get_deposit_type(alice, id), Some(DepositType::MultiToken));
}

#[test]
fn test_multi_deposit_invalid_amount_rejected() {
    let (mut env, token_a, _token_b, _admin, alice, _fee) = setup_multi_token();
    let unlock_time = env.now() + 3600;
    assert_eq!(
        env.multi_deposit(alice, vec![TokenDeposit { token: token_a, amount: 0 }], unlock_time, 0),
        Err(VaultError::InvalidAmount)
    );
}

#[test]
fn test_multi_deposit_cancel_with_penalty() {
    let (mut env, token_a, _token_b, _admin, alice, fee) = setup_multi_token();
    let unlock_time = env.now() + 3600;
    let id = env.multi_deposit(alice, vec![TokenDeposit { token: token_a, amount: 1_000 }], unlock_time, 1000).unwrap();
    env.cancel_deposit(alice, id).unwrap();
    assert_eq!(env.balance(token_a, alice), 9_900);
    assert_eq!(env.balance(token_a, fee), 100);
    assert!(env.vault.get_multi_vault(alice, id).is_none());
}

// ---------------------------------------------------------------- withdrawal whitelist

#[test]
fn test_whitelist_set_and_get() {
    let (mut env, token, _admin, alice, _fee) = setup();
    let unlock_time = env.now() + 3600;
    let id = env.deposit(alice, token, 1_000, unlock_time, 0).unwrap();
    let bob = env.generate();
    env.vault.set_withdrawal_whitelist(alice, id, vec![bob]).unwrap();
    let stored = env.vault.get_withdrawal_whitelist(alice, id).expect("whitelist should be set");
    assert_eq!(stored.len(), 1);
    assert_eq!(stored.get(0), Some(&bob));
}

#[test]
fn test_whitelist_empty_means_no_restriction() {
    let (mut env, token, _admin, alice, _fee) = setup();
    let unlock_time = env.now() + 3600;
    let id = env.deposit(alice, token, 1_000, unlock_time, 0).unwrap();
    env.vault.set_withdrawal_whitelist(alice, id, Vec::new()).unwrap();
    env.advance_time(3601);
    let bob = env.generate();
    env.withdraw_to(alice, id, bob).unwrap();
    assert_eq!(env.balance(token, bob), 1_000);
}

#[test]
fn test_whitelist_recipient_allowed() {
    let (mut env, token, _admin, alice, _fee) = setup();
    let unlock_time = env.now() + 3600;
    let id = env.deposit(alice, token, 1_000, unlock_time, 0).unwrap();
    let bob = env.generate();
    env.vault.set_withdrawal_whitelist(alice, id, vec![bob]).unwrap();
    env.advance_time(3601);
    env.withdraw_to(alice, id, bob).unwrap();
    assert_eq!(env.balance(token, bob), 1_000);
}

#[test]
fn test_whitelist_non_whitelisted_recipient_rejected() {
    let (mut env, token, _admin, alice, _fee) = setup();
    let unlock_time = env.now() + 3600;
    let id = env.deposit(alice, token, 1_000, unlock_time, 0).unwrap();
    let bob = env.generate();
    let carol = env.generate();
    env.vault.set_withdrawal_whitelist(alice, id, vec![bob]).unwrap();
    env.advance_time(3601);
    assert_eq!(env.withdraw_to(alice, id, carol), Err(VaultError::RecipientNotWhitelisted));
}

#[test]
fn test_whitelist_no_whitelist_means_no_restriction() {
    let (mut env, token, _admin, alice, _fee) = setup();
    let unlock_time = env.now() + 3600;
    let id = env.deposit(alice, token, 1_000, unlock_time, 0).unwrap();
    let bob = env.generate();
    env.advance_time(3601);
    env.withdraw_to(alice, id, bob).unwrap();
    assert_eq!(env.balance(token, bob), 1_000);
}

#[test]
fn test_whitelist_on_nonexistent_deposit_fails() {
    let (mut env, _token, _admin, alice, _fee) = setup();
    let bob = env.generate();
    assert_eq!(env.vault.set_withdrawal_whitelist(alice, 999, vec![bob]), Err(VaultError::NoDepositFound));
}

#[test]
fn test_whitelist_multiple_allowed_recipients() {
    let (mut env, token, _admin, alice, _fee) = setup();
    let unlock_time = env.now() + 3600;
    let id = env.deposit(alice, token, 1_000, unlock_time, 0).unwrap();
    let bob = env.generate();
    let carol = env.generate();
    let dan = env.generate();
    env.vault.set_withdrawal_whitelist(alice, id, vec![bob, carol]).unwrap();
    env.advance_time(3601);
    env.withdraw_to(alice, id, carol).unwrap();
    assert_eq!(env.balance(token, carol), 1_000);
    let unlock2 = env.now() + 3600;
    let id2 = env.deposit(alice, token, 1_000, unlock2, 0).unwrap();
    env.vault.set_withdrawal_whitelist(alice, id2, vec![bob]).unwrap();
    env.advance_time(3601);
    assert_eq!(env.withdraw_to(alice, id2, dan), Err(VaultError::RecipientNotWhitelisted));
}

#[test]
fn test_whitelist_on_multi_token_deposit() {
    let (mut env, token_a, token_b, _admin, alice, _fee) = setup_multi_token();
    let unlock_time = env.now() + 3600;
    let tokens = vec![TokenDeposit { token: token_a, amount: 500 }, TokenDeposit { token: token_b, amount: 300 }];
    let id = env.multi_deposit(alice, tokens, unlock_time, 0).unwrap();
    let bob = env.generate();
    let carol = env.generate();
    env.vault.set_withdrawal_whitelist(alice, id, vec![bob]).unwrap();
    env.advance_time(3601);
    assert_eq!(env.withdraw_to(alice, id, carol), Err(VaultError::RecipientNotWhitelisted));
    env.withdraw_to(alice, id, bob).unwrap();
    assert_eq!(env.balance(token_a, bob), 500);
    assert_eq!(env.balance(token_b, bob), 300);
}

// ---------------------------------------------------------------- compound interest

#[test]
fn test_deposit_with_compound_interest_success() {
    let (mut env, token, _admin, alice, _fee) = setup();
    let unlock_time = env.now() + 3600;
    let id = env.deposit_with_compound_interest(alice, token, 10_000, unlock_time, 0, 60).unwrap();
    let entry = env.vault.get_vault(alice, id).expect("entry should exist");
    assert_eq!(entry.amount, 10_000);
    assert_eq!(entry.compound_frequency_secs, 60);
}

#[test]
fn test_compound_interest_no_frequency_disabled() {
    let (mut env, token, _admin, alice, _fee) = setup();
    let unlock_time = env.now() + 3600;
    let id = env.deposit_with_compound_interest(alice, token, 10_000, unlock_time, 0, 0).unwrap();
    let entry = env.vault.get_vault(alice, id).expect("entry should exist");
    assert_eq!(entry.compound_frequency_secs, 0);
    let ledger = env.ledger;
    let accrued = env.vault.update_accrual(ledger, alice, id).unwrap();
    assert!(!accrued);
}

#[test]
fn test_compound_frequency_too_short_rejected() {
    let (mut env, token, _admin, alice, _fee) = setup();
    let unlock_time = env.now() + 3600;
    assert_eq!(
        env.deposit_with_compound_interest(alice, token, 10_000, unlock_time, 0, 30),
        Err(VaultError::InvalidCompoundFrequency)
    );
}

#[test]
fn test_update_accrual_no_periods_elapsed_is_noop() {
    let (mut env, token, _admin, alice, _fee) = setup();
    let unlock_time = env.now() + 7200;
    let id = env.deposit_with_compound_interest(alice, token, 10_000, unlock_time, 0, 3600).unwrap();
    env.advance_time(30);
    let ledger = env.ledger;
    let accrued = env.vault.update_accrual(ledger, alice, id).unwrap();
    assert!(!accrued);
    assert_eq!(env.vault.get_vault(alice, id).unwrap().amount, 10_000);
}

#[test]
fn test_update_accrual_one_period() {
    let (mut env, token, _admin, alice, _fee) = setup();
    env.mint(token, alice, 500_000);
    let unlock_time = env.now() + 7200;
    let id = env.deposit_with_compound_interest(alice, token, 500_000, unlock_time, 0, 3600).unwrap();
    env.advance_time(3600);
    let ledger = env.ledger;
    let accrued = env.vault.update_accrual(ledger, alice, id).unwrap();
    assert!(accrued, "interest should accrue after one full period");
    let entry = env.vault.get_vault(alice, id).unwrap();
    assert!(entry.amount > 500_000, "balance should have grown after accrual");
}

#[test]
fn test_get_current_balance_reflects_accrual() {
    let (mut env, token, _admin, alice, _fee) = setup();
    env.mint(token, alice, 500_000);
    let unlock_time = env.now() + 7200;
    let id = env.deposit_with_compound_interest(alice, token, 500_000, unlock_time, 0, 3600).unwrap();
    let bal_before = env.vault.get_current_balance(env.ledger, alice, id).expect("should exist");
    assert_eq!(bal_before, 500_000);
    env.advance_time(3600);
    let bal_after = env.vault.get_current_balance(env.ledger, alice, id).expect("should exist");
    assert!(bal_after > 500_000, "balance should reflect interest after one period");
}

#[test]
fn test_get_current_balance_not_found() {
    let (env, _token, _admin, alice, _fee) = setup();
    assert!(env.vault.get_current_balance(env.ledger, alice, 999).is_none());
}

#[test]
fn test_withdraw_includes_accrued_interest() {
    let (mut env, token, _admin, alice, _fee) = setup();
    env.mint(token, alice, 500_000);
    let unlock_time = env.now() + 7200;
    let id = env.deposit_with_compound_interest(alice, token, 500_000, unlock_time, 0, 3600).unwrap();
    env.advance_time(7200);
    let expected_balance = env.vault.get_current_balance(env.ledger, alice, id).expect("should exist");
    assert!(expected_balance > 500_000, "expected interest to accrue");
    let interest = expected_balance.saturating_sub(500_000);
    if interest > 0 {
        env.mint(token, VAULT, interest);
    }
    let bal_before = env.balance(token, alice);
    env.withdraw(alice, id).unwrap();
    let bal_after = env.balance(token, alice);
    assert_eq!(bal_after.saturating_sub(bal_before), expected_balance);
}

#[test]
fn test_update_accrual_advances_timestamp() {
    let (mut env, token, _admin, alice, _fee) = setup();
    env.mint(token, alice, 10_512_000);
    let unlock_time = env.now() + 7200;
    let id = env.deposit_with_compound_interest(alice, token, 10_512_000, unlock_time, 0, 60).unwrap();
    let before = env.vault.get_vault(alice, id).unwrap().last_accrual_timestamp;
    env.advance_time(120);
    let ledger = env.ledger;
    env.vault.update_accrual(ledger, alice, id).unwrap();
    let after = env.vault.get_vault(alice, id).unwrap().last_accrual_timestamp;
    assert_eq!(after, before.saturating_add(120));
}

#[test]
fn test_update_accrual_multiple_periods() {
    let (mut env, token, _admin, alice, _fee) = setup();
    env.mint(token, alice, 10_512_000);
    let unlock_time = env.now() + 100_000;
    let id = env.deposit_with_compound_interest(alice, token, 10_512_000, unlock_time, 0, 60).unwrap();
    env.advance_time(300);
    let ledger = env.ledger;
    env.vault.update_accrual(ledger, alice, id).unwrap();
    let entry = env.vault.get_vault(alice, id).unwrap();
    assert!(entry.amount > 10_512_000, "amount should grow after 5 compound periods");
}

#[test]
fn test_compound_interest_regular_deposit_has_zero_frequency() {
    let (mut env, token, _admin, alice, _fee) = setup();
    let unlock_time = env.now() + 3600;
    let id = env.deposit(alice, token, 1_000, unlock_time, 0).unwrap();
    assert_eq!(env.vault.get_vault(alice, id).unwrap().compound_frequency_secs, 0);
}

#[test]
fn test_update_accrual_on_nonexistent_deposit_fails() {
    let (mut env, _token, _admin, alice, _fee) = setup();
    let ledger = env.ledger;
    assert_eq!(env.vault.update_accrual(ledger, alice, 999), Err(VaultError::NoDepositFound));
}

#[test]
fn test_withdraw_to_with_whitelist_and_compound_interest() {
    let (mut env, token, _admin, alice, _fee) = setup();
    env.mint(token, alice, 500_000);
    let unlock_time = env.now() + 7200;
    let id = env.deposit_with_compound_interest(alice, token, 500_000, unlock_time, 0, 3600).unwrap();
    let bob = env.generate();
    env.vault.set_withdrawal_whitelist(alice, id, vec![bob]).unwrap();
    env.advance_time(7200);
    let expected = env.vault.get_current_balance(env.ledger, alice, id).expect("should exist");
    assert!(expected > 500_000, "expected accrued balance to exceed principal");
    let interest = expected.saturating_sub(500_000);
    if interest > 0 {
        env.mint(token, VAULT, interest);
    }
    env.withdraw_to(alice, id, bob).unwrap();
    assert_eq!(env.balance(token, bob), expected);
}

// ---------------------------------------------------------------- staker registry

#[test]
fn test_register_staker_success() {
    let (mut env, _token, _admin, alice, _fee) = setup();
    assert!(env.vault.register_staker(alice, 1000).is_ok());
}

#[test]
fn test_register_staker_zero_amount_fails() {
    let (mut env, _token, _admin, alice, _fee) = setup();
    let result = env.vault.register_staker(alice, 0);
    assert!(result.is_err());
    assert_eq!(result.err().unwrap(), VaultError::InvalidStakeAmount);
}

#[test]
fn test_register_staker_negative_amount_fails() {
    let (mut env, _token, _admin, alice, _fee) = setup();
    let result = env.vault.register_staker(alice, -1000);
    assert!(result.is_err());
    assert_eq!(result.err().unwrap(), VaultError::InvalidStakeAmount);
}

#[test]
fn test_multiple_stakers_register() {
    let mut env = Env::new();
    let admin = env.generate();
    let alice = env.generate();
    let bob = env.generate();
    let carol = env.generate();
    let fee_recipient = env.generate();
    env.vault.initialize(admin, fee_recipient, None, None).unwrap();
    env.vault.register_staker(alice, 1000).unwrap();
    env.vault.register_staker(bob, 2000).unwrap();
    env.vault.register_staker(carol, 3000).unwrap();
}

#[test]
fn test_claim_staker_rewards_requires_registration() {
    let (mut env, _token, _admin, alice, _fee) = setup();
    let result = env.vault.claim_staker_rewards(alice);
    assert!(result.is_err());
    assert_eq!(result.err().unwrap(), VaultError::StakerNotFound);
}

#[test]
fn test_claim_staker_rewards_with_empty_pool() {
    let (mut env, _token, _admin, alice, _fee) = setup();
    env.vault.register_staker(alice, 1000).unwrap();
    let result = env.vault.claim_staker_rewards(alice);
    assert!(result.is_err());
    assert_eq!(result.err().unwrap(), VaultError::NoRewardsToClaim);
}

#[test]
fn test_single_staker_claims_full_rewards() {
    let mut env = Env::new();
    let admin = env.generate();
    let alice = env.generate();
    let fee_recipient = env.generate();
    let token = env.generate();
    env.mint(token, alice, 10_000);
    env.vault.initialize(admin, fee_recipient, None, None).unwrap();
    env.vault.register_staker(alice, 1000).unwrap();
    let unlock_time = env.now() + 3600;
    let deposit_id = env.deposit(alice, token, 1000, unlock_time, 1000).unwrap();
    env.cancel_deposit(alice, deposit_id).unwrap();
    let result = env.vault.claim_staker_rewards(alice);
    assert!(result.is_ok());
}

#[test]
fn test_multiple_stakers_proportional_rewards() {
    let mut env = Env::new();
    let admin = env.generate();
    let alice = env.generate();
    let bob = env.generate();
    let fee_recipient = env.generate();
    let token = env.generate();
    env.mint(token, alice, 10_000);
    env.mint(token, bob, 10_000);
    env.vault.initialize(admin, fee_recipient, None, None).unwrap();
    env.vault.register_staker(alice, 1000).unwrap();
    env.vault.register_staker(bob, 3000).unwrap();
    let unlock_time = env.now() + 3600;
    let deposit_id = env.deposit(alice, token, 1000, unlock_time, 1000).unwrap();
    env.cancel_deposit(alice, deposit_id).unwrap();
    assert!(env.vault.claim_staker_rewards(alice).is_ok());
    assert!(env.vault.claim_staker_rewards(bob).is_ok());
}

#[test]
fn test_penalty_split_percentages() {
    assert_eq!(STAKER_PENALTY_BPS + FEE_RECIPIENT_PENALTY_BPS, 10_000);
}

#[test]
fn test_register_staker_auth_required() {
    let mut env = Env::new();
    let admin = env.generate();
    let alice = env.generate();
    let fee_recipient = env.generate();
    env.vault.initialize(admin, fee_recipient, None, None).unwrap();
    env.vault.register_staker(alice, 1000).unwrap();
}

#[test]
fn test_claim_staker_rewards_auth_required() {
    let mut env = Env::new();
    let admin = env.generate();
    let alice = env.generate();
    let fee_recipient = env.generate();
    let token = env.generate();
    env.mint(token, alice, 10_000);
    env.vault.initialize(admin, fee_recipient, None, None).unwrap();
    env.vault.register_staker(alice, 1000).unwrap();
    let unlock_time = env.now() + 3600;
    let deposit_id = env.deposit(alice, token, 1000, unlock_time, 1000).unwrap();
    env.cancel_deposit(alice, deposit_id).unwrap();
    env.vault.claim_staker_rewards(alice).unwrap();
}

// ---------------------------------------------------------------- recurring deposits

fn create_default_subscription(env: &mut Env, depositor: Address, token: Address) -> u32 {
    let ledger = env.ledger;
    env.vault.create_subscription(ledger, depositor, token, 1_000, 120, 3, 120, 0).unwrap()
}

fn try_create_subscription(
    env: &mut Env,
    depositor: Address,
    token: Address,
    amount: i128,
    interval: u64,
    count: u32,
    lock: u64,
    bps: u32,
) -> Result<u32, VaultError> {
    let ledger = env.ledger;
    env.vault.create_subscription(ledger, depositor, token, amount, interval, count, lock, bps)
}

#[test]
fn test_create_subscription_success() {
    let (mut env, token, _admin, alice, _fee) = setup();
    let sub_id = create_default_subscription(&mut env, alice, token);
    assert_eq!(sub_id, 0);
    let sub = env.vault.get_subscription(alice, sub_id).unwrap();
    assert_eq!(sub.depositor, alice);
    assert_eq!(sub.token, token);
    assert_eq!(sub.amount, 1_000);
    assert_eq!(sub.interval_secs, 120);
    assert_eq!(sub.total_count, 3);
    assert_eq!(sub.executed_count, 0);
    assert_eq!(sub.lock_duration_secs, 120);
    assert_eq!(sub.penalty_bps, 0);
    assert!(!sub.cancelled);
}

#[test]
fn test_create_subscription_ids_increment() {
    let (mut env, token, _admin, alice, _fee) = setup();
    let id0 = create_default_subscription(&mut env, alice, token);
    let id1 = create_default_subscription(&mut env, alice, token);
    assert_eq!(id0, 0);
    assert_eq!(id1, 1);
    assert_eq!(env.vault.get_subscription_ids(alice).len(), 2);
}

#[test]
fn test_create_subscription_invalid_amount() {
    let (mut env, token, _admin, alice, _fee) = setup();
    assert_eq!(try_create_subscription(&mut env, alice, token, 0, 120, 3, 120, 0), Err(VaultError::InvalidAmount));
}

#[test]
fn test_create_subscription_zero_interval_fails() {
    let (mut env, token, _admin, alice, _fee) = setup();
    assert_eq!(
        try_create_subscription(&mut env, alice, token, 1_000, 0, 3, 120, 0),
        Err(VaultError::InvalidSubscriptionParams)
    );
}

#[test]
fn test_create_subscription_zero_count_fails() {
    let (mut env, token, _admin, alice, _fee) = setup();
    assert_eq!(
        try_create_subscription(&mut env, alice, token, 1_000, 120, 0, 120, 0),
        Err(VaultError::InvalidSubscriptionParams)
    );
}

#[test]
fn test_create_subscription_lock_duration_too_short_fails() {
    let (mut env, token, _admin, alice, _fee) = setup();
    assert_eq!(
        try_create_subscription(&mut env, alice, token, 1_000, 120, 3, 10, 0),
        Err(VaultError::LockDurationTooShort)
    );
}

#[test]
fn test_create_subscription_invalid_penalty_bps() {
    let (mut env, token, _admin, alice, _fee) = setup();
    assert_eq!(
        try_create_subscription(&mut env, alice, token, 1_000, 120, 3, 120, 10_001),
        Err(VaultError::InvalidPenaltyBps)
    );
}

#[test]
fn test_create_subscription_paused_fails() {
    let (mut env, token, admin, alice, _fee) = setup();
    env.vault.pause(admin).unwrap();
    assert_eq!(
        try_create_subscription(&mut env, alice, token, 1_000, 120, 3, 120, 0),
        Err(VaultError::ContractPaused)
    );
}

#[test]
fn test_execute_subscription_creates_deposit() {
    let (mut env, token, _admin, alice, _fee) = setup();
    let sub_id = create_default_subscription(&mut env, alice, token);
    let deposit_id = env.execute_subscription(alice, sub_id).unwrap();
    let entry = env.vault.get_vault(alice, deposit_id).unwrap();
    assert_eq!(entry.amount, 1_000);
    assert_eq!(entry.token, token);
    assert_eq!(entry.depositor, alice);
    assert_eq!(env.vault.get_subscription(alice, sub_id).unwrap().executed_count, 1);
}

#[test]
fn test_execute_subscription_respects_interval() {
    let (mut env, token, _admin, alice, _fee) = setup();
    let sub_id = create_default_subscription(&mut env, alice, token);
    env.execute_subscription(alice, sub_id).unwrap();
    assert_eq!(env.execute_subscription(alice, sub_id), Err(VaultError::SubscriptionNotDue));
    env.advance_time(121);
    let deposit_id2 = env.execute_subscription(alice, sub_id).unwrap();
    assert_eq!(env.vault.get_subscription(alice, sub_id).unwrap().executed_count, 2);
    assert_eq!(env.vault.get_vault(alice, deposit_id2).unwrap().amount, 1_000);
}

#[test]
fn test_execute_subscription_completes_after_total_count() {
    let (mut env, token, _admin, alice, _fee) = setup();
    let sub_id = try_create_subscription(&mut env, alice, token, 1_000, 60, 2, 60, 0).unwrap();
    env.execute_subscription(alice, sub_id).unwrap();
    env.advance_time(61);
    env.execute_subscription(alice, sub_id).unwrap();
    env.advance_time(61);
    assert_eq!(env.execute_subscription(alice, sub_id), Err(VaultError::SubscriptionCompleted));
}

#[test]
fn test_cancel_subscription_success() {
    let (mut env, token, _admin, alice, _fee) = setup();
    let sub_id = create_default_subscription(&mut env, alice, token);
    env.vault.cancel_subscription(alice, sub_id).unwrap();
    assert!(env.vault.get_subscription(alice, sub_id).unwrap().cancelled);
}

#[test]
fn test_cancel_subscription_prevents_execution() {
    let (mut env, token, _admin, alice, _fee) = setup();
    let sub_id = create_default_subscription(&mut env, alice, token);
    env.vault.cancel_subscription(alice, sub_id).unwrap();
    assert_eq!(env.execute_subscription(alice, sub_id), Err(VaultError::SubscriptionCancelled));
}

#[test]
fn test_cancel_subscription_twice_fails() {
    let (mut env, token, _admin, alice, _fee) = setup();
    let sub_id = create_default_subscription(&mut env, alice, token);
    env.vault.cancel_subscription(alice, sub_id).unwrap();
    assert_eq!(env.vault.cancel_subscription(alice, sub_id), Err(VaultError::SubscriptionCancelled));
}

#[test]
fn test_cancel_nonexistent_subscription_fails() {
    let (mut env, _token, _admin, alice, _fee) = setup();
    assert_eq!(env.vault.cancel_subscription(alice, 999), Err(VaultError::NoSubscriptionFound));
}

#[test]
fn test_execute_nonexistent_subscription_fails() {
    let (mut env, _token, _admin, alice, _fee) = setup();
    assert_eq!(env.execute_subscription(alice, 999), Err(VaultError::NoSubscriptionFound));
}

#[test]
fn test_execute_subscription_deducts_token_balance() {
    let (mut env, token, _admin, alice, _fee) = setup();
    let balance_before = env.balance(token, alice);
    let sub_id = create_default_subscription(&mut env, alice, token);
    env.execute_subscription(alice, sub_id).unwrap();
    let balance_after = env.balance(token, alice);
    assert_eq!(balance_before - balance_after, 1_000);
}

#[test]
fn test_execute_subscription_deposit_is_withdrawable_after_lock() {
    let (mut env, token, _admin, alice, _fee) = setup();
    let sub_id = create_default_subscription(&mut env, alice, token);
    let deposit_id = env.execute_subscription(alice, sub_id).unwrap();
    assert_eq!(env.withdraw(alice, deposit_id), Err(VaultError::FundsStillLocked));
    env.advance_time(121);
    env.withdraw(alice, deposit_id).unwrap();
}

#[test]
fn test_get_subscription_ids_returns_all() {
    let (mut env, token, _admin, alice, _fee) = setup();
    for _ in 0..3 {
        create_default_subscription(&mut env, alice, token);
    }
    let ids = env.vault.get_subscription_ids(alice);
    assert_eq!(ids.len(), 3);
    assert_eq!(ids[0], 0);
    assert_eq!(ids[1], 1);
    assert_eq!(ids[2], 2);
}

// ---------------------------------------------------------------- insurance claims

/// Deposits 10_000 at a 10% penalty and cancels it at once.
fn fund_pool_via_cancel(env: &mut Env, depositor: Address, token: Address) {
    let unlock_time = env.now() + 120;
    let deposit_id = env.deposit(depositor, token, 10_000, unlock_time, 1_000).unwrap();
    env.cancel_deposit(depositor, deposit_id).unwrap();
}

#[test]
fn test_claim_insurance_success() {
    let (mut env, token, _admin, alice, _fee) = setup();
    fund_pool_via_cancel(&mut env, alice, token);
    let claim_id = env.vault.claim_insurance(alice, token, 50, String::from("tx-hash-123")).unwrap();
    assert_eq!(claim_id, 0);
    let claim = env.vault.get_claim(claim_id).unwrap();
    assert_eq!(claim.claim_id, 0);
    assert_eq!(claim.claimant, alice);
    assert_eq!(claim.token, token);
    assert_eq!(claim.amount_requested, 50);
}

#[test]
fn test_claim_insurance_invalid_amount_fails() {
    let (mut env, token, _admin, alice, _fee) = setup();
    assert_eq!(
        env.vault.claim_insurance(alice, token, 0, String::from("evidence")),
        Err(VaultError::InvalidAmount)
    );
}

#[test]
fn test_approve_claim_insufficient_pool_fails() {
    let (mut env, token, admin, alice, _fee) = setup();
    let claim_id = env.vault.claim_insurance(alice, token, 100, String::from("evidence")).unwrap();
    assert_eq!(env.approve_claim(admin, claim_id), Err(VaultError::InsufficientInsurancePool));
}

#[test]
fn test_deny_claim_no_funds_moved() {
    let (mut env, token, admin, alice, _fee) = setup();
    fund_pool_via_cancel(&mut env, alice, token);
    let pool_before = env.vault.get_insurance_pool_balance(token);
    let claim_id = env.vault.claim_insurance(alice, token, 50, String::from("incident-xyz")).unwrap();
    env.vault.deny_claim(admin, claim_id).unwrap();
    assert_eq!(env.vault.get_insurance_pool_balance(token), pool_before);
}

#[test]
fn test_deny_already_resolved_claim_fails() {
    let (mut env, token, admin, alice, _fee) = setup();
    let claim_id = env.vault.claim_insurance(alice, token, 1, String::from("evidence")).unwrap();
    env.vault.deny_claim(admin, claim_id).unwrap();
    assert_eq!(env.vault.deny_claim(admin, claim_id), Err(VaultError::ClaimAlreadyResolved));
}

#[test]
fn test_approve_claim_non_admin_fails() {
    let (mut env, token, _admin, alice, _fee) = setup();
    let claim_id = env.vault.claim_insurance(alice, token, 1, String::from("evidence")).unwrap();
    assert_eq!(env.approve_claim(alice, claim_id), Err(VaultError::Unauthorized));
}

#[test]
fn test_deny_claim_non_admin_fails() {
    let (mut env, token, _admin, alice, _fee) = setup();
    let claim_id = env.vault.claim_insurance(alice, token, 1, String::from("evidence")).unwrap();
    assert_eq!(env.vault.deny_claim(alice, claim_id), Err(VaultError::Unauthorized));
}

#[test]
fn test_approve_nonexistent_claim_fails() {
    let (mut env, _token, admin, _alice, _fee) = setup();
    assert_eq!(env.approve_claim(admin, 999), Err(VaultError::NoClaimFound));
}

#[test]
fn test_deny_nonexistent_claim_fails() {
    let (mut env, _token, admin, _alice, _fee) = setup();
    assert_eq!(env.vault.deny_claim(admin, 999), Err(VaultError::NoClaimFound));
}

#[test]
fn test_get_claim_returns_none_for_missing() {
    let (env, _token, _admin, _alice, _fee) = setup();
    assert!(env.vault.get_claim(999).is_none());
}

#[test]
fn test_claim_ids_are_monotonically_increasing() {
    let (mut env, token, _admin, alice, _fee) = setup();
    let id0 = env.vault.claim_insurance(alice, token, 1, String::from("ev")).unwrap();
    let id1 = env.vault.claim_insurance(alice, token, 1, String::from("ev")).unwrap();
    let id2 = env.vault.claim_insurance(alice, token, 1, String::from("ev")).unwrap();
    assert_eq!(id0, 0);
    assert_eq!(id1, 1);
    assert_eq!(id2, 2);
}

// ---------------------------------------------------------------- archival

impl Env {
    fn archive_deposit(&mut self, d: Address, id: u32, token: Address, amount: i128, unlock: u64, bps: u32) -> Result<(), VaultError> {
        let ledger = self.ledger;
        self.vault.archive_deposit(ledger, d, id, token, amount, unlock, bps)
    }

    fn archive_deposit_by_ledger(&mut self, d: Address, id: u32, token: Address, amount: i128, unlock: u32, bps: u32) -> Result<(), VaultError> {
        let ledger = self.ledger;
        self.vault.archive_deposit_by_ledger(ledger, d, id, token, amount, unlock, bps)
    }

    fn delete_archived_deposit(&mut self, d: Address, id: u32) -> Result<(), VaultError> {
        let ledger = self.ledger;
        self.vault.delete_archived_deposit(ledger, d, id)
    }
}

/// Deposits 1_000 for an hour and withdraws it at unlock; returns its id and unlock time.
fn deposit_and_withdraw(env: &mut Env, alice: Address, token: Address) -> (u32, u64) {
    let unlock_time = env.now() + 3600;
    let deposit_id = env.deposit(alice, token, 1_000, unlock_time, 0).unwrap();
    env.advance_time(3600);
    env.withdraw(alice, deposit_id).unwrap();
    (deposit_id, unlock_time)
}

#[test]
fn test_archive_deposit_success() {
    let (mut env, token, _admin, alice, _fee) = setup();
    let (deposit_id, unlock_time) = deposit_and_withdraw(&mut env, alice, token);
    assert_eq!(env.archive_deposit(alice, deposit_id, token, 1_000, unlock_time, 0), Ok(()));
}

#[test]
fn test_archive_deposit_fails_if_active() {
    let (mut env, token, _admin, alice, _fee) = setup();
    let unlock_time = env.now() + 3600;
    let deposit_id = env.deposit(alice, token, 1_000, unlock_time, 0).unwrap();
    assert_eq!(
        env.archive_deposit(alice, deposit_id, token, 1_000, unlock_time, 0),
        Err(VaultError::NoDepositFound)
    );
}

#[test]
fn test_archive_deposit_fails_if_already_archived() {
    let (mut env, token, _admin, alice, _fee) = setup();
    let (deposit_id, unlock_time) = deposit_and_withdraw(&mut env, alice, token);
    env.archive_deposit(alice, deposit_id, token, 1_000, unlock_time, 0).unwrap();
    assert_eq!(
        env.archive_deposit(alice, deposit_id, token, 1_000, unlock_time, 0),
        Err(VaultError::NoArchivedDepositFound)
    );
}

#[test]
fn test_archive_deposit_by_ledger_success() {
    let (mut env, token, _admin, alice, _fee) = setup();
    let unlock_ledger = env.sequence() + 100;
    let deposit_id = env.deposit_by_ledger(alice, token, 1_000, unlock_ledger, 0).unwrap();
    env.advance_time(500);
    env.set_sequence(unlock_ledger);
    env.withdraw(alice, deposit_id).unwrap();
    assert_eq!(env.archive_deposit_by_ledger(alice, deposit_id, token, 1_000, unlock_ledger, 0), Ok(()));
}

#[test]
fn test_delete_archived_deposit_success() {
    let (mut env, token, _admin, alice, _fee) = setup();
    let (deposit_id, unlock_time) = deposit_and_withdraw(&mut env, alice, token);
    env.archive_deposit(alice, deposit_id, token, 1_000, unlock_time, 0).unwrap();
    env.advance_time(31_536_000);
    assert_eq!(env.delete_archived_deposit(alice, deposit_id), Ok(()));
}

#[test]
fn test_delete_archived_deposit_fails_if_too_young() {
    let (mut env, token, _admin, alice, _fee) = setup();
    let (deposit_id, unlock_time) = deposit_and_withdraw(&mut env, alice, token);
    env.archive_deposit(alice, deposit_id, token, 1_000, unlock_time, 0).unwrap();
    assert_eq!(env.delete_archived_deposit(alice, deposit_id), Err(VaultError::ArchivedDepositTooYoung));
}

#[test]
fn test_delete_archived_deposit_fails_at_boundary() {
    let (mut env, token, _admin, alice, _fee) = setup();
    let (deposit_id, unlock_time) = deposit_and_withdraw(&mut env, alice, token);
    env.archive_deposit(alice, deposit_id, token, 1_000, unlock_time, 0).unwrap();
    env.advance_time(31_536_000 - 1);
    assert_eq!(env.delete_archived_deposit(alice, deposit_id), Err(VaultError::ArchivedDepositTooYoung));
}

#[test]
fn test_delete_archived_deposit_succeeds_at_exact_boundary() {
    let (mut env, token, _admin, alice, _fee) = setup();
    let (deposit_id, unlock_time) = deposit_and_withdraw(&mut env, alice, token);
    env.archive_deposit(alice, deposit_id, token, 1_000, unlock_time, 0).unwrap();
    env.advance_time(31_536_000);
    assert_eq!(env.delete_archived_deposit(alice, deposit_id), Ok(()));
}

#[test]
fn test_delete_archived_deposit_fails_if_not_found() {
    let (mut env, _token, _admin, alice, _fee) = setup();
    assert_eq!(env.delete_archived_deposit(alice, 999), Err(VaultError::NoArchivedDepositFound));
}

#[test]
fn test_delete_archived_deposit_by_ledger_success() {
    let (mut env, token, _admin, alice, _fee) = setup();
    let unlock_ledger = env.sequence() + 100;
    let deposit_id = env.deposit_by_ledger(alice, token, 1_000, unlock_ledger, 0).unwrap();
    env.advance_time(500);
    env.set_sequence(unlock_ledger);
    env.withdraw(alice, deposit_id).unwrap();
    env.archive_deposit_by_ledger(alice, deposit_id, token, 1_000, unlock_ledger, 0).unwrap();
    env.advance_time(31_536_000);
    assert_eq!(env.delete_archived_deposit(alice, deposit_id), Ok(()));
}

#[test]
fn test_archive_after_cancelled_deposit() {
    let (mut env, token, _admin, alice, _fee) = setup();
    let unlock_time = env.now() + 3600;
    let deposit_id = env.deposit(alice, token, 1_000, unlock_time, 5_000).unwrap();
    env.cancel_deposit(alice, deposit_id).unwrap();
    assert_eq!(env.archive_deposit(alice, deposit_id, token, 1_000, unlock_time, 5_000), Ok(()));
}

#[test]
fn test_multiple_deposits_archival() {
    let (mut env, token, _admin, alice, _fee) = setup();
    let unlock_time = env.now() + 3600;
    let id0 = env.deposit(alice, token, 500, unlock_time, 0).unwrap();
    let id1 = env.deposit(alice, token, 1_000, unlock_time, 0).unwrap();
    let id2 = env.deposit(alice, token, 1_500, unlock_time, 0).unwrap();
    env.advance_time(3600);
    env.withdraw(alice, id0).unwrap();
    env.withdraw(alice, id1).unwrap();
    env.withdraw(alice, id2).unwrap();
    env.archive_deposit(alice, id0, token, 500, unlock_time, 0).unwrap();
    env.archive_deposit(alice, id1, token, 1_000, unlock_time, 0).unwrap();
    env.archive_deposit(alice, id2, token, 1_500, unlock_time, 0).unwrap();
    env.advance_time(31_536_000);
    assert_eq!(env.delete_archived_deposit(alice, id0), Ok(()));
    assert_eq!(env.delete_archived_deposit(alice, id1), Ok(()));
    assert_eq!(env.delete_archived_deposit(alice, id2), Ok(()));
}

#[test]
fn test_archive_preserves_original_deposit_data() {
    let (mut env, token, _admin, alice, _fee) = setup();
    let unlock_time = env.now() + 3600;
    let deposit_id = env.deposit(alice, token, 2_500, unlock_time, 2_500).unwrap();
    env.advance_time(3600);
    env.withdraw(alice, deposit_id).unwrap();
    env.archive_deposit(alice, deposit_id, token, 2_500, unlock_time, 2_500).unwrap();
    assert_eq!(
        env.archive_deposit(alice, deposit_id, token, 2_500, unlock_time, 2_500),
        Err(VaultError::NoArchivedDepositFound)
    );
}

#[test]
fn test_archive_different_depositors() {
    let mut env = Env::new();
    let admin = env.generate();
    let alice = env.generate();
    let bob = env.generate();
    let fee_recipient = env.generate();
    let token = env.generate();
    env.mint(token, alice, 10_000);
    env.mint(token, bob, 10_000);
    env.vault.initialize(admin, fee_recipient, None, None).unwrap();
    let unlock_time = env.now() + 3600;
    let alice_id = env.deposit(alice, token, 1_000, unlock_time, 0).unwrap();
    let bob_id = env.deposit(bob, token, 2_000, unlock_time, 0).unwrap();
    env.advance_time(3600);
    env.withdraw(alice, alice_id).unwrap();
    env.withdraw(bob, bob_id).unwrap();
    env.archive_deposit(alice, alice_id, token, 1_000, unlock_time, 0).unwrap();
    env.archive_deposit(bob, bob_id, token, 2_000, unlock_time, 0).unwrap();
    env.advance_time(31_536_000);
    assert_eq!(env.delete_archived_deposit(alice, alice_id), Ok(()));
    assert_eq!(env.delete_archived_deposit(bob, bob_id), Ok(()));
    assert_eq!(env.delete_archived_deposit(alice, alice_id), Err(VaultError::NoArchivedDepositFound));
    assert_eq!(env.delete_archived_deposit(bob, bob_id), Err(VaultError::NoArchivedDepositFound));
}

#[test]
fn test_delete_archived_deposit_requires_auth() {
    let mut env = Env::new();
    let admin = env.generate();
    let alice = env.generate();
    let bob = env.generate();
    let fee_recipient = env.generate();
    let token = env.generate();
    env.mint(token, alice, 10_000);
    env.vault.initialize(admin, fee_recipient, None, None).unwrap();
    let unlock_time = env.now() + 3600;
    let deposit_id = env.deposit(alice, token, 1_000, unlock_time, 0).unwrap();
    env.advance_time(3600);
    env.withdraw(alice, deposit_id).unwrap();
    env.archive_deposit(alice, deposit_id, token, 1_000, unlock_time, 0).unwrap();
    env.advance_time(31_536_000);
    // Records are keyed by depositor: bob cannot reach alice's record.
    let result = env.delete_archived_deposit(bob, deposit_id);
    assert!(result.is_err());
}

// ---------------------------------------------------------------- per-ledger emergency cap

const MAX_EMERGENCY_WITHDRAWAL_PER_LEDGER: i128 = safe_haven::constants::MAX_EMERGENCY_WITHDRAWAL_PER_LEDGER;

#[test]
fn test_emergency_withdrawal_limit_single_withdrawal_succeeds() {
    let (mut env, token, admin, alice, _fee) = setup();
    let unlock_time = env.now() + 3600;
    let deposit_id = env.deposit(alice, token, 1_000, unlock_time, 0).unwrap();
    assert_eq!(env.emergency_withdraw(admin, alice, deposit_id), Ok(()));
    assert_eq!(env.vault.get_vault(alice, deposit_id), None);
}

#[test]
fn test_emergency_withdrawal_limit_cumulative_tracking() {
    let (mut env, token, admin, alice, _fee) = setup();
    env.mint(token, alice, 100_000_000);
    let unlock_time = env.now() + 3600;
    let id1 = env.deposit(alice, token, 10_000_000, unlock_time, 0).unwrap();
    let id2 = env.deposit(alice, token, 20_000_000, unlock_time, 0).unwrap();
    assert_eq!(env.emergency_withdraw(admin, alice, id1), Ok(()));
    assert_eq!(env.vault.get_emergency_withdrawal_total(env.sequence()), 10_000_000);
    assert_eq!(env.emergency_withdraw(admin, alice, id2), Ok(()));
    assert_eq!(env.vault.get_emergency_withdrawal_total(env.sequence()), 30_000_000);
}

#[test]
fn test_emergency_withdrawal_limit_exceeds_fails() {
    let (mut env, token, admin, alice, _fee) = setup();
    env.mint(token, alice, MAX_EMERGENCY_WITHDRAWAL_PER_LEDGER + 1_000_000);
    let unlock_time = env.now() + 3600;
    let deposit_id = env.deposit(alice, token, MAX_EMERGENCY_WITHDRAWAL_PER_LEDGER + 1_000_000, unlock_time, 0).unwrap();
    assert_eq!(env.emergency_withdraw(admin, alice, deposit_id), Err(VaultError::EmergencyWithdrawalLimitExceeded));
    assert!(env.vault.get_vault(alice, deposit_id).is_some());
}

#[test]
fn test_emergency_withdrawal_limit_at_boundary() {
    let (mut env, token, admin, alice, _fee) = setup();
    env.mint(token, alice, MAX_EMERGENCY_WITHDRAWAL_PER_LEDGER * 2);
    let unlock_time = env.now() + 3600;
    let id1 = env.deposit(alice, token, MAX_EMERGENCY_WITHDRAWAL_PER_LEDGER, unlock_time, 0).unwrap();
    let id2 = env.deposit(alice, token, 1_000, unlock_time, 0).unwrap();
    assert_eq!(env.emergency_withdraw(admin, alice, id1), Ok(()));
    assert_eq!(env.emergency_withdraw(admin, alice, id2), Err(VaultError::EmergencyWithdrawalLimitExceeded));
}

#[test]
fn test_emergency_withdrawal_multiple_deposits_same_ledger() {
    let (mut env, token, admin, alice, _fee) = setup();
    env.mint(token, alice, MAX_EMERGENCY_WITHDRAWAL_PER_LEDGER * 2);
    let unlock_time = env.now() + 3600;
    let mut ids = Vec::new();
    for _ in 0..5 {
        ids.push(env.deposit(alice, token, 20_000_000, unlock_time, 0).unwrap());
    }
    for i in 0..5 {
        assert_eq!(env.emergency_withdraw(admin, alice, ids[i]), Ok(()));
    }
    assert_eq!(env.vault.get_emergency_withdrawal_total(env.sequence()), 100_000_000);
}

#[test]
fn test_emergency_withdrawal_limit_multiple_depositors() {
    let (mut env, token, admin, alice, _fee) = setup();
    let bob = env.generate();
    env.mint(token, bob, MAX_EMERGENCY_WITHDRAWAL_PER_LEDGER / 2);
    env.mint(token, alice, MAX_EMERGENCY_WITHDRAWAL_PER_LEDGER / 2);
    let unlock_time = env.now() + 3600;
    let alice_id = env.deposit(alice, token, MAX_EMERGENCY_WITHDRAWAL_PER_LEDGER / 2, unlock_time, 0).unwrap();
    let bob_id = env.deposit(bob, token, MAX_EMERGENCY_WITHDRAWAL_PER_LEDGER / 2, unlock_time, 0).unwrap();
    assert_eq!(env.emergency_withdraw(admin, alice, alice_id), Ok(()));
    assert_eq!(env.emergency_withdraw(admin, bob, bob_id), Ok(()));
    assert_eq!(env.vault.get_emergency_withdrawal_total(env.sequence()), 100_000_000);
}

#[test]
fn test_emergency_withdrawal_query_nonexistent_ledger() {
    let (env, _token, _admin, _alice, _fee) = setup();
    let future_ledger = env.sequence() + 1000;
    assert_eq!(env.vault.get_emergency_withdrawal_total(future_ledger), 0);
}

#[test]
fn test_emergency_withdrawal_ledger_based_deposit_limit() {
    let (mut env, token, admin, alice, _fee) = setup();
    let unlock_ledger = env.sequence() + 20;
    let deposit_id = env.deposit_by_ledger(alice, token, 1_000, unlock_ledger, 0).unwrap();
    assert_eq!(env.emergency_withdraw(admin, alice, deposit_id), Ok(()));
    assert_eq!(env.vault.get_emergency_withdrawal_total(env.sequence()), 1_000);
}

#[test]
fn test_emergency_withdrawal_mixed_deposit_types_same_ledger() {
    let (mut env, token, admin, alice, _fee) = setup();
    env.mint(token, alice, 100_000);
    let unlock_time = env.now() + 3600;
    let unlock_ledger = env.sequence() + 20;
    let ts_id = env.deposit(alice, token, 30_000, unlock_time, 0).unwrap();
    let lg_id = env.deposit_by_ledger(alice, token, 20_000, unlock_ledger, 0).unwrap();
    assert_eq!(env.emergency_withdraw(admin, alice, ts_id), Ok(()));
    assert_eq!(env.emergency_withdraw(admin, alice, lg_id), Ok(()));
    assert_eq!(env.vault.get_emergency_withdrawal_total(env.sequence()), 50_000);
}

// ---------------------------------------------------------------- properties on concrete runs

#[test]
fn cancel_splits_penalty_between_fee_recipient_and_stakers() {
    let (mut env, token, _admin, alice, fee) = setup();
    let unlock_time = env.now() + 3600;
    let id = env.deposit(alice, token, 1_000, unlock_time, 1_000).unwrap();
    env.cancel_deposit(alice, id).unwrap();
    // 10% penalty of 100: 30 to the fee recipient, 70 to the stakers' pool.
    assert_eq!(env.balance(token, alice), 9_900);
    assert_eq!(env.balance(token, fee), 30);
    assert_eq!(env.vault.rewards_pool, 70);
    assert_eq!(env.balance(token, VAULT), 70);
}

#[test]
fn staker_reward_follows_stake_share() {
    let (mut env, _token, _admin, alice, _fee) = setup();
    let bob = env.generate();
    env.vault.register_staker(alice, 1_000).unwrap();
    env.vault.register_staker(bob, 3_000).unwrap();
    env.vault.rewards_pool = 700;
    env.vault.claim_staker_rewards(alice).unwrap();
    // (1000 / 4000) * 700 = 175
    assert_eq!(env.vault.rewards_pool, 525);
    assert_eq!(*env.vault.rewards_claimed.get(&alice.id).unwrap(), 175);
    assert_eq!(env.vault.total_staked, 4_000);
    // Re-registering replaces the stake.
    env.vault.register_staker(alice, 2_000).unwrap();
    assert_eq!(env.vault.total_staked, 5_000);
    assert_eq!(env.vault.staker_list.len(), 2);
}

#[test]
fn pause_refuses_every_new_deposit() {
    let (mut env, token, admin, alice, _fee) = setup();
    let id = env.deposit(alice, token, 1_000, env.now() + 3600, 0).unwrap();
    env.vault.pause(admin).unwrap();
    let now = env.now();
    let bob = env.generate();
    assert_eq!(env.deposit(alice, token, 1_000, now + 3600, 0), Err(VaultError::ContractPaused));
    assert_eq!(env.deposit_for(bob, alice, token, 1_000, now + 3600, 0), Err(VaultError::ContractPaused));
    assert_eq!(env.deposit_with_delay(alice, token, 1_000, now + 3600, 0, 10), Err(VaultError::ContractPaused));
    assert_eq!(env.deposit_with_compound_interest(alice, token, 1_000, now + 3600, 0, 60), Err(VaultError::ContractPaused));
    assert_eq!(env.deposit_by_ledger(alice, token, 1_000, 100, 0), Err(VaultError::ContractPaused));
    assert_eq!(
        env.multi_deposit(alice, vec![TokenDeposit { token, amount: 5 }], now + 3600, 0),
        Err(VaultError::ContractPaused)
    );
    assert_eq!(
        env.batch_deposit(alice, vec![DepositRequest { token, amount: 5, unlock_time: now + 3600, penalty_bps: 0 }]),
        Err(VaultError::ContractPaused)
    );
    // Existing deposits are unaffected: they can still be cancelled.
    assert_eq!(env.cancel_deposit(alice, id), Ok(()));
    assert_eq!(env.balance(token, alice), 10_000);
}

#[test]
fn renounced_admin_cannot_be_restored() {
    let (mut env, token, admin, alice, fee) = setup();
    let id = env.deposit(alice, token, 1_000, env.now() + 3600, 0).unwrap();
    env.vault.renounce_admin(admin).unwrap();
    assert_eq!(env.vault.pause(admin), Err(VaultError::Unauthorized));
    assert_eq!(env.vault.transfer_admin(admin, alice), Err(VaultError::Unauthorized));
    assert_eq!(env.vault.accept_admin(alice), Err(VaultError::Unauthorized));
    assert_eq!(env.vault.accept_admin(admin), Err(VaultError::Unauthorized));
    assert_eq!(env.vault.migrate(admin), Err(VaultError::Unauthorized));
    assert_eq!(env.emergency_withdraw(admin, alice, id), Err(VaultError::Unauthorized));
    assert_eq!(env.vault.initialize(alice, alice, None, None), Err(VaultError::AlreadyInitialized));
    assert_eq!(env.vault.get_admin(), None);
    assert_eq!(env.vault.get_fee_recipient(), Some(fee));
}

#[test]
fn transfer_to_self_is_refused() {
    let (mut env, _token, admin, _alice, _fee) = setup();
    assert_eq!(env.vault.transfer_admin(admin, admin), Err(VaultError::InvalidAdmin));
    assert_eq!(env.vault.get_pending_admin(), None);
}

#[test]
fn deposit_ids_are_never_reused() {
    let (mut env, token, _admin, alice, _fee) = setup();
    let mut seen = Vec::new();
    for round in 0..4u64 {
        let id = env.deposit(alice, token, 100, env.now() + 3600, 0).unwrap();
        assert!(!seen.contains(&id));
        seen.push(id);
        if round % 2 == 0 {
            env.cancel_deposit(alice, id).unwrap();
        }
    }
    assert_eq!(seen, vec![0, 1, 2, 3]);
}

#[test]
fn emergency_withdraw_pays_only_the_depositor() {
    let (mut env, token_a, token_b, admin, alice, _fee) = setup_multi_token();
    let tokens = vec![TokenDeposit { token: token_a, amount: 400 }, TokenDeposit { token: token_b, amount: 600 }];
    let id = env.multi_deposit(alice, tokens, env.now() + 3600, 0).unwrap();
    let mut t = Vec::new();
    let ledger = env.ledger;
    env.vault.emergency_withdraw(ledger, admin, alice, id, &mut t).unwrap();
    assert_eq!(
        t,
        vec![
            Transfer::FromVault { token: token_a, to: alice, amount: 400 },
            Transfer::FromVault { token: token_b, to: alice, amount: 600 },
        ]
    );
    assert_eq!(env.vault.get_emergency_withdrawal_total(ledger.sequence), 1_000);
}

#[test]
fn subscription_runs_exactly_total_count_times() {
    let (mut env, token, _admin, alice, _fee) = setup();
    let sub_id = try_create_subscription(&mut env, alice, token, 100, 60, 3, 60, 0).unwrap();
    let mut runs = 0;
    for _ in 0..6 {
        if env.execute_subscription(alice, sub_id).is_ok() {
            runs += 1;
        }
        env.advance_time(60);
    }
    assert_eq!(runs, 3);
    let sub = env.vault.get_subscription(alice, sub_id).unwrap();
    assert_eq!(sub.executed_count, 3);
    assert_eq!(env.vault.cancel_subscription(alice, sub_id), Err(VaultError::SubscriptionCompleted));
    assert_eq!(env.balance(token, alice), 10_000 - 300);
}

#[test]
fn auto_renewal_relocks_instead_of_paying_out() {
    let (mut env, token, _admin, alice, _fee) = setup();
    let id = env.deposit(alice, token, 1_000, env.now() + 3600, 0).unwrap();
    env.vault.enable_auto_renewal(alice, id, 7200).unwrap();
    env.advance_time(3600);
    env.withdraw(alice, id).unwrap();
    // Nothing is paid; the deposit lives on under a new id, locked again.
    assert_eq!(env.balance(token, alice), 9_000);
    assert!(env.vault.get_vault(alice, id).is_none());
    let renewed = env.vault.get_vault(alice, 1).expect("renewed deposit");
    assert_eq!(renewed.amount, 1_000);
    assert_eq!(renewed.unlock_time, 3600 + 7200);
    assert_eq!(env.vault.get_auto_renewal_config(alice, 1).unwrap().renewal_count, 1);
    assert_eq!(env.withdraw(alice, 1), Err(VaultError::FundsStillLocked));
    env.vault.disable_auto_renewal(alice, 1).unwrap();
    env.advance_time(7200);
    env.withdraw(alice, 1).unwrap();
    assert_eq!(env.balance(token, alice), 10_000);
}

#[test]
fn auto_renewal_validation() {
    let (mut env, token, _admin, alice, _fee) = setup();
    let id = env.deposit(alice, token, 1_000, env.now() + 3600, 0).unwrap();
    assert_eq!(env.vault.enable_auto_renewal(alice, id, 10), Err(VaultError::LockDurationTooShort));
    assert_eq!(
        env.vault.enable_auto_renewal(alice, id, MAX_LOCK_DURATION_SECS + 1),
        Err(VaultError::LockDurationTooLong)
    );
    assert_eq!(env.vault.enable_auto_renewal(alice, 42, 7200), Err(VaultError::NoDepositFound));
}

#[test]
fn cancel_after_unlock_and_withdraw_before_unlock_are_refused() {
    let (mut env, token, _admin, alice, _fee) = setup();
    let id = env.deposit(alice, token, 1_000, env.now() + 3600, 500).unwrap();
    assert_eq!(env.withdraw(alice, id), Err(VaultError::FundsStillLocked));
    let bob = env.generate();
    assert_eq!(env.withdraw_to(alice, id, bob), Err(VaultError::FundsStillLocked));
    env.advance_time(3600);
    assert_eq!(env.cancel_deposit(alice, id), Err(VaultError::VaultAlreadyUnlocked));
    env.withdraw(alice, id).unwrap();
    assert_eq!(env.balance(token, alice), 10_000);
}

#[test]
fn penalty_without_fee_recipient_is_refused() {
    let mut env = Env::new();
    let token = env.generate();
    let alice = env.generate();
    env.mint(token, alice, 1_000);
    assert_eq!(env.deposit(alice, token, 1_000, 3600, 100), Err(VaultError::MissingFeeRecipient));
    assert_eq!(env.deposit(alice, token, 1_000, 3600, 0), Ok(0));
}

#[test]
fn accrued_interest_of_a_compounding_deposit() {
    let (mut env, token, _admin, alice, _fee) = setup();
    env.mint(token, alice, 1_000_000);
    let id = env.deposit_with_compound_interest(alice, token, 1_000_000, 2 * 31_536_000, 0, 31_536_000).unwrap();
    assert_eq!(env.vault.get_accrued_interest(env.ledger, alice, id), 0);
    env.advance_time(31_536_000);
    assert_eq!(env.vault.get_accrued_interest(env.ledger, alice, id), 50_000);
    assert_eq!(env.vault.get_current_balance(env.ledger, alice, id), Some(1_050_000));
    assert_eq!(env.vault.get_accrued_interest(env.ledger, alice, 9), 0);
}

// ---------------------------------------------------------------- penalty split (30% fee, 70% stakers)

#[test]
fn test_cancel_deposit_100_percent_penalty() {
    let (mut env, token, _admin, alice, fee) = setup();
    let unlock_time = env.now() + 3600;
    env.deposit(alice, token, 1_000, unlock_time, 10_000).unwrap();
    env.cancel_deposit(alice, 0).unwrap();
    assert!(env.vault.get_vault(alice, 0).is_none());
    assert_eq!(env.balance(token, alice), 9_000);
    // The whole 1_000 is penalty: 30% to the fee recipient, 70% to the stakers' pool.
    assert_eq!(env.balance(token, fee), 300);
    assert_eq!(env.vault.rewards_pool, 700);
    assert_eq!(env.balance(token, fee) + env.vault.rewards_pool, 1_000);
}

#[test]
fn test_cancel_ledger_deposit_with_penalty_splits_correctly() {
    let (mut env, token, _admin, alice, fee) = setup();
    let unlock_ledger = env.sequence() + 100;
    let id = env.deposit_by_ledger(alice, token, 1_000, unlock_ledger, 1_000).unwrap();
    env.cancel_deposit(alice, id).unwrap();
    assert_eq!(env.balance(token, alice), 9_900);
    // Penalty 100: 30 to the fee recipient, 70 to the stakers' pool.
    assert_eq!(env.balance(token, fee), 30);
    assert_eq!(env.vault.rewards_pool, 70);
}

#[test]
fn test_cancel_deposit_ledger_based_with_penalty() {
    let (mut env, token, _admin, alice, fee) = setup();
    let unlock_ledger = env.sequence() + 100;
    let id = env.deposit_by_ledger(alice, token, 4_000, unlock_ledger, 2_500).unwrap();
    assert_eq!(env.balance(token, alice), 6_000);
    assert_eq!(env.balance(token, fee), 0);
    env.cancel_deposit(alice, id).unwrap();
    // 25% penalty = 1_000; remainder = 3_000; the penalty splits 300 / 700.
    assert_eq!(env.balance(token, alice), 9_000);
    assert_eq!(env.balance(token, fee), 300);
    assert_eq!(env.vault.rewards_pool, 700);
    assert!(env.vault.get_ledger_vault(alice, id).is_none());
}

// ---------------------------------------------------------------- remaining scenarios

#[test]
fn test_time_remaining_ledger_near_unlock_boundary() {
    let (mut env, token, _admin, alice, _fee) = setup();
    // A lock of 5 ledgers is below the minimum ledger lock and is refused.
    let too_close = env.sequence() + 5;
    assert_eq!(env.deposit_by_ledger(alice, token, 1_000, too_close, 0), Err(VaultError::LockDurationTooShort));
    // At the minimum lock the estimate counts 5 seconds a ledger down to 0.
    let unlock_ledger = env.sequence() + MIN_LOCK_LEDGERS;
    let id = env.deposit_by_ledger(alice, token, 1_000, unlock_ledger, 0).unwrap();
    assert_eq!(env.time_remaining(alice, id), (MIN_LOCK_LEDGERS as u64) * 5);
    env.advance_ledger(MIN_LOCK_LEDGERS - 1);
    assert_eq!(env.time_remaining(alice, id), 5);
    env.advance_ledger(1);
    assert_eq!(env.time_remaining(alice, id), 0);
    env.advance_ledger(1);
    assert_eq!(env.time_remaining(alice, id), 0);
}

#[test]
fn test_register_staker_updates_existing_stake() {
    let (mut env, _token, _admin, alice, _fee) = setup();
    env.vault.register_staker(alice, 1000).unwrap();
    env.vault.register_staker(alice, 2000).unwrap();
    // The second registration replaces the stake; the staker is listed once.
    assert_eq!(env.vault.stakers.get(&alice.id), Some(&2000));
    assert_eq!(env.vault.total_staked, 2000);
    assert_eq!(env.vault.staker_list, vec![alice]);
}

#[test]
fn test_approve_already_resolved_claim_fails() {
    let (mut env, token, admin, alice, _fee) = setup();
    // No entry point funds the pool, so it is funded directly here.
    env.vault.insurance_pools.insert(token.id, 50);
    env.mint(token, VAULT, 50);
    let claim_id = env.vault.claim_insurance(alice, token, 50, String::from("evidence")).unwrap();
    env.approve_claim(admin, claim_id).unwrap();
    assert_eq!(env.approve_claim(admin, claim_id), Err(VaultError::ClaimAlreadyResolved));
}

#[test]
fn test_approve_claim_disburses_funds() {
    let (mut env, token, admin, alice, _fee) = setup();
    env.vault.insurance_pools.insert(token.id, 50);
    env.mint(token, VAULT, 50);
    assert_eq!(env.vault.get_insurance_pool_balance(token), 50);
    let alice_before = env.balance(token, alice);
    let claim_id = env.vault.claim_insurance(alice, token, 50, String::from("incident-abc")).unwrap();
    assert_eq!(env.approve_claim(admin, claim_id), Ok(50));
    assert_eq!(env.vault.get_insurance_pool_balance(token), 0);
    assert_eq!(env.balance(token, alice) - alice_before, 50);
}

#[test]
fn test_emergency_withdrawal_limit_resets_at_ledger_boundary() {
    let (mut env, token, admin, alice, _fee) = setup();
    env.mint(token, alice, MAX_EMERGENCY_WITHDRAWAL_PER_LEDGER * 2);
    let unlock_time = env.now() + 10_000;
    let id1 = env.deposit(alice, token, MAX_EMERGENCY_WITHDRAWAL_PER_LEDGER - 1_000, unlock_time, 0).unwrap();
    let id2 = env.deposit(alice, token, MAX_EMERGENCY_WITHDRAWAL_PER_LEDGER - 1_000, unlock_time, 0).unwrap();
    assert_eq!(env.emergency_withdraw(admin, alice, id1), Ok(()));
    let ledger_n = env.sequence();
    assert_eq!(env.vault.get_emergency_withdrawal_total(ledger_n), MAX_EMERGENCY_WITHDRAWAL_PER_LEDGER - 1_000);
    // Within the same ledger the second withdrawal would pass the cap.
    assert_eq!(env.emergency_withdraw(admin, alice, id2), Err(VaultError::EmergencyWithdrawalLimitExceeded));
    // In the next ledger the cap starts again.
    env.advance_time(5);
    env.advance_ledger(1);
    assert_eq!(env.emergency_withdraw(admin, alice, id2), Ok(()));
    assert_eq!(env.vault.get_emergency_withdrawal_total(env.sequence()), MAX_EMERGENCY_WITHDRAWAL_PER_LEDGER - 1_000);
    assert_eq!(env.vault.get_emergency_withdrawal_total(ledger_n), MAX_EMERGENCY_WITHDRAWAL_PER_LEDGER - 1_000);
}

#[test]
fn new_vault_starts_empty() {
    let v = SafeHaven::new();
    assert!(!v.is_initialized());
    assert_eq!(v.get_admin(), None);
    assert_eq!(v.get_pending_admin(), None);
    assert_eq!(v.rewards_pool, 0);
    assert_eq!(v.total_staked, 0);
    assert_eq!(v.next_claim_id, 0);
    assert!(v.stakers.is_empty() && v.staker_list.is_empty());
    assert!(v.emergency_totals.is_empty() && v.claims.is_empty());
    assert!(v.farming_config.is_none());
    assert_eq!(v.get_emergency_withdrawal_total(0), 0);
}
