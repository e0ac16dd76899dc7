//! Opening deposits: single-token (by timestamp or ledger), batched and multi-token.
use vstd::prelude::*;
use crate::address::Address;
use crate::constants::{
    MAX_BATCH_SIZE, MAX_DEPOSIT_AMOUNT, MAX_LOCK_DURATION_SECS, MAX_TOKENS_PER_DEPOSIT,
    MIN_COMPOUND_FREQUENCY_SECS, MIN_LOCK_DURATION_SECS, MIN_LOCK_LEDGERS,
};
use crate::errors::VaultError;
use crate::types::{
    DepositRequest, LedgerInfo, LedgerVaultEntry, MultiTokenVaultEntry, MultiTokenView,
    TokenDeposit, Transfer, VaultEntry,
};
use crate::vault::{Deposit, DepositView, SafeHaven, VaultConfig, VaultView};

verus! {

/// Why a timestamp-locked deposit of `amount` until `unlock_time` is refused
/// at time `now`, checked in this order; `None` when it is accepted.
pub open spec fn deposit_refusal(
    c: VaultConfig,
    now: u64,
    amount: i128,
    unlock_time: u64,
    penalty_bps: u32,
) -> Option<VaultError> {
    if c.paused {
        Some(VaultError::ContractPaused)
    } else if amount <= 0 {
        Some(VaultError::InvalidAmount)
    } else if amount > c.max_deposit_limit() {
        Some(VaultError::AmountTooLarge)
    } else {
        lock_refusal(c, now, unlock_time, penalty_bps)
    }
}

/// The checks on the penalty and the lock window shared by all timestamp deposits.
pub open spec fn lock_refusal(c: VaultConfig, now: u64, unlock_time: u64, penalty_bps: u32) -> Option<
    VaultError,
> {
    if penalty_bps > 10_000 {
        Some(VaultError::InvalidPenaltyBps)
    } else if penalty_bps > 0 && c.fee_recipient.is_none() {
        Some(VaultError::MissingFeeRecipient)
    } else {
        window_refusal(c, now, unlock_time)
    }
}

/// The checks on the lock window: the unlock time must lie in the future,
/// no further than the maximum lock and no closer than the minimum lock.
pub open spec fn window_refusal(c: VaultConfig, now: u64, unlock_time: u64) -> Option<VaultError> {
    if unlock_time <= now {
        Some(VaultError::UnlockTimeNotInFuture)
    } else if unlock_time - now > c.max_lock_limit() {
        Some(VaultError::LockDurationTooLong)
    } else if unlock_time - now < MIN_LOCK_DURATION_SECS {
        Some(VaultError::LockDurationTooShort)
    } else {
        None
    }
}

/// Why a ledger-locked deposit is refused at ledger `sequence`; `None` when accepted.
pub open spec fn ledger_deposit_refusal(
    c: VaultConfig,
    sequence: u32,
    amount: i128,
    unlock_ledger: u32,
    penalty_bps: u32,
) -> Option<VaultError> {
    if c.paused {
        Some(VaultError::ContractPaused)
    } else if amount <= 0 {
        Some(VaultError::InvalidAmount)
    } else if amount > c.max_deposit_limit() {
        Some(VaultError::AmountTooLarge)
    } else if penalty_bps > 10_000 {
        Some(VaultError::InvalidPenaltyBps)
    } else if penalty_bps > 0 && c.fee_recipient.is_none() {
        Some(VaultError::MissingFeeRecipient)
    } else if unlock_ledger <= sequence {
        Some(VaultError::UnlockTimeNotInFuture)
    } else if unlock_ledger - sequence < MIN_LOCK_LEDGERS {
        Some(VaultError::LockDurationTooShort)
    } else {
        None
    }
}

/// The first token amount of `tokens[from..]` that is refused: non-positive
/// amounts, then amounts above the maximum deposit.
pub open spec fn token_amounts_refusal(c: VaultConfig, tokens: Seq<TokenDeposit>, from: int) -> Option<
    VaultError,
>
    decreases tokens.len() - from,
{
    if from < 0 || from >= tokens.len() {
        None
    } else if tokens[from].amount <= 0 {
        Some(VaultError::InvalidAmount)
    } else if tokens[from].amount > c.max_deposit_limit() {
        Some(VaultError::AmountTooLarge)
    } else {
        token_amounts_refusal(c, tokens, from + 1)
    }
}

/// Why a multi-token deposit is refused; `None` when accepted.
pub open spec fn multi_deposit_refusal(
    c: VaultConfig,
    now: u64,
    tokens: Seq<TokenDeposit>,
    unlock_time: u64,
    penalty_bps: u32,
) -> Option<VaultError> {
    if c.paused {
        Some(VaultError::ContractPaused)
    } else if tokens.len() == 0 {
        Some(VaultError::EmptyTokenList)
    } else if tokens.len() > MAX_TOKENS_PER_DEPOSIT {
        Some(VaultError::TooManyTokens)
    } else if lock_refusal(c, now, unlock_time, penalty_bps).is_some() {
        lock_refusal(c, now, unlock_time, penalty_bps)
    } else {
        token_amounts_refusal(c, tokens, 0)
    }
}

/// The first request of `reqs[from..]` that `deposit` would refuse.
pub open spec fn batch_refusal(c: VaultConfig, now: u64, reqs: Seq<DepositRequest>, from: int) -> Option<
    VaultError,
>
    decreases reqs.len() - from,
{
    if from < 0 || from >= reqs.len() {
        None
    } else if deposit_refusal(c, now, reqs[from].amount, reqs[from].unlock_time, reqs[from].penalty_bps).is_some() {
        deposit_refusal(c, now, reqs[from].amount, reqs[from].unlock_time, reqs[from].penalty_bps)
    } else {
        batch_refusal(c, now, reqs, from + 1)
    }
}

/// The entry stored by a timestamp deposit made at `now`.
pub open spec fn new_time_entry(
    token: Address,
    amount: i128,
    unlock_time: u64,
    depositor: Address,
    penalty_bps: u32,
    freq: u64,
    now: u64,
    delay: u64,
) -> VaultEntry {
    VaultEntry {
        token,
        amount,
        unlock_time,
        depositor,
        penalty_bps,
        compound_frequency_secs: freq,
        last_accrual_timestamp: now,
        withdrawal_delay_secs: delay,
    }
}

/// What a deposit entry point does: on success the deposit is opened under
/// the depositor's next id and `moves` are the transfers to carry out; on a
/// refusal nothing changes.
pub open spec fn deposit_outcome(
    old: VaultView,
    new: VaultView,
    old_t: Seq<Transfer>,
    new_t: Seq<Transfer>,
    r: Result<u32, VaultError>,
    refusal: Option<VaultError>,
    depositor: Address,
    dep: DepositView,
    moves: Seq<Transfer>,
) -> bool {
    match r {
        Ok(id) => {
            &&& refusal.is_none()
            &&& id == old.counter(depositor)
            &&& new == old.with_new_deposit(depositor, dep)
            &&& new_t == old_t + moves
        },
        Err(e) => {
            &&& refusal == Some(e)
            &&& new == old
            &&& new_t == old_t
        },
    }
}

impl SafeHaven {
    /// The effective maximum deposit.
    pub fn max_deposit_limit(&self) -> (m: i128)
        ensures
            m == self@.config.max_deposit_limit(),
    {
        match self.config.max_deposit {
            Some(v) => v,
            None => MAX_DEPOSIT_AMOUNT,
        }
    }

    /// The effective maximum lock duration.
    pub fn max_lock_limit(&self) -> (m: u64)
        ensures
            m == self@.config.max_lock_limit(),
    {
        match self.config.max_lock_secs {
            Some(v) => v,
            None => MAX_LOCK_DURATION_SECS,
        }
    }

    fn check_window(&self, now: u64, unlock_time: u64) -> (r: Option<VaultError>)
        ensures
            r == window_refusal(self@.config, now, unlock_time),
    {
        if unlock_time <= now {
            return Some(VaultError::UnlockTimeNotInFuture);
        }
        let lock_duration: u64 = unlock_time - now;
        if lock_duration > self.max_lock_limit() {
            return Some(VaultError::LockDurationTooLong);
        }
        if lock_duration < MIN_LOCK_DURATION_SECS {
            return Some(VaultError::LockDurationTooShort);
        }
        None
    }

    fn check_lock(&self, now: u64, unlock_time: u64, penalty_bps: u32) -> (r: Option<VaultError>)
        ensures
            r == lock_refusal(self@.config, now, unlock_time, penalty_bps),
    {
        if penalty_bps > 10_000 {
            return Some(VaultError::InvalidPenaltyBps);
        }
        if penalty_bps > 0 && self.config.fee_recipient.is_none() {
            return Some(VaultError::MissingFeeRecipient);
        }
        self.check_window(now, unlock_time)
    }

    fn check_deposit(&self, now: u64, amount: i128, unlock_time: u64, penalty_bps: u32) -> (r: Option<
        VaultError,
    >)
        ensures
            r == deposit_refusal(self@.config, now, amount, unlock_time, penalty_bps),
    {
        if self.config.paused {
            return Some(VaultError::ContractPaused);
        }
        if amount <= 0 {
            return Some(VaultError::InvalidAmount);
        }
        if amount > self.max_deposit_limit() {
            return Some(VaultError::AmountTooLarge);
        }
        self.check_lock(now, unlock_time, penalty_bps)
    }

    /// Opens a timestamp deposit for `depositor` funded by `payer`.
    fn open_time_deposit(
        &mut self,
        payer: Address,
        depositor: Address,
        token: Address,
        amount: i128,
        entry: VaultEntry,
        transfers: &mut Vec<Transfer>,
    ) -> (id: u32)
        requires
            old(self)@.wf(),
            old(self)@.counter(depositor) < u32::MAX,
            entry.amount > 0,
            entry.penalty_bps <= 10_000,
        ensures
            final(self)@.wf(),
            id == old(self)@.counter(depositor),
            final(self)@ == old(self)@.with_new_deposit(depositor, DepositView::Time(entry)),
            final(transfers)@ == old(transfers)@.push(
                Transfer::ToVault { token, from: payer, amount },
            ),
    {
        let id = self.open_deposit(depositor, Deposit::Time(entry));
        transfers.push(Transfer::ToVault { token, from: payer, amount });
        id
    }

    /// Locks `amount` of `token` from `depositor` until `unlock_time`, with an
    /// early-exit penalty of `penalty_bps`. Returns the new deposit id.
    pub fn deposit(
        &mut self,
        ledger: LedgerInfo,
        depositor: Address,
        token: Address,
        amount: i128,
        unlock_time: u64,
        penalty_bps: u32,
        transfers: &mut Vec<Transfer>,
    ) -> (r: Result<u32, VaultError>)
        requires
            old(self)@.wf(),
            deposit_refusal(old(self)@.config, ledger.timestamp, amount, unlock_time, penalty_bps).is_none()
                ==> old(self)@.counter(depositor) < u32::MAX,
        ensures
            final(self)@.wf(),
            deposit_outcome(
                old(self)@,
                final(self)@,
                old(transfers)@,
                final(transfers)@,
                r,
                deposit_refusal(old(self)@.config, ledger.timestamp, amount, unlock_time, penalty_bps),
                depositor,
                DepositView::Time(
                    new_time_entry(token, amount, unlock_time, depositor, penalty_bps, 0, ledger.timestamp, 0),
                ),
                seq![Transfer::ToVault { token, from: depositor, amount }],
            ),
    {
        if let Some(e) = self.check_deposit(ledger.timestamp, amount, unlock_time, penalty_bps) {
            return Err(e);
        }
        let entry = VaultEntry {
            token,
            amount,
            unlock_time,
            depositor,
            penalty_bps,
            compound_frequency_secs: 0,
            last_accrual_timestamp: ledger.timestamp,
            withdrawal_delay_secs: 0,
        };
        let ghost t0 = transfers@;
        let id = self.open_time_deposit(depositor, depositor, token, amount, entry, transfers);
        assert(transfers@ == t0 + seq![Transfer::ToVault { token, from: depositor, amount }]);
        Ok(id)
    }

    /// Like `deposit`, but `payer` funds a vault owned by `depositor`.
    pub fn deposit_for(
        &mut self,
        ledger: LedgerInfo,
        payer: Address,
        depositor: Address,
        token: Address,
        amount: i128,
        unlock_time: u64,
        penalty_bps: u32,
        transfers: &mut Vec<Transfer>,
    ) -> (r: Result<u32, VaultError>)
        requires
            old(self)@.wf(),
            deposit_refusal(old(self)@.config, ledger.timestamp, amount, unlock_time, penalty_bps).is_none()
                ==> old(self)@.counter(depositor) < u32::MAX,
        ensures
            final(self)@.wf(),
            deposit_outcome(
                old(self)@,
                final(self)@,
                old(transfers)@,
                final(transfers)@,
                r,
                deposit_refusal(old(self)@.config, ledger.timestamp, amount, unlock_time, penalty_bps),
                depositor,
                DepositView::Time(
                    new_time_entry(token, amount, unlock_time, depositor, penalty_bps, 0, ledger.timestamp, 0),
                ),
                seq![Transfer::ToVault { token, from: payer, amount }],
            ),
    {
        if let Some(e) = self.check_deposit(ledger.timestamp, amount, unlock_time, penalty_bps) {
            return Err(e);
        }
        let entry = VaultEntry {
            token,
            amount,
            unlock_time,
            depositor,
            penalty_bps,
            compound_frequency_secs: 0,
            last_accrual_timestamp: ledger.timestamp,
            withdrawal_delay_secs: 0,
        };
        let ghost t0 = transfers@;
        let id = self.open_time_deposit(payer, depositor, token, amount, entry, transfers);
        assert(transfers@ == t0 + seq![Transfer::ToVault { token, from: payer, amount }]);
        Ok(id)
    }

    /// Like `deposit`, but the funds stay locked `withdrawal_delay_secs`
    /// beyond `unlock_time` before they can be withdrawn.
    pub fn deposit_with_delay(
        &mut self,
        ledger: LedgerInfo,
        depositor: Address,
        token: Address,
        amount: i128,
        unlock_time: u64,
        penalty_bps: u32,
        withdrawal_delay_secs: u64,
        transfers: &mut Vec<Transfer>,
    ) -> (r: Result<u32, VaultError>)
        requires
            old(self)@.wf(),
            deposit_refusal(old(self)@.config, ledger.timestamp, amount, unlock_time, penalty_bps).is_none()
                ==> old(self)@.counter(depositor) < u32::MAX,
        ensures
            final(self)@.wf(),
            deposit_outcome(
                old(self)@,
                final(self)@,
                old(transfers)@,
                final(transfers)@,
                r,
                deposit_refusal(old(self)@.config, ledger.timestamp, amount, unlock_time, penalty_bps),
                depositor,
                DepositView::Time(
                    new_time_entry(
                        token,
                        amount,
                        unlock_time,
                        depositor,
                        penalty_bps,
                        0,
                        ledger.timestamp,
                        withdrawal_delay_secs,
                    ),
                ),
                seq![Transfer::ToVault { token, from: depositor, amount }],
            ),
    {
        if let Some(e) = self.check_deposit(ledger.timestamp, amount, unlock_time, penalty_bps) {
            return Err(e);
        }
        let entry = VaultEntry {
            token,
            amount,
            unlock_time,
            depositor,
            penalty_bps,
            compound_frequency_secs: 0,
            last_accrual_timestamp: ledger.timestamp,
            withdrawal_delay_secs,
        };
        let ghost t0 = transfers@;
        let id = self.open_time_deposit(depositor, depositor, token, amount, entry, transfers);
        assert(transfers@ == t0 + seq![Transfer::ToVault { token, from: depositor, amount }]);
        Ok(id)
    }

    /// Like `deposit`, with compound interest accruing every
    /// `compound_frequency_secs` seconds (0 disables compounding; otherwise it
    /// must be at least 60 seconds).
    pub fn deposit_with_compound_interest(
        &mut self,
        ledger: LedgerInfo,
        depositor: Address,
        token: Address,
        amount: i128,
        unlock_time: u64,
        penalty_bps: u32,
        compound_frequency_secs: u64,
        transfers: &mut Vec<Transfer>,
    ) -> (r: Result<u32, VaultError>)
        requires
            old(self)@.wf(),
            compound_refusal(
                old(self)@.config,
                ledger.timestamp,
                amount,
                unlock_time,
                penalty_bps,
                compound_frequency_secs,
            ).is_none() ==> old(self)@.counter(depositor) < u32::MAX,
        ensures
            final(self)@.wf(),
            deposit_outcome(
                old(self)@,
                final(self)@,
                old(transfers)@,
                final(transfers)@,
                r,
                compound_refusal(
                    old(self)@.config,
                    ledger.timestamp,
                    amount,
                    unlock_time,
                    penalty_bps,
                    compound_frequency_secs,
                ),
                depositor,
                DepositView::Time(
                    new_time_entry(
                        token,
                        amount,
                        unlock_time,
                        depositor,
                        penalty_bps,
                        compound_frequency_secs,
                        ledger.timestamp,
                        0,
                    ),
                ),
                seq![Transfer::ToVault { token, from: depositor, amount }],
            ),
    {
        let now = ledger.timestamp;
        if self.config.paused {
            return Err(VaultError::ContractPaused);
        }
        if amount <= 0 {
            return Err(VaultError::InvalidAmount);
        }
        if amount > self.max_deposit_limit() {
            return Err(VaultError::AmountTooLarge);
        }
        if penalty_bps > 10_000 {
            return Err(VaultError::InvalidPenaltyBps);
        }
        if penalty_bps > 0 && self.config.fee_recipient.is_none() {
            return Err(VaultError::MissingFeeRecipient);
        }
        if compound_frequency_secs != 0 && compound_frequency_secs < MIN_COMPOUND_FREQUENCY_SECS {
            return Err(VaultError::InvalidCompoundFrequency);
        }
        if let Some(e) = self.check_window(now, unlock_time) {
            return Err(e);
        }
        let entry = VaultEntry {
            token,
            amount,
            unlock_time,
            depositor,
            penalty_bps,
            compound_frequency_secs,
            last_accrual_timestamp: now,
            withdrawal_delay_secs: 0,
        };
        let ghost t0 = transfers@;
        let id = self.open_time_deposit(depositor, depositor, token, amount, entry, transfers);
        assert(transfers@ == t0 + seq![Transfer::ToVault { token, from: depositor, amount }]);
        Ok(id)
    }

    /// Locks `amount` of `token` until the ledger sequence reaches `unlock_ledger`
    /// (at least `MIN_LOCK_LEDGERS` ahead). Returns the new deposit id, drawn
    /// from the same counter as timestamp deposits.
    pub fn deposit_by_ledger(
        &mut self,
        ledger: LedgerInfo,
        depositor: Address,
        token: Address,
        amount: i128,
        unlock_ledger: u32,
        penalty_bps: u32,
        transfers: &mut Vec<Transfer>,
    ) -> (r: Result<u32, VaultError>)
        requires
            old(self)@.wf(),
            ledger_deposit_refusal(old(self)@.config, ledger.sequence, amount, unlock_ledger, penalty_bps).is_none()
                ==> old(self)@.counter(depositor) < u32::MAX,
        ensures
            final(self)@.wf(),
            deposit_outcome(
                old(self)@,
                final(self)@,
                old(transfers)@,
                final(transfers)@,
                r,
                ledger_deposit_refusal(old(self)@.config, ledger.sequence, amount, unlock_ledger, penalty_bps),
                depositor,
                DepositView::Ledger(LedgerVaultEntry { token, amount, unlock_ledger, depositor, penalty_bps }),
                seq![Transfer::ToVault { token, from: depositor, amount }],
            ),
    {
        if self.config.paused {
            return Err(VaultError::ContractPaused);
        }
        if amount <= 0 {
            return Err(VaultError::InvalidAmount);
        }
        if amount > self.max_deposit_limit() {
            return Err(VaultError::AmountTooLarge);
        }
        if penalty_bps > 10_000 {
            return Err(VaultError::InvalidPenaltyBps);
        }
        if penalty_bps > 0 && self.config.fee_recipient.is_none() {
            return Err(VaultError::MissingFeeRecipient);
        }
        let current_ledger = ledger.sequence;
        if unlock_ledger <= current_ledger {
            return Err(VaultError::UnlockTimeNotInFuture);
        }
        if unlock_ledger - current_ledger < MIN_LOCK_LEDGERS {
            return Err(VaultError::LockDurationTooShort);
        }
        let entry = LedgerVaultEntry { token, amount, unlock_ledger, depositor, penalty_bps };
        let id = self.open_deposit(depositor, Deposit::Ledger(entry));
        let ghost t0 = transfers@;
        transfers.push(Transfer::ToVault { token, from: depositor, amount });
        assert(transfers@ == t0 + seq![Transfer::ToVault { token, from: depositor, amount }]);
        Ok(id)
    }

    fn check_token_amounts(&self, tokens: &Vec<TokenDeposit>) -> (r: Option<VaultError>)
        ensures
            r == token_amounts_refusal(self@.config, tokens@, 0),
    {
        let max_deposit = self.max_deposit_limit();
        let mut i: usize = tokens.len();
        let mut found: Option<VaultError> = None;
        while i > 0
            invariant
                i <= tokens.len(),
                max_deposit == self@.config.max_deposit_limit(),
                found == token_amounts_refusal(self@.config, tokens@, i as int),
            decreases i,
        {
            i = i - 1;
            let td = tokens[i];
            if td.amount <= 0 {
                found = Some(VaultError::InvalidAmount);
            } else if td.amount > max_deposit {
                found = Some(VaultError::AmountTooLarge);
            }
        }
        found
    }

    /// Locks several tokens in one vault entry until `unlock_time`. All
    /// amounts are checked before anything moves. Returns the new deposit id.
    pub fn multi_deposit(
        &mut self,
        ledger: LedgerInfo,
        depositor: Address,
        tokens_and_amounts: Vec<TokenDeposit>,
        unlock_time: u64,
        penalty_bps: u32,
        transfers: &mut Vec<Transfer>,
    ) -> (r: Result<u32, VaultError>)
        requires
            old(self)@.wf(),
            multi_deposit_refusal(
                old(self)@.config,
                ledger.timestamp,
                tokens_and_amounts@,
                unlock_time,
                penalty_bps,
            ).is_none() ==> old(self)@.counter(depositor) < u32::MAX,
        ensures
            final(self)@.wf(),
            deposit_outcome(
                old(self)@,
                final(self)@,
                old(transfers)@,
                final(transfers)@,
                r,
                multi_deposit_refusal(
                    old(self)@.config,
                    ledger.timestamp,
                    tokens_and_amounts@,
                    unlock_time,
                    penalty_bps,
                ),
                depositor,
                DepositView::Multi(
                    MultiTokenView {
                        tokens: tokens_and_amounts@,
                        unlock_time,
                        depositor,
                        penalty_bps,
                        compound_frequency_secs: 0,
                        last_accrual_timestamp: ledger.timestamp,
                    },
                ),
                tokens_and_amounts@.map_values(
                    |td: TokenDeposit| Transfer::ToVault { token: td.token, from: depositor, amount: td.amount },
                ),
            ),
    {
        let now = ledger.timestamp;
        if self.config.paused {
            return Err(VaultError::ContractPaused);
        }
        let count = tokens_and_amounts.len();
        if count == 0 {
            return Err(VaultError::EmptyTokenList);
        }
        if count > 5 {
            return Err(VaultError::TooManyTokens);
        }
        if let Some(e) = self.check_lock(now, unlock_time, penalty_bps) {
            return Err(e);
        }
        if let Some(e) = self.check_token_amounts(&tokens_and_amounts) {
            return Err(e);
        }
        let ghost t0 = transfers@;
        let ghost moves = tokens_and_amounts@.map_values(
            |td: TokenDeposit| Transfer::ToVault { token: td.token, from: depositor, amount: td.amount },
        );
        let mut i: usize = 0;
        while i < count
            invariant
                i <= count,
                count == tokens_and_amounts@.len(),
                transfers@ == t0 + moves.subrange(0, i as int),
                moves == tokens_and_amounts@.map_values(
                    |td: TokenDeposit| Transfer::ToVault { token: td.token, from: depositor, amount: td.amount },
                ),
            decreases count - i,
        {
            let td = tokens_and_amounts[i];
            transfers.push(Transfer::ToVault { token: td.token, from: depositor, amount: td.amount });
            i = i + 1;
            assert(transfers@ =~= t0 + moves.subrange(0, i as int));
        }
        assert(moves.subrange(0, count as int) =~= moves);
        let entry = MultiTokenVaultEntry {
            tokens: tokens_and_amounts,
            unlock_time,
            depositor,
            penalty_bps,
            compound_frequency_secs: 0,
            last_accrual_timestamp: now,
        };
        proof {
            lemma_token_amounts_ok(self@.config, tokens_and_amounts@, 0);
        }
        let id = self.open_deposit(depositor, Deposit::Multi(entry));
        Ok(id)
    }
}

/// Why a compounding deposit is refused; `None` when accepted.
pub open spec fn compound_refusal(
    c: VaultConfig,
    now: u64,
    amount: i128,
    unlock_time: u64,
    penalty_bps: u32,
    freq: u64,
) -> Option<VaultError> {
    if c.paused {
        Some(VaultError::ContractPaused)
    } else if amount <= 0 {
        Some(VaultError::InvalidAmount)
    } else if amount > c.max_deposit_limit() {
        Some(VaultError::AmountTooLarge)
    } else if penalty_bps > 10_000 {
        Some(VaultError::InvalidPenaltyBps)
    } else if penalty_bps > 0 && c.fee_recipient.is_none() {
        Some(VaultError::MissingFeeRecipient)
    } else if freq != 0 && freq < MIN_COMPOUND_FREQUENCY_SECS {
        Some(VaultError::InvalidCompoundFrequency)
    } else {
        window_refusal(c, now, unlock_time)
    }
}


/// When no amount of `tokens[from..]` is refused, all of them are positive.
pub proof fn lemma_token_amounts_ok(c: VaultConfig, tokens: Seq<TokenDeposit>, from: int)
    requires
        0 <= from,
        token_amounts_refusal(c, tokens, from).is_none(),
    ensures
        forall|i: int| from <= i < tokens.len() ==> #[trigger] tokens[i].amount > 0,
    decreases tokens.len() - from,
{
    if from < tokens.len() {
        lemma_token_amounts_ok(c, tokens, from + 1);
    }
}

/// When no request of `reqs[from..]` is refused, request `i` is accepted.
pub proof fn lemma_batch_ok(c: VaultConfig, now: u64, reqs: Seq<DepositRequest>, from: int, i: int)
    requires
        0 <= from <= i < reqs.len(),
        batch_refusal(c, now, reqs, from).is_none(),
    ensures
        deposit_refusal(c, now, reqs[i].amount, reqs[i].unlock_time, reqs[i].penalty_bps).is_none(),
    decreases i - from,
{
    if from < i {
        lemma_batch_ok(c, now, reqs, from + 1, i);
    }
}

/// The state after `d` deposits each of `reqs` in turn at `now`.
pub open spec fn batch_applied(v: VaultView, d: Address, reqs: Seq<DepositRequest>, now: u64) -> VaultView
    decreases reqs.len(),
{
    if reqs.len() == 0 {
        v
    } else {
        let r = reqs.last();
        batch_applied(v, d, reqs.drop_last(), now).with_new_deposit(
            d,
            DepositView::Time(new_time_entry(r.token, r.amount, r.unlock_time, d, r.penalty_bps, 0, now, 0)),
        )
    }
}

/// The transfers that fund a batch from `d`.
pub open spec fn batch_moves(d: Address, reqs: Seq<DepositRequest>) -> Seq<Transfer> {
    reqs.map_values(|r: DepositRequest| Transfer::ToVault { token: r.token, from: d, amount: r.amount })
}

impl SafeHaven {
    fn check_batch(&self, now: u64, reqs: &Vec<DepositRequest>) -> (r: Option<VaultError>)
        ensures
            r == batch_refusal(self@.config, now, reqs@, 0),
    {
        let mut i: usize = reqs.len();
        let mut found: Option<VaultError> = None;
        while i > 0
            invariant
                i <= reqs.len(),
                found == batch_refusal(self@.config, now, reqs@, i as int),
            decreases i,
        {
            i = i - 1;
            let q = reqs[i];
            let c = self.check_deposit(now, q.amount, q.unlock_time, q.penalty_bps);
            if c.is_some() {
                found = c;
            }
        }
        found
    }

    /// Opens every deposit of `deposits` for `depositor`, or none of them:
    /// all requests are checked before anything is stored or moved. Returns
    /// the new deposit ids in request order.
    pub fn batch_deposit(
        &mut self,
        ledger: LedgerInfo,
        depositor: Address,
        deposits: Vec<DepositRequest>,
        transfers: &mut Vec<Transfer>,
    ) -> (r: Result<Vec<u32>, VaultError>)
        requires
            old(self)@.wf(),
            deposits@.len() <= MAX_BATCH_SIZE && batch_refusal(old(self)@.config, ledger.timestamp, deposits@, 0).is_none()
                ==> old(self)@.counter(depositor) + deposits@.len() <= u32::MAX,
        ensures
            final(self)@.wf(),
            match r {
                Ok(ids) => {
                    &&& deposits@.len() <= MAX_BATCH_SIZE
                    &&& batch_refusal(old(self)@.config, ledger.timestamp, deposits@, 0).is_none()
                    &&& ids@ == Seq::new(deposits@.len(), |j: int| (old(self)@.counter(depositor) + j) as u32)
                    &&& final(self)@ == batch_applied(old(self)@, depositor, deposits@, ledger.timestamp)
                    &&& final(transfers)@ == old(transfers)@ + batch_moves(depositor, deposits@)
                },
                Err(e) => {
                    &&& e == (if deposits@.len() > MAX_BATCH_SIZE {
                        VaultError::BatchTooLarge
                    } else {
                        batch_refusal(old(self)@.config, ledger.timestamp, deposits@, 0).unwrap()
                    })
                    &&& deposits@.len() <= MAX_BATCH_SIZE ==> batch_refusal(
                        old(self)@.config,
                        ledger.timestamp,
                        deposits@,
                        0,
                    ).is_some()
                    &&& final(self)@ == old(self)@
                    &&& final(transfers)@ == old(transfers)@
                },
            },
    {
        if deposits.len() > 25 {
            return Err(VaultError::BatchTooLarge);
        }
        if let Some(e) = self.check_batch(ledger.timestamp, &deposits) {
            return Err(e);
        }
        let ghost v0 = self@;
        let ghost t0 = transfers@;
        let ghost c0 = self@.counter(depositor);
        let mut ids: Vec<u32> = Vec::new();
        let mut i: usize = 0;
        while i < deposits.len()
            invariant
                i <= deposits@.len(),
                deposits@.len() <= MAX_BATCH_SIZE,
                c0 + deposits@.len() <= u32::MAX,
                self@.wf(),
                self@ == batch_applied(v0, depositor, deposits@.subrange(0, i as int), ledger.timestamp),
                self@.counter(depositor) == c0 + i,
                self@.config == v0.config,
                batch_refusal(v0.config, ledger.timestamp, deposits@, 0).is_none(),
                ids@ == Seq::new(i as nat, |j: int| (c0 + j) as u32),
                transfers@ == t0 + batch_moves(depositor, deposits@.subrange(0, i as int)),
            decreases deposits@.len() - i,
        {
            let q = deposits[i];
            let entry = VaultEntry {
                token: q.token,
                amount: q.amount,
                unlock_time: q.unlock_time,
                depositor,
                penalty_bps: q.penalty_bps,
                compound_frequency_secs: 0,
                last_accrual_timestamp: ledger.timestamp,
                withdrawal_delay_secs: 0,
            };
            proof {
                lemma_batch_ok(v0.config, ledger.timestamp, deposits@, 0, i as int);
                crate::vault::lemma_open_keeps_wf(self@, depositor, DepositView::Time(entry));
            }
            let id = self.open_time_deposit(depositor, depositor, q.token, q.amount, entry, transfers);
            ids.push(id);
            i = i + 1;
            proof {
                let sub = deposits@.subrange(0, i as int);
                assert(sub.drop_last() =~= deposits@.subrange(0, i - 1));
                assert(sub.last() == q);
                assert(ids@ =~= Seq::new(i as nat, |j: int| (c0 + j) as u32));
                assert(batch_moves(depositor, sub) =~= batch_moves(depositor, deposits@.subrange(0, i - 1)).push(
                    Transfer::ToVault { token: q.token, from: depositor, amount: q.amount },
                ));
            }
        }
        assert(deposits@.subrange(0, deposits@.len() as int) =~= deposits@);
        Ok(ids)
    }
}

} // verus!
