//! Recurring deposits: a subscription opens a new timestamp deposit each
//! time it is executed, once per interval, a fixed number of times.
use vstd::prelude::*;
use crate::address::{Address, deposit_key, lemma_deposit_key_injective, make_deposit_key};
use crate::arith::{clamp_u64, sat_add_u64};
use crate::constants::MIN_LOCK_DURATION_SECS;
use crate::deposit::new_time_entry;
use crate::errors::VaultError;
use crate::types::{LedgerInfo, RecurringDeposit, Transfer, VaultEntry, copy_ids};
use crate::vault::{Deposit, DepositView, SafeHaven, VaultConfig, VaultView, lemma_wf_subscriptions};

verus! {

broadcast use vstd::std_specs::hash::group_hash_axioms;

/// Why a subscription with these parameters is refused, checked in this
/// order; `None` when it is accepted.
pub open spec fn subscription_refusal(
    c: VaultConfig,
    amount: i128,
    interval_secs: u64,
    total_count: u32,
    lock_duration_secs: u64,
    penalty_bps: u32,
) -> Option<VaultError> {
    if c.paused {
        Some(VaultError::ContractPaused)
    } else if amount <= 0 {
        Some(VaultError::InvalidAmount)
    } else if amount > c.max_deposit_limit() {
        Some(VaultError::AmountTooLarge)
    } else if interval_secs == 0 || total_count == 0 {
        Some(VaultError::InvalidSubscriptionParams)
    } else if lock_duration_secs < MIN_LOCK_DURATION_SECS {
        Some(VaultError::LockDurationTooShort)
    } else if lock_duration_secs > c.max_lock_limit() {
        Some(VaultError::LockDurationTooLong)
    } else if penalty_bps > 10_000 {
        Some(VaultError::InvalidPenaltyBps)
    } else if penalty_bps > 0 && c.fee_recipient.is_none() {
        Some(VaultError::MissingFeeRecipient)
    } else {
        None
    }
}

/// Why an existing-subscription operation fails on the state of `sub`:
/// missing, cancelled or already run `total_count` times.
pub open spec fn subscription_state_refusal(sub: Option<RecurringDeposit>) -> Option<VaultError> {
    match sub {
        None => Some(VaultError::NoSubscriptionFound),
        Some(s) => if s.cancelled {
            Some(VaultError::SubscriptionCancelled)
        } else if s.executed_count >= s.total_count {
            Some(VaultError::SubscriptionCompleted)
        } else {
            None
        },
    }
}

/// Why `execute_subscription` is refused at time `now`.
pub open spec fn execute_refusal(c: VaultConfig, sub: Option<RecurringDeposit>, now: u64) -> Option<
    VaultError,
> {
    if c.paused {
        Some(VaultError::ContractPaused)
    } else if subscription_state_refusal(sub).is_some() {
        subscription_state_refusal(sub)
    } else if now < sub.unwrap().next_execution_time {
        Some(VaultError::SubscriptionNotDue)
    } else {
        None
    }
}

/// The deposit one execution of `sub` opens for `d` at time `now`.
pub open spec fn tick_entry(sub: RecurringDeposit, d: Address, now: u64) -> VaultEntry {
    new_time_entry(
        sub.token,
        sub.amount,
        clamp_u64(now + sub.lock_duration_secs),
        d,
        sub.penalty_bps,
        0,
        now,
        0,
    )
}

/// `sub` after one more execution at time `now`.
pub open spec fn ticked(sub: RecurringDeposit, now: u64) -> RecurringDeposit {
    RecurringDeposit {
        executed_count: (sub.executed_count + 1) as u32,
        next_execution_time: clamp_u64(now + sub.interval_secs),
        ..sub
    }
}

impl VaultView {
    /// The subscription `id` of `d`, if there is one.
    pub open spec fn subscription(self, d: Address, id: u32) -> Option<RecurringDeposit> {
        if self.subscriptions.contains_key(deposit_key(d, id)) {
            Some(self.subscriptions[deposit_key(d, id)])
        } else {
            None
        }
    }

    /// Every subscription id `d` has drawn, in creation order.
    pub open spec fn subscription_list(self, d: Address) -> Seq<u32> {
        if self.subscription_ids.contains_key(d.id) {
            self.subscription_ids[d.id]
        } else {
            Seq::empty()
        }
    }

    /// The state after `d` registers `sub` under its next subscription id.
    pub open spec fn with_new_subscription(self, d: Address, sub: RecurringDeposit) -> VaultView {
        let id = self.subscription_counter(d);
        VaultView {
            subscription_counters: self.subscription_counters.insert(d.id, (id + 1) as u32),
            subscriptions: self.subscriptions.insert(deposit_key(d, id), sub),
            subscription_ids: self.subscription_ids.insert(d.id, self.subscription_list(d).push(id)),
            ..self
        }
    }

    /// The state with the subscription `(d, id)` replaced by `sub`.
    pub open spec fn with_subscription(self, d: Address, id: u32, sub: RecurringDeposit) -> VaultView {
        VaultView { subscriptions: self.subscriptions.insert(deposit_key(d, id), sub), ..self }
    }
}

impl SafeHaven {
    /// The subscription `(d, id)`, if there is one.
    pub fn get_subscription(&self, depositor: Address, sub_id: u32) -> (r: Option<RecurringDeposit>)
        ensures
            r == self@.subscription(depositor, sub_id),
    {
        match self.subscriptions.get(&make_deposit_key(depositor, sub_id)) {
            Some(s) => Some(*s),
            None => None,
        }
    }

    /// Every subscription id `depositor` has created, cancelled and
    /// completed ones included.
    pub fn get_subscription_ids(&self, depositor: Address) -> (r: Vec<u32>)
        ensures
            r@ == self@.subscription_list(depositor),
    {
        match self.subscription_ids.get(&depositor.id) {
            Some(ids) => copy_ids(ids),
            None => Vec::new(),
        }
    }

    /// Sets up a recurring deposit of `amount` of `token` every
    /// `interval_secs`, `total_count` times, each locked for
    /// `lock_duration_secs`. The first execution is due at once. Returns the
    /// new subscription id.
    pub fn create_subscription(
        &mut self,
        ledger: LedgerInfo,
        depositor: Address,
        token: Address,
        amount: i128,
        interval_secs: u64,
        total_count: u32,
        lock_duration_secs: u64,
        penalty_bps: u32,
    ) -> (r: Result<u32, VaultError>)
        requires
            old(self)@.wf(),
            subscription_refusal(old(self)@.config, amount, interval_secs, total_count, lock_duration_secs, penalty_bps).is_none()
                ==> old(self)@.subscription_counter(depositor) < u32::MAX,
        ensures
            final(self)@.wf(),
            match r {
                Ok(id) => {
                    &&& subscription_refusal(old(self)@.config, amount, interval_secs, total_count, lock_duration_secs, penalty_bps).is_none()
                    &&& id == old(self)@.subscription_counter(depositor)
                    &&& final(self)@ == old(self)@.with_new_subscription(
                        depositor,
                        RecurringDeposit {
                            depositor,
                            token,
                            amount,
                            interval_secs,
                            total_count,
                            executed_count: 0,
                            lock_duration_secs,
                            penalty_bps,
                            next_execution_time: ledger.timestamp,
                            cancelled: false,
                        },
                    )
                },
                Err(e) => {
                    &&& subscription_refusal(old(self)@.config, amount, interval_secs, total_count, lock_duration_secs, penalty_bps) == Some(e)
                    &&& final(self)@ == old(self)@
                },
            },
    {
        if self.config.paused {
            return Err(VaultError::ContractPaused);
        }
        if amount <= 0 {
            return Err(VaultError::InvalidAmount);
        }
        if amount > self.max_deposit_limit() {
            return Err(VaultError::AmountTooLarge);
        }
        if interval_secs == 0 || total_count == 0 {
            return Err(VaultError::InvalidSubscriptionParams);
        }
        if lock_duration_secs < MIN_LOCK_DURATION_SECS {
            return Err(VaultError::LockDurationTooShort);
        }
        if lock_duration_secs > self.max_lock_limit() {
            return Err(VaultError::LockDurationTooLong);
        }
        if penalty_bps > 10_000 {
            return Err(VaultError::InvalidPenaltyBps);
        }
        if penalty_bps > 0 && self.config.fee_recipient.is_none() {
            return Err(VaultError::MissingFeeRecipient);
        }
        let ghost v = self@;
        let id: u32 = match self.subscription_counters.get(&depositor.id) {
            Some(c) => *c,
            None => 0,
        };
        let sub = RecurringDeposit {
            depositor,
            token,
            amount,
            interval_secs,
            total_count,
            executed_count: 0,
            lock_duration_secs,
            penalty_bps,
            next_execution_time: ledger.timestamp,
            cancelled: false,
        };
        self.subscription_counters.insert(depositor.id, id + 1);
        self.subscriptions.insert(make_deposit_key(depositor, id), sub);
        let mut ids = match self.subscription_ids.remove(&depositor.id) {
            Some(ids) => ids,
            None => Vec::new(),
        };
        assert(ids@ == v.subscription_list(depositor));
        ids.push(id);
        self.subscription_ids.insert(depositor.id, ids);
        proof {
            let w = v.with_new_subscription(depositor, sub);
            assert(self@.subscription_ids =~= w.subscription_ids);
            assert(self@ =~= w);
            assert forall|d: Address, j: u32| #[trigger] w.subscriptions.contains_key(deposit_key(d, j))
                implies j < w.subscription_counter(d) by {
                lemma_deposit_key_injective(d, j, depositor, id);
                if d.id != depositor.id {
                    assert(w.subscription_counter(d) == v.subscription_counter(d));
                    assert(v.subscriptions.contains_key(deposit_key(d, j)));
                } else if j != id {
                    assert(d == depositor);
                    assert(v.subscriptions.contains_key(deposit_key(d, j)));
                }
            }
            lemma_wf_subscriptions(v, w);
        }
        Ok(id)
    }

    /// Cancels the subscription `(depositor, sub_id)`; deposits it already
    /// opened stay as they are.
    pub fn cancel_subscription(&mut self, depositor: Address, sub_id: u32) -> (r: Result<(), VaultError>)
        requires
            old(self)@.wf(),
        ensures
            final(self)@.wf(),
            match r {
                Ok(()) => {
                    &&& subscription_state_refusal(old(self)@.subscription(depositor, sub_id)).is_none()
                    &&& final(self)@ == old(self)@.with_subscription(
                        depositor,
                        sub_id,
                        RecurringDeposit {
                            cancelled: true,
                            ..old(self)@.subscription(depositor, sub_id).unwrap()
                        },
                    )
                },
                Err(e) => {
                    &&& subscription_state_refusal(old(self)@.subscription(depositor, sub_id)) == Some(e)
                    &&& final(self)@ == old(self)@
                },
            },
    {
        let ghost v = self@;
        let k = make_deposit_key(depositor, sub_id);
        let sub: RecurringDeposit = match self.subscriptions.get(&k) {
            Some(s) => *s,
            None => {
                return Err(VaultError::NoSubscriptionFound);
            },
        };
        if sub.cancelled {
            return Err(VaultError::SubscriptionCancelled);
        }
        if sub.executed_count >= sub.total_count {
            return Err(VaultError::SubscriptionCompleted);
        }
        self.subscriptions.insert(k, RecurringDeposit { cancelled: true, ..sub });
        proof {
            let w = v.with_subscription(depositor, sub_id, RecurringDeposit { cancelled: true, ..sub });
            assert(self@ =~= w);
            assert forall|d: Address, j: u32| #[trigger] w.subscriptions.contains_key(deposit_key(d, j))
                implies j < w.subscription_counter(d) by {
                lemma_deposit_key_injective(d, j, depositor, sub_id);
            }
            lemma_wf_subscriptions(v, w);
        }
        Ok(())
    }

    /// Runs the next instalment of `(depositor, sub_id)` once it is due:
    /// takes `amount` from the subscriber, opens a deposit locked for the
    /// subscription's lock duration from now, and schedules the next one an
    /// interval later. Returns the new deposit id.
    pub fn execute_subscription(
        &mut self,
        ledger: LedgerInfo,
        depositor: Address,
        sub_id: u32,
        transfers: &mut Vec<Transfer>,
    ) -> (r: Result<u32, VaultError>)
        requires
            old(self)@.wf(),
            execute_refusal(old(self)@.config, old(self)@.subscription(depositor, sub_id), ledger.timestamp).is_none()
                ==> old(self)@.counter(depositor) < u32::MAX,
        ensures
            final(self)@.wf(),
            match r {
                Ok(id) => {
                    let sub = old(self)@.subscription(depositor, sub_id).unwrap();
                    &&& execute_refusal(old(self)@.config, old(self)@.subscription(depositor, sub_id), ledger.timestamp).is_none()
                    &&& id == old(self)@.counter(depositor)
                    &&& final(self)@ == old(self)@.with_new_deposit(
                        depositor,
                        DepositView::Time(tick_entry(sub, depositor, ledger.timestamp)),
                    ).with_subscription(depositor, sub_id, ticked(sub, ledger.timestamp))
                    &&& final(transfers)@ == old(transfers)@.push(
                        Transfer::ToVault { token: sub.token, from: sub.depositor, amount: sub.amount },
                    )
                },
                Err(e) => {
                    &&& execute_refusal(old(self)@.config, old(self)@.subscription(depositor, sub_id), ledger.timestamp) == Some(e)
                    &&& final(self)@ == old(self)@
                    &&& final(transfers)@ == old(transfers)@
                },
            },
    {
        if self.config.paused {
            return Err(VaultError::ContractPaused);
        }
        let k = make_deposit_key(depositor, sub_id);
        let sub: RecurringDeposit = match self.subscriptions.get(&k) {
            Some(s) => *s,
            None => {
                return Err(VaultError::NoSubscriptionFound);
            },
        };
        if sub.cancelled {
            return Err(VaultError::SubscriptionCancelled);
        }
        if sub.executed_count >= sub.total_count {
            return Err(VaultError::SubscriptionCompleted);
        }
        let now = ledger.timestamp;
        if now < sub.next_execution_time {
            return Err(VaultError::SubscriptionNotDue);
        }
        let ghost v = self@;
        transfers.push(Transfer::ToVault { token: sub.token, from: sub.depositor, amount: sub.amount });
        let entry = VaultEntry {
            token: sub.token,
            amount: sub.amount,
            unlock_time: sat_add_u64(now, sub.lock_duration_secs),
            depositor,
            penalty_bps: sub.penalty_bps,
            compound_frequency_secs: 0,
            last_accrual_timestamp: now,
            withdrawal_delay_secs: 0,
        };
        let id = self.open_deposit(depositor, Deposit::Time(entry));
        let ghost o = self@;
        let next = RecurringDeposit {
            executed_count: sub.executed_count + 1,
            next_execution_time: sat_add_u64(now, sub.interval_secs),
            ..sub
        };
        self.subscriptions.insert(k, next);
        proof {
            let w = o.with_subscription(depositor, sub_id, next);
            assert(self@ =~= w);
            assert(o.subscriptions == v.subscriptions);
            assert forall|d: Address, j: u32| #[trigger] w.subscriptions.contains_key(deposit_key(d, j))
                implies j < w.subscription_counter(d) by {
                lemma_deposit_key_injective(d, j, depositor, sub_id);
                assert(w.subscription_counter(d) == v.subscription_counter(d));
            }
            lemma_wf_subscriptions(o, w);
        }
        Ok(id)
    }
}

} // verus!
