//! Releasing deposits: withdrawal after unlock, early cancellation with a
//! penalty, and the admin's emergency release.
use vstd::prelude::*;
use crate::address::{Address, deposit_key, make_deposit_key};
use crate::arith::{clamp_i128, clamp_u64, sat_add_i128};
use crate::constants::{FEE_RECIPIENT_PENALTY_BPS, MAX_EMERGENCY_WITHDRAWAL_PER_LEDGER, STAKER_PENALTY_BPS};
use crate::errors::VaultError;
use crate::interest::{accrued_amount, compute_accrued_amount};
use crate::lists::contains_address;
use crate::queries::emergency_total_of;
use crate::types::{AutoRenewalConfig, DepositType, LedgerInfo, TokenDeposit, Transfer, VaultEntry};
use crate::vault::{Deposit, DepositView, SafeHaven, VaultView, deposit_valid};

verus! {

broadcast use vstd::std_specs::hash::group_hash_axioms;

/// A payment of `amount` of `token` out of the vault to `to`, if positive.
pub open spec fn payout(token: Address, to: Address, amount: int) -> Seq<Transfer> {
    if amount > 0 {
        seq![Transfer::FromVault { token, to, amount: amount as i128 }]
    } else {
        Seq::empty()
    }
}

/// The early-exit penalty on `amount` at `penalty_bps` basis points.
pub open spec fn penalty_of(amount: i128, penalty_bps: u32) -> int {
    (amount * penalty_bps) / 10_000
}

/// The fee recipient's part of a penalty (`FEE_RECIPIENT_PENALTY_BPS`); the rest goes to stakers.
pub open spec fn fee_cut(penalty: int) -> int {
    (penalty * FEE_RECIPIENT_PENALTY_BPS) / 10_000
}

/// Whether the withdrawal whitelist of `(d, id)` lets `to` receive the funds:
/// no whitelist, an empty one, or one that names `to`.
pub open spec fn whitelist_allows(v: VaultView, d: Address, id: u32, to: Address) -> bool {
    let k = deposit_key(d, id);
    !v.whitelists.contains_key(k) || v.whitelists[k].len() == 0 || v.whitelists[k].contains(to)
}

/// Why a withdrawal of `(d, id)` is refused by its lock; `None` when unlocked.
pub open spec fn unlock_refusal(v: VaultView, ledger: LedgerInfo, d: Address, id: u32) -> Option<VaultError> {
    if !v.has_deposit(d, id) {
        Some(VaultError::NoDepositFound)
    } else {
        match v.deposit(d, id) {
            DepositView::Time(e) => if ledger.timestamp < e.unlock_time {
                Some(VaultError::FundsStillLocked)
            } else if ledger.timestamp < clamp_u64(e.unlock_time + e.withdrawal_delay_secs) {
                Some(VaultError::WithdrawalDelayActive)
            } else {
                None
            },
            DepositView::Ledger(e) => if ledger.sequence < e.unlock_ledger {
                Some(VaultError::FundsStillLocked)
            } else {
                None
            },
            DepositView::Multi(e) => if ledger.timestamp < e.unlock_time {
                Some(VaultError::FundsStillLocked)
            } else {
                None
            },
        }
    }
}

/// Why `withdraw_to(d, id, to)` is refused; `None` when it goes through.
pub open spec fn withdraw_to_refusal(v: VaultView, ledger: LedgerInfo, d: Address, id: u32, to: Address) -> Option<
    VaultError,
> {
    if unlock_refusal(v, ledger, d, id).is_some() {
        unlock_refusal(v, ledger, d, id)
    } else if !whitelist_allows(v, d, id, to) {
        Some(VaultError::RecipientNotWhitelisted)
    } else {
        None
    }
}

/// Everything a released deposit pays out to `to` at `now`: a timestamp
/// deposit its accrued balance, the others their amounts.
pub open spec fn release_moves(dep: DepositView, now: u64, to: Address) -> Seq<Transfer> {
    match dep {
        DepositView::Time(e) => seq![
            Transfer::FromVault {
                token: e.token,
                to,
                amount: accrued_amount(e.amount, e.compound_frequency_secs, e.last_accrual_timestamp, now),
            },
        ],
        DepositView::Ledger(e) => seq![Transfer::FromVault { token: e.token, to, amount: e.amount }],
        DepositView::Multi(e) => e.tokens.map_values(
            |td: TokenDeposit| Transfer::FromVault { token: td.token, to, amount: td.amount },
        ),
    }
}

/// Whether withdrawing `(d, id)` renews it instead of paying it out: it is a
/// timestamp deposit with an enabled auto-renewal.
pub open spec fn renews(v: VaultView, d: Address, id: u32) -> bool {
    let k = deposit_key(d, id);
    &&& v.time_entry(d, id).is_some()
    &&& v.auto_renewals.contains_key(k)
    &&& v.auto_renewals[k].enabled
}

/// The renewed deposit: the accrued balance locked again for the renewal duration.
pub open spec fn renewed_entry(e: VaultEntry, cfg: AutoRenewalConfig, now: u64) -> VaultEntry {
    VaultEntry {
        amount: accrued_amount(e.amount, e.compound_frequency_secs, e.last_accrual_timestamp, now),
        unlock_time: clamp_u64(e.unlock_time + cfg.renewal_duration_secs),
        last_accrual_timestamp: now,
        ..e
    }
}

/// The state after a renewal of `(d, id)`: the renewed deposit opens under
/// `d`'s next id, carrying the renewal settings with one more renewal
/// counted, and the old deposit closes.
pub open spec fn renewed_state(v: VaultView, d: Address, id: u32, now: u64) -> VaultView {
    let k = deposit_key(d, id);
    let cfg = v.auto_renewals[k];
    let e = v.time_entry(d, id).unwrap();
    let nid = v.counter(d);
    let c = v.with_new_deposit(d, DepositView::Time(renewed_entry(e, cfg, now))).closed(d, id);
    let count = if cfg.renewal_count < u32::MAX {
        (cfg.renewal_count + 1) as u32
    } else {
        u32::MAX
    };
    VaultView {
        auto_renewals: v.auto_renewals.insert(deposit_key(d, nid), AutoRenewalConfig { renewal_count: count, ..cfg }).remove(k),
        ..c
    }
}

/// The state after a successful `withdraw` of `(d, id)`.
pub open spec fn withdraw_state(v: VaultView, d: Address, id: u32, now: u64) -> VaultView {
    if renews(v, d, id) {
        renewed_state(v, d, id, now)
    } else if v.time_entry(d, id).is_some() {
        VaultView { auto_renewals: v.auto_renewals.remove(deposit_key(d, id)), ..v.closed(d, id) }
    } else {
        v.closed(d, id)
    }
}

/// The transfers of a successful `withdraw` of `(d, id)`.
pub open spec fn withdraw_moves(v: VaultView, d: Address, id: u32, now: u64) -> Seq<Transfer> {
    if renews(v, d, id) {
        Seq::empty()
    } else {
        release_moves(v.deposit(d, id), now, d)
    }
}

/// What a release entry point does: on success the state and the transfers
/// are `state` and `moves`; on a refusal nothing changes.
pub open spec fn release_outcome(
    old: VaultView,
    new: VaultView,
    old_t: Seq<Transfer>,
    new_t: Seq<Transfer>,
    r: Result<(), VaultError>,
    refusal: Option<VaultError>,
    state: VaultView,
    moves: Seq<Transfer>,
) -> bool {
    match r {
        Ok(()) => {
            &&& refusal.is_none()
            &&& new == state
            &&& new_t == old_t + moves
        },
        Err(e) => {
            &&& refusal == Some(e)
            &&& new == old
            &&& new_t == old_t
        },
    }
}

/// The penalty and refund transfers of cancelling `amount` of `token` owned by `d`.
pub open spec fn cancel_split_moves(token: Address, fee: Option<Address>, d: Address, amount: i128, bps: u32) -> Seq<
    Transfer,
> {
    let p = penalty_of(amount, bps);
    payout(token, fee.unwrap(), fee_cut(p)) + payout(token, d, amount - p)
}

/// The penalty and refund transfers of cancelling a multi-token deposit:
/// per token the whole penalty to the fee recipient, the rest back to `d`.
pub open spec fn multi_cancel_moves(tokens: Seq<TokenDeposit>, fee: Option<Address>, d: Address, bps: u32) -> Seq<
    Transfer,
>
    decreases tokens.len(),
{
    if tokens.len() == 0 {
        Seq::empty()
    } else {
        let td = tokens.last();
        let p = penalty_of(td.amount, bps);
        multi_cancel_moves(tokens.drop_last(), fee, d, bps) + payout(td.token, fee.unwrap(), p) + payout(
            td.token,
            d,
            td.amount - p,
        )
    }
}

/// Whether some token of a multi-token deposit carries a positive penalty.
pub open spec fn some_penalty(tokens: Seq<TokenDeposit>, bps: u32) -> bool {
    exists|i: int| 0 <= i < tokens.len() && penalty_of(#[trigger] tokens[i].amount, bps) > 0
}

/// The balance a timestamp deposit is cancelled or released with at `now`.
pub open spec fn current_amount(e: VaultEntry, now: u64) -> i128 {
    accrued_amount(e.amount, e.compound_frequency_secs, e.last_accrual_timestamp, now)
}

/// Why `cancel_deposit(d, id)` is refused; `None` when it goes through.
pub open spec fn cancel_refusal(v: VaultView, ledger: LedgerInfo, d: Address, id: u32) -> Option<VaultError> {
    if !v.has_deposit(d, id) {
        Some(VaultError::NoDepositFound)
    } else {
        match v.deposit(d, id) {
            DepositView::Time(e) => if ledger.timestamp >= e.unlock_time {
                Some(VaultError::VaultAlreadyUnlocked)
            } else if penalty_of(current_amount(e, ledger.timestamp), e.penalty_bps) > 0
                && v.config.fee_recipient.is_none() {
                Some(VaultError::MissingFeeRecipient)
            } else {
                None
            },
            DepositView::Ledger(e) => if ledger.sequence >= e.unlock_ledger {
                Some(VaultError::VaultAlreadyUnlocked)
            } else if penalty_of(e.amount, e.penalty_bps) > 0 && v.config.fee_recipient.is_none() {
                Some(VaultError::MissingFeeRecipient)
            } else {
                None
            },
            DepositView::Multi(e) => if ledger.timestamp >= e.unlock_time {
                Some(VaultError::VaultAlreadyUnlocked)
            } else if some_penalty(e.tokens, e.penalty_bps) && v.config.fee_recipient.is_none() {
                Some(VaultError::MissingFeeRecipient)
            } else {
                None
            },
        }
    }
}

/// The single-token amount being cancelled and its penalty rate, if `(d, id)`
/// is a single-token deposit.
pub open spec fn single_cancel(v: VaultView, ledger: LedgerInfo, d: Address, id: u32) -> Option<(Address, i128, u32)> {
    match v.deposit(d, id) {
        DepositView::Time(e) => Some((e.token, current_amount(e, ledger.timestamp), e.penalty_bps)),
        DepositView::Ledger(e) => Some((e.token, e.amount, e.penalty_bps)),
        DepositView::Multi(_) => None,
    }
}

/// The state after `cancel_deposit(d, id)`: the deposit closes and, for a
/// single-token deposit, the stakers' share of the penalty joins the rewards pool.
pub open spec fn cancel_state(v: VaultView, ledger: LedgerInfo, d: Address, id: u32) -> VaultView {
    match single_cancel(v, ledger, d, id) {
        Some((_, amount, bps)) => {
            let p = penalty_of(amount, bps);
            VaultView { rewards_pool: (v.rewards_pool + (p - fee_cut(p))) as i128, ..v.closed(d, id) }
        },
        None => v.closed(d, id),
    }
}

/// The transfers of `cancel_deposit(d, id)`.
pub open spec fn cancel_moves(v: VaultView, ledger: LedgerInfo, d: Address, id: u32) -> Seq<Transfer> {
    match v.deposit(d, id) {
        DepositView::Multi(e) => multi_cancel_moves(e.tokens, v.config.fee_recipient, d, e.penalty_bps),
        _ => {
            let (token, amount, bps) = single_cancel(v, ledger, d, id).unwrap();
            cancel_split_moves(token, v.config.fee_recipient, d, amount, bps)
        },
    }
}

/// Whether the penalty arithmetic of cancelling `(d, id)` stays within `i128`.
pub open spec fn cancel_fits(v: VaultView, ledger: LedgerInfo, d: Address, id: u32) -> bool {
    match v.deposit(d, id) {
        DepositView::Multi(e) => forall|i: int|
            0 <= i < e.tokens.len() ==> #[trigger] e.tokens[i].amount * e.penalty_bps <= i128::MAX,
        _ => {
            let (token, amount, bps) = single_cancel(v, ledger, d, id).unwrap();
            &&& amount * bps <= i128::MAX
            &&& v.rewards_pool + (penalty_of(amount, bps) - fee_cut(penalty_of(amount, bps))) <= i128::MAX
        },
    }
}

/// The total of a multi-token deposit's amounts, saturating at the bounds of `i128`.
pub open spec fn tokens_total(tokens: Seq<TokenDeposit>) -> i128
    decreases tokens.len(),
{
    if tokens.len() == 0 {
        0
    } else {
        clamp_i128(tokens_total(tokens.drop_last()) + tokens.last().amount)
    }
}

/// The amount an emergency release of `dep` moves (no interest is accrued).
pub open spec fn emergency_amount(dep: DepositView) -> i128 {
    match dep {
        DepositView::Time(e) => e.amount,
        DepositView::Ledger(e) => e.amount,
        DepositView::Multi(e) => tokens_total(e.tokens),
    }
}

/// Why `emergency_withdraw(admin, d, id)` is refused at ledger `ledger`; `None` when it goes through.
pub open spec fn emergency_refusal(v: VaultView, ledger: LedgerInfo, admin: Address, d: Address, id: u32) -> Option<
    VaultError,
> {
    if v.config.admin != Some(admin) {
        Some(VaultError::Unauthorized)
    } else if !v.has_deposit(d, id) {
        Some(VaultError::NoDepositFound)
    } else if emergency_amount(v.deposit(d, id)) > MAX_EMERGENCY_WITHDRAWAL_PER_LEDGER - emergency_total_of(
        v,
        ledger.sequence,
    ) {
        Some(VaultError::EmergencyWithdrawalLimitExceeded)
    } else {
        None
    }
}

/// The state after an emergency release of `(d, id)`: the deposit closes and
/// its amount is added to the ledger's emergency total.
pub open spec fn emergency_state(v: VaultView, ledger: LedgerInfo, d: Address, id: u32) -> VaultView {
    VaultView {
        emergency_totals: v.emergency_totals.insert(
            ledger.sequence,
            (emergency_total_of(v, ledger.sequence) + emergency_amount(v.deposit(d, id))) as i128,
        ),
        ..v.closed(d, id)
    }
}

/// The transfers of an emergency release: every amount back to the depositor.
pub open spec fn emergency_moves(dep: DepositView, d: Address) -> Seq<Transfer> {
    match dep {
        DepositView::Time(e) => seq![Transfer::FromVault { token: e.token, to: d, amount: e.amount }],
        DepositView::Ledger(e) => seq![Transfer::FromVault { token: e.token, to: d, amount: e.amount }],
        DepositView::Multi(e) => e.tokens.map_values(
            |td: TokenDeposit| Transfer::FromVault { token: td.token, to: d, amount: td.amount },
        ),
    }
}

/// The penalty of an early exit and its split: returns `(penalty, refund,
/// fee_share, stakers_share)` where `penalty = amount * penalty_bps / 10_000`,
/// `refund = amount - penalty`, `fee_share = penalty * 30%` and the stakers
/// receive the rest of the penalty.
pub fn split_penalty(amount: i128, penalty_bps: u32) -> (r: (i128, i128, i128, i128))
    requires
        amount >= 0,
        amount * penalty_bps <= i128::MAX,
    ensures
        r.0 == penalty_of(amount, penalty_bps),
        r.1 == amount - r.0,
        r.2 == fee_cut(r.0 as int),
        r.3 == r.0 - r.2,
{
    assert(0 <= amount * penalty_bps) by (nonlinear_arith)
        requires
            amount >= 0,
    ;
    let penalty: i128 = (amount * (penalty_bps as i128)) / 10_000;
    assert(penalty * 3000 <= i128::MAX) by (nonlinear_arith)
        requires
            penalty == (amount * penalty_bps) / 10_000,
            0 <= amount * penalty_bps <= i128::MAX,
    ;
    assert(0 <= penalty);
    let fee_share: i128 = (penalty * 3000) / 10_000;
    let refund: i128 = amount - penalty;
    (penalty, refund, fee_share, penalty - fee_share)
}

/// The penalty split conserves value: the penalty and the refund make up the
/// amount, the fee recipient's and the stakers' shares make up the penalty,
/// and no part is negative; with a penalty rate of at most 100% the penalty
/// never exceeds the amount.
pub proof fn lemma_penalty_split(amount: i128, penalty_bps: u32)
    requires
        amount >= 0,
        penalty_bps <= 10_000,
    ensures
        0 <= penalty_of(amount, penalty_bps) <= amount,
        0 <= fee_cut(penalty_of(amount, penalty_bps)) <= penalty_of(amount, penalty_bps),
        penalty_of(amount, penalty_bps) + (amount - penalty_of(amount, penalty_bps)) == amount,
        fee_cut(penalty_of(amount, penalty_bps)) + (penalty_of(amount, penalty_bps) - fee_cut(
            penalty_of(amount, penalty_bps),
        )) == penalty_of(amount, penalty_bps),
        STAKER_PENALTY_BPS + FEE_RECIPIENT_PENALTY_BPS == 10_000,
{
    let p = penalty_of(amount, penalty_bps);
    assert(0 <= p <= amount) by (nonlinear_arith)
        requires
            p == (amount * penalty_bps) / 10_000,
            amount >= 0,
            0 <= penalty_bps <= 10_000,
    ;
    assert(0 <= fee_cut(p) <= p) by (nonlinear_arith)
        requires
            fee_cut(p) == (p * 3000) / 10_000,
            p >= 0,
    ;
}

impl SafeHaven {
    /// `Ok` when the whitelist of `(d, id)` lets `to` receive it: no
    /// whitelist, an empty one, or one that names `to`.
    fn check_whitelist(&self, d: Address, id: u32, to: Address) -> (r: Result<(), VaultError>)
        ensures
            r is Ok <==> whitelist_allows(self@, d, id, to),
            r matches Err(e) ==> e == VaultError::RecipientNotWhitelisted,
    {
        let k = make_deposit_key(d, id);
        let allowed = match self.whitelists.get(&k) {
            None => true,
            Some(wl) => wl.len() == 0 || contains_address(wl, to),
        };
        if allowed {
            Ok(())
        } else {
            Err(VaultError::RecipientNotWhitelisted)
        }
    }

    /// Closes `(d, id)` and appends what it pays out to `to`.
    fn release(&mut self, ledger: LedgerInfo, d: Address, id: u32, to: Address, transfers: &mut Vec<Transfer>)
        requires
            old(self)@.wf(),
            old(self)@.has_deposit(d, id),
        ensures
            final(self)@.wf(),
            final(self)@ == old(self)@.closed(d, id),
            final(transfers)@ == old(transfers)@ + release_moves(old(self)@.deposit(d, id), ledger.timestamp, to),
    {
        let ghost t0 = transfers@;
        let dep = self.close_deposit(d, id);
        match dep {
            Deposit::Time(e) => {
                let amount = compute_accrued_amount(
                    e.amount,
                    e.compound_frequency_secs,
                    e.last_accrual_timestamp,
                    ledger.timestamp,
                );
                transfers.push(Transfer::FromVault { token: e.token, to, amount });
            },
            Deposit::Ledger(e) => {
                transfers.push(Transfer::FromVault { token: e.token, to, amount: e.amount });
            },
            Deposit::Multi(m) => {
                let ghost moves = m.tokens@.map_values(
                    |td: TokenDeposit| Transfer::FromVault { token: td.token, to, amount: td.amount },
                );
                let mut i: usize = 0;
                while i < m.tokens.len()
                    invariant
                        i <= m.tokens@.len(),
                        transfers@ == t0 + moves.subrange(0, i as int),
                        moves == m.tokens@.map_values(
                            |td: TokenDeposit| Transfer::FromVault { token: td.token, to, amount: td.amount },
                        ),
                    decreases m.tokens@.len() - i,
                {
                    let td = m.tokens[i];
                    transfers.push(Transfer::FromVault { token: td.token, to, amount: td.amount });
                    i = i + 1;
                    assert(transfers@ =~= t0 + moves.subrange(0, i as int));
                }
                assert(moves.subrange(0, m.tokens@.len() as int) =~= moves);
            },
        }
        assert(transfers@ =~= t0 + release_moves(dep@, ledger.timestamp, to));
    }

    fn check_unlock(&self, ledger: LedgerInfo, d: Address, id: u32) -> (r: Option<VaultError>)
        ensures
            r == unlock_refusal(self@, ledger, d, id),
    {
        let k = make_deposit_key(d, id);
        match self.deposits.get(&k) {
            None => Some(VaultError::NoDepositFound),
            Some(Deposit::Time(e)) => {
                if ledger.timestamp < e.unlock_time {
                    Some(VaultError::FundsStillLocked)
                } else if ledger.timestamp < e.unlock_time.saturating_add(e.withdrawal_delay_secs) {
                    Some(VaultError::WithdrawalDelayActive)
                } else {
                    None
                }
            },
            Some(Deposit::Ledger(e)) => {
                if ledger.sequence < e.unlock_ledger {
                    Some(VaultError::FundsStillLocked)
                } else {
                    None
                }
            },
            Some(Deposit::Multi(e)) => {
                if ledger.timestamp < e.unlock_time {
                    Some(VaultError::FundsStillLocked)
                } else {
                    None
                }
            },
        }
    }

    /// Renews the timestamp deposit `(d, id)` if it has an enabled
    /// auto-renewal: its accrued balance opens again under `d`'s next id,
    /// locked for the renewal duration past the old unlock time, the renewal
    /// settings move to it with one more renewal counted, and the old deposit
    /// closes. Returns the new id, or `None` (nothing changed) when the
    /// deposit does not renew.
    fn try_auto_renew(&mut self, ledger: LedgerInfo, d: Address, id: u32) -> (r: Option<u32>)
        requires
            old(self)@.wf(),
            old(self)@.time_entry(d, id).is_some(),
            renews(old(self)@, d, id) ==> old(self)@.counter(d) < u32::MAX,
        ensures
            final(self)@.wf(),
            match r {
                Some(new_id) => {
                    &&& renews(old(self)@, d, id)
                    &&& new_id == old(self)@.counter(d)
                    &&& final(self)@ == renewed_state(old(self)@, d, id, ledger.timestamp)
                },
                None => !renews(old(self)@, d, id) && final(self)@ == old(self)@,
            },
    {
        let ghost v = self@;
        let k = make_deposit_key(d, id);
        let cfg = match self.auto_renewals.get(&k) {
            Some(c) => if c.enabled {
                *c
            } else {
                return None;
            },
            None => {
                return None;
            },
        };
        let e = match self.get_vault(d, id) {
            Some(e) => e,
            None => {
                return None;
            },
        };
        let now = ledger.timestamp;
        let amount = compute_accrued_amount(e.amount, e.compound_frequency_secs, e.last_accrual_timestamp, now);
        let renewed = VaultEntry {
            token: e.token,
            amount,
            unlock_time: e.unlock_time.saturating_add(cfg.renewal_duration_secs),
            depositor: e.depositor,
            penalty_bps: e.penalty_bps,
            compound_frequency_secs: e.compound_frequency_secs,
            last_accrual_timestamp: now,
            withdrawal_delay_secs: e.withdrawal_delay_secs,
        };
        assert(deposit_valid(v.deposits[k]));
        let new_id = self.open_deposit(d, Deposit::Time(renewed));
        proof {
            crate::address::lemma_deposit_key_injective(d, new_id, d, id);
        }
        self.close_deposit(d, id);
        let ghost before = self@;
        let count = cfg.renewal_count.saturating_add(1);
        self.auto_renewals.insert(
            make_deposit_key(d, new_id),
            AutoRenewalConfig {
                enabled: cfg.enabled,
                renewal_duration_secs: cfg.renewal_duration_secs,
                renewal_count: count,
            },
        );
        self.auto_renewals.remove(&k);
        proof {
            crate::vault::lemma_wf_frame(before, self@);
        }
        assert(self@.auto_renewals =~= renewed_state(v, d, id, now).auto_renewals);
        assert(self@ =~= renewed_state(v, d, id, now));
        Some(new_id)
    }

    /// Withdraws the unlocked deposit `(depositor, deposit_id)` to the
    /// depositor; a timestamp deposit pays out its accrued balance. A
    /// timestamp deposit with an enabled auto-renewal is instead locked again
    /// under a new id for the renewal duration.
    pub fn withdraw(
        &mut self,
        ledger: LedgerInfo,
        depositor: Address,
        deposit_id: u32,
        transfers: &mut Vec<Transfer>,
    ) -> (r: Result<(), VaultError>)
        requires
            old(self)@.wf(),
            unlock_refusal(old(self)@, ledger, depositor, deposit_id).is_none() && renews(
                old(self)@,
                depositor,
                deposit_id,
            ) ==> old(self)@.counter(depositor) < u32::MAX,
        ensures
            final(self)@.wf(),
            release_outcome(
                old(self)@,
                final(self)@,
                old(transfers)@,
                final(transfers)@,
                r,
                unlock_refusal(old(self)@, ledger, depositor, deposit_id),
                withdraw_state(old(self)@, depositor, deposit_id, ledger.timestamp),
                withdraw_moves(old(self)@, depositor, deposit_id, ledger.timestamp),
            ),
    {
        if let Some(e) = self.check_unlock(ledger, depositor, deposit_id) {
            return Err(e);
        }
        let ghost v = self@;
        let k = make_deposit_key(depositor, deposit_id);
        if self.get_vault(depositor, deposit_id).is_some() {
            if let Some(_new_id) = self.try_auto_renew(ledger, depositor, deposit_id) {
                assert(transfers@ =~= old(transfers)@ + withdraw_moves(v, depositor, deposit_id, ledger.timestamp));
                return Ok(());
            }
            self.release(ledger, depositor, deposit_id, depositor, transfers);
            let ghost before = self@;
            self.auto_renewals.remove(&k);
            proof {
                crate::vault::lemma_wf_frame(before, self@);
            }
            assert(self@ =~= withdraw_state(v, depositor, deposit_id, ledger.timestamp));
            return Ok(());
        }
        self.release(ledger, depositor, deposit_id, depositor, transfers);
        Ok(())
    }

    /// Withdraws the unlocked deposit `(depositor, deposit_id)` to
    /// `recipient`, who must be allowed by the deposit's whitelist.
    pub fn withdraw_to(
        &mut self,
        ledger: LedgerInfo,
        depositor: Address,
        deposit_id: u32,
        recipient: Address,
        transfers: &mut Vec<Transfer>,
    ) -> (r: Result<(), VaultError>)
        requires
            old(self)@.wf(),
        ensures
            final(self)@.wf(),
            release_outcome(
                old(self)@,
                final(self)@,
                old(transfers)@,
                final(transfers)@,
                r,
                withdraw_to_refusal(old(self)@, ledger, depositor, deposit_id, recipient),
                old(self)@.closed(depositor, deposit_id),
                release_moves(old(self)@.deposit(depositor, deposit_id), ledger.timestamp, recipient),
            ),
    {
        if let Some(e) = self.check_unlock(ledger, depositor, deposit_id) {
            return Err(e);
        }
        self.check_whitelist(depositor, deposit_id, recipient)?;
        self.release(ledger, depositor, deposit_id, recipient, transfers);
        Ok(())
    }
}


/// The saturating total of positive amounts is non-negative.
pub proof fn lemma_tokens_total_nonneg(tokens: Seq<TokenDeposit>)
    requires
        forall|i: int| 0 <= i < tokens.len() ==> #[trigger] tokens[i].amount > 0,
    ensures
        tokens_total(tokens) >= 0,
    decreases tokens.len(),
{
    if tokens.len() > 0 {
        let t = tokens.drop_last();
        assert forall|i: int| 0 <= i < t.len() implies #[trigger] t[i].amount > 0 by {
            assert(t[i] == tokens[i]);
        }
        lemma_tokens_total_nonneg(t);
        assert(tokens.last().amount == tokens[tokens.len() - 1].amount);
    }
}

/// Whether the penalty of `amount` at `bps` basis points is positive.
fn positive_penalty(amount: i128, bps: u32) -> (b: bool)
    requires
        amount > 0,
    ensures
        b == (penalty_of(amount, bps) > 0),
{
    match amount.checked_mul(bps as i128) {
        Some(p) => p >= 10_000,
        None => {
            assert(amount * bps > 10_000) by (nonlinear_arith)
                requires
                    amount * bps > i128::MAX || amount * bps < i128::MIN,
                    amount > 0,
                    bps >= 0,
            ;
            true
        },
    }
}

/// Whether some token of `tokens` carries a positive penalty at `bps`.
fn any_positive_penalty(tokens: &Vec<TokenDeposit>, bps: u32) -> (b: bool)
    requires
        forall|i: int| 0 <= i < tokens@.len() ==> #[trigger] tokens@[i].amount > 0,
    ensures
        b == some_penalty(tokens@, bps),
{
    let mut i: usize = 0;
    while i < tokens.len()
        invariant
            i <= tokens@.len(),
            forall|i: int| 0 <= i < tokens@.len() ==> #[trigger] tokens@[i].amount > 0,
            forall|j: int| 0 <= j < i ==> penalty_of(#[trigger] tokens@[j].amount, bps) <= 0,
        decreases tokens@.len() - i,
    {
        if positive_penalty(tokens[i].amount, bps) {
            return true;
        }
        i = i + 1;
    }
    false
}

impl SafeHaven {
    /// Whether `caller` is the current admin.
    pub fn is_admin(&self, caller: Address) -> (b: bool)
        ensures
            b == (self@.config.admin == Some(caller)),
    {
        match self.config.admin {
            Some(a) => a == caller,
            None => false,
        }
    }

    fn pay(transfers: &mut Vec<Transfer>, token: Address, to: Address, amount: i128)
        ensures
            final(transfers)@ == old(transfers)@ + payout(token, to, amount as int),
    {
        if amount > 0 {
            transfers.push(Transfer::FromVault { token, to, amount });
        }
        assert(final(transfers)@ =~= old(transfers)@ + payout(token, to, amount as int));
    }

    /// Cancels the single-token deposit `(d, id)` worth `amount`: pays the
    /// fee recipient's share of the penalty and the refund, and credits the
    /// stakers' share to the rewards pool.
    fn cancel_single(
        &mut self,
        d: Address,
        id: u32,
        token: Address,
        amount: i128,
        bps: u32,
        transfers: &mut Vec<Transfer>,
    )
        requires
            old(self)@.wf(),
            old(self)@.has_deposit(d, id),
            amount >= 0,
            amount * bps <= i128::MAX,
            old(self)@.rewards_pool + (penalty_of(amount, bps) - fee_cut(penalty_of(amount, bps))) <= i128::MAX,
            penalty_of(amount, bps) > 0 ==> old(self)@.config.fee_recipient.is_some(),
        ensures
            final(self)@.wf(),
            final(self)@ == (VaultView {
                rewards_pool: (old(self)@.rewards_pool + (penalty_of(amount, bps) - fee_cut(penalty_of(amount, bps)))) as i128,
                ..old(self)@.closed(d, id)
            }),
            final(transfers)@ == old(transfers)@ + cancel_split_moves(
                token,
                old(self)@.config.fee_recipient,
                d,
                amount,
                bps,
            ),
    {
        let ghost v = self@;
        let ghost t0 = transfers@;
        let (penalty, refund, fee_share, stakers_share) = split_penalty(amount, bps);
        proof {
            lemma_penalty_split(amount, 0);
            assert(0 <= penalty) by (nonlinear_arith)
                requires
                    penalty == (amount * bps) / 10_000,
                    amount >= 0,
            ;
            assert(0 <= fee_share <= penalty) by (nonlinear_arith)
                requires
                    fee_share == (penalty * 3000) / 10_000,
                    penalty >= 0,
            ;
        }
        self.close_deposit(d, id);
        if penalty > 0 {
            let fee = self.config.fee_recipient.unwrap();
            Self::pay(transfers, token, fee, fee_share);
            let ghost before = self@;
            self.rewards_pool = self.rewards_pool + stakers_share;
            proof {
                crate::vault::lemma_wf_frame(before, self@);
            }
        } else {
            assert(fee_share == 0);
            assert(payout(token, v.config.fee_recipient.unwrap(), fee_share as int) =~= Seq::empty());
            assert(transfers@ =~= t0 + payout(token, v.config.fee_recipient.unwrap(), fee_share as int));
        }
        Self::pay(transfers, token, d, refund);
        assert(transfers@ =~= t0 + cancel_split_moves(token, v.config.fee_recipient, d, amount, bps));
        assert(self@ =~= (VaultView {
            rewards_pool: (v.rewards_pool + (penalty_of(amount, bps) - fee_cut(penalty_of(amount, bps)))) as i128,
            ..v.closed(d, id)
        }));
    }

    /// Exits the locked deposit `(depositor, deposit_id)` early. The penalty
    /// (`penalty_bps` of the balance, with interest accrued first) is split:
    /// 30% to the fee recipient and 70% into the stakers' rewards pool; the
    /// rest is refunded. For a multi-token deposit each token's whole penalty
    /// goes to the fee recipient.
    pub fn cancel_deposit(
        &mut self,
        ledger: LedgerInfo,
        depositor: Address,
        deposit_id: u32,
        transfers: &mut Vec<Transfer>,
    ) -> (r: Result<(), VaultError>)
        requires
            old(self)@.wf(),
            cancel_refusal(old(self)@, ledger, depositor, deposit_id).is_none() ==> cancel_fits(
                old(self)@,
                ledger,
                depositor,
                deposit_id,
            ),
        ensures
            final(self)@.wf(),
            release_outcome(
                old(self)@,
                final(self)@,
                old(transfers)@,
                final(transfers)@,
                r,
                cancel_refusal(old(self)@, ledger, depositor, deposit_id),
                cancel_state(old(self)@, ledger, depositor, deposit_id),
                cancel_moves(old(self)@, ledger, depositor, deposit_id),
            ),
    {
        let ghost v = self@;
        let now = ledger.timestamp;
        let k = make_deposit_key(depositor, deposit_id);
        let has_fee = self.config.fee_recipient.is_some();
        match self.get_deposit_type(depositor, deposit_id) {
            None => Err(VaultError::NoDepositFound),
            Some(DepositType::TimeBased) => {
                let e = self.get_vault(depositor, deposit_id).unwrap();
                assert(deposit_valid(v.deposits[k]));
                if now >= e.unlock_time {
                    return Err(VaultError::VaultAlreadyUnlocked);
                }
                let amount = compute_accrued_amount(
                    e.amount,
                    e.compound_frequency_secs,
                    e.last_accrual_timestamp,
                    now,
                );
                if positive_penalty(amount, e.penalty_bps) && !has_fee {
                    return Err(VaultError::MissingFeeRecipient);
                }
                self.cancel_single(depositor, deposit_id, e.token, amount, e.penalty_bps, transfers);
                Ok(())
            },
            Some(DepositType::LedgerBased) => {
                let e = self.get_ledger_vault(depositor, deposit_id).unwrap();
                assert(deposit_valid(v.deposits[k]));
                if ledger.sequence >= e.unlock_ledger {
                    return Err(VaultError::VaultAlreadyUnlocked);
                }
                if positive_penalty(e.amount, e.penalty_bps) && !has_fee {
                    return Err(VaultError::MissingFeeRecipient);
                }
                self.cancel_single(depositor, deposit_id, e.token, e.amount, e.penalty_bps, transfers);
                Ok(())
            },
            Some(DepositType::MultiToken) => {
                assert(deposit_valid(v.deposits[k]));
                let (unlock_time, bps, any_penalty) = match self.deposits.get(&k) {
                    Some(Deposit::Multi(m)) => (m.unlock_time, m.penalty_bps, any_positive_penalty(&m.tokens, m.penalty_bps)),
                    _ => (0, 0, false),
                };
                if now >= unlock_time {
                    return Err(VaultError::VaultAlreadyUnlocked);
                }
                if any_penalty && !has_fee {
                    return Err(VaultError::MissingFeeRecipient);
                }
                let fee = self.config.fee_recipient;
                let dep = self.close_deposit(depositor, deposit_id);
                if let Deposit::Multi(m) = dep {
                    let ghost t0 = transfers@;
                    let mut i: usize = 0;
                    while i < m.tokens.len()
                        invariant
                            i <= m.tokens@.len(),
                            k == deposit_key(depositor, deposit_id),
                            v.deposits[k] == DepositView::Multi(m@),
                            deposit_valid(DepositView::Multi(m@)),
                            cancel_fits(v, ledger, depositor, deposit_id),
                            fee == v.config.fee_recipient,
                            bps == m.penalty_bps,
                            any_penalty == some_penalty(m.tokens@, bps),
                            any_penalty ==> fee.is_some(),
                            transfers@ == t0 + multi_cancel_moves(m.tokens@.subrange(0, i as int), fee, depositor, bps),
                        decreases m.tokens@.len() - i,
                    {
                        let td = m.tokens[i];
                        assert(td == m.tokens@[i as int]);
                        assert(td.amount > 0);
                        assert(v.deposit(depositor, deposit_id) == DepositView::Multi(m@));
                        assert(m@.tokens[i as int].amount * m@.penalty_bps <= i128::MAX);
                        assert(td.amount * bps <= i128::MAX);
                        let (penalty, refund, _, _) = split_penalty(td.amount, bps);
                        if penalty > 0 {
                            assert(some_penalty(m.tokens@, bps));
                            Self::pay(transfers, td.token, fee.unwrap(), penalty);
                        } else {
                            assert(payout(td.token, fee.unwrap(), penalty as int) =~= Seq::empty());
                        }
                        Self::pay(transfers, td.token, depositor, refund);
                        i = i + 1;
                        proof {
                            let sub = m.tokens@.subrange(0, i as int);
                            assert(sub.drop_last() =~= m.tokens@.subrange(0, i - 1));
                            assert(sub.last() == td);
                            assert(transfers@ =~= t0 + multi_cancel_moves(sub, fee, depositor, bps));
                        }
                    }
                    assert(m.tokens@.subrange(0, m.tokens@.len() as int) =~= m.tokens@);
                }
                Ok(())
            },
        }
    }
}


/// The saturating total of the amounts of `tokens`.
pub fn total_amount(tokens: &Vec<TokenDeposit>) -> (r: i128)
    ensures
        r == tokens_total(tokens@),
{
    let mut acc: i128 = 0;
    let mut i: usize = 0;
    while i < tokens.len()
        invariant
            i <= tokens@.len(),
            acc == tokens_total(tokens@.subrange(0, i as int)),
        decreases tokens@.len() - i,
    {
        acc = sat_add_i128(acc, tokens[i].amount);
        i = i + 1;
        proof {
            let sub = tokens@.subrange(0, i as int);
            assert(sub.drop_last() =~= tokens@.subrange(0, i - 1));
        }
    }
    assert(tokens@.subrange(0, tokens@.len() as int) =~= tokens@);
    acc
}

/// Recording an emergency total within the cap keeps the invariant.
pub proof fn lemma_wf_emergency(a: VaultView, sequence: u32, total: i128)
    requires
        a.wf(),
        0 <= total <= MAX_EMERGENCY_WITHDRAWAL_PER_LEDGER,
    ensures
        (VaultView { emergency_totals: a.emergency_totals.insert(sequence, total), ..a }).wf(),
{
    let b = VaultView { emergency_totals: a.emergency_totals.insert(sequence, total), ..a };
    assert forall|d: Address| #[trigger] b.active(d) == a.active(d) by {}
    assert forall|d: Address| #[trigger] b.counter(d) == a.counter(d) by {}
    assert forall|d: Address| #[trigger] b.subscription_counter(d) == a.subscription_counter(d) by {}
    assert forall|d: Address, id: u32| #[trigger] b.has_deposit(d, id) == a.has_deposit(d, id) by {}
}

impl SafeHaven {
    /// Admin-only early release of `(depositor, deposit_id)`: the whole
    /// amount (without interest) goes back to the depositor, never to the
    /// admin. The emergency releases of one ledger may not exceed
    /// `MAX_EMERGENCY_WITHDRAWAL_PER_LEDGER` in total.
    pub fn emergency_withdraw(
        &mut self,
        ledger: LedgerInfo,
        admin: Address,
        depositor: Address,
        deposit_id: u32,
        transfers: &mut Vec<Transfer>,
    ) -> (r: Result<(), VaultError>)
        requires
            old(self)@.wf(),
        ensures
            final(self)@.wf(),
            release_outcome(
                old(self)@,
                final(self)@,
                old(transfers)@,
                final(transfers)@,
                r,
                emergency_refusal(old(self)@, ledger, admin, depositor, deposit_id),
                emergency_state(old(self)@, ledger, depositor, deposit_id),
                emergency_moves(old(self)@.deposit(depositor, deposit_id), depositor),
            ),
    {
        let ghost v = self@;
        if !self.is_admin(admin) {
            return Err(VaultError::Unauthorized);
        }
        let k = make_deposit_key(depositor, deposit_id);
        let amount: i128 = match self.deposits.get(&k) {
            None => {
                return Err(VaultError::NoDepositFound);
            },
            Some(Deposit::Time(e)) => e.amount,
            Some(Deposit::Ledger(e)) => e.amount,
            Some(Deposit::Multi(m)) => total_amount(&m.tokens),
        };
        assert(deposit_valid(v.deposits[k]));
        proof {
            if let DepositView::Multi(m) = v.deposits[k] {
                lemma_tokens_total_nonneg(m.tokens);
            }
        }
        let total = self.get_emergency_withdrawal_total(ledger.sequence);
        assert(v.emergency_totals.contains_key(ledger.sequence) ==> 0 <= total
            <= MAX_EMERGENCY_WITHDRAWAL_PER_LEDGER);
        if amount > MAX_EMERGENCY_WITHDRAWAL_PER_LEDGER - total {
            return Err(VaultError::EmergencyWithdrawalLimitExceeded);
        }
        let ghost t0 = transfers@;
        let dep = self.close_deposit(depositor, deposit_id);
        match dep {
            Deposit::Time(e) => {
                transfers.push(Transfer::FromVault { token: e.token, to: depositor, amount: e.amount });
            },
            Deposit::Ledger(e) => {
                transfers.push(Transfer::FromVault { token: e.token, to: depositor, amount: e.amount });
            },
            Deposit::Multi(m) => {
                let ghost moves = m.tokens@.map_values(
                    |td: TokenDeposit| Transfer::FromVault { token: td.token, to: depositor, amount: td.amount },
                );
                let mut i: usize = 0;
                while i < m.tokens.len()
                    invariant
                        i <= m.tokens@.len(),
                        transfers@ == t0 + moves.subrange(0, i as int),
                        moves == m.tokens@.map_values(
                            |td: TokenDeposit| Transfer::FromVault { token: td.token, to: depositor, amount: td.amount },
                        ),
                    decreases m.tokens@.len() - i,
                {
                    let td = m.tokens[i];
                    transfers.push(Transfer::FromVault { token: td.token, to: depositor, amount: td.amount });
                    i = i + 1;
                    assert(transfers@ =~= t0 + moves.subrange(0, i as int));
                }
                assert(moves.subrange(0, m.tokens@.len() as int) =~= moves);
            },
        }
        assert(transfers@ =~= t0 + emergency_moves(dep@, depositor));
        let ghost before = self@;
        self.emergency_totals.insert(ledger.sequence, total + amount);
        proof {
            lemma_wf_emergency(before, ledger.sequence, (total + amount) as i128);
            assert(self@ =~= (VaultView {
                emergency_totals: before.emergency_totals.insert(ledger.sequence, (total + amount) as i128),
                ..before
            }));
        }
        assert(self@ =~= emergency_state(v, ledger, depositor, deposit_id));
        Ok(())
    }
}

} // verus!
