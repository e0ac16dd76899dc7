//! Properties of the vault that span several entry points, stated over the
//! specifications the entry points' contracts use.
use vstd::prelude::*;
use crate::address::{Address, deposit_key, lemma_deposit_key_injective};
use crate::admin::{accept_refusal, admin_refusal, initialize_refusal, initialized_config, transfer_refusal};
use crate::constants::{
    MAX_ACCRUAL_PERIODS, MAX_DEPOSIT_AMOUNT, MAX_EMERGENCY_WITHDRAWAL_PER_LEDGER, MAX_LOCK_DURATION_SECS,
    MIN_LOCK_DURATION_SECS, FARMING_EXPECTED_ANNUAL_YIELD_BPS,
};
use crate::deposit::{
    batch_applied, batch_moves, deposit_refusal, ledger_deposit_refusal, multi_deposit_refusal,
};
use crate::errors::VaultError;
use vstd::arithmetic::div_mod::{lemma_fundamental_div_mod, lemma_fundamental_div_mod_converse};
use crate::insurance::{approve_refusal, settle_refusal};
use crate::interest::{
    accrual_periods, accrued_amount, lemma_accrual_periods_monotone, lemma_accrue_periods_grows,
    lemma_accrue_periods_monotone,
};
use crate::settings::{accrual_changes, accrued_entry};
use crate::performance::{bps_difference, clamped};
use crate::staking::{claim_refusal, reward_of, stake_of};
use crate::subscriptions::{execute_refusal, subscription_refusal, tick_entry, ticked};
use crate::types::{DepositRequest, AutoRenewalConfig, FarmingState, LedgerInfo, RecurringDeposit, TokenDeposit, Transfer, VaultEntry};
use crate::lists::{lemma_without, lemma_without_push, without};
use crate::vault::{
    DepositView, VaultConfig, VaultView, deposit_valid, lemma_close_keeps_wf, lemma_open_keeps_wf, lemma_wf_frame,
    stake_sum,
};
use crate::withdraw::{
    cancel_fits, cancel_moves, cancel_refusal, cancel_split_moves, cancel_state, single_cancel, emergency_moves, fee_cut, lemma_penalty_split, penalty_of, release_moves,
    renewed_entry, renewed_state, renews, withdraw_moves,
    unlock_refusal, withdraw_to_refusal,
};
use crate::yield_farming::{deployable, enable_refusal, farming_rewards};
use crate::arith::clamp_u128;

verus! {

/// A deposit can be read back under the id it was given: after `d` opens
/// `dep`, the deposit table holds `dep` under `d`'s previous counter, that id
/// is among `d`'s open ids, and `d` is a listed depositor.
pub proof fn law_deposit_read_back(v: VaultView, d: Address, dep: DepositView)
    requires
        v.wf(),
        v.counter(d) < u32::MAX,
        deposit_valid(dep),
    ensures
        v.with_new_deposit(d, dep).has_deposit(d, v.counter(d)),
        v.with_new_deposit(d, dep).deposit(d, v.counter(d)) == dep,
        v.with_new_deposit(d, dep).active(d).contains(v.counter(d)),
        v.with_new_deposit(d, dep).depositors.contains(d),
        v.with_new_deposit(d, dep).wf(),
{
    lemma_open_keeps_wf(v, d, dep);
    let w = v.with_new_deposit(d, dep);
    assert(w.active(d)[w.active(d).len() - 1] == v.counter(d));
}

/// Closing a deposit undoes opening it: the deposit table, the whitelists,
/// the depositor's open ids and the depositor list are as before; only the
/// depositor's id counter has moved on.
pub proof fn law_open_then_close_restores(v: VaultView, d: Address, dep: DepositView)
    requires
        v.wf(),
        v.counter(d) < u32::MAX,
        deposit_valid(dep),
        !v.whitelists.contains_key(deposit_key(d, v.counter(d))),
    ensures
        v.with_new_deposit(d, dep).closed(d, v.counter(d)).deposits == v.deposits,
        v.with_new_deposit(d, dep).closed(d, v.counter(d)).whitelists == v.whitelists,
        v.with_new_deposit(d, dep).closed(d, v.counter(d)).active(d) == v.active(d),
        v.with_new_deposit(d, dep).closed(d, v.counter(d)).depositors == v.depositors,
        v.with_new_deposit(d, dep).closed(d, v.counter(d)).counter(d) == v.counter(d) + 1,
        v.with_new_deposit(d, dep).closed(d, v.counter(d)).wf(),
{
    let id = v.counter(d);
    let o = v.with_new_deposit(d, dep);
    let w = o.closed(d, id);
    lemma_open_keeps_wf(v, d, dep);
    assert(o.has_deposit(d, id));
    lemma_close_keeps_wf(o, d, id);
    assert(!v.has_deposit(d, id));
    assert(w.deposits =~= v.deposits);
    assert(w.whitelists =~= v.whitelists);
    assert(!v.active(d).contains(id));
    lemma_without_push(v.active(d), id);
    lemma_without(v.active(d), id);
    assert(w.active(d) == without(v.active(d).push(id), id));
    if v.depositors.contains(d) {
        assert(v.active(d).len() > 0);
        assert(w.depositors == v.depositors);
    } else {
        assert(v.active(d).len() == 0);
        lemma_without_push(v.depositors, d);
        lemma_without(v.depositors, d);
        assert(w.depositors == without(v.depositors.push(d), d));
    }
}

/// Deposit ids are never reused: the next id of a depositor names no open
/// deposit of theirs.
pub proof fn law_fresh_deposit_id(v: VaultView, d: Address)
    requires
        v.wf(),
    ensures
        !v.has_deposit(d, v.counter(d)),
        !v.active(d).contains(v.counter(d)),
{
}

/// The depositor list holds exactly the depositors with an open deposit.
pub proof fn law_depositor_list(v: VaultView, d: Address)
    requires
        v.wf(),
    ensures
        v.depositors.contains(d) <==> exists|id: u32| v.has_deposit(d, id),
{
    if v.depositors.contains(d) {
        let id = v.active(d)[0];
        assert(v.active(d).contains(id));
        assert(v.has_deposit(d, id));
    }
    if exists|id: u32| v.has_deposit(d, id) {
        let id = choose|id: u32| v.has_deposit(d, id);
        assert(v.active(d).contains(id));
    }
}

/// The total amount paid out of the vault by `moves`.
pub open spec fn total_paid(moves: Seq<Transfer>) -> int
    decreases moves.len(),
{
    if moves.len() == 0 {
        0
    } else {
        total_paid(moves.drop_last()) + match moves.last() {
            Transfer::FromVault { amount, .. } => amount as int,
            Transfer::ToVault { .. } => 0,
        }
    }
}

/// An early exit conserves value: what is paid out (the refund to the
/// depositor and the fee recipient's cut) plus what joins the stakers'
/// rewards pool is exactly the amount cancelled.
pub proof fn law_cancel_conserves_value(token: Address, fee: Option<Address>, d: Address, amount: i128, bps: u32)
    requires
        amount >= 0,
        bps <= 10_000,
    ensures
        total_paid(cancel_split_moves(token, fee, d, amount, bps)) + (penalty_of(amount, bps) - fee_cut(
            penalty_of(amount, bps),
        )) == amount,
{
    lemma_penalty_split(amount, bps);
    let p = penalty_of(amount, bps);
    let a = if fee_cut(p) > 0 {
        seq![Transfer::FromVault { token, to: fee.unwrap(), amount: fee_cut(p) as i128 }]
    } else {
        Seq::<Transfer>::empty()
    };
    let b = if amount - p > 0 {
        seq![Transfer::FromVault { token, to: d, amount: (amount - p) as i128 }]
    } else {
        Seq::<Transfer>::empty()
    };
    let m = cancel_split_moves(token, fee, d, amount, bps);
    assert(m == a + b);
    assert(total_paid(Seq::<Transfer>::empty()) == 0);
    if fee_cut(p) > 0 {
        assert(a.drop_last() =~= Seq::<Transfer>::empty());
        assert(total_paid(a) == fee_cut(p));
    } else {
        assert(total_paid(a) == 0);
    }
    if amount - p > 0 {
        assert((a + b).drop_last() =~= a);
        assert((a + b).last() == Transfer::FromVault { token, to: d, amount: (amount - p) as i128 });
        assert(total_paid(a + b) == total_paid(a) + (amount - p));
    } else {
        assert(a + b =~= a);
    }
}

/// Emergency withdrawals of one ledger never add up past the per-ledger cap.
pub proof fn law_emergency_cap(v: VaultView, sequence: u32)
    requires
        v.wf(),
        v.emergency_totals.contains_key(sequence),
    ensures
        0 <= v.emergency_totals[sequence] <= MAX_EMERGENCY_WITHDRAWAL_PER_LEDGER,
{
}

/// An emergency withdrawal pays the depositor and nobody else.
pub proof fn law_emergency_pays_depositor(dep: DepositView, d: Address)
    ensures
        forall|i: int|
            0 <= i < emergency_moves(dep, d).len() ==> (#[trigger] emergency_moves(dep, d)[i] matches Transfer::FromVault {
                to,
                ..
            } && to == d),
{
}

/// A timestamp deposit that does not compound is paid back exactly what was
/// locked: one transfer of its amount of its token to the recipient.
pub proof fn law_withdraw_returns_principal(e: VaultEntry, now: u64, to: Address)
    requires
        e.compound_frequency_secs == 0,
    ensures
        release_moves(DepositView::Time(e), now, to) == seq![
            Transfer::FromVault { token: e.token, to, amount: e.amount },
        ],
{
    assert(accrued_amount(e.amount, 0, e.last_accrual_timestamp, now) == e.amount);
}

/// While the vault is paused every kind of new deposit, every subscription,
/// new or recurring, and every new farming deployment is refused with
/// `ContractPaused`.
pub proof fn law_pause_blocks_deposits(
    c: VaultConfig,
    now: u64,
    sequence: u32,
    amount: i128,
    unlock_time: u64,
    unlock_ledger: u32,
    penalty_bps: u32,
    tokens: Seq<TokenDeposit>,
    interval_secs: u64,
    total_count: u32,
    lock_secs: u64,
    sub: Option<RecurringDeposit>,
    v: VaultView,
    d: Address,
    id: u32,
    protocol: Address,
)
    requires
        c.paused,
        v.config.paused,
    ensures
        deposit_refusal(c, now, amount, unlock_time, penalty_bps) == Some(VaultError::ContractPaused),
        ledger_deposit_refusal(c, sequence, amount, unlock_ledger, penalty_bps) == Some(VaultError::ContractPaused),
        multi_deposit_refusal(c, now, tokens, unlock_time, penalty_bps) == Some(VaultError::ContractPaused),
        subscription_refusal(c, amount, interval_secs, total_count, lock_secs, penalty_bps) == Some(
            VaultError::ContractPaused,
        ),
        execute_refusal(c, sub, now) == Some(VaultError::ContractPaused),
        enable_refusal(v, d, id, protocol) == Some(VaultError::ContractPaused),
{
}

/// Renouncing is final: once the admin renounces, the vault is initialized
/// with neither an admin nor a pending admin, so no admin-only call, no
/// proposal, no acceptance and no second initialization can go through;
/// those are the only calls that set an admin or a pending admin.
pub proof fn law_renounced_admin_is_final(
    v: VaultView,
    admin: Address,
    caller: Address,
    proposed: Address,
    max_deposit: Option<i128>,
    max_lock_secs: Option<u64>,
)
    requires
        v.wf(),
        v.config.admin == Some(admin),
    ensures
        ({
            let c = VaultConfig { admin: None, pending_admin: None, ..v.config };
            &&& c.initialized
            &&& admin_refusal(c, caller) == Some(VaultError::Unauthorized)
            &&& transfer_refusal(c, caller, proposed) == Some(VaultError::Unauthorized)
            &&& accept_refusal(c, caller) == Some(VaultError::Unauthorized)
            &&& initialize_refusal(c, max_deposit, max_lock_secs) == Some(VaultError::AlreadyInitialized)
        }),
{
}

/// Initialization of a fresh vault: it is refused for a non-positive
/// maximum deposit or a zero maximum lock, and otherwise installs the admin
/// and fee recipient with each limit either overridden or at its default;
/// a vault that is not initialized has no admin, no pending admin and no
/// fee recipient.
pub proof fn law_initialize_fresh_vault(
    v: VaultView,
    admin: Address,
    fee_recipient: Address,
    max_deposit: Option<i128>,
    max_lock_secs: Option<u64>,
)
    requires
        v.wf(),
        !v.config.initialized,
    ensures
        v.config.admin.is_none(),
        v.config.pending_admin.is_none(),
        v.config.fee_recipient.is_none(),
        initialize_refusal(v.config, max_deposit, max_lock_secs) == if max_deposit matches Some(m) && m <= 0 {
            Some(VaultError::InvalidAmount)
        } else if max_lock_secs == Some(0u64) {
            Some(VaultError::LockDurationTooLong)
        } else {
            None
        },
        ({
            let c = initialized_config(v.config, admin, fee_recipient, max_deposit, max_lock_secs);
            &&& c.initialized
            &&& c.admin == Some(admin)
            &&& c.pending_admin.is_none()
            &&& c.fee_recipient == Some(fee_recipient)
            &&& !c.paused
            &&& c.max_deposit_limit() == match max_deposit {
                Some(m) => m,
                None => MAX_DEPOSIT_AMOUNT,
            }
            &&& c.max_lock_limit() == match max_lock_secs {
                Some(m) => m,
                None => MAX_LOCK_DURATION_SECS,
            }
        }),
{
}

/// The total stake is the sum of the stakes of the registered stakers.
pub proof fn law_total_staked_is_sum(v: VaultView)
    requires
        v.wf(),
    ensures
        v.total_staked == stake_sum(v.staker_list, v.stakers),
        forall|a: Address| #[trigger] v.staker_list.contains(a) <==> v.stakers.contains_key(a.id),
        v.staker_list.no_duplicates(),
{
}

/// Interest accrual never goes back in time: for a non-negative amount the
/// accrued balance at a later time is at least that at an earlier one.
pub proof fn law_accrual_monotone_in_time(amount: i128, freq: u64, last: u64, now1: u64, now2: u64)
    requires
        amount >= 0,
        now1 <= now2,
    ensures
        accrued_amount(amount, freq, last, now1) <= accrued_amount(amount, freq, last, now2),
{
    lemma_accrual_periods_monotone(freq, last, now1, now2);
    lemma_accrue_periods_monotone(
        amount,
        freq,
        accrual_periods(freq, last, now1),
        accrual_periods(freq, last, now2),
    );
}

/// Compounding a deposit into its balance does not change what it is
/// worth: after an update at `now` the balance read at `now` is the one
/// read before, the accrual time has moved forward by exactly the complete
/// periods that elapsed, and nothing further is due at `now` (when no more
/// than `MAX_ACCRUAL_PERIODS` periods had elapsed).
pub proof fn law_accrual_update_keeps_balance(e: VaultEntry, now: u64)
    requires
        accrual_changes(e, now),
        (now - e.last_accrual_timestamp) / (e.compound_frequency_secs as int) <= MAX_ACCRUAL_PERIODS,
    ensures
        ({
            let f = e.compound_frequency_secs;
            let u = accrued_entry(e, now);
            &&& u.amount == accrued_amount(e.amount, f, e.last_accrual_timestamp, now)
            &&& u.last_accrual_timestamp == e.last_accrual_timestamp + (now - e.last_accrual_timestamp) / (f as int)
                * f
            &&& u.last_accrual_timestamp <= now
            &&& accrued_amount(u.amount, f, u.last_accrual_timestamp, now) == u.amount
        }),
{
    let f = e.compound_frequency_secs as int;
    let last = e.last_accrual_timestamp as int;
    let gap = now - last;
    assert(now > last) by {
        if now <= last {
            assert(accrual_periods(e.compound_frequency_secs, e.last_accrual_timestamp, now) == 0);
        }
    }
    let p = gap / f;
    assert(0 <= p * f <= gap && gap - p * f < f) by (nonlinear_arith)
        requires
            gap > 0,
            f > 0,
            p == gap / f,
    ;
    let u = accrued_entry(e, now);
    assert(u.last_accrual_timestamp == last + p * f);
    assert((now - (last + p * f)) / f == 0) by (nonlinear_arith)
        requires
            0 <= now - (last + p * f) < f,
    ;
}

/// A renewal reads back: the renewed deposit is found under the
/// depositor's next id, locked for the renewal duration past the old unlock
/// time, holding exactly what a withdrawal would have paid at that time
/// (the balance `get_current_balance` reads, interest included) with its
/// accrual clock restarted at the renewal, and the renewal settings carried
/// over with one more renewal counted; the old deposit and its settings
/// are gone.
pub proof fn law_renewal_reads_back(v: VaultView, d: Address, id: u32, now: u64)
    requires
        v.wf(),
        renews(v, d, id),
        v.counter(d) < u32::MAX,
    ensures
        ({
            let w = renewed_state(v, d, id, now);
            let n = v.counter(d);
            let k = deposit_key(d, id);
            let cfg = v.auto_renewals[k];
            let e = v.time_entry(d, id).unwrap();
            &&& n != id
            &&& w.time_entry(d, n) == Some(renewed_entry(e, cfg, now))
            &&& w.time_entry(d, n).unwrap().amount == accrued_amount(
                e.amount,
                e.compound_frequency_secs,
                e.last_accrual_timestamp,
                now,
            )
            &&& w.time_entry(d, n).unwrap().unlock_time == (if e.unlock_time + cfg.renewal_duration_secs
                > u64::MAX {
                u64::MAX as int
            } else {
                e.unlock_time + cfg.renewal_duration_secs
            })
            &&& w.time_entry(d, n).unwrap().last_accrual_timestamp == now
            &&& w.time_entry(d, n).unwrap().token == e.token
            &&& w.time_entry(d, n).unwrap().depositor == e.depositor
            &&& w.time_entry(d, n).unwrap().penalty_bps == e.penalty_bps
            &&& w.time_entry(d, n).unwrap().compound_frequency_secs == e.compound_frequency_secs
            &&& !w.has_deposit(d, id)
            &&& !w.auto_renewals.contains_key(k)
            &&& w.auto_renewals[deposit_key(d, n)] == (AutoRenewalConfig {
                renewal_count: if cfg.renewal_count < u32::MAX {
                    (cfg.renewal_count + 1) as u32
                } else {
                    u32::MAX
                },
                ..cfg
            })
            &&& w.wf()
        }),
{
    let n = v.counter(d);
    lemma_deposit_key_injective(d, n, d, id);
    let e = v.time_entry(d, id).unwrap();
    let dep = DepositView::Time(renewed_entry(e, v.auto_renewals[deposit_key(d, id)], now));
    assert(deposit_valid(v.deposits[deposit_key(d, id)]));
    assert(deposit_valid(dep)) by {
        lemma_accrue_periods_grows(e.amount, e.compound_frequency_secs, accrual_periods(
            e.compound_frequency_secs,
            e.last_accrual_timestamp,
            now,
        ));
    }
    lemma_open_keeps_wf(v, d, dep);
    let o = v.with_new_deposit(d, dep);
    assert(o.has_deposit(d, id));
    lemma_close_keeps_wf(o, d, id);
    let w = renewed_state(v, d, id, now);
    lemma_wf_frame(o.closed(d, id), w);
}

/// Farming rewards claimed one after another add up in the depositor's
/// running total (short of saturation).
pub proof fn law_farming_claims_accumulate(v: VaultView, d: Address, x: i128, y: i128)
    requires
        x >= 0,
        y >= 0,
        v.farming_claimed(d) >= 0,
        v.farming_claimed(d) + x + y <= i128::MAX,
    ensures
        v.credit_farming(d, x).credit_farming(d, y).farming_claimed(d) == v.farming_claimed(d) + x + y,
{
}

/// An unfunded pool pays nothing: a pending claim on a token whose pool is
/// empty is refused with `InsufficientInsurancePool` (claims always request
/// a positive amount).
pub proof fn law_unfunded_pool_refuses_claims(v: VaultView, admin: Address, id: u32)
    requires
        v.wf(),
        settle_refusal(v.config, admin, v.claim(id)).is_none(),
        v.pool_balance(v.claim(id).unwrap().token) == 0,
    ensures
        approve_refusal(v, admin, id) == Some(VaultError::InsufficientInsurancePool),
{
}

/// Right after a claim nothing more is due at the same moment.
pub proof fn law_farming_claim_twice_same_time(s: FarmingState, total: i128, now: u64)
    ensures
        farming_rewards(FarmingState { total_rewards: total, last_claim_time: now, ..s }, now) == 0,
{
}

/// The two-step admin transfer: once the admin proposes `new_admin`, exactly
/// `new_admin` can accept, and after acceptance `new_admin` holds the admin
/// rights and the previous admin no longer does.
pub proof fn law_two_step_admin_transfer(c: VaultConfig, admin: Address, new_admin: Address, other: Address)
    requires
        transfer_refusal(c, admin, new_admin).is_none(),
    ensures
        accept_refusal(VaultConfig { pending_admin: Some(new_admin), ..c }, new_admin).is_none(),
        other != new_admin ==> accept_refusal(VaultConfig { pending_admin: Some(new_admin), ..c }, other)
            == Some(VaultError::Unauthorized),
        admin_refusal(VaultConfig { admin: Some(new_admin), pending_admin: None, ..c }, new_admin).is_none(),
        admin_refusal(VaultConfig { admin: Some(new_admin), pending_admin: None, ..c }, admin) == Some(
            VaultError::Unauthorized,
        ),
{
}

/// A staker whose stake is within the total stake never receives more than
/// the whole rewards pool.
pub proof fn law_reward_within_pool(v: VaultView, a: Address)
    requires
        claim_refusal(v, a).is_none(),
        stake_of(v, a) <= v.total_staked,
    ensures
        0 < reward_of(v, a) <= v.rewards_pool,
{
    let s = stake_of(v, a) as int;
    let p = v.rewards_pool as int;
    let t = v.total_staked as int;
    assert((s * p) / t <= p) by (nonlinear_arith)
        requires
            0 < s <= t,
            p > 0,
    ;
}

/// A subscription never runs more than `total_count` times: an execution
/// that goes through leaves the count at most `total_count`.
pub proof fn law_subscription_bounded(c: VaultConfig, sub: RecurringDeposit, now: u64)
    requires
        execute_refusal(c, Some(sub), now).is_none(),
    ensures
        ticked(sub, now).executed_count <= sub.total_count,
        ticked(sub, now).executed_count == sub.executed_count + 1,
{
}

/// Comparing two returns the other way round negates the difference (for
/// returns that fit a signed 32-bit value), so at most one of them
/// outperforms the other.
pub proof fn law_compare_antisymmetric(a: u32, b: u32)
    requires
        a <= i32::MAX,
        b <= i32::MAX,
    ensures
        bps_difference(a, b) == -bps_difference(b, a),
        !(bps_difference(a, b) > 0 && bps_difference(b, a) > 0),
{
    assert(#[verifier::truncate] (a as i32) == a) by (bit_vector)
        requires
            a <= 0x7FFF_FFFF,
    ;
    assert(#[verifier::truncate] (b as i32) == b) by (bit_vector)
        requires
            b <= 0x7FFF_FFFF,
    ;
}

/// Clamping lands in the range and leaves values already in it unchanged.
pub proof fn law_clamp_in_range(value: int, min: int, max: int)
    requires
        min <= max,
    ensures
        min <= clamped(value, min, max) <= max,
        min <= value <= max ==> clamped(value, min, max) == value,
{
}

/// Farming deploys a non-negative share of a deposit and never more than
/// the deposit itself.
pub proof fn law_deployable_within_deposit(amount: i128, bps: u32)
    requires
        amount > 0,
    ensures
        0 <= deployable(amount, bps) <= amount,
{
    let cap = clamp_u128(((amount as u128) as int) * (bps as int)) / 10_000;
    assert(cap <= u128::MAX / 10_000) by (nonlinear_arith)
        requires
            cap == clamp_u128(((amount as u128) as int) * (bps as int)) / 10_000,
    ;
}

/// Funds stay locked until their unlock point: before it a withdrawal (to
/// anyone) is refused with `FundsStillLocked`; from it on an early exit is
/// refused with `VaultAlreadyUnlocked`.
pub proof fn law_lock_holds(v: VaultView, ledger: LedgerInfo, d: Address, id: u32, to: Address)
    requires
        v.has_deposit(d, id),
    ensures
        v.deposit(d, id) matches DepositView::Time(e) ==> (ledger.timestamp < e.unlock_time <==> unlock_refusal(
            v,
            ledger,
            d,
            id,
        ) == Some(VaultError::FundsStillLocked)),
        v.deposit(d, id) matches DepositView::Ledger(e) ==> (ledger.sequence < e.unlock_ledger <==> unlock_refusal(
            v,
            ledger,
            d,
            id,
        ) == Some(VaultError::FundsStillLocked)),
        v.deposit(d, id) matches DepositView::Multi(e) ==> (ledger.timestamp < e.unlock_time <==> unlock_refusal(
            v,
            ledger,
            d,
            id,
        ) == Some(VaultError::FundsStillLocked)),
        unlock_refusal(v, ledger, d, id) == Some(VaultError::FundsStillLocked) ==> withdraw_to_refusal(
            v,
            ledger,
            d,
            id,
            to,
        ) == Some(VaultError::FundsStillLocked),
        unlock_refusal(v, ledger, d, id) != Some(VaultError::FundsStillLocked) ==> cancel_refusal(v, ledger, d, id)
            == Some(VaultError::VaultAlreadyUnlocked),
{
}

/// An accepted timestamp deposit respects the configured bounds: a positive
/// amount within the maximum deposit, a lock between the minimum and the
/// maximum duration, a penalty of at most 100%, and a fee recipient whenever
/// there is a penalty.
pub proof fn law_accepted_deposit_bounds(c: VaultConfig, now: u64, amount: i128, unlock_time: u64, penalty_bps: u32)
    requires
        deposit_refusal(c, now, amount, unlock_time, penalty_bps).is_none(),
    ensures
        !c.paused,
        0 < amount <= c.max_deposit_limit(),
        MIN_LOCK_DURATION_SECS <= unlock_time - now <= c.max_lock_limit(),
        penalty_bps <= 10_000,
        penalty_bps > 0 ==> c.fee_recipient.is_some(),
{
}

/// `x / d + y / d` falls short of `(x + y) / d` by at most one.
proof fn lemma_floor_sum(x: int, y: int, d: int)
    requires
        x >= 0,
        y >= 0,
        d > 0,
    ensures
        x / d + y / d <= (x + y) / d <= x / d + y / d + 1,
{
    lemma_fundamental_div_mod(x, d);
    lemma_fundamental_div_mod(y, d);
    let qx = x / d;
    let qy = y / d;
    let rx = x % d;
    let ry = y % d;
    assert(x + y == (qx + qy) * d + (rx + ry)) by (nonlinear_arith)
        requires
            x == d * qx + rx,
            y == d * qy + ry,
    ;
    if rx + ry < d {
        lemma_fundamental_div_mod_converse(x + y, d, qx + qy, rx + ry);
    } else {
        assert(x + y == (qx + qy + 1) * d + (rx + ry - d)) by (nonlinear_arith)
            requires
                x + y == (qx + qy) * d + (rx + ry),
        ;
        lemma_fundamental_div_mod_converse(x + y, d, qx + qy + 1, rx + ry - d);
    }
}

/// Farming pays by the second since the last claim: with farming on, a
/// claim at `now` after the last claim pays the deployed amount times the
/// expected annual yield (in basis points) times the seconds elapsed since
/// the last claim, over a year of seconds times 10_000 (short of the
/// product leaving `u128`).
pub proof fn law_farming_rewards_since_last_claim(s: FarmingState, now: u64)
    requires
        s.enabled,
        s.deployed_amount >= 0,
        s.last_claim_time < now,
        s.deployed_amount * FARMING_EXPECTED_ANNUAL_YIELD_BPS * (now - s.last_claim_time) <= u128::MAX,
    ensures
        farming_rewards(s, now) == s.deployed_amount * FARMING_EXPECTED_ANNUAL_YIELD_BPS * (now
            - s.last_claim_time) / (31_536_000int * 10_000),
{
    let a = s.deployed_amount * FARMING_EXPECTED_ANNUAL_YIELD_BPS;
    let e = now - s.last_claim_time;
    assert(a <= a * e) by (nonlinear_arith)
        requires
            a >= 0,
            e >= 1,
    ;
}

/// Two successive claims pay what one claim over the whole time would,
/// less at most one unit of rounding, and never more: a claim at `t1` and
/// then one at `t2` (whose state records the claim at `t1`) together pay
/// between one unit less than and exactly a single claim at `t2` from the
/// same start.
pub proof fn law_farming_claims_split_time(s: FarmingState, total: i128, t1: u64, t2: u64)
    requires
        s.enabled,
        s.deployed_amount >= 0,
        s.last_claim_time <= t1 <= t2,
        s.deployed_amount * FARMING_EXPECTED_ANNUAL_YIELD_BPS * (t2 - s.last_claim_time) <= u128::MAX,
    ensures
        ({
            let after = FarmingState { total_rewards: total, last_claim_time: t1, ..s };
            &&& farming_rewards(s, t1) + farming_rewards(after, t2) <= farming_rewards(s, t2)
            &&& farming_rewards(s, t2) <= farming_rewards(s, t1) + farming_rewards(after, t2) + 1
        }),
{
    let after = FarmingState { total_rewards: total, last_claim_time: t1, ..s };
    let a = s.deployed_amount * FARMING_EXPECTED_ANNUAL_YIELD_BPS;
    let d: int = 31_536_000int * 10_000;
    let e1 = t1 - s.last_claim_time;
    let e2 = t2 - t1;
    assert(a * e1 <= a * (e1 + e2) && a * e2 <= a * (e1 + e2) && a * e1 + a * e2 == a * (e1 + e2) && a * e1
        >= 0 && a * e2 >= 0) by (nonlinear_arith)
        requires
            a >= 0,
            e1 >= 0,
            e2 >= 0,
    ;
    if s.last_claim_time < t2 {
        law_farming_rewards_since_last_claim(s, t2);
    }
    if s.last_claim_time < t1 {
        law_farming_rewards_since_last_claim(s, t1);
    }
    if t1 < t2 {
        law_farming_rewards_since_last_claim(after, t2);
    }
    lemma_floor_sum(a * e1, a * e2, d);
    assert((a * 0) / d == 0) by (nonlinear_arith) requires d > 0;
}

/// An executed subscription opens a deposit locked for the subscription's
/// lock duration: executing `(d, sub_id)` at `now` opens, under `d`'s next
/// id, a timestamp deposit of the subscription's token, amount and penalty,
/// unlocking at `now + lock_duration_secs` (saturating), whatever the
/// interval; the next execution falls an interval later.
pub proof fn law_subscription_deposit_locked_for_lock_duration(v: VaultView, d: Address, sub_id: u32, now: u64)
    requires
        v.wf(),
        v.subscription(d, sub_id).is_some(),
        v.counter(d) < u32::MAX,
    ensures
        ({
            let sub = v.subscription(d, sub_id).unwrap();
            let w = v.with_new_deposit(d, DepositView::Time(tick_entry(sub, d, now))).with_subscription(
                d,
                sub_id,
                ticked(sub, now),
            );
            let e = w.time_entry(d, v.counter(d)).unwrap();
            &&& w.time_entry(d, v.counter(d)).is_some()
            &&& e.unlock_time == (if now + sub.lock_duration_secs > u64::MAX {
                u64::MAX as int
            } else {
                now + sub.lock_duration_secs
            })
            &&& e.token == sub.token
            &&& e.amount == sub.amount
            &&& e.penalty_bps == sub.penalty_bps
            &&& e.depositor == d
            &&& e.compound_frequency_secs == 0
            &&& e.last_accrual_timestamp == now
            &&& w.subscription(d, sub_id).unwrap().executed_count == sub.executed_count + 1
                || sub.executed_count == u32::MAX
            &&& w.subscription(d, sub_id).unwrap().total_count == sub.total_count
            &&& w.subscription(d, sub_id).unwrap().next_execution_time == (if now + sub.interval_secs > u64::MAX {
                u64::MAX as int
            } else {
                now + sub.interval_secs
            })
        }),
{
}

/// An early exit of a timestamp deposit splits its accrued balance: the
/// transfers paid out (refund and fee share) plus what joins the stakers'
/// pool make up exactly the balance `get_current_balance` reads at the
/// time of the cancel, interest included.
pub proof fn law_cancel_splits_accrued_balance(v: VaultView, ledger: LedgerInfo, d: Address, id: u32)
    requires
        v.wf(),
        v.time_entry(d, id).is_some(),
        cancel_refusal(v, ledger, d, id).is_none(),
        cancel_fits(v, ledger, d, id),
    ensures
        ({
            let e = v.time_entry(d, id).unwrap();
            total_paid(cancel_moves(v, ledger, d, id)) + (cancel_state(v, ledger, d, id).rewards_pool
                - v.rewards_pool) == accrued_amount(
                e.amount,
                e.compound_frequency_secs,
                e.last_accrual_timestamp,
                ledger.timestamp,
            )
        }),
{
    let e = v.time_entry(d, id).unwrap();
    assert(deposit_valid(v.deposits[deposit_key(d, id)]));
    let amount = accrued_amount(e.amount, e.compound_frequency_secs, e.last_accrual_timestamp, ledger.timestamp);
    lemma_accrue_periods_grows(
        e.amount,
        e.compound_frequency_secs,
        accrual_periods(e.compound_frequency_secs, e.last_accrual_timestamp, ledger.timestamp),
    );
    lemma_penalty_split(amount, e.penalty_bps);
    law_cancel_conserves_value(e.token, v.config.fee_recipient, d, amount, e.penalty_bps);
}

/// Each deposit a batch opens reads back as requested: after `d` deposits
/// `reqs` at `now`, the `j`-th request sits under `d`'s counter plus `j`
/// as a timestamp deposit with that request's token, amount, unlock time
/// and penalty, and `d`'s counter has moved on by the batch size.
pub proof fn law_batch_reads_back(v: VaultView, d: Address, reqs: Seq<DepositRequest>, now: u64)
    requires
        v.counter(d) + reqs.len() <= u32::MAX,
    ensures
        batch_applied(v, d, reqs, now).counter(d) == v.counter(d) + reqs.len(),
        batch_moves(d, reqs).len() == reqs.len(),
        forall|j: int|
            0 <= j < reqs.len() ==> #[trigger] batch_moves(d, reqs)[j] == (Transfer::ToVault {
                token: reqs[j].token,
                from: d,
                amount: reqs[j].amount,
            }),
        forall|j: int|
            0 <= j < reqs.len() ==> #[trigger] batch_applied(v, d, reqs, now).time_entry(
                d,
                (v.counter(d) + j) as u32,
            ) == Some(
                VaultEntry {
                    token: reqs[j].token,
                    amount: reqs[j].amount,
                    unlock_time: reqs[j].unlock_time,
                    depositor: d,
                    penalty_bps: reqs[j].penalty_bps,
                    compound_frequency_secs: 0,
                    last_accrual_timestamp: now,
                    withdrawal_delay_secs: 0,
                },
            ),
    decreases reqs.len(),
{
    if reqs.len() > 0 {
        let p = reqs.drop_last();
        law_batch_reads_back(v, d, p, now);
        let b = batch_applied(v, d, p, now);
        let c = v.counter(d);
        let n = (c + p.len()) as u32;
        assert(b.counter(d) == n);
        let w = batch_applied(v, d, reqs, now);
        assert forall|j: int| 0 <= j < reqs.len() implies #[trigger] w.time_entry(d, (c + j) as u32) == Some(
            VaultEntry {
                token: reqs[j].token,
                amount: reqs[j].amount,
                unlock_time: reqs[j].unlock_time,
                depositor: d,
                penalty_bps: reqs[j].penalty_bps,
                compound_frequency_secs: 0,
                last_accrual_timestamp: now,
                withdrawal_delay_secs: 0,
            },
        ) by {
            lemma_deposit_key_injective(d, (c + j) as u32, d, n);
            if j < p.len() {
                assert(p[j] == reqs[j]);
                assert(b.time_entry(d, (c + j) as u32) == w.time_entry(d, (c + j) as u32));
            }
        }
    }
}

/// The transfers of an early exit of a timestamp deposit: with the
/// penalty taken as `penalty_bps` of the accrued balance at the cancel
/// time, 30% of the penalty goes to the fee recipient and the balance less
/// the penalty back to the depositor (a zero part is not sent); the other
/// 70% of the penalty joins the stakers' rewards pool and the deposit
/// closes.
pub proof fn law_cancel_timestamp_transfers(v: VaultView, ledger: LedgerInfo, d: Address, id: u32)
    requires
        v.wf(),
        v.time_entry(d, id).is_some(),
        cancel_refusal(v, ledger, d, id).is_none(),
    ensures
        ({
            let e = v.time_entry(d, id).unwrap();
            let balance = accrued_amount(
                e.amount,
                e.compound_frequency_secs,
                e.last_accrual_timestamp,
                ledger.timestamp,
            );
            let penalty = balance * e.penalty_bps / 10_000;
            let fee = penalty * 3_000 / 10_000;
            let refund = balance - penalty;
            &&& cancel_moves(v, ledger, d, id) == (if fee > 0 {
                seq![Transfer::FromVault { token: e.token, to: v.config.fee_recipient.unwrap(), amount: fee as i128 }]
            } else {
                Seq::empty()
            }) + (if refund > 0 {
                seq![Transfer::FromVault { token: e.token, to: d, amount: refund as i128 }]
            } else {
                Seq::empty()
            })
            &&& cancel_state(v, ledger, d, id).rewards_pool == v.rewards_pool + (penalty - fee)
                || v.rewards_pool + (penalty - fee) > i128::MAX
            &&& !cancel_state(v, ledger, d, id).has_deposit(d, id)
        }),
{
    let k = deposit_key(d, id);
    let e = v.time_entry(d, id).unwrap();
    assert(v.deposit(d, id) == DepositView::Time(e));
    let balance = accrued_amount(e.amount, e.compound_frequency_secs, e.last_accrual_timestamp, ledger.timestamp);
    assert(single_cancel(v, ledger, d, id) == Some((e.token, balance, e.penalty_bps)));
    assert(cancel_moves(v, ledger, d, id) == cancel_split_moves(e.token, v.config.fee_recipient, d, balance, e.penalty_bps));
    let penalty = balance * e.penalty_bps / 10_000;
    let fee = penalty * 3_000 / 10_000;
    assert(penalty == penalty_of(balance, e.penalty_bps));
    assert(deposit_valid(v.deposits[k]));
    lemma_accrue_periods_grows(
        e.amount,
        e.compound_frequency_secs,
        accrual_periods(e.compound_frequency_secs, e.last_accrual_timestamp, ledger.timestamp),
    );
    lemma_penalty_split(balance, e.penalty_bps);
    assert(fee == fee_cut(penalty));
    assert(cancel_moves(v, ledger, d, id) == (if fee > 0 {
        seq![Transfer::FromVault { token: e.token, to: v.config.fee_recipient.unwrap(), amount: fee as i128 }]
    } else {
        Seq::empty()
    }) + (if balance - penalty > 0 {
        seq![Transfer::FromVault { token: e.token, to: d, amount: (balance - penalty) as i128 }]
    } else {
        Seq::empty()
    }));
    assert(cancel_state(v, ledger, d, id).rewards_pool == v.rewards_pool + (penalty - fee)
        || v.rewards_pool + (penalty - fee) > i128::MAX);
    lemma_close_keeps_wf(v, d, id);
    assert(!v.closed(d, id).deposits.contains_key(k));
}

/// A withdrawal that does not renew pays the accrued balance of a
/// timestamp deposit, interest included, in one transfer to the depositor;
/// one that renews pays nothing out.
pub proof fn law_withdraw_pays_accrued_balance(v: VaultView, d: Address, id: u32, now: u64)
    requires
        v.time_entry(d, id).is_some(),
    ensures
        ({
            let e = v.time_entry(d, id).unwrap();
            &&& !renews(v, d, id) ==> withdraw_moves(v, d, id, now) == seq![
                Transfer::FromVault {
                    token: e.token,
                    to: d,
                    amount: accrued_amount(e.amount, e.compound_frequency_secs, e.last_accrual_timestamp, now),
                },
            ]
            &&& renews(v, d, id) ==> withdraw_moves(v, d, id, now) == Seq::<Transfer>::empty()
        }),
{
}

} // verus!
