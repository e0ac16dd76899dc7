//! Compound interest of time-locked deposits.
use vstd::prelude::*;
use crate::arith::{clamp_i128, clamp_u128, sat_add_i128, sat_mul_u128};
use crate::constants::{ANNUAL_INTEREST_BPS, MAX_ACCRUAL_PERIODS, SECS_PER_YEAR};

verus! {

/// Denominator of the per-period rate: `SECS_PER_YEAR * 10_000`.
pub open spec fn rate_denominator() -> int {
    SECS_PER_YEAR * 10_000
}

/// Interest earned by `balance` over one compounding period of `freq` seconds:
/// `balance * ANNUAL_INTEREST_BPS * freq / (SECS_PER_YEAR * 10_000)`, with the
/// products saturating at `u128::MAX` and the balance taken as its unsigned bits.
pub open spec fn period_interest(balance: i128, freq: u64) -> int {
    (clamp_u128(clamp_u128((#[verifier::truncate] (balance as u128)) * ANNUAL_INTEREST_BPS) * (freq as u128)) as int) / rate_denominator()
}

/// The balance after one compounding period (saturating at the bounds of `i128`).
pub open spec fn accrual_step(balance: i128, freq: u64) -> i128 {
    clamp_i128(balance + period_interest(balance, freq))
}

/// The balance after `n` compounding periods.
pub open spec fn accrue_periods(balance: i128, freq: u64, n: nat) -> i128
    decreases n,
{
    if n == 0 {
        balance
    } else {
        accrual_step(accrue_periods(balance, freq, (n - 1) as nat), freq)
    }
}

/// Number of complete periods of `freq` seconds between `last` and `now`,
/// capped at `MAX_ACCRUAL_PERIODS`.
pub open spec fn accrual_periods(freq: u64, last: u64, now: u64) -> nat {
    if freq == 0 || now <= last {
        0
    } else {
        let periods = ((now - last) / (freq as int)) as nat;
        if periods > MAX_ACCRUAL_PERIODS {
            MAX_ACCRUAL_PERIODS as nat
        } else {
            periods
        }
    }
}

/// The accrued balance of `amount` compounding every `freq` seconds since `last`, as of `now`.
pub open spec fn accrued_amount(amount: i128, freq: u64, last: u64, now: u64) -> i128 {
    accrue_periods(amount, freq, accrual_periods(freq, last, now))
}

proof fn lemma_period_interest_bounds(balance: i128, freq: u64)
    ensures
        0 <= period_interest(balance, freq) < i128::MAX,
        balance >= 0 ==> period_interest(balance, freq) >= 0,
{
    let p = clamp_u128(clamp_u128((#[verifier::truncate] (balance as u128)) * ANNUAL_INTEREST_BPS) * (freq as u128));
    assert(0 <= p <= u128::MAX);
    assert((p as int) / 315_360_000_000 < i128::MAX) by (nonlinear_arith)
        requires
            0 <= p <= u128::MAX,
    ;
}

/// One compounding period never lowers a non-negative balance.
pub proof fn lemma_accrual_step_grows(balance: i128, freq: u64)
    requires
        balance >= 0,
    ensures
        accrual_step(balance, freq) >= balance,
{
    lemma_period_interest_bounds(balance, freq);
}

/// Accrual never lowers a non-negative balance.
pub proof fn lemma_accrue_periods_grows(balance: i128, freq: u64, n: nat)
    requires
        balance >= 0,
    ensures
        accrue_periods(balance, freq, n) >= balance,
    decreases n,
{
    if n > 0 {
        lemma_accrue_periods_grows(balance, freq, (n - 1) as nat);
        lemma_accrual_step_grows(accrue_periods(balance, freq, (n - 1) as nat), freq);
    }
}

/// Balance from which one period earns at least one unit, whatever its
/// length: `SECS_PER_YEAR * 10_000 / ANNUAL_INTEREST_BPS`.
pub const MIN_EARNING_BALANCE: i128 = 630_720_000;

/// A balance of at least `MIN_EARNING_BALANCE` earns at least one unit in
/// a period of at least one second.
pub proof fn lemma_period_interest_at_least_one(balance: i128, freq: u64)
    requires
        balance >= MIN_EARNING_BALANCE,
        freq >= 1,
    ensures
        period_interest(balance, freq) >= 1,
{
    let b = (#[verifier::truncate] (balance as u128));
    assert(b == balance) by (bit_vector)
        requires
            balance >= 0,
            b == (#[verifier::truncate] (balance as u128)),
    ;
    let p1 = clamp_u128(b * ANNUAL_INTEREST_BPS);
    assert(p1 >= 315_360_000_000);
    let p2 = clamp_u128(p1 * (freq as u128));
    assert(p1 * (freq as u128) >= p1) by (nonlinear_arith)
        requires
            freq >= 1,
            p1 >= 0,
    ;
    assert(p2 >= 315_360_000_000);
    assert((p2 as int) / rate_denominator() >= 1) by (nonlinear_arith)
        requires
            p2 >= 315_360_000_000,
            rate_denominator() == 315_360_000_000,
    ;
}

/// After `n` periods a balance of at least `MIN_EARNING_BALANCE` has grown
/// by at least one unit a period (or reached `i128::MAX`).
pub proof fn lemma_accrue_periods_at_least_one_each(balance: i128, freq: u64, n: nat)
    requires
        balance >= MIN_EARNING_BALANCE,
        freq >= 1,
    ensures
        accrue_periods(balance, freq, n) >= balance,
        accrue_periods(balance, freq, n) >= (if balance + n > i128::MAX { i128::MAX as int } else { balance + n }),
    decreases n,
{
    if n > 0 {
        let m = (n - 1) as nat;
        lemma_accrue_periods_at_least_one_each(balance, freq, m);
        let prev = accrue_periods(balance, freq, m);
        lemma_period_interest_at_least_one(prev, freq);
        lemma_period_interest_bounds(prev, freq);
    }
}

/// Accrual over more periods never gives less, for a non-negative balance.
pub proof fn lemma_accrue_periods_monotone(balance: i128, freq: u64, n1: nat, n2: nat)
    requires
        balance >= 0,
        n1 <= n2,
    ensures
        accrue_periods(balance, freq, n1) <= accrue_periods(balance, freq, n2),
    decreases n2,
{
    if n1 < n2 {
        let m = (n2 - 1) as nat;
        lemma_accrue_periods_monotone(balance, freq, n1, m);
        lemma_accrue_periods_grows(balance, freq, m);
        lemma_accrual_step_grows(accrue_periods(balance, freq, m), freq);
    }
}

/// Later times count at least as many complete periods.
pub proof fn lemma_accrual_periods_monotone(freq: u64, last: u64, now1: u64, now2: u64)
    requires
        now1 <= now2,
    ensures
        accrual_periods(freq, last, now1) <= accrual_periods(freq, last, now2),
{
    if freq > 0 && now1 > last {
        assert((now1 - last) / (freq as int) <= (now2 - last) / (freq as int)) by (nonlinear_arith)
            requires
                0 <= now1 - last <= now2 - last,
                freq > 0,
        ;
    }
}

/// Compute the accrued balance of a deposit as of `now`: all complete periods
/// of `entry_freq` seconds since `last_accrual` (at most `MAX_ACCRUAL_PERIODS`)
/// are compounded at 5% a year, the product taken before the division so that
/// short periods still earn interest.
pub fn compute_accrued_amount(amount: i128, entry_freq: u64, last_accrual: u64, now: u64) -> (r: i128)
    ensures
        r == accrued_amount(amount, entry_freq, last_accrual, now),
        amount >= 0 ==> r >= amount,
        amount >= MIN_EARNING_BALANCE && entry_freq >= 1 ==> r >= (if amount + accrual_periods(
            entry_freq,
            last_accrual,
            now,
        ) > i128::MAX {
            i128::MAX as int
        } else {
            amount + accrual_periods(entry_freq, last_accrual, now)
        }),
{
    proof {
        if amount >= MIN_EARNING_BALANCE && entry_freq >= 1 {
            lemma_accrue_periods_at_least_one_each(amount, entry_freq, accrual_periods(entry_freq, last_accrual, now));
        }
        lemma_accrue_periods_grows_if_nonneg(amount, entry_freq, accrual_periods(entry_freq, last_accrual, now));
    }
    if entry_freq == 0 || now <= last_accrual {
        return amount;
    }
    let elapsed: u64 = now - last_accrual;
    let periods: u64 = elapsed / entry_freq;
    if periods == 0 {
        return amount;
    }
    let denominator: u128 = 315_360_000_000;
    let freq_u128: u128 = entry_freq as u128;
    let periods_capped: u64 = if periods < MAX_ACCRUAL_PERIODS {
        periods
    } else {
        MAX_ACCRUAL_PERIODS
    };
    assert(periods_capped == accrual_periods(entry_freq, last_accrual, now));
    let mut balance: i128 = amount;
    let mut i: u64 = 0;
    while i < periods_capped
        invariant
            i <= periods_capped,
            balance == accrue_periods(amount, entry_freq, i as nat),
            freq_u128 == entry_freq as u128,
            denominator == rate_denominator(),
        decreases periods_capped - i,
    {
        let product: u128 = sat_mul_u128(sat_mul_u128(balance as u128, ANNUAL_INTEREST_BPS), freq_u128);
        let interest: u128 = product / denominator;
        proof {
            lemma_period_interest_bounds(balance, entry_freq);
        }
        balance = sat_add_i128(balance, interest as i128);
        i = i + 1;
    }
    balance
}

proof fn lemma_accrue_periods_grows_if_nonneg(balance: i128, freq: u64, n: nat)
    ensures
        balance >= 0 ==> accrue_periods(balance, freq, n) >= balance,
{
    if balance >= 0 {
        lemma_accrue_periods_grows(balance, freq, n);
    }
}

} // verus!
