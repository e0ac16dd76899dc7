//! Performance analytics of deposits: returns in basis points, annualised
//! returns, comparison against benchmark rates, and portfolio summaries.
use vstd::prelude::*;
use crate::arith::{clamp_i128, clamp_i32, clamp_u128, sat_add_i128, sat_mul_u128, sat_sub_i128, sat_sub_i32};
use crate::constants::SECS_PER_YEAR;
use crate::interest::{accrued_amount, compute_accrued_amount};
use vstd::arithmetic::div_mod::{lemma_div_denominator, lemma_fundamental_div_mod, lemma_fundamental_div_mod_converse, lemma_hoist_over_denominator};
use vstd::arithmetic::power2::{lemma2_to64, lemma_pow2_pos, lemma_pow2_unfold, pow2};
use crate::types::{LedgerVaultEntry, MultiTokenVaultEntry, MultiTokenView, TokenDeposit, VaultEntry};

verus! {

/// Basis points in a whole.
pub const BASIS_POINTS: u32 = 10_000;

/// Estimated cost of a deposit plus a withdrawal, per token (in stroops).
pub const ROUND_TRIP_GAS_COST: i128 = 250_000;

/// A reference rate to compare a deposit's return against.
#[derive(Clone, Copy, Debug, PartialEq, Eq, Structural)]
pub enum BenchmarkIndex {
    /// The contract's own 5% a year.
    ContractDefault,
    /// 1% a year.
    StellarInflation,
    /// 2% a year.
    MoneyMarket,
    /// 10% a year.
    SAndP500,
    /// A custom annual rate in basis points.
    Custom(u32),
}

/// Performance figures of one deposit.
#[derive(Clone, Copy, Debug, PartialEq, Eq)]
pub struct DepositPerformance {
    pub principal: i128,
    pub current_value: i128,
    pub absolute_gain: i128,
    pub return_bps: u32,
    pub time_weighted_return_bps: u32,
    pub accrued_interest: i128,
    pub compound_interest: i128,
    pub total_fees_paid: i128,
    pub is_unlocked: bool,
    pub time_remaining_secs: u64,
    pub benchmark_return_bps: u32,
    pub outperformance_bps: i32,
    pub estimated_gas_cost: i128,
    pub return_on_gas: i128,
}

/// Performance figures aggregated over a depositor's deposits.
#[derive(Clone, Copy, Debug, PartialEq, Eq)]
pub struct DepositorPerformanceSummary {
    pub deposit_count: u32,
    pub total_principal: i128,
    pub total_current_value: i128,
    pub total_absolute_gain: i128,
    pub weighted_avg_return_bps: u32,
    pub avg_time_weighted_return_bps: u32,
    pub total_accrued_interest: i128,
    pub total_compound_interest: i128,
    pub total_fees_paid: i128,
    pub unlocked_deposit_count: u32,
    pub total_unlocked_value: i128,
    pub locked_deposit_count: u32,
    pub avg_benchmark_return_bps: u32,
    pub portfolio_outperformance_bps: i32,
    pub total_estimated_gas_cost: i128,
    pub avg_return_on_gas: i128,
}

/// Two returns side by side.
#[derive(Clone, Copy, Debug, PartialEq, Eq)]
pub struct PerformanceComparison {
    pub first_return_bps: u32,
    pub second_return_bps: u32,
    pub difference_bps: i32,
    pub first_outperforms: bool,
}

/// `value` limited to `[min, max]` (`min` wins when the range is empty).
pub open spec fn clamped(value: int, min: int, max: int) -> int {
    if value < min {
        min
    } else if value > max {
        max
    } else {
        value
    }
}

/// Division rounding toward zero, as Rust's `/` on signed integers does.
pub open spec fn trunc_div(x: int, d: int) -> int {
    if x >= 0 {
        x / d
    } else {
        -((-x) / d)
    }
}

/// `numerator * scale / denominator` (rounded toward zero), clamped into
/// `u32`: 0 for a ratio that is not positive and for a zero denominator,
/// `u32::MAX` for a ratio above it.
pub open spec fn scaled_ratio(numerator: i128, denominator: i128, scale: u32) -> u32 {
    if denominator == 0 {
        0
    } else {
        clamped(trunc_div(numerator * scale, denominator as int), 0, u32::MAX as int) as u32
    }
}

/// The absolute value of `x`.
pub open spec fn magnitude(x: int) -> int {
    if x < 0 {
        -x
    } else {
        x
    }
}

/// Annual rate of `index`, in basis points.
pub open spec fn benchmark_rate_bps(index: BenchmarkIndex) -> u32 {
    match index {
        BenchmarkIndex::ContractDefault => 500,
        BenchmarkIndex::StellarInflation => 100,
        BenchmarkIndex::MoneyMarket => 200,
        BenchmarkIndex::SAndP500 => 1000,
        BenchmarkIndex::Custom(bps) => bps,
    }
}

/// Return of `index` over `elapsed` seconds, pro rata, in basis points: the
/// elapsed fraction of a year is first taken in basis points (rounded down),
/// then applied to the rate; capped at `u32::MAX`.
pub open spec fn benchmark_return(index: BenchmarkIndex, elapsed: u64) -> u32 {
    if elapsed == 0 {
        0
    } else {
        let fraction = elapsed * 10_000 / 31_536_000;
        let r = benchmark_rate_bps(index) * fraction / 10_000;
        if r > u32::MAX {
            u32::MAX
        } else {
            r as u32
        }
    }
}

/// `a - b` of two returns, each read as a signed 32-bit value, saturating.
pub open spec fn bps_difference(a: u32, b: u32) -> i32 {
    clamp_i32((#[verifier::truncate] (a as i32)) - (#[verifier::truncate] (b as i32)))
}

/// `value` limited to the range `[min, max]`.
pub fn clamp(value: i128, min: i128, max: i128) -> (r: i128)
    ensures
        r == clamped(value as int, min as int, max as int),
{
    if value < min {
        min
    } else if value > max {
        max
    } else {
        value
    }
}

/// `r * s / b`, rounded down, for `r < b`, by long division over the bits
/// of `s`, so that no intermediate value leaves `u128`.
fn mul_div_below(r: u128, s: u32, b: u128) -> (f: u128)
    requires
        r < b,
        b <= 0x8000_0000_0000_0000_0000_0000_0000_0000,
    ensures
        f == (r * s) / (b as int),
        f <= s,
{
    let mut q: u128 = 0;
    let mut rem: u128 = 0;
    let mut div: u64 = 0x1_0000_0000;
    let mut p: u64 = 0;
    let ghost mut k: nat = 32;
    proof {
        lemma2_to64();
    }
    while div > 1
        invariant
            r < b,
            b <= 0x8000_0000_0000_0000_0000_0000_0000_0000,
            div == pow2(k),
            k <= 32,
            p == (s as int) / (div as int),
            q * b + rem == r * p,
            rem < b,
            q <= p,
        decreases div,
    {
        let ghost q0 = q;
        let ghost rem0 = rem;
        let ghost p0 = p;
        proof {
            if k == 0 {
                lemma2_to64();
            }
            assert(k > 0);
            lemma_pow2_unfold(k);
            lemma_pow2_pos((k - 1) as nat);
            lemma_div_denominator(s as int, pow2((k - 1) as nat) as int, 2);
        }
        let nd: u64 = div / 2;
        let np: u64 = (s as u64) / nd;
        assert(np / 2 == p);
        assert(np == 2 * p + np % 2);
        let bit: u64 = np - 2 * p;
        assert(q <= p) ;
        assert(p <= 0xFFFF_FFFF) by (nonlinear_arith)
            requires
                p == (s as int) / (div as int),
                div > 0,
                s <= 0xFFFF_FFFF,
        ;
        q = 2 * q;
        rem = 2 * rem;
        if rem >= b {
            rem = rem - b;
            q = q + 1;
        }
        if bit == 1 {
            rem = rem + r;
            if rem >= b {
                rem = rem - b;
                q = q + 1;
            }
        }
        p = np;
        div = nd;
        proof {
            k = (k - 1) as nat;
            lemma_long_division_step(q0 as int, rem0 as int, p0 as int, bit as int, r as int, b as int);
            lemma_long_division_step_lands(q0 as int, rem0 as int, bit as int, r as int, b as int, q as int, rem as int);
            assert(q * b <= r * p) by (nonlinear_arith)
                requires
                    q * b + rem == r * p,
                    rem >= 0,
            ;
            assert(q <= p) by (nonlinear_arith)
                requires
                    q * b <= r * p,
                    r < b,
                    p >= 0,
                    q >= 0,
            ;
        }
    }
    proof {
        assert(div == 1) by {
            lemma_pow2_pos(k);
        }
        assert((s as int) / 1 == s);
        assert(p == s);
        lemma_fundamental_div_mod_converse(r * s, b as int, q as int, rem as int);
    }
    q
}

/// One step of the long division: doubling the partial quotient and
/// remainder and bringing down the next bit of the multiplier keeps
/// `quotient * b + remainder == r * prefix`.
proof fn lemma_long_division_step(q0: int, rem0: int, p0: int, bit: int, r: int, b: int)
    requires
        q0 * b + rem0 == r * p0,
        bit == 0 || bit == 1,
    ensures
        (2 * q0) * b + 2 * rem0 + bit * r == r * (2 * p0 + bit),
{
    assert((2 * q0) * b == 2 * (q0 * b)) by (nonlinear_arith);
    assert(r * (2 * p0 + bit) == 2 * (r * p0) + bit * r) by (nonlinear_arith);
}

/// The quotient and remainder that the step lands on satisfy the same
/// equation as the doubled ones with the bit brought down.
proof fn lemma_long_division_step_lands(q0: int, rem0: int, bit: int, r: int, b: int, q: int, rem: int)
    requires
        bit == 0 || bit == 1,
        q * b + rem == (2 * q0) * b + 2 * rem0 + bit * r || q * b + rem == (2 * q0 + 1) * b + (2 * rem0 - b) + bit * r
            || q * b + rem == (2 * q0 + 2) * b + (2 * rem0 - 2 * b) + bit * r,
    ensures
        q * b + rem == (2 * q0) * b + 2 * rem0 + bit * r,
{
    assert((2 * q0 + 1) * b == (2 * q0) * b + b) by (nonlinear_arith);
    assert((2 * q0 + 2) * b == (2 * q0) * b + 2 * b) by (nonlinear_arith);
}

/// `numerator * scale / denominator`, clamped into `u32`: 0 when the
/// ratio is not positive or the denominator is 0, `u32::MAX` above it.
pub fn safe_div_with_scale(numerator: i128, denominator: i128, scale: u32) -> (r: u32)
    ensures
        r == scaled_ratio(numerator, denominator, scale),
        denominator == 0 ==> r == 0,
{
    if denominator == 0 {
        return 0;
    }
    if numerator == 0 || scale == 0 {
        proof {
            assert(numerator * scale == 0) by (nonlinear_arith)
                requires numerator == 0 || scale == 0;
        }
        return 0;
    }
    if (numerator < 0) != (denominator < 0) {
        proof {
            lemma_opposite_signs_not_positive(numerator as int, scale as int, denominator as int);
        }
        return 0;
    }
    let a: u128 = if numerator < 0 { (-(numerator + 1)) as u128 + 1 } else { numerator as u128 };
    let b: u128 = if denominator < 0 { (-(denominator + 1)) as u128 + 1 } else { denominator as u128 };
    let q: u128 = a / b;
    let rem: u128 = a % b;
    proof {
        lemma_same_signs_ratio(numerator as int, scale as int, denominator as int);
        lemma_fundamental_div_mod(a as int, b as int);
    }
    if q > 0xFFFF_FFFF {
        proof {
            assert(a * scale / (b as int) >= q) by (nonlinear_arith)
                requires
                    q == (a as int) / (b as int),
                    scale >= 1,
                    b > 0,
                    a >= 0,
            ;
        }
        return u32::MAX;
    }
    let f: u128 = mul_div_below(rem, scale, b);
    assert(q * scale <= 0xFFFF_FFFF * 0xFFFF_FFFF) by (nonlinear_arith)
        requires
            q <= 0xFFFF_FFFF,
            scale <= 0xFFFF_FFFF,
    ;
    let total: u128 = q * (scale as u128) + f;
    proof {
        assert(a * scale == (q * scale) * b + rem * scale) by (nonlinear_arith)
            requires
                a == b * q + rem,
        ;
        lemma_hoist_over_denominator(rem * scale, q * scale, b as nat);
        assert(total == a * scale / (b as int));
    }
    if total > 0xFFFF_FFFF {
        u32::MAX
    } else {
        total as u32
    }
}

/// A negative and a positive factor give a ratio that is not positive.
proof fn lemma_opposite_signs_not_positive(n: int, s: int, d: int)
    requires
        n != 0,
        d != 0,
        s > 0,
        (n < 0) != (d < 0),
    ensures
        trunc_div(n * s, d) <= 0,
{
    if n < 0 {
        assert(n * s < 0) by (nonlinear_arith)
            requires n < 0, s > 0;
        assert((-(n * s)) / d >= 0) by (nonlinear_arith)
            requires n * s < 0, d > 0;
    } else {
        assert(n * s > 0) by (nonlinear_arith)
            requires n > 0, s > 0;
        assert((n * s) / d <= 0) by (nonlinear_arith)
            requires n * s > 0, d < 0;
    }
}

/// With factors of one sign the ratio is that of their magnitudes.
proof fn lemma_same_signs_ratio(n: int, s: int, d: int)
    requires
        n != 0,
        d != 0,
        s > 0,
        (n < 0) == (d < 0),
    ensures
        trunc_div(n * s, d) == (magnitude(n) * s) / magnitude(d),
{
    if n < 0 {
        assert(-(n * s) == magnitude(n) * s) by (nonlinear_arith)
            requires n < 0;
        assert(n * s < 0) by (nonlinear_arith)
            requires n < 0, s > 0;
        assert(-((magnitude(n) * s) / d) == (magnitude(n) * s) / magnitude(d)) by (nonlinear_arith)
            requires d < 0, magnitude(d) == -d, magnitude(n) * s > 0;
    } else {
        assert(n * s > 0) by (nonlinear_arith)
            requires n > 0, s > 0;
    }
}

/// Pro-rata return of the benchmark `index` over `time_elapsed_secs`, in
/// basis points.
pub fn calculate_benchmark_return(index: &BenchmarkIndex, time_elapsed_secs: u64) -> (r: u32)
    ensures
        r == benchmark_return(*index, time_elapsed_secs),
{
    if time_elapsed_secs == 0 {
        return 0;
    }
    let benchmark_bps: u32 = match index {
        BenchmarkIndex::ContractDefault => 500,
        BenchmarkIndex::StellarInflation => 100,
        BenchmarkIndex::MoneyMarket => 200,
        BenchmarkIndex::SAndP500 => 1000,
        BenchmarkIndex::Custom(bps) => *bps,
    };
    let elapsed: u128 = time_elapsed_secs as u128;
    assert(elapsed * 10_000 <= 0xFFFF_FFFF_FFFF_FFFF * 10_000) by (nonlinear_arith)
        requires
            elapsed <= 0xFFFF_FFFF_FFFF_FFFF,
    ;
    let time_fraction: u128 = elapsed * 10_000 / SECS_PER_YEAR;
    assert(time_fraction <= 0xFFFF_FFFF_FFFF_FFFF) by (nonlinear_arith)
        requires
            time_fraction == elapsed * 10_000 / 31_536_000,
            elapsed <= 0xFFFF_FFFF_FFFF_FFFF,
    ;
    let bps: u128 = benchmark_bps as u128;
    assert(bps * time_fraction <= 0xFFFF_FFFF * 0xFFFF_FFFF_FFFF_FFFF) by (nonlinear_arith)
        requires
            bps <= 0xFFFF_FFFF,
            time_fraction <= 0xFFFF_FFFF_FFFF_FFFF,
    ;
    let return_bps: u128 = bps * time_fraction / 10_000;
    if return_bps > 0xFFFF_FFFF {
        u32::MAX
    } else {
        return_bps as u32
    }
}

/// Compares two returns: their difference (saturating, each read as a
/// signed 32-bit value) and whether the first is strictly ahead.
pub fn compare_performance(first_return_bps: u32, second_return_bps: u32) -> (r: PerformanceComparison)
    ensures
        r.first_return_bps == first_return_bps,
        r.second_return_bps == second_return_bps,
        r.difference_bps == bps_difference(first_return_bps, second_return_bps),
        r.first_outperforms == (r.difference_bps > 0),
{
    let difference_bps: i32 = sat_sub_i32(
        #[verifier::truncate] (first_return_bps as i32),
        #[verifier::truncate] (second_return_bps as i32),
    );
    PerformanceComparison {
        first_return_bps,
        second_return_bps,
        difference_bps,
        first_outperforms: difference_bps > 0,
    }
}

/// The accrued balance of `amount` as of `now` (see `compute_accrued_amount`).
pub fn calculate_accrued_amount(amount: i128, entry_freq: u64, last_accrual: u64, now: u64) -> (r: i128)
    ensures
        r == accrued_amount(amount, entry_freq, last_accrual, now),
{
    compute_accrued_amount(amount, entry_freq, last_accrual, now)
}


/// Seconds a deposit has been held at `now`: since its last accrual, or 0
/// when none was recorded.
pub open spec fn held_secs(last: u64, now: u64) -> u64 {
    if last > 0 && now >= last {
        (now - last) as u64
    } else {
        0
    }
}

/// `return_bps` annualised over `held` seconds, capped at `u32::MAX`; 0 when
/// nothing was held.
pub open spec fn annualized_bps(return_bps: u32, held: u64) -> u32 {
    if held == 0 {
        0
    } else {
        let a = return_bps * 31_536_000 / (held as int);
        if a > u32::MAX {
            u32::MAX
        } else {
            a as u32
        }
    }
}

/// Seconds until `unlock`, 0 once it has passed.
pub open spec fn remaining_secs(unlock: u64, now: u64) -> u64 {
    if now >= unlock {
        0
    } else {
        (unlock - now) as u64
    }
}

/// The figures of a deposit of `principal` now worth `value`, with
/// `compounding` telling whether it compounds, held for `held` seconds,
/// `gas` its estimated gas cost.
pub open spec fn performance_of(
    principal: i128,
    value: i128,
    compounding: bool,
    held: u64,
    unlocked: bool,
    remaining: u64,
    b: BenchmarkIndex,
    gas: i128,
) -> DepositPerformance {
    let gain = clamp_i128(value - principal);
    let ret = scaled_ratio(gain, principal, 10_000);
    let bench = benchmark_return(b, held);
    DepositPerformance {
        principal,
        current_value: value,
        absolute_gain: gain,
        return_bps: ret,
        time_weighted_return_bps: annualized_bps(ret, held),
        accrued_interest: gain,
        compound_interest: if compounding {
            gain
        } else {
            0
        },
        total_fees_paid: 0,
        is_unlocked: unlocked,
        time_remaining_secs: remaining,
        benchmark_return_bps: bench,
        outperformance_bps: bps_difference(ret, bench),
        estimated_gas_cost: gas,
        return_on_gas: if gas > 0 {
            trunc_div(gain as int, gas as int) as i128
        } else {
            0
        },
    }
}

/// Sum of the amounts of `tokens[..n]`, saturating at every step.
pub open spec fn principal_sum(tokens: Seq<TokenDeposit>, n: nat) -> i128
    decreases n,
{
    if n == 0 {
        0
    } else {
        clamp_i128(principal_sum(tokens, (n - 1) as nat) + tokens[n - 1].amount)
    }
}

/// Sum of the accrued values of `tokens[..n]`, saturating at every step.
pub open spec fn accrued_sum(tokens: Seq<TokenDeposit>, freq: u64, last: u64, now: u64, n: nat) -> i128
    decreases n,
{
    if n == 0 {
        0
    } else {
        clamp_i128(accrued_sum(tokens, freq, last, now, (n - 1) as nat) + accrued_amount(tokens[n - 1].amount, freq, last, now))
    }
}

/// The figures of a multi-token deposit at `now`: its tokens are added up,
/// and the gas estimate grows with their number.
pub open spec fn multi_performance(d: MultiTokenView, now: u64, b: BenchmarkIndex) -> DepositPerformance {
    let n = d.tokens.len();
    performance_of(
        principal_sum(d.tokens, n),
        accrued_sum(d.tokens, d.compound_frequency_secs, d.last_accrual_timestamp, now, n),
        d.compound_frequency_secs > 0,
        held_secs(d.last_accrual_timestamp, now),
        now >= d.unlock_time,
        remaining_secs(d.unlock_time, now),
        b,
        clamp_i128(ROUND_TRIP_GAS_COST * n),
    )
}

/// `x / d` rounding toward zero.
fn div_toward_zero(x: i128, d: i128) -> (r: i128)
    requires
        d > 0,
    ensures
        r == trunc_div(x as int, d as int),
{
    assert(x < 0 ==> (-x) / (d as int) <= -x) by (nonlinear_arith)
        requires
            d > 0,
    ;
    assert(x >= 0 ==> (x as int) / (d as int) <= x) by (nonlinear_arith)
        requires
            d > 0,
    ;
    match x.checked_div(d) {
        Some(q) => q,
        None => 0,
    }
}

/// `return_bps` annualised over `held` seconds.
fn annualize(return_bps: u32, held: u64) -> (r: u32)
    ensures
        r == annualized_bps(return_bps, held),
{
    if held == 0 {
        return 0;
    }
    let ret: u128 = return_bps as u128;
    assert(ret * 31_536_000 <= 0xFFFF_FFFF * 31_536_000) by (nonlinear_arith)
        requires
            ret <= 0xFFFF_FFFF,
    ;
    let a: u128 = ret * SECS_PER_YEAR / (held as u128);
    if a > 0xFFFF_FFFF {
        u32::MAX
    } else {
        a as u32
    }
}

/// Assembles the figures of a deposit (see `performance_of`).
fn assemble(
    principal: i128,
    value: i128,
    compounding: bool,
    held: u64,
    unlocked: bool,
    remaining: u64,
    benchmark: &BenchmarkIndex,
    gas: i128,
) -> (r: DepositPerformance)
    ensures
        r == performance_of(principal, value, compounding, held, unlocked, remaining, *benchmark, gas),
{
    let gain = sat_sub_i128(value, principal);
    let return_bps = safe_div_with_scale(gain, principal, BASIS_POINTS);
    let benchmark_return_bps = calculate_benchmark_return(benchmark, held);
    let outperformance_bps = sat_sub_i32(
        #[verifier::truncate] (return_bps as i32),
        #[verifier::truncate] (benchmark_return_bps as i32),
    );
    let return_on_gas = if gas > 0 {
        div_toward_zero(gain, gas)
    } else {
        0
    };
    DepositPerformance {
        principal,
        current_value: value,
        absolute_gain: gain,
        return_bps,
        time_weighted_return_bps: annualize(return_bps, held),
        accrued_interest: gain,
        compound_interest: if compounding {
            gain
        } else {
            0
        },
        total_fees_paid: 0,
        is_unlocked: unlocked,
        time_remaining_secs: remaining,
        benchmark_return_bps,
        outperformance_bps,
        estimated_gas_cost: gas,
        return_on_gas,
    }
}

fn held(last: u64, now: u64) -> (r: u64)
    ensures
        r == held_secs(last, now),
{
    if last > 0 && now >= last {
        now - last
    } else {
        0
    }
}

fn remaining(unlock: u64, now: u64) -> (r: u64)
    ensures
        r == remaining_secs(unlock, now),
{
    if now >= unlock {
        0
    } else {
        unlock - now
    }
}

/// Performance of a timestamp deposit at `current_time`: its compounded
/// value against its principal, annualised over the time since its last
/// accrual, and against `benchmark` over the same time.
pub fn calculate_deposit_performance(deposit: &VaultEntry, current_time: u64, benchmark: &BenchmarkIndex) -> (r:
    DepositPerformance)
    ensures
        r == performance_of(
            deposit.amount,
            accrued_amount(deposit.amount, deposit.compound_frequency_secs, deposit.last_accrual_timestamp, current_time),
            deposit.compound_frequency_secs > 0,
            held_secs(deposit.last_accrual_timestamp, current_time),
            current_time >= deposit.unlock_time,
            remaining_secs(deposit.unlock_time, current_time),
            *benchmark,
            ROUND_TRIP_GAS_COST,
        ),
{
    let value = compute_accrued_amount(
        deposit.amount,
        deposit.compound_frequency_secs,
        deposit.last_accrual_timestamp,
        current_time,
    );
    assemble(
        deposit.amount,
        value,
        deposit.compound_frequency_secs > 0,
        held(deposit.last_accrual_timestamp, current_time),
        current_time >= deposit.unlock_time,
        remaining(deposit.unlock_time, current_time),
        benchmark,
        ROUND_TRIP_GAS_COST,
    )
}

/// Performance of a multi-token deposit at `current_time`: amounts and
/// values are added up over its tokens.
pub fn calculate_multi_token_deposit_performance(
    deposit: &MultiTokenVaultEntry,
    current_time: u64,
    benchmark: &BenchmarkIndex,
) -> (r: DepositPerformance)
    ensures
        r == multi_performance(deposit@, current_time, *benchmark),
{
    let freq = deposit.compound_frequency_secs;
    let last = deposit.last_accrual_timestamp;
    let mut principal: i128 = 0;
    let mut value: i128 = 0;
    let mut i: usize = 0;
    while i < deposit.tokens.len()
        invariant
            i <= deposit.tokens.len(),
            freq == deposit.compound_frequency_secs,
            last == deposit.last_accrual_timestamp,
            principal == principal_sum(deposit.tokens@, i as nat),
            value == accrued_sum(deposit.tokens@, freq, last, current_time, i as nat),
        decreases deposit.tokens.len() - i,
    {
        let t = deposit.tokens[i];
        principal = sat_add_i128(principal, t.amount);
        let accrued = compute_accrued_amount(t.amount, freq, last, current_time);
        value = sat_add_i128(value, accrued);
        i = i + 1;
    }
    let n = deposit.tokens.len();
    let gas: i128 = if (n as u128) > 0x7FFF_FFFF_FFFF_FFFF_FFFF_FFFF_FFFF_FFFFu128 / 250_000 {
        i128::MAX
    } else {
        ROUND_TRIP_GAS_COST * (n as i128)
    };
    assemble(
        principal,
        value,
        freq > 0,
        held(last, current_time),
        current_time >= deposit.unlock_time,
        remaining(deposit.unlock_time, current_time),
        benchmark,
        gas,
    )
}

/// Performance of a ledger deposit at ledger `current_ledger`: it earns no
/// interest; the time left is estimated at five seconds a ledger, and the
/// benchmark is measured over that time.
pub fn calculate_ledger_deposit_performance(
    deposit: &LedgerVaultEntry,
    current_time: u64,
    current_ledger: u32,
    benchmark: &BenchmarkIndex,
) -> (r: DepositPerformance)
    ensures
        ({
            let left: u64 = if current_ledger >= deposit.unlock_ledger {
                0
            } else {
                ((deposit.unlock_ledger - current_ledger) * 5) as u64
            };
            let bench = benchmark_return(*benchmark, left);
            r == DepositPerformance {
                principal: deposit.amount,
                current_value: deposit.amount,
                absolute_gain: 0,
                return_bps: 0,
                time_weighted_return_bps: 0,
                accrued_interest: 0,
                compound_interest: 0,
                total_fees_paid: 0,
                is_unlocked: current_ledger >= deposit.unlock_ledger,
                time_remaining_secs: left,
                benchmark_return_bps: bench,
                outperformance_bps: bps_difference(0, bench),
                estimated_gas_cost: ROUND_TRIP_GAS_COST,
                return_on_gas: 0,
            }
        }),
{
    let unlocked = current_ledger >= deposit.unlock_ledger;
    let left: u64 = if unlocked {
        0
    } else {
        ((deposit.unlock_ledger - current_ledger) as u64) * 5
    };
    let benchmark_return_bps = calculate_benchmark_return(benchmark, left);
    DepositPerformance {
        principal: deposit.amount,
        current_value: deposit.amount,
        absolute_gain: 0,
        return_bps: 0,
        time_weighted_return_bps: 0,
        accrued_interest: 0,
        compound_interest: 0,
        total_fees_paid: 0,
        is_unlocked: unlocked,
        time_remaining_secs: left,
        benchmark_return_bps,
        outperformance_bps: sat_sub_i32(0, #[verifier::truncate] (benchmark_return_bps as i32)),
        estimated_gas_cost: ROUND_TRIP_GAS_COST,
        return_on_gas: 0,
    }
}

/// An `i128` figure of a deposit that a summary adds up.
pub enum Figure {
    Principal,
    CurrentValue,
    AbsoluteGain,
    CompoundInterest,
    FeesPaid,
    GasCost,
    ReturnOnGas,
    /// The current value of an unlocked deposit, 0 for a locked one.
    UnlockedValue,
}

/// The figure `f` of `p`.
pub open spec fn figure(p: DepositPerformance, f: Figure) -> i128 {
    match f {
        Figure::Principal => p.principal,
        Figure::CurrentValue => p.current_value,
        Figure::AbsoluteGain => p.absolute_gain,
        Figure::CompoundInterest => p.compound_interest,
        Figure::FeesPaid => p.total_fees_paid,
        Figure::GasCost => p.estimated_gas_cost,
        Figure::ReturnOnGas => p.return_on_gas,
        Figure::UnlockedValue => if p.is_unlocked {
            p.current_value
        } else {
            0
        },
    }
}

/// Sum of the figure `f` over `s[..n]`, saturating at every step.
pub open spec fn figure_total(s: Seq<DepositPerformance>, f: Figure, n: nat) -> i128
    decreases n,
{
    if n == 0 {
        0
    } else {
        clamp_i128(figure_total(s, f, (n - 1) as nat) + figure(s[n - 1], f))
    }
}

/// Sum of the annualised returns of `s[..n]`.
pub open spec fn time_weighted_total(s: Seq<DepositPerformance>, n: nat) -> nat
    decreases n,
{
    if n == 0 {
        0
    } else {
        time_weighted_total(s, (n - 1) as nat) + (s[n - 1].time_weighted_return_bps as nat)
    }
}

/// Sum of the benchmark returns of `s[..n]`.
pub open spec fn benchmark_total(s: Seq<DepositPerformance>, n: nat) -> nat
    decreases n,
{
    if n == 0 {
        0
    } else {
        benchmark_total(s, (n - 1) as nat) + (s[n - 1].benchmark_return_bps as nat)
    }
}

/// Number of unlocked deposits among `s[..n]`.
pub open spec fn unlocked_total(s: Seq<DepositPerformance>, n: nat) -> nat
    decreases n,
{
    if n == 0 {
        0
    } else {
        unlocked_total(s, (n - 1) as nat) + if s[n - 1].is_unlocked {
            1nat
        } else {
            0nat
        }
    }
}

/// The summary of the deposits `s`: totals (saturating), counts, the return
/// of the total gain on the total principal, plain averages of the
/// annualised and benchmark returns and of the return on gas (rounding
/// toward zero), and the portfolio's lead over the average benchmark read
/// as a signed 32-bit value.
pub open spec fn portfolio_summary(s: Seq<DepositPerformance>) -> DepositorPerformanceSummary {
    let n = s.len();
    let principal = figure_total(s, Figure::Principal, n);
    let gain = figure_total(s, Figure::AbsoluteGain, n);
    let gas = figure_total(s, Figure::GasCost, n);
    let weighted: u32 = if principal > 0 && n > 0 {
        scaled_ratio(gain, principal, 10_000)
    } else {
        0
    };
    let avg_benchmark: u32 = if n > 0 {
        (benchmark_total(s, n) / n) as u32
    } else {
        0
    };
    DepositorPerformanceSummary {
        deposit_count: n as u32,
        total_principal: principal,
        total_current_value: figure_total(s, Figure::CurrentValue, n),
        total_absolute_gain: gain,
        weighted_avg_return_bps: weighted,
        avg_time_weighted_return_bps: if n > 0 {
            (time_weighted_total(s, n) / n) as u32
        } else {
            0
        },
        total_accrued_interest: gain,
        total_compound_interest: figure_total(s, Figure::CompoundInterest, n),
        total_fees_paid: figure_total(s, Figure::FeesPaid, n),
        unlocked_deposit_count: unlocked_total(s, n) as u32,
        total_unlocked_value: figure_total(s, Figure::UnlockedValue, n),
        locked_deposit_count: (n - unlocked_total(s, n)) as u32,
        avg_benchmark_return_bps: avg_benchmark,
        portfolio_outperformance_bps: if n > 0 {
            #[verifier::truncate] ((weighted - avg_benchmark) as i32)
        } else {
            0
        },
        total_estimated_gas_cost: gas,
        avg_return_on_gas: if n > 0 && gas > 0 {
            trunc_div(figure_total(s, Figure::ReturnOnGas, n) as int, n as int) as i128
        } else {
            0
        },
    }
}

proof fn lemma_unlocked_total_bound(s: Seq<DepositPerformance>, n: nat)
    ensures
        unlocked_total(s, n) <= n,
    decreases n,
{
    if n > 0 {
        lemma_unlocked_total_bound(s, (n - 1) as nat);
    }
}

proof fn lemma_average_fits(total: nat, n: nat)
    requires
        n > 0,
        total <= n * 0xFFFF_FFFF,
    ensures
        total / n <= 0xFFFF_FFFF,
{
    assert(total / n <= 0xFFFF_FFFF) by (nonlinear_arith)
        requires
            n > 0,
            total <= n * 0xFFFF_FFFF,
    ;
}

/// Aggregates the performance of a depositor's deposits.
pub fn calculate_depositor_summary(performances: &Vec<DepositPerformance>) -> (r: DepositorPerformanceSummary)
    requires
        performances.len() <= u32::MAX,
    ensures
        r == portfolio_summary(performances@),
{
    let ghost s = performances@;
    let mut principal: i128 = 0;
    let mut value: i128 = 0;
    let mut gain: i128 = 0;
    let mut compound: i128 = 0;
    let mut fees: i128 = 0;
    let mut gas: i128 = 0;
    let mut return_on_gas: i128 = 0;
    let mut unlocked_value: i128 = 0;
    let mut unlocked: u32 = 0;
    let mut locked: u32 = 0;
    let mut benchmark_sum: u128 = 0;
    let mut time_weighted_sum: u128 = 0;
    let n = performances.len();
    let mut i: usize = 0;
    while i < n
        invariant
            s == performances@,
            n == s.len(),
            n <= u32::MAX,
            i <= n,
            principal == figure_total(s, Figure::Principal, i as nat),
            value == figure_total(s, Figure::CurrentValue, i as nat),
            gain == figure_total(s, Figure::AbsoluteGain, i as nat),
            compound == figure_total(s, Figure::CompoundInterest, i as nat),
            fees == figure_total(s, Figure::FeesPaid, i as nat),
            gas == figure_total(s, Figure::GasCost, i as nat),
            return_on_gas == figure_total(s, Figure::ReturnOnGas, i as nat),
            unlocked_value == figure_total(s, Figure::UnlockedValue, i as nat),
            unlocked == unlocked_total(s, i as nat),
            locked == i - unlocked_total(s, i as nat),
            unlocked_total(s, i as nat) <= i,
            benchmark_sum == benchmark_total(s, i as nat),
            benchmark_sum <= i * 0xFFFF_FFFF,
            time_weighted_sum == time_weighted_total(s, i as nat),
            time_weighted_sum <= i * 0xFFFF_FFFF,
        decreases n - i,
    {
        let p = performances[i];
        principal = sat_add_i128(principal, p.principal);
        value = sat_add_i128(value, p.current_value);
        gain = sat_add_i128(gain, p.absolute_gain);
        compound = sat_add_i128(compound, p.compound_interest);
        fees = sat_add_i128(fees, p.total_fees_paid);
        gas = sat_add_i128(gas, p.estimated_gas_cost);
        return_on_gas = sat_add_i128(return_on_gas, p.return_on_gas);
        if p.is_unlocked {
            unlocked = unlocked + 1;
            unlocked_value = sat_add_i128(unlocked_value, p.current_value);
        } else {
            locked = locked + 1;
            unlocked_value = sat_add_i128(unlocked_value, 0);
        }
        benchmark_sum = benchmark_sum + p.benchmark_return_bps as u128;
        time_weighted_sum = time_weighted_sum + p.time_weighted_return_bps as u128;
        i = i + 1;
    }
    proof {
        lemma_unlocked_total_bound(s, n as nat);
    }
    let weighted: u32 = if principal > 0 && n > 0 {
        safe_div_with_scale(gain, principal, BASIS_POINTS)
    } else {
        0
    };
    let (avg_time_weighted, avg_benchmark, outperformance): (u32, u32, i32) = if n > 0 {
        proof {
            lemma_average_fits(time_weighted_sum as nat, n as nat);
            lemma_average_fits(benchmark_sum as nat, n as nat);
        }
        let avg_b = (benchmark_sum / (n as u128)) as u32;
        (
            (time_weighted_sum / (n as u128)) as u32,
            avg_b,
            #[verifier::truncate] (((weighted as i128) - (avg_b as i128)) as i32),
        )
    } else {
        (0, 0, 0)
    };
    let avg_return_on_gas: i128 = if n > 0 && gas > 0 {
        div_toward_zero(return_on_gas, n as i128)
    } else {
        0
    };
    DepositorPerformanceSummary {
        deposit_count: n as u32,
        total_principal: principal,
        total_current_value: value,
        total_absolute_gain: gain,
        weighted_avg_return_bps: weighted,
        avg_time_weighted_return_bps: avg_time_weighted,
        total_accrued_interest: gain,
        total_compound_interest: compound,
        total_fees_paid: fees,
        unlocked_deposit_count: unlocked,
        total_unlocked_value: unlocked_value,
        locked_deposit_count: locked,
        avg_benchmark_return_bps: avg_benchmark,
        portfolio_outperformance_bps: outperformance,
        total_estimated_gas_cost: gas,
        avg_return_on_gas,
    }
}

} // verus!
