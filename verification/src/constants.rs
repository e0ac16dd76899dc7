use vstd::prelude::*;

verus! {

/// Maximum deposit amount (in token base units).
pub const MAX_DEPOSIT_AMOUNT: i128 = 1_000_000_000_000_000;

/// Maximum lock duration in seconds (~5 years).
pub const MAX_LOCK_DURATION_SECS: u64 = 157_788_000;

/// Minimum lock duration: prevents trivial vaults that only waste storage.
pub const MIN_LOCK_DURATION_SECS: u64 = 60;

/// Number of seconds per ledger; Soroban ledgers close about five seconds apart.
pub const LEDGER_SECONDS: u64 = 5;

/// Minimum number of ledgers of a ledger-based lock (`MIN_LOCK_DURATION_SECS / LEDGER_SECONDS`).
pub const MIN_LOCK_LEDGERS: u32 = 12;

/// Storage entries are re-extended once their time-to-live drops below this
/// many ledgers: half of `BUMP_TARGET`.
pub const BUMP_THRESHOLD: u32 = 15_778_800;

/// Ledgers of time-to-live that cover the maximum lock (`ceil(MAX_LOCK_DURATION_SECS / LEDGER_SECONDS)`).
pub const BUMP_TARGET: u32 = 31_557_600;

pub const UPGRADE_TIMELOCK_SECS: u64 = 1_209_600;
pub const MIN_UPGRADE_APPROVALS: u32 = 3;

/// Maximum entries handled by one batch call.
pub const MAX_BATCH_SIZE: u32 = 25;

/// Share of an early-exit penalty credited to the stakers' rewards pool (basis points).
pub const STAKER_PENALTY_BPS: u32 = 7_000;

/// Share of an early-exit penalty paid to the fee recipient (basis points).
pub const FEE_RECIPIENT_PENALTY_BPS: u32 = 3_000;

/// Reveal window after a commit, in seconds.
pub const MEV_REVEAL_WINDOW_SECS: u64 = 1_800;

/// Price deviation threshold in basis points for MEV detection.
pub const MEV_PRICE_DEVIATION_THRESHOLD_BPS: u32 = 200;

/// Baseline renewable energy percentage for deposits.
pub const RENEWABLE_ENERGY_BASELINE: u32 = 50;

/// Carbon baseline: grams CO2e per unit per second.
pub const CARBON_BASELINE_PER_UNIT_SECOND: i128 = 1;

/// Minimum deposit amount that may be farmed.
pub const MIN_FARMING_AMOUNT: i128 = 1_000_000;

/// Maximum proportion of a deposit that can be farmed (basis points).
pub const MAX_FARMING_PROPORTION_BPS: u32 = 9_000;

/// Risk level for farming strategies, 1-10 where 10 is most conservative.
pub const FARMING_RISK_LEVEL: u8 = 8;

/// Expected annual yield from farming (basis points).
pub const FARMING_EXPECTED_ANNUAL_YIELD_BPS: u128 = 300;

/// Maximum number of tokens in a single multi-token deposit.
pub const MAX_TOKENS_PER_DEPOSIT: u32 = 5;

/// Cumulative emergency withdrawals allowed within one ledger.
pub const MAX_EMERGENCY_WITHDRAWAL_PER_LEDGER: i128 = 100_000_000;

/// Current storage schema version written by `migrate`.
pub const STORAGE_VERSION: u32 = 1;

/// Fraction of a penalty reserved for the insurance pool (basis points).
pub const INSURANCE_POOL_BPS: u32 = 500;

/// Minimum compound frequency when compounding is enabled.
pub const MIN_COMPOUND_FREQUENCY_SECS: u64 = 60;

/// Annual interest rate of compounding deposits, in basis points (5%).
pub const ANNUAL_INTEREST_BPS: u128 = 500;

/// Seconds in a (non-leap) year.
pub const SECS_PER_YEAR: u128 = 31_536_000;

/// Archived deposits may be deleted once they are this old (one year).
pub const ARCHIVED_DEPOSIT_MIN_AGE_SECS: u64 = 31_536_000;

/// Upper bound on the compounding periods applied in one accrual (5 years of 60 s periods).
pub const MAX_ACCRUAL_PERIODS: u64 = 2_628_000;

} // verus!
