//! Records kept by the vault and the values its entry points exchange.
use vstd::prelude::*;
use crate::address::Address;

verus! {

/// The ledger's clock as seen by one invocation.
#[derive(Clone, Copy, Debug, PartialEq, Eq)]
pub struct LedgerInfo {
    /// Close time of the current ledger, in seconds.
    pub timestamp: u64,
    /// Sequence number of the current ledger.
    pub sequence: u32,
}

/// One request of a batch deposit.
#[derive(Clone, Copy, Debug, PartialEq, Eq)]
pub struct DepositRequest {
    pub token: Address,
    pub amount: i128,
    pub unlock_time: u64,
    pub penalty_bps: u32,
}

/// A timestamp-locked single-token deposit.
#[derive(Clone, Copy, Debug, PartialEq, Eq)]
pub struct VaultEntry {
    pub token: Address,
    pub amount: i128,
    pub unlock_time: u64,
    pub depositor: Address,
    pub penalty_bps: u32,
    /// Compound interest accrual frequency in seconds (0 = no compounding).
    pub compound_frequency_secs: u64,
    /// Timestamp of the last compound accrual.
    pub last_accrual_timestamp: u64,
    /// Extra wait after `unlock_time` before the deposit may be withdrawn.
    pub withdrawal_delay_secs: u64,
}

/// A ledger-sequence-locked single-token deposit.
#[derive(Clone, Copy, Debug, PartialEq, Eq)]
pub struct LedgerVaultEntry {
    pub token: Address,
    pub amount: i128,
    pub unlock_ledger: u32,
    pub depositor: Address,
    pub penalty_bps: u32,
}

/// A single token and amount of a multi-token deposit.
#[derive(Clone, Copy, Debug, PartialEq, Eq)]
pub struct TokenDeposit {
    pub token: Address,
    pub amount: i128,
}

/// A timestamp-locked deposit of several tokens.
#[derive(Debug, PartialEq, Eq)]
pub struct MultiTokenVaultEntry {
    /// At most `MAX_TOKENS_PER_DEPOSIT` (token, amount) pairs.
    pub tokens: Vec<TokenDeposit>,
    pub unlock_time: u64,
    pub depositor: Address,
    pub penalty_bps: u32,
    /// Compound interest accrual frequency in seconds (0 = no compounding).
    pub compound_frequency_secs: u64,
    /// Timestamp of the last compound accrual.
    pub last_accrual_timestamp: u64,
}

/// The content of a `MultiTokenVaultEntry`.
pub struct MultiTokenView {
    pub tokens: Seq<TokenDeposit>,
    pub unlock_time: u64,
    pub depositor: Address,
    pub penalty_bps: u32,
    pub compound_frequency_secs: u64,
    pub last_accrual_timestamp: u64,
}

impl View for MultiTokenVaultEntry {
    type V = MultiTokenView;

    open spec fn view(&self) -> MultiTokenView {
        MultiTokenView {
            tokens: self.tokens@,
            unlock_time: self.unlock_time,
            depositor: self.depositor,
            penalty_bps: self.penalty_bps,
            compound_frequency_secs: self.compound_frequency_secs,
            last_accrual_timestamp: self.last_accrual_timestamp,
        }
    }
}

/// A copy of a list of token deposits.
pub fn copy_tokens(tokens: &Vec<TokenDeposit>) -> (r: Vec<TokenDeposit>)
    ensures
        r@ == tokens@,
{
    let mut r: Vec<TokenDeposit> = Vec::new();
    let mut i: usize = 0;
    while i < tokens.len()
        invariant
            i <= tokens.len(),
            r@ == tokens@.subrange(0, i as int),
        decreases tokens.len() - i,
    {
        r.push(tokens[i]);
        i = i + 1;
        assert(r@ =~= tokens@.subrange(0, i as int));
    }
    assert(r@ =~= tokens@);
    r
}

/// A copy of a list of addresses.
pub fn copy_addresses(list: &Vec<Address>) -> (r: Vec<Address>)
    ensures
        r@ == list@,
{
    let mut r: Vec<Address> = Vec::new();
    let mut i: usize = 0;
    while i < list.len()
        invariant
            i <= list.len(),
            r@ == list@.subrange(0, i as int),
        decreases list.len() - i,
    {
        r.push(list[i]);
        i = i + 1;
        assert(r@ =~= list@.subrange(0, i as int));
    }
    assert(r@ =~= list@);
    r
}

/// A copy of a list of ids.
pub fn copy_ids(list: &Vec<u32>) -> (r: Vec<u32>)
    ensures
        r@ == list@,
{
    let mut r: Vec<u32> = Vec::new();
    let mut i: usize = 0;
    while i < list.len()
        invariant
            i <= list.len(),
            r@ == list@.subrange(0, i as int),
        decreases list.len() - i,
    {
        r.push(list[i]);
        i = i + 1;
        assert(r@ =~= list@.subrange(0, i as int));
    }
    assert(r@ =~= list@);
    r
}

impl MultiTokenVaultEntry {
    /// A copy of this entry.
    pub fn copy(&self) -> (r: MultiTokenVaultEntry)
        ensures
            r@ == self@,
    {
        MultiTokenVaultEntry {
            tokens: copy_tokens(&self.tokens),
            unlock_time: self.unlock_time,
            depositor: self.depositor,
            penalty_bps: self.penalty_bps,
            compound_frequency_secs: self.compound_frequency_secs,
            last_accrual_timestamp: self.last_accrual_timestamp,
        }
    }
}

/// Which kind of deposit sits at a `(depositor, deposit_id)` key.
#[derive(Clone, Copy, Debug, PartialEq, Eq, Structural)]
pub enum DepositType {
    /// Timestamp-based single-token deposit.
    TimeBased,
    /// Ledger-sequence-based deposit.
    LedgerBased,
    /// Multi-token timestamp-based deposit.
    MultiToken,
}

/// One page of depositor addresses.
#[derive(Debug, PartialEq, Eq)]
pub struct Page {
    /// The items in this page.
    pub items: Vec<Address>,
    /// Total number of active depositors across all pages.
    pub total_count: u32,
}

/// A staker and the amount staked.
#[derive(Clone, Copy, Debug, PartialEq, Eq)]
pub struct StakerEntry {
    pub staker: Address,
    pub stake_amount: i128,
}

/// A realised tax-loss harvest: one deposit swapped for another.
#[derive(Clone, Copy, Debug, PartialEq, Eq)]
pub struct TaxLossHarvest {
    pub depositor: Address,
    pub original_token: Address,
    pub replacement_token: Address,
    pub original_deposit_id: u32,
    pub replacement_deposit_id: u32,
    pub cost_basis: i128,
    pub current_value: i128,
    pub realized_loss: i128,
    pub tax_benefit: i128,
    pub harvested_at: u64,
    pub wash_sale_until: u64,
}

/// Sponsorship fund configuration and state.
#[derive(Clone, Copy, Debug, PartialEq, Eq)]
pub struct SponsorshipFund {
    /// Balance of native tokens available for sponsorship.
    pub balance: i128,
    /// Address that manages the sponsorship fund.
    pub sponsor_address: Address,
    /// Maximum tokens to sponsor per transaction.
    pub max_per_txn: i128,
    /// Maximum tokens to sponsor per user per day.
    pub max_per_user_day: i128,
    /// Minimum native balance required to be eligible for sponsorship.
    pub min_eligible_balance: i128,
    /// Cooldown period between sponsored transactions per user, in seconds.
    pub cooldown_seconds: u64,
    /// Timestamp of the last replenishment.
    pub last_replenished: u64,
}

/// Per-user sponsorship tracking for one day.
#[derive(Clone, Copy, Debug, PartialEq, Eq)]
pub struct SponsorshipUsage {
    /// Cumulative amount sponsored to this user today.
    pub amount_used_today: i128,
    /// Timestamp of the last sponsored transaction for this user.
    pub last_sponsored_time: u64,
    /// Counter of sponsored transactions for this user.
    pub transaction_count: u32,
}

/// Result of a sponsorship eligibility check.
#[derive(Debug, PartialEq, Eq)]
pub struct SponsorshipEligibility {
    /// Whether the user meets all criteria.
    pub is_eligible: bool,
    /// Reason if not eligible (empty if eligible).
    pub reason: String,
    /// Amount available for this user today.
    pub available_today: i128,
}

/// A recorded emergency lockdown.
#[derive(Debug, PartialEq, Eq)]
pub struct LockdownEntry {
    pub activated_at: u64,
    pub deactivated_at: Option<u64>,
    pub admin: Address,
    pub reason: String,
    pub duration_secs: Option<u64>,
}

/// Granular permissions of the access control list, one bit each.
#[derive(Clone, Copy, Debug, PartialEq, Eq, Structural)]
pub enum PermissionType {
    /// May query vault entries.
    ViewVault,
    /// May create deposits.
    Deposit,
    /// May withdraw own deposits.
    Withdraw,
    /// May cancel own deposits.
    CancelDeposit,
    /// May call admin-adjacent operations.
    Manage,
}

/// Bit position of a permission.
pub open spec fn permission_bit(p: PermissionType) -> u32 {
    match p {
        PermissionType::ViewVault => 0,
        PermissionType::Deposit => 1,
        PermissionType::Withdraw => 2,
        PermissionType::CancelDeposit => 3,
        PermissionType::Manage => 4,
    }
}

impl PermissionType {
    /// The bit mask of this permission: `1 << bit`.
    pub fn mask(self) -> (m: u32)
        ensures
            m == 1u32 << permission_bit(self),
    {
        let r: u32 = match self {
            PermissionType::ViewVault => 1,
            PermissionType::Deposit => 2,
            PermissionType::Withdraw => 4,
            PermissionType::CancelDeposit => 8,
            PermissionType::Manage => 16,
        };
        assert(1u32 << 0u32 == 1u32 && 1u32 << 1u32 == 2u32 && 1u32 << 2u32 == 4u32 && 1u32 << 3u32
            == 8u32 && 1u32 << 4u32 == 16u32) by (bit_vector);
        r
    }
}

/// Supported yield farming strategies.
#[derive(Clone, Copy, Debug, PartialEq, Eq, Structural)]
pub enum FarmingStrategy {
    /// Stable protocol with direct staking rewards.
    DirectStaking,
    /// Liquidity provision with automated portfolio management.
    LiquidityProvision,
    /// Conservative lending/borrowing yield strategy.
    LendingYield,
}

/// State of yield farming for one deposit.
#[derive(Clone, Copy, Debug, PartialEq, Eq)]
pub struct FarmingState {
    /// Whether yield farming is enabled for this deposit.
    pub enabled: bool,
    /// The strategy in use.
    pub strategy: Option<FarmingStrategy>,
    /// Amount of funds deployed to farming.
    pub deployed_amount: i128,
    /// Total rewards earned.
    pub total_rewards: i128,
    /// Timestamp when farming was enabled.
    pub enabled_at: u64,
    /// Last timestamp when rewards were claimed.
    pub last_claim_time: u64,
    /// The farming protocol receiving funds.
    pub protocol_address: Option<Address>,
}

/// Contract-wide configuration of yield farming.
#[derive(Debug, PartialEq, Eq)]
pub struct FarmingConfig {
    /// Whether yield farming is enabled globally.
    pub enabled: bool,
    /// Approved farming protocols.
    pub approved_protocols: Vec<Address>,
    /// Minimum deposit amount that may be farmed.
    pub min_farming_amount: i128,
    /// Maximum proportion of a deposit that can be farmed (basis points).
    pub max_farming_proportion_bps: u32,
    /// Risk level, 1-10 where 10 is most conservative.
    pub risk_level: u8,
}

/// Record of a farming reward claim.
#[derive(Clone, Copy, Debug, PartialEq, Eq)]
pub struct RewardClaimRecord {
    pub depositor: Address,
    pub deposit_id: u32,
    pub amount: i128,
    pub claimed_at: u64,
    pub strategy: FarmingStrategy,
}

/// A withdrawn or cancelled timestamp deposit kept for record-keeping.
#[derive(Clone, Copy, Debug, PartialEq, Eq)]
pub struct ArchivedVaultEntry {
    pub entry: VaultEntry,
    pub archive_timestamp: u64,
}

/// A withdrawn or cancelled ledger deposit kept for record-keeping.
#[derive(Clone, Copy, Debug, PartialEq, Eq)]
pub struct ArchivedLedgerVaultEntry {
    pub entry: LedgerVaultEntry,
    pub archive_timestamp: u64,
}

/// A recurring deposit subscription.
#[derive(Clone, Copy, Debug, PartialEq, Eq)]
pub struct RecurringDeposit {
    pub depositor: Address,
    pub token: Address,
    pub amount: i128,
    pub interval_secs: u64,
    pub total_count: u32,
    pub executed_count: u32,
    pub lock_duration_secs: u64,
    pub penalty_bps: u32,
    pub next_execution_time: u64,
    pub cancelled: bool,
}

/// Auto-renewal settings of a deposit.
#[derive(Clone, Copy, Debug, PartialEq, Eq)]
pub struct AutoRenewalConfig {
    pub enabled: bool,
    pub renewal_duration_secs: u64,
    pub renewal_count: u32,
}

/// Review state of an insurance claim.
#[derive(Clone, Copy, Debug, PartialEq, Eq, Structural)]
pub enum ClaimStatus {
    Pending,
    Approved,
    Denied,
}

/// A claim against the insurance pool of one token.
#[derive(Debug, PartialEq, Eq)]
pub struct InsuranceClaim {
    pub claim_id: u32,
    pub claimant: Address,
    pub token: Address,
    pub amount_requested: i128,
    pub incident_evidence: String,
    pub status: ClaimStatus,
}

impl InsuranceClaim {
    /// A copy of this claim.
    pub fn copy(&self) -> (r: InsuranceClaim)
        ensures
            r == *self,
    {
        InsuranceClaim {
            claim_id: self.claim_id,
            claimant: self.claimant,
            token: self.token,
            amount_requested: self.amount_requested,
            incident_evidence: self.incident_evidence.clone(),
            status: self.status,
        }
    }
}

/// A token movement decided by the vault; the host carries it out.
#[derive(Clone, Copy, Debug, PartialEq, Eq)]
pub enum Transfer {
    /// `amount` of `token` moves from `from` into the vault.
    ToVault { token: Address, from: Address, amount: i128 },
    /// `amount` of `token` moves out of the vault to `to`.
    FromVault { token: Address, to: Address, amount: i128 },
}

} // verus!
