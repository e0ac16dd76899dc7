use vstd::prelude::*;

verus! {

/// Every way an entry point of the vault can refuse a request.
#[derive(Clone, Copy, Debug, PartialEq, Eq, Structural)]
pub enum VaultError {
    InvalidAmount,
    UnlockTimeNotInFuture,
    NoDepositFound,
    FundsStillLocked,
    DepositAlreadyExists,
    LockDurationTooLong,
    Unauthorized,
    AmountTooLarge,
    InvalidPenaltyBps,
    InvalidAdmin,
    LockDurationTooShort,
    ContractPaused,
    VaultAlreadyUnlocked,
    MissingFeeRecipient,
    /// `initialize` was called on an already-initialized contract.
    AlreadyInitialized,
    /// Too many tokens in a multi-token deposit.
    TooManyTokens,
    /// A multi-token deposit must contain at least one token.
    EmptyTokenList,
    /// Recipient is not on the withdrawal whitelist.
    RecipientNotWhitelisted,
    /// Compound frequency must be at least 60 seconds if non-zero.
    InvalidCompoundFrequency,
    SponsorshipNotInitialized,
    NotEligibleForSponsorship,
    InsufficientSponsorshipFund,
    SponsorshipDailyLimitExceeded,
    SponsorshipCooldownActive,
    PotentialSybilAttack,
    InvalidSponsorshipConfig,
    /// Farming not configured at contract level.
    FarmingNotConfigured,
    /// Farming disabled globally or for the deposit.
    FarmingDisabled,
    /// Farming already enabled for this deposit.
    FarmingAlreadyEnabled,
    /// Farming not enabled for this deposit.
    FarmingNotEnabled,
    /// Protocol address not in the approved list.
    UnapprovedFarmingProtocol,
    /// Deposit below the minimum farming amount.
    InsufficientFundsForFarming,
    /// Protocol already in the approved list.
    ProtocolAlreadyApproved,
    InvalidParameter,
    DepositNotFound,
    /// A batch holds more than `MAX_BATCH_SIZE` requests.
    BatchTooLarge,
    /// The lock has expired but the withdrawal delay has not.
    WithdrawalDelayActive,
    /// A stake must be positive.
    InvalidStakeAmount,
    StakerNotFound,
    NoRewardsToClaim,
    /// No archived deposit at this key (or one already exists when archiving).
    NoArchivedDepositFound,
    /// Archived deposits can only be deleted once they are a year old.
    ArchivedDepositTooYoung,
    InvalidSubscriptionParams,
    NoSubscriptionFound,
    SubscriptionCancelled,
    SubscriptionCompleted,
    SubscriptionNotDue,
    NoClaimFound,
    ClaimAlreadyResolved,
    InsufficientInsurancePool,
    /// The emergency withdrawals of the current ledger would exceed the per-ledger cap.
    EmergencyWithdrawalLimitExceeded,
}

pub open spec fn error_code(e: VaultError) -> u32 {
    match e {
        VaultError::InvalidAmount => 1,
        VaultError::UnlockTimeNotInFuture => 2,
        VaultError::NoDepositFound => 3,
        VaultError::FundsStillLocked => 4,
        VaultError::DepositAlreadyExists => 5,
        VaultError::LockDurationTooLong => 6,
        VaultError::Unauthorized => 7,
        VaultError::AmountTooLarge => 8,
        VaultError::InvalidPenaltyBps => 9,
        VaultError::InvalidAdmin => 10,
        VaultError::LockDurationTooShort => 11,
        VaultError::ContractPaused => 12,
        VaultError::VaultAlreadyUnlocked => 13,
        VaultError::MissingFeeRecipient => 14,
        VaultError::AlreadyInitialized => 15,
        VaultError::TooManyTokens => 16,
        VaultError::EmptyTokenList => 17,
        VaultError::RecipientNotWhitelisted => 18,
        VaultError::InvalidCompoundFrequency => 19,
        VaultError::SponsorshipNotInitialized => 20,
        VaultError::NotEligibleForSponsorship => 21,
        VaultError::InsufficientSponsorshipFund => 22,
        VaultError::SponsorshipDailyLimitExceeded => 23,
        VaultError::SponsorshipCooldownActive => 24,
        VaultError::PotentialSybilAttack => 25,
        VaultError::InvalidSponsorshipConfig => 26,
        VaultError::FarmingNotConfigured => 27,
        VaultError::FarmingDisabled => 28,
        VaultError::FarmingAlreadyEnabled => 29,
        VaultError::FarmingNotEnabled => 30,
        VaultError::UnapprovedFarmingProtocol => 31,
        VaultError::InsufficientFundsForFarming => 32,
        VaultError::ProtocolAlreadyApproved => 33,
        VaultError::InvalidParameter => 34,
        VaultError::DepositNotFound => 35,
        VaultError::BatchTooLarge => 36,
        VaultError::WithdrawalDelayActive => 37,
        VaultError::InvalidStakeAmount => 38,
        VaultError::StakerNotFound => 39,
        VaultError::NoRewardsToClaim => 40,
        VaultError::NoArchivedDepositFound => 41,
        VaultError::ArchivedDepositTooYoung => 42,
        VaultError::InvalidSubscriptionParams => 43,
        VaultError::NoSubscriptionFound => 44,
        VaultError::SubscriptionCancelled => 45,
        VaultError::SubscriptionCompleted => 46,
        VaultError::SubscriptionNotDue => 47,
        VaultError::NoClaimFound => 48,
        VaultError::ClaimAlreadyResolved => 49,
        VaultError::InsufficientInsurancePool => 50,
        VaultError::EmergencyWithdrawalLimitExceeded => 51,
    }
}

impl VaultError {
    /// The numeric code under which the contract reports this error.
    pub fn code(&self) -> (c: u32)
        ensures
            c == error_code(*self),
    {
        match self {
            VaultError::InvalidAmount => 1,
            VaultError::UnlockTimeNotInFuture => 2,
            VaultError::NoDepositFound => 3,
            VaultError::FundsStillLocked => 4,
            VaultError::DepositAlreadyExists => 5,
            VaultError::LockDurationTooLong => 6,
            VaultError::Unauthorized => 7,
            VaultError::AmountTooLarge => 8,
            VaultError::InvalidPenaltyBps => 9,
            VaultError::InvalidAdmin => 10,
            VaultError::LockDurationTooShort => 11,
            VaultError::ContractPaused => 12,
            VaultError::VaultAlreadyUnlocked => 13,
            VaultError::MissingFeeRecipient => 14,
            VaultError::AlreadyInitialized => 15,
            VaultError::TooManyTokens => 16,
            VaultError::EmptyTokenList => 17,
            VaultError::RecipientNotWhitelisted => 18,
            VaultError::InvalidCompoundFrequency => 19,
            VaultError::SponsorshipNotInitialized => 20,
            VaultError::NotEligibleForSponsorship => 21,
            VaultError::InsufficientSponsorshipFund => 22,
            VaultError::SponsorshipDailyLimitExceeded => 23,
            VaultError::SponsorshipCooldownActive => 24,
            VaultError::PotentialSybilAttack => 25,
            VaultError::InvalidSponsorshipConfig => 26,
            VaultError::FarmingNotConfigured => 27,
            VaultError::FarmingDisabled => 28,
            VaultError::FarmingAlreadyEnabled => 29,
            VaultError::FarmingNotEnabled => 30,
            VaultError::UnapprovedFarmingProtocol => 31,
            VaultError::InsufficientFundsForFarming => 32,
            VaultError::ProtocolAlreadyApproved => 33,
            VaultError::InvalidParameter => 34,
            VaultError::DepositNotFound => 35,
            VaultError::BatchTooLarge => 36,
            VaultError::WithdrawalDelayActive => 37,
            VaultError::InvalidStakeAmount => 38,
            VaultError::StakerNotFound => 39,
            VaultError::NoRewardsToClaim => 40,
            VaultError::NoArchivedDepositFound => 41,
            VaultError::ArchivedDepositTooYoung => 42,
            VaultError::InvalidSubscriptionParams => 43,
            VaultError::NoSubscriptionFound => 44,
            VaultError::SubscriptionCancelled => 45,
            VaultError::SubscriptionCompleted => 46,
            VaultError::SubscriptionNotDue => 47,
            VaultError::NoClaimFound => 48,
            VaultError::ClaimAlreadyResolved => 49,
            VaultError::InsufficientInsurancePool => 50,
            VaultError::EmergencyWithdrawalLimitExceeded => 51,
        }
    }
}

} // verus!
