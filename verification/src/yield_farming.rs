//! Yield farming of timestamp deposits through admin-approved protocols:
//! a deposit deploys part of its amount and earns a fixed annual yield on it.
use vstd::prelude::*;
use crate::address::{Address, deposit_key, make_deposit_key};
use crate::admin::admin_refusal;
use crate::arith::{clamp_i128, clamp_u128, sat_add_i128, sat_mul_u128};
use crate::constants::{
    FARMING_EXPECTED_ANNUAL_YIELD_BPS, FARMING_RISK_LEVEL, MAX_FARMING_PROPORTION_BPS,
    MIN_FARMING_AMOUNT,
};
use crate::errors::VaultError;
use crate::lists::contains_address;
use crate::types::{FarmingConfig, FarmingState, FarmingStrategy, LedgerInfo};
use crate::vault::{Deposit, FarmingConfigView, SafeHaven, VaultView, lemma_wf_frame};

verus! {

broadcast use vstd::std_specs::hash::group_hash_axioms;

/// The divisor of the farming yield: seconds in a 365-day year times the
/// basis-point scale.
pub open spec fn farming_divisor() -> u128 {
    315_360_000_000
}

/// The amount a deposit of `amount` deploys when at most `bps` basis points
/// of it may be farmed: the capped share, never more than the deposit.
pub open spec fn deployable(amount: i128, bps: u32) -> i128 {
    let cap = (clamp_u128((amount as u128) * (bps as u128)) / 10_000) as i128;
    if cap < amount {
        cap
    } else {
        amount
    }
}

/// Rewards accrued by `s` since its last claim, at the expected annual yield
/// pro rata over the elapsed seconds; 0 when farming is off or no time passed.
pub open spec fn farming_rewards(s: FarmingState, now: u64) -> i128 {
    if !s.enabled || now <= s.last_claim_time {
        0
    } else {
        let elapsed = (now - s.last_claim_time) as u128;
        let scaled = clamp_u128(
            clamp_u128((s.deployed_amount as u128) * FARMING_EXPECTED_ANNUAL_YIELD_BPS) * elapsed,
        );
        (scaled / farming_divisor()) as i128
    }
}

/// The settings `initialize_farming_config` installs.
pub open spec fn default_farming_config() -> FarmingConfigView {
    FarmingConfigView {
        enabled: true,
        approved_protocols: Seq::empty(),
        min_farming_amount: MIN_FARMING_AMOUNT,
        max_farming_proportion_bps: MAX_FARMING_PROPORTION_BPS,
        risk_level: FARMING_RISK_LEVEL,
    }
}

impl VaultView {
    /// The farming state of deposit `(d, id)`, if farming was ever enabled on it.
    pub open spec fn farming_state(self, d: Address, id: u32) -> Option<FarmingState> {
        if self.farming_states.contains_key(deposit_key(d, id)) {
            Some(self.farming_states[deposit_key(d, id)])
        } else {
            None
        }
    }

    /// Farming rewards credited to `d` so far.
    pub open spec fn farming_claimed(self, d: Address) -> i128 {
        if self.farming_rewards_claimed.contains_key(d.id) {
            self.farming_rewards_claimed[d.id]
        } else {
            0
        }
    }

    /// The state with `amount` more farming rewards credited to `d`
    /// (saturating).
    pub open spec fn credit_farming(self, d: Address, amount: i128) -> VaultView {
        VaultView {
            farming_rewards_claimed: self.farming_rewards_claimed.insert(
                d.id,
                clamp_i128(self.farming_claimed(d) + amount),
            ),
            ..self
        }
    }

    /// The state with the farming state of `(d, id)` set to `s`.
    pub open spec fn with_farming_state(self, d: Address, id: u32, s: FarmingState) -> VaultView {
        VaultView { farming_states: self.farming_states.insert(deposit_key(d, id), s), ..self }
    }
}

/// Why `add_farming_protocol` is refused.
pub open spec fn add_protocol_refusal(v: VaultView, admin: Address, protocol: Address) -> Option<VaultError> {
    if admin_refusal(v.config, admin).is_some() {
        admin_refusal(v.config, admin)
    } else if v.farming_config.is_none() {
        Some(VaultError::InvalidParameter)
    } else if v.farming_config.unwrap().approved_protocols.contains(protocol) {
        Some(VaultError::ProtocolAlreadyApproved)
    } else {
        None
    }
}

/// Why `enable_yield_farming` is refused, checked in this order: no funds
/// are deployed while the vault is paused.
pub open spec fn enable_refusal(v: VaultView, d: Address, id: u32, protocol: Address) -> Option<VaultError> {
    if v.config.paused {
        Some(VaultError::ContractPaused)
    } else {
        enable_config_refusal(v, d, id, protocol)
    }
}

/// The checks of `enable_yield_farming` on the farming settings and the deposit.
pub open spec fn enable_config_refusal(v: VaultView, d: Address, id: u32, protocol: Address) -> Option<VaultError> {
    match v.farming_config {
        None => Some(VaultError::FarmingNotConfigured),
        Some(c) => if !c.enabled {
            Some(VaultError::FarmingDisabled)
        } else if !c.approved_protocols.contains(protocol) {
            Some(VaultError::UnapprovedFarmingProtocol)
        } else if v.time_entry(d, id).is_none() {
            Some(VaultError::DepositNotFound)
        } else if v.farming_state(d, id).is_some() && v.farming_state(d, id).unwrap().enabled {
            Some(VaultError::FarmingAlreadyEnabled)
        } else if v.time_entry(d, id).unwrap().amount < c.min_farming_amount {
            Some(VaultError::InsufficientFundsForFarming)
        } else {
            None
        },
    }
}

/// Farming is on for `(d, id)`.
pub open spec fn farming_on(v: VaultView, d: Address, id: u32) -> bool {
    v.farming_state(d, id).is_some() && v.farming_state(d, id).unwrap().enabled
}

/// Accrued farming rewards of `s` at `now`.
pub fn calculate_farming_rewards(farming_state: &FarmingState, now: u64) -> (r: i128)
    ensures
        r == farming_rewards(*farming_state, now),
        r >= 0,
{
    if !farming_state.enabled {
        return 0;
    }
    if now <= farming_state.last_claim_time {
        return 0;
    }
    let elapsed: u64 = now - farming_state.last_claim_time;
    let denominator: u128 = 31_536_000u128 * 10_000u128;
    let scaled = sat_mul_u128(
        sat_mul_u128(farming_state.deployed_amount as u128, FARMING_EXPECTED_ANNUAL_YIELD_BPS),
        elapsed as u128,
    );
    let rewards: u128 = scaled / denominator;
    assert(rewards <= u128::MAX / denominator) by (nonlinear_arith)
        requires
            rewards == scaled / denominator,
            scaled <= u128::MAX,
            denominator > 0,
    ;
    rewards as i128
}

/// Admin: installs the default farming settings (enabled, no approved
/// protocols yet), replacing any earlier ones.
pub fn initialize_farming_config(vault: &mut SafeHaven, admin: Address) -> (r: Result<(), VaultError>)
    requires
        old(vault)@.wf(),
    ensures
        final(vault)@.wf(),
        match r {
            Ok(()) => {
                &&& admin_refusal(old(vault)@.config, admin).is_none()
                &&& final(vault)@ == (VaultView { farming_config: Some(default_farming_config()), ..old(vault)@ })
            },
            Err(e) => admin_refusal(old(vault)@.config, admin) == Some(e) && final(vault)@ == old(vault)@,
        },
{
    vault.require_admin(admin)?;
    let ghost v = vault@;
    vault.farming_config = Some(
        FarmingConfig {
            enabled: true,
            approved_protocols: Vec::new(),
            min_farming_amount: MIN_FARMING_AMOUNT,
            max_farming_proportion_bps: MAX_FARMING_PROPORTION_BPS,
            risk_level: FARMING_RISK_LEVEL,
        },
    );
    proof {
        assert(vault@.farming_config.unwrap().approved_protocols =~= Seq::<Address>::empty());
        assert(vault@ =~= VaultView { farming_config: Some(default_farming_config()), ..v });
        lemma_wf_frame(v, vault@);
    }
    Ok(())
}

/// Admin: approves `protocol` for farming.
pub fn add_farming_protocol(vault: &mut SafeHaven, admin: Address, protocol_address: Address) -> (r: Result<
    (),
    VaultError,
>)
    requires
        old(vault)@.wf(),
    ensures
        final(vault)@.wf(),
        match r {
            Ok(()) => {
                let c = old(vault)@.farming_config.unwrap();
                &&& add_protocol_refusal(old(vault)@, admin, protocol_address).is_none()
                &&& final(vault)@ == (VaultView {
                    farming_config: Some(
                        FarmingConfigView { approved_protocols: c.approved_protocols.push(protocol_address), ..c },
                    ),
                    ..old(vault)@
                })
            },
            Err(e) => add_protocol_refusal(old(vault)@, admin, protocol_address) == Some(e) && final(vault)@
                == old(vault)@,
        },
{
    vault.require_admin(admin)?;
    let ghost v = vault@;
    let mut config = match vault.farming_config.take() {
        Some(c) => c,
        None => {
            return Err(VaultError::InvalidParameter);
        },
    };
    if contains_address(&config.approved_protocols, protocol_address) {
        vault.farming_config = Some(config);
        assert(vault@ =~= v);
        return Err(VaultError::ProtocolAlreadyApproved);
    }
    config.approved_protocols.push(protocol_address);
    vault.farming_config = Some(config);
    proof {
        lemma_wf_frame(v, vault@);
    }
    Ok(())
}

/// Turns farming on for the timestamp deposit `(depositor, deposit_id)`
/// through an approved protocol, deploying the capped share of its amount;
/// refused while the vault is paused.
pub fn enable_yield_farming(
    vault: &mut SafeHaven,
    ledger: LedgerInfo,
    depositor: Address,
    deposit_id: u32,
    strategy: FarmingStrategy,
    protocol_address: Address,
) -> (r: Result<(), VaultError>)
    requires
        old(vault)@.wf(),
    ensures
        final(vault)@.wf(),
        match r {
            Ok(()) => {
                let c = old(vault)@.farming_config.unwrap();
                let e = old(vault)@.time_entry(depositor, deposit_id).unwrap();
                &&& enable_refusal(old(vault)@, depositor, deposit_id, protocol_address).is_none()
                &&& final(vault)@ == old(vault)@.with_farming_state(
                    depositor,
                    deposit_id,
                    FarmingState {
                        enabled: true,
                        strategy: Some(strategy),
                        deployed_amount: deployable(e.amount, c.max_farming_proportion_bps),
                        total_rewards: 0,
                        enabled_at: ledger.timestamp,
                        last_claim_time: ledger.timestamp,
                        protocol_address: Some(protocol_address),
                    },
                )
            },
            Err(e) => enable_refusal(old(vault)@, depositor, deposit_id, protocol_address) == Some(e)
                && final(vault)@ == old(vault)@,
        },
{
    if vault.config.paused {
        return Err(VaultError::ContractPaused);
    }
    let (enabled, approved, min_amount, max_bps) = match &vault.farming_config {
        Some(c) => (
            c.enabled,
            contains_address(&c.approved_protocols, protocol_address),
            c.min_farming_amount,
            c.max_farming_proportion_bps,
        ),
        None => {
            return Err(VaultError::FarmingNotConfigured);
        },
    };
    if !enabled {
        return Err(VaultError::FarmingDisabled);
    }
    if !approved {
        return Err(VaultError::UnapprovedFarmingProtocol);
    }
    let k = make_deposit_key(depositor, deposit_id);
    let amount: i128 = match vault.deposits.get(&k) {
        Some(Deposit::Time(e)) => e.amount,
        _ => {
            return Err(VaultError::DepositNotFound);
        },
    };
    let already = match vault.farming_states.get(&k) {
        Some(s) => s.enabled,
        None => false,
    };
    if already {
        return Err(VaultError::FarmingAlreadyEnabled);
    }
    if amount < min_amount {
        return Err(VaultError::InsufficientFundsForFarming);
    }
    let cap: u128 = sat_mul_u128(amount as u128, max_bps as u128) / 10_000u128;
    assert(cap <= u128::MAX / 10_000) by (nonlinear_arith)
        requires
            cap == clamp_u128((amount as u128) * (max_bps as u128)) / 10_000,
    ;
    let cap_i: i128 = cap as i128;
    let deployed_amount = if cap_i < amount {
        cap_i
    } else {
        amount
    };
    let ghost v = vault@;
    let state = FarmingState {
        enabled: true,
        strategy: Some(strategy),
        deployed_amount,
        total_rewards: 0,
        enabled_at: ledger.timestamp,
        last_claim_time: ledger.timestamp,
        protocol_address: Some(protocol_address),
    };
    vault.farming_states.insert(k, state);
    proof {
        lemma_wf_frame(v, vault@);
    }
    Ok(())
}

/// Why `claim_farming_rewards` fails at `now`: farming is off, or there are
/// rewards but the deposit is no longer open.
pub open spec fn claim_farming_refusal(v: VaultView, d: Address, id: u32, now: u64) -> Option<VaultError> {
    if !farming_on(v, d, id) {
        Some(VaultError::FarmingNotEnabled)
    } else if farming_rewards(v.farming_state(d, id).unwrap(), now) > 0 && v.time_entry(d, id).is_none() {
        Some(VaultError::DepositNotFound)
    } else {
        None
    }
}

/// Claims the farming rewards accrued on `(depositor, deposit_id)` since
/// the last claim; returns them (0, with nothing changed, when none accrued).
pub fn claim_farming_rewards(vault: &mut SafeHaven, ledger: LedgerInfo, depositor: Address, deposit_id: u32) -> (r:
    Result<i128, VaultError>)
    requires
        old(vault)@.wf(),
    ensures
        final(vault)@.wf(),
        match r {
            Ok(x) => {
                let s = old(vault)@.farming_state(depositor, deposit_id).unwrap();
                &&& claim_farming_refusal(old(vault)@, depositor, deposit_id, ledger.timestamp).is_none()
                &&& x == farming_rewards(s, ledger.timestamp)
                &&& final(vault)@ == if x == 0 {
                    old(vault)@
                } else {
                    old(vault)@.with_farming_state(
                        depositor,
                        deposit_id,
                        FarmingState {
                            total_rewards: clamp_i128(s.total_rewards + x),
                            last_claim_time: ledger.timestamp,
                            ..s
                        },
                    ).credit_farming(depositor, x)
                }
            },
            Err(e) => claim_farming_refusal(old(vault)@, depositor, deposit_id, ledger.timestamp) == Some(e)
                && final(vault)@ == old(vault)@,
        },
{
    let k = make_deposit_key(depositor, deposit_id);
    let state: FarmingState = match vault.farming_states.get(&k) {
        Some(s) => *s,
        None => {
            return Err(VaultError::FarmingNotEnabled);
        },
    };
    if !state.enabled {
        return Err(VaultError::FarmingNotEnabled);
    }
    let now = ledger.timestamp;
    let accrued = calculate_farming_rewards(&state, now);
    if accrued <= 0 {
        return Ok(0);
    }
    let open = match vault.deposits.get(&k) {
        Some(Deposit::Time(_)) => true,
        _ => false,
    };
    if !open {
        return Err(VaultError::DepositNotFound);
    }
    let ghost v = vault@;
    let updated = FarmingState {
        total_rewards: sat_add_i128(state.total_rewards, accrued),
        last_claim_time: now,
        ..state
    };
    vault.farming_states.insert(k, updated);
    let claimed: i128 = match vault.farming_rewards_claimed.get(&depositor.id) {
        Some(c) => *c,
        None => 0,
    };
    vault.farming_rewards_claimed.insert(depositor.id, sat_add_i128(claimed, accrued));
    proof {
        lemma_wf_frame(v, vault@);
    }
    Ok(accrued)
}

/// Turns farming off for `(depositor, deposit_id)`; returns the deployed
/// amount and the rewards earned including those accrued since the last
/// claim, which are credited to the depositor.
pub fn disable_farming(vault: &mut SafeHaven, ledger: LedgerInfo, depositor: Address, deposit_id: u32) -> (r:
    Result<(i128, i128), VaultError>)
    requires
        old(vault)@.wf(),
    ensures
        final(vault)@.wf(),
        match r {
            Ok((deployed, total)) => {
                let s = old(vault)@.farming_state(depositor, deposit_id).unwrap();
                let acc = farming_rewards(s, ledger.timestamp);
                let off = old(vault)@.with_farming_state(depositor, deposit_id, FarmingState { enabled: false, ..s });
                &&& farming_on(old(vault)@, depositor, deposit_id)
                &&& deployed == s.deployed_amount
                &&& total == clamp_i128(s.total_rewards + acc)
                &&& final(vault)@ == if acc > 0 {
                    off.credit_farming(depositor, acc)
                } else {
                    off
                }
            },
            Err(e) => {
                &&& !farming_on(old(vault)@, depositor, deposit_id)
                &&& e == VaultError::FarmingNotEnabled
                &&& final(vault)@ == old(vault)@
            },
        },
{
    let k = make_deposit_key(depositor, deposit_id);
    let state: FarmingState = match vault.farming_states.get(&k) {
        Some(s) => *s,
        None => {
            return Err(VaultError::FarmingNotEnabled);
        },
    };
    if !state.enabled {
        return Err(VaultError::FarmingNotEnabled);
    }
    let ghost v = vault@;
    let final_rewards = calculate_farming_rewards(&state, ledger.timestamp);
    let deployed = state.deployed_amount;
    let total = sat_add_i128(state.total_rewards, final_rewards);
    vault.farming_states.insert(k, FarmingState { enabled: false, ..state });
    if final_rewards > 0 {
        let claimed: i128 = match vault.farming_rewards_claimed.get(&depositor.id) {
            Some(c) => *c,
            None => 0,
        };
        vault.farming_rewards_claimed.insert(depositor.id, sat_add_i128(claimed, final_rewards));
    }
    proof {
        lemma_wf_frame(v, vault@);
    }
    Ok((deployed, total))
}

/// Whether farming is on for `(depositor, deposit_id)`, its deployed amount
/// and its rewards including those accrued since the last claim.
pub fn get_farming_info(vault: &SafeHaven, ledger: LedgerInfo, depositor: Address, deposit_id: u32) -> (r: Result<
    (bool, i128, i128),
    VaultError,
>)
    ensures
        match r {
            Ok((enabled, deployed, total)) => {
                let s = vault@.farming_state(depositor, deposit_id).unwrap();
                &&& vault@.farming_state(depositor, deposit_id).is_some()
                &&& enabled == s.enabled
                &&& deployed == s.deployed_amount
                &&& total == clamp_i128(s.total_rewards + farming_rewards(s, ledger.timestamp))
            },
            Err(e) => vault@.farming_state(depositor, deposit_id).is_none() && e == VaultError::FarmingNotEnabled,
        },
{
    let state: FarmingState = match vault.farming_states.get(&make_deposit_key(depositor, deposit_id)) {
        Some(s) => *s,
        None => {
            return Err(VaultError::FarmingNotEnabled);
        },
    };
    let accrued = calculate_farming_rewards(&state, ledger.timestamp);
    Ok((state.enabled, state.deployed_amount, sat_add_i128(state.total_rewards, accrued)))
}

} // verus!
