//! Per-deposit settings: interest accrual, withdrawal whitelists and auto-renewal.
use vstd::prelude::*;
use crate::address::{Address, deposit_key, make_deposit_key};
use crate::arith::clamp_u64;
use crate::constants::MIN_LOCK_DURATION_SECS;
use crate::errors::VaultError;
use crate::interest::{accrued_amount, compute_accrued_amount};
use crate::types::{AutoRenewalConfig, LedgerInfo, VaultEntry, copy_addresses};
use crate::vault::{Deposit, DepositView, SafeHaven, VaultView, deposit_valid, lemma_replace_keeps_wf, lemma_wf_frame};

verus! {

broadcast use vstd::std_specs::hash::group_hash_axioms;

/// A timestamp deposit after accrual at `now`: the accrued balance, and the
/// accrual time moved forward by the complete periods that elapsed.
pub open spec fn accrued_entry(e: VaultEntry, now: u64) -> VaultEntry {
    let periods = (now - e.last_accrual_timestamp) / (e.compound_frequency_secs as int);
    VaultEntry {
        amount: accrued_amount(e.amount, e.compound_frequency_secs, e.last_accrual_timestamp, now),
        last_accrual_timestamp: clamp_u64(
            e.last_accrual_timestamp + clamp_u64(periods * e.compound_frequency_secs),
        ),
        ..e
    }
}

/// Whether accrual at `now` changes the timestamp deposit `e`.
pub open spec fn accrual_changes(e: VaultEntry, now: u64) -> bool {
    e.compound_frequency_secs != 0 && accrued_amount(
        e.amount,
        e.compound_frequency_secs,
        e.last_accrual_timestamp,
        now,
    ) != e.amount
}

/// Why `enable_auto_renewal` is refused; `None` when it goes through.
pub open spec fn renewal_refusal(v: VaultView, d: Address, id: u32, duration: u64) -> Option<VaultError> {
    if duration < MIN_LOCK_DURATION_SECS {
        Some(VaultError::LockDurationTooShort)
    } else if duration > v.config.max_lock_limit() {
        Some(VaultError::LockDurationTooLong)
    } else if !v.has_deposit(d, id) {
        Some(VaultError::NoDepositFound)
    } else {
        None
    }
}

impl SafeHaven {
    /// Compounds all complete periods elapsed since the last accrual of the
    /// timestamp deposit `(depositor, deposit_id)` into its balance. Returns
    /// whether anything changed. Anyone may call this.
    pub fn update_accrual(&mut self, ledger: LedgerInfo, depositor: Address, deposit_id: u32) -> (r: Result<
        bool,
        VaultError,
    >)
        requires
            old(self)@.wf(),
        ensures
            final(self)@.wf(),
            match r {
                Ok(changed) => {
                    let e = old(self)@.time_entry(depositor, deposit_id).unwrap();
                    &&& old(self)@.time_entry(depositor, deposit_id).is_some()
                    &&& changed == accrual_changes(e, ledger.timestamp)
                    &&& final(self)@ == if changed {
                        VaultView {
                            deposits: old(self)@.deposits.insert(
                                deposit_key(depositor, deposit_id),
                                DepositView::Time(accrued_entry(e, ledger.timestamp)),
                            ),
                            ..old(self)@
                        }
                    } else {
                        old(self)@
                    }
                },
                Err(e) => {
                    &&& old(self)@.time_entry(depositor, deposit_id).is_none()
                    &&& e == VaultError::NoDepositFound
                    &&& final(self)@ == old(self)@
                },
            },
    {
        let ghost v = self@;
        let k = make_deposit_key(depositor, deposit_id);
        let e = match self.get_vault(depositor, deposit_id) {
            Some(e) => e,
            None => {
                return Err(VaultError::NoDepositFound);
            },
        };
        if e.compound_frequency_secs == 0 {
            return Ok(false);
        }
        let now = ledger.timestamp;
        let new_amount = compute_accrued_amount(
            e.amount,
            e.compound_frequency_secs,
            e.last_accrual_timestamp,
            now,
        );
        if new_amount == e.amount {
            return Ok(false);
        }
        let elapsed = now.saturating_sub(e.last_accrual_timestamp);
        let periods = elapsed / e.compound_frequency_secs;
        let updated = VaultEntry {
            amount: new_amount,
            last_accrual_timestamp: e.last_accrual_timestamp.saturating_add(
                crate::arith::sat_mul_u64(periods, e.compound_frequency_secs),
            ),
            ..e
        };
        proof {
            assert(deposit_valid(v.deposits[k]));
            lemma_replace_keeps_wf(v, k, DepositView::Time(updated));
        }
        self.deposits.insert(k, Deposit::Time(updated));
        assert(self@.deposits =~= v.deposits.insert(k, DepositView::Time(updated)));
        assert(updated == accrued_entry(e, now));
        Ok(true)
    }

    /// Sets (or replaces) the withdrawal whitelist of an open deposit of
    /// `depositor`; an empty list lets anyone receive.
    pub fn set_withdrawal_whitelist(&mut self, depositor: Address, deposit_id: u32, addresses: Vec<Address>) -> (r:
        Result<(), VaultError>)
        requires
            old(self)@.wf(),
        ensures
            final(self)@.wf(),
            match r {
                Ok(()) => {
                    &&& old(self)@.has_deposit(depositor, deposit_id)
                    &&& final(self)@ == (VaultView {
                        whitelists: old(self)@.whitelists.insert(deposit_key(depositor, deposit_id), addresses@),
                        ..old(self)@
                    })
                },
                Err(e) => {
                    &&& !old(self)@.has_deposit(depositor, deposit_id)
                    &&& e == VaultError::NoDepositFound
                    &&& final(self)@ == old(self)@
                },
            },
    {
        let k = make_deposit_key(depositor, deposit_id);
        if !self.deposits.contains_key(&k) {
            return Err(VaultError::NoDepositFound);
        }
        let ghost before = self@;
        self.whitelists.insert(k, addresses);
        proof {
            lemma_wf_frame(before, self@);
        }
        assert(self@.whitelists =~= before.whitelists.insert(k, addresses@));
        Ok(())
    }

    /// The withdrawal whitelist of `(depositor, deposit_id)`, if one is set.
    pub fn get_withdrawal_whitelist(&self, depositor: Address, deposit_id: u32) -> (r: Option<Vec<Address>>)
        ensures
            match r {
                Some(wl) => {
                    &&& self@.whitelists.contains_key(deposit_key(depositor, deposit_id))
                    &&& wl@ == self@.whitelists[deposit_key(depositor, deposit_id)]
                },
                None => !self@.whitelists.contains_key(deposit_key(depositor, deposit_id)),
            },
    {
        let k = make_deposit_key(depositor, deposit_id);
        match self.whitelists.get(&k) {
            Some(wl) => Some(copy_addresses(wl)),
            None => None,
        }
    }

    /// Turns on auto-renewal of an open deposit: when it is withdrawn after
    /// unlocking, it is locked again for `renewal_duration_secs` instead.
    pub fn enable_auto_renewal(&mut self, depositor: Address, deposit_id: u32, renewal_duration_secs: u64) -> (r:
        Result<(), VaultError>)
        requires
            old(self)@.wf(),
        ensures
            final(self)@.wf(),
            match r {
                Ok(()) => {
                    &&& renewal_refusal(old(self)@, depositor, deposit_id, renewal_duration_secs).is_none()
                    &&& final(self)@ == (VaultView {
                        auto_renewals: old(self)@.auto_renewals.insert(
                            deposit_key(depositor, deposit_id),
                            AutoRenewalConfig { enabled: true, renewal_duration_secs, renewal_count: 0 },
                        ),
                        ..old(self)@
                    })
                },
                Err(e) => {
                    &&& renewal_refusal(old(self)@, depositor, deposit_id, renewal_duration_secs) == Some(e)
                    &&& final(self)@ == old(self)@
                },
            },
    {
        if renewal_duration_secs < MIN_LOCK_DURATION_SECS {
            return Err(VaultError::LockDurationTooShort);
        }
        if renewal_duration_secs > self.max_lock_limit() {
            return Err(VaultError::LockDurationTooLong);
        }
        let k = make_deposit_key(depositor, deposit_id);
        if !self.deposits.contains_key(&k) {
            return Err(VaultError::NoDepositFound);
        }
        let ghost before = self@;
        self.auto_renewals.insert(k, AutoRenewalConfig { enabled: true, renewal_duration_secs, renewal_count: 0 });
        proof {
            lemma_wf_frame(before, self@);
        }
        Ok(())
    }

    /// Turns off auto-renewal of `(depositor, deposit_id)`.
    pub fn disable_auto_renewal(&mut self, depositor: Address, deposit_id: u32) -> (r: Result<(), VaultError>)
        requires
            old(self)@.wf(),
        ensures
            final(self)@.wf(),
            match r {
                Ok(()) => {
                    &&& old(self)@.auto_renewals.contains_key(deposit_key(depositor, deposit_id))
                    &&& final(self)@ == (VaultView {
                        auto_renewals: old(self)@.auto_renewals.remove(deposit_key(depositor, deposit_id)),
                        ..old(self)@
                    })
                },
                Err(e) => {
                    &&& !old(self)@.auto_renewals.contains_key(deposit_key(depositor, deposit_id))
                    &&& e == VaultError::NoDepositFound
                    &&& final(self)@ == old(self)@
                },
            },
    {
        let k = make_deposit_key(depositor, deposit_id);
        if !self.auto_renewals.contains_key(&k) {
            return Err(VaultError::NoDepositFound);
        }
        let ghost before = self@;
        self.auto_renewals.remove(&k);
        proof {
            lemma_wf_frame(before, self@);
        }
        Ok(())
    }

    /// The auto-renewal settings of `(depositor, deposit_id)`, if any.
    pub fn get_auto_renewal_config(&self, depositor: Address, deposit_id: u32) -> (r: Option<AutoRenewalConfig>)
        ensures
            r == if self@.auto_renewals.contains_key(deposit_key(depositor, deposit_id)) {
                Some(self@.auto_renewals[deposit_key(depositor, deposit_id)])
            } else {
                None
            },
    {
        let k = make_deposit_key(depositor, deposit_id);
        match self.auto_renewals.get(&k) {
            Some(c) => Some(*c),
            None => None,
        }
    }
}

} // verus!
