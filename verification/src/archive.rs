//! Record-keeping for closed deposits: a depositor may archive the terms of
//! a deposit that is no longer open, and delete the record after a year.
use vstd::prelude::*;
use crate::address::{Address, deposit_key, make_deposit_key};
use crate::constants::ARCHIVED_DEPOSIT_MIN_AGE_SECS;
use crate::deposit::new_time_entry;
use crate::errors::VaultError;
use crate::types::{ArchivedLedgerVaultEntry, ArchivedVaultEntry, LedgerInfo, LedgerVaultEntry, VaultEntry};
use crate::vault::{Deposit, SafeHaven, VaultView, lemma_wf_frame};

verus! {

broadcast use vstd::std_specs::hash::group_hash_axioms;

impl VaultView {
    /// The archived timestamp deposit `(d, id)`, if any.
    pub open spec fn archived_entry(self, d: Address, id: u32) -> Option<ArchivedVaultEntry> {
        if self.archived.contains_key(deposit_key(d, id)) {
            Some(self.archived[deposit_key(d, id)])
        } else {
            None
        }
    }

    /// The archived ledger deposit `(d, id)`, if any.
    pub open spec fn archived_ledger_entry(self, d: Address, id: u32) -> Option<ArchivedLedgerVaultEntry> {
        if self.archived_ledger.contains_key(deposit_key(d, id)) {
            Some(self.archived_ledger[deposit_key(d, id)])
        } else {
            None
        }
    }

    /// `(d, id)` is still an open single-token deposit.
    pub open spec fn single_open(self, d: Address, id: u32) -> bool {
        self.time_entry(d, id).is_some() || self.ledger_entry(d, id).is_some()
    }
}

/// Why `archive_deposit` is refused: the deposit is still open, or it was
/// archived already.
pub open spec fn archive_refusal(v: VaultView, d: Address, id: u32) -> Option<VaultError> {
    if v.single_open(d, id) {
        Some(VaultError::NoDepositFound)
    } else if v.archived_entry(d, id).is_some() {
        Some(VaultError::NoArchivedDepositFound)
    } else {
        None
    }
}

/// Why `archive_deposit_by_ledger` is refused.
pub open spec fn archive_ledger_refusal(v: VaultView, d: Address, id: u32) -> Option<VaultError> {
    if v.single_open(d, id) {
        Some(VaultError::NoDepositFound)
    } else if v.archived_ledger_entry(d, id).is_some() {
        Some(VaultError::NoArchivedDepositFound)
    } else {
        None
    }
}

/// The age of a record archived at `archived_at`, at time `now` (0 when the
/// clock reads earlier).
pub open spec fn record_age(now: u64, archived_at: u64) -> int {
    if now >= archived_at {
        now - archived_at
    } else {
        0
    }
}

/// Why `delete_archived_deposit` is refused. A timestamp record is looked
/// at before a ledger record.
pub open spec fn delete_refusal(v: VaultView, d: Address, id: u32, now: u64) -> Option<VaultError> {
    match v.archived_entry(d, id) {
        Some(a) => if record_age(now, a.archive_timestamp) < ARCHIVED_DEPOSIT_MIN_AGE_SECS {
            Some(VaultError::ArchivedDepositTooYoung)
        } else {
            None
        },
        None => match v.archived_ledger_entry(d, id) {
            Some(a) => if record_age(now, a.archive_timestamp) < ARCHIVED_DEPOSIT_MIN_AGE_SECS {
                Some(VaultError::ArchivedDepositTooYoung)
            } else {
                None
            },
            None => Some(VaultError::NoArchivedDepositFound),
        },
    }
}

impl SafeHaven {
    fn single_open(&self, d: Address, id: u32) -> (b: bool)
        ensures
            b == self@.single_open(d, id),
    {
        match self.deposits.get(&make_deposit_key(d, id)) {
            Some(Deposit::Time(_)) => true,
            Some(Deposit::Ledger(_)) => true,
            _ => false,
        }
    }

    /// Archives the terms of the closed timestamp deposit `(depositor,
    /// deposit_id)`, stamped with the current time.
    pub fn archive_deposit(
        &mut self,
        ledger: LedgerInfo,
        depositor: Address,
        deposit_id: u32,
        token: Address,
        amount: i128,
        unlock_time: u64,
        penalty_bps: u32,
    ) -> (r: Result<(), VaultError>)
        requires
            old(self)@.wf(),
        ensures
            final(self)@.wf(),
            match r {
                Ok(()) => {
                    &&& archive_refusal(old(self)@, depositor, deposit_id).is_none()
                    &&& final(self)@ == (VaultView {
                        archived: old(self)@.archived.insert(
                            deposit_key(depositor, deposit_id),
                            ArchivedVaultEntry {
                                entry: new_time_entry(token, amount, unlock_time, depositor, penalty_bps, 0, 0, 0),
                                archive_timestamp: ledger.timestamp,
                            },
                        ),
                        ..old(self)@
                    })
                },
                Err(e) => {
                    &&& archive_refusal(old(self)@, depositor, deposit_id) == Some(e)
                    &&& final(self)@ == old(self)@
                },
            },
    {
        if self.single_open(depositor, deposit_id) {
            return Err(VaultError::NoDepositFound);
        }
        let k = make_deposit_key(depositor, deposit_id);
        if self.archived.contains_key(&k) {
            return Err(VaultError::NoArchivedDepositFound);
        }
        let ghost v = self@;
        let entry = VaultEntry {
            token,
            amount,
            unlock_time,
            depositor,
            penalty_bps,
            compound_frequency_secs: 0,
            last_accrual_timestamp: 0,
            withdrawal_delay_secs: 0,
        };
        self.archived.insert(k, ArchivedVaultEntry { entry, archive_timestamp: ledger.timestamp });
        proof {
            lemma_wf_frame(v, self@);
        }
        Ok(())
    }

    /// Archives the terms of the closed ledger deposit `(depositor,
    /// deposit_id)`, stamped with the current time.
    pub fn archive_deposit_by_ledger(
        &mut self,
        ledger: LedgerInfo,
        depositor: Address,
        deposit_id: u32,
        token: Address,
        amount: i128,
        unlock_ledger: u32,
        penalty_bps: u32,
    ) -> (r: Result<(), VaultError>)
        requires
            old(self)@.wf(),
        ensures
            final(self)@.wf(),
            match r {
                Ok(()) => {
                    &&& archive_ledger_refusal(old(self)@, depositor, deposit_id).is_none()
                    &&& final(self)@ == (VaultView {
                        archived_ledger: old(self)@.archived_ledger.insert(
                            deposit_key(depositor, deposit_id),
                            ArchivedLedgerVaultEntry {
                                entry: LedgerVaultEntry { token, amount, unlock_ledger, depositor, penalty_bps },
                                archive_timestamp: ledger.timestamp,
                            },
                        ),
                        ..old(self)@
                    })
                },
                Err(e) => {
                    &&& archive_ledger_refusal(old(self)@, depositor, deposit_id) == Some(e)
                    &&& final(self)@ == old(self)@
                },
            },
    {
        if self.single_open(depositor, deposit_id) {
            return Err(VaultError::NoDepositFound);
        }
        let k = make_deposit_key(depositor, deposit_id);
        if self.archived_ledger.contains_key(&k) {
            return Err(VaultError::NoArchivedDepositFound);
        }
        let ghost v = self@;
        let entry = LedgerVaultEntry { token, amount, unlock_ledger, depositor, penalty_bps };
        self.archived_ledger.insert(k, ArchivedLedgerVaultEntry { entry, archive_timestamp: ledger.timestamp });
        proof {
            lemma_wf_frame(v, self@);
        }
        Ok(())
    }

    /// Deletes the archived record `(depositor, deposit_id)` once it is at
    /// least a year old.
    pub fn delete_archived_deposit(&mut self, ledger: LedgerInfo, depositor: Address, deposit_id: u32) -> (r:
        Result<(), VaultError>)
        requires
            old(self)@.wf(),
        ensures
            final(self)@.wf(),
            match r {
                Ok(()) => {
                    let k = deposit_key(depositor, deposit_id);
                    &&& delete_refusal(old(self)@, depositor, deposit_id, ledger.timestamp).is_none()
                    &&& final(self)@ == if old(self)@.archived.contains_key(k) {
                        VaultView { archived: old(self)@.archived.remove(k), ..old(self)@ }
                    } else {
                        VaultView { archived_ledger: old(self)@.archived_ledger.remove(k), ..old(self)@ }
                    }
                },
                Err(e) => {
                    &&& delete_refusal(old(self)@, depositor, deposit_id, ledger.timestamp) == Some(e)
                    &&& final(self)@ == old(self)@
                },
            },
    {
        let now = ledger.timestamp;
        let k = make_deposit_key(depositor, deposit_id);
        let ghost v = self@;
        let stamp: Option<u64> = match self.archived.get(&k) {
            Some(a) => Some(a.archive_timestamp),
            None => None,
        };
        if let Some(t) = stamp {
            let age = now.saturating_sub(t);
            if age < ARCHIVED_DEPOSIT_MIN_AGE_SECS {
                return Err(VaultError::ArchivedDepositTooYoung);
            }
            self.archived.remove(&k);
            proof {
                lemma_wf_frame(v, self@);
            }
            return Ok(());
        }
        let stamp: Option<u64> = match self.archived_ledger.get(&k) {
            Some(a) => Some(a.archive_timestamp),
            None => None,
        };
        if let Some(t) = stamp {
            let age = now.saturating_sub(t);
            if age < ARCHIVED_DEPOSIT_MIN_AGE_SECS {
                return Err(VaultError::ArchivedDepositTooYoung);
            }
            self.archived_ledger.remove(&k);
            proof {
                lemma_wf_frame(v, self@);
            }
            return Ok(());
        }
        Err(VaultError::NoArchivedDepositFound)
    }
}

} // verus!
