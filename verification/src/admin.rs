//! Initialization, pausing, the two-step admin transfer, renouncement and
//! schema migration.
use vstd::prelude::*;
use crate::address::Address;
use crate::constants::STORAGE_VERSION;
use crate::errors::VaultError;
use crate::types::LedgerInfo;
use crate::vault::{SafeHaven, VaultConfig, VaultView, lemma_wf_frame, uninitialized_config};

verus! {

/// What a configuration entry point does: on success the configuration
/// becomes `cfg` and nothing else changes; on a refusal nothing changes.
pub open spec fn config_outcome(
    old: VaultView,
    new: VaultView,
    r: Result<(), VaultError>,
    refusal: Option<VaultError>,
    cfg: VaultConfig,
) -> bool {
    match r {
        Ok(()) => refusal.is_none() && new == (VaultView { config: cfg, ..old }),
        Err(e) => refusal == Some(e) && new == old,
    }
}

/// Why `initialize` is refused; `None` when it goes through.
pub open spec fn initialize_refusal(c: VaultConfig, max_deposit: Option<i128>, max_lock_secs: Option<u64>) -> Option<
    VaultError,
> {
    if c.initialized {
        Some(VaultError::AlreadyInitialized)
    } else if max_deposit matches Some(v) && v <= 0 {
        Some(VaultError::InvalidAmount)
    } else if max_lock_secs matches Some(v) && v == 0 {
        Some(VaultError::LockDurationTooLong)
    } else {
        None
    }
}

/// The configuration `initialize` installs over `c`: initialized, with
/// `admin` and `fee_recipient`, and each limit override that is given.
pub open spec fn initialized_config(
    c: VaultConfig,
    admin: Address,
    fee_recipient: Address,
    max_deposit: Option<i128>,
    max_lock_secs: Option<u64>,
) -> VaultConfig {
    VaultConfig {
        initialized: true,
        admin: Some(admin),
        fee_recipient: Some(fee_recipient),
        max_deposit: if max_deposit.is_some() {
            max_deposit
        } else {
            c.max_deposit
        },
        max_lock_secs: if max_lock_secs.is_some() {
            max_lock_secs
        } else {
            c.max_lock_secs
        },
        ..c
    }
}

/// `Unauthorized` unless `caller` is the current admin.
pub open spec fn admin_refusal(c: VaultConfig, caller: Address) -> Option<VaultError> {
    if c.admin != Some(caller) {
        Some(VaultError::Unauthorized)
    } else {
        None
    }
}

/// Why `transfer_admin(admin, new_admin)` is refused: not the admin, or a
/// proposal of the admin itself.
pub open spec fn transfer_refusal(c: VaultConfig, admin: Address, new_admin: Address) -> Option<VaultError> {
    if admin_refusal(c, admin).is_some() {
        admin_refusal(c, admin)
    } else if new_admin == admin {
        Some(VaultError::InvalidAdmin)
    } else {
        None
    }
}

/// Why `accept_admin(new_admin)` is refused: `new_admin` is not the pending admin.
pub open spec fn accept_refusal(c: VaultConfig, new_admin: Address) -> Option<VaultError> {
    if c.pending_admin != Some(new_admin) {
        Some(VaultError::Unauthorized)
    } else {
        None
    }
}

impl SafeHaven {
    fn set_config(&mut self, cfg: VaultConfig)
        requires
            old(self)@.wf(),
            !cfg.initialized ==> cfg == uninitialized_config(),
        ensures
            final(self)@.wf(),
            final(self)@ == (VaultView { config: cfg, ..old(self)@ }),
    {
        let ghost before = self@;
        self.config = cfg;
        proof {
            lemma_wf_frame(before, self@);
        }
    }

    /// One-time setup: records the admin and the fee recipient, and
    /// optionally overrides the maximum deposit and maximum lock duration.
    pub fn initialize(
        &mut self,
        admin: Address,
        fee_recipient: Address,
        max_deposit: Option<i128>,
        max_lock_secs: Option<u64>,
    ) -> (r: Result<(), VaultError>)
        requires
            old(self)@.wf(),
        ensures
            final(self)@.wf(),
            config_outcome(
                old(self)@,
                final(self)@,
                r,
                initialize_refusal(old(self)@.config, max_deposit, max_lock_secs),
                initialized_config(old(self)@.config, admin, fee_recipient, max_deposit, max_lock_secs),
            ),
    {
        if self.config.initialized {
            return Err(VaultError::AlreadyInitialized);
        }
        if let Some(v) = max_deposit {
            if v <= 0 {
                return Err(VaultError::InvalidAmount);
            }
        }
        if let Some(v) = max_lock_secs {
            if v == 0 {
                return Err(VaultError::LockDurationTooLong);
            }
        }
        let mut cfg = self.config;
        cfg.initialized = true;
        cfg.admin = Some(admin);
        cfg.fee_recipient = Some(fee_recipient);
        if max_deposit.is_some() {
            cfg.max_deposit = max_deposit;
        }
        if max_lock_secs.is_some() {
            cfg.max_lock_secs = max_lock_secs;
        }
        self.set_config(cfg);
        Ok(())
    }

    /// `Ok` when `caller` is the current admin, `Unauthorized` otherwise.
    pub fn require_admin(&self, caller: Address) -> (r: Result<(), VaultError>)
        ensures
            match r {
                Ok(()) => admin_refusal(self@.config, caller).is_none(),
                Err(e) => admin_refusal(self@.config, caller) == Some(e),
            },
    {
        if self.is_admin(caller) {
            Ok(())
        } else {
            Err(VaultError::Unauthorized)
        }
    }

    /// Admin: stops all new deposits.
    pub fn pause(&mut self, admin: Address) -> (r: Result<(), VaultError>)
        requires
            old(self)@.wf(),
        ensures
            final(self)@.wf(),
            config_outcome(
                old(self)@,
                final(self)@,
                r,
                admin_refusal(old(self)@.config, admin),
                VaultConfig { paused: true, ..old(self)@.config },
            ),
    {
        self.require_admin(admin)?;
        let mut cfg = self.config;
        cfg.paused = true;
        self.set_config(cfg);
        Ok(())
    }

    /// Admin: accepts deposits again.
    pub fn unpause(&mut self, admin: Address) -> (r: Result<(), VaultError>)
        requires
            old(self)@.wf(),
        ensures
            final(self)@.wf(),
            config_outcome(
                old(self)@,
                final(self)@,
                r,
                admin_refusal(old(self)@.config, admin),
                VaultConfig { paused: false, ..old(self)@.config },
            ),
    {
        self.require_admin(admin)?;
        let mut cfg = self.config;
        cfg.paused = false;
        self.set_config(cfg);
        Ok(())
    }

    pub fn is_paused(&self) -> (b: bool)
        ensures
            b == self@.config.paused,
    {
        self.config.paused
    }

    /// Admin: proposes `new_admin`, who must accept to take over.
    pub fn transfer_admin(&mut self, admin: Address, new_admin: Address) -> (r: Result<(), VaultError>)
        requires
            old(self)@.wf(),
        ensures
            final(self)@.wf(),
            config_outcome(
                old(self)@,
                final(self)@,
                r,
                transfer_refusal(old(self)@.config, admin, new_admin),
                VaultConfig { pending_admin: Some(new_admin), ..old(self)@.config },
            ),
    {
        self.require_admin(admin)?;
        if new_admin == admin {
            return Err(VaultError::InvalidAdmin);
        }
        let mut cfg = self.config;
        cfg.pending_admin = Some(new_admin);
        self.set_config(cfg);
        Ok(())
    }

    /// The pending admin takes over; the pending proposal is cleared.
    pub fn accept_admin(&mut self, new_admin: Address) -> (r: Result<(), VaultError>)
        requires
            old(self)@.wf(),
        ensures
            final(self)@.wf(),
            config_outcome(
                old(self)@,
                final(self)@,
                r,
                accept_refusal(old(self)@.config, new_admin),
                VaultConfig { admin: Some(new_admin), pending_admin: None, ..old(self)@.config },
            ),
    {
        let is_pending = match self.config.pending_admin {
            Some(p) => p == new_admin,
            None => false,
        };
        if !is_pending {
            return Err(VaultError::Unauthorized);
        }
        let mut cfg = self.config;
        cfg.admin = Some(new_admin);
        cfg.pending_admin = None;
        self.set_config(cfg);
        Ok(())
    }

    /// Admin: withdraws a pending admin proposal, if any.
    pub fn cancel_transfer_admin(&mut self, admin: Address) -> (r: Result<(), VaultError>)
        requires
            old(self)@.wf(),
        ensures
            final(self)@.wf(),
            config_outcome(
                old(self)@,
                final(self)@,
                r,
                admin_refusal(old(self)@.config, admin),
                VaultConfig { pending_admin: None, ..old(self)@.config },
            ),
    {
        self.require_admin(admin)?;
        let mut cfg = self.config;
        cfg.pending_admin = None;
        self.set_config(cfg);
        Ok(())
    }

    /// Admin: gives up admin rights for good; any pending transfer is dropped.
    pub fn renounce_admin(&mut self, admin: Address) -> (r: Result<(), VaultError>)
        requires
            old(self)@.wf(),
        ensures
            final(self)@.wf(),
            config_outcome(
                old(self)@,
                final(self)@,
                r,
                admin_refusal(old(self)@.config, admin),
                VaultConfig { admin: None, pending_admin: None, ..old(self)@.config },
            ),
    {
        self.require_admin(admin)?;
        let mut cfg = self.config;
        cfg.admin = None;
        cfg.pending_admin = None;
        self.set_config(cfg);
        Ok(())
    }

    /// Admin: records the current storage schema version. Returns whether
    /// anything was migrated (`false` when already current).
    pub fn migrate(&mut self, admin: Address) -> (r: Result<bool, VaultError>)
        requires
            old(self)@.wf(),
        ensures
            final(self)@.wf(),
            match r {
                Ok(migrated) => {
                    &&& admin_refusal(old(self)@.config, admin).is_none()
                    &&& migrated == (match old(self)@.config.storage_version {
                        Some(v) => v < STORAGE_VERSION,
                        None => true,
                    })
                    &&& final(self)@ == (if migrated {
                        VaultView {
                            config: VaultConfig { storage_version: Some(STORAGE_VERSION), ..old(self)@.config },
                            ..old(self)@
                        }
                    } else {
                        old(self)@
                    })
                },
                Err(e) => admin_refusal(old(self)@.config, admin) == Some(e) && final(self)@ == old(self)@,
            },
    {
        self.require_admin(admin)?;
        let current = match self.config.storage_version {
            Some(v) => v,
            None => 0,
        };
        if current >= STORAGE_VERSION {
            return Ok(false);
        }
        let mut cfg = self.config;
        cfg.storage_version = Some(STORAGE_VERSION);
        self.set_config(cfg);
        Ok(true)
    }

    pub fn get_storage_version(&self) -> (r: Option<u32>)
        ensures
            r == self@.config.storage_version,
    {
        self.config.storage_version
    }

    pub fn get_admin(&self) -> (r: Option<Address>)
        ensures
            r == self@.config.admin,
    {
        self.config.admin
    }

    pub fn get_pending_admin(&self) -> (r: Option<Address>)
        ensures
            r == self@.config.pending_admin,
    {
        self.config.pending_admin
    }

    pub fn get_fee_recipient(&self) -> (r: Option<Address>)
        ensures
            r == self@.config.fee_recipient,
    {
        self.config.fee_recipient
    }

    pub fn is_initialized(&self) -> (b: bool)
        ensures
            b == self@.config.initialized,
    {
        self.config.initialized
    }

    /// The effective `(max_deposit, max_lock_secs)`: the values set at
    /// initialization, or the compile-time defaults.
    pub fn get_constants(&self) -> (r: (i128, u64))
        ensures
            r == (self@.config.max_deposit_limit(), self@.config.max_lock_limit()),
    {
        (self.max_deposit_limit(), self.max_lock_limit())
    }
}

/// The current ledger timestamp.
pub fn get_time(ledger: LedgerInfo) -> (t: u64)
    ensures
        t == ledger.timestamp,
{
    ledger.timestamp
}

} // verus!
