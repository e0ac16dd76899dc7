//! The insurance pool: anyone may file a claim against a token's pool; the
//! admin approves (paying it out of the pool) or denies it.
//!
//! No entry point credits an insurance pool: an early exit's penalty goes
//! to the fee recipient and the stakers' rewards pool only. So every pool
//! stays at 0 unless its balance is set in the state directly, and until
//! then `approve_claim` refuses every claim (a claim always requests a
//! positive amount) with `InsufficientInsurancePool`.
use vstd::prelude::*;
use crate::address::Address;
use crate::admin::admin_refusal;
use crate::errors::VaultError;
use crate::types::{ClaimStatus, InsuranceClaim, Transfer};
use crate::vault::{SafeHaven, VaultConfig, VaultView, lemma_wf_claims};

verus! {

broadcast use vstd::std_specs::hash::group_hash_axioms;

impl VaultView {
    /// The insurance pool balance of `token` (0 when never funded).
    pub open spec fn pool_balance(self, token: Address) -> i128 {
        if self.insurance_pools.contains_key(token.id) {
            self.insurance_pools[token.id]
        } else {
            0
        }
    }

    /// The claim `id`, if it was filed.
    pub open spec fn claim(self, id: u32) -> Option<InsuranceClaim> {
        if self.claims.contains_key(id) {
            Some(self.claims[id])
        } else {
            None
        }
    }

    /// The state with claim `c` stored under its id.
    pub open spec fn with_claim(self, c: InsuranceClaim) -> VaultView {
        VaultView { claims: self.claims.insert(c.claim_id, c), ..self }
    }
}

/// Why the admin cannot settle `claim`: not the admin, no such claim, or
/// already approved or denied.
pub open spec fn settle_refusal(c: VaultConfig, admin: Address, claim: Option<InsuranceClaim>) -> Option<
    VaultError,
> {
    if admin_refusal(c, admin).is_some() {
        admin_refusal(c, admin)
    } else if claim.is_none() {
        Some(VaultError::NoClaimFound)
    } else if claim.unwrap().status != ClaimStatus::Pending {
        Some(VaultError::ClaimAlreadyResolved)
    } else {
        None
    }
}

/// Why `approve_claim(admin, id)` is refused: as `settle_refusal`, then a
/// pool too small to pay the requested amount.
pub open spec fn approve_refusal(v: VaultView, admin: Address, id: u32) -> Option<VaultError> {
    if settle_refusal(v.config, admin, v.claim(id)).is_some() {
        settle_refusal(v.config, admin, v.claim(id))
    } else if v.pool_balance(v.claim(id).unwrap().token) < v.claim(id).unwrap().amount_requested {
        Some(VaultError::InsufficientInsurancePool)
    } else {
        None
    }
}

impl SafeHaven {
    /// The insurance pool balance of `token`.
    pub fn get_insurance_pool_balance(&self, token: Address) -> (b: i128)
        ensures
            b == self@.pool_balance(token),
    {
        match self.insurance_pools.get(&token.id) {
            Some(b) => *b,
            None => 0,
        }
    }

    /// The claim `claim_id`, if it was filed.
    pub fn get_claim(&self, claim_id: u32) -> (r: Option<InsuranceClaim>)
        ensures
            r == self@.claim(claim_id),
    {
        match self.claims.get(&claim_id) {
            Some(c) => Some(c.copy()),
            None => None,
        }
    }

    /// Files a pending claim for `amount_requested` of `token`; returns its id.
    pub fn claim_insurance(
        &mut self,
        claimant: Address,
        token: Address,
        amount_requested: i128,
        incident_evidence: String,
    ) -> (r: Result<u32, VaultError>)
        requires
            old(self)@.wf(),
            amount_requested > 0 ==> old(self)@.next_claim_id < u32::MAX,
        ensures
            final(self)@.wf(),
            match r {
                Ok(id) => {
                    &&& amount_requested > 0
                    &&& id == old(self)@.next_claim_id
                    &&& final(self)@ == (VaultView {
                        next_claim_id: (id + 1) as u32,
                        ..old(self)@.with_claim(
                            InsuranceClaim {
                                claim_id: id,
                                claimant,
                                token,
                                amount_requested,
                                incident_evidence,
                                status: ClaimStatus::Pending,
                            },
                        )
                    })
                },
                Err(e) => {
                    &&& amount_requested <= 0
                    &&& e == VaultError::InvalidAmount
                    &&& final(self)@ == old(self)@
                },
            },
    {
        if amount_requested <= 0 {
            return Err(VaultError::InvalidAmount);
        }
        let ghost v = self@;
        let id = self.next_claim_id;
        let claim = InsuranceClaim {
            claim_id: id,
            claimant,
            token,
            amount_requested,
            incident_evidence,
            status: ClaimStatus::Pending,
        };
        self.claims.insert(id, claim);
        self.next_claim_id = id + 1;
        proof {
            lemma_wf_claims(v, self@);
        }
        Ok(id)
    }

    /// Admin: approves a pending claim and pays the full requested amount
    /// out of the token's pool. Returns the amount paid. Since no entry
    /// point funds a pool, this succeeds only on a pool whose balance was
    /// set in the state directly.
    pub fn approve_claim(&mut self, admin: Address, claim_id: u32, transfers: &mut Vec<Transfer>) -> (r:
        Result<i128, VaultError>)
        requires
            old(self)@.wf(),
        ensures
            final(self)@.wf(),
            match r {
                Ok(amount) => {
                    let c = old(self)@.claim(claim_id).unwrap();
                    &&& approve_refusal(old(self)@, admin, claim_id).is_none()
                    &&& amount == c.amount_requested
                    &&& final(self)@ == (VaultView {
                        insurance_pools: old(self)@.insurance_pools.insert(
                            c.token.id,
                            (old(self)@.pool_balance(c.token) - amount) as i128,
                        ),
                        ..old(self)@.with_claim(InsuranceClaim { status: ClaimStatus::Approved, ..c })
                    })
                    &&& final(transfers)@ == old(transfers)@.push(
                        Transfer::FromVault { token: c.token, to: c.claimant, amount },
                    )
                },
                Err(e) => {
                    &&& approve_refusal(old(self)@, admin, claim_id) == Some(e)
                    &&& final(self)@ == old(self)@
                    &&& final(transfers)@ == old(transfers)@
                },
            },
    {
        self.require_admin(admin)?;
        let claim = match self.claims.get(&claim_id) {
            Some(c) => c.copy(),
            None => {
                return Err(VaultError::NoClaimFound);
            },
        };
        match claim.status {
            ClaimStatus::Pending => {},
            _ => {
                return Err(VaultError::ClaimAlreadyResolved);
            },
        }
        let balance = self.get_insurance_pool_balance(claim.token);
        let amount = claim.amount_requested;
        if balance < amount {
            return Err(VaultError::InsufficientInsurancePool);
        }
        let ghost v = self@;
        let token = claim.token;
        let claimant = claim.claimant;
        self.insurance_pools.insert(token.id, balance - amount);
        self.claims.insert(claim_id, InsuranceClaim { status: ClaimStatus::Approved, ..claim });
        transfers.push(Transfer::FromVault { token, to: claimant, amount });
        proof {
            lemma_wf_claims(v, self@);
        }
        Ok(amount)
    }

    /// Admin: denies a pending claim; no funds move.
    pub fn deny_claim(&mut self, admin: Address, claim_id: u32) -> (r: Result<(), VaultError>)
        requires
            old(self)@.wf(),
        ensures
            final(self)@.wf(),
            match r {
                Ok(()) => {
                    &&& settle_refusal(old(self)@.config, admin, old(self)@.claim(claim_id)).is_none()
                    &&& final(self)@ == old(self)@.with_claim(
                        InsuranceClaim {
                            status: ClaimStatus::Denied,
                            ..old(self)@.claim(claim_id).unwrap()
                        },
                    )
                },
                Err(e) => {
                    &&& settle_refusal(old(self)@.config, admin, old(self)@.claim(claim_id)) == Some(e)
                    &&& final(self)@ == old(self)@
                },
            },
    {
        self.require_admin(admin)?;
        let claim = match self.claims.get(&claim_id) {
            Some(c) => c.copy(),
            None => {
                return Err(VaultError::NoClaimFound);
            },
        };
        match claim.status {
            ClaimStatus::Pending => {},
            _ => {
                return Err(VaultError::ClaimAlreadyResolved);
            },
        }
        let ghost v = self@;
        self.claims.insert(claim_id, InsuranceClaim { status: ClaimStatus::Denied, ..claim });
        proof {
            lemma_wf_claims(v, self@);
        }
        Ok(())
    }
}

} // verus!
