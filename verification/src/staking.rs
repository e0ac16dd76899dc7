//! The staker registry: stakers share the penalty part credited to the rewards pool.
use vstd::prelude::*;
use crate::address::Address;
use crate::errors::VaultError;
use crate::vault::{SafeHaven, VaultView, lemma_stake_sum_other, lemma_stake_sum_push, lemma_stake_sum_replace};

verus! {

broadcast use vstd::std_specs::hash::group_hash_axioms;

/// The stake of `a` (0 when not registered).
pub open spec fn stake_of(v: VaultView, a: Address) -> i128 {
    if v.stakers.contains_key(a.id) {
        v.stakers[a.id]
    } else {
        0
    }
}

/// Rewards already claimed by `a`.
pub open spec fn claimed_of(v: VaultView, a: Address) -> i128 {
    if v.rewards_claimed.contains_key(a.id) {
        v.rewards_claimed[a.id]
    } else {
        0
    }
}

/// A staker's proportional share of the rewards pool.
pub open spec fn reward_of(v: VaultView, a: Address) -> int {
    (stake_of(v, a) * v.rewards_pool) / (v.total_staked as int)
}

/// The claim gets as far as computing a share: `a` is registered with a
/// positive stake, and both the pool and the total stake are positive.
pub open spec fn share_computed(v: VaultView, a: Address) -> bool {
    &&& v.stakers.contains_key(a.id)
    &&& v.stakers[a.id] > 0
    &&& v.rewards_pool > 0
    &&& v.total_staked > 0
}

/// Why `claim_staker_rewards(a)` is refused; `None` when it goes through.
pub open spec fn claim_refusal(v: VaultView, a: Address) -> Option<VaultError> {
    if !v.stakers.contains_key(a.id) {
        Some(VaultError::StakerNotFound)
    } else if v.stakers[a.id] <= 0 {
        Some(VaultError::InvalidStakeAmount)
    } else if v.rewards_pool <= 0 || v.total_staked <= 0 {
        Some(VaultError::NoRewardsToClaim)
    } else if reward_of(v, a) <= 0 {
        Some(VaultError::NoRewardsToClaim)
    } else {
        None
    }
}

impl SafeHaven {
    /// Registers `staker` with a stake of `amount`, or replaces their stake.
    pub fn register_staker(&mut self, staker: Address, amount: i128) -> (r: Result<(), VaultError>)
        requires
            old(self)@.wf(),
            amount > 0 ==> i128::MIN <= old(self)@.total_staked - stake_of(old(self)@, staker),
            amount > 0 ==> old(self)@.total_staked - stake_of(old(self)@, staker) + amount <= i128::MAX,
        ensures
            final(self)@.wf(),
            match r {
                Ok(()) => {
                    &&& amount > 0
                    &&& final(self)@ == (VaultView {
                        stakers: old(self)@.stakers.insert(staker.id, amount),
                        total_staked: (old(self)@.total_staked - stake_of(old(self)@, staker) + amount) as i128,
                        staker_list: if old(self)@.stakers.contains_key(staker.id) {
                            old(self)@.staker_list
                        } else {
                            old(self)@.staker_list.push(staker)
                        },
                        ..old(self)@
                    })
                },
                Err(e) => amount <= 0 && e == VaultError::InvalidStakeAmount && final(self)@ == old(self)@,
            },
    {
        if amount <= 0 {
            return Err(VaultError::InvalidStakeAmount);
        }
        let ghost v = self@;
        let current_total = self.total_staked;
        let old_stake: i128 = match self.stakers.get(&staker.id) {
            Some(s) => *s,
            None => 0,
        };
        let registered = self.stakers.contains_key(&staker.id);
        self.stakers.insert(staker.id, amount);
        self.total_staked = current_total - old_stake + amount;
        if !registered {
            self.staker_list.push(staker);
        }
        proof {
            let w = self@;
            if registered {
                lemma_stake_sum_replace(v.staker_list, v.stakers, staker, amount);
            } else {
                assert(!v.staker_list.contains(staker));
                lemma_stake_sum_other(v.staker_list, v.stakers, staker, amount);
                lemma_stake_sum_push(v.staker_list, v.stakers.insert(staker.id, amount), staker);
            }
            assert forall|d: Address| #[trigger] w.active(d) == v.active(d) by {}
            assert forall|d: Address| #[trigger] w.counter(d) == v.counter(d) by {}
            assert forall|d: Address| #[trigger] w.subscription_counter(d) == v.subscription_counter(d) by {}
            assert forall|d: Address, id: u32| #[trigger] w.has_deposit(d, id) == v.has_deposit(d, id) by {}
            assert forall|a: Address| #[trigger] w.staker_list.contains(a) <==> w.stakers.contains_key(a.id) by {
                if !registered {
                    if a == staker {
                        assert(w.staker_list[w.staker_list.len() - 1] == a);
                    } else {
                        if w.staker_list.contains(a) {
                            let i = choose|i: int| 0 <= i < w.staker_list.len() && w.staker_list[i] == a;
                            assert(v.staker_list[i] == a);
                        }
                        if v.staker_list.contains(a) {
                            let i = choose|i: int| 0 <= i < v.staker_list.len() && v.staker_list[i] == a;
                            assert(w.staker_list[i] == a);
                        }
                    }
                }
            }
            if !registered {
                assert(!v.staker_list.contains(staker));
                let s = w.staker_list;
                assert forall|i: int, j: int| 0 <= i < s.len() && 0 <= j < s.len() && i != j implies s[i]
                    != s[j] by {
                    if i == s.len() - 1 {
                        assert(s[j] == v.staker_list[j]);
                        assert(v.staker_list.contains(s[j]));
                    } else if j == s.len() - 1 {
                        assert(s[i] == v.staker_list[i]);
                        assert(v.staker_list.contains(s[i]));
                    } else {
                        assert(s[i] == v.staker_list[i] && s[j] == v.staker_list[j]);
                    }
                }
            }
        }
        Ok(())
    }

    /// Credits `staker` with `stake * rewards_pool / total_staked` and takes
    /// it out of the pool.
    pub fn claim_staker_rewards(&mut self, staker: Address) -> (r: Result<(), VaultError>)
        requires
            old(self)@.wf(),
            share_computed(old(self)@, staker) ==> stake_of(old(self)@, staker)
                * old(self)@.rewards_pool <= i128::MAX,
            share_computed(old(self)@, staker) ==> claimed_of(old(self)@, staker) + reward_of(
                old(self)@,
                staker,
            ) <= i128::MAX,
        ensures
            final(self)@.wf(),
            match r {
                Ok(()) => {
                    &&& claim_refusal(old(self)@, staker).is_none()
                    &&& final(self)@ == (VaultView {
                        rewards_claimed: old(self)@.rewards_claimed.insert(
                            staker.id,
                            (claimed_of(old(self)@, staker) + reward_of(old(self)@, staker)) as i128,
                        ),
                        rewards_pool: (old(self)@.rewards_pool - reward_of(old(self)@, staker)) as i128,
                        ..old(self)@
                    })
                },
                Err(e) => claim_refusal(old(self)@, staker) == Some(e) && final(self)@ == old(self)@,
            },
    {
        let ghost v = self@;
        let stake_amount: i128 = match self.stakers.get(&staker.id) {
            Some(s) => *s,
            None => {
                return Err(VaultError::StakerNotFound);
            },
        };
        if stake_amount <= 0 {
            return Err(VaultError::InvalidStakeAmount);
        }
        let rewards_pool = self.rewards_pool;
        let total_staked = self.total_staked;
        if rewards_pool <= 0 {
            return Err(VaultError::NoRewardsToClaim);
        }
        if total_staked <= 0 {
            return Err(VaultError::NoRewardsToClaim);
        }
        assert(stake_amount * rewards_pool > 0) by (nonlinear_arith)
            requires
                stake_amount > 0,
                rewards_pool > 0,
        ;
        let reward: i128 = (stake_amount * rewards_pool) / total_staked;
        if reward <= 0 {
            return Err(VaultError::NoRewardsToClaim);
        }
        let already: i128 = match self.rewards_claimed.get(&staker.id) {
            Some(c) => *c,
            None => 0,
        };
        self.rewards_claimed.insert(staker.id, already + reward);
        self.rewards_pool = rewards_pool - reward;
        proof {
            crate::vault::lemma_wf_frame(v, self@);
        }
        Ok(())
    }
}

} // verus!
