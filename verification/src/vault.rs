//! The vault's state, its abstract view, its invariant, and the
//! bookkeeping steps shared by the entry points.
use vstd::prelude::*;
use std::collections::HashMap;
use crate::address::{Address, deposit_key, lemma_deposit_key_injective, make_deposit_key};
use crate::constants::{MAX_TOKENS_PER_DEPOSIT, MAX_DEPOSIT_AMOUNT, MAX_EMERGENCY_WITHDRAWAL_PER_LEDGER, MAX_LOCK_DURATION_SECS};
use crate::lists::{without, lemma_without, contains_address, without_address, without_id};
use crate::types::{
    ArchivedLedgerVaultEntry, ArchivedVaultEntry, AutoRenewalConfig, FarmingConfig, FarmingState,
    InsuranceClaim, LedgerVaultEntry, MultiTokenVaultEntry, MultiTokenView, RecurringDeposit,
    VaultEntry,
};

verus! {

broadcast use vstd::std_specs::hash::group_hash_axioms;

/// Contract-wide settings.
#[derive(Clone, Copy, Debug, PartialEq, Eq)]
pub struct VaultConfig {
    /// Set once by `initialize`; the sole re-initialization guard.
    pub initialized: bool,
    pub admin: Option<Address>,
    pub pending_admin: Option<Address>,
    pub fee_recipient: Option<Address>,
    /// Runtime override of `MAX_DEPOSIT_AMOUNT`.
    pub max_deposit: Option<i128>,
    /// Runtime override of `MAX_LOCK_DURATION_SECS`.
    pub max_lock_secs: Option<u64>,
    pub paused: bool,
    /// Schema version written by the last `migrate`.
    pub storage_version: Option<u32>,
}

impl VaultConfig {
    /// The effective maximum deposit.
    pub open spec fn max_deposit_limit(self) -> i128 {
        match self.max_deposit {
            Some(v) => v,
            None => MAX_DEPOSIT_AMOUNT,
        }
    }

    /// The effective maximum lock duration.
    pub open spec fn max_lock_limit(self) -> u64 {
        match self.max_lock_secs {
            Some(v) => v,
            None => MAX_LOCK_DURATION_SECS,
        }
    }
}

/// A deposit of any of the three kinds.
#[derive(Debug, PartialEq, Eq)]
pub enum Deposit {
    Time(VaultEntry),
    Ledger(LedgerVaultEntry),
    Multi(MultiTokenVaultEntry),
}

/// The content of a `Deposit`.
pub enum DepositView {
    Time(VaultEntry),
    Ledger(LedgerVaultEntry),
    Multi(MultiTokenView),
}

impl View for Deposit {
    type V = DepositView;

    open spec fn view(&self) -> DepositView {
        match self {
            Deposit::Time(e) => DepositView::Time(*e),
            Deposit::Ledger(e) => DepositView::Ledger(*e),
            Deposit::Multi(e) => DepositView::Multi(e@),
        }
    }
}

/// The content of a `FarmingConfig`.
pub struct FarmingConfigView {
    pub enabled: bool,
    pub approved_protocols: Seq<Address>,
    pub min_farming_amount: i128,
    pub max_farming_proportion_bps: u32,
    pub risk_level: u8,
}

impl View for FarmingConfig {
    type V = FarmingConfigView;

    open spec fn view(&self) -> FarmingConfigView {
        FarmingConfigView {
            enabled: self.enabled,
            approved_protocols: self.approved_protocols@,
            min_farming_amount: self.min_farming_amount,
            max_farming_proportion_bps: self.max_farming_proportion_bps,
            risk_level: self.risk_level,
        }
    }
}

/// The vault's state. Per-depositor records are keyed by `Address::id`,
/// per-deposit records by `deposit_key(depositor, deposit_id)`.
pub struct SafeHaven {
    pub config: VaultConfig,
    /// Next deposit id of each depositor.
    pub counters: HashMap<u64, u32>,
    /// Open deposits of all kinds.
    pub deposits: HashMap<u128, Deposit>,
    /// Open deposit ids of each depositor, in creation order.
    pub active_ids: HashMap<u64, Vec<u32>>,
    /// Depositors with at least one open deposit, in registration order.
    pub depositors: Vec<Address>,
    /// Withdrawal recipients allowed per deposit (empty = anyone).
    pub whitelists: HashMap<u128, Vec<Address>>,
    pub auto_renewals: HashMap<u128, AutoRenewalConfig>,
    /// Stake of each registered staker.
    pub stakers: HashMap<u64, i128>,
    /// Registered stakers, in registration order.
    pub staker_list: Vec<Address>,
    pub total_staked: i128,
    /// Penalty share waiting to be claimed by stakers.
    pub rewards_pool: i128,
    pub rewards_claimed: HashMap<u64, i128>,
    pub archived: HashMap<u128, ArchivedVaultEntry>,
    pub archived_ledger: HashMap<u128, ArchivedLedgerVaultEntry>,
    /// Next subscription id of each depositor.
    pub subscription_counters: HashMap<u64, u32>,
    pub subscriptions: HashMap<u128, RecurringDeposit>,
    pub subscription_ids: HashMap<u64, Vec<u32>>,
    /// Insurance pool balance of each token.
    pub insurance_pools: HashMap<u64, i128>,
    pub claims: HashMap<u32, InsuranceClaim>,
    pub next_claim_id: u32,
    /// Emergency withdrawals per ledger sequence number.
    pub emergency_totals: HashMap<u32, i128>,
    pub farming_config: Option<FarmingConfig>,
    pub farming_states: HashMap<u128, FarmingState>,
    pub farming_rewards_claimed: HashMap<u64, i128>,
}

/// The abstract state of the vault.
#[verifier::ext_equal]
pub struct VaultView {
    pub config: VaultConfig,
    pub counters: Map<u64, u32>,
    pub deposits: Map<u128, DepositView>,
    pub active_ids: Map<u64, Seq<u32>>,
    pub depositors: Seq<Address>,
    pub whitelists: Map<u128, Seq<Address>>,
    pub auto_renewals: Map<u128, AutoRenewalConfig>,
    pub stakers: Map<u64, i128>,
    pub staker_list: Seq<Address>,
    pub total_staked: i128,
    pub rewards_pool: i128,
    pub rewards_claimed: Map<u64, i128>,
    pub archived: Map<u128, ArchivedVaultEntry>,
    pub archived_ledger: Map<u128, ArchivedLedgerVaultEntry>,
    pub subscription_counters: Map<u64, u32>,
    pub subscriptions: Map<u128, RecurringDeposit>,
    pub subscription_ids: Map<u64, Seq<u32>>,
    pub insurance_pools: Map<u64, i128>,
    pub claims: Map<u32, InsuranceClaim>,
    pub next_claim_id: u32,
    pub emergency_totals: Map<u32, i128>,
    pub farming_config: Option<FarmingConfigView>,
    pub farming_states: Map<u128, FarmingState>,
    pub farming_rewards_claimed: Map<u64, i128>,
}

impl View for SafeHaven {
    type V = VaultView;

    open spec fn view(&self) -> VaultView {
        VaultView {
            config: self.config,
            counters: self.counters@,
            deposits: self.deposits@.map_values(|d: Deposit| d@),
            active_ids: self.active_ids@.map_values(|v: Vec<u32>| v@),
            depositors: self.depositors@,
            whitelists: self.whitelists@.map_values(|v: Vec<Address>| v@),
            auto_renewals: self.auto_renewals@,
            stakers: self.stakers@,
            staker_list: self.staker_list@,
            total_staked: self.total_staked,
            rewards_pool: self.rewards_pool,
            rewards_claimed: self.rewards_claimed@,
            archived: self.archived@,
            archived_ledger: self.archived_ledger@,
            subscription_counters: self.subscription_counters@,
            subscriptions: self.subscriptions@,
            subscription_ids: self.subscription_ids@.map_values(|v: Vec<u32>| v@),
            insurance_pools: self.insurance_pools@,
            claims: self.claims@,
            next_claim_id: self.next_claim_id,
            emergency_totals: self.emergency_totals@,
            farming_config: match self.farming_config {
                Some(c) => Some(c@),
                None => None,
            },
            farming_states: self.farming_states@,
            farming_rewards_claimed: self.farming_rewards_claimed@,
        }
    }
}

/// What every open deposit satisfies: positive amounts (at most
/// `MAX_TOKENS_PER_DEPOSIT` of them, at least one) and a penalty of at most 100%.
pub open spec fn deposit_valid(dep: DepositView) -> bool {
    match dep {
        DepositView::Time(e) => e.amount > 0 && e.penalty_bps <= 10_000,
        DepositView::Ledger(e) => e.amount > 0 && e.penalty_bps <= 10_000,
        DepositView::Multi(e) => {
            &&& e.penalty_bps <= 10_000
            &&& 0 < e.tokens.len() <= MAX_TOKENS_PER_DEPOSIT
            &&& forall|i: int| 0 <= i < e.tokens.len() ==> #[trigger] e.tokens[i].amount > 0
        },
    }
}

/// The configuration of a vault that has not been initialized: no admin,
/// no pending admin, no fee recipient, no overrides, not paused, never
/// migrated.
pub open spec fn uninitialized_config() -> VaultConfig {
    VaultConfig {
        initialized: false,
        admin: None,
        pending_admin: None,
        fee_recipient: None,
        max_deposit: None,
        max_lock_secs: None,
        paused: false,
        storage_version: None,
    }
}

/// The stake recorded in `stakes` for `a` (0 when none is).
pub open spec fn stake_in(stakes: Map<u64, i128>, a: Address) -> int {
    if stakes.contains_key(a.id) {
        stakes[a.id] as int
    } else {
        0
    }
}

/// The sum of the stakes of the stakers in `list`.
pub open spec fn stake_sum(list: Seq<Address>, stakes: Map<u64, i128>) -> int
    decreases list.len(),
{
    if list.len() == 0 {
        0
    } else {
        stake_sum(list.drop_last(), stakes) + stake_in(stakes, list.last())
    }
}

/// Appending a staker adds their stake to the sum.
pub proof fn lemma_stake_sum_push(list: Seq<Address>, stakes: Map<u64, i128>, a: Address)
    ensures
        stake_sum(list.push(a), stakes) == stake_sum(list, stakes) + stake_in(stakes, a),
{
    assert(list.push(a).drop_last() =~= list);
}

/// Setting the stake of someone not in `list` leaves the sum unchanged.
pub proof fn lemma_stake_sum_other(list: Seq<Address>, stakes: Map<u64, i128>, a: Address, amount: i128)
    requires
        !list.contains(a),
    ensures
        stake_sum(list, stakes.insert(a.id, amount)) == stake_sum(list, stakes),
    decreases list.len(),
{
    if list.len() > 0 {
        let rest = list.drop_last();
        assert(!rest.contains(a)) by {
            if rest.contains(a) {
                let i = choose|i: int| 0 <= i < rest.len() && rest[i] == a;
                assert(list[i] == a);
            }
        }
        lemma_stake_sum_other(rest, stakes, a, amount);
        assert(list.last() != a) by {
            if list.last() == a {
                assert(list[list.len() - 1] == a);
            }
        }
        assert(list.last().id != a.id);
    }
}

/// Replacing the stake of a staker listed once changes the sum by the
/// difference.
pub proof fn lemma_stake_sum_replace(list: Seq<Address>, stakes: Map<u64, i128>, a: Address, amount: i128)
    requires
        list.contains(a),
        list.no_duplicates(),
    ensures
        stake_sum(list, stakes.insert(a.id, amount)) == stake_sum(list, stakes) - stake_in(stakes, a) + amount,
    decreases list.len(),
{
    let rest = list.drop_last();
    assert(rest.no_duplicates());
    if list.last() == a {
        assert(!rest.contains(a)) by {
            if rest.contains(a) {
                let i = choose|i: int| 0 <= i < rest.len() && rest[i] == a;
                assert(list[i] == list[list.len() - 1]);
            }
        }
        lemma_stake_sum_other(rest, stakes, a, amount);
    } else {
        assert(rest.contains(a)) by {
            let i = choose|i: int| 0 <= i < list.len() && list[i] == a;
            assert(i != list.len() - 1);
            assert(rest[i] == a);
        }
        lemma_stake_sum_replace(rest, stakes, a, amount);
        assert(list.last().id != a.id);
    }
}

/// `s` with `a` appended unless it is already there.
pub open spec fn with_member(s: Seq<Address>, a: Address) -> Seq<Address> {
    if s.contains(a) {
        s
    } else {
        s.push(a)
    }
}

impl VaultView {
    /// Next deposit id of `d`.
    pub open spec fn counter(self, d: Address) -> u32 {
        if self.counters.contains_key(d.id) {
            self.counters[d.id]
        } else {
            0
        }
    }

    /// Open deposit ids of `d`, in creation order.
    pub open spec fn active(self, d: Address) -> Seq<u32> {
        if self.active_ids.contains_key(d.id) {
            self.active_ids[d.id]
        } else {
            Seq::empty()
        }
    }

    pub open spec fn has_deposit(self, d: Address, id: u32) -> bool {
        self.deposits.contains_key(deposit_key(d, id))
    }

    pub open spec fn deposit(self, d: Address, id: u32) -> DepositView {
        self.deposits[deposit_key(d, id)]
    }

    /// The timestamp deposit at `(d, id)`, if that is what sits there.
    pub open spec fn time_entry(self, d: Address, id: u32) -> Option<VaultEntry> {
        if self.has_deposit(d, id) {
            match self.deposit(d, id) {
                DepositView::Time(e) => Some(e),
                _ => None,
            }
        } else {
            None
        }
    }

    /// The ledger deposit at `(d, id)`, if that is what sits there.
    pub open spec fn ledger_entry(self, d: Address, id: u32) -> Option<LedgerVaultEntry> {
        if self.has_deposit(d, id) {
            match self.deposit(d, id) {
                DepositView::Ledger(e) => Some(e),
                _ => None,
            }
        } else {
            None
        }
    }

    /// The multi-token deposit at `(d, id)`, if that is what sits there.
    pub open spec fn multi_entry(self, d: Address, id: u32) -> Option<MultiTokenView> {
        if self.has_deposit(d, id) {
            match self.deposit(d, id) {
                DepositView::Multi(e) => Some(e),
                _ => None,
            }
        } else {
            None
        }
    }

    /// Next subscription id of `d`.
    pub open spec fn subscription_counter(self, d: Address) -> u32 {
        if self.subscription_counters.contains_key(d.id) {
            self.subscription_counters[d.id]
        } else {
            0
        }
    }

    /// The vault's invariant.
    pub open spec fn wf(self) -> bool {
        &&& forall|k: u128| #[trigger] self.deposits.contains_key(k) ==> deposit_valid(self.deposits[k])
        &&& forall|d: Address, id: u32| #[trigger]
            self.active(d).contains(id) <==> self.has_deposit(d, id)
        &&& forall|d: Address| #[trigger] self.active(d).no_duplicates()
        &&& forall|d: Address, id: u32| #[trigger]
            self.has_deposit(d, id) ==> id < self.counter(d)
        &&& self.depositors.no_duplicates()
        &&& forall|d: Address| #[trigger]
            self.depositors.contains(d) <==> self.active(d).len() > 0
        &&& forall|s: u32| #[trigger]
            self.emergency_totals.contains_key(s) ==> 0 <= self.emergency_totals[s]
                <= MAX_EMERGENCY_WITHDRAWAL_PER_LEDGER
        &&& forall|c: u32| #[trigger]
            self.claims.contains_key(c) ==> c < self.next_claim_id && self.claims[c].claim_id == c
                && self.claims[c].amount_requested > 0
        &&& self.staker_list.no_duplicates()
        &&& forall|a: Address| #[trigger]
            self.staker_list.contains(a) <==> self.stakers.contains_key(a.id)
        &&& forall|d: Address, id: u32| #[trigger]
            self.subscriptions.contains_key(deposit_key(d, id)) ==> id < self.subscription_counter(d)
        &&& forall|k: u128| #[trigger]
            self.subscriptions.contains_key(k) ==> self.subscriptions[k].amount > 0
                && self.subscriptions[k].penalty_bps <= 10_000
        &&& forall|s: u64| #[trigger] self.stakers.contains_key(s) ==> self.stakers[s] > 0
        &&& self.total_staked == stake_sum(self.staker_list, self.stakers)
        &&& !self.config.initialized ==> self.config == uninitialized_config()
    }

    /// Bookkeeping of a new deposit id for `d`: the counter advances, the id
    /// joins `d`'s open ids and `d` joins the depositor list.
    pub open spec fn open_id(self, d: Address) -> VaultView {
        let id = self.counter(d);
        VaultView {
            counters: self.counters.insert(d.id, (id + 1) as u32),
            active_ids: self.active_ids.insert(d.id, self.active(d).push(id)),
            depositors: with_member(self.depositors, d),
            ..self
        }
    }

    /// The state after `d` opens the deposit `dep` under its next id.
    pub open spec fn with_new_deposit(self, d: Address, dep: DepositView) -> VaultView {
        let id = self.counter(d);
        let o = self.open_id(d);
        VaultView { deposits: o.deposits.insert(deposit_key(d, id), dep), ..o }
    }

    /// The state after the deposit `(d, id)` is closed: it leaves the deposit
    /// table, its whitelist is dropped, its id leaves `d`'s open ids, and `d`
    /// leaves the depositor list when that was its last open deposit.
    pub open spec fn closed(self, d: Address, id: u32) -> VaultView {
        let k = deposit_key(d, id);
        let ids = without(self.active(d), id);
        VaultView {
            deposits: self.deposits.remove(k),
            whitelists: self.whitelists.remove(k),
            active_ids: self.active_ids.insert(d.id, ids),
            depositors: if ids.len() == 0 {
                without(self.depositors, d)
            } else {
                self.depositors
            },
            ..self
        }
    }
}

/// The invariant depends only on the deposit bookkeeping, the emergency
/// totals, the claims, the stakers and the subscriptions.
pub proof fn lemma_wf_frame(a: VaultView, b: VaultView)
    requires
        a.wf(),
        b.deposits == a.deposits,
        b.active_ids == a.active_ids,
        b.counters == a.counters,
        b.depositors == a.depositors,
        b.emergency_totals == a.emergency_totals,
        b.claims == a.claims,
        b.next_claim_id == a.next_claim_id,
        b.total_staked == a.total_staked,
        !b.config.initialized ==> b.config == uninitialized_config(),
        b.staker_list == a.staker_list,
        b.stakers == a.stakers,
        b.subscriptions == a.subscriptions,
        b.subscription_counters == a.subscription_counters,
    ensures
        b.wf(),
{
    assert forall|d: Address| #[trigger] b.active(d) == a.active(d) by {}
    assert forall|d: Address| #[trigger] b.counter(d) == a.counter(d) by {}
    assert forall|d: Address| #[trigger] b.subscription_counter(d) == a.subscription_counter(d) by {}
    assert forall|d: Address, id: u32| #[trigger] b.has_deposit(d, id) == a.has_deposit(d, id) by {}
}

/// Changing only the subscription records keeps the invariant as long as
/// every subscription sits under an id its owner has already drawn and
/// carries a positive amount and a penalty of at most 100%.
pub proof fn lemma_wf_subscriptions(a: VaultView, b: VaultView)
    requires
        a.wf(),
        b.deposits == a.deposits,
        b.active_ids == a.active_ids,
        b.counters == a.counters,
        b.depositors == a.depositors,
        b.emergency_totals == a.emergency_totals,
        b.claims == a.claims,
        b.next_claim_id == a.next_claim_id,
        b.total_staked == a.total_staked,
        !b.config.initialized ==> b.config == uninitialized_config(),
        b.staker_list == a.staker_list,
        b.stakers == a.stakers,
        forall|d: Address, id: u32| #[trigger]
            b.subscriptions.contains_key(deposit_key(d, id)) ==> id < b.subscription_counter(d),
        forall|k: u128| #[trigger]
            b.subscriptions.contains_key(k) ==> b.subscriptions[k].amount > 0
                && b.subscriptions[k].penalty_bps <= 10_000,
    ensures
        b.wf(),
{
    assert forall|d: Address| #[trigger] b.active(d) == a.active(d) by {}
    assert forall|d: Address| #[trigger] b.counter(d) == a.counter(d) by {}
    assert forall|d: Address, id: u32| #[trigger] b.has_deposit(d, id) == a.has_deposit(d, id) by {}
}

/// Changing only the claims keeps the invariant as long as every claim
/// sits under an id below the claim counter, carries that id and requests a
/// positive amount.
pub proof fn lemma_wf_claims(a: VaultView, b: VaultView)
    requires
        a.wf(),
        b.deposits == a.deposits,
        b.active_ids == a.active_ids,
        b.counters == a.counters,
        b.depositors == a.depositors,
        b.emergency_totals == a.emergency_totals,
        b.total_staked == a.total_staked,
        !b.config.initialized ==> b.config == uninitialized_config(),
        b.staker_list == a.staker_list,
        b.stakers == a.stakers,
        b.subscriptions == a.subscriptions,
        b.subscription_counters == a.subscription_counters,
        forall|c: u32| #[trigger]
            b.claims.contains_key(c) ==> c < b.next_claim_id && b.claims[c].claim_id == c
                && b.claims[c].amount_requested > 0,
    ensures
        b.wf(),
{
    assert forall|d: Address| #[trigger] b.active(d) == a.active(d) by {}
    assert forall|d: Address| #[trigger] b.counter(d) == a.counter(d) by {}
    assert forall|d: Address| #[trigger] b.subscription_counter(d) == a.subscription_counter(d) by {}
    assert forall|d: Address, id: u32| #[trigger] b.has_deposit(d, id) == a.has_deposit(d, id) by {}
}

/// Replacing an open deposit by a valid one keeps the invariant.
pub proof fn lemma_replace_keeps_wf(a: VaultView, k: u128, dep: DepositView)
    requires
        a.wf(),
        a.deposits.contains_key(k),
        deposit_valid(dep),
    ensures
        (VaultView { deposits: a.deposits.insert(k, dep), ..a }).wf(),
{
    let b = VaultView { deposits: a.deposits.insert(k, dep), ..a };
    assert forall|d: Address| #[trigger] b.active(d) == a.active(d) by {}
    assert forall|d: Address| #[trigger] b.counter(d) == a.counter(d) by {}
    assert forall|d: Address| #[trigger] b.subscription_counter(d) == a.subscription_counter(d) by {}
    assert forall|d: Address, id: u32| #[trigger] b.has_deposit(d, id) == a.has_deposit(d, id) by {}
}

/// Opening a deposit under the next id keeps the invariant.
pub proof fn lemma_open_keeps_wf(v: VaultView, d: Address, dep: DepositView)
    requires
        v.wf(),
        v.counter(d) < u32::MAX,
        deposit_valid(dep),
    ensures
        v.with_new_deposit(d, dep).wf(),
        v.with_new_deposit(d, dep).counter(d) == v.counter(d) + 1,
        v.with_new_deposit(d, dep).active(d) == v.active(d).push(v.counter(d)),
{
    let id = v.counter(d);
    let w = v.with_new_deposit(d, dep);
    assert(!v.has_deposit(d, id));
    assert(!v.active(d).contains(id));
    assert forall|e: Address, j: u32| #[trigger] w.active(e).contains(j) <==> w.has_deposit(e, j) by {
        lemma_deposit_key_injective(e, j, d, id);
        if e == d {
            assert(w.active(e) == v.active(d).push(id));
            if w.active(e).contains(j) && j != id {
                let i = choose|i: int| 0 <= i < w.active(e).len() && w.active(e)[i] == j;
                assert(v.active(d)[i] == j);
            }
            if v.active(d).contains(j) {
                let i = choose|i: int| 0 <= i < v.active(d).len() && v.active(d)[i] == j;
                assert(w.active(e)[i] == j);
            }
            if j == id {
                assert(w.active(e)[v.active(d).len() as int] == j);
            }
        } else {
            assert(w.active(e) == v.active(e));
        }
    }
    assert forall|e: Address| #[trigger] w.active(e).no_duplicates() by {
        if e == d {
            let s = w.active(e);
            assert(s == v.active(d).push(id));
            assert(s[s.len() - 1] == id);
            assert(v.active(d).no_duplicates());
            assert forall|i: int, j: int| 0 <= i < s.len() && 0 <= j < s.len() && i != j implies s[i]
                != s[j] by {
                if i == s.len() - 1 {
                    assert(s[j] == v.active(d)[j]);
                    assert(v.active(d).contains(s[j]));
                } else if j == s.len() - 1 {
                    assert(s[i] == v.active(d)[i]);
                    assert(v.active(d).contains(s[i]));
                } else {
                    assert(s[i] == v.active(d)[i] && s[j] == v.active(d)[j]);
                }
            }
        } else {
            assert(w.active(e) == v.active(e));
        }
    }
    assert forall|e: Address, j: u32| #[trigger] w.has_deposit(e, j) implies j < w.counter(e) by {
        lemma_deposit_key_injective(e, j, d, id);
        if e.id != d.id {
            assert(w.counter(e) == v.counter(e));
            assert(v.has_deposit(e, j));
        } else {
            assert(e == d);
            if j != id {
                assert(v.has_deposit(e, j));
            }
        }
    }
    assert(w.depositors.no_duplicates()) by {
        if !v.depositors.contains(d) {
            let s = w.depositors;
            assert forall|i: int, j: int| 0 <= i < s.len() && 0 <= j < s.len() && i != j implies s[i]
                != s[j] by {
                if i == s.len() - 1 {
                    assert(v.depositors.contains(s[j]));
                } else if j == s.len() - 1 {
                    assert(v.depositors.contains(s[i]));
                }
            }
        }
    }
    assert forall|e: Address| #[trigger] w.depositors.contains(e) <==> w.active(e).len() > 0 by {
        if e == d {
            assert(w.depositors[w.depositors.len() - 1] == d || v.depositors.contains(d));
        } else {
            assert(w.active(e) == v.active(e));
            if w.depositors.contains(e) && !v.depositors.contains(d) {
                let i = choose|i: int| 0 <= i < w.depositors.len() && w.depositors[i] == e;
                assert(v.depositors[i] == e);
            }
            if v.depositors.contains(e) {
                let i = choose|i: int| 0 <= i < v.depositors.len() && v.depositors[i] == e;
                assert(w.depositors[i] == e);
            }
        }
    }
    assert forall|e: Address, j: u32| #[trigger] w.subscriptions.contains_key(deposit_key(e, j))
        implies j < w.subscription_counter(e) by {
        assert(v.subscriptions.contains_key(deposit_key(e, j)));
    }
}

/// Closing an open deposit keeps the invariant.
pub proof fn lemma_close_keeps_wf(v: VaultView, d: Address, id: u32)
    requires
        v.wf(),
        v.has_deposit(d, id),
    ensures
        v.closed(d, id).wf(),
        v.closed(d, id).active(d) == without(v.active(d), id),
        v.closed(d, id).counters == v.counters,
{
    let w = v.closed(d, id);
    lemma_without(v.active(d), id);
    lemma_without(v.depositors, d);
    assert forall|e: Address, j: u32| #[trigger] w.active(e).contains(j) <==> w.has_deposit(e, j) by {
        lemma_deposit_key_injective(e, j, d, id);
        if e != d {
            assert(w.active(e) == v.active(e));
        }
    }
    assert forall|e: Address| #[trigger] w.active(e).no_duplicates() by {
        if e != d {
            assert(w.active(e) == v.active(e));
        }
    }
    assert forall|e: Address, j: u32| #[trigger] w.has_deposit(e, j) implies j < w.counter(e) by {
        assert(v.has_deposit(e, j));
    }
    assert forall|e: Address| #[trigger] w.depositors.contains(e) <==> w.active(e).len() > 0 by {
        if e != d {
            assert(w.active(e) == v.active(e));
        } else {
            assert(v.active(d).contains(id));
        }
    }
    assert forall|e: Address, j: u32| #[trigger] w.subscriptions.contains_key(deposit_key(e, j))
        implies j < w.subscription_counter(e) by {
        assert(v.subscriptions.contains_key(deposit_key(e, j)));
    }
}

impl SafeHaven {
    /// A fresh, uninitialized vault.
    pub fn new() -> (s: SafeHaven)
        ensures
            s@.wf(),
            !s@.config.initialized,
            s@.config.admin.is_none(),
            s@.config.pending_admin.is_none(),
            s@.config.fee_recipient.is_none(),
            s@.config.max_deposit.is_none(),
            s@.config.max_lock_secs.is_none(),
            !s@.config.paused,
            s@.config.storage_version.is_none(),
            s@.deposits.is_empty(),
            s@.counters.is_empty(),
            s@.depositors.len() == 0,
            s@.config == uninitialized_config(),
            s@.active_ids.is_empty(),
            s@.whitelists.is_empty(),
            s@.auto_renewals.is_empty(),
            s@.stakers.is_empty(),
            s@.staker_list.len() == 0,
            s@.total_staked == 0,
            s@.rewards_pool == 0,
            s@.rewards_claimed.is_empty(),
            s@.archived.is_empty(),
            s@.archived_ledger.is_empty(),
            s@.subscription_counters.is_empty(),
            s@.subscriptions.is_empty(),
            s@.subscription_ids.is_empty(),
            s@.insurance_pools.is_empty(),
            s@.claims.is_empty(),
            s@.next_claim_id == 0,
            s@.emergency_totals.is_empty(),
            s@.farming_config.is_none(),
            s@.farming_states.is_empty(),
            s@.farming_rewards_claimed.is_empty(),
    {
        let s = SafeHaven {
            config: VaultConfig {
                initialized: false,
                admin: None,
                pending_admin: None,
                fee_recipient: None,
                max_deposit: None,
                max_lock_secs: None,
                paused: false,
                storage_version: None,
            },
            counters: HashMap::new(),
            deposits: HashMap::new(),
            active_ids: HashMap::new(),
            depositors: Vec::new(),
            whitelists: HashMap::new(),
            auto_renewals: HashMap::new(),
            stakers: HashMap::new(),
            staker_list: Vec::new(),
            total_staked: 0,
            rewards_pool: 0,
            rewards_claimed: HashMap::new(),
            archived: HashMap::new(),
            archived_ledger: HashMap::new(),
            subscription_counters: HashMap::new(),
            subscriptions: HashMap::new(),
            subscription_ids: HashMap::new(),
            insurance_pools: HashMap::new(),
            claims: HashMap::new(),
            next_claim_id: 0,
            emergency_totals: HashMap::new(),
            farming_config: None,
            farming_states: HashMap::new(),
            farming_rewards_claimed: HashMap::new(),
        };
        assert(s@.active_ids =~= Map::empty());
        assert(s@.deposits =~= Map::empty());
        assert(s@.whitelists =~= Map::empty());
        assert(s@.subscription_ids =~= Map::empty());
        s
    }

    /// The next deposit id of `d`.
    pub fn counter_of(&self, d: Address) -> (c: u32)
        ensures
            c == self@.counter(d),
    {
        match self.counters.get(&d.id) {
            Some(c) => *c,
            None => 0,
        }
    }

    /// Opens `dep` as `d`'s next deposit; returns its id.
    pub(crate) fn open_deposit(&mut self, d: Address, dep: Deposit) -> (id: u32)
        requires
            old(self)@.wf(),
            old(self)@.counter(d) < u32::MAX,
            deposit_valid(dep@),
        ensures
            id == old(self)@.counter(d),
            final(self)@ == old(self)@.with_new_deposit(d, dep@),
            final(self)@.wf(),
    {
        proof {
            lemma_open_keeps_wf(self@, d, dep@);
        }
        let ghost v = self@;
        let id = self.counter_of(d);
        self.counters.insert(d.id, id + 1);
        let k = make_deposit_key(d, id);
        self.deposits.insert(k, dep);
        let mut ids = match self.active_ids.remove(&d.id) {
            Some(ids) => ids,
            None => Vec::new(),
        };
        assert(ids@ == v.active(d));
        ids.push(id);
        self.active_ids.insert(d.id, ids);
        if !contains_address(&self.depositors, d) {
            self.depositors.push(d);
        }
        assert(self@.active_ids =~= v.with_new_deposit(d, dep@).active_ids);
        assert(self@.deposits =~= v.with_new_deposit(d, dep@).deposits);
        assert(self@ =~= v.with_new_deposit(d, dep@));
        id
    }

    /// Closes the open deposit `(d, id)` and returns it.
    pub(crate) fn close_deposit(&mut self, d: Address, id: u32) -> (dep: Deposit)
        requires
            old(self)@.wf(),
            old(self)@.has_deposit(d, id),
        ensures
            dep@ == old(self)@.deposit(d, id),
            final(self)@ == old(self)@.closed(d, id),
            final(self)@.wf(),
    {
        proof {
            lemma_close_keeps_wf(self@, d, id);
        }
        let ghost v = self@;
        let k = make_deposit_key(d, id);
        let dep = self.deposits.remove(&k).unwrap();
        self.whitelists.remove(&k);
        let old_ids = match self.active_ids.remove(&d.id) {
            Some(ids) => ids,
            None => Vec::new(),
        };
        assert(old_ids@ == v.active(d));
        let ids = without_id(&old_ids, id);
        let empty = ids.len() == 0;
        self.active_ids.insert(d.id, ids);
        if empty {
            self.depositors = without_address(&self.depositors, d);
        }
        assert(self@.active_ids =~= v.closed(d, id).active_ids);
        assert(self@.deposits =~= v.closed(d, id).deposits);
        assert(self@.whitelists =~= v.closed(d, id).whitelists);
        assert(self@ =~= v.closed(d, id));
        dep
    }
}

} // verus!
