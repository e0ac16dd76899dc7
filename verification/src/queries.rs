//! Read-only queries over deposits and configuration.
use vstd::prelude::*;
use crate::address::{Address, deposit_key, make_deposit_key};
use crate::constants::{LEDGER_SECONDS, MAX_BATCH_SIZE};
use crate::arith::clamp_u64;
use crate::interest::{accrued_amount, compute_accrued_amount};
use crate::types::{DepositType, LedgerInfo, LedgerVaultEntry, MultiTokenVaultEntry, Page, VaultEntry};
use crate::vault::{Deposit, DepositView, SafeHaven, VaultView};

verus! {

broadcast use vstd::std_specs::hash::group_hash_axioms;

/// The kind of deposit at `(d, id)`.
pub open spec fn deposit_type_of(v: VaultView, d: Address, id: u32) -> Option<DepositType> {
    if v.has_deposit(d, id) {
        match v.deposit(d, id) {
            DepositView::Time(_) => Some(DepositType::TimeBased),
            DepositView::Ledger(_) => Some(DepositType::LedgerBased),
            DepositView::Multi(_) => Some(DepositType::MultiToken),
        }
    } else {
        None
    }
}

/// Cumulative emergency withdrawals recorded for ledger `sequence`.
pub open spec fn emergency_total_of(v: VaultView, sequence: u32) -> i128 {
    if v.emergency_totals.contains_key(sequence) {
        v.emergency_totals[sequence]
    } else {
        0
    }
}

/// Seconds until `(d, id)` unlocks: exact for timestamp and multi-token
/// deposits, `remaining_ledgers * LEDGER_SECONDS` for ledger deposits, 0 when
/// unlocked or absent.
pub open spec fn time_remaining_of(v: VaultView, ledger: LedgerInfo, d: Address, id: u32) -> u64 {
    if v.has_deposit(d, id) {
        match v.deposit(d, id) {
            DepositView::Time(e) => if e.unlock_time > ledger.timestamp {
                (e.unlock_time - ledger.timestamp) as u64
            } else {
                0
            },
            DepositView::Ledger(e) => if ledger.sequence >= e.unlock_ledger {
                0
            } else {
                clamp_u64((e.unlock_ledger - ledger.sequence) * LEDGER_SECONDS)
            },
            DepositView::Multi(e) => if e.unlock_time > ledger.timestamp {
                (e.unlock_time - ledger.timestamp) as u64
            } else {
                0
            },
        }
    } else {
        0
    }
}

impl SafeHaven {
    /// Whether `(depositor, deposit_id)` is a timestamp, ledger or multi-token
    /// deposit; `None` when there is none.
    pub fn get_deposit_type(&self, depositor: Address, deposit_id: u32) -> (r: Option<DepositType>)
        ensures
            r == deposit_type_of(self@, depositor, deposit_id),
    {
        let k = make_deposit_key(depositor, deposit_id);
        match self.deposits.get(&k) {
            Some(Deposit::Time(_)) => Some(DepositType::TimeBased),
            Some(Deposit::Ledger(_)) => Some(DepositType::LedgerBased),
            Some(Deposit::Multi(_)) => Some(DepositType::MultiToken),
            None => None,
        }
    }

    /// The timestamp deposit at `(depositor, deposit_id)`.
    pub fn get_vault(&self, depositor: Address, deposit_id: u32) -> (r: Option<VaultEntry>)
        ensures
            r == self@.time_entry(depositor, deposit_id),
    {
        let k = make_deposit_key(depositor, deposit_id);
        match self.deposits.get(&k) {
            Some(Deposit::Time(e)) => Some(*e),
            _ => None,
        }
    }

    /// The ledger deposit at `(depositor, deposit_id)`.
    pub fn get_ledger_vault(&self, depositor: Address, deposit_id: u32) -> (r: Option<LedgerVaultEntry>)
        ensures
            r == self@.ledger_entry(depositor, deposit_id),
    {
        let k = make_deposit_key(depositor, deposit_id);
        match self.deposits.get(&k) {
            Some(Deposit::Ledger(e)) => Some(*e),
            _ => None,
        }
    }

    /// The multi-token deposit at `(depositor, deposit_id)`.
    pub fn get_multi_vault(&self, depositor: Address, deposit_id: u32) -> (r: Option<MultiTokenVaultEntry>)
        ensures
            match r {
                Some(e) => self@.multi_entry(depositor, deposit_id) == Some(e@),
                None => self@.multi_entry(depositor, deposit_id).is_none(),
            },
    {
        let k = make_deposit_key(depositor, deposit_id);
        match self.deposits.get(&k) {
            Some(Deposit::Multi(e)) => Some(e.copy()),
            _ => None,
        }
    }

    /// Cumulative emergency withdrawals of ledger `ledger_sequence` (0 when none).
    pub fn get_emergency_withdrawal_total(&self, ledger_sequence: u32) -> (r: i128)
        ensures
            r == emergency_total_of(self@, ledger_sequence),
    {
        match self.emergency_totals.get(&ledger_sequence) {
            Some(v) => *v,
            None => 0,
        }
    }
}


/// The entries of `d`'s deposits `ids` that are timestamp deposits, as
/// `(depositor, id, entry)` triples in order.
pub open spec fn time_entries_of(v: VaultView, d: Address, ids: Seq<u32>) -> Seq<(Address, u32, VaultEntry)>
    decreases ids.len(),
{
    if ids.len() == 0 {
        Seq::empty()
    } else {
        let id = ids.last();
        time_entries_of(v, d, ids.drop_last()) + match v.time_entry(d, id) {
            Some(e) => seq![(d, id, e)],
            None => Seq::empty(),
        }
    }
}

/// All open timestamp deposits of the depositors `ds`, depositor by
/// depositor, each depositor's in creation order.
pub open spec fn flat_time_deposits(v: VaultView, ds: Seq<Address>) -> Seq<(Address, u32, VaultEntry)>
    decreases ds.len(),
{
    if ds.len() == 0 {
        Seq::empty()
    } else {
        flat_time_deposits(v, ds.drop_last()) + time_entries_of(v, ds.last(), v.active(ds.last()))
    }
}

/// The items of `s` at positions `lo..hi`, clipped to `s`.
pub open spec fn window<A>(s: Seq<A>, lo: int, hi: int) -> Seq<A> {
    let a = if lo < s.len() { lo } else { s.len() as int };
    let b = if hi < s.len() { hi } else { s.len() as int };
    if a <= b {
        s.subrange(a, b)
    } else {
        Seq::empty()
    }
}

/// The first `min(len, MAX_BATCH_SIZE)` elements of `s`.
pub open spec fn batch_prefix<A>(s: Seq<A>) -> Seq<A> {
    if s.len() > MAX_BATCH_SIZE {
        s.subrange(0, MAX_BATCH_SIZE as int)
    } else {
        s
    }
}

proof fn lemma_window_push<A>(s: Seq<A>, x: A, lo: int, hi: int)
    requires
        0 <= lo <= hi,
    ensures
        window(s.push(x), lo, hi) == if lo <= s.len() < hi {
            window(s, lo, hi).push(x)
        } else {
            window(s, lo, hi)
        },
{
    if lo <= s.len() < hi {
        assert(window(s.push(x), lo, hi) =~= window(s, lo, hi).push(x));
    } else {
        assert(window(s.push(x), lo, hi) =~= window(s, lo, hi));
    }
}

impl SafeHaven {
    /// The timestamp deposit `deposit_id` of each of the first
    /// `MAX_BATCH_SIZE` depositors.
    pub fn get_vault_batch(&self, depositors: Vec<Address>, deposit_id: u32) -> (r: Vec<Option<VaultEntry>>)
        ensures
            r@ == batch_prefix(depositors@).map_values(|d: Address| self@.time_entry(d, deposit_id)),
    {
        let limit: usize = if depositors.len() > 25 {
            25
        } else {
            depositors.len()
        };
        let ghost want = batch_prefix(depositors@).map_values(|d: Address| self@.time_entry(d, deposit_id));
        let mut results: Vec<Option<VaultEntry>> = Vec::new();
        let mut i: usize = 0;
        while i < limit
            invariant
                i <= limit,
                limit == batch_prefix(depositors@).len(),
                limit <= depositors@.len(),
                want == batch_prefix(depositors@).map_values(|d: Address| self@.time_entry(d, deposit_id)),
                results@ == want.subrange(0, i as int),
            decreases limit - i,
        {
            results.push(self.get_vault(depositors[i], deposit_id));
            i = i + 1;
            assert(results@ =~= want.subrange(0, i as int));
        }
        assert(want.subrange(0, limit as int) =~= want);
        results
    }

    /// The timestamp deposit of `depositor` under each of the first
    /// `MAX_BATCH_SIZE` ids, paired with the id.
    pub fn get_deposit_batch(&self, depositor: Address, deposit_ids: Vec<u32>) -> (r: Vec<(u32, Option<VaultEntry>)>)
        ensures
            r@ == batch_prefix(deposit_ids@).map_values(|id: u32| (id, self@.time_entry(depositor, id))),
    {
        let limit: usize = if deposit_ids.len() > 25 {
            25
        } else {
            deposit_ids.len()
        };
        let ghost want = batch_prefix(deposit_ids@).map_values(|id: u32| (id, self@.time_entry(depositor, id)));
        let mut results: Vec<(u32, Option<VaultEntry>)> = Vec::new();
        let mut i: usize = 0;
        while i < limit
            invariant
                i <= limit,
                limit == batch_prefix(deposit_ids@).len(),
                limit <= deposit_ids@.len(),
                want == batch_prefix(deposit_ids@).map_values(|id: u32| (id, self@.time_entry(depositor, id))),
                results@ == want.subrange(0, i as int),
            decreases limit - i,
        {
            let id = deposit_ids[i];
            results.push((id, self.get_vault(depositor, id)));
            i = i + 1;
            assert(results@ =~= want.subrange(0, i as int));
        }
        assert(want.subrange(0, limit as int) =~= want);
        results
    }

    /// The open deposit ids of `depositor` (all kinds), in creation order.
    pub fn get_deposit_ids(&self, depositor: Address) -> (r: Vec<u32>)
        ensures
            r@ == self@.active(depositor),
    {
        match self.active_ids.get(&depositor.id) {
            Some(ids) => crate::types::copy_ids(ids),
            None => Vec::new(),
        }
    }

    /// Seconds until `(depositor, deposit_id)` unlocks (0 when unlocked or absent).
    pub fn time_remaining(&self, ledger: LedgerInfo, depositor: Address, deposit_id: u32) -> (r: u64)
        ensures
            r == time_remaining_of(self@, ledger, depositor, deposit_id),
    {
        let k = make_deposit_key(depositor, deposit_id);
        match self.deposits.get(&k) {
            Some(Deposit::Time(e)) => e.unlock_time.saturating_sub(ledger.timestamp),
            Some(Deposit::Ledger(e)) => {
                if ledger.sequence >= e.unlock_ledger {
                    0
                } else {
                    crate::arith::sat_mul_u64((e.unlock_ledger - ledger.sequence) as u64, LEDGER_SECONDS)
                }
            },
            Some(Deposit::Multi(e)) => e.unlock_time.saturating_sub(ledger.timestamp),
            None => 0,
        }
    }

    /// Seconds until the timestamp deposit `(depositor, deposit_id)` may be
    /// withdrawn, its withdrawal delay included (0 when withdrawable or absent).
    pub fn time_to_withdrawal(&self, ledger: LedgerInfo, depositor: Address, deposit_id: u32) -> (r: u64)
        ensures
            r == match self@.time_entry(depositor, deposit_id) {
                Some(e) => {
                    let end = clamp_u64(e.unlock_time + e.withdrawal_delay_secs);
                    if end > ledger.timestamp {
                        (end - ledger.timestamp) as u64
                    } else {
                        0
                    }
                },
                None => 0,
            },
    {
        match self.get_vault(depositor, deposit_id) {
            Some(e) => e.unlock_time.saturating_add(e.withdrawal_delay_secs).saturating_sub(ledger.timestamp),
            None => 0,
        }
    }

    /// The balance `withdraw` would release now from the timestamp deposit
    /// `(depositor, deposit_id)`, interest included; storage is not touched.
    pub fn get_current_balance(&self, ledger: LedgerInfo, depositor: Address, deposit_id: u32) -> (r: Option<i128>)
        ensures
            r == match self@.time_entry(depositor, deposit_id) {
                Some(e) => Some(
                    accrued_amount(e.amount, e.compound_frequency_secs, e.last_accrual_timestamp, ledger.timestamp),
                ),
                None => None,
            },
    {
        match self.get_vault(depositor, deposit_id) {
            Some(e) => Some(
                compute_accrued_amount(e.amount, e.compound_frequency_secs, e.last_accrual_timestamp, ledger.timestamp),
            ),
            None => None,
        }
    }

    /// Interest accrued and not yet compounded into the timestamp deposit
    /// `(depositor, deposit_id)` (0 when there is none).
    pub fn get_accrued_interest(&self, ledger: LedgerInfo, depositor: Address, deposit_id: u32) -> (r: i128)
        requires
            self@.wf(),
        ensures
            r == match self@.time_entry(depositor, deposit_id) {
                Some(e) => accrued_amount(
                    e.amount,
                    e.compound_frequency_secs,
                    e.last_accrual_timestamp,
                    ledger.timestamp,
                ) - e.amount,
                None => 0,
            },
    {
        match self.get_vault(depositor, deposit_id) {
            Some(e) => {
                assert(crate::vault::deposit_valid(self@.deposits[deposit_key(depositor, deposit_id)]));
                let a = compute_accrued_amount(
                    e.amount,
                    e.compound_frequency_secs,
                    e.last_accrual_timestamp,
                    ledger.timestamp,
                );
                a - e.amount
            },
            None => 0,
        }
    }

    /// Number of depositors with open deposits.
    pub fn get_depositor_count(&self) -> (r: u32)
        ensures
            r == if self@.depositors.len() <= u32::MAX {
                self@.depositors.len() as u32
            } else {
                u32::MAX
            },
    {
        let n = self.depositors.len();
        if n > 0xFFFF_FFFF {
            0xFFFF_FFFF
        } else {
            n as u32
        }
    }

    /// The depositors at positions `offset..offset + limit` of the depositor
    /// list, and the total count.
    pub fn get_depositors(&self, offset: u32, limit: u32) -> (r: Page)
        requires
            self@.depositors.len() <= u32::MAX,
        ensures
            r.items@ == window(self@.depositors, offset as int, offset + limit),
            r.total_count == self@.depositors.len(),
    {
        let len = self.depositors.len();
        let end64: u64 = (offset as u64) + (limit as u64);
        let end: usize = if end64 < len as u64 {
            end64 as usize
        } else {
            len
        };
        let mut items: Vec<Address> = Vec::new();
        let mut i: usize = offset as usize;
        let ghost want = window(self@.depositors, offset as int, offset + limit);
        if i < end {
            while i < end
                invariant
                    offset <= i <= end,
                    end <= len,
                    len == self@.depositors.len(),
                    end == if offset + limit < len { offset + limit } else { len as int },
                    items@ == self@.depositors.subrange(offset as int, i as int),
                decreases end - i,
            {
                items.push(self.depositors[i]);
                i = i + 1;
                assert(items@ =~= self@.depositors.subrange(offset as int, i as int));
            }
            assert(items@ =~= want);
        } else {
            assert(items@ =~= want);
        }
        Page { items, total_count: len as u32 }
    }

    /// The open timestamp deposits at positions `offset..offset + limit` of
    /// the list of all of them, depositor by depositor.
    pub fn get_deposits_page(&self, offset: u32, limit: u32) -> (r: Vec<(Address, u32, VaultEntry)>)
        ensures
            r@ == window(flat_time_deposits(self@, self@.depositors), offset as int, offset + limit),
    {
        let ghost v = self@;
        let lo: u64 = offset as u64;
        let hi: u64 = (offset as u64) + (limit as u64);
        let mut results: Vec<(Address, u32, VaultEntry)> = Vec::new();
        let mut global_index: u64 = 0;
        let ghost mut acc: Seq<(Address, u32, VaultEntry)> = Seq::empty();
        let mut i: usize = 0;
        while i < self.depositors.len()
            invariant
                i <= v.depositors.len(),
                v == self@,
                lo == offset,
                hi == offset + limit,
                acc == flat_time_deposits(v, v.depositors.subrange(0, i as int)),
                global_index == clamp_u64(acc.len() as int),
                results@ == window(acc, lo as int, hi as int),
            decreases v.depositors.len() - i,
        {
            let d = self.depositors[i];
            let ids = self.get_deposit_ids(d);
            let ghost acc0 = acc;
            let mut j: usize = 0;
            while j < ids.len()
                invariant
                    j <= ids@.len(),
                    ids@ == v.active(d),
                    v == self@,
                    lo == offset,
                    hi == offset + limit,
                    acc == acc0 + time_entries_of(v, d, ids@.subrange(0, j as int)),
                    global_index == clamp_u64(acc.len() as int),
                    results@ == window(acc, lo as int, hi as int),
                decreases ids@.len() - j,
            {
                let id = ids[j];
                proof {
                    let sub = ids@.subrange(0, j + 1);
                    assert(sub.drop_last() =~= ids@.subrange(0, j as int));
                    assert(sub.last() == id);
                }
                if let Some(e) = self.get_vault(d, id) {
                    proof {
                        lemma_window_push(acc, (d, id, e), lo as int, hi as int);
                    }
                    if lo <= global_index && global_index < hi {
                        results.push((d, id, e));
                    }
                    proof {
                        acc = acc.push((d, id, e));
                    }
                    global_index = global_index.saturating_add(1);
                }
                proof {
                    assert(acc =~= acc0 + time_entries_of(v, d, ids@.subrange(0, j + 1)));
                }
                j = j + 1;
            }
            proof {
                assert(ids@.subrange(0, ids@.len() as int) =~= ids@);
                let sub = v.depositors.subrange(0, i + 1);
                assert(sub.drop_last() =~= v.depositors.subrange(0, i as int));
                assert(sub.last() == d);
            }
            i = i + 1;
        }
        assert(v.depositors.subrange(0, v.depositors.len() as int) =~= v.depositors);
        results
    }
}

} // verus!
