use vstd::prelude::*;

verus! {

/// An account or contract on the ledger, identified by a stable numeric id.
///
/// The vault only ever compares addresses for equality and uses them as
/// keys, so an injective numeric id carries everything its logic reads.
#[derive(Clone, Copy, Debug, PartialEq, Eq, Hash, Structural)]
pub struct Address {
    pub id: u64,
}

impl Address {
    pub fn new(id: u64) -> (r: Address)
        ensures
            r.id == id,
    {
        Address { id }
    }
}

/// Key of a per-deposit record: the depositor's id in the high bits, the
/// deposit id in the low 32 bits.
pub open spec fn deposit_key(depositor: Address, id: u32) -> u128 {
    ((depositor.id as int) * 0x1_0000_0000 + (id as int)) as u128
}

pub proof fn lemma_deposit_key_injective(a: Address, i: u32, b: Address, j: u32)
    ensures
        deposit_key(a, i) == deposit_key(b, j) <==> (a == b && i == j),
{
    let x = (a.id as int) * 0x1_0000_0000 + (i as int);
    let y = (b.id as int) * 0x1_0000_0000 + (j as int);
    assert(0 <= x <= u128::MAX && 0 <= y <= u128::MAX) by (nonlinear_arith)
        requires
            x == (a.id as int) * 0x1_0000_0000 + (i as int),
            y == (b.id as int) * 0x1_0000_0000 + (j as int),
            0 <= a.id <= u64::MAX,
            0 <= b.id <= u64::MAX,
            0 <= i < 0x1_0000_0000,
            0 <= j < 0x1_0000_0000,
    ;
    assert(x == y ==> a.id == b.id && i == j) by (nonlinear_arith)
        requires
            x == (a.id as int) * 0x1_0000_0000 + (i as int),
            y == (b.id as int) * 0x1_0000_0000 + (j as int),
            0 <= i < 0x1_0000_0000,
            0 <= j < 0x1_0000_0000,
    ;
}

pub fn make_deposit_key(depositor: Address, id: u32) -> (k: u128)
    ensures
        k == deposit_key(depositor, id),
{
    assert((depositor.id as u128) * 0x1_0000_0000u128 + (id as u128) <= u128::MAX) by (nonlinear_arith)
        requires
            depositor.id <= u64::MAX,
            id <= u32::MAX,
    ;
    (depositor.id as u128) * 0x1_0000_0000u128 + (id as u128)
}

} // verus!
