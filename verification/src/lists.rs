//! Ordered lists without duplicates: membership, appending and removal.
use vstd::prelude::*;
use crate::address::Address;

verus! {

/// `s` with every occurrence of `x` removed, order kept.
pub open spec fn without<A>(s: Seq<A>, x: A) -> Seq<A> {
    s.filter(|a: A| a != x)
}

/// Removing `x` keeps exactly the other elements, keeps a list free of
/// duplicates, and changes nothing when `x` is absent.
pub proof fn lemma_without<A>(s: Seq<A>, x: A)
    ensures
        forall|y: A| #[trigger] without(s, x).contains(y) <==> (s.contains(y) && y != x),
        s.no_duplicates() ==> without(s, x).no_duplicates(),
        !s.contains(x) ==> without(s, x) == s,
        without(s, x).len() <= s.len(),
    decreases s.len(),
{
    reveal(Seq::filter);
    let f = |a: A| a != x;
    if s.len() == 0 {
        assert(without(s, x) =~= s);
    } else {
        let t = s.drop_last();
        lemma_without(t, x);
        assert(without(s, x) == (if f(s.last()) {
            without(t, x).push(s.last())
        } else {
            without(t, x)
        }));
        assert forall|y: A| #[trigger] without(s, x).contains(y) <==> (s.contains(y) && y != x) by {
            if s.contains(y) && y != x {
                let i = choose|i: int| 0 <= i < s.len() && s[i] == y;
                if i < s.len() - 1 {
                    assert(t[i] == y);
                    assert(without(t, x).contains(y));
                    let j = choose|j: int| 0 <= j < without(t, x).len() && without(t, x)[j] == y;
                    if f(s.last()) {
                        assert(without(s, x)[j] == y);
                    }
                } else {
                    assert(without(s, x)[without(s, x).len() - 1] == y);
                }
            }
            if without(s, x).contains(y) {
                let j = choose|j: int| 0 <= j < without(s, x).len() && without(s, x)[j] == y;
                if f(s.last()) && j == without(s, x).len() - 1 {
                    assert(s[s.len() - 1] == y);
                } else {
                    assert(without(t, x)[j] == y);
                    assert(without(t, x).contains(y));
                    let i = choose|i: int| 0 <= i < t.len() && t[i] == y;
                    assert(s[i] == y);
                }
            }
        }
        if s.no_duplicates() {
            assert(t.no_duplicates()) by {
                assert forall|i: int, j: int|
                    0 <= i < t.len() && 0 <= j < t.len() && i != j implies t[i] != t[j] by {
                    assert(t[i] == s[i] && t[j] == s[j]);
                }
            }
            if f(s.last()) {
                assert(!t.contains(s.last())) by {
                    if t.contains(s.last()) {
                        let i = choose|i: int| 0 <= i < t.len() && t[i] == s.last();
                        assert(s[i] == s[s.len() - 1]);
                    }
                }
                assert(!without(t, x).contains(s.last()));
                let w = without(s, x);
                assert forall|i: int, j: int|
                    0 <= i < w.len() && 0 <= j < w.len() && i != j implies w[i] != w[j] by {
                    if i == w.len() - 1 {
                        assert(without(t, x)[j] == w[j]);
                    } else if j == w.len() - 1 {
                        assert(without(t, x)[i] == w[i]);
                    } else {
                        assert(without(t, x)[i] == w[i] && without(t, x)[j] == w[j]);
                    }
                }
            }
        }
        if !s.contains(x) {
            assert(!t.contains(x)) by {
                if t.contains(x) {
                    let i = choose|i: int| 0 <= i < t.len() && t[i] == x;
                    assert(s[i] == x);
                }
            }
            assert(s.last() != x);
            assert(s =~= t.push(s.last()));
        }
    }
}

/// Removing `x` from a list that just had `x` appended undoes the append's
/// effect on the other elements.
pub proof fn lemma_without_push<A>(s: Seq<A>, x: A)
    ensures
        without(s.push(x), x) == without(s, x),
{
    reveal(Seq::filter);
    assert(s.push(x).drop_last() =~= s);
}

/// Whether `x` occurs in `v`.
pub fn contains_address(v: &Vec<Address>, x: Address) -> (b: bool)
    ensures
        b == v@.contains(x),
{
    let mut i: usize = 0;
    while i < v.len()
        invariant
            i <= v.len(),
            forall|j: int| 0 <= j < i ==> v@[j] != x,
        decreases v.len() - i,
    {
        if v[i] == x {
            assert(v@[i as int] == x);
            return true;
        }
        i = i + 1;
    }
    false
}

/// `v` without `x`, order kept.
pub fn without_address(v: &Vec<Address>, x: Address) -> (r: Vec<Address>)
    ensures
        r@ == without(v@, x),
{
    let mut r: Vec<Address> = Vec::new();
    let mut i: usize = 0;
    while i < v.len()
        invariant
            i <= v.len(),
            r@ == without(v@.subrange(0, i as int), x),
        decreases v.len() - i,
    {
        proof {
            reveal(Seq::filter);
            assert(v@.subrange(0, i + 1).drop_last() =~= v@.subrange(0, i as int));
        }
        if v[i] != x {
            r.push(v[i]);
        }
        i = i + 1;
    }
    assert(v@.subrange(0, v.len() as int) =~= v@);
    r
}

/// `v` without `x`, order kept.
pub fn without_id(v: &Vec<u32>, x: u32) -> (r: Vec<u32>)
    ensures
        r@ == without(v@, x),
{
    let mut r: Vec<u32> = Vec::new();
    let mut i: usize = 0;
    while i < v.len()
        invariant
            i <= v.len(),
            r@ == without(v@.subrange(0, i as int), x),
        decreases v.len() - i,
    {
        proof {
            reveal(Seq::filter);
            assert(v@.subrange(0, i + 1).drop_last() =~= v@.subrange(0, i as int));
        }
        if v[i] != x {
            r.push(v[i]);
        }
        i = i + 1;
    }
    assert(v@.subrange(0, v.len() as int) =~= v@);
    r
}

} // verus!
