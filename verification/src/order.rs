//! Ordering rows the way the listing queries present them.

use vstd::multiset::Multiset;
use vstd::prelude::*;

verus! {

broadcast use vstd::seq_lib::group_to_multiset_ensures, vstd::seq_lib::to_multiset_insert;

/// Rows with a total preorder: the order in which a listing presents them.
pub trait Ranked: Sized {
    /// Whether `a` may stand before `b` in a listing.
    spec fn precedes(a: Self, b: Self) -> bool;

    /// Of two rows, one may stand before the other.
    proof fn lemma_precedes_total(a: Self, b: Self)
        ensures
            Self::precedes(a, b) || Self::precedes(b, a),
    ;

    /// Standing before is transitive.
    proof fn lemma_precedes_transitive(a: Self, b: Self, c: Self)
        requires
            Self::precedes(a, b),
            Self::precedes(b, c),
        ensures
            Self::precedes(a, c),
    ;

    /// Whether `self` may stand before `other`.
    fn may_precede(&self, other: &Self) -> (r: bool)
        ensures
            r == Self::precedes(*self, *other),
    ;
}

/// Every row of `s` may stand before each row after it.
pub open spec fn in_listing_order<T: Ranked>(s: Seq<T>) -> bool {
    forall|i: int, j: int| 0 <= i < j < s.len() ==> #[trigger] T::precedes(s[i], s[j])
}

/// Puts `rows` in listing order.
pub fn sort_for_listing<T: Ranked>(rows: Vec<T>) -> (r: Vec<T>)
    ensures
        r@.to_multiset() == rows@.to_multiset(),
        in_listing_order(r@),
{
    broadcast use vstd::multiset::group_multiset_axioms;

    let mut rest = rows;
    let mut out: Vec<T> = Vec::new();
    assert(rest@ == rows@);
    assert(out@.to_multiset().len() == 0);
    assert(out@.to_multiset() =~= Multiset::empty());
    while rest.len() > 0
        invariant
            out@.to_multiset().add(rest@.to_multiset()) == rows@.to_multiset(),
            in_listing_order(out@),
        decreases rest@.len(),
    {
        let ghost before = rest@;
        let x = rest.remove(0);
        let mut p: usize = 0;
        while p < out.len() && out[p].may_precede(&x)
            invariant
                p <= out@.len(),
                forall|k: int| 0 <= k < p ==> #[trigger] T::precedes(out@[k], x),
            decreases out@.len() - p,
        {
            p = p + 1;
        }
        proof {
            if p < out@.len() {
                T::lemma_precedes_total(out@[p as int], x);
            }
        }
        let ghost old_out = out@;
        out.insert(p, x);
        proof {
            let n = out@;
            assert(n == old_out.insert(p as int, x));
            assert forall|i: int, j: int| 0 <= i < j < n.len() implies #[trigger] T::precedes(
                n[i],
                n[j],
            ) by {
                if j < p {
                } else if i < p && j == p {
                } else if i < p && j > p {
                    assert(T::precedes(old_out[i], old_out[j - 1]));
                } else if i == p {
                    if j - 1 > p {
                        assert(T::precedes(old_out[p as int], old_out[j - 1]));
                        T::lemma_precedes_transitive(x, old_out[p as int], old_out[j - 1]);
                    }
                } else {
                    assert(T::precedes(old_out[i - 1], old_out[j - 1]));
                }
            }
            assert(rest@ == before.remove(0));
            assert(rest@.to_multiset() == before.to_multiset().remove(x));
            assert(out@.to_multiset() == old_out.to_multiset().insert(x));
            assert(before.contains(x)) by {
                assert(before[0] == x);
            }
            assert(before.to_multiset().count(x) > 0);
            assert(out@.to_multiset().add(rest@.to_multiset()) =~= old_out.to_multiset().add(
                before.to_multiset(),
            ));
        }
    }
    assert(rest@.to_multiset().len() == 0);
    assert(rest@.to_multiset() =~= Multiset::empty());
    out
}

} // verus!
