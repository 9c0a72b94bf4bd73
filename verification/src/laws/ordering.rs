//! What ordering by ranks comes to.

use vstd::prelude::*;

use crate::order;
use crate::order::Rank;

verus! {

/// The first value of a rank decides, where it is the same the second, and then the third.
pub proof fn ranks_are_compared_in_turn(a: Rank, b: Rank, r: bool)
    requires
        call_ensures(Rank::below, (&a, &b), r),
    ensures
        a.first < b.first ==> r,
        a.first > b.first ==> !r,
        a.first == b.first && a.second < b.second ==> r,
        a.first == b.first && a.second > b.second ==> !r,
        a.first == b.first && a.second == b.second ==> r == (a.third < b.third),
{
}

/// An order names every item once and no other. Of two items the one with the lower rank
/// stands first, and of two with the same rank the one that stood first before.
pub proof fn orders_are_sorted_and_complete(ranks: Vec<Rank>, r: Vec<usize>)
    requires
        call_ensures(order::order_of, (&ranks,), r),
    ensures
        r@.len() == ranks@.len(),
        forall|k: int| 0 <= k < ranks@.len() ==> r@.contains(#[trigger] (k as usize)),
        forall|i: int, j: int|
            0 <= i < j < r@.len() ==> {
                let a = ranks@[#[trigger] r@[i] as int];
                let b = ranks@[#[trigger] r@[j] as int];
                &&& r@[i] != r@[j]
                &&& r@[i] < ranks@.len() && r@[j] < ranks@.len()
                &&& a.first <= b.first
                &&& a.first == b.first ==> a.second <= b.second
                &&& a.first == b.first && a.second == b.second ==> a.third <= b.third
                &&& a == b ==> r@[i] < r@[j]
            },
{
    assert forall|i: int, j: int| 0 <= i < j < r@.len() implies {
        let a = ranks@[#[trigger] r@[i] as int];
        let b = ranks@[#[trigger] r@[j] as int];
        &&& r@[i] != r@[j]
        &&& r@[i] < ranks@.len() && r@[j] < ranks@.len()
        &&& a.first <= b.first
        &&& a.first == b.first ==> a.second <= b.second
        &&& a.first == b.first && a.second == b.second ==> a.third <= b.third
        &&& a == b ==> r@[i] < r@[j]
    } by {
        assert(order::precedes(ranks@, r@[i] as int, r@[j] as int));
    }
}

} // verus!
