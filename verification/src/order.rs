//! Stable ordering of a list by ranks.

use vstd::prelude::*;

verus! {

/// What a list is ordered by: the first value decides, then the second, then the third.
#[derive(Debug, Clone, Copy, PartialEq, Eq, Structural)]
pub struct Rank {
    pub first: i128,
    pub second: i128,
    pub third: i128,
}

impl Rank {
    /// This rank comes before `other`.
    pub open spec fn is_below(self, other: Rank) -> bool {
        self.first < other.first || self.first == other.first && (self.second < other.second
            || self.second == other.second && self.third < other.third)
    }

    /// Whether this rank comes before `other`.
    pub fn below(&self, other: &Rank) -> (r: bool)
        ensures
            r == self.is_below(*other),
    {
        self.first < other.first || self.first == other.first && (self.second < other.second
            || self.second == other.second && self.third < other.third)
    }
}

/// Item `a` of a list with these ranks is put before item `b`: its rank is lower, or
/// it is the same and `a` stood first already.
pub open spec fn precedes(ranks: Seq<Rank>, a: int, b: int) -> bool {
    ranks[a].is_below(ranks[b]) || ranks[a] == ranks[b] && a < b
}

/// `order` lists the positions of a list with these ranks, each once, from the lowest
/// rank to the highest; items of one rank keep the order they had.
pub open spec fn is_order(ranks: Seq<Rank>, order: Seq<usize>) -> bool {
    &&& order.len() == ranks.len()
    &&& forall|i: int| 0 <= i < order.len() ==> (#[trigger] order[i]) < ranks.len()
    &&& forall|i: int, j: int| 0 <= i < j < order.len() ==> precedes(ranks, #[trigger] order[i] as int, #[trigger] order[j] as int)
    &&& forall|k: int| 0 <= k < ranks.len() ==> order.contains(#[trigger] (k as usize))
}

/// There is one order only.
pub proof fn order_is_unique(ranks: Seq<Rank>, a: Seq<usize>, b: Seq<usize>)
    requires
        is_order(ranks, a),
        is_order(ranks, b),
    ensures
        a == b,
{
    lemma_same_prefix(ranks, a, b, a.len() as int);
    assert(a =~= b);
}

/// Two orders agree on their first `n` positions.
proof fn lemma_same_prefix(ranks: Seq<Rank>, a: Seq<usize>, b: Seq<usize>, n: int)
    requires
        is_order(ranks, a),
        is_order(ranks, b),
        0 <= n <= a.len(),
    ensures
        forall|i: int| 0 <= i < n ==> a[i] == b[i],
    decreases n,
{
    if n > 0 {
        let i = n - 1;
        lemma_same_prefix(ranks, a, b, i);
        if a[i] != b[i] {
            lemma_not_first(ranks, a, b, i);
            lemma_not_first(ranks, b, a, i);
        }
    }
}

/// Where two orders first differ, the one does not come before the other.
proof fn lemma_not_first(ranks: Seq<Rank>, a: Seq<usize>, b: Seq<usize>, i: int)
    requires
        is_order(ranks, a),
        is_order(ranks, b),
        0 <= i < a.len(),
        forall|j: int| 0 <= j < i ==> a[j] == b[j],
        a[i] != b[i],
    ensures
        precedes(ranks, b[i] as int, a[i] as int),
{
    let k = a[i];
    assert(b.contains((k as int) as usize));
    let j = b.index_of(k);
    assert(b[j] == k && 0 <= j < b.len());
    if j < i {
        assert(a[j] == b[j]);
        assert(precedes(ranks, a[j] as int, a[i] as int));
    }
    assert(precedes(ranks, b[i] as int, b[j] as int));
}

/// The order of a list with these ranks.
pub fn order_of(ranks: &Vec<Rank>) -> (order: Vec<usize>)
    ensures
        is_order(ranks@, order@),
{
    let mut order: Vec<usize> = Vec::new();
    let mut k: usize = 0;
    assert(ranks@.take(0) =~= Seq::empty());
    while k < ranks.len()
        invariant
            k <= ranks.len(),
            is_order(ranks@.take(k as int), order@),
        decreases ranks.len() - k,
    {
        let ghost before = order@;
        let ghost known = ranks@.take(k as int);
        let ghost grown = ranks@.take(k + 1);
        let mut at: usize = order.len();
        while at > 0 && ranks[k].below(&ranks[order[at - 1]])
            invariant
                at <= order.len(),
                k < ranks.len(),
                order@ == before,
                known == ranks@.take(k as int),
                is_order(known, before),
                forall|i: int| at <= i < before.len() ==> ranks@[k as int].is_below(
                    ranks@[#[trigger] before[i] as int],
                ),
            decreases at,
        {
            at -= 1;
        }
        order.insert(at, k);
        proof {
            assert(order@ == before.insert(at as int, k));
            assert forall|i: int, j: int| 0 <= i < j < order@.len() implies precedes(
                grown,
                #[trigger] order@[i] as int,
                #[trigger] order@[j] as int,
            ) by {
                let bi = if i < at {
                    i
                } else {
                    i - 1
                };
                let bj = if j < at {
                    j
                } else {
                    j - 1
                };
                if i != at && j != at {
                    assert(order@[i] == before[bi] && order@[j] == before[bj]);
                    assert(precedes(known, before[bi] as int, before[bj] as int));
                } else if j == at {
                    assert(order@[i] == before[i]);
                    assert(!ranks@[k as int].is_below(ranks@[before[at - 1] as int]));
                    if i < at - 1 {
                        assert(precedes(known, before[i] as int, before[at - 1] as int));
                    }
                } else {
                    assert(order@[j] == before[bj]);
                }
            }
            assert forall|m: int| 0 <= m < grown.len() implies order@.contains(
                #[trigger] (m as usize),
            ) by {
                if m == k {
                    assert(order@[at as int] == m as usize);
                } else {
                    assert(before.contains(m as usize));
                    let p = before.index_of(m as usize);
                    assert(order@[if p < at {
                        p
                    } else {
                        p + 1
                    }] == m as usize);
                }
            }
        }
        k += 1;
    }
    assert(ranks@.take(k as int) =~= ranks@);
    order
}

} // verus!
