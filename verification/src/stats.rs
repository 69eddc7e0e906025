//! Order statistics and the trend test over a price history.
//!
//! Prices come as whole numbers of one unit, of either sign and any size.
//! Every quantity derived from them is exact: the median is kept doubled,
//! and means are compared as cross products.

use crate::big::{
    ascending, big_add, big_copy, big_from, big_less, big_mul, big_sort, big_value, big_values,
};
use num_bigint::BigInt;
use vstd::prelude::*;
use vstd::relations::{sorted_by, total_ordering};
use vstd::seq_lib::{lemma_sorted_unique, to_multiset_len};

verus! {

/// The order by which prices are sorted.
pub open spec fn at_most() -> spec_fn(int, int) -> bool {
    |a: int, b: int| a <= b
}

/// The elements of `s` in ascending order.
pub open spec fn in_order(s: Seq<int>) -> Seq<int> {
    s.sort_by(at_most())
}

/// `in_order(s)` is ascending and holds the elements of `s`, each as often as
/// `s` does.
pub proof fn lemma_in_order(s: Seq<int>)
    ensures
        ascending(in_order(s)),
        in_order(s).to_multiset() == s.to_multiset(),
        in_order(s).len() == s.len(),
{
    assert(total_ordering(at_most()));
    s.lemma_sort_by_ensures(at_most());
    to_multiset_len(s);
    to_multiset_len(in_order(s));
    let t = in_order(s);
    assert forall|i: int, j: int| 0 <= i <= j < t.len() implies t[i] <= t[j] by {
        if i < j {
            assert(at_most()(t[i], t[j]));
        }
    }
}

/// An ascending rearrangement of `s` is `in_order(s)`: there is only one.
pub proof fn lemma_in_order_unique(s: Seq<int>, t: Seq<int>)
    requires
        ascending(t),
        t.to_multiset() == s.to_multiset(),
    ensures
        t == in_order(s),
{
    assert(total_ordering(at_most()));
    s.lemma_sort_by_ensures(at_most());
    assert(sorted_by(t, at_most()));
    lemma_sorted_unique(t, in_order(s), at_most());
}

/// An ascending copy of `values`.
pub fn sorted(values: &Vec<BigInt>) -> (r: Vec<BigInt>)
    ensures
        big_values(r@) == in_order(big_values(values@)),
{
    let mut copy: Vec<BigInt> = Vec::new();
    let mut i: usize = 0;
    while i < values.len()
        invariant
            i <= values@.len(),
            copy@.len() == i,
            forall|j: int| 0 <= j < i ==> big_value(#[trigger] copy@[j]) == big_value(values@[j]),
        decreases values@.len() - i,
    {
        copy.push(big_copy(&values[i]));
        i += 1;
    }
    assert(big_values(copy@) =~= big_values(values@));
    big_sort(&mut copy);
    proof {
        lemma_in_order_unique(big_values(values@), big_values(copy@));
    }
    copy
}

/// Twice the median of an ascending sequence: twice the middle element where
/// the length is odd, the sum of the two central elements where it is even
/// (so that their average is exact).
pub open spec fn median_twice(s: Seq<int>) -> int
    recommends
        s.len() > 0,
{
    let n = s.len() as int;
    if n % 2 == 1 {
        2 * s[n / 2]
    } else {
        s[n / 2 - 1] + s[n / 2]
    }
}

/// Twice the median of `sorted`.
pub fn median(sorted: &Vec<BigInt>) -> (r: BigInt)
    requires
        sorted@.len() > 0,
    ensures
        big_value(r) == median_twice(big_values(sorted@)),
        sorted@.len() % 2 == 1 ==> big_value(r) == 2 * big_value(sorted@[sorted@.len() as int / 2]),
        sorted@.len() % 2 == 0 ==> big_value(r) == big_value(sorted@[sorted@.len() as int / 2 - 1])
            + big_value(sorted@[sorted@.len() as int / 2]),
{
    let n: usize = sorted.len();
    if n % 2 == 1 {
        big_add(&sorted[n / 2], &sorted[n / 2])
    } else {
        big_add(&sorted[n / 2 - 1], &sorted[n / 2])
    }
}

/// The nearest rank of the 90th percentile among `n` ascending samples, as an
/// index: ceil(0.9 n) - 1, kept within `0 ..= n - 1`.
pub open spec fn rank_90(n: int) -> int
    recommends
        n > 0,
{
    let rank = (9 * n + 9) / 10 - 1;
    if rank < 0 {
        0
    } else if rank > n - 1 {
        n - 1
    } else {
        rank
    }
}

/// The 90th percentile of an ascending sequence by nearest rank.
pub open spec fn percentile_90_of(s: Seq<int>) -> int
    recommends
        s.len() > 0,
{
    s[rank_90(s.len() as int)]
}

/// The 90th percentile of `sorted` by nearest rank: no interpolation.
pub fn percentile_90(sorted: &Vec<BigInt>) -> (r: BigInt)
    requires
        sorted@.len() > 0,
    ensures
        big_value(r) == percentile_90_of(big_values(sorted@)),
{
    let n: usize = sorted.len();
    let index: usize = n - n / 10 - 1;
    assert(index == rank_90(n as int));
    big_copy(&sorted[index])
}

/// The sum of the elements of `s`.
pub open spec fn total(s: Seq<int>) -> int
    decreases s.len(),
{
    if s.len() == 0 {
        0
    } else {
        total(s.drop_last()) + s.last()
    }
}

/// The sum of a range grows by the element that the range is extended by.
proof fn lemma_total_extend(s: Seq<int>, from: int, to: int)
    requires
        0 <= from <= to < s.len(),
    ensures
        total(s.subrange(from, to + 1)) == total(s.subrange(from, to)) + s[to],
{
    assert(s.subrange(from, to + 1).drop_last() == s.subrange(from, to));
}

/// The sum of `values[from .. to]`.
pub fn sum_range(values: &Vec<BigInt>, from: usize, to: usize) -> (r: BigInt)
    requires
        from <= to <= values@.len(),
    ensures
        big_value(r) == total(big_values(values@).subrange(from as int, to as int)),
{
    let mut acc: BigInt = big_from(0);
    let mut i: usize = from;
    while i < to
        invariant
            from <= i <= to <= values@.len(),
            big_value(acc) == total(big_values(values@).subrange(from as int, i as int)),
        decreases to - i,
    {
        proof {
            lemma_total_extend(big_values(values@), from as int, i as int);
        }
        acc = big_add(&acc, &values[i]);
        i += 1;
    }
    acc
}

/// Whether the mean of the later half of `history` is strictly below the mean
/// of the earlier half. The halves part at index `len / 2`; a mean divides by
/// the half's length, or by one where the half is empty. The two means are
/// compared exactly, as cross products.
pub open spec fn trending_down(history: Seq<int>) -> bool {
    let n = history.len() as int;
    let mid = n / 2;
    let earlier = total(history.subrange(0, mid));
    let later = total(history.subrange(mid, n));
    let earlier_count = if mid < 1 { 1 } else { mid };
    let later_count = if n - mid < 1 { 1 } else { n - mid };
    later * earlier_count < earlier * later_count
}

/// An empty history has no trend. A history of one sample has an empty
/// earlier half, whose mean counts as zero: it trends down exactly when its
/// one price is below zero.
pub proof fn lemma_short_history_trend(history: Seq<int>)
    requires
        history.len() <= 1,
    ensures
        trending_down(history) == (history.len() == 1 && history[0] < 0),
{
    assert(total(history.subrange(0, 0)) == 0);
    if history.len() == 1 {
        let later = history.subrange(0, 1);
        assert(later.drop_last().len() == 0);
        assert(total(later) == total(later.drop_last()) + later.last());
        assert(total(later) == history[0]);
        assert((history[0] * 1 < 0 * 1) == (history[0] < 0)) by (nonlinear_arith);
    } else {
        assert(!(0 * 1 < 0 * 1));
    }
}

/// Whether prices fall over `history`, given oldest first.
pub fn is_trending_down(history: &Vec<BigInt>) -> (r: bool)
    ensures
        r == trending_down(big_values(history@)),
{
    let n: usize = history.len();
    let mid: usize = n / 2;
    let earlier: BigInt = sum_range(history, 0, mid);
    let later: BigInt = sum_range(history, mid, n);
    let earlier_count: BigInt = big_from(if mid < 1 { 1 } else { mid as u64 });
    let later_count: BigInt = big_from(if n - mid < 1 { 1 } else { (n - mid) as u64 });
    let left: BigInt = big_mul(&later, &earlier_count);
    let right: BigInt = big_mul(&earlier, &later_count);
    big_less(&left, &right)
}

} // verus!
