//! Prefix sums over stake sequences, used to state fund conservation
//! and ticket-weighted winner selection.

use vstd::prelude::*;

verus! {

/// Sum of the first `n` elements of `s`.
pub open spec fn sum_prefix(s: Seq<u64>, n: int) -> int
    decreases n,
{
    if n <= 0 {
        0
    } else {
        sum_prefix(s, n - 1) + s[n - 1]
    }
}

/// Sum of all elements of `s`.
pub open spec fn sum_all(s: Seq<u64>) -> int {
    sum_prefix(s, s.len() as int)
}

/// A prefix sum of unsigned values is never negative.
pub proof fn lemma_sum_prefix_nonneg(s: Seq<u64>, n: int)
    requires
        n <= s.len(),
    ensures
        0 <= sum_prefix(s, n),
    decreases n,
{
    if n > 0 {
        lemma_sum_prefix_nonneg(s, n - 1);
    }
}

/// Prefix sums only depend on the elements below the bound.
pub proof fn lemma_sum_prefix_congruent(s: Seq<u64>, t: Seq<u64>, n: int)
    requires
        forall|i: int| 0 <= i < n ==> s[i] == t[i],
    ensures
        sum_prefix(s, n) == sum_prefix(t, n),
    decreases n,
{
    if n > 0 {
        lemma_sum_prefix_congruent(s, t, n - 1);
    }
}

/// Replacing one element below the bound shifts the prefix sum by the
/// difference.
pub proof fn lemma_sum_prefix_update(s: Seq<u64>, n: int, j: int, v: u64)
    requires
        0 <= j < n <= s.len(),
    ensures
        sum_prefix(s.update(j, v), n) == sum_prefix(s, n) - s[j] + v,
    decreases n,
{
    if n - 1 == j {
        lemma_sum_prefix_congruent(s.update(j, v), s, n - 1);
    } else {
        lemma_sum_prefix_update(s, n - 1, j, v);
    }
}

/// Every element below the bound is at most the prefix sum.
pub proof fn lemma_sum_prefix_elem_le(s: Seq<u64>, n: int, j: int)
    requires
        0 <= j < n <= s.len(),
    ensures
        s[j] <= sum_prefix(s, n),
    decreases n,
{
    if n - 1 == j {
        lemma_sum_prefix_nonneg(s, n - 1);
    } else {
        lemma_sum_prefix_elem_le(s, n - 1, j);
    }
}

/// Prefix sums grow with the bound.
pub proof fn lemma_sum_prefix_mono(s: Seq<u64>, m: int, n: int)
    requires
        0 <= m <= n <= s.len(),
    ensures
        sum_prefix(s, m) <= sum_prefix(s, n),
    decreases n,
{
    if m < n {
        lemma_sum_prefix_mono(s, m, n - 1);
    }
}

/// A prefix of zeroes sums to zero.
pub proof fn lemma_sum_prefix_zero(s: Seq<u64>, n: int)
    requires
        forall|j: int| 0 <= j < n ==> s[j] == 0,
    ensures
        sum_prefix(s, n) == 0,
    decreases n,
{
    if n > 0 {
        lemma_sum_prefix_zero(s, n - 1);
    }
}

/// Appending an element adds it to the total.
pub proof fn lemma_sum_push(s: Seq<u64>, x: u64)
    ensures
        sum_all(s.push(x)) == sum_all(s) + x,
{
    lemma_sum_prefix_congruent(s.push(x), s, s.len() as int);
}

} // verus!
