//! The arithmetic behind merging outcomes: the exact sum of a sequence of
//! row counts, and the facts about prefix sums that the merge loops need.

use vstd::prelude::*;

verus! {

/// The exact sum of a sequence of row counts, as an unbounded integer.
pub open spec fn sum_of(s: Seq<u64>) -> int
    decreases s.len(),
{
    if s.len() == 0 {
        0
    } else {
        sum_of(s.drop_last()) + s.last()
    }
}

/// A sum of unsigned counts is never negative.
pub proof fn lemma_sum_of_nonneg(s: Seq<u64>)
    ensures
        sum_of(s) >= 0,
    decreases s.len(),
{
    if s.len() > 0 {
        lemma_sum_of_nonneg(s.drop_last());
    }
}

/// Extending a prefix by one element adds exactly that element to its sum.
pub proof fn lemma_sum_of_take_step(s: Seq<u64>, i: int)
    requires
        0 <= i < s.len(),
    ensures
        sum_of(s.take(i + 1)) == sum_of(s.take(i)) + s[i],
{
    assert(s.take(i + 1).drop_last() =~= s.take(i));
    assert(s.take(i + 1).last() == s[i]);
}

/// The sum of a prefix never exceeds the sum of the whole sequence.
pub proof fn lemma_sum_of_take_le(s: Seq<u64>, i: int)
    requires
        0 <= i <= s.len(),
    ensures
        sum_of(s.take(i)) <= sum_of(s),
    decreases s.len() - i,
{
    if i == s.len() {
        assert(s.take(i) =~= s);
    } else {
        lemma_sum_of_take_step(s, i);
        lemma_sum_of_take_le(s, i + 1);
    }
}

} // verus!
