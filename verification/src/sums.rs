//! Summing a borrowed vector of integers.

use vstd::prelude::*;

verus! {

/// The sum of a sequence of 32-bit integers, as an unbounded integer.
pub open spec fn seq_sum(s: Seq<u32>) -> int
    decreases s.len(),
{
    if s.len() == 0 {
        0
    } else {
        seq_sum(s.drop_last()) + s.last()
    }
}

/// A prefix never sums to more than the whole: the elements are unsigned.
pub proof fn lemma_seq_sum_take_le(s: Seq<u32>, i: int)
    requires
        0 <= i <= s.len(),
    ensures
        seq_sum(s.take(i)) <= seq_sum(s),
    decreases s.len() - i,
{
    if i == s.len() {
        assert(s.take(i) =~= s);
    } else {
        assert(s.take(i + 1).drop_last() =~= s.take(i));
        lemma_seq_sum_take_le(s, i + 1);
    }
}

/// Adds up the vector's elements; the precondition is what keeps the
/// running total within `u32`.
pub fn sum(data: &Vec<u32>) -> (r: u32)
    requires
        seq_sum(data@) <= u32::MAX,
    ensures
        r == seq_sum(data@),
{
    let mut acc: u32 = 0;
    let mut i: usize = 0;
    while i < data.len()
        invariant
            0 <= i <= data@.len(),
            seq_sum(data@) <= u32::MAX,
            acc == seq_sum(data@.take(i as int)),
        decreases data@.len() - i,
    {
        proof {
            assert(data@.take(i + 1).drop_last() =~= data@.take(i as int));
            assert(seq_sum(data@.take(i + 1)) == seq_sum(data@.take(i as int)) + data@[i as int]);
            lemma_seq_sum_take_le(data@, i + 1);
        }
        acc = acc + data[i];
        i = i + 1;
    }
    proof {
        assert(data@.take(data@.len() as int) =~= data@);
    }
    acc
}

} // verus!
