use vstd::prelude::*;

verus! {

/// The sum of the rating values in `s`.
pub open spec fn sum_of(s: Seq<i32>) -> int
    decreases s.len(),
{
    if s.len() == 0 {
        0
    } else {
        sum_of(s.drop_last()) + s.last() as int
    }
}

/// A video's average rating as an exact fraction: `total / count`, or no
/// rating at all (an average of zero) when `count` is zero.
#[derive(Clone, Copy, Debug, PartialEq, Eq, Structural)]
pub struct RatingAverage {
    pub total: i128,
    pub count: u64,
}

/// The parts of the arithmetic mean of `values`: their sum and their number.
pub fn average_rating(values: &Vec<i32>) -> (r: RatingAverage)
    ensures
        r.total == sum_of(values@),
        r.count == values@.len(),
{
    let mut total: i128 = 0;
    let mut i: usize = 0;
    while i < values.len()
        invariant
            i <= values@.len(),
            total == sum_of(values@.subrange(0, i as int)),
            -(i as int) * 2147483648 <= total <= (i as int) * 2147483647,
        decreases values@.len() - i,
    {
        assert(values@.subrange(0, i as int + 1).drop_last() == values@.subrange(0, i as int));
        total = total + values[i] as i128;
        i = i + 1;
    }
    assert(values@.subrange(0, i as int) == values@);
    RatingAverage { total, count: i as u64 }
}

} // verus!
