//! Where a value lies with respect to an inclusive range.

use vstd::prelude::*;
use vstd::std_specs::cmp::PartialOrdIs;
use vstd::std_specs::cmp::PartialOrdSpec;

verus! {

/// The position of a value with respect to a range.
#[derive(Debug, Clone, Copy, PartialEq, Eq, Structural, Hash)]
pub enum Range {
    /// Above the upper bound.
    Hi,
    /// Below the lower bound.
    Lo,
    /// Within the bounds, which belong to the range.
    Within,
}

/// Places `x` with respect to the range from `min` to `max`: above `max`
/// first, else below `min`, else inside.
pub fn in_range_inclusive<V>(max: V, min: V, x: V) -> (r: Range) where V: Copy + Ord
    ensures
        V::obeys_partial_cmp_spec() ==> r == if x.is_gt(&max) {
            Range::Hi
        } else if x.is_lt(&min) {
            Range::Lo
        } else {
            Range::Within
        },
{
    if x > max {
        Range::Hi
    } else if x < min {
        Range::Lo
    } else {
        Range::Within
    }
}

} // verus!
