//! Offsets and ranges moved to where a box starts.
use core::ops::{Range, RangeFrom};
use vstd::prelude::*;

verus! {

/// The standard library's range without an end, which holds its first
/// index in the public field `start`.
#[verifier::external_type_specification]
#[verifier::reject_recursive_types(Idx)]
pub struct ExRangeFrom<Idx>(RangeFrom<Idx>);

/// The range `range`, moved up by `seek`.
pub fn get_range(seek: usize, range: Range<usize>) -> (moved: Range<usize>)
    requires
        seek + range.start <= usize::MAX,
        seek + range.end <= usize::MAX,
    ensures
        moved.start == seek + range.start,
        moved.end == seek + range.end,
{
    seek + range.start..seek + range.end
}

/// The range without an end `range`, moved up by `seek`.
pub fn get_range_from(seek: usize, range: RangeFrom<usize>) -> (moved: RangeFrom<usize>)
    requires
        seek + range.start <= usize::MAX,
    ensures
        moved.start == seek + range.start,
{
    seek + range.start..
}

/// The offset before `seek`, or zero where there is none.
pub fn get_start_seek(seek: usize) -> (start: usize)
    ensures
        start == if seek > 0 {
            seek - 1
        } else {
            0
        },
{
    if seek > 0 {
        return seek - 1;
    }
    0
}

} // verus!
