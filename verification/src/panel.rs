//! Layout decisions of the viewer's frame grid.
use vstd::prelude::*;

verus! {

/// How many columns the frame grid uses for a number of frames: three
/// above four frames, two above one, otherwise one.
pub open spec fn spec_grid_columns(frame_count: int) -> int {
    if frame_count > 4 {
        3
    } else if frame_count > 1 {
        2
    } else {
        1
    }
}

/// The number of columns the frame grid uses for `frame_count` frames.
pub fn grid_columns(frame_count: usize) -> (r: usize)
    ensures
        r as int == spec_grid_columns(frame_count as int),
{
    if frame_count > 4 {
        3
    } else if frame_count > 1 {
        2
    } else {
        1
    }
}

} // verus!
