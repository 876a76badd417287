//! Buffers for the instanced point-cloud rendering: per-pixel cube
//! heights and RGBA intensities built from a depth/infrared frame pair,
//! and the fixed grid of per-instance translations.
use crate::convert::DEPTH_RANGE_MM;
use crate::frame::DepthFrame;
use crate::frame::InfraredFrame;
use vstd::arithmetic::div_mod::lemma_fundamental_div_mod_converse;
use vstd::prelude::*;

verus! {

/// Readings at or below this depth are treated as sensor noise and left
/// out of the point cloud.
pub const DEPTH_NEAR_CUTOFF_MM: u16 = 200;

/// The cube height for a depth reading, in millimeters from the far end
/// of the visualized range: readings at or below the near cutoff are
/// dropped to zero, and readings past the far end clamp to zero height.
pub open spec fn spec_cloud_height(d: int) -> int {
    if d > DEPTH_NEAR_CUTOFF_MM as int {
        DEPTH_RANGE_MM as int - (if d <= DEPTH_RANGE_MM as int {
            d
        } else {
            DEPTH_RANGE_MM as int
        })
    } else {
        0
    }
}

/// Byte `c` (0..=3) of the RGBA color for a point: the infrared intensity
/// on the three color channels with a fully opaque alpha, or all zero for
/// a reading below the near cutoff.
pub open spec fn spec_cloud_rgba(d: int, y: int, c: int) -> int {
    if d > DEPTH_NEAR_CUTOFF_MM as int {
        if c == 3 {
            255
        } else {
            y
        }
    } else {
        0
    }
}

/// Builds the per-instance height and RGBA buffers for a depth/infrared
/// frame pair of equal dimensions: one height and four color bytes per
/// pixel.
pub fn point_cloud_buffers(depth: &DepthFrame, infrared: &InfraredFrame) -> (r: (Vec<u16>, Vec<u8>))
    requires
        depth.wf(),
        infrared.wf(),
        depth.width == infrared.width,
        depth.height == infrared.height,
    ensures
        r.0@.len() == depth.data@.len(),
        r.1@.len() == 4 * depth.data@.len(),
        forall|i: int|
            0 <= i < r.0@.len() ==> r.0@[i] as int == spec_cloud_height(depth.data@[i] as int),
        forall|j: int|
            0 <= j < r.1@.len() ==> r.1@[j] as int == spec_cloud_rgba(
                depth.data@[j / 4] as int,
                infrared.data@[j / 4] as int,
                j % 4,
            ),
{
    let len = depth.data.len();
    let mut heights: Vec<u16> = Vec::new();
    let mut rgba: Vec<u8> = Vec::new();
    let mut i: usize = 0;
    while i < len
        invariant
            i <= len,
            len == depth.data@.len(),
            len == infrared.data@.len(),
            heights@.len() == i,
            rgba@.len() == 4 * i,
            forall|k: int|
                0 <= k < i ==> heights@[k] as int == spec_cloud_height(depth.data@[k] as int),
            forall|j: int|
                0 <= j < 4 * i ==> rgba@[j] as int == spec_cloud_rgba(
                    depth.data@[j / 4] as int,
                    infrared.data@[j / 4] as int,
                    j % 4,
                ),
        decreases len - i,
    {
        let d = depth.data[i];
        if d > DEPTH_NEAR_CUTOFF_MM {
            let clamped: u32 = if (d as u32) <= DEPTH_RANGE_MM {
                d as u32
            } else {
                DEPTH_RANGE_MM
            };
            heights.push((DEPTH_RANGE_MM - clamped) as u16);
            let y = infrared.data[i];
            rgba.push(y);
            rgba.push(y);
            rgba.push(y);
            rgba.push(255);
        } else {
            heights.push(0);
            rgba.push(0);
            rgba.push(0);
            rgba.push(0);
            rgba.push(0);
        }
        i = i + 1;
    }
    (heights, rgba)
}

/// Whether the first frame of a batch is the one to keep: the batch must
/// not be empty, and the first frame's emitter mode metadata must be
/// present and equal to the expected mode.
pub fn emitter_frame_matches(frame_count: usize, emitter_mode: Option<i64>, expected_mode: i64) -> (r:
    bool)
    ensures
        r == (frame_count > 0 && emitter_mode == Some(expected_mode)),
{
    match emitter_mode {
        Some(m) => frame_count > 0 && m == expected_mode,
        None => false,
    }
}

/// The value at position `j` of the translation buffer for a
/// `width x height` grid: the per-instance offsets from the grid's
/// center, on a scale of half pixel widths, with the first row at the
/// top.
pub open spec fn spec_translation(width: int, height: int, j: int) -> int {
    let p = j / 2;
    let row = p / width;
    let col = p % width;
    if j % 2 == 0 {
        2 * col - width
    } else {
        height - 2 * row
    }
}

/// Builds the per-instance translation buffer for a `width x height`
/// grid: an x and a y offset per pixel, row-major from the top-left
/// pixel, measured from the grid's center in half pixel widths.
pub fn instance_translations(width: usize, height: usize) -> (r: Vec<i64>)
    requires
        width <= u32::MAX,
        height <= u32::MAX,
    ensures
        r@.len() == 2 * (width * height),
        forall|j: int|
            0 <= j < r@.len() ==> r@[j] == spec_translation(width as int, height as int, j),
{
    let mut r: Vec<i64> = Vec::new();
    let mut row: usize = 0;
    while row < height
        invariant
            row <= height,
            width <= u32::MAX,
            height <= u32::MAX,
            r@.len() == 2 * (row * width),
            forall|j: int|
                0 <= j < r@.len() ==> r@[j] == spec_translation(width as int, height as int, j),
        decreases height - row,
    {
        let mut col: usize = 0;
        while col < width
            invariant
                row < height,
                col <= width,
                width <= u32::MAX,
                height <= u32::MAX,
                r@.len() == 2 * (row * width + col),
                forall|j: int|
                    0 <= j < r@.len() ==> r@[j] == spec_translation(width as int, height as int, j),
            decreases width - col,
        {
            proof {
                lemma_fundamental_div_mod_converse(
                    (row * width + col) as int,
                    width as int,
                    row as int,
                    col as int,
                );
            }
            r.push(2 * (col as i64) - (width as i64));
            r.push((height as i64) - 2 * (row as i64));
            col = col + 1;
        }
        proof {
            assert((row as int + 1) * (width as int) == (row as int) * (width as int) + (
            width as int)) by (nonlinear_arith);
        }
        row = row + 1;
    }
    proof {
        assert(2 * ((height as int) * (width as int)) == 2 * ((width as int) * (height as int)))
            by (nonlinear_arith);
    }
    r
}

} // verus!
