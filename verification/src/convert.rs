//! Conversions from camera frames to displayable RGB images: color frames
//! have their B and R bytes swapped, infrared intensities are spread over
//! all three channels, and depth readings go through the jet color map
//! over the fixed visible range.
use crate::color::jet_colormap;
use crate::color::spec_jet;
use crate::frame::ColorFrame;
use crate::frame::DepthFrame;
use crate::frame::InfraredFrame;
use crate::img::rgb_image_dims;
use crate::img::rgb_image_pixels;
use crate::img::RgbImageBuf;
use vstd::pervasive::unreached;
use vstd::prelude::*;

verus! {

/// Depth readings are mapped to colors over `0..=4000` millimeters: four
/// meters, the far end of the visualized range.
pub const DEPTH_RANGE_MM: u32 = 4000;

/// The position a byte of an RGB buffer comes from in a BGR buffer of the
/// same length: the first and third byte of each pixel trade places.
pub open spec fn spec_bgr_partner(i: int) -> int {
    if i % 3 == 0 {
        i + 2
    } else if i % 3 == 2 {
        i - 2
    } else {
        i
    }
}

/// Channel `c` (0 red, 1 green, 2 blue) of the jet color for the position
/// `d / den`.
pub open spec fn spec_jet_channel(d: int, den: int, c: int) -> int {
    let (r, g, b) = spec_jet(d, den);
    if c == 0 {
        r
    } else if c == 1 {
        g
    } else {
        b
    }
}

/// Reorders interleaved BGR bytes into RGB bytes.
pub fn bgr_to_rgb_bytes(src: &Vec<u8>) -> (out: Vec<u8>)
    requires
        src@.len() % 3 == 0,
    ensures
        out@.len() == src@.len(),
        forall|i: int| 0 <= i < out@.len() ==> out@[i] == src@[spec_bgr_partner(i)],
{
    let len = src.len();
    let mut out: Vec<u8> = Vec::new();
    let mut base: usize = 0;
    while base < len
        invariant
            base <= len,
            base % 3 == 0,
            len % 3 == 0,
            len == src@.len(),
            out@.len() == base,
            forall|i: int| 0 <= i < base ==> out@[i] == src@[spec_bgr_partner(i)],
        decreases len - base,
    {
        out.push(src[base + 2]);
        out.push(src[base + 1]);
        out.push(src[base]);
        base = base + 3;
    }
    out
}

/// Spreads each infrared intensity over the three channels of an RGB
/// pixel, giving a grayscale image.
pub fn y8_to_rgb_bytes(src: &Vec<u8>) -> (out: Vec<u8>)
    ensures
        out@.len() == 3 * src@.len(),
        forall|i: int| 0 <= i < out@.len() ==> out@[i] == src@[i / 3],
{
    let len = src.len();
    let mut out: Vec<u8> = Vec::new();
    let mut k: usize = 0;
    while k < len
        invariant
            k <= len,
            len == src@.len(),
            out@.len() == 3 * k,
            forall|i: int| 0 <= i < 3 * k ==> out@[i] == src@[i / 3],
        decreases len - k,
    {
        let y = src[k];
        out.push(y);
        out.push(y);
        out.push(y);
        k = k + 1;
    }
    out
}

/// Maps each depth reading through the jet color map over the visible
/// range, giving three RGB bytes per reading.
pub fn depth_to_rgb_bytes(src: &Vec<u16>) -> (out: Vec<u8>)
    ensures
        out@.len() == 3 * src@.len(),
        forall|i: int|
            0 <= i < out@.len() ==> out@[i] as int == spec_jet_channel(
                src@[i / 3] as int,
                DEPTH_RANGE_MM as int,
                i % 3,
            ),
{
    let len = src.len();
    let mut out: Vec<u8> = Vec::new();
    let mut k: usize = 0;
    while k < len
        invariant
            k <= len,
            len == src@.len(),
            out@.len() == 3 * k,
            forall|i: int|
                0 <= i < 3 * k ==> out@[i] as int == spec_jet_channel(
                    src@[i / 3] as int,
                    DEPTH_RANGE_MM as int,
                    i % 3,
                ),
        decreases len - k,
    {
        let c = jet_colormap(src[k] as u32, DEPTH_RANGE_MM);
        out.push(c.r);
        out.push(c.g);
        out.push(c.b);
        k = k + 1;
    }
    out
}

/// Turns a BGR color frame into an RGB image of the same dimensions.
pub fn color_frame_to_rgb_img(frame: &ColorFrame) -> (img: RgbImageBuf)
    requires
        frame.wf(),
        frame.width <= u32::MAX,
        frame.height <= u32::MAX,
    ensures
        rgb_image_dims(&img) == (frame.width as nat, frame.height as nat),
        rgb_image_pixels(&img).len() == frame.data@.len(),
        forall|i: int|
            0 <= i < rgb_image_pixels(&img).len() ==> rgb_image_pixels(&img)[i] == frame.data@[
                spec_bgr_partner(i)
            ],
{
    proof {
        assert(3 * ((frame.width as int) * (frame.height as int)) == 3 * (frame.width as int) * (
        frame.height as int)) by (nonlinear_arith);
    }
    let bytes = bgr_to_rgb_bytes(&frame.data);
    match RgbImageBuf::from_raw(frame.width as u32, frame.height as u32, bytes) {
        Some(img) => img,
        None => unreached(),
    }
}

/// Turns an infrared frame into a grayscale RGB image of the same
/// dimensions.
pub fn infrared_frame_to_rgb_img(frame: &InfraredFrame) -> (img: RgbImageBuf)
    requires
        frame.wf(),
        frame.width <= u32::MAX,
        frame.height <= u32::MAX,
    ensures
        rgb_image_dims(&img) == (frame.width as nat, frame.height as nat),
        rgb_image_pixels(&img).len() == 3 * frame.data@.len(),
        forall|i: int|
            0 <= i < rgb_image_pixels(&img).len() ==> rgb_image_pixels(&img)[i] == frame.data@[i
                / 3],
{
    proof {
        assert(3 * ((frame.width as int) * (frame.height as int)) == 3 * (frame.width as int) * (
        frame.height as int)) by (nonlinear_arith);
    }
    let bytes = y8_to_rgb_bytes(&frame.data);
    match RgbImageBuf::from_raw(frame.width as u32, frame.height as u32, bytes) {
        Some(img) => img,
        None => unreached(),
    }
}

/// Turns a depth frame into an RGB image of the same dimensions by
/// coloring each reading with the jet color map.
pub fn depth_frame_to_rgb_img(frame: &DepthFrame) -> (img: RgbImageBuf)
    requires
        frame.wf(),
        frame.width <= u32::MAX,
        frame.height <= u32::MAX,
    ensures
        rgb_image_dims(&img) == (frame.width as nat, frame.height as nat),
        rgb_image_pixels(&img).len() == 3 * frame.data@.len(),
        forall|i: int|
            0 <= i < rgb_image_pixels(&img).len() ==> rgb_image_pixels(&img)[i] as int
                == spec_jet_channel(frame.data@[i / 3] as int, DEPTH_RANGE_MM as int, i % 3),
{
    proof {
        assert(3 * ((frame.width as int) * (frame.height as int)) == 3 * (frame.width as int) * (
        frame.height as int)) by (nonlinear_arith);
    }
    let bytes = depth_to_rgb_bytes(&frame.data);
    match RgbImageBuf::from_raw(frame.width as u32, frame.height as u32, bytes) {
        Some(img) => img,
        None => unreached(),
    }
}

} // verus!
