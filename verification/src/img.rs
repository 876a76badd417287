//! Trusted surface of the `image` crate: the conversions build real
//! `image::RgbImage` buffers, held behind an opaque handle because the
//! buffer type's `Pixel` bound cannot be declared to the verifier.
//! Unverified code reads the buffer through the public `inner` field.
use vstd::prelude::*;

verus! {

/// An RGB image built by the `image` crate, three bytes per pixel,
/// row-major.
#[verifier::external_body]
pub struct RgbImageBuf {
    pub inner: image::RgbImage,
}

/// The raw byte buffer an image holds: three bytes per pixel in R, G, B
/// order, row-major.
pub uninterp spec fn rgb_image_pixels(img: &RgbImageBuf) -> Seq<u8>;

/// The width and height an image was built with.
pub uninterp spec fn rgb_image_dims(img: &RgbImageBuf) -> (nat, nat);

impl RgbImageBuf {
    /// Relies on image::ImageBuffer::from_raw: a buffer of exactly
    /// `3 * width * height` bytes is accepted, stored unchanged as the
    /// image's raw contents, and the image keeps the given dimensions.
    #[verifier::external_body]
    pub(crate) fn from_raw(width: u32, height: u32, buf: Vec<u8>) -> (r: Option<RgbImageBuf>)
        requires
            buf@.len() == 3 * width * height,
        ensures
            r is Some,
            rgb_image_pixels(&r.unwrap()) == buf@,
            rgb_image_dims(&r.unwrap()) == (width as nat, height as nat),
    {
        match image::RgbImage::from_raw(width, height, buf) {
            Some(inner) => Some(RgbImageBuf { inner }),
            None => None,
        }
    }
}

} // verus!
