//! The window icon: a PNG image decoded to RGBA pixels.

use vstd::prelude::*;

verus! {

/// What the `image` crate's built-in PNG decoder decodes `bytes` to, as 8-bit
/// RGBA pixels with the image's width and height; `None` when the bytes are
/// not a PNG image it reads.
pub uninterp spec fn decoded_rgba(bytes: Seq<u8>) -> Option<(Seq<u8>, u32, u32)>;

/// Calls `image::load_from_memory_with_format` on `bytes` with the PNG format,
/// then `to_rgba8`, `dimensions` and `into_raw` on the decoded image. The
/// contract claims only that the outcome is a function of the bytes, named
/// `decoded_rgba`: with a built-in format given, the crate neither guesses
/// the format nor consults its registered format or decoder hooks, and the
/// PNG decoder runs with the crate's fixed default limits.
#[verifier::external_body]
fn decode_rgba(bytes: &[u8]) -> (r: Option<(Vec<u8>, u32, u32)>)
    ensures
        match r {
            Some((px, w, h)) => decoded_rgba(bytes@) == Some((px@, w, h)),
            None => decoded_rgba(bytes@) is None,
        },
{
    match image::load_from_memory_with_format(bytes, image::ImageFormat::Png) {
        Ok(img) => {
            let rgba = img.to_rgba8();
            let (w, h) = rgba.dimensions();
            Some((rgba.into_raw(), w, h))
        },
        Err(_) => None,
    }
}

/// An image as rows of 8-bit RGBA pixels.
#[derive(Debug)]
pub struct RgbaImage {
    pub rgba: Vec<u8>,
    pub width: u32,
    pub height: u32,
}

/// Decodes the window icon from the bytes of its PNG file; `None` when the
/// bytes are not a PNG image that can be read.
pub fn window_icon_image(bytes: &[u8]) -> (r: Option<RgbaImage>)
    ensures
        match r {
            Some(img) => decoded_rgba(bytes@) == Some((img.rgba@, img.width, img.height)),
            None => decoded_rgba(bytes@) is None,
        },
{
    match decode_rgba(bytes) {
        Some((rgba, width, height)) => Some(RgbaImage { rgba, width, height }),
        None => None,
    }
}

} // verus!
