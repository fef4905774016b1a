//! A decoded raster image as plain values.
//!
//! The pipeline fingerprints pixel content, not encoded bytes, so decoding
//! happens behind a trusted wrapper around the `image` crate and everything
//! after it works on this plain representation: width, height, and the RGB8
//! pixel buffer in row-major order, three bytes per pixel.

use vstd::prelude::*;

verus! {

/// A decoded image in canonical form: 8-bit RGB, row-major, three bytes per
/// pixel.
pub struct Raster {
    /// Width in pixels.
    pub width: u32,
    /// Height in pixels.
    pub height: u32,
    /// RGB8 pixel bytes, row-major, three per pixel.
    pub pixels: Vec<u8>,
}

impl Raster {
    /// The pixel buffer holds exactly three bytes per pixel.
    pub open spec fn wf(&self) -> bool {
        self.pixels@.len() == self.width * self.height * 3
    }
}

/// What decoding an encoded image yields: `None` where the bytes are not a
/// decodable image, else the width, height and RGB8 pixel bytes. Decoding is a
/// pure function of the encoded bytes; its value is given only by the trusted
/// wrapper below.
pub uninterp spec fn decode_rgb8(data: Seq<u8>) -> Option<(u32, u32, Seq<u8>)>;

/// Relies on image::load_from_memory and DynamicImage::to_rgb8: decoding
/// either fails or yields an RGB8 buffer of exactly three bytes per pixel,
/// determined by the encoded bytes alone.
#[verifier::external_body]
pub(crate) fn decode_image_rgb8(data: &[u8]) -> (r: Result<Raster, String>)
    ensures
        match r {
            Ok(raster) => {
                &&& decode_rgb8(data@) == Some((raster.width, raster.height, raster.pixels@))
                &&& raster.wf()
            },
            Err(_) => decode_rgb8(data@) is None,
        },
{
    match image::load_from_memory(data) {
        Ok(img) => {
            let rgb = img.to_rgb8();
            let (width, height) = rgb.dimensions();
            Ok(Raster { width, height, pixels: rgb.into_raw() })
        },
        Err(e) => Err(e.to_string()),
    }
}

} // verus!
