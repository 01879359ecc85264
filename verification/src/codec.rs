//! The PNG codec, as the bridge sees it.
//!
//! Nothing in this module is proved. Each function hands its arguments to the
//! `image` crate, and its contract records what the bridge relies on. The
//! rest of the library is verified against these contracts.

use crate::params::{CompressionTier, FilterStrategy};
use crate::raster::{buffer_len, Raster, RasterView};
use image::codecs::png::{CompressionType, FilterType, PngEncoder};
use image::{ExtendedColorType, ImageEncoder, ImageFormat};
use vstd::prelude::*;

verus! {

/// The error type of the `image` crate, carried through unread.
#[verifier::external_type_specification]
#[verifier::external_body]
pub struct ExImageError(image::ImageError);

/// The image that the codec reads out of `bytes`, rendered as three 8-bit
/// channels per pixel, or `None` where the codec rejects `bytes`.
pub uninterp spec fn png_rgb8(bytes: Seq<u8>) -> Option<RasterView>;

/// The PNG stream that the codec writes for a three-channel image under the
/// given configuration, or `None` where the codec reports an error.
pub uninterp spec fn png_stream(
    pixels: Seq<u8>,
    width: u32,
    height: u32,
    tier: CompressionTier,
    filter: FilterStrategy,
) -> Option<Seq<u8>>;

/// Calls `image::load_from_memory_with_format` with the PNG format and reads
/// the image out through `DynamicImage::to_rgb8`, `width`, `height` and
/// `into_raw`.
///
/// Trusted: the outcome depends on `bytes` alone, so it is named
/// [`png_rgb8`]; and no image comes out of empty input, since the decoder
/// reads the eight-byte PNG signature before anything else.
#[verifier::external_body]
pub(crate) fn decode_png_rgb8(bytes: &[u8]) -> (r: Option<Raster>)
    ensures
        r matches Some(raster) ==> png_rgb8(bytes@) == Some(raster@),
        r is None ==> png_rgb8(bytes@) is None,
        bytes@.len() == 0 ==> r is None,
{
    match image::load_from_memory_with_format(bytes, ImageFormat::Png) {
        Ok(img) => {
            let rgb = img.to_rgb8();
            Some(Raster { width: rgb.width(), height: rgb.height(), pixels: rgb.into_raw() })
        },
        Err(_) => None,
    }
}

/// Calls `PngEncoder::new_with_quality` on `out` and then
/// `ImageEncoder::write_image` with the colour type `Rgb8`. The tier goes to
/// the encoder as `CompressionType::Fast`, `Default` or `Best`, the strategy
/// as `FilterType::NoFilter` or `Adaptive`.
///
/// Trusted: the outcome depends on the arguments alone, so it is named
/// [`png_stream`]; on success the stream has been appended to `out`. The
/// encoder panics on a buffer whose length is not that of `width` by `height`
/// three-channel pixels, which the precondition rules out. Nothing is said of
/// `out` after an error.
#[verifier::external_body]
pub(crate) fn write_png_rgb8(
    out: &mut Vec<u8>,
    pixels: &[u8],
    width: u32,
    height: u32,
    tier: CompressionTier,
    filter: FilterStrategy,
) -> (r: Result<(), image::ImageError>)
    requires
        pixels@.len() == buffer_len(width as nat, height as nat),
    ensures
        r is Ok ==> (png_stream(pixels@, width, height, tier, filter) matches Some(stream)
            && final(out)@ == old(out)@ + stream),
        r is Err ==> png_stream(pixels@, width, height, tier, filter) is None,
{
    let compression = match tier {
        CompressionTier::Fast => CompressionType::Fast,
        CompressionTier::Balanced => CompressionType::Default,
        CompressionTier::Best => CompressionType::Best,
    };
    let rows = match filter {
        FilterStrategy::Unfiltered => FilterType::NoFilter,
        FilterStrategy::Adaptive => FilterType::Adaptive,
    };
    PngEncoder::new_with_quality(out, compression, rows)
        .write_image(pixels, width, height, ExtendedColorType::Rgb8)
}

} // verus!
