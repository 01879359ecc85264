//! From a PNG byte stream to raw pixels tagged with their shape.
//!
//! Decoding never fails. Input that the codec rejects, and a pixel grid whose
//! buffer does not match its own dimensions, both come out as the one-pixel
//! placeholder. A caller that has to tell a real one-pixel image from a
//! failure uses [`try_decode`].

use crate::codec::{decode_png_rgb8, png_rgb8};
use crate::raster::{
    assemble, assembled, buffer_len, lemma_placeholder_is_consistent, placeholder_view, shape,
    AssembledImageData, AssembledView, Metadata, Raster, RasterView, CHANNELS,
};
use vstd::prelude::*;

verus! {

/// What an optional pixel grid holds.
pub open spec fn raster_view(decoded: Option<Raster>) -> Option<RasterView> {
    match decoded {
        Some(raster) => Some(raster@),
        None => None,
    }
}

/// What an optional image holds.
pub open spec fn image_view(image: Option<AssembledImageData>) -> Option<AssembledView> {
    match image {
        Some(img) => Some(img@),
        None => None,
    }
}

/// The image that a decoding outcome is accepted as: the grid with the
/// baseline shape attached, provided that the codec produced one and that its
/// buffer holds exactly the pixels its dimensions announce.
pub open spec fn accepted(decoded: Option<RasterView>) -> Option<AssembledView> {
    match decoded {
        Some(raster) => if raster.pixels.len() == buffer_len(
            raster.width as nat,
            raster.height as nat,
        ) {
            Some(assembled(raster.pixels, raster.width as nat, raster.height as nat))
        } else {
            None
        },
        None => None,
    }
}

/// The image itself where there is one, the placeholder where there is none.
pub open spec fn or_placeholder_view(image: Option<AssembledView>) -> AssembledView {
    match image {
        Some(img) => img,
        None => placeholder_view(),
    }
}

/// The image that `bytes` decode to.
pub open spec fn decoded_image(bytes: Seq<u8>) -> AssembledView {
    or_placeholder_view(accepted(png_rgb8(bytes)))
}

/// Whatever the input, what it decodes to is consistent: three channels, and
/// a buffer of exactly `width * height * CHANNELS` bytes.
pub proof fn lemma_decoded_image_is_consistent(bytes: Seq<u8>)
    ensures
        decoded_image(bytes).wf(),
        decoded_image(bytes).metadata.channels == CHANNELS,
{
    lemma_placeholder_is_consistent();
}

/// Input that the codec rejects decodes to the placeholder: a buffer of
/// three zero bytes, one pixel wide and high, with three channels.
pub proof fn lemma_rejected_input_gives_placeholder(bytes: Seq<u8>)
    ensures
        png_rgb8(bytes) is None ==> decoded_image(bytes) == placeholder_view(),
        placeholder_view().pixels == seq![0u8, 0u8, 0u8],
        placeholder_view().metadata == shape(1, 1),
        placeholder_view().wf(),
{
    lemma_placeholder_is_consistent();
}

/// Turns what the codec handed out into an image, or into `None` where the
/// codec failed or its grid is inconsistent.
pub fn accept_decoded(decoded: Option<Raster>) -> (image: Option<AssembledImageData>)
    ensures
        image_view(image) == accepted(raster_view(decoded)),
{
    match decoded {
        Some(raster) => match assemble(raster.pixels, raster.width, raster.height) {
            Ok(img) => Some(img),
            Err(_) => None,
        },
        None => None,
    }
}

/// Substitutes the placeholder for a missing image.
pub fn or_placeholder(image: Option<AssembledImageData>) -> (img: AssembledImageData)
    ensures
        img@ == or_placeholder_view(image_view(image)),
        img@.wf(),
{
    match image {
        Some(img) => {
            proof {
                use_type_invariant(&img);
            }
            img
        },
        None => AssembledImageData::placeholder(),
    }
}

/// Decodes PNG bytes, keeping failure apart from success: `None` exactly
/// when the codec rejects the input or hands out an inconsistent grid. Empty
/// input is always rejected.
pub fn try_decode(bytes: &[u8]) -> (image: Option<AssembledImageData>)
    ensures
        image_view(image) == accepted(png_rgb8(bytes@)),
        bytes@.len() == 0 ==> image is None,
{
    accept_decoded(decode_png_rgb8(bytes))
}

/// Loads image data from PNG bytes and returns the pixels, three channels
/// each, together with their metadata. Never fails: input that does not
/// decode gives the one-pixel placeholder.
pub fn load_image_assembled(png_data: &[u8]) -> (img: AssembledImageData)
    ensures
        img@ == decoded_image(png_data@),
        img@.wf(),
        png_rgb8(png_data@) is None ==> img@ == placeholder_view(),
        png_data@.len() == 0 ==> img@ == placeholder_view(),
{
    or_placeholder(try_decode(png_data))
}

/// Decodes PNG bytes into a raw pixel buffer and its metadata.
pub fn decode(bytes: &[u8]) -> (out: (Vec<u8>, Metadata))
    ensures
        out.0@ == decoded_image(bytes@).pixels,
        out.1@ == decoded_image(bytes@).metadata,
        out.1@.channels == CHANNELS,
        out.0@.len() == buffer_len(out.1@.width, out.1@.height),
        png_rgb8(bytes@) is None || bytes@.len() == 0 ==> out.0@ == placeholder_view().pixels
            && out.1@ == placeholder_view().metadata,
{
    load_image_assembled(bytes).into_parts()
}

/// Decodes PNG bytes and keeps only the shape of the image.
pub fn get_metadata(bytes: &[u8]) -> (m: Metadata)
    ensures
        m@ == decoded_image(bytes@).metadata,
        m@.channels == CHANNELS,
        png_rgb8(bytes@) is None || bytes@.len() == 0 ==> m@ == placeholder_view().metadata,
{
    load_image_assembled(bytes).metadata()
}

} // verus!
