//! From raw pixels and their declared shape to a PNG byte stream.

use crate::codec::{png_rgb8, png_stream, write_png_rgb8};
use crate::decode::decoded_image;
use crate::params::{parameters_of, EncodeParameters};
use crate::raster::{assembled, buffer_len, fits_dimensions, BridgeError, RasterView};
use vstd::prelude::*;

verus! {

/// What an encoding outcome holds.
pub open spec fn stream_view(r: Result<Vec<u8>, BridgeError>) -> Result<Seq<u8>, BridgeError> {
    match r {
        Ok(stream) => Ok(stream@),
        Err(e) => Err(e),
    }
}

/// The outcome of encoding `pixels` as a `width` by `height` image: a
/// dimension mismatch where the buffer is not of that shape, else whatever
/// the codec makes of it.
pub open spec fn encoded(pixels: Seq<u8>, width: u32, height: u32, params: EncodeParameters) -> Result<Seq<u8>, BridgeError> {
    if pixels.len() != buffer_len(width as nat, height as nat) {
        Err(BridgeError::DimensionMismatch)
    } else {
        match png_stream(pixels, width, height, params.tier, params.filter) {
            Some(stream) => Ok(stream),
            None => Err(BridgeError::Codec),
        }
    }
}

/// Turns what the codec reported into the outcome of the encode call: the
/// stream it wrote, or a codec failure.
pub fn finish_encode(outcome: Result<(), image::ImageError>, stream: Vec<u8>) -> (r: Result<Vec<u8>, BridgeError>)
    ensures
        outcome is Ok ==> stream_view(r) == Ok::<Seq<u8>, BridgeError>(stream@),
        outcome is Err ==> r == Err::<Vec<u8>, BridgeError>(BridgeError::Codec),
{
    match outcome {
        Ok(_) => Ok(stream),
        Err(_) => Err(BridgeError::Codec),
    }
}

/// Compresses a raw three-channel pixel buffer into a PNG byte stream. The
/// buffer must hold exactly `width * height * CHANNELS` bytes; otherwise
/// nothing is encoded and the mismatch is reported.
pub fn encode(buffer: Vec<u8>, width: u32, height: u32, params: EncodeParameters) -> (r: Result<Vec<u8>, BridgeError>)
    ensures
        stream_view(r) == encoded(buffer@, width, height, params),
        buffer@.len() != buffer_len(width as nat, height as nat) <==> r == Err::<
            Vec<u8>,
            BridgeError,
        >(BridgeError::DimensionMismatch),
        r is Ok <==> buffer@.len() == buffer_len(width as nat, height as nat) && png_stream(
            buffer@,
            width,
            height,
            params.tier,
            params.filter,
        ) is Some,
{
    if !fits_dimensions(buffer.len(), width, height) {
        return Err(BridgeError::DimensionMismatch);
    }
    let mut stream: Vec<u8> = Vec::with_capacity(buffer.len());
    let outcome = write_png_rgb8(
        &mut stream,
        buffer.as_slice(),
        width,
        height,
        params.tier,
        params.filter,
    );
    finish_encode(outcome, stream)
}

/// Writes image data to PNG bytes, with the compression tier chosen by
/// `compression_level` and rows left unfiltered.
pub fn write_image_data(raw_data: Vec<u8>, width: u32, height: u32, compression_level: u8) -> (r: Result<Vec<u8>, BridgeError>)
    ensures
        stream_view(r) == encoded(
            raw_data@,
            width,
            height,
            parameters_of(compression_level as int, None),
        ),
{
    encode(raw_data, width, height, EncodeParameters::for_level(compression_level, None))
}

/// The codec reads out of `stream` exactly the `width` by `height` grid
/// `pixels`.
pub open spec fn reads_back(stream: Seq<u8>, pixels: Seq<u8>, width: u32, height: u32) -> bool {
    png_rgb8(stream) == Some(RasterView { width, height, pixels })
}

/// The bridge adds no loss of its own. For a buffer of the right length,
/// under any tier and either filter strategy: where encoding succeeds and the
/// codec reads back out of the stream the very grid that was written, decoding
/// the stream gives the same pixels with the same dimensions and three
/// channels.
pub proof fn lemma_round_trip(pixels: Seq<u8>, width: u32, height: u32, params: EncodeParameters)
    requires
        pixels.len() == buffer_len(width as nat, height as nat),
    ensures
        match encoded(pixels, width, height, params) {
            Ok(stream) => reads_back(stream, pixels, width, height) ==> decoded_image(stream)
                == assembled(pixels, width as nat, height as nat),
            Err(e) => e == BridgeError::Codec,
        },
{
}

} // verus!
