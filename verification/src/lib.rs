//! A bridge between compressed PNG byte streams and raw, tightly packed
//! three-channel pixel buffers.
//!
//! Decoding turns a byte stream into pixels tagged with their shape and never
//! fails: input the codec rejects becomes a fixed one-pixel placeholder.
//! Encoding turns pixels and their declared shape back into a byte stream and
//! reports a mismatch between the two, or a codec failure, as an error.
//!
//! The PNG bitstream itself is the business of the `image` crate, which is
//! reached through the two functions of [`codec`] and nowhere else.

pub mod codec;
pub mod decode;
pub mod encode;
pub mod params;
pub mod raster;

pub use decode::{decode, get_metadata, load_image_assembled, try_decode};
pub use encode::{encode, write_image_data};
pub use params::{
    map_compression_tier, map_filter_strategy, CompressionTier, EncodeParameters, FilterStrategy,
};
pub use raster::{assemble, AssembledImageData, BridgeError, Metadata, CHANNELS};
