//! Pixel buffers paired with their shape.

use vstd::prelude::*;

verus! {

/// Samples per pixel in the baseline layout: red, green, blue.
pub const CHANNELS: u8 = 3;

/// Number of bytes in a tightly packed, row-major, channel-interleaved buffer
/// of `width` by `height` pixels.
pub open spec fn buffer_len(width: nat, height: nat) -> nat {
    width * height * (CHANNELS as nat)
}

/// Why an operation of the bridge produced no output.
#[derive(Clone, Copy, Debug, PartialEq, Eq, Structural)]
pub enum BridgeError {
    /// The buffer does not hold exactly `width * height * CHANNELS` bytes.
    DimensionMismatch,
    /// The codec gave up on an image of consistent shape.
    Codec,
}

/// Tells whether a buffer of `len` bytes holds exactly `width` by `height`
/// pixels of the baseline layout.
pub fn fits_dimensions(len: usize, width: u32, height: u32) -> (ok: bool)
    ensures
        ok <==> len as nat == buffer_len(width as nat, height as nat),
{
    assert(width * height <= 0xffff_fffe_0000_0001) by (nonlinear_arith)
        requires
            width <= 0xffff_ffff,
            height <= 0xffff_ffff,
    ;
    let pixels: u128 = (width as u128) * (height as u128);
    assert(pixels * CHANNELS == pixels * 3);
    let need: u128 = pixels * (CHANNELS as u128);
    len as u128 == need
}

/// A pixel grid as the codec hands it out: dimensions and raw samples, not
/// yet held against each other.
#[derive(Debug)]
pub struct Raster {
    pub width: u32,
    pub height: u32,
    pub pixels: Vec<u8>,
}

/// What a [`Raster`] holds.
pub struct RasterView {
    pub width: u32,
    pub height: u32,
    pub pixels: Seq<u8>,
}

impl View for Raster {
    type V = RasterView;

    open spec fn view(&self) -> RasterView {
        RasterView { width: self.width, height: self.height, pixels: self.pixels@ }
    }
}

/// What a [`Metadata`] says: the shape of an image.
pub struct MetadataView {
    pub width: nat,
    pub height: nat,
    pub channels: nat,
}

/// Shape of an image. Immutable once made; the channel count is always
/// [`CHANNELS`].
#[derive(Clone, Copy, Debug)]
pub struct Metadata {
    width: u32,
    height: u32,
    channels: u8,
}

impl View for Metadata {
    type V = MetadataView;

    closed spec fn view(&self) -> MetadataView {
        MetadataView {
            width: self.width as nat,
            height: self.height as nat,
            channels: self.channels as nat,
        }
    }
}

impl Metadata {
    /// Holds of every value: the layout is the baseline one.
    #[verifier::type_invariant]
    pub open spec fn baseline(&self) -> bool {
        self@.channels == CHANNELS
    }

    /// The shape of a `width` by `height` image in the baseline layout.
    pub fn new(width: u32, height: u32) -> (m: Metadata)
        ensures
            m@ == shape(width as nat, height as nat),
    {
        Metadata { width, height, channels: CHANNELS }
    }

    /// Gets the width of the image.
    pub fn width(&self) -> (w: u32)
        ensures
            w == self@.width,
    {
        self.width
    }

    /// Gets the height of the image.
    pub fn height(&self) -> (h: u32)
        ensures
            h == self@.height,
    {
        self.height
    }

    /// Gets the number of channels in the image.
    pub fn channels(&self) -> (c: u8)
        ensures
            c == self@.channels,
            c == CHANNELS,
    {
        proof {
            use_type_invariant(self);
        }
        self.channels
    }
}

/// The shape of a `width` by `height` image in the baseline layout.
pub open spec fn shape(width: nat, height: nat) -> MetadataView {
    MetadataView { width, height, channels: CHANNELS as nat }
}

/// What an [`AssembledImageData`] holds: raw pixels and their shape.
pub struct AssembledView {
    pub pixels: Seq<u8>,
    pub metadata: MetadataView,
}

impl AssembledView {
    /// The buffer holds exactly the pixels that the shape announces, in the
    /// baseline layout.
    pub open spec fn wf(self) -> bool {
        &&& self.metadata.channels == CHANNELS
        &&& self.metadata.width <= u32::MAX
        &&& self.metadata.height <= u32::MAX
        &&& self.pixels.len() == buffer_len(self.metadata.width, self.metadata.height)
    }
}

/// The pairing of `pixels` with the baseline shape `width` by `height`.
pub open spec fn assembled(pixels: Seq<u8>, width: nat, height: nat) -> AssembledView {
    AssembledView { pixels, metadata: shape(width, height) }
}

/// The image that stands in for input that could not be decoded: one black
/// pixel.
pub open spec fn placeholder_view() -> AssembledView {
    assembled(seq![0u8, 0u8, 0u8], 1, 1)
}

/// The placeholder is a consistent image: three bytes for one pixel.
pub proof fn lemma_placeholder_is_consistent()
    ensures
        placeholder_view().wf(),
        placeholder_view().pixels.len() == 3,
        placeholder_view().metadata == shape(1, 1),
{
    assert(buffer_len(1, 1) == 3) by (nonlinear_arith)
        requires
            CHANNELS == 3,
    ;
}

/// Assembled image data including raw pixels and metadata. The buffer always
/// holds exactly `width * height * CHANNELS` bytes.
pub struct AssembledImageData {
    data: Vec<u8>,
    metadata: Metadata,
}

impl View for AssembledImageData {
    type V = AssembledView;

    closed spec fn view(&self) -> AssembledView {
        AssembledView { pixels: self.data@, metadata: self.metadata@ }
    }
}

impl AssembledImageData {
    /// Holds of every value: buffer and shape agree.
    #[verifier::type_invariant]
    pub open spec fn consistent(&self) -> bool {
        self@.wf()
    }

    /// The one-pixel, zero-valued image that stands in for input that could
    /// not be decoded.
    pub fn placeholder() -> (img: AssembledImageData)
        ensures
            img@ == placeholder_view(),
    {
        let mut data: Vec<u8> = Vec::with_capacity(3);
        data.push(0);
        data.push(0);
        data.push(0);
        assert(data@ =~= seq![0u8, 0u8, 0u8]);
        AssembledImageData { data, metadata: Metadata::new(1, 1) }
    }

    /// Retrieves the raw image data.
    pub fn data(&self) -> (d: &[u8])
        ensures
            d@ == self@.pixels,
            self@.wf(),
    {
        proof {
            use_type_invariant(self);
        }
        self.data.as_slice()
    }

    /// Retrieves the image metadata.
    pub fn metadata(&self) -> (m: Metadata)
        ensures
            m@ == self@.metadata,
            self@.wf(),
    {
        proof {
            use_type_invariant(self);
        }
        self.metadata
    }

    /// Gives up the image, handing its buffer and its shape to the caller
    /// without copying the pixels.
    pub fn into_parts(self) -> (parts: (Vec<u8>, Metadata))
        ensures
            parts.0@ == self@.pixels,
            parts.1@ == self@.metadata,
            self@.wf(),
    {
        proof {
            use_type_invariant(&self);
        }
        (self.data, self.metadata)
    }
}

/// Pairs a raw pixel buffer with its declared shape, taking the buffer over
/// without copying it. Fails, producing no image, exactly when the buffer does
/// not hold `width * height * CHANNELS` bytes.
pub fn assemble(buffer: Vec<u8>, width: u32, height: u32) -> (r: Result<AssembledImageData, BridgeError>)
    ensures
        r is Ok <==> buffer@.len() == buffer_len(width as nat, height as nat),
        r matches Ok(img) ==> img@ == assembled(buffer@, width as nat, height as nat),
        r matches Err(e) ==> e == BridgeError::DimensionMismatch,
{
    if fits_dimensions(buffer.len(), width, height) {
        Ok(AssembledImageData { data: buffer, metadata: Metadata::new(width, height) })
    } else {
        Err(BridgeError::DimensionMismatch)
    }
}

} // verus!
