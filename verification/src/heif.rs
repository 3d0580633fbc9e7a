//! Plain values that stand for what the HEIF decoder reports about a file.
//!
//! The decoder itself runs outside this crate; these types carry exactly the
//! facts that the conversion logic reads.

use vstd::prelude::*;

verus! {

/// An error reported by the HEIF decoder.
#[derive(Debug)]
pub struct HeifError {
    pub message: String,
}

/// Chroma subsampling of a YCbCr image.
#[derive(Debug, Clone, Copy, PartialEq, Eq, Structural)]
pub enum Chroma {
    C420,
    C422,
    C444,
}

/// The colour space an image is decoded into.
#[derive(Debug, Clone, Copy, PartialEq, Eq, Structural)]
pub enum ColorSpace {
    Undefined,
    YCbCr(Chroma),
    Rgb,
    Monochrome,
}

/// One plane of a decoded image: its bytes and the distance, in bytes,
/// between the starts of two consecutive rows.
#[derive(Debug)]
pub struct Plane {
    pub data: Vec<u8>,
    pub stride: usize,
}

/// The planes of a decoded YCbCr image.
#[derive(Debug)]
pub struct ImagePlanes {
    pub y: Option<Plane>,
    pub cb: Option<Plane>,
    pub cr: Option<Plane>,
}

/// A decoded image: its colour space, the size of its luma channel
/// (or the decoder's error when asked for it) and its planes.
#[derive(Debug)]
pub struct DecodedImage {
    pub color_space: Option<ColorSpace>,
    pub width: Result<u32, HeifError>,
    pub height: Result<u32, HeifError>,
    pub planes: ImagePlanes,
}

/// A metadata item of an image: the size the decoder announces for it and
/// the bytes it hands out (or its error).
#[derive(Debug)]
pub struct MetadataBlock {
    pub size: usize,
    pub data: Result<Vec<u8>, HeifError>,
}

/// What the conversion reads from an image handle.
#[derive(Debug)]
pub struct ImageHandleInfo {
    pub has_alpha: bool,
    pub luma_bits_per_pixel: u8,
    /// The first metadata block of type `Exif`, when the handle lists any.
    pub exif_block: Option<MetadataBlock>,
}

impl ImageHandleInfo {
    /// The handle lists metadata blocks of type `Exif` (it then has a first
    /// one).
    pub open spec fn has_exif(&self) -> bool {
        self.exif_block is Some
    }
}

/// What the conversion reads from a HEIF file once it has been opened.
#[derive(Debug)]
pub struct HeifContextInfo {
    pub top_level_images: usize,
    pub primary: Result<ImageHandleInfo, HeifError>,
}

} // verus!
