//! The messages of the HEIF conversion API.

use vstd::prelude::*;

verus! {

/// Asks for a HEIF file to be converted to JPEG with the given quality.
#[derive(Debug)]
pub struct ConvertToJpegRequest {
    pub heif: Vec<u8>,
    pub quality: i32,
}

/// The JPEG file a conversion produced.
#[derive(Debug)]
pub struct ConvertToJpegResponse {
    pub jpeg: Vec<u8>,
}

/// Asks for information about a HEIF file.
#[derive(Debug)]
pub struct GetInfoRequest {
    pub heif: Vec<u8>,
}

/// Information about a HEIF file.
#[derive(Debug, Clone, Copy, PartialEq, Eq, Structural)]
pub struct GetInfoResponse {
    pub width: u32,
    pub height: u32,
}

/// Properties of one image of a HEIF file.
#[derive(Debug, Clone, Copy, PartialEq, Eq, Structural)]
pub struct ImageInfo {
    pub width: u32,
    pub height: u32,
    pub chroma_bits_per_pixel: u32,
    pub luma_bits_per_pixel: u32,
    pub ispe_width: i32,
    pub ispe_height: i32,
    pub has_alpha: bool,
    pub has_depth: bool,
    pub is_premultiplied_alpha: bool,
}

/// A thumbnail of an image.
#[derive(Debug, Clone, Copy, PartialEq, Eq, Structural)]
pub struct ThumbnailImageInfo {
    pub image_id: u32,
    pub info: Option<ImageInfo>,
}

/// A depth image of an image.
#[derive(Debug, Clone, Copy, PartialEq, Eq, Structural)]
pub struct DepthImageInfo {
    pub image_id: u32,
    pub info: Option<ImageInfo>,
}

/// A top-level image of a HEIF file with its thumbnails and depth images.
#[derive(Debug)]
pub struct TopLevelImageInfo {
    pub is_primary: bool,
    pub image_id: u32,
    pub info: Option<ImageInfo>,
    pub thumbnails: Vec<ThumbnailImageInfo>,
    pub depths: Vec<DepthImageInfo>,
}

} // verus!
