use vstd::prelude::*;

use crate::converter::decoding_options::DecodingOptions;
use crate::exif::exif_data_block::ExifDataBlock;
use crate::exif::heif_exif::{exif_block_readable, HeifExif};
use crate::heif::{Chroma, ColorSpace, DecodedImage, HeifError, ImageHandleInfo};

verus! {

/// An encoder of decoded HEIF images.
pub trait Encoder {
    /// Why encoding can fail.
    type Error;

    /// The colour space the encoder takes images in.
    spec fn input_colorspace(&self) -> ColorSpace;

    /// The colour space to decode into.
    fn colorspace(&self, has_alpha: bool) -> (c: ColorSpace)
        ensures
            c == self.input_colorspace(),
    ;

    /// The chroma subsampling to decode into.
    fn chroma(&self, has_alpha: bool, bit_depth: u32) -> Chroma;

    /// Adjusts the decoding options to what the encoder needs.
    fn update_decoding_options(
        &self,
        handle: &ImageHandleInfo,
        decoding_options: &mut DecodingOptions,
        heif_exif: &HeifExif,
    );

    /// Encodes an image decoded into the encoder's colour space. The Exif
    /// block is read only once the image has 8 bits per luma sample and known
    /// dimensions; it must then be readable.
    fn encode_to_bytes(
        &self,
        handle: &ImageHandleInfo,
        image: &DecodedImage,
        heif_exif: &HeifExif,
    ) -> Result<Vec<u8>, Self::Error>
        requires
            image.color_space == Some(self.input_colorspace()),
            handle.luma_bits_per_pixel == 8 && image.width is Ok && image.height is Ok
                ==> exif_block_readable(handle.exif_block),
    ;
}

/// A reader of an image's Exif metadata.
pub trait ExifMetadata {
    /// Whether the image carries Exif metadata.
    fn has_exif_metadata(&self, handle: &ImageHandleInfo) -> bool;

    /// The image's Exif metadata block, if it has one.
    fn get_exif_metadata(&self, handle: &ImageHandleInfo) -> Result<Option<ExifDataBlock>, HeifError>
        requires
            exif_block_readable(handle.exif_block),
    ;
}

} // verus!
