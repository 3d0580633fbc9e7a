use vstd::prelude::*;

use crate::converter::decoding_options::DecodingOptions;
use crate::converter::encoder::{Encoder, ExifMetadata};
use crate::converter::jpeg_encoder::{
    encoding_outcome, quality_for, EncodeOutcome, JpegEncoder,
};
use crate::exif::exif_data_block::heic_tiff_offset;
use crate::exif::heif_exif::{exif_block_readable, exif_item, exif_read_fails, HeifExif};
use crate::heif::{
    Chroma, ColorSpace, DecodedImage, HeifContextInfo, HeifError, ImageHandleInfo, MetadataBlock,
};
use crate::services::exif_reader::{exif_read_raw_error, read_raw_exif};
use crate::services::heif_api::ConvertToJpegResponse;
use crate::services::status::{is_internal, Status};

verus! {

/// Converts HEIF files to JPEG.
#[derive(Debug, Default)]
pub struct ConvertService {}

/// How to decode the primary image of a file and how to encode it.
#[derive(Debug)]
pub struct ConversionPlan {
    pub encoder: JpegEncoder,
    pub color_space: ColorSpace,
    pub ignore_transformations: bool,
}

/// The message of the Exif check of an image, when it fails: the Exif block
/// cannot be read, or its payload is not parsed by the Exif reader.
pub open spec fn exif_check_error(block: Option<MetadataBlock>) -> Option<Seq<char>> {
    if exif_read_fails(block) {
        Some("Unable to read EXIF from handle"@)
    } else {
        match exif_item(block) {
            None => None,
            Some(raw) => match exif_read_raw_error(
                raw.subrange(4 + heic_tiff_offset(raw), raw.len() as int),
            ) {
                None => None,
                Some(text) => Some("Failed reading EXIF data: "@ + text),
            },
        }
    }
}

/// The file's primary image, when the file opened and lists images.
pub open spec fn primary_handle(context: Result<HeifContextInfo, HeifError>) -> Option<
    ImageHandleInfo,
> {
    match context {
        Ok(ctx) => if ctx.top_level_images > 0 {
            match ctx.primary {
                Ok(h) => Some(h),
                Err(_) => None,
            }
        } else {
            None
        },
        Err(_) => None,
    }
}

/// The message a planning failure is answered with, in the order of the
/// checks; `None` when the conversion can go on.
pub open spec fn plan_error(context: Result<HeifContextInfo, HeifError>) -> Option<Seq<char>> {
    match context {
        Err(e) => Some(e.message@),
        Ok(ctx) => if ctx.top_level_images == 0 {
            Some("HEIC file does not contain any images"@)
        } else {
            match ctx.primary {
                Err(e) => Some(e.message@),
                Ok(h) => match exif_check_error(h.exif_block) {
                    Some(m) => Some(m),
                    None => if h.luma_bits_per_pixel == 0 {
                        Some("Input image has undefined bit-depth"@)
                    } else {
                        None
                    },
                },
            }
        },
    }
}

/// The Exif block of the primary image (if there is one) can be read without
/// the reader's checks failing.
pub open spec fn context_readable(context: Result<HeifContextInfo, HeifError>) -> bool {
    match primary_handle(context) {
        Some(h) => exif_block_readable(h.exif_block),
        None => true,
    }
}

impl ConvertService {
    /// Reads the image's Exif block and has the Exif reader parse its payload.
    pub fn parse_and_trace_log_exif(&self, handle: &ImageHandleInfo, heif_exif: &HeifExif) -> (r:
        Result<(), Status>)
        requires
            exif_block_readable(handle.exif_block),
        ensures
            match exif_check_error(handle.exif_block) {
                None => r is Ok,
                Some(m) => r matches Err(s) && is_internal(s, m),
            },
    {
        let block = match heif_exif.get_exif_metadata(handle) {
            Ok(Some(block)) => block,
            Ok(None) => {
                return Ok(());
            },
            Err(_) => {
                return Err(Status::internal("Unable to read EXIF from handle".to_owned()));
            },
        };
        match read_raw_exif(block.into_payload()) {
            Ok(()) => Ok(()),
            Err(text) => {
                let mut message = "Failed reading EXIF data: ".to_owned();
                message.append(text.as_str());
                Err(Status::internal(message))
            },
        }
    }

    /// The first part of a conversion: checks the opened file and its primary
    /// image, and decides how to decode and encode it.
    pub fn plan_conversion(&self, quality: i32, context: &Result<HeifContextInfo, HeifError>) -> (r:
        Result<ConversionPlan, Status>)
        requires
            context_readable(*context),
        ensures
            match plan_error(*context) {
                Some(m) => r matches Err(s) && is_internal(s, m),
                None => r matches Ok(plan) && {
                    &&& plan.encoder.quality_spec() == quality_for(quality)
                    &&& plan.color_space == ColorSpace::YCbCr(Chroma::C420)
                    &&& plan.ignore_transformations == primary_handle(
                        *context,
                    )->Some_0.has_exif()
                },
            },
    {
        let ctx = match context {
            Ok(ctx) => ctx,
            Err(e) => {
                return Err(Status::internal(e.message.clone()));
            },
        };
        if ctx.top_level_images == 0 {
            return Err(Status::internal("HEIC file does not contain any images".to_owned()));
        }
        let handle = match &ctx.primary {
            Ok(handle) => handle,
            Err(e) => {
                return Err(Status::internal(e.message.clone()));
            },
        };
        let has_alpha = handle.has_alpha;
        let mut decoding_options = DecodingOptions::default();
        let heif_exif = HeifExif {  };
        let encoder = JpegEncoder::new(quality);
        encoder.update_decoding_options(handle, &mut decoding_options, &heif_exif);
        self.parse_and_trace_log_exif(handle, &heif_exif)?;
        let bit_depth = handle.luma_bits_per_pixel;
        if bit_depth == 0 {
            return Err(Status::internal("Input image has undefined bit-depth".to_owned()));
        }
        let color_space = encoder.colorspace(has_alpha);
        Ok(ConversionPlan {
            encoder,
            color_space,
            ignore_transformations: decoding_options.ignore_transformations,
        })
    }

    /// The second part of a conversion: encodes the decoded primary image.
    pub fn finish_conversion(
        &self,
        plan: &ConversionPlan,
        handle: &ImageHandleInfo,
        decoded: &Result<DecodedImage, HeifError>,
    ) -> (r: Result<ConvertToJpegResponse, Status>)
        requires
            decoded matches Ok(image) ==> image.color_space == Some(ColorSpace::YCbCr(Chroma::C420)),
            decoded matches Ok(image) ==> (handle.luma_bits_per_pixel == 8 && image.width is Ok
                && image.height is Ok ==> exif_block_readable(handle.exif_block)),
        ensures
            match decoded {
                Err(e) => r matches Err(s) && is_internal(s, e.message@),
                Ok(image) => match encoding_outcome(plan.encoder.quality_spec(), *handle, *image) {
                    EncodeOutcome::Compressed(bytes) => r matches Ok(response)
                        && response.jpeg@ == bytes,
                    _ => r matches Err(s) && is_internal(s, "Unable to encode the image"@),
                },
            },
    {
        let image = match decoded {
            Ok(image) => image,
            Err(e) => {
                return Err(Status::internal(e.message.clone()));
            },
        };
        let heif_exif = HeifExif {  };
        let bytes = match plan.encoder.encode_to_bytes(handle, image, &heif_exif) {
            Ok(bytes) => bytes,
            Err(_) => {
                return Err(Status::internal("Unable to encode the image".to_owned()));
            },
        };
        Ok(ConvertToJpegResponse { jpeg: bytes })
    }
}

} // verus!
