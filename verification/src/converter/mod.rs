//! Encoding decoded HEIF images as JPEG.

pub mod scanlines;
pub mod jpeg_writer;
pub mod decoding_options;
pub mod encoder;
pub mod jpeg_encoder;

pub use decoding_options::DecodingOptions;
pub use encoder::{Encoder, ExifMetadata};
pub use jpeg_encoder::{JpegEncoder, JpegEncoderError};
