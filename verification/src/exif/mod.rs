//! Untimed Exif metadata as HEIF files store it.

pub mod exif_data_block;
pub mod exif_endianness;
pub mod heif_exif;

pub use exif_data_block::{ExifDataBlock, ExifError, EXIF_HEADER, UNTIMED_EXIF_ITEM_TYPE};
pub use exif_endianness::ExifEndianness;
pub use heif_exif::HeifExif;
