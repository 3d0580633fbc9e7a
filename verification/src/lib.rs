//! HEIF (`.heic`) to JPEG conversion: the decisions, byte layouts and
//! pixel rearrangements of the conversion service, with their contracts.

pub mod converter;
pub mod exif;
pub mod heif;
pub mod jpeg;
pub mod services;
