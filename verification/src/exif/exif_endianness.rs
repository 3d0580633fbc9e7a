use vstd::prelude::*;

verus! {

/// Byte order of the TIFF structure inside an Exif payload.
#[derive(Debug, Clone, Copy, PartialEq, Eq, Structural)]
pub enum ExifEndianness {
    /// `II`: little endian.
    Intel,
    /// `MM`: big endian.
    Motorola,
}

} // verus!
