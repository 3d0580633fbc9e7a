use vstd::prelude::*;

verus! {

/// How a HEIF image is to be decoded.
#[derive(Debug)]
pub struct DecodingOptions {
    pub ignore_transformations: bool,
    pub convert_hdr_to_8bit: bool,
}

impl DecodingOptions {
    /// Sets whether the decoder ignores the image's transformations
    /// (rotation, mirroring, cropping); the other option is kept.
    pub fn set_ignore_transformations(&mut self, value: bool) -> (r: &mut Self)
        ensures
            r.ignore_transformations == value,
            r.convert_hdr_to_8bit == old(self).convert_hdr_to_8bit,
            *final(self) == *final(r),
    {
        self.ignore_transformations = value;
        self
    }

    /// Sets whether the decoder converts high dynamic range images to 8 bits
    /// per sample; the other option is kept.
    pub fn set_convert_hdr_to_8bit(&mut self, value: bool) -> (r: &mut Self)
        ensures
            r.convert_hdr_to_8bit == value,
            r.ignore_transformations == old(self).ignore_transformations,
            *final(self) == *final(r),
    {
        self.convert_hdr_to_8bit = value;
        self
    }
}

impl Default for DecodingOptions {
    fn default() -> (options: Self)
        ensures
            !options.ignore_transformations,
            !options.convert_hdr_to_8bit,
    {
        DecodingOptions { ignore_transformations: false, convert_hdr_to_8bit: false }
    }
}

} // verus!
