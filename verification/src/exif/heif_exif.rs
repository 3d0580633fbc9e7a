use vstd::prelude::*;

use crate::exif::exif_data_block::{
    copy_range, exif_magic, is_heic_exif_layout, lemma_split_item_is_exif, ExifDataBlock,
};
use crate::converter::encoder::ExifMetadata;
use crate::heif::{HeifError, ImageHandleInfo, MetadataBlock};

verus! {

/// Reads the untimed Exif metadata of a HEIF image.
#[derive(Debug)]
pub struct HeifExif {}

/// The metadata block can be read without the checks of the reader failing:
/// when it is announced non-empty and its bytes are handed out, they are as
/// many as announced and they split into offset, `Exif\0\0` and payload.
pub open spec fn exif_block_readable(block: Option<MetadataBlock>) -> bool {
    match block {
        None => true,
        Some(m) => m.size == 0 || match m.data {
            Ok(bytes) => bytes@.len() == m.size && is_heic_exif_layout(bytes@),
            Err(_) => true,
        },
    }
}

/// The raw Exif item that the reader splits, if any.
pub open spec fn exif_item(block: Option<MetadataBlock>) -> Option<Seq<u8>> {
    match block {
        Some(m) => if m.size != 0 {
            match m.data {
                Ok(bytes) => Some(bytes@),
                Err(_) => None,
            }
        } else {
            None
        },
        None => None,
    }
}

/// The reader fails: the block is announced non-empty and its bytes could
/// not be read.
pub open spec fn exif_read_fails(block: Option<MetadataBlock>) -> bool {
    block matches Some(m) && m.size != 0 && m.data is Err
}

/// A copy of a decoder error.
pub fn copy_heif_error(e: &HeifError) -> (c: HeifError)
    ensures
        c.message@ == e.message@,
{
    HeifError { message: e.message.clone() }
}

impl ExifMetadata for HeifExif {
    /// Whether the image carries Exif metadata blocks.
    fn has_exif_metadata(&self, handle: &ImageHandleInfo) -> (r: bool)
        ensures
            r == handle.has_exif(),
    {
        handle.exif_block.is_some()
    }

    /// Reads the first Exif metadata block of the image: none when the image
    /// lists no block or an empty one, the decoder's error when the bytes
    /// cannot be read, and otherwise the block split from its bytes.
    fn get_exif_metadata(&self, handle: &ImageHandleInfo) -> (r: Result<
        Option<ExifDataBlock>,
        HeifError,
    >)
        ensures
            exif_read_fails(handle.exif_block) ==> (r matches Err(e) && handle.exif_block matches Some(
                m,
            ) && m.data matches Err(d) && e.message@ == d.message@),
            !exif_read_fails(handle.exif_block) ==> (r matches Ok(o) && match exif_item(
                handle.exif_block,
            ) {
                Some(raw) => o matches Some(b) && b.is_split_of(raw),
                None => o is None,
            }),
            !handle.has_exif() ==> r matches Ok(None),
            handle.exif_block matches Some(m) && m.size == 0 ==> r matches Ok(None),
            r matches Ok(Some(b)) ==> {
                &&& handle.has_exif()
                &&& b.header_spec() == exif_magic()
                &&& b.tiff_offset_spec() == 6
                &&& b.payload_spec().len() + 10 == handle.exif_block->Some_0.size
            },
    {
        match &handle.exif_block {
            None => Ok(None),
            Some(block) => {
                if block.size == 0 {
                    return Ok(None);
                }
                match &block.data {
                    Err(e) => Err(copy_heif_error(e)),
                    Ok(bytes) => {
                        let raw = copy_range(bytes.as_slice(), 0, bytes.len());
                        assert(raw@ =~= bytes@);
                        proof {
                            lemma_split_item_is_exif(raw@);
                        }
                        Ok(Some(ExifDataBlock::new_from_heic(raw)))
                    },
                }
            },
        }
    }
}

} // verus!
