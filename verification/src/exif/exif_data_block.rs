use vstd::prelude::*;

use crate::exif::exif_endianness::ExifEndianness;

verus! {

/// The item type of untimed Exif metadata in a HEIF file.
pub const UNTIMED_EXIF_ITEM_TYPE: &'static str = "Exif";

/// The six bytes `Exif\0\0` that precede the TIFF header of an Exif block.
pub const EXIF_HEADER: [u8; 6] = [0x45, 0x78, 0x69, 0x66, 0x00, 0x00];

/// `Exif\0\0` as a sequence.
pub open spec fn exif_magic() -> Seq<u8> {
    seq![0x45u8, 0x78u8, 0x69u8, 0x66u8, 0x00u8, 0x00u8]
}

/// The big-endian value of four bytes.
pub open spec fn be_u32_value(b0: u8, b1: u8, b2: u8, b3: u8) -> int {
    b0 * 16777216 + b1 * 65536 + b2 * 256 + b3
}

/// The offset to the TIFF header that a raw HEIF Exif item announces in its
/// first four bytes.
pub open spec fn heic_tiff_offset(raw: Seq<u8>) -> int
    recommends
        raw.len() >= 4,
{
    be_u32_value(raw[0], raw[1], raw[2], raw[3])
}

/// A raw HEIF Exif item that can be split: it holds the four offset bytes,
/// the announced number of header bytes, and those header bytes are `Exif\0\0`.
pub open spec fn is_heic_exif_layout(raw: Seq<u8>) -> bool {
    &&& raw.len() >= 4
    &&& 4 + heic_tiff_offset(raw) <= raw.len()
    &&& raw.subrange(4, 4 + heic_tiff_offset(raw)) == exif_magic()
}

/// The APP1 segment body that carries an Exif block in a JPEG file.
pub open spec fn app1_block(header: Seq<u8>, payload: Seq<u8>) -> Seq<u8> {
    header + payload
}

/// An error of the Exif helpers.
#[derive(Debug)]
pub struct ExifError {
    pub message: String,
}

/// Untimed Exif metadata (ISO/IEC 23008-12:2017(E) Annex A).
#[derive(Debug)]
pub struct ExifDataBlock {
    /// An offset in bytes from the first byte of the item to the TIFF header,
    /// as the item announces it.
    pub tiff_header_offset: u32,
    /// The bytes between the offset field and the TIFF header; `Exif\0\0`.
    pub header: Vec<u8>,
    /// The Exif compliant metadata, starting with the TIFF header.
    pub payload: Vec<u8>,
}

/// Appends the bytes of `src` to `dst`.
pub fn extend_bytes(dst: &mut Vec<u8>, src: &[u8])
    ensures
        final(dst)@ == old(dst)@ + src@,
{
    let ghost start = dst@;
    let mut i: usize = 0;
    while i < src.len()
        invariant
            i <= src.len(),
            dst@ == start + src@.subrange(0, i as int),
        decreases src.len() - i,
    {
        dst.push(src[i]);
        i = i + 1;
        assert(dst@ =~= start + src@.subrange(0, i as int));
    }
    assert(src@.subrange(0, src@.len() as int) =~= src@);
}

/// Copies `src[from..]` into a new vector.
fn copy_from(src: &[u8], from: usize) -> (out: Vec<u8>)
    requires
        from <= src.len(),
    ensures
        out@ == src@.subrange(from as int, src@.len() as int),
{
    let mut out: Vec<u8> = Vec::new();
    let mut i: usize = from;
    while i < src.len()
        invariant
            from <= i <= src.len(),
            out@ == src@.subrange(from as int, i as int),
        decreases src.len() - i,
    {
        out.push(src[i]);
        i = i + 1;
        assert(out@ =~= src@.subrange(from as int, i as int));
    }
    out
}

/// Copies `src[from..to]` into a new vector.
pub(crate) fn copy_range(src: &[u8], from: usize, to: usize) -> (out: Vec<u8>)
    requires
        from <= to <= src.len(),
    ensures
        out@ == src@.subrange(from as int, to as int),
{
    let mut out: Vec<u8> = Vec::new();
    let mut i: usize = from;
    while i < to
        invariant
            from <= i <= to <= src.len(),
            out@ == src@.subrange(from as int, i as int),
        decreases to - i,
    {
        out.push(src[i]);
        i = i + 1;
        assert(out@ =~= src@.subrange(from as int, i as int));
    }
    out
}

impl ExifDataBlock {
    /// The announced offset to the TIFF header.
    pub open spec fn tiff_offset_spec(&self) -> u32 {
        self.tiff_header_offset
    }

    /// The header bytes that preceded the TIFF header.
    pub open spec fn header_spec(&self) -> Seq<u8> {
        self.header@
    }

    /// The Exif compliant metadata, starting with the TIFF header.
    pub open spec fn payload_spec(&self) -> Seq<u8> {
        self.payload@
    }

    /// The block is what splitting `raw` gives: the announced offset, the
    /// header bytes after it and the payload after those.
    pub open spec fn is_split_of(&self, raw: Seq<u8>) -> bool {
        &&& self.tiff_offset_spec() == heic_tiff_offset(raw)
        &&& self.header_spec() == raw.subrange(4, 4 + heic_tiff_offset(raw))
        &&& self.payload_spec() == raw.subrange(4 + heic_tiff_offset(raw), raw.len() as int)
    }

    /// Gives up the block and returns its payload.
    pub fn into_payload(self) -> (payload: Vec<u8>)
        ensures
            payload@ == self.payload_spec(),
    {
        self.payload
    }

    /// Whether `raw` can be split by [`ExifDataBlock::new_from_heic`].
    pub fn heic_layout_ok(raw: &[u8]) -> (ok: bool)
        ensures
            ok == is_heic_exif_layout(raw@),
    {
        if raw.len() < 4 {
            return false;
        }
        let offset = read_be_u32(raw);
        if offset as usize > raw.len() - 4 {
            return false;
        }
        let start: usize = 4 + offset as usize;
        if start - 4 != 6 {
            proof {
                assert(raw@.subrange(4, start as int).len() != exif_magic().len());
            }
            return false;
        }
        let mut i: usize = 0;
        while i < 6
            invariant
                start == 10,
                start <= raw@.len(),
                i <= 6,
                forall|j: int| 0 <= j < i ==> raw@[4 + j] == exif_magic()[j],
            decreases 6 - i,
        {
            if raw[4 + i] != EXIF_HEADER[i] {
                proof {
                    assert(EXIF_HEADER@ =~= exif_magic());
                    assert(raw@.subrange(4, start as int)[i as int] != exif_magic()[i as int]);
                }
                return false;
            }
            proof {
                assert(EXIF_HEADER@ =~= exif_magic());
            }
            i = i + 1;
        }
        assert(raw@.subrange(4, start as int) =~= exif_magic());
        true
    }

    /// Splits a raw HEIF Exif item: four bytes of big-endian offset, then
    /// `offset` header bytes (`Exif\0\0`), then the payload.
    pub fn new_from_heic(raw: Vec<u8>) -> (block: Self)
        requires
            is_heic_exif_layout(raw@),
        ensures
            block.is_split_of(raw@),
            block.header_spec() == exif_magic(),
            block.header_spec() == EXIF_HEADER@,
            block.header_spec().len() == block.tiff_offset_spec(),
            4 + block.header_spec().len() + block.payload_spec().len() == raw@.len(),
    {
        proof {
            lemma_split_item_is_exif(raw@);
            assert(EXIF_HEADER@ =~= exif_magic());
        }
        let offset = read_be_u32(raw.as_slice());
        let tiff_header_start: usize = 4 + offset as usize;
        let header = copy_range(raw.as_slice(), 4, tiff_header_start);
        let payload = copy_from(raw.as_slice(), tiff_header_start);
        ExifDataBlock { tiff_header_offset: offset, header, payload }
    }

    /// Whether the header bytes are `Exif\0\0`.
    pub fn is_exif(&self) -> (r: bool)
        ensures
            r == (self.header_spec() == exif_magic()),
    {
        if self.header.len() != 6 {
            proof {
                assert(self.header@.len() != exif_magic().len());
            }
            return false;
        }
        let mut i: usize = 0;
        while i < 6
            invariant
                self.header@.len() == 6,
                i <= 6,
                forall|j: int| 0 <= j < i ==> self.header@[j] == exif_magic()[j],
            decreases 6 - i,
        {
            proof {
                assert(EXIF_HEADER@ =~= exif_magic());
            }
            if self.header[i] != EXIF_HEADER[i] {
                return false;
            }
            i = i + 1;
        }
        assert(self.header@ =~= exif_magic());
        true
    }

    /// Returns a JFIF APP1 compatible block: the header followed by the payload.
    pub fn to_app1_compatible_block(&self) -> (block: Vec<u8>)
        ensures
            block@ == app1_block(self.header_spec(), self.payload_spec()),
    {
        let mut block: Vec<u8> = Vec::new();
        extend_bytes(&mut block, self.header.as_slice());
        extend_bytes(&mut block, self.payload.as_slice());
        block
    }

    /// The byte order announced by the first two bytes of the payload.
    pub fn get_endianness(&self) -> (r: Result<ExifEndianness, ExifError>)
        requires
            self.payload_spec().len() >= 2,
        ensures
            (self.payload_spec()[0] == 0x49 && self.payload_spec()[1] == 0x49) ==> r == Ok::<
                ExifEndianness,
                ExifError,
            >(ExifEndianness::Intel),
            (self.payload_spec()[0] == 0x4d && self.payload_spec()[1] == 0x4d) ==> r == Ok::<
                ExifEndianness,
                ExifError,
            >(ExifEndianness::Motorola),
            !(self.payload_spec()[0] == 0x49 && self.payload_spec()[1] == 0x49) && !(self.payload_spec()[0] == 0x4d
                && self.payload_spec()[1] == 0x4d) ==> (r matches Err(e) && e.message@
                == "Invalid endianness encoding"@),
    {
        let b0 = self.payload[0];
        let b1 = self.payload[1];
        if b0 == 0x49 && b1 == 0x49 {
            Ok(ExifEndianness::Intel)
        } else if b0 == 0x4d && b1 == 0x4d {
            Ok(ExifEndianness::Motorola)
        } else {
            Err(ExifError { message: "Invalid endianness encoding".to_owned() })
        }
    }
}

impl Default for ExifDataBlock {
    fn default() -> (block: Self)
        ensures
            block.tiff_offset_spec() == 0,
            block.header_spec() == Seq::<u8>::empty(),
            block.payload_spec() == Seq::<u8>::empty(),
    {
        ExifDataBlock { tiff_header_offset: 0, header: Vec::new(), payload: Vec::new() }
    }
}

/// Law: the APP1 block of a split HEIF Exif item is the item without its
/// four offset bytes.
pub proof fn lemma_app1_block_of_split_item(raw: Seq<u8>)
    requires
        is_heic_exif_layout(raw),
    ensures
        app1_block(
            raw.subrange(4, 4 + heic_tiff_offset(raw)),
            raw.subrange(4 + heic_tiff_offset(raw), raw.len() as int),
        ) == raw.subrange(4, raw.len() as int),
{
    assert(raw.subrange(4, 4 + heic_tiff_offset(raw)) + raw.subrange(
        4 + heic_tiff_offset(raw),
        raw.len() as int,
    ) =~= raw.subrange(4, raw.len() as int));
}

/// Law: a HEIF Exif item that can be split announces a six byte header, and
/// the header it splits off is `Exif\0\0`, so the block is recognised as Exif.
pub proof fn lemma_split_item_is_exif(raw: Seq<u8>)
    requires
        is_heic_exif_layout(raw),
    ensures
        heic_tiff_offset(raw) == 6,
        raw.subrange(4, 4 + heic_tiff_offset(raw)) == exif_magic(),
{
    assert(raw.subrange(4, 4 + heic_tiff_offset(raw)).len() == exif_magic().len());
}

/// Law: an item made of the offset 6, `Exif\0\0` and any payload, of any
/// length, can be split, and splitting it gives back that payload.
pub proof fn lemma_any_payload_splits(payload: Seq<u8>)
    ensures
        is_heic_exif_layout(seq![0u8, 0u8, 0u8, 6u8] + exif_magic() + payload),
        heic_tiff_offset(seq![0u8, 0u8, 0u8, 6u8] + exif_magic() + payload) == 6,
        (seq![0u8, 0u8, 0u8, 6u8] + exif_magic() + payload).subrange(
            10,
            10 + payload.len() as int,
        ) == payload,
{
    let raw = seq![0u8, 0u8, 0u8, 6u8] + exif_magic() + payload;
    assert(raw[0] == 0u8 && raw[1] == 0u8 && raw[2] == 0u8 && raw[3] == 6u8);
    assert(heic_tiff_offset(raw) == 6);
    assert(raw.subrange(4, 10) =~= exif_magic());
    assert(raw.subrange(10, 10 + payload.len() as int) =~= payload);
}

/// The big-endian `u32` in the first four bytes of `raw`.
fn read_be_u32(raw: &[u8]) -> (v: u32)
    requires
        raw@.len() >= 4,
    ensures
        v as int == heic_tiff_offset(raw@),
{
    let b0 = raw[0] as u32;
    let b1 = raw[1] as u32;
    let b2 = raw[2] as u32;
    let b3 = raw[3] as u32;
    b0 * 16777216 + b1 * 65536 + b2 * 256 + b3
}

} // verus!
