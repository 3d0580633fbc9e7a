use vstd::prelude::*;

use mozjpeg::compress::CompressStarted;

use crate::converter::decoding_options::DecodingOptions;
use crate::converter::encoder::{Encoder, ExifMetadata};
use crate::converter::jpeg_writer::{
    finish_compressor, jpeg_app1_segments, jpeg_file, jpeg_scanlines, jpeg_settings, jpeg_setup,
    new_ycbcr_compressor, set_fastest_defaults, set_optimize_coding, set_quality,
    set_scan_all_components, set_size, setup_size, start_compress, write_app1_segment,
    write_scanline, known_setting_call, only_known_settings, size_accepted, JPEG_MAX_DIMENSION,
    JPEG_MAX_MARKER_LEN, OP_FASTEST_DEFAULTS,
    OP_OPTIMIZE_CODING, OP_QUALITY, OP_SCAN_ALL_COMPONENTS, OP_SIZE,
};
use crate::converter::scanlines::{
    interleave_row, planes_fit, planes_fit_exec, ycbcr_scanline, ycbcr_scanlines,
};
use crate::exif::exif_data_block::{app1_block, lemma_app1_block_of_split_item, ExifDataBlock};
use crate::exif::heif_exif::{copy_heif_error, exif_item, exif_read_fails, HeifExif};
use crate::heif::{Chroma, ColorSpace, DecodedImage, HeifError, ImageHandleInfo, ImagePlanes};

verus! {

/// Quality used when the requested one is outside `0..=100`.
pub const DEFAULT_QUALITY: u32 = 90;

/// Why an image could not be encoded as JPEG.
#[derive(Debug)]
pub enum JpegEncoderError {
    /// Only images with 8 bits per luma sample can be encoded.
    BitsPerPixel(u8),
    /// The decoder could not report the image's dimensions.
    InvalidSize(HeifError),
    /// The image's Exif metadata could not be read.
    Metadata(HeifError),
    /// The compressor did not hand out the compressed data.
    CompressionFailed,
    /// The compressor could not run on this image (it aborts on it).
    MozJpegPanic,
}

/// Encodes YCbCr 4:2:0 images as JPEG with a fixed quality.
#[derive(Debug)]
pub struct JpegEncoder {
    quality: u32,
}

/// The quality an encoder keeps for a requested quality.
pub open spec fn quality_for(requested: i32) -> u32 {
    if requested < 0 || requested > 100 {
        DEFAULT_QUALITY
    } else {
        requested as u32
    }
}

/// Law: a quality outside `0..=100` gives the same encoder quality as the
/// default quality, and every encoder quality is within `0..=100`.
pub proof fn lemma_out_of_range_quality_is_default(requested: i32)
    ensures
        quality_for(requested) <= 100,
        (requested < 0 || requested > 100) ==> quality_for(requested) == quality_for(
            DEFAULT_QUALITY as i32,
        ),
        (0 <= requested <= 100) ==> quality_for(requested) == requested,
{
}

/// The bytes of an optional plane (empty when it is missing).
pub open spec fn plane_data(p: Option<crate::heif::Plane>) -> Seq<u8> {
    match p {
        Some(plane) => plane.data@,
        None => Seq::empty(),
    }
}

/// The row stride of an optional plane (0 when it is missing).
pub open spec fn plane_stride(p: Option<crate::heif::Plane>) -> int {
    match p {
        Some(plane) => plane.stride as int,
        None => 0,
    }
}

/// The APP1 segment that carries a raw HEIF Exif item: the item without its
/// four offset bytes.
pub open spec fn app1_of_item(item: Option<Seq<u8>>) -> Seq<Seq<u8>> {
    match item {
        Some(raw) => seq![raw.subrange(4, raw.len() as int)],
        None => Seq::empty(),
    }
}

/// The APP1 segment that carries an Exif block, if any.
pub open spec fn app1_of_block(exif: Option<ExifDataBlock>) -> Seq<Seq<u8>> {
    match exif {
        Some(b) => seq![app1_block(b.header_spec(), b.payload_spec())],
        None => Seq::empty(),
    }
}

/// The compressor can run on the image: all three planes are there, the
/// size is within libjpeg's limits, the planes hold every byte read and the
/// APP1 segments are short enough.
pub open spec fn can_compress(
    width: int,
    height: int,
    planes: ImagePlanes,
    app1_segments: Seq<Seq<u8>>,
) -> bool {
    &&& planes.y is Some
    &&& planes.cb is Some
    &&& planes.cr is Some
    &&& 1 <= width <= JPEG_MAX_DIMENSION
    &&& 1 <= height <= JPEG_MAX_DIMENSION
    &&& planes_fit(
        plane_data(planes.y).len() as int,
        plane_data(planes.cb).len() as int,
        plane_data(planes.cr).len() as int,
        plane_stride(planes.y),
        plane_stride(planes.cb),
        plane_stride(planes.cr),
        width,
        height,
    )
    &&& forall|i: int|
        0 <= i < app1_segments.len() ==> #[trigger] app1_segments[i].len() <= JPEG_MAX_MARKER_LEN
}

/// The interleaved scanlines of a `width` x `height` image.
pub open spec fn image_scanlines(planes: ImagePlanes, width: int, height: int) -> Seq<Seq<u8>> {
    ycbcr_scanlines(
        plane_data(planes.y),
        plane_data(planes.cb),
        plane_data(planes.cr),
        plane_stride(planes.y),
        plane_stride(planes.cb),
        plane_stride(planes.cr),
        width,
        height,
    )
}

/// The JPEG file for an image: the compressor's file over the settings calls,
/// the APP1 segments and the interleaved scanlines.
pub open spec fn encoded_jpeg(
    width: int,
    height: int,
    planes: ImagePlanes,
    app1_segments: Seq<Seq<u8>>,
    setup: Seq<Seq<int>>,
) -> Seq<u8> {
    jpeg_file(setup, app1_segments, image_scanlines(planes, width, height))
}

/// The settings calls of the conversion service, in order: all components in
/// one scan, the size, the fastest defaults, optimized Huffman coding, the
/// quality.
pub open spec fn service_setup(width: int, height: int, quality: int) -> Seq<Seq<int>> {
    seq![
        seq![OP_SCAN_ALL_COMPONENTS as int],
        seq![OP_SIZE as int, width, height],
        seq![OP_FASTEST_DEFAULTS as int],
        seq![OP_OPTIMIZE_CODING as int, 1int],
        seq![OP_QUALITY as int, quality],
    ]
}

/// What encoding an image comes to.
pub enum EncodeOutcome {
    BitsPerPixel(u8),
    InvalidSize(Seq<char>),
    Metadata(Seq<char>),
    CompressorAborts,
    Compressed(Seq<u8>),
}

/// What [`JpegEncoder::encode_to_bytes`] comes to, in the order of its checks.
pub open spec fn encoding_outcome(
    quality: u32,
    handle: ImageHandleInfo,
    image: DecodedImage,
) -> EncodeOutcome {
    if handle.luma_bits_per_pixel != 8 {
        EncodeOutcome::BitsPerPixel(handle.luma_bits_per_pixel)
    } else {
        match image.width {
            Err(e) => EncodeOutcome::InvalidSize(e.message@),
            Ok(w) => match image.height {
                Err(e) => EncodeOutcome::InvalidSize(e.message@),
                Ok(h) => match handle.exif_block {
                    Some(m) if m.size != 0 && m.data is Err => EncodeOutcome::Metadata(
                        m.data->Err_0.message@,
                    ),
                    _ => {
                        let app1 = app1_of_item(exif_item(handle.exif_block));
                        if can_compress(w as int, h as int, image.planes, app1) {
                            EncodeOutcome::Compressed(
                                encoded_jpeg(
                                    w as int,
                                    h as int,
                                    image.planes,
                                    app1,
                                    service_setup(w as int, h as int, quality as int),
                                ),
                            )
                        } else {
                            EncodeOutcome::CompressorAborts
                        }
                    },
                },
            },
        }
    }
}

/// The result of an encoding agrees with its outcome.
pub open spec fn result_agrees(r: Result<Vec<u8>, JpegEncoderError>, o: EncodeOutcome) -> bool {
    match o {
        EncodeOutcome::BitsPerPixel(b) => r matches Err(JpegEncoderError::BitsPerPixel(c))
            && c == b,
        EncodeOutcome::InvalidSize(m) => r matches Err(JpegEncoderError::InvalidSize(e))
            && e.message@ == m,
        EncodeOutcome::Metadata(m) => r matches Err(JpegEncoderError::Metadata(e)) && e.message@
            == m,
        EncodeOutcome::CompressorAborts => r matches Err(JpegEncoderError::MozJpegPanic),
        EncodeOutcome::Compressed(bytes) => r matches Ok(v) && v@ == bytes,
    }
}

/// Law: the conversion service's settings calls are, in order, all
/// components in one scan, the image's own size, the fastest defaults,
/// optimized Huffman coding, and last the encoder's own quality.
pub proof fn lemma_service_setup_calls(width: int, height: int, quality: int)
    ensures
        service_setup(width, height, quality) == seq![
            seq![0int],
            seq![1int, width, height],
            seq![2int],
            seq![3int, 1int],
            seq![4int, quality],
        ],
        service_setup(width, height, quality).last() == seq![OP_QUALITY as int, quality],
        service_setup(width, height, quality)[1] == seq![OP_SIZE as int, width, height],
{
    assert(service_setup(width, height, quality) =~= seq![
        seq![0int],
        seq![1int, width, height],
        seq![2int],
        seq![3int, 1int],
        seq![4int, quality],
    ]);
}

/// Law: an 8-bit image of known size whose Exif item can be read and is not
/// empty is encoded, whenever the compressor can run on it, into the file
/// that MozJPEG makes from the service's settings calls (the last of them
/// setting the encoder's own quality), the Exif item without its four offset
/// bytes as the one APP1 segment, whatever its length, and the interleaved
/// rows of the image's planes.
pub proof fn lemma_encoding_carries_quality_and_exif(
    quality: u32,
    handle: ImageHandleInfo,
    image: DecodedImage,
    width: u32,
    height: u32,
    raw: Seq<u8>,
)
    requires
        handle.luma_bits_per_pixel == 8,
        image.width matches Ok(w) && w == width,
        image.height matches Ok(h) && h == height,
        exif_item(handle.exif_block) == Some(raw),
        can_compress(
            width as int,
            height as int,
            image.planes,
            seq![raw.subrange(4, raw.len() as int)],
        ),
    ensures
        encoding_outcome(quality, handle, image) == EncodeOutcome::Compressed(
            jpeg_file(
                seq![
                    seq![0int],
                    seq![1int, width as int, height as int],
                    seq![2int],
                    seq![3int, 1int],
                    seq![4int, quality as int],
                ],
                seq![raw.subrange(4, raw.len() as int)],
                image_scanlines(image.planes, width as int, height as int),
            ),
        ),
{
    lemma_service_setup_calls(width as int, height as int, quality as int);
    assert(app1_of_item(exif_item(handle.exif_block)) =~= seq![
        raw.subrange(4, raw.len() as int),
    ]);
}

/// Law: an 8-bit image of known size without Exif metadata (or with an empty
/// Exif item) is encoded, whenever the compressor can run on it, into the
/// file over the service's settings calls (the last of them setting the
/// encoder's own quality) with no APP1 segment.
pub proof fn lemma_encoding_without_exif(
    quality: u32,
    handle: ImageHandleInfo,
    image: DecodedImage,
    width: u32,
    height: u32,
)
    requires
        handle.luma_bits_per_pixel == 8,
        image.width matches Ok(w) && w == width,
        image.height matches Ok(h) && h == height,
        exif_item(handle.exif_block) is None,
        !exif_read_fails(handle.exif_block),
        can_compress(width as int, height as int, image.planes, Seq::<Seq<u8>>::empty()),
    ensures
        encoding_outcome(quality, handle, image) == EncodeOutcome::Compressed(
            jpeg_file(
                seq![
                    seq![0int],
                    seq![1int, width as int, height as int],
                    seq![2int],
                    seq![3int, 1int],
                    seq![4int, quality as int],
                ],
                Seq::<Seq<u8>>::empty(),
                image_scanlines(image.planes, width as int, height as int),
            ),
        ),
{
    lemma_service_setup_calls(width as int, height as int, quality as int);
    assert(app1_of_item(exif_item(handle.exif_block)) =~= Seq::<Seq<u8>>::empty());
}

/// Writes all interleaved rows of a `width` x `height` image into a freshly
/// started compressor that was set up by this crate's calls only. The
/// compressor takes every row: it then holds exactly those rows.
pub(crate) fn write_ycbcr_rows(
    comp: &mut CompressStarted<Vec<u8>>,
    y: &[u8],
    cb: &[u8],
    cr: &[u8],
    stride_y: usize,
    stride_cb: usize,
    stride_cr: usize,
    width: usize,
    height: usize,
) -> (ok: bool)
    requires
        planes_fit(
            y@.len() as int,
            cb@.len() as int,
            cr@.len() as int,
            stride_y as int,
            stride_cb as int,
            stride_cr as int,
            width as int,
            height as int,
        ),
        setup_size(jpeg_settings(*old(comp))) == (width as int, height as int),
        only_known_settings(jpeg_settings(*old(comp))),
        size_accepted(jpeg_settings(*old(comp))),
        jpeg_scanlines(*old(comp)) == Seq::<Seq<u8>>::empty(),
    ensures
        ok,
        jpeg_settings(*final(comp)) == jpeg_settings(*old(comp)),
        jpeg_app1_segments(*final(comp)) == jpeg_app1_segments(*old(comp)),
        jpeg_scanlines(*final(comp)) == ycbcr_scanlines(
            y@,
            cb@,
            cr@,
            stride_y as int,
            stride_cb as int,
            stride_cr as int,
            width as int,
            height as int,
        ),
{
    let ghost settings = jpeg_settings(*comp);
    let ghost segments = jpeg_app1_segments(*comp);
    let mut bytes: Vec<u8> = Vec::new();
    let mut row: usize = 0;
    assert(ycbcr_scanlines(
        y@,
        cb@,
        cr@,
        stride_y as int,
        stride_cb as int,
        stride_cr as int,
        width as int,
        0,
    ) =~= Seq::<Seq<u8>>::empty());
    while row < height
        invariant
            row <= height,
            planes_fit(
                y@.len() as int,
                cb@.len() as int,
                cr@.len() as int,
                stride_y as int,
                stride_cb as int,
                stride_cr as int,
                width as int,
                height as int,
            ),
            jpeg_settings(*comp) == settings,
            jpeg_app1_segments(*comp) == segments,
            settings == jpeg_settings(*old(comp)),
            segments == jpeg_app1_segments(*old(comp)),
            setup_size(settings) == (width as int, height as int),
            only_known_settings(settings),
            size_accepted(settings),
            jpeg_scanlines(*comp) == ycbcr_scanlines(
                y@,
                cb@,
                cr@,
                stride_y as int,
                stride_cb as int,
                stride_cr as int,
                width as int,
                row as int,
            ),
        decreases height - row,
    {
        interleave_row(
            y,
            cb,
            cr,
            stride_y,
            stride_cb,
            stride_cr,
            width,
            height,
            row,
            &mut bytes,
        );
        let ok = write_scanline(comp, bytes.as_slice());
        if !ok {
            return false;
        }
        assert(ycbcr_scanlines(
            y@,
            cb@,
            cr@,
            stride_y as int,
            stride_cb as int,
            stride_cr as int,
            width as int,
            (row + 1) as int,
        ) =~= ycbcr_scanlines(
            y@,
            cb@,
            cr@,
            stride_y as int,
            stride_cb as int,
            stride_cr as int,
            width as int,
            row as int,
        ).push(
            ycbcr_scanline(
                y@,
                cb@,
                cr@,
                stride_y as int,
                stride_cb as int,
                stride_cr as int,
                width as int,
                row as int,
            ),
        ));
        row = row + 1;
    }
    true
}

/// Starts a compressor with the conversion service's settings.
fn start_service_compressor(width: usize, height: usize, quality: u32) -> (r: Option<
    CompressStarted<Vec<u8>>,
>)
    requires
        1 <= width <= JPEG_MAX_DIMENSION,
        1 <= height <= JPEG_MAX_DIMENSION,
        quality <= 100,
    ensures
        r is Some,
        r matches Some(c) ==> {
            &&& jpeg_settings(c) == service_setup(width as int, height as int, quality as int)
            &&& setup_size(jpeg_settings(c)) == (width as int, height as int)
            &&& only_known_settings(jpeg_settings(c))
            &&& size_accepted(jpeg_settings(c))
            &&& jpeg_app1_segments(c) == Seq::<Seq<u8>>::empty()
            &&& jpeg_scanlines(c) == Seq::<Seq<u8>>::empty()
        },
{
    let mut comp = new_ycbcr_compressor();
    set_scan_all_components(&mut comp);
    set_size(&mut comp, width, height);
    set_fastest_defaults(&mut comp);
    set_optimize_coding(&mut comp, true);
    set_quality(&mut comp, quality);
    let ghost setup = jpeg_setup(comp);
    assert(setup =~= service_setup(width as int, height as int, quality as int));
    proof {
        reveal_with_fuel(setup_size, 5);
    }
    assert(setup_size(setup) == (width as int, height as int));
    assert(only_known_settings(setup)) by {
        assert forall|i: int| 0 <= i < setup.len() implies #[trigger] known_setting_call(
            setup[i],
        ) by {}
    }
    start_compress(comp)
}

impl JpegEncoder {
    /// The quality is a JPEG quality, at most 100.
    #[verifier::type_invariant]
    spec fn quality_in_range(self) -> bool {
        self.quality <= 100
    }

    /// The quality the encoder compresses with.
    pub closed spec fn quality_spec(&self) -> u32 {
        self.quality
    }

    /// An encoder with the requested quality, or the default quality when the
    /// request is outside `0..=100`.
    pub fn new(quality: i32) -> (encoder: Self)
        ensures
            encoder.quality_spec() == quality_for(quality),
            encoder.quality_spec() <= 100,
    {
        JpegEncoder {
            quality: if quality < 0 || quality > 100 {
                DEFAULT_QUALITY
            } else {
                quality as u32
            },
        }
    }

    /// Whether the compressor can run on the image with the given Exif block.
    fn can_compress_exec(
        width: usize,
        height: usize,
        planes: &ImagePlanes,
        exif: &Option<ExifDataBlock>,
    ) -> (ok: bool)
        ensures
            ok == can_compress(
                width as int,
                height as int,
                *planes,
                app1_of_block(*exif),
            ),
    {
        let ghost app1 = app1_of_block(*exif);
        if width < 1 || width > JPEG_MAX_DIMENSION || height < 1 || height > JPEG_MAX_DIMENSION {
            return false;
        }
        let (y, cb, cr) = match (&planes.y, &planes.cb, &planes.cr) {
            (Some(y), Some(cb), Some(cr)) => (y, cb, cr),
            _ => {
                return false;
            },
        };
        if !planes_fit_exec(
            y.data.len(),
            cb.data.len(),
            cr.data.len(),
            y.stride,
            cb.stride,
            cr.stride,
            width,
            height,
        ) {
            return false;
        }
        match exif {
            Some(b) => {
                let block = b.to_app1_compatible_block();
                if block.len() > JPEG_MAX_MARKER_LEN {
                    assert(app1[0].len() > JPEG_MAX_MARKER_LEN);
                    return false;
                }
                true
            },
            None => true,
        }
    }

    /// Compresses the image's planes as JPEG, with the Exif block (when there
    /// is one) as an APP1 segment before the scanlines.
    fn compress_mozjpeg(
        &self,
        width: usize,
        height: usize,
        image: &DecodedImage,
        exif: Option<ExifDataBlock>,
    ) -> (r: Result<Vec<u8>, JpegEncoderError>)
        requires
            can_compress(
                width as int,
                height as int,
                image.planes,
                app1_of_block(exif),
            ),
        ensures
            r matches Ok(bytes) && bytes@ == encoded_jpeg(
                width as int,
                height as int,
                image.planes,
                app1_of_block(exif),
                service_setup(width as int, height as int, self.quality_spec() as int),
            ),
    {
        let ghost app1 = app1_of_block(exif);
        let (y, cb, cr) = match (&image.planes.y, &image.planes.cb, &image.planes.cr) {
            (Some(y), Some(cb), Some(cr)) => (y, cb, cr),
            _ => {
                return Err(JpegEncoderError::MozJpegPanic);
            },
        };
        proof {
            use_type_invariant(self);
        }
        let mut comp = match start_service_compressor(width, height, self.quality) {
            Some(c) => c,
            None => {
                return Err(JpegEncoderError::MozJpegPanic);
            },
        };
        match exif {
            Some(block) => {
                let segment = block.to_app1_compatible_block();
                assert(segment@ == app1[0]);
                write_app1_segment(&mut comp, segment.as_slice());
                assert(jpeg_app1_segments(comp) =~= app1);
            },
            None => {
                assert(jpeg_app1_segments(comp) =~= app1);
            },
        }
        if !write_ycbcr_rows(
            &mut comp,
            y.data.as_slice(),
            cb.data.as_slice(),
            cr.data.as_slice(),
            y.stride,
            cb.stride,
            cr.stride,
            width,
            height,
        ) {
            return Err(JpegEncoderError::MozJpegPanic);
        }
        match finish_compressor(comp) {
            Some(bytes) => Ok(bytes),
            None => Err(JpegEncoderError::CompressionFailed),
        }
    }

}

impl Encoder for JpegEncoder {
    type Error = JpegEncoderError;

    open spec fn input_colorspace(&self) -> ColorSpace {
        ColorSpace::YCbCr(Chroma::C420)
    }

    /// The colour space to decode into: YCbCr 4:2:0 (JPEG has no alpha).
    fn colorspace(&self, has_alpha: bool) -> (c: ColorSpace)
        ensures
            c == ColorSpace::YCbCr(Chroma::C420),
    {
        ColorSpace::YCbCr(Chroma::C420)
    }

    /// The chroma subsampling to decode into: 4:2:0.
    fn chroma(&self, has_alpha: bool, bit_depth: u32) -> (c: Chroma)
        ensures
            c == Chroma::C420,
    {
        Chroma::C420
    }

    /// Adjusts the decoding options for JPEG output: transformations are left
    /// to the Exif orientation when the image carries Exif metadata, and high
    /// dynamic range is always reduced to 8 bits.
    fn update_decoding_options(
        &self,
        handle: &ImageHandleInfo,
        decoding_options: &mut DecodingOptions,
        heif_exif: &HeifExif,
    )
        ensures
            final(decoding_options).ignore_transformations == (handle.has_exif()
                || old(decoding_options).ignore_transformations),
            final(decoding_options).convert_hdr_to_8bit,
    {
        if heif_exif.has_exif_metadata(handle) {
            decoding_options.set_ignore_transformations(true);
        }
        decoding_options.set_convert_hdr_to_8bit(true);
    }

    /// Encodes a decoded image as JPEG: the image must have 8 bits per luma
    /// sample and known dimensions; its Exif metadata, when present, is
    /// carried over as an APP1 segment.
    fn encode_to_bytes(
        &self,
        handle: &ImageHandleInfo,
        image: &DecodedImage,
        heif_exif: &HeifExif,
    ) -> (r: Result<Vec<u8>, JpegEncoderError>)
        ensures
            result_agrees(r, encoding_outcome(self.quality_spec(), *handle, *image)),
    {
        let bit_depth = handle.luma_bits_per_pixel;
        if bit_depth != 8 {
            return Err(JpegEncoderError::BitsPerPixel(bit_depth));
        }
        let width: usize = match &image.width {
            Ok(size) => *size as usize,
            Err(e) => {
                return Err(JpegEncoderError::InvalidSize(copy_heif_error(e)));
            },
        };
        let height: usize = match &image.height {
            Ok(size) => *size as usize,
            Err(e) => {
                return Err(JpegEncoderError::InvalidSize(copy_heif_error(e)));
            },
        };
        let exif = match heif_exif.get_exif_metadata(handle) {
            Ok(exif) => exif,
            Err(e) => {
                return Err(JpegEncoderError::Metadata(e));
            },
        };
        proof {
            match exif_item(handle.exif_block) {
                Some(raw) => {
                    lemma_app1_block_of_split_item(raw);
                    let b = exif->Some_0;
                    assert(app1_block(b.header_spec(), b.payload_spec()) == raw.subrange(
                        4,
                        raw.len() as int,
                    ));
                    assert(app1_of_block(exif) =~= app1_of_item(
                        exif_item(handle.exif_block),
                    ));
                },
                None => {
                    assert(app1_of_block(exif) =~= app1_of_item(exif_item(handle.exif_block)));
                },
            }
        }
        if !Self::can_compress_exec(width, height, &image.planes, &exif) {
            return Err(JpegEncoderError::MozJpegPanic);
        }
        self.compress_mozjpeg(width, height, image, exif)
    }
}

} // verus!
