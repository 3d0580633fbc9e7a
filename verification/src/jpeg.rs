//! One-shot recoding of a HEIF file's primary image to JPEG.

use vstd::prelude::*;

use crate::converter::jpeg_encoder::{
    can_compress, encoded_jpeg, image_scanlines, plane_data, plane_stride, service_setup,
    write_ycbcr_rows,
};
use crate::converter::jpeg_writer::{
    finish_compressor, jpeg_app1_segments, jpeg_file, jpeg_scanlines, jpeg_settings, jpeg_setup,
    new_ycbcr_compressor, set_optimize_coding, set_quality, set_scan_all_components, set_size,
    setup_size, start_compress, known_setting_call, only_known_settings, size_accepted,
    JPEG_MAX_DIMENSION, OP_OPTIMIZE_CODING, OP_QUALITY,
    OP_SCAN_ALL_COMPONENTS, OP_SIZE,
};
use mozjpeg::compress::CompressStarted;
use crate::converter::scanlines::planes_fit_exec;
use crate::heif::{Chroma, ColorSpace, DecodedImage, HeifContextInfo, HeifError, ImagePlanes};
use crate::services::status::{is_internal, Code, Status};

verus! {

/// How the recoder decodes the primary image.
#[derive(Debug)]
pub struct RecodePlan {
    pub color_space: ColorSpace,
    pub ignore_transformations: bool,
}

/// The failure of planning a recode, in the order of the checks: its kind
/// and message; `None` when the recode can go on.
pub open spec fn recode_plan_error(context: Result<HeifContextInfo, HeifError>) -> Option<
    (Code, Seq<char>),
> {
    match context {
        Err(e) => Some((Code::Internal, e.message@)),
        Ok(ctx) => match ctx.primary {
            Err(e) => Some((Code::Internal, e.message@)),
            Ok(h) => if h.luma_bits_per_pixel == 0 {
                Some((Code::InvalidArgument, "Input image has undefined bit-depth"@))
            } else {
                None
            },
        },
    }
}

/// Row offsets computed in 32 bits stay within 32 bits.
pub open spec fn offsets_fit_u32(planes: ImagePlanes, height: int) -> bool {
    &&& plane_stride(planes.y) <= u32::MAX
    &&& plane_stride(planes.cb) <= u32::MAX
    &&& plane_stride(planes.cr) <= u32::MAX
    &&& (height - 1) * plane_stride(planes.y) <= u32::MAX
    &&& ((height - 1) / 2) * plane_stride(planes.cb) <= u32::MAX
    &&& ((height - 1) / 2) * plane_stride(planes.cr) <= u32::MAX
}

/// The recoder's compression can run on the image.
pub open spec fn can_recode(width: int, height: int, planes: ImagePlanes) -> bool {
    can_compress(width, height, planes, Seq::<Seq<u8>>::empty()) && offsets_fit_u32(planes, height)
}

/// The settings calls of the recoder, in order: the size, optimized Huffman
/// coding, the quality, all components in one scan.
pub open spec fn recode_setup(width: int, height: int, quality: int) -> Seq<Seq<int>> {
    seq![
        seq![OP_SIZE as int, width, height],
        seq![OP_OPTIMIZE_CODING as int, 1int],
        seq![OP_QUALITY as int, quality],
        seq![OP_SCAN_ALL_COMPONENTS as int],
    ]
}

/// Law: the recoder's settings calls are, in order, the image's own size,
/// optimized Huffman coding, the requested quality, and all components in
/// one scan.
pub proof fn lemma_recode_setup_calls(width: int, height: int, quality: int)
    ensures
        recode_setup(width, height, quality) == seq![
            seq![1int, width, height],
            seq![3int, 1int],
            seq![4int, quality],
            seq![0int],
        ],
        recode_setup(width, height, quality)[2] == seq![OP_QUALITY as int, quality],
        recode_setup(width, height, quality)[0] == seq![OP_SIZE as int, width, height],
{
    assert(recode_setup(width, height, quality) =~= seq![
        seq![1int, width, height],
        seq![3int, 1int],
        seq![4int, quality],
        seq![0int],
    ]);
}

/// Starts a compressor with the recoder's settings. (The in-memory
/// destination needs no call: the compressor writes into a vector.)
fn start_recode_compressor(width: usize, height: usize, quality: u8) -> (r: Option<
    CompressStarted<Vec<u8>>,
>)
    requires
        1 <= width <= JPEG_MAX_DIMENSION,
        1 <= height <= JPEG_MAX_DIMENSION,
    ensures
        r is Some,
        r matches Some(c) ==> {
            &&& jpeg_settings(c) == recode_setup(width as int, height as int, quality as int)
            &&& setup_size(jpeg_settings(c)) == (width as int, height as int)
            &&& only_known_settings(jpeg_settings(c))
            &&& size_accepted(jpeg_settings(c))
            &&& jpeg_app1_segments(c) == Seq::<Seq<u8>>::empty()
            &&& jpeg_scanlines(c) == Seq::<Seq<u8>>::empty()
        },
{
    let mut comp = new_ycbcr_compressor();
    set_size(&mut comp, width, height);
    set_optimize_coding(&mut comp, true);
    set_quality(&mut comp, quality as u32);
    set_scan_all_components(&mut comp);
    let ghost setup = jpeg_setup(comp);
    assert(setup =~= recode_setup(width as int, height as int, quality as int));
    proof {
        reveal_with_fuel(setup_size, 5);
    }
    assert(setup_size(setup) == (width as int, height as int));
    assert(only_known_settings(setup)) by {
        assert forall|i: int| 0 <= i < setup.len() implies #[trigger] known_setting_call(
            setup[i],
        ) by {}
    }
    start_compress(comp)
}

/// The three bytes of pixel `c` in an interleaved scanline.
pub open spec fn scanline_pixel(row: Seq<u8>, c: int) -> (u8, u8, u8) {
    (row[3 * c], row[3 * c + 1], row[3 * c + 2])
}

/// The luma byte of pixel `(r, c)` and the chroma bytes of the 2x2 block it
/// lies in.
pub open spec fn planar_pixel(planes: ImagePlanes, r: int, c: int) -> (u8, u8, u8) {
    (
        plane_data(planes.y)[r * plane_stride(planes.y) + c],
        plane_data(planes.cb)[(r / 2) * plane_stride(planes.cb) + c / 2],
        plane_data(planes.cr)[(r / 2) * plane_stride(planes.cr) + c / 2],
    )
}

/// Law: the recoder hands the compressor the same scanlines as the conversion
/// service's encoder does for the same planes and size (only the settings
/// calls and the APP1 segments differ): `height` rows of `3 * width` bytes,
/// where pixel `c` of row `r` is the luma byte `Y[r * sy + c]` and the chroma
/// bytes `Cb[(r / 2) * scb + c / 2]` and `Cr[(r / 2) * scr + c / 2]`.
pub proof fn lemma_recoder_writes_encoder_scanlines(
    width: int,
    height: int,
    planes: ImagePlanes,
    recode_quality: int,
    service_quality: int,
    app1_segments: Seq<Seq<u8>>,
)
    requires
        0 <= width,
        0 <= height,
    ensures
        encoded_jpeg(
            width,
            height,
            planes,
            Seq::<Seq<u8>>::empty(),
            recode_setup(width, height, recode_quality),
        ) == jpeg_file(
            recode_setup(width, height, recode_quality),
            Seq::<Seq<u8>>::empty(),
            image_scanlines(planes, width, height),
        ),
        encoded_jpeg(
            width,
            height,
            planes,
            app1_segments,
            service_setup(width, height, service_quality),
        ) == jpeg_file(
            service_setup(width, height, service_quality),
            app1_segments,
            image_scanlines(planes, width, height),
        ),
        image_scanlines(planes, width, height).len() == height,
        forall|r: int|
            0 <= r < height ==> (#[trigger] image_scanlines(planes, width, height)[r]).len() == 3
                * width,
        forall|r: int, c: int|
            0 <= r < height && 0 <= c < width ==> #[trigger] scanline_pixel(
                image_scanlines(planes, width, height)[r],
                c,
            ) == planar_pixel(planes, r, c),
{
    assert forall|r: int, c: int| 0 <= r < height && 0 <= c < width implies #[trigger] scanline_pixel(
        image_scanlines(planes, width, height)[r],
        c,
    ) == planar_pixel(planes, r, c) by {
        assert((3 * c) / 3 == c && (3 * c) % 3 == 0) by (nonlinear_arith)
            requires
                0 <= c,
        ;
        assert((3 * c + 1) / 3 == c && (3 * c + 1) % 3 == 1) by (nonlinear_arith)
            requires
                0 <= c,
        ;
        assert((3 * c + 2) / 3 == c && (3 * c + 2) % 3 == 2) by (nonlinear_arith)
            requires
                0 <= c,
        ;
    }
}

/// `row * stride` computed in 32 bits does not overflow.
fn fits_u32(row: usize, stride: usize) -> (ok: bool)
    ensures
        ok == (stride <= u32::MAX && row * stride <= u32::MAX),
{
    if stride > 4294967295 {
        return false;
    }
    match row.checked_mul(stride) {
        Some(product) => product <= 4294967295,
        None => false,
    }
}

/// The first part of a recode: checks the opened file and its primary
/// image, and decides how to decode it (transformations are applied only
/// when the image carries Exif metadata).
pub fn plan_recode(context: &Result<HeifContextInfo, HeifError>) -> (r: Result<RecodePlan, Status>)
    ensures
        match recode_plan_error(*context) {
            Some((code, text)) => r matches Err(s) && s.code == code && s.message@ == text,
            None => r matches Ok(plan) && {
                &&& plan.color_space == ColorSpace::YCbCr(Chroma::C420)
                &&& plan.ignore_transformations == !context->Ok_0.primary->Ok_0.has_exif()
            },
        },
{
    let ctx = match context {
        Ok(ctx) => ctx,
        Err(e) => {
            return Err(Status::internal(e.message.clone()));
        },
    };
    let handle = match &ctx.primary {
        Ok(handle) => handle,
        Err(e) => {
            return Err(Status::internal(e.message.clone()));
        },
    };
    if handle.luma_bits_per_pixel == 0 {
        return Err(Status::invalid_argument("Input image has undefined bit-depth".to_owned()));
    }
    let has_exif = handle.exif_block.is_some();
    Ok(RecodePlan {
        color_space: ColorSpace::YCbCr(Chroma::C420),
        ignore_transformations: !has_exif,
    })
}

/// The second part of a recode: compresses the decoded primary image as JPEG
/// with the given quality and no metadata.
pub fn recode_decoded_to_jpeg(decoded: &Result<DecodedImage, HeifError>, quality: u8) -> (r: Result<
    Vec<u8>,
    Status,
>)
    ensures
        match decoded {
            Err(e) => r matches Err(s) && is_internal(s, e.message@),
            Ok(image) => match image.width {
                Err(e) => r matches Err(s) && is_internal(s, e.message@),
                Ok(w) => match image.height {
                    Err(e) => r matches Err(s) && is_internal(s, e.message@),
                    Ok(h) => if can_recode(w as int, h as int, image.planes) {
                        r matches Ok(bytes) && bytes@ == encoded_jpeg(
                            w as int,
                            h as int,
                            image.planes,
                            Seq::<Seq<u8>>::empty(),
                            recode_setup(w as int, h as int, quality as int),
                        )
                    } else {
                        r matches Err(s) && is_internal(s, "Unable to encode JPEG"@)
                    },
                },
            },
        },
{
    let img = match decoded {
        Ok(img) => img,
        Err(e) => {
            return Err(Status::internal(e.message.clone()));
        },
    };
    let width: usize = match &img.width {
        Ok(w) => *w as usize,
        Err(e) => {
            return Err(Status::internal(e.message.clone()));
        },
    };
    let height: usize = match &img.height {
        Ok(h) => *h as usize,
        Err(e) => {
            return Err(Status::internal(e.message.clone()));
        },
    };
    let (y, cb, cr) = match (&img.planes.y, &img.planes.cb, &img.planes.cr) {
        (Some(y), Some(cb), Some(cr)) => (y, cb, cr),
        _ => {
            return Err(Status::internal("Unable to encode JPEG".to_owned()));
        },
    };
    if width < 1 || width > JPEG_MAX_DIMENSION || height < 1 || height > JPEG_MAX_DIMENSION {
        return Err(Status::internal("Unable to encode JPEG".to_owned()));
    }
    if !planes_fit_exec(
        y.data.len(),
        cb.data.len(),
        cr.data.len(),
        y.stride,
        cb.stride,
        cr.stride,
        width,
        height,
    ) || !fits_u32(height - 1, y.stride) || !fits_u32((height - 1) / 2, cb.stride) || !fits_u32(
        (height - 1) / 2,
        cr.stride,
    ) {
        return Err(Status::internal("Unable to encode JPEG".to_owned()));
    }
    let mut comp = match start_recode_compressor(width, height, quality) {
        Some(c) => c,
        None => {
            return Err(Status::internal("Unable to encode JPEG".to_owned()));
        },
    };
    if !write_ycbcr_rows(
        &mut comp,
        y.data.as_slice(),
        cb.data.as_slice(),
        cr.data.as_slice(),
        y.stride,
        cb.stride,
        cr.stride,
        width,
        height,
    ) {
        return Err(Status::internal("Unable to encode JPEG".to_owned()));
    }
    match finish_compressor(comp) {
        Some(bytes) => Ok(bytes),
        None => Err(Status::internal("Couldn't obtain JPEG bytes".to_owned())),
    }
}

} // verus!
