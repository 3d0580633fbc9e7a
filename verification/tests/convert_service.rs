use heif_server::exif::HeifExif;
use heif_server::heif::{
    Chroma, ColorSpace, DecodedImage, HeifContextInfo, HeifError, ImageHandleInfo, ImagePlanes,
    MetadataBlock, Plane,
};
use heif_server::services::{Code, ConvertService};

fn handle(bits: u8, exif_block: Option<MetadataBlock>) -> ImageHandleInfo {
    ImageHandleInfo { has_alpha: true, luma_bits_per_pixel: bits, exif_block }
}

fn context(top: usize, primary: Result<ImageHandleInfo, HeifError>) -> Result<HeifContextInfo, HeifError> {
    Ok(HeifContextInfo { top_level_images: top, primary })
}

fn exif_item(payload: &[u8]) -> MetadataBlock {
    let mut raw = vec![0, 0, 0, 6];
    raw.extend_from_slice(b"Exif\0\0");
    raw.extend_from_slice(payload);
    MetadataBlock { size: raw.len(), data: Ok(raw) }
}

// A little-endian TIFF header with one empty IFD.
const EMPTY_TIFF: &[u8] = b"II*\0\x08\0\0\0\0\0\0\0\0\0";

fn image(w: usize, h: usize) -> DecodedImage {
    DecodedImage {
        color_space: Some(ColorSpace::YCbCr(Chroma::C420)),
        width: Ok(w as u32),
        height: Ok(h as u32),
        planes: ImagePlanes {
            y: Some(Plane { data: vec![90; w * h], stride: w }),
            cb: Some(Plane { data: vec![120; w * h], stride: w }),
            cr: Some(Plane { data: vec![130; w * h], stride: w }),
        },
    }
}

fn heif_error(m: &str) -> HeifError {
    HeifError { message: m.to_string() }
}

#[test]
fn plan_reports_unreadable_file() {
    let service = ConvertService::default();
    let err = service.plan_conversion(80, &Err(heif_error("Invalid input: No 'ftyp' box"))).unwrap_err();
    assert_eq!(err.code, Code::Internal);
    assert_eq!(err.message, "Invalid input: No 'ftyp' box");
}

#[test]
fn plan_reports_file_without_images() {
    let service = ConvertService::default();
    let err = service.plan_conversion(80, &context(0, Ok(handle(8, None)))).unwrap_err();
    assert_eq!(err.code, Code::Internal);
    assert_eq!(err.message, "HEIC file does not contain any images");
}

#[test]
fn plan_reports_missing_primary_image() {
    let service = ConvertService::default();
    let err = service.plan_conversion(80, &context(1, Err(heif_error("no primary")))).unwrap_err();
    assert_eq!(err.message, "no primary");
}

#[test]
fn plan_reports_undefined_bit_depth() {
    let service = ConvertService::default();
    let err = service.plan_conversion(80, &context(1, Ok(handle(0, None)))).unwrap_err();
    assert_eq!(err.code, Code::Internal);
    assert_eq!(err.message, "Input image has undefined bit-depth");
}

#[test]
fn plan_without_exif() {
    let service = ConvertService::default();
    let plan = service.plan_conversion(80, &context(2, Ok(handle(8, None)))).unwrap();
    assert_eq!(plan.color_space, ColorSpace::YCbCr(Chroma::C420));
    assert!(!plan.ignore_transformations);
}

#[test]
fn plan_with_exif_ignores_transformations() {
    let service = ConvertService::default();
    let plan = service
        .plan_conversion(80, &context(1, Ok(handle(8, Some(exif_item(EMPTY_TIFF))))))
        .unwrap();
    assert!(plan.ignore_transformations);
}

#[test]
fn plan_reports_unreadable_exif() {
    let service = ConvertService::default();
    let block = MetadataBlock { size: 20, data: Err(heif_error("gone")) };
    let err = service.plan_conversion(80, &context(1, Ok(handle(8, Some(block))))).unwrap_err();
    assert_eq!(err.message, "Unable to read EXIF from handle");
}

#[test]
fn plan_reports_exif_that_does_not_parse() {
    let service = ConvertService::default();
    let err = service
        .plan_conversion(80, &context(1, Ok(handle(8, Some(exif_item(b"XXXXXXXX"))))))
        .unwrap_err();
    assert_eq!(err.code, Code::Internal);
    assert!(err.message.starts_with("Failed reading EXIF data: "));
    assert!(err.message.len() > "Failed reading EXIF data: ".len());
}

#[test]
fn empty_exif_block_is_skipped() {
    let service = ConvertService::default();
    let block = MetadataBlock { size: 0, data: Ok(vec![]) };
    assert!(service.parse_and_trace_log_exif(&handle(8, Some(block)), &HeifExif {}).is_ok());
    assert!(service.parse_and_trace_log_exif(&handle(8, None), &HeifExif {}).is_ok());
}

#[test]
fn finish_produces_jpeg() {
    let service = ConvertService::default();
    let h = handle(8, None);
    let plan = service.plan_conversion(65, &context(1, Ok(handle(8, None)))).unwrap();
    let response = service.finish_conversion(&plan, &h, &Ok(image(32, 24))).unwrap();
    assert_eq!(&response.jpeg[..3], &[0xff, 0xd8, 0xff]);
}

#[test]
fn finish_reports_decoding_error() {
    let service = ConvertService::default();
    let h = handle(8, None);
    let plan = service.plan_conversion(65, &context(1, Ok(handle(8, None)))).unwrap();
    let err = service.finish_conversion(&plan, &h, &Err(heif_error("decode failed"))).unwrap_err();
    assert_eq!(err.message, "decode failed");
}

#[test]
fn finish_reports_encoding_error() {
    let service = ConvertService::default();
    let h = handle(10, None);
    let plan = service.plan_conversion(65, &context(1, Ok(handle(10, None)))).unwrap();
    let err = service.finish_conversion(&plan, &h, &Ok(image(32, 24))).unwrap_err();
    assert_eq!(err.code, Code::Internal);
    assert_eq!(err.message, "Unable to encode the image");
}
