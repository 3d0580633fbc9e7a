use heif_server::heif::{
    Chroma, ColorSpace, DecodedImage, HeifContextInfo, HeifError, ImageHandleInfo, ImagePlanes,
    MetadataBlock, Plane,
};
use heif_server::jpeg::{plan_recode, recode_decoded_to_jpeg};
use heif_server::services::Code;

fn context(bits: u8, has_exif: bool) -> Result<HeifContextInfo, HeifError> {
    let exif_block = if has_exif {
        Some(MetadataBlock { size: 0, data: Ok(Vec::new()) })
    } else {
        None
    };
    Ok(HeifContextInfo {
        top_level_images: 1,
        primary: Ok(ImageHandleInfo { has_alpha: false, luma_bits_per_pixel: bits, exif_block }),
    })
}

fn image(w: usize, h: usize) -> DecodedImage {
    DecodedImage {
        color_space: Some(ColorSpace::YCbCr(Chroma::C420)),
        width: Ok(w as u32),
        height: Ok(h as u32),
        planes: ImagePlanes {
            y: Some(Plane { data: vec![200; w * h], stride: w }),
            cb: Some(Plane { data: vec![100; w * h], stride: w }),
            cr: Some(Plane { data: vec![100; w * h], stride: w }),
        },
    }
}

#[test]
fn plan_applies_transformations_without_exif() {
    let plan = plan_recode(&context(8, false)).unwrap();
    assert!(plan.ignore_transformations);
    assert_eq!(plan.color_space, ColorSpace::YCbCr(Chroma::C420));
    let plan = plan_recode(&context(8, true)).unwrap();
    assert!(!plan.ignore_transformations);
}

#[test]
fn plan_rejects_undefined_bit_depth() {
    let err = plan_recode(&context(0, false)).unwrap_err();
    assert_eq!(err.code, Code::InvalidArgument);
    assert_eq!(err.message, "Input image has undefined bit-depth");
}

#[test]
fn plan_reports_decoder_errors() {
    let err = plan_recode(&Err(HeifError { message: "bad file".to_string() })).unwrap_err();
    assert_eq!(err.code, Code::Internal);
    assert_eq!(err.message, "bad file");
}

#[test]
fn recodes_to_jpeg() {
    let bytes = recode_decoded_to_jpeg(&Ok(image(9, 9)), 70).unwrap();
    assert_eq!(&bytes[..2], &[0xff, 0xd8]);
    let d = mozjpeg::Decompress::new_mem(&bytes).unwrap();
    assert_eq!(d.size(), (9, 9));
}

#[test]
fn recode_reports_missing_plane() {
    let mut img = image(9, 9);
    img.planes.y = None;
    let err = recode_decoded_to_jpeg(&Ok(img), 70).unwrap_err();
    assert_eq!(err.message, "Unable to encode JPEG");
}

#[test]
fn recode_reports_oversized_image() {
    let mut img = image(1, 1);
    img.width = Ok(70000);
    let err = recode_decoded_to_jpeg(&Ok(img), 70).unwrap_err();
    assert_eq!(err.message, "Unable to encode JPEG");
}

#[test]
fn recode_reports_dimension_errors() {
    let mut img = image(9, 9);
    img.width = Err(HeifError { message: "no luma".to_string() });
    let err = recode_decoded_to_jpeg(&Ok(img), 70).unwrap_err();
    assert_eq!(err.message, "no luma");
}
