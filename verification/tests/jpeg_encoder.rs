use heif_server::converter::jpeg_encoder::DEFAULT_QUALITY;
use heif_server::converter::scanlines::{interleave_row, planes_fit_exec};
use heif_server::converter::{DecodingOptions, Encoder, JpegEncoder, JpegEncoderError};
use heif_server::exif::HeifExif;
use heif_server::heif::{
    Chroma, ColorSpace, DecodedImage, HeifError, ImageHandleInfo, ImagePlanes, MetadataBlock,
    Plane,
};

fn handle(bits: u8, exif_block: Option<MetadataBlock>) -> ImageHandleInfo {
    ImageHandleInfo { has_alpha: false, luma_bits_per_pixel: bits, exif_block }
}

fn image(width: u32, height: u32) -> DecodedImage {
    let w = width as usize;
    let h = height as usize;
    let cw = (w + 1) / 2;
    let ch = (h + 1) / 2;
    let y: Vec<u8> = (0..w * h).map(|i| (i * 7 % 251) as u8).collect();
    let cb: Vec<u8> = (0..cw * ch).map(|i| (100 + i % 50) as u8).collect();
    let cr: Vec<u8> = (0..cw * ch).map(|i| (150 - i % 50) as u8).collect();
    DecodedImage {
        color_space: Some(ColorSpace::YCbCr(Chroma::C420)),
        width: Ok(width),
        height: Ok(height),
        planes: ImagePlanes {
            y: Some(Plane { data: y, stride: w }),
            cb: Some(Plane { data: cb, stride: cw }),
            cr: Some(Plane { data: cr, stride: cw }),
        },
    }
}

fn exif_block() -> MetadataBlock {
    let mut raw = vec![0, 0, 0, 6];
    raw.extend_from_slice(b"Exif\0\0");
    raw.extend_from_slice(b"II*\0\x08\0\0\0\0\0\0\0\0\0");
    MetadataBlock { size: raw.len(), data: Ok(raw) }
}

fn contains(haystack: &[u8], needle: &[u8]) -> bool {
    haystack.windows(needle.len()).any(|w| w == needle)
}

#[test]
fn colorspace_and_chroma_are_ycbcr_420() {
    let encoder = JpegEncoder::new(80);
    assert_eq!(encoder.colorspace(true), ColorSpace::YCbCr(Chroma::C420));
    assert_eq!(encoder.colorspace(false), ColorSpace::YCbCr(Chroma::C420));
    assert_eq!(encoder.chroma(true, 10), Chroma::C420);
}

#[test]
fn update_decoding_options_without_exif() {
    let encoder = JpegEncoder::new(80);
    let mut options = DecodingOptions::default();
    encoder.update_decoding_options(&handle(8, None), &mut options, &HeifExif {});
    assert!(!options.ignore_transformations);
    assert!(options.convert_hdr_to_8bit);
}

#[test]
fn update_decoding_options_with_exif() {
    let encoder = JpegEncoder::new(80);
    let mut options = DecodingOptions::default();
    encoder.update_decoding_options(&handle(8, Some(exif_block())), &mut options, &HeifExif {});
    assert!(options.ignore_transformations);
    assert!(options.convert_hdr_to_8bit);
}

#[test]
fn encodes_a_small_image() {
    let encoder = JpegEncoder::new(80);
    let bytes = encoder
        .encode_to_bytes(&handle(8, None), &image(16, 16), &HeifExif {})
        .unwrap();
    assert_eq!(&bytes[..2], &[0xff, 0xd8]);
    assert_eq!(&bytes[bytes.len() - 2..], &[0xff, 0xd9]);
    assert!(!contains(&bytes, b"Exif\0\0"));
}

#[test]
fn encodes_odd_sizes() {
    let encoder = JpegEncoder::new(50);
    let bytes = encoder
        .encode_to_bytes(&handle(8, None), &image(7, 5), &HeifExif {})
        .unwrap();
    assert_eq!(&bytes[..2], &[0xff, 0xd8]);
    let d = mozjpeg::Decompress::new_mem(&bytes).unwrap();
    assert_eq!(d.size(), (7, 5));
}

#[test]
fn carries_exif_as_app1() {
    let encoder = JpegEncoder::new(80);
    let bytes = encoder
        .encode_to_bytes(&handle(8, Some(exif_block())), &image(16, 8), &HeifExif {})
        .unwrap();
    // APP1 marker followed by its length (2 + 6 + 14 = 22 bytes) and `Exif\0\0`.
    assert!(contains(&bytes, b"\xff\xe1\x00\x16Exif\0\0II*\0"));
}

#[test]
fn out_of_range_quality_is_default() {
    assert_eq!(DEFAULT_QUALITY, 90);
    let img = image(16, 16);
    let reference = JpegEncoder::new(90)
        .encode_to_bytes(&handle(8, None), &img, &HeifExif {})
        .unwrap();
    for q in [-1, 101, 1000, i32::MIN] {
        let bytes = JpegEncoder::new(q)
            .encode_to_bytes(&handle(8, None), &img, &HeifExif {})
            .unwrap();
        assert_eq!(bytes, reference);
    }
    let other = JpegEncoder::new(10)
        .encode_to_bytes(&handle(8, None), &img, &HeifExif {})
        .unwrap();
    assert_ne!(other, reference);
}

#[test]
fn rejects_other_bit_depths() {
    let encoder = JpegEncoder::new(80);
    match encoder.encode_to_bytes(&handle(10, None), &image(16, 16), &HeifExif {}) {
        Err(JpegEncoderError::BitsPerPixel(10)) => {}
        other => panic!("unexpected {:?}", other),
    }
}

#[test]
fn reports_unknown_dimensions() {
    let encoder = JpegEncoder::new(80);
    let mut img = image(16, 16);
    img.height = Err(HeifError { message: "no such channel".to_string() });
    match encoder.encode_to_bytes(&handle(8, None), &img, &HeifExif {}) {
        Err(JpegEncoderError::InvalidSize(e)) => assert_eq!(e.message, "no such channel"),
        other => panic!("unexpected {:?}", other),
    }
}

#[test]
fn reports_unreadable_metadata() {
    let encoder = JpegEncoder::new(80);
    let block = MetadataBlock {
        size: 12,
        data: Err(HeifError { message: "metadata missing".to_string() }),
    };
    match encoder.encode_to_bytes(&handle(8, Some(block)), &image(16, 16), &HeifExif {}) {
        Err(JpegEncoderError::Metadata(e)) => assert_eq!(e.message, "metadata missing"),
        other => panic!("unexpected {:?}", other),
    }
}

#[test]
fn missing_plane_aborts_the_compressor() {
    let encoder = JpegEncoder::new(80);
    let mut img = image(16, 16);
    img.planes.cr = None;
    match encoder.encode_to_bytes(&handle(8, None), &img, &HeifExif {}) {
        Err(JpegEncoderError::MozJpegPanic) => {}
        other => panic!("unexpected {:?}", other),
    }
}

#[test]
fn short_plane_aborts_the_compressor() {
    let encoder = JpegEncoder::new(80);
    let mut img = image(16, 16);
    if let Some(y) = img.planes.y.as_mut() {
        y.data.truncate(16 * 15);
    }
    match encoder.encode_to_bytes(&handle(8, None), &img, &HeifExif {}) {
        Err(JpegEncoderError::MozJpegPanic) => {}
        other => panic!("unexpected {:?}", other),
    }
}

#[test]
fn empty_image_aborts_the_compressor() {
    let encoder = JpegEncoder::new(80);
    match encoder.encode_to_bytes(&handle(8, None), &image(0, 16), &HeifExif {}) {
        Err(JpegEncoderError::MozJpegPanic) => {}
        other => panic!("unexpected {:?}", other),
    }
}

#[test]
fn interleaves_rows() {
    // 3 x 2 luma, 2 x 1 chroma with strides wider than the data.
    let y = [10, 11, 12, 0, 20, 21, 22, 0];
    let cb = [30, 31, 0];
    let cr = [40, 41, 0];
    let mut out = vec![9, 9];
    interleave_row(&y, &cb, &cr, 4, 3, 3, 3, 2, 0, &mut out);
    assert_eq!(out, vec![10, 30, 40, 11, 30, 40, 12, 31, 41]);
    interleave_row(&y, &cb, &cr, 4, 3, 3, 3, 2, 1, &mut out);
    assert_eq!(out, vec![20, 30, 40, 21, 30, 40, 22, 31, 41]);
}

#[test]
fn planes_fit_examples() {
    assert!(planes_fit_exec(8, 3, 3, 4, 3, 3, 3, 2));
    assert!(!planes_fit_exec(6, 3, 3, 4, 3, 3, 3, 2));
    assert!(!planes_fit_exec(8, 1, 3, 4, 3, 3, 3, 2));
    assert!(!planes_fit_exec(8, 3, 3, 4, 3, 3, 0, 2));
    assert!(!planes_fit_exec(usize::MAX, 3, 3, usize::MAX, 3, 3, 3, 3));
}

#[test]
fn decoded_pixels_follow_the_planes() {
    // A flat grey image decodes to the same grey.
    let w = 16usize;
    let h = 16usize;
    let img = DecodedImage {
        color_space: Some(ColorSpace::YCbCr(Chroma::C420)),
        width: Ok(w as u32),
        height: Ok(h as u32),
        planes: ImagePlanes {
            y: Some(Plane { data: vec![128; w * h], stride: w }),
            cb: Some(Plane { data: vec![128; w * h / 4], stride: w / 2 }),
            cr: Some(Plane { data: vec![128; w * h / 4], stride: w / 2 }),
        },
    };
    let bytes = JpegEncoder::new(95)
        .encode_to_bytes(&handle(8, None), &img, &HeifExif {})
        .unwrap();
    let d = mozjpeg::Decompress::new_mem(&bytes).unwrap();
    let mut started = d.rgb().unwrap();
    let pixels: Vec<[u8; 3]> = started.read_scanlines().unwrap();
    assert_eq!(pixels.len(), w * h);
    for p in pixels {
        for c in p {
            assert!((c as i32 - 128).abs() <= 2);
        }
    }
}

#[test]
fn bit_depth_is_checked_before_a_malformed_exif_item() {
    let encoder = JpegEncoder::new(80);
    let raw = vec![0, 0, 0, 9, b'X'];
    let malformed = MetadataBlock { size: raw.len(), data: Ok(raw) };
    let r = encoder.encode_to_bytes(&handle(10, Some(malformed)), &image(4, 4), &HeifExif {});
    assert!(matches!(r, Err(JpegEncoderError::BitsPerPixel(10))));
}
