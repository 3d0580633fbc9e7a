use heif_server::exif::{ExifDataBlock, ExifEndianness, EXIF_HEADER, UNTIMED_EXIF_ITEM_TYPE};

fn heic_item(payload: &[u8]) -> Vec<u8> {
    let mut raw = vec![0, 0, 0, 6];
    raw.extend_from_slice(b"Exif\0\0");
    raw.extend_from_slice(payload);
    raw
}

#[test]
fn constants() {
    assert_eq!(UNTIMED_EXIF_ITEM_TYPE, "Exif");
    assert_eq!(&EXIF_HEADER, b"Exif\0\0");
}

#[test]
fn new_from_heic_splits_offset_header_and_payload() {
    let raw = heic_item(b"II*\0\x08\0\0\0");
    assert!(ExifDataBlock::heic_layout_ok(&raw));
    let block = ExifDataBlock::new_from_heic(raw);
    assert!(block.is_exif());
    assert_eq!(block.payload, b"II*\0\x08\0\0\0".to_vec());
}

#[test]
fn app1_block_is_item_without_offset() {
    let raw = heic_item(b"MM\0*\0\0\0\x08");
    let expected = raw[4..].to_vec();
    let block = ExifDataBlock::new_from_heic(raw);
    assert_eq!(block.to_app1_compatible_block(), expected);
}

#[test]
fn endianness_intel() {
    let block = ExifDataBlock::new_from_heic(heic_item(b"II*\0"));
    assert_eq!(block.get_endianness().unwrap(), ExifEndianness::Intel);
}

#[test]
fn endianness_motorola() {
    let block = ExifDataBlock::new_from_heic(heic_item(b"MM\0*"));
    assert_eq!(block.get_endianness().unwrap(), ExifEndianness::Motorola);
}

#[test]
fn endianness_invalid() {
    let block = ExifDataBlock::new_from_heic(heic_item(b"IM\0*"));
    let err = block.get_endianness().unwrap_err();
    assert_eq!(err.message, "Invalid endianness encoding");
}

#[test]
fn layout_rejects_short_items() {
    assert!(!ExifDataBlock::heic_layout_ok(&[0, 0, 0]));
    assert!(!ExifDataBlock::heic_layout_ok(&[0, 0, 0, 6, b'E', b'x']));
}

#[test]
fn layout_rejects_other_offsets_and_headers() {
    // Offset 0: the TIFF header comes first; the header is then empty.
    assert!(!ExifDataBlock::heic_layout_ok(&[0, 0, 0, 0, b'I', b'I']));
    // Offset beyond the item.
    assert!(!ExifDataBlock::heic_layout_ok(&[0, 0, 1, 0, b'I', b'I']));
    // Wrong header bytes.
    assert!(!ExifDataBlock::heic_layout_ok(b"\0\0\0\x06Exif\0\x01II"));
    assert!(ExifDataBlock::heic_layout_ok(b"\0\0\0\x06Exif\0\0"));
}

#[test]
fn payload_may_be_empty() {
    let block = ExifDataBlock::new_from_heic(heic_item(b""));
    assert!(block.payload.is_empty());
    assert_eq!(block.to_app1_compatible_block(), b"Exif\0\0".to_vec());
}

#[test]
fn default_block_is_empty_and_not_exif() {
    let block = ExifDataBlock::default();
    assert!(block.payload.is_empty());
    assert!(!block.is_exif());
    assert!(block.to_app1_compatible_block().is_empty());
    assert!(block.into_payload().is_empty());
}

#[test]
fn split_item_keeps_offset_header_and_all_bytes() {
    let raw = heic_item(b"II*\0\x08\0\0\0\x01\x02");
    let len = raw.len();
    let block = ExifDataBlock::new_from_heic(raw);
    assert_eq!(block.tiff_header_offset, 6);
    assert_eq!(block.header, EXIF_HEADER.to_vec());
    assert_eq!(block.header.len(), block.tiff_header_offset as usize);
    assert_eq!(4 + block.header.len() + block.payload.len(), len);
}
