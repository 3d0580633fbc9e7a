use heif_server::services::heif_api::{self, GetInfoRequest};
use heif_server::services::image_info::{DepthImageInfo, ImageInfo, ThumbnailImageInfo, TopLevelImageInfo};
use heif_server::services::InfoService;

fn info(width: u32) -> ImageInfo {
    ImageInfo {
        width,
        height: 20,
        ispe_width: -3,
        ispe_height: 4,
        chroma_bits_per_pixel: 10,
        luma_bits_per_pixel: 12,
        has_alpha: true,
        has_depth: false,
        is_premultiplied_alpha: true,
    }
}

#[test]
fn get_info_answers_zero_dimensions() {
    let service = InfoService::default();
    let response = service.get_info(&GetInfoRequest { heif: vec![1, 2, 3] }).unwrap();
    assert_eq!(response.width, 0);
    assert_eq!(response.height, 0);
}

#[test]
fn image_info_message_keeps_fields() {
    let message: heif_api::ImageInfo = info(10).into();
    assert_eq!(message.width, 10);
    assert_eq!(message.height, 20);
    assert_eq!(message.ispe_width, -3);
    assert_eq!(message.ispe_height, 4);
    assert_eq!(message.chroma_bits_per_pixel, 10);
    assert_eq!(message.luma_bits_per_pixel, 12);
    assert!(message.has_alpha);
    assert!(!message.has_depth);
    assert!(message.is_premultiplied_alpha);
}

#[test]
fn thumbnail_and_depth_messages() {
    let t: heif_api::ThumbnailImageInfo = ThumbnailImageInfo { image_id: 7, info: info(1) }.into();
    assert_eq!(t.image_id, 7);
    assert_eq!(t.info, Some(info(1).into()));
    let d: heif_api::DepthImageInfo = DepthImageInfo { image_id: 8, info: info(2) }.into();
    assert_eq!(d.image_id, 8);
    assert_eq!(d.info.unwrap().width, 2);
}

#[test]
fn top_level_message_converts_every_item_in_order() {
    let top = TopLevelImageInfo {
        image_id: 1,
        is_primary: true,
        info: info(100),
        depths: vec![DepthImageInfo { image_id: 5, info: info(50) }],
        thumbnails: vec![
            ThumbnailImageInfo { image_id: 2, info: info(20) },
            ThumbnailImageInfo { image_id: 3, info: info(30) },
        ],
    };
    let message = heif_api::TopLevelImageInfo::from(top);
    assert!(message.is_primary);
    assert_eq!(message.image_id, 1);
    assert_eq!(message.info.unwrap().width, 100);
    assert_eq!(message.thumbnails.len(), 2);
    assert_eq!(message.thumbnails[0].image_id, 2);
    assert_eq!(message.thumbnails[1].info.unwrap().width, 30);
    assert_eq!(message.depths.len(), 1);
    assert_eq!(message.depths[0].image_id, 5);
    assert_eq!(message.depths[0].info.unwrap().width, 50);
}
