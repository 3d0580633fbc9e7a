use vstd::prelude::*;

use crate::services::heif_api;

verus! {

/// Properties of one image of a HEIF file.
#[derive(Debug, Clone, Copy)]
pub struct ImageInfo {
    pub width: u32,
    pub height: u32,
    pub ispe_width: i32,
    pub ispe_height: i32,
    pub chroma_bits_per_pixel: u8,
    pub luma_bits_per_pixel: u8,
    pub has_alpha: bool,
    pub has_depth: bool,
    pub is_premultiplied_alpha: bool,
}

/// A top-level image of a HEIF file with its depth images and thumbnails.
#[derive(Debug)]
pub struct TopLevelImageInfo {
    pub image_id: u32,
    pub is_primary: bool,
    pub info: ImageInfo,
    pub depths: Vec<DepthImageInfo>,
    pub thumbnails: Vec<ThumbnailImageInfo>,
}

/// A depth image.
#[derive(Debug, Clone, Copy)]
pub struct DepthImageInfo {
    pub image_id: u32,
    pub info: ImageInfo,
}

/// A thumbnail image.
#[derive(Debug, Clone, Copy)]
pub struct ThumbnailImageInfo {
    pub image_id: u32,
    pub info: ImageInfo,
}

/// The API message for image properties: every field carried over, the
/// bit depths widened.
pub open spec fn image_info_message(info: ImageInfo) -> heif_api::ImageInfo {
    heif_api::ImageInfo {
        width: info.width,
        height: info.height,
        chroma_bits_per_pixel: info.chroma_bits_per_pixel as u32,
        luma_bits_per_pixel: info.luma_bits_per_pixel as u32,
        ispe_width: info.ispe_width,
        ispe_height: info.ispe_height,
        has_alpha: info.has_alpha,
        has_depth: info.has_depth,
        is_premultiplied_alpha: info.is_premultiplied_alpha,
    }
}

/// The API message for a thumbnail.
pub open spec fn thumbnail_message(info: ThumbnailImageInfo) -> heif_api::ThumbnailImageInfo {
    heif_api::ThumbnailImageInfo { image_id: info.image_id, info: Some(image_info_message(info.info)) }
}

/// The API message for a depth image.
pub open spec fn depth_message(info: DepthImageInfo) -> heif_api::DepthImageInfo {
    heif_api::DepthImageInfo { image_id: info.image_id, info: Some(image_info_message(info.info)) }
}

/// Law: the API message for an image carries every property over
/// unchanged, the bit depths as the same numbers.
pub proof fn lemma_image_info_message_fields(info: ImageInfo)
    ensures
        image_info_message(info).width == info.width,
        image_info_message(info).height == info.height,
        image_info_message(info).chroma_bits_per_pixel == info.chroma_bits_per_pixel,
        image_info_message(info).luma_bits_per_pixel == info.luma_bits_per_pixel,
        image_info_message(info).ispe_width == info.ispe_width,
        image_info_message(info).ispe_height == info.ispe_height,
        image_info_message(info).has_alpha == info.has_alpha,
        image_info_message(info).has_depth == info.has_depth,
        image_info_message(info).is_premultiplied_alpha == info.is_premultiplied_alpha,
{
}

/// Law: the API messages for a thumbnail and for a depth image keep the
/// image id and carry the image's properties over unchanged.
pub proof fn lemma_thumbnail_and_depth_messages(t: ThumbnailImageInfo, d: DepthImageInfo)
    ensures
        thumbnail_message(t).image_id == t.image_id,
        thumbnail_message(t).info matches Some(m) && m.width == t.info.width && m.height
            == t.info.height && m.chroma_bits_per_pixel == t.info.chroma_bits_per_pixel
            && m.luma_bits_per_pixel == t.info.luma_bits_per_pixel && m.ispe_width
            == t.info.ispe_width && m.ispe_height == t.info.ispe_height && m.has_alpha
            == t.info.has_alpha && m.has_depth == t.info.has_depth && m.is_premultiplied_alpha
            == t.info.is_premultiplied_alpha,
        depth_message(d).image_id == d.image_id,
        depth_message(d).info matches Some(m) && m.width == d.info.width && m.height
            == d.info.height && m.chroma_bits_per_pixel == d.info.chroma_bits_per_pixel
            && m.luma_bits_per_pixel == d.info.luma_bits_per_pixel && m.ispe_width
            == d.info.ispe_width && m.ispe_height == d.info.ispe_height && m.has_alpha
            == d.info.has_alpha && m.has_depth == d.info.has_depth && m.is_premultiplied_alpha
            == d.info.is_premultiplied_alpha,
{
}

impl From<ImageInfo> for heif_api::ImageInfo {
    fn from(info: ImageInfo) -> (message: Self) {
        heif_api::ImageInfo {
            width: info.width,
            height: info.height,
            chroma_bits_per_pixel: info.chroma_bits_per_pixel as u32,
            luma_bits_per_pixel: info.luma_bits_per_pixel as u32,
            ispe_width: info.ispe_width,
            ispe_height: info.ispe_height,
            has_alpha: info.has_alpha,
            has_depth: info.has_depth,
            is_premultiplied_alpha: info.is_premultiplied_alpha,
        }
    }
}

impl vstd::std_specs::convert::FromSpecImpl<ImageInfo> for heif_api::ImageInfo {
    open spec fn obeys_from_spec() -> bool {
        true
    }

    open spec fn from_spec(info: ImageInfo) -> Self {
        image_info_message(info)
    }
}

impl From<ThumbnailImageInfo> for heif_api::ThumbnailImageInfo {
    fn from(info: ThumbnailImageInfo) -> (message: Self) {
        heif_api::ThumbnailImageInfo { image_id: info.image_id, info: Some(info.info.into()) }
    }
}

impl vstd::std_specs::convert::FromSpecImpl<ThumbnailImageInfo> for heif_api::ThumbnailImageInfo {
    open spec fn obeys_from_spec() -> bool {
        true
    }

    open spec fn from_spec(info: ThumbnailImageInfo) -> Self {
        thumbnail_message(info)
    }
}

impl From<DepthImageInfo> for heif_api::DepthImageInfo {
    fn from(info: DepthImageInfo) -> (message: Self) {
        heif_api::DepthImageInfo { image_id: info.image_id, info: Some(info.info.into()) }
    }
}

impl vstd::std_specs::convert::FromSpecImpl<DepthImageInfo> for heif_api::DepthImageInfo {
    open spec fn obeys_from_spec() -> bool {
        true
    }

    open spec fn from_spec(info: DepthImageInfo) -> Self {
        depth_message(info)
    }
}

impl heif_api::TopLevelImageInfo {
    /// The API message for a top-level image: its own fields carried over and
    /// each thumbnail and depth image converted, in order.
    pub fn from(info: TopLevelImageInfo) -> (message: Self)
        ensures
            message.is_primary == info.is_primary,
            message.image_id == info.image_id,
            message.info == Some(image_info_message(info.info)),
            message.thumbnails@ == info.thumbnails@.map_values(
                |t: ThumbnailImageInfo| thumbnail_message(t),
            ),
            message.depths@ == info.depths@.map_values(|d: DepthImageInfo| depth_message(d)),
    {
        let mut thumbnails: Vec<heif_api::ThumbnailImageInfo> = Vec::new();
        let mut i: usize = 0;
        while i < info.thumbnails.len()
            invariant
                i <= info.thumbnails@.len(),
                thumbnails@ == info.thumbnails@.subrange(0, i as int).map_values(
                    |t: ThumbnailImageInfo| thumbnail_message(t),
                ),
            decreases info.thumbnails@.len() - i,
        {
            let t = info.thumbnails[i];
            thumbnails.push(heif_api::ThumbnailImageInfo::from(t));
            i = i + 1;
            assert(thumbnails@ =~= info.thumbnails@.subrange(0, i as int).map_values(
                |t: ThumbnailImageInfo| thumbnail_message(t),
            ));
        }
        assert(info.thumbnails@.subrange(0, i as int) =~= info.thumbnails@);
        let mut depths: Vec<heif_api::DepthImageInfo> = Vec::new();
        let mut j: usize = 0;
        while j < info.depths.len()
            invariant
                j <= info.depths@.len(),
                depths@ == info.depths@.subrange(0, j as int).map_values(
                    |d: DepthImageInfo| depth_message(d),
                ),
            decreases info.depths@.len() - j,
        {
            let d = info.depths[j];
            depths.push(heif_api::DepthImageInfo::from(d));
            j = j + 1;
            assert(depths@ =~= info.depths@.subrange(0, j as int).map_values(
                |d: DepthImageInfo| depth_message(d),
            ));
        }
        assert(info.depths@.subrange(0, j as int) =~= info.depths@);
        heif_api::TopLevelImageInfo {
            is_primary: info.is_primary,
            image_id: info.image_id,
            info: Some(info.info.into()),
            thumbnails,
            depths,
        }
    }
}

} // verus!
