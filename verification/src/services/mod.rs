//! The HEIF conversion service and its messages.

pub mod convert_service;
pub mod exif_reader;
pub mod heif_api;
pub mod image_info;
pub mod info_service;
pub mod status;

pub use convert_service::{ConversionPlan, ConvertService};
pub use info_service::InfoService;
pub use status::{Code, Status};
