//! Conversions between four axis-aligned bounding-box representations:
//! corner coordinates, top-left plus size, center plus size, and
//! normalized center plus size. Pixel-space boxes hold signed 32-bit
//! coordinates; every cross-representation conversion routes through the
//! corner representation as the canonical hub.

pub mod bounding_box;
pub mod convert;
pub mod decimal;
pub mod format;

pub use bounding_box::BoundingBox;
pub use bounding_box::CenterBoundingBox;
pub use bounding_box::IVec2;
pub use bounding_box::TopLeftBoundingBox;
pub use format::BoundingBoxen;
pub use format::MissingImageSizeError;
pub use format::UnknownFormatError;
