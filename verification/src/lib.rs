//! Conversion between a serialized raster-image message and a typed,
//! densely packed pixel matrix: the encoding catalog, the byte-order
//! transform, the color-conversion resolver and the image value that
//! ties them together.

pub mod cv_image;
pub mod error;
pub mod msgs;
pub mod utils;

pub use cv_image::CvImage;
