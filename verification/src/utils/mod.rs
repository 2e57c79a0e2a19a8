//! Encoding catalog and byte-order helpers.

pub mod image_byteorder_ops;
pub mod image_encodings;
pub mod text;
