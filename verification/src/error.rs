//! The failures that the conversions report.

use vstd::prelude::*;
use crate::utils::image_encodings::Encoding;

verus! {

/// Why a conversion was refused.
#[derive(Debug, Clone, PartialEq, Eq)]
pub enum BridgeError {
    /// The identifier is not in the encoding catalog.
    UnsupportedEncoding(String),
    /// No identifier names this channel arrangement at this element depth code.
    UnsupportedDepth(Encoding, i32),
    /// No re-encoding is defined from the first arrangement to the second.
    UnsupportedConversion(Encoding, Encoding),
    /// The byte-order flag of a multi-byte image is neither 0 nor 1.
    UnsupportedEndianness(u8),
    /// The bit depth is neither 8 nor 16.
    UnsupportedBitDepth(u8),
    /// The buffer length differs from what the dimensions and the encoding
    /// call for: expected bytes first, actual bytes second.
    SizeMismatch(u128, usize),
    /// The byte length is not a multiple of the element size.
    TruncatedBuffer,
    /// A dimension is negative, or a dimension or the row stride does not
    /// fit the field that is to hold it.
    InvalidDimensions,
    /// The color-conversion backend failed; the text is its own report.
    ConversionBackendError(String),
}

} // verus!
