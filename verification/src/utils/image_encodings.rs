//! The catalog of recognized pixel encodings and the table of color-space
//! conversions between them.
//!
//! Twenty identifiers are recognized, case-sensitively: `mono8`, `mono16`,
//! `rgb8`, `rgb16`, `rgba8`, `rgba16`, `bgr8`, `bgr16`, `bgra8`, `bgra16`,
//! the four Bayer patterns `bayer_{rggb,bggr,gbrg,grbg}` at 8 and 16 bits,
//! `yuv422` and `yuv422_yuy2`.

use vstd::prelude::*;
use vstd::arithmetic::power2::{pow2, lemma2_to64};
use crate::error::BridgeError;
use crate::utils::text::str_eq;

verus! {

/// Channel arrangement of an encoding, independent of its bit depth.
#[derive(Debug, Clone, Copy, PartialEq, Eq, Structural)]
pub enum Encoding {
    Gray,
    Rgb,
    Bgr,
    Rgba,
    Bgra,
    Yuv422,
    Yuv422yuy2,
    BayerRGGB,
    BayerBGGR,
    BayerGBRG,
    BayerGRBG,
    Invalid,
}

/// The re-encoding that the vision backend is asked to perform. The backend
/// names Bayer mosaics by the second row of the pattern, so an `RGGB` source
/// selects the `BayerBG` family, `BGGR` selects `BayerRG`, `GBRG` selects
/// `BayerGR` and `GRBG` selects `BayerGB`.
#[derive(Debug, Clone, Copy, PartialEq, Eq, Structural)]
pub enum ConversionOp {
    Gray2Rgb,
    Gray2Bgr,
    Gray2Rgba,
    Gray2Bgra,
    Rgb2Gray,
    Rgb2Bgr,
    Rgb2Rgba,
    Rgb2Bgra,
    Bgr2Gray,
    Bgr2Rgb,
    Bgr2Rgba,
    Bgr2Bgra,
    Rgba2Gray,
    Rgba2Rgb,
    Rgba2Bgr,
    Rgba2Bgra,
    Bgra2Gray,
    Bgra2Rgb,
    Bgra2Bgr,
    Bgra2Rgba,
    BayerBG2Gray,
    BayerBG2Rgb,
    BayerBG2Bgr,
    BayerRG2Gray,
    BayerRG2Rgb,
    BayerRG2Bgr,
    BayerGR2Gray,
    BayerGR2Rgb,
    BayerGR2Bgr,
    BayerGB2Gray,
    BayerGB2Rgb,
    BayerGB2Bgr,
    Yuv2GrayUyvy,
    Yuv2RgbUyvy,
    Yuv2BgrUyvy,
    Yuv2RgbaUyvy,
    Yuv2BgraUyvy,
    Yuv2GrayYuy2,
    Yuv2RgbYuy2,
    Yuv2BgrYuy2,
    Yuv2RgbaYuy2,
    Yuv2BgraYuy2,
}

/// Numeric type of one channel sample.
#[derive(Debug, Clone, Copy, PartialEq, Eq, Structural)]
pub enum ElementKind {
    UInt8,
    UInt16,
}

/// One row of the catalog: the binary layout that an identifier names.
#[derive(Debug, Clone, Copy, PartialEq, Eq)]
pub struct EncodingDescriptor {
    pub id: &'static str,
    pub channels: usize,
    pub bit_depth: u8,
    pub color_space: Encoding,
    pub element_kind: ElementKind,
}

impl EncodingDescriptor {
    /// A row is well formed when it has one to four channels, as many as its
    /// channel arrangement has, a depth of 8 or 16 bits, an element kind that
    /// agrees with the depth, and a color space.
    pub open spec fn wf(self) -> bool {
        &&& 1 <= self.channels <= 4
        &&& self.channels == layout_channels(self.color_space)
        &&& (self.bit_depth == 8 && self.element_kind == ElementKind::UInt8) || (self.bit_depth
            == 16 && self.element_kind == ElementKind::UInt16)
        &&& self.color_space != Encoding::Invalid
    }

    /// Bytes that one channel sample occupies.
    pub open spec fn spec_bytes_per_channel(self) -> nat {
        (self.bit_depth / 8) as nat
    }

    /// Bytes that one channel sample occupies: 1 or 2 for a well-formed row.
    pub fn bytes_per_channel(&self) -> (n: usize)
        ensures
            n == self.spec_bytes_per_channel(),
            self.wf() ==> n == 1 || n == 2,
    {
        (self.bit_depth / 8) as usize
    }

    /// Bytes that one pixel occupies.
    pub open spec fn spec_pixel_bytes(self) -> nat {
        self.channels as nat * self.spec_bytes_per_channel()
    }

    /// Bytes that one pixel occupies: channels times bytes per channel
    /// sample, between 1 and 8.
    pub fn pixel_bytes(&self) -> (n: usize)
        requires
            self.wf(),
        ensures
            n == self.spec_pixel_bytes(),
            1 <= n <= 8,
            self.bit_depth == 16 ==> n == 2 * self.channels,
            self.bit_depth == 8 ==> n == self.channels,
    {
        if self.bit_depth == 16 {
            assert(self.spec_bytes_per_channel() == 2);
            self.channels * 2
        } else {
            assert(self.spec_bytes_per_channel() == 1);
            self.channels
        }
    }
}

/// Whether the identifier is one of the twenty that the catalog lists.
pub open spec fn is_recognized(id: Seq<char>) -> bool {
    ||| id == "mono8"@
        ||| id == "rgb8"@
        ||| id == "rgba8"@
        ||| id == "bgr8"@
        ||| id == "bgra8"@
        ||| id == "mono16"@
        ||| id == "rgb16"@
        ||| id == "rgba16"@
        ||| id == "bgr16"@
        ||| id == "bgra16"@
        ||| id == "bayer_rggb8"@
        ||| id == "bayer_bggr8"@
        ||| id == "bayer_gbrg8"@
        ||| id == "bayer_grbg8"@
        ||| id == "bayer_rggb16"@
        ||| id == "bayer_bggr16"@
        ||| id == "bayer_gbrg16"@
        ||| id == "bayer_grbg16"@
        ||| id == "yuv422"@
        ||| id == "yuv422_yuy2"@
}

/// The catalog: the row that an identifier names, if it names one.
pub open spec fn catalog(id: Seq<char>) -> Option<EncodingDescriptor> {
    if id == "mono8"@ {
        Some(EncodingDescriptor { id: "mono8", channels: 1, bit_depth: 8, color_space: Encoding::Gray, element_kind: ElementKind::UInt8 })
    } else if id == "rgb8"@ {
        Some(EncodingDescriptor { id: "rgb8", channels: 3, bit_depth: 8, color_space: Encoding::Rgb, element_kind: ElementKind::UInt8 })
    } else if id == "rgba8"@ {
        Some(EncodingDescriptor { id: "rgba8", channels: 4, bit_depth: 8, color_space: Encoding::Rgba, element_kind: ElementKind::UInt8 })
    } else if id == "bgr8"@ {
        Some(EncodingDescriptor { id: "bgr8", channels: 3, bit_depth: 8, color_space: Encoding::Bgr, element_kind: ElementKind::UInt8 })
    } else if id == "bgra8"@ {
        Some(EncodingDescriptor { id: "bgra8", channels: 4, bit_depth: 8, color_space: Encoding::Bgra, element_kind: ElementKind::UInt8 })
    } else if id == "mono16"@ {
        Some(EncodingDescriptor { id: "mono16", channels: 1, bit_depth: 16, color_space: Encoding::Gray, element_kind: ElementKind::UInt16 })
    } else if id == "rgb16"@ {
        Some(EncodingDescriptor { id: "rgb16", channels: 3, bit_depth: 16, color_space: Encoding::Rgb, element_kind: ElementKind::UInt16 })
    } else if id == "rgba16"@ {
        Some(EncodingDescriptor { id: "rgba16", channels: 4, bit_depth: 16, color_space: Encoding::Rgba, element_kind: ElementKind::UInt16 })
    } else if id == "bgr16"@ {
        Some(EncodingDescriptor { id: "bgr16", channels: 3, bit_depth: 16, color_space: Encoding::Bgr, element_kind: ElementKind::UInt16 })
    } else if id == "bgra16"@ {
        Some(EncodingDescriptor { id: "bgra16", channels: 4, bit_depth: 16, color_space: Encoding::Bgra, element_kind: ElementKind::UInt16 })
    } else if id == "bayer_rggb8"@ {
        Some(EncodingDescriptor { id: "bayer_rggb8", channels: 1, bit_depth: 8, color_space: Encoding::BayerRGGB, element_kind: ElementKind::UInt8 })
    } else if id == "bayer_bggr8"@ {
        Some(EncodingDescriptor { id: "bayer_bggr8", channels: 1, bit_depth: 8, color_space: Encoding::BayerBGGR, element_kind: ElementKind::UInt8 })
    } else if id == "bayer_gbrg8"@ {
        Some(EncodingDescriptor { id: "bayer_gbrg8", channels: 1, bit_depth: 8, color_space: Encoding::BayerGBRG, element_kind: ElementKind::UInt8 })
    } else if id == "bayer_grbg8"@ {
        Some(EncodingDescriptor { id: "bayer_grbg8", channels: 1, bit_depth: 8, color_space: Encoding::BayerGRBG, element_kind: ElementKind::UInt8 })
    } else if id == "bayer_rggb16"@ {
        Some(EncodingDescriptor { id: "bayer_rggb16", channels: 1, bit_depth: 16, color_space: Encoding::BayerRGGB, element_kind: ElementKind::UInt16 })
    } else if id == "bayer_bggr16"@ {
        Some(EncodingDescriptor { id: "bayer_bggr16", channels: 1, bit_depth: 16, color_space: Encoding::BayerBGGR, element_kind: ElementKind::UInt16 })
    } else if id == "bayer_gbrg16"@ {
        Some(EncodingDescriptor { id: "bayer_gbrg16", channels: 1, bit_depth: 16, color_space: Encoding::BayerGBRG, element_kind: ElementKind::UInt16 })
    } else if id == "bayer_grbg16"@ {
        Some(EncodingDescriptor { id: "bayer_grbg16", channels: 1, bit_depth: 16, color_space: Encoding::BayerGRBG, element_kind: ElementKind::UInt16 })
    } else if id == "yuv422"@ {
        Some(EncodingDescriptor { id: "yuv422", channels: 2, bit_depth: 8, color_space: Encoding::Yuv422, element_kind: ElementKind::UInt8 })
    } else if id == "yuv422_yuy2"@ {
        Some(EncodingDescriptor { id: "yuv422_yuy2", channels: 2, bit_depth: 8, color_space: Encoding::Yuv422yuy2, element_kind: ElementKind::UInt8 })
    } else {
        None
    }
}

/// Looks an identifier up in the catalog. Succeeds exactly on the twenty
/// recognized identifiers; any other string, the empty one and case variants
/// included, is reported back as unsupported.
pub fn descriptor_for(id: &str) -> (r: Result<EncodingDescriptor, BridgeError>)
    ensures
        r is Ok <==> is_recognized(id@),
        match r {
            Ok(d) => catalog(id@) == Some(d) && d.wf() && d.id@ == id@,
            Err(e) => catalog(id@) is None && (e matches BridgeError::UnsupportedEncoding(s)
                && s@ == id@),
        },
{
    if str_eq(id, "mono8") {
        Ok(EncodingDescriptor { id: "mono8", channels: 1, bit_depth: 8, color_space: Encoding::Gray, element_kind: ElementKind::UInt8 })
    } else if str_eq(id, "rgb8") {
        Ok(EncodingDescriptor { id: "rgb8", channels: 3, bit_depth: 8, color_space: Encoding::Rgb, element_kind: ElementKind::UInt8 })
    } else if str_eq(id, "rgba8") {
        Ok(EncodingDescriptor { id: "rgba8", channels: 4, bit_depth: 8, color_space: Encoding::Rgba, element_kind: ElementKind::UInt8 })
    } else if str_eq(id, "bgr8") {
        Ok(EncodingDescriptor { id: "bgr8", channels: 3, bit_depth: 8, color_space: Encoding::Bgr, element_kind: ElementKind::UInt8 })
    } else if str_eq(id, "bgra8") {
        Ok(EncodingDescriptor { id: "bgra8", channels: 4, bit_depth: 8, color_space: Encoding::Bgra, element_kind: ElementKind::UInt8 })
    } else if str_eq(id, "mono16") {
        Ok(EncodingDescriptor { id: "mono16", channels: 1, bit_depth: 16, color_space: Encoding::Gray, element_kind: ElementKind::UInt16 })
    } else if str_eq(id, "rgb16") {
        Ok(EncodingDescriptor { id: "rgb16", channels: 3, bit_depth: 16, color_space: Encoding::Rgb, element_kind: ElementKind::UInt16 })
    } else if str_eq(id, "rgba16") {
        Ok(EncodingDescriptor { id: "rgba16", channels: 4, bit_depth: 16, color_space: Encoding::Rgba, element_kind: ElementKind::UInt16 })
    } else if str_eq(id, "bgr16") {
        Ok(EncodingDescriptor { id: "bgr16", channels: 3, bit_depth: 16, color_space: Encoding::Bgr, element_kind: ElementKind::UInt16 })
    } else if str_eq(id, "bgra16") {
        Ok(EncodingDescriptor { id: "bgra16", channels: 4, bit_depth: 16, color_space: Encoding::Bgra, element_kind: ElementKind::UInt16 })
    } else if str_eq(id, "bayer_rggb8") {
        Ok(EncodingDescriptor { id: "bayer_rggb8", channels: 1, bit_depth: 8, color_space: Encoding::BayerRGGB, element_kind: ElementKind::UInt8 })
    } else if str_eq(id, "bayer_bggr8") {
        Ok(EncodingDescriptor { id: "bayer_bggr8", channels: 1, bit_depth: 8, color_space: Encoding::BayerBGGR, element_kind: ElementKind::UInt8 })
    } else if str_eq(id, "bayer_gbrg8") {
        Ok(EncodingDescriptor { id: "bayer_gbrg8", channels: 1, bit_depth: 8, color_space: Encoding::BayerGBRG, element_kind: ElementKind::UInt8 })
    } else if str_eq(id, "bayer_grbg8") {
        Ok(EncodingDescriptor { id: "bayer_grbg8", channels: 1, bit_depth: 8, color_space: Encoding::BayerGRBG, element_kind: ElementKind::UInt8 })
    } else if str_eq(id, "bayer_rggb16") {
        Ok(EncodingDescriptor { id: "bayer_rggb16", channels: 1, bit_depth: 16, color_space: Encoding::BayerRGGB, element_kind: ElementKind::UInt16 })
    } else if str_eq(id, "bayer_bggr16") {
        Ok(EncodingDescriptor { id: "bayer_bggr16", channels: 1, bit_depth: 16, color_space: Encoding::BayerBGGR, element_kind: ElementKind::UInt16 })
    } else if str_eq(id, "bayer_gbrg16") {
        Ok(EncodingDescriptor { id: "bayer_gbrg16", channels: 1, bit_depth: 16, color_space: Encoding::BayerGBRG, element_kind: ElementKind::UInt16 })
    } else if str_eq(id, "bayer_grbg16") {
        Ok(EncodingDescriptor { id: "bayer_grbg16", channels: 1, bit_depth: 16, color_space: Encoding::BayerGRBG, element_kind: ElementKind::UInt16 })
    } else if str_eq(id, "yuv422") {
        Ok(EncodingDescriptor { id: "yuv422", channels: 2, bit_depth: 8, color_space: Encoding::Yuv422, element_kind: ElementKind::UInt8 })
    } else if str_eq(id, "yuv422_yuy2") {
        Ok(EncodingDescriptor { id: "yuv422_yuy2", channels: 2, bit_depth: 8, color_space: Encoding::Yuv422yuy2, element_kind: ElementKind::UInt8 })
    } else {
        Err(BridgeError::UnsupportedEncoding(id.to_owned()))
    }
}

/// Channel count that an identifier names; 0 for an unrecognized one.
pub open spec fn spec_num_channels(id: Seq<char>) -> nat {
    match catalog(id) {
        Some(d) => d.channels as nat,
        None => 0,
    }
}

/// Bits per channel sample that an identifier names; 0 for an unrecognized
/// one.
pub open spec fn spec_bit_depth(id: Seq<char>) -> nat {
    match catalog(id) {
        Some(d) => d.bit_depth as nat,
        None => 0,
    }
}

/// Channel arrangement that an identifier names; `Invalid` for an
/// unrecognized one.
pub open spec fn spec_color_space(id: Seq<char>) -> Encoding {
    match catalog(id) {
        Some(d) => d.color_space,
        None => Encoding::Invalid,
    }
}

/// Returns the number of channels of an encoding, or the sentinel 0 when the
/// identifier is not recognized. The sentinel is meant for probing; validate
/// with `descriptor_for` before using the count in size arithmetic.
pub fn get_num_channels(encoding: &str) -> (n: usize)
    ensures
        n == spec_num_channels(encoding@),
        is_recognized(encoding@) ==> 1 <= n <= 4,
        !is_recognized(encoding@) ==> n == 0,
{
    match descriptor_for(encoding) {
        Ok(d) => d.channels,
        Err(_) => 0,
    }
}

/// Returns the number of bits per channel sample of an encoding, or the
/// sentinel 0 when the identifier is not recognized.
pub fn get_bit_depth(encoding: &str) -> (n: u8)
    ensures
        n == spec_bit_depth(encoding@),
        is_recognized(encoding@) ==> n == 8 || n == 16,
        !is_recognized(encoding@) ==> n == 0,
{
    match descriptor_for(encoding) {
        Ok(d) => d.bit_depth,
        Err(_) => 0,
    }
}

/// Returns the channel arrangement of an encoding; the 8-bit and the 16-bit
/// variant of a layout share one. Fails on an unrecognized identifier.
pub fn from_encstr_to_cvenc(encoding: &str) -> (r: Result<Encoding, BridgeError>)
    ensures
        r is Ok <==> is_recognized(encoding@),
        match r {
            Ok(e) => e == spec_color_space(encoding@) && e != Encoding::Invalid,
            Err(e) => e matches BridgeError::UnsupportedEncoding(s) && s@ == encoding@,
        },
{
    match descriptor_for(encoding) {
        Ok(d) => Ok(d.color_space),
        Err(e) => Err(e),
    }
}

/// Element type of a pixel matrix: the sample kind and the channel count.
#[derive(Debug, Clone, Copy, PartialEq, Eq, Structural)]
pub struct MatType {
    pub depth: ElementKind,
    pub channels: usize,
}

/// Matrix element type that an identifier names.
pub open spec fn spec_mat_type(id: Seq<char>) -> Option<MatType> {
    match catalog(id) {
        Some(d) => Some(MatType { depth: d.element_kind, channels: d.channels }),
        None => None,
    }
}

/// Returns the matrix element type of an encoding: unsigned 8-bit samples
/// for the 8-bit encodings, unsigned 16-bit samples for the 16-bit ones, with
/// the encoding's channel count. Fails on an unrecognized identifier.
pub fn from_encstr_to_cvtype(encoding: &str) -> (r: Result<MatType, BridgeError>)
    ensures
        r is Ok <==> is_recognized(encoding@),
        match r {
            Ok(t) => spec_mat_type(encoding@) == Some(t) && 1 <= t.channels <= 4 && (t.depth
                == ElementKind::UInt8 <==> spec_bit_depth(encoding@) == 8),
            Err(e) => e matches BridgeError::UnsupportedEncoding(s) && s@ == encoding@,
        },
{
    match descriptor_for(encoding) {
        Ok(d) => Ok(MatType { depth: d.element_kind, channels: d.channels }),
        Err(e) => Err(e),
    }
}

/// The name for a depth code: codes 0 and 1 (unsigned and signed 8-bit)
/// select the 8-bit name, codes 2 and 3 (unsigned and signed 16-bit) the
/// 16-bit name.
pub open spec fn sized_name(name8: Seq<char>, name16: Seq<char>, cvdepth: int) -> Option<
    Seq<char>,
> {
    if cvdepth == 0 || cvdepth == 1 {
        Some(name8)
    } else if cvdepth == 2 || cvdepth == 3 {
        Some(name16)
    } else {
        None
    }
}

/// The identifier that names a channel arrangement at a depth code. The YUV
/// layouts exist for depth code 0 only.
pub open spec fn encoding_name(cvenc: Encoding, cvdepth: int) -> Option<Seq<char>> {
    match cvenc {
        Encoding::Gray => sized_name("mono8"@, "mono16"@, cvdepth),
        Encoding::Rgb => sized_name("rgb8"@, "rgb16"@, cvdepth),
        Encoding::Bgr => sized_name("bgr8"@, "bgr16"@, cvdepth),
        Encoding::Rgba => sized_name("rgba8"@, "rgba16"@, cvdepth),
        Encoding::Bgra => sized_name("bgra8"@, "bgra16"@, cvdepth),
        Encoding::BayerRGGB => sized_name("bayer_rggb8"@, "bayer_rggb16"@, cvdepth),
        Encoding::BayerBGGR => sized_name("bayer_bggr8"@, "bayer_bggr16"@, cvdepth),
        Encoding::BayerGBRG => sized_name("bayer_gbrg8"@, "bayer_gbrg16"@, cvdepth),
        Encoding::BayerGRBG => sized_name("bayer_grbg8"@, "bayer_grbg16"@, cvdepth),
        Encoding::Yuv422 => if cvdepth == 0 {
            Some("yuv422"@)
        } else {
            None
        },
        Encoding::Yuv422yuy2 => if cvdepth == 0 {
            Some("yuv422_yuy2"@)
        } else {
            None
        },
        Encoding::Invalid => None,
    }
}

fn pick_sized_name(name8: &str, name16: &str, cvenc: Encoding, cvdepth: i32) -> (r: Result<
    String,
    BridgeError,
>)
    ensures
        match r {
            Ok(s) => sized_name(name8@, name16@, cvdepth as int) == Some(s@),
            Err(e) => sized_name(name8@, name16@, cvdepth as int) is None && e
                == BridgeError::UnsupportedDepth(cvenc, cvdepth),
        },
{
    if cvdepth == 0 || cvdepth == 1 {
        Ok(name8.to_owned())
    } else if cvdepth == 2 || cvdepth == 3 {
        Ok(name16.to_owned())
    } else {
        Err(BridgeError::UnsupportedDepth(cvenc, cvdepth))
    }
}

/// Returns the identifier for a channel arrangement and a matrix depth code
/// (0 unsigned 8-bit, 1 signed 8-bit, 2 unsigned 16-bit, 3 signed 16-bit).
/// Fails for any other code, for `Invalid`, and for a YUV layout at a code
/// other than 0.
pub fn from_cvenc_to_encstr(cvenc: Encoding, cvdepth: i32) -> (r: Result<String, BridgeError>)
    ensures
        match r {
            Ok(s) => encoding_name(cvenc, cvdepth as int) == Some(s@),
            Err(e) => encoding_name(cvenc, cvdepth as int) is None && e
                == BridgeError::UnsupportedDepth(cvenc, cvdepth),
        },
{
    match cvenc {
        Encoding::Gray => pick_sized_name("mono8", "mono16", cvenc, cvdepth),
        Encoding::Rgb => pick_sized_name("rgb8", "rgb16", cvenc, cvdepth),
        Encoding::Bgr => pick_sized_name("bgr8", "bgr16", cvenc, cvdepth),
        Encoding::Rgba => pick_sized_name("rgba8", "rgba16", cvenc, cvdepth),
        Encoding::Bgra => pick_sized_name("bgra8", "bgra16", cvenc, cvdepth),
        Encoding::BayerRGGB => pick_sized_name("bayer_rggb8", "bayer_rggb16", cvenc, cvdepth),
        Encoding::BayerBGGR => pick_sized_name("bayer_bggr8", "bayer_bggr16", cvenc, cvdepth),
        Encoding::BayerGBRG => pick_sized_name("bayer_gbrg8", "bayer_gbrg16", cvenc, cvdepth),
        Encoding::BayerGRBG => pick_sized_name("bayer_grbg8", "bayer_grbg16", cvenc, cvdepth),
        Encoding::Yuv422 => if cvdepth == 0 {
            Ok("yuv422".to_owned())
        } else {
            Err(BridgeError::UnsupportedDepth(cvenc, cvdepth))
        },
        Encoding::Yuv422yuy2 => if cvdepth == 0 {
            Ok("yuv422_yuy2".to_owned())
        } else {
            Err(BridgeError::UnsupportedDepth(cvenc, cvdepth))
        },
        Encoding::Invalid => Err(BridgeError::UnsupportedDepth(cvenc, cvdepth)),
    }
}

/// Factor by which sample values are multiplied when the bit depth changes,
/// as an exact ratio of two integers.
#[derive(Debug, Clone, Copy, PartialEq, Eq, Structural)]
pub struct ScalingFactor {
    pub numerator: u32,
    pub denominator: u32,
}

/// The ratio `2^(dst_depth - src_depth)` as numerator and denominator, or
/// zero over one when either depth is the sentinel 0 of an unrecognized
/// encoding.
pub open spec fn scaling_ratio(src_depth: nat, dst_depth: nat) -> (nat, nat) {
    if src_depth == 0 || dst_depth == 0 {
        (0, 1)
    } else if dst_depth >= src_depth {
        (pow2((dst_depth - src_depth) as nat), 1)
    } else {
        (1, pow2((src_depth - dst_depth) as nat))
    }
}

/// Returns the factor `2^(dst_depth - src_depth)` that rescales sample values
/// between two encodings: 1 for equal depths, 256 from 8 to 16 bits, 1/256
/// from 16 to 8 bits. When either identifier is unrecognized the result is
/// zero: a sentinel, not a scale. Multiplied into pixel data it would blank
/// the image, so validate both identifiers before using the factor.
pub fn get_scaling_factor(src_encoding: &str, dst_encoding: &str) -> (f: ScalingFactor)
    ensures
        (f.numerator as nat, f.denominator as nat) == scaling_ratio(
            spec_bit_depth(src_encoding@),
            spec_bit_depth(dst_encoding@),
        ),
        f.denominator > 0,
        f.numerator == 0 <==> !is_recognized(src_encoding@) || !is_recognized(dst_encoding@),
{
    let src_depth = get_bit_depth(src_encoding);
    let dst_depth = get_bit_depth(dst_encoding);
    proof {
        lemma2_to64();
    }
    if src_depth == 0 || dst_depth == 0 {
        ScalingFactor { numerator: 0, denominator: 1 }
    } else if dst_depth == src_depth {
        ScalingFactor { numerator: 1, denominator: 1 }
    } else if dst_depth > src_depth {
        ScalingFactor { numerator: 256, denominator: 1 }
    } else {
        ScalingFactor { numerator: 1, denominator: 256 }
    }
}

/// The catalog answers exactly the twenty listed identifiers.
pub proof fn lemma_catalog_total(id: Seq<char>)
    ensures
        catalog(id) is Some <==> is_recognized(id),
{
}

/// Every row of the catalog is well formed and is filed under its own
/// identifier, so no identifier names two layouts.
pub proof fn lemma_catalog_rows(id: Seq<char>)
    ensures
        catalog(id) matches Some(d) ==> d.wf() && d.id@ == id,
{
}

/// Naming a channel arrangement at a depth code and looking the name up
/// again gives back the arrangement, with 8 bits for the codes 0 and 1 and
/// 16 bits for the codes 2 and 3. In particular the 8-bit and the 16-bit
/// variant of a layout share their channel arrangement.
pub proof fn lemma_name_round_trip(cvenc: Encoding, cvdepth: int)
    ensures
        encoding_name(cvenc, cvdepth) matches Some(name) ==> {
            &&& is_recognized(name)
            &&& spec_color_space(name) == cvenc
            &&& spec_bit_depth(name) == (if cvdepth <= 1 {
                8nat
            } else {
                16nat
            })
        },
{
    reveal_strlit("mono8");
    reveal_strlit("rgb8");
    reveal_strlit("rgba8");
    reveal_strlit("bgr8");
    reveal_strlit("bgra8");
    reveal_strlit("mono16");
    reveal_strlit("rgb16");
    reveal_strlit("rgba16");
    reveal_strlit("bgr16");
    reveal_strlit("bgra16");
    reveal_strlit("bayer_rggb8");
    reveal_strlit("bayer_bggr8");
    reveal_strlit("bayer_gbrg8");
    reveal_strlit("bayer_grbg8");
    reveal_strlit("bayer_rggb16");
    reveal_strlit("bayer_bggr16");
    reveal_strlit("bayer_gbrg16");
    reveal_strlit("bayer_grbg16");
    reveal_strlit("yuv422");
    reveal_strlit("yuv422_yuy2");
    // Length and a few characters tell any two identifiers apart.
    assert("mono8"@.len() == 5 && "mono8"@[0] == 'm' && "mono8"@[3] == 'o');
    assert("rgb8"@.len() == 4 && "rgb8"@[0] == 'r' && "rgb8"@[3] == '8');
    assert("rgba8"@.len() == 5 && "rgba8"@[0] == 'r' && "rgba8"@[3] == 'a');
    assert("bgr8"@.len() == 4 && "bgr8"@[0] == 'b' && "bgr8"@[3] == '8');
    assert("bgra8"@.len() == 5 && "bgra8"@[0] == 'b' && "bgra8"@[3] == 'a');
    assert("mono16"@.len() == 6 && "mono16"@[0] == 'm' && "mono16"@[3] == 'o');
    assert("rgb16"@.len() == 5 && "rgb16"@[0] == 'r' && "rgb16"@[3] == '1');
    assert("rgba16"@.len() == 6 && "rgba16"@[0] == 'r' && "rgba16"@[3] == 'a');
    assert("bgr16"@.len() == 5 && "bgr16"@[0] == 'b' && "bgr16"@[3] == '1');
    assert("bgra16"@.len() == 6 && "bgra16"@[0] == 'b' && "bgra16"@[3] == 'a');
    assert("bayer_rggb8"@.len() == 11 && "bayer_rggb8"@[0] == 'b' && "bayer_rggb8"@[3] == 'e' && "bayer_rggb8"@[6] == 'r' && "bayer_rggb8"@[7] == 'g');
    assert("bayer_bggr8"@.len() == 11 && "bayer_bggr8"@[0] == 'b' && "bayer_bggr8"@[3] == 'e' && "bayer_bggr8"@[6] == 'b' && "bayer_bggr8"@[7] == 'g');
    assert("bayer_gbrg8"@.len() == 11 && "bayer_gbrg8"@[0] == 'b' && "bayer_gbrg8"@[3] == 'e' && "bayer_gbrg8"@[6] == 'g' && "bayer_gbrg8"@[7] == 'b');
    assert("bayer_grbg8"@.len() == 11 && "bayer_grbg8"@[0] == 'b' && "bayer_grbg8"@[3] == 'e' && "bayer_grbg8"@[6] == 'g' && "bayer_grbg8"@[7] == 'r');
    assert("bayer_rggb16"@.len() == 12 && "bayer_rggb16"@[0] == 'b' && "bayer_rggb16"@[3] == 'e' && "bayer_rggb16"@[6] == 'r' && "bayer_rggb16"@[7] == 'g');
    assert("bayer_bggr16"@.len() == 12 && "bayer_bggr16"@[0] == 'b' && "bayer_bggr16"@[3] == 'e' && "bayer_bggr16"@[6] == 'b' && "bayer_bggr16"@[7] == 'g');
    assert("bayer_gbrg16"@.len() == 12 && "bayer_gbrg16"@[0] == 'b' && "bayer_gbrg16"@[3] == 'e' && "bayer_gbrg16"@[6] == 'g' && "bayer_gbrg16"@[7] == 'b');
    assert("bayer_grbg16"@.len() == 12 && "bayer_grbg16"@[0] == 'b' && "bayer_grbg16"@[3] == 'e' && "bayer_grbg16"@[6] == 'g' && "bayer_grbg16"@[7] == 'r');
    assert("yuv422"@.len() == 6 && "yuv422"@[0] == 'y' && "yuv422"@[3] == '4');
    assert("yuv422_yuy2"@.len() == 11 && "yuv422_yuy2"@[0] == 'y' && "yuv422_yuy2"@[3] == '4' && "yuv422_yuy2"@[6] == '_' && "yuv422_yuy2"@[7] == 'y');
}

/// Channels that a channel arrangement has: one for gray and for a Bayer
/// mosaic, two for packed YUV 4:2:2, three for RGB and BGR, four for RGBA and
/// BGRA; none for `Invalid`.
pub open spec fn layout_channels(e: Encoding) -> nat {
    match e {
        Encoding::Gray => 1,
        Encoding::BayerRGGB | Encoding::BayerBGGR | Encoding::BayerGBRG | Encoding::BayerGRBG => 1,
        Encoding::Yuv422 | Encoding::Yuv422yuy2 => 2,
        Encoding::Rgb | Encoding::Bgr => 3,
        Encoding::Rgba | Encoding::Bgra => 4,
        Encoding::Invalid => 0,
    }
}

/// The channel arrangement that a re-encoding reads.
pub open spec fn op_reads(op: ConversionOp) -> Encoding {
    match op {
        ConversionOp::Gray2Rgb | ConversionOp::Gray2Bgr | ConversionOp::Gray2Rgba | ConversionOp::Gray2Bgra => Encoding::Gray,
        ConversionOp::Rgb2Gray | ConversionOp::Rgb2Bgr | ConversionOp::Rgb2Rgba | ConversionOp::Rgb2Bgra => Encoding::Rgb,
        ConversionOp::Bgr2Gray | ConversionOp::Bgr2Rgb | ConversionOp::Bgr2Rgba | ConversionOp::Bgr2Bgra => Encoding::Bgr,
        ConversionOp::Rgba2Gray | ConversionOp::Rgba2Rgb | ConversionOp::Rgba2Bgr | ConversionOp::Rgba2Bgra => Encoding::Rgba,
        ConversionOp::Bgra2Gray | ConversionOp::Bgra2Rgb | ConversionOp::Bgra2Bgr | ConversionOp::Bgra2Rgba => Encoding::Bgra,
        ConversionOp::BayerBG2Gray | ConversionOp::BayerBG2Rgb | ConversionOp::BayerBG2Bgr => Encoding::BayerRGGB,
        ConversionOp::BayerRG2Gray | ConversionOp::BayerRG2Rgb | ConversionOp::BayerRG2Bgr => Encoding::BayerBGGR,
        ConversionOp::BayerGR2Gray | ConversionOp::BayerGR2Rgb | ConversionOp::BayerGR2Bgr => Encoding::BayerGBRG,
        ConversionOp::BayerGB2Gray | ConversionOp::BayerGB2Rgb | ConversionOp::BayerGB2Bgr => Encoding::BayerGRBG,
        ConversionOp::Yuv2GrayUyvy | ConversionOp::Yuv2RgbUyvy | ConversionOp::Yuv2BgrUyvy | ConversionOp::Yuv2RgbaUyvy | ConversionOp::Yuv2BgraUyvy => Encoding::Yuv422,
        ConversionOp::Yuv2GrayYuy2 | ConversionOp::Yuv2RgbYuy2 | ConversionOp::Yuv2BgrYuy2 | ConversionOp::Yuv2RgbaYuy2 | ConversionOp::Yuv2BgraYuy2 => Encoding::Yuv422yuy2,
    }
}

/// The channel arrangement that a re-encoding writes.
pub open spec fn op_writes(op: ConversionOp) -> Encoding {
    match op {
        ConversionOp::Gray2Rgb | ConversionOp::Bgr2Rgb | ConversionOp::Rgba2Rgb | ConversionOp::Bgra2Rgb | ConversionOp::BayerBG2Rgb | ConversionOp::BayerRG2Rgb | ConversionOp::BayerGR2Rgb | ConversionOp::BayerGB2Rgb | ConversionOp::Yuv2RgbUyvy | ConversionOp::Yuv2RgbYuy2 => Encoding::Rgb,
        ConversionOp::Gray2Bgr | ConversionOp::Rgb2Bgr | ConversionOp::Rgba2Bgr | ConversionOp::Bgra2Bgr | ConversionOp::BayerBG2Bgr | ConversionOp::BayerRG2Bgr | ConversionOp::BayerGR2Bgr | ConversionOp::BayerGB2Bgr | ConversionOp::Yuv2BgrUyvy | ConversionOp::Yuv2BgrYuy2 => Encoding::Bgr,
        ConversionOp::Gray2Rgba | ConversionOp::Rgb2Rgba | ConversionOp::Bgr2Rgba | ConversionOp::Bgra2Rgba | ConversionOp::Yuv2RgbaUyvy | ConversionOp::Yuv2RgbaYuy2 => Encoding::Rgba,
        ConversionOp::Gray2Bgra | ConversionOp::Rgb2Bgra | ConversionOp::Bgr2Bgra | ConversionOp::Rgba2Bgra | ConversionOp::Yuv2BgraUyvy | ConversionOp::Yuv2BgraYuy2 => Encoding::Bgra,
        ConversionOp::Rgb2Gray | ConversionOp::Bgr2Gray | ConversionOp::Rgba2Gray | ConversionOp::Bgra2Gray | ConversionOp::BayerBG2Gray | ConversionOp::BayerRG2Gray | ConversionOp::BayerGR2Gray | ConversionOp::BayerGB2Gray | ConversionOp::Yuv2GrayUyvy | ConversionOp::Yuv2GrayYuy2 => Encoding::Gray,
    }
}

/// Whether the arrangement is one of the four Bayer mosaics.
pub open spec fn is_bayer(e: Encoding) -> bool {
    e == Encoding::BayerRGGB || e == Encoding::BayerBGGR || e == Encoding::BayerGBRG
        || e == Encoding::BayerGRBG
}

/// Whether the arrangement is one of the two packed YUV 4:2:2 layouts.
pub open spec fn is_yuv(e: Encoding) -> bool {
    e == Encoding::Yuv422 || e == Encoding::Yuv422yuy2
}

/// Whether the arrangement is gray or one of the four interleaved color
/// layouts.
pub open spec fn is_plain(e: Encoding) -> bool {
    e == Encoding::Gray || e == Encoding::Rgb || e == Encoding::Bgr || e == Encoding::Rgba
        || e == Encoding::Bgra
}

/// The pairs for which a re-encoding is defined: gray and the interleaved
/// color layouts convert among themselves (never to themselves), a Bayer
/// mosaic converts to gray, RGB or BGR only, and a YUV 4:2:2 layout converts
/// to gray or any interleaved color layout. Conversions are never chained.
pub open spec fn convertible(src: Encoding, dst: Encoding) -> bool {
    ||| is_plain(src) && is_plain(dst) && src != dst
    ||| is_bayer(src) && (dst == Encoding::Gray || dst == Encoding::Rgb || dst == Encoding::Bgr)
    ||| is_yuv(src) && is_plain(dst)
}

/// The conversion table: for a source and a destination layout, the
/// re-encoding that reads the one and writes the other, where the backend
/// has one.
pub open spec fn conversion_table(src: Encoding, dst: Encoding) -> Option<ConversionOp> {
    match (src, dst) {
        (Encoding::Gray, Encoding::Rgb) => Some(ConversionOp::Gray2Rgb),
        (Encoding::Gray, Encoding::Bgr) => Some(ConversionOp::Gray2Bgr),
        (Encoding::Gray, Encoding::Rgba) => Some(ConversionOp::Gray2Rgba),
        (Encoding::Gray, Encoding::Bgra) => Some(ConversionOp::Gray2Bgra),
        (Encoding::Rgb, Encoding::Gray) => Some(ConversionOp::Rgb2Gray),
        (Encoding::Rgb, Encoding::Bgr) => Some(ConversionOp::Rgb2Bgr),
        (Encoding::Rgb, Encoding::Rgba) => Some(ConversionOp::Rgb2Rgba),
        (Encoding::Rgb, Encoding::Bgra) => Some(ConversionOp::Rgb2Bgra),
        (Encoding::Bgr, Encoding::Gray) => Some(ConversionOp::Bgr2Gray),
        (Encoding::Bgr, Encoding::Rgb) => Some(ConversionOp::Bgr2Rgb),
        (Encoding::Bgr, Encoding::Rgba) => Some(ConversionOp::Bgr2Rgba),
        (Encoding::Bgr, Encoding::Bgra) => Some(ConversionOp::Bgr2Bgra),
        (Encoding::Rgba, Encoding::Gray) => Some(ConversionOp::Rgba2Gray),
        (Encoding::Rgba, Encoding::Rgb) => Some(ConversionOp::Rgba2Rgb),
        (Encoding::Rgba, Encoding::Bgr) => Some(ConversionOp::Rgba2Bgr),
        (Encoding::Rgba, Encoding::Bgra) => Some(ConversionOp::Rgba2Bgra),
        (Encoding::Bgra, Encoding::Gray) => Some(ConversionOp::Bgra2Gray),
        (Encoding::Bgra, Encoding::Rgb) => Some(ConversionOp::Bgra2Rgb),
        (Encoding::Bgra, Encoding::Bgr) => Some(ConversionOp::Bgra2Bgr),
        (Encoding::Bgra, Encoding::Rgba) => Some(ConversionOp::Bgra2Rgba),
        (Encoding::BayerRGGB, Encoding::Gray) => Some(ConversionOp::BayerBG2Gray),
        (Encoding::BayerRGGB, Encoding::Rgb) => Some(ConversionOp::BayerBG2Rgb),
        (Encoding::BayerRGGB, Encoding::Bgr) => Some(ConversionOp::BayerBG2Bgr),
        (Encoding::BayerBGGR, Encoding::Gray) => Some(ConversionOp::BayerRG2Gray),
        (Encoding::BayerBGGR, Encoding::Rgb) => Some(ConversionOp::BayerRG2Rgb),
        (Encoding::BayerBGGR, Encoding::Bgr) => Some(ConversionOp::BayerRG2Bgr),
        (Encoding::BayerGBRG, Encoding::Gray) => Some(ConversionOp::BayerGR2Gray),
        (Encoding::BayerGBRG, Encoding::Rgb) => Some(ConversionOp::BayerGR2Rgb),
        (Encoding::BayerGBRG, Encoding::Bgr) => Some(ConversionOp::BayerGR2Bgr),
        (Encoding::BayerGRBG, Encoding::Gray) => Some(ConversionOp::BayerGB2Gray),
        (Encoding::BayerGRBG, Encoding::Rgb) => Some(ConversionOp::BayerGB2Rgb),
        (Encoding::BayerGRBG, Encoding::Bgr) => Some(ConversionOp::BayerGB2Bgr),
        (Encoding::Yuv422, Encoding::Gray) => Some(ConversionOp::Yuv2GrayUyvy),
        (Encoding::Yuv422, Encoding::Rgb) => Some(ConversionOp::Yuv2RgbUyvy),
        (Encoding::Yuv422, Encoding::Bgr) => Some(ConversionOp::Yuv2BgrUyvy),
        (Encoding::Yuv422, Encoding::Rgba) => Some(ConversionOp::Yuv2RgbaUyvy),
        (Encoding::Yuv422, Encoding::Bgra) => Some(ConversionOp::Yuv2BgraUyvy),
        (Encoding::Yuv422yuy2, Encoding::Gray) => Some(ConversionOp::Yuv2GrayYuy2),
        (Encoding::Yuv422yuy2, Encoding::Rgb) => Some(ConversionOp::Yuv2RgbYuy2),
        (Encoding::Yuv422yuy2, Encoding::Bgr) => Some(ConversionOp::Yuv2BgrYuy2),
        (Encoding::Yuv422yuy2, Encoding::Rgba) => Some(ConversionOp::Yuv2RgbaYuy2),
        (Encoding::Yuv422yuy2, Encoding::Bgra) => Some(ConversionOp::Yuv2BgraYuy2),
        _ => None,
    }
}

/// What `get_conversion_code` returns for a pair.
pub open spec fn conversion_result(src: Encoding, dst: Encoding) -> Result<
    ConversionOp,
    BridgeError,
> {
    match conversion_table(src, dst) {
        Some(op) => Ok(op),
        None => Err(BridgeError::UnsupportedConversion(src, dst)),
    }
}

/// The conversion table has an entry exactly for the convertible pairs.
pub proof fn lemma_conversion_table_domain(src: Encoding, dst: Encoding)
    ensures
        conversion_table(src, dst) is Some <==> convertible(src, dst),
        conversion_result(src, dst) is Ok <==> convertible(src, dst),
{
}

/// The table gives a re-encoding for a pair exactly when that re-encoding
/// reads the source layout and writes the destination layout. So an entry
/// never decodes another source or produces another layout than asked for,
/// and no two re-encodings serve one pair.
pub proof fn lemma_conversion_table_layouts(src: Encoding, dst: Encoding, op: ConversionOp)
    ensures
        conversion_table(src, dst) == Some(op) <==> op_reads(op) == src && op_writes(op) == dst,
{
}

/// What a re-encoding reads and writes is a convertible pair, and the matrix
/// it writes has the destination's channels: one for gray, three for RGB and
/// BGR, four for RGBA and BGRA.
pub proof fn lemma_op_layouts(op: ConversionOp)
    ensures
        convertible(op_reads(op), op_writes(op)),
        conversion_table(op_reads(op), op_writes(op)) == Some(op),
        is_plain(op_writes(op)),
        layout_channels(op_writes(op)) == 1 <==> op_writes(op) == Encoding::Gray,
        layout_channels(op_writes(op)) == 3 <==> op_writes(op) == Encoding::Rgb || op_writes(op)
            == Encoding::Bgr,
        layout_channels(op_writes(op)) == 4 <==> op_writes(op) == Encoding::Rgba || op_writes(op)
            == Encoding::Bgra,
{
}

/// Resolves the re-encoding from one channel arrangement to another, or
/// reports that none is defined for the pair.
pub fn get_conversion_code(src_encoding: Encoding, dst_encoding: Encoding) -> (r: Result<
    ConversionOp,
    BridgeError,
>)
    ensures
        r == conversion_result(src_encoding, dst_encoding),
        r is Ok <==> convertible(src_encoding, dst_encoding),
        r matches Ok(op) ==> op_reads(op) == src_encoding && op_writes(op) == dst_encoding,
{
    match (src_encoding, dst_encoding) {
        (Encoding::Gray, Encoding::Rgb) => Ok(ConversionOp::Gray2Rgb),
        (Encoding::Gray, Encoding::Bgr) => Ok(ConversionOp::Gray2Bgr),
        (Encoding::Gray, Encoding::Rgba) => Ok(ConversionOp::Gray2Rgba),
        (Encoding::Gray, Encoding::Bgra) => Ok(ConversionOp::Gray2Bgra),
        (Encoding::Rgb, Encoding::Gray) => Ok(ConversionOp::Rgb2Gray),
        (Encoding::Rgb, Encoding::Bgr) => Ok(ConversionOp::Rgb2Bgr),
        (Encoding::Rgb, Encoding::Rgba) => Ok(ConversionOp::Rgb2Rgba),
        (Encoding::Rgb, Encoding::Bgra) => Ok(ConversionOp::Rgb2Bgra),
        (Encoding::Bgr, Encoding::Gray) => Ok(ConversionOp::Bgr2Gray),
        (Encoding::Bgr, Encoding::Rgb) => Ok(ConversionOp::Bgr2Rgb),
        (Encoding::Bgr, Encoding::Rgba) => Ok(ConversionOp::Bgr2Rgba),
        (Encoding::Bgr, Encoding::Bgra) => Ok(ConversionOp::Bgr2Bgra),
        (Encoding::Rgba, Encoding::Gray) => Ok(ConversionOp::Rgba2Gray),
        (Encoding::Rgba, Encoding::Rgb) => Ok(ConversionOp::Rgba2Rgb),
        (Encoding::Rgba, Encoding::Bgr) => Ok(ConversionOp::Rgba2Bgr),
        (Encoding::Rgba, Encoding::Bgra) => Ok(ConversionOp::Rgba2Bgra),
        (Encoding::Bgra, Encoding::Gray) => Ok(ConversionOp::Bgra2Gray),
        (Encoding::Bgra, Encoding::Rgb) => Ok(ConversionOp::Bgra2Rgb),
        (Encoding::Bgra, Encoding::Bgr) => Ok(ConversionOp::Bgra2Bgr),
        (Encoding::Bgra, Encoding::Rgba) => Ok(ConversionOp::Bgra2Rgba),
        (Encoding::BayerRGGB, Encoding::Gray) => Ok(ConversionOp::BayerBG2Gray),
        (Encoding::BayerRGGB, Encoding::Rgb) => Ok(ConversionOp::BayerBG2Rgb),
        (Encoding::BayerRGGB, Encoding::Bgr) => Ok(ConversionOp::BayerBG2Bgr),
        (Encoding::BayerBGGR, Encoding::Gray) => Ok(ConversionOp::BayerRG2Gray),
        (Encoding::BayerBGGR, Encoding::Rgb) => Ok(ConversionOp::BayerRG2Rgb),
        (Encoding::BayerBGGR, Encoding::Bgr) => Ok(ConversionOp::BayerRG2Bgr),
        (Encoding::BayerGBRG, Encoding::Gray) => Ok(ConversionOp::BayerGR2Gray),
        (Encoding::BayerGBRG, Encoding::Rgb) => Ok(ConversionOp::BayerGR2Rgb),
        (Encoding::BayerGBRG, Encoding::Bgr) => Ok(ConversionOp::BayerGR2Bgr),
        (Encoding::BayerGRBG, Encoding::Gray) => Ok(ConversionOp::BayerGB2Gray),
        (Encoding::BayerGRBG, Encoding::Rgb) => Ok(ConversionOp::BayerGB2Rgb),
        (Encoding::BayerGRBG, Encoding::Bgr) => Ok(ConversionOp::BayerGB2Bgr),
        (Encoding::Yuv422, Encoding::Gray) => Ok(ConversionOp::Yuv2GrayUyvy),
        (Encoding::Yuv422, Encoding::Rgb) => Ok(ConversionOp::Yuv2RgbUyvy),
        (Encoding::Yuv422, Encoding::Bgr) => Ok(ConversionOp::Yuv2BgrUyvy),
        (Encoding::Yuv422, Encoding::Rgba) => Ok(ConversionOp::Yuv2RgbaUyvy),
        (Encoding::Yuv422, Encoding::Bgra) => Ok(ConversionOp::Yuv2BgraUyvy),
        (Encoding::Yuv422yuy2, Encoding::Gray) => Ok(ConversionOp::Yuv2GrayYuy2),
        (Encoding::Yuv422yuy2, Encoding::Rgb) => Ok(ConversionOp::Yuv2RgbYuy2),
        (Encoding::Yuv422yuy2, Encoding::Bgr) => Ok(ConversionOp::Yuv2BgrYuy2),
        (Encoding::Yuv422yuy2, Encoding::Rgba) => Ok(ConversionOp::Yuv2RgbaYuy2),
        (Encoding::Yuv422yuy2, Encoding::Bgra) => Ok(ConversionOp::Yuv2BgraYuy2),
        _ => Err(BridgeError::UnsupportedConversion(src_encoding, dst_encoding)),
    }
}

/// What a conversion between two encodings takes: the re-encoding to ask of
/// the vision backend, the element types of the source and the destination
/// matrix, and the factor by which sample values are rescaled afterwards.
#[derive(Debug, Clone, Copy, PartialEq, Eq, Structural)]
pub struct ConversionPlan {
    pub op: ConversionOp,
    pub src_type: MatType,
    pub dst_type: MatType,
    pub scaling: ScalingFactor,
}

/// Whether one encoding converts to another: both are in the catalog, a
/// re-encoding is defined between their channel arrangements, and a YUV
/// 4:2:2 source goes to an 8-bit destination only.
pub open spec fn convertible_encodings(src: Seq<char>, dst: Seq<char>) -> bool {
    &&& is_recognized(src)
    &&& is_recognized(dst)
    &&& convertible(spec_color_space(src), spec_color_space(dst))
    &&& is_yuv(spec_color_space(src)) ==> spec_bit_depth(dst) == 8
}

/// The plan for converting one encoding to another, if they convert.
pub open spec fn planned(src: Seq<char>, dst: Seq<char>) -> Option<ConversionPlan> {
    if convertible_encodings(src, dst) {
        Some(
            ConversionPlan {
                op: conversion_table(spec_color_space(src), spec_color_space(dst))->0,
                src_type: spec_mat_type(src)->0,
                dst_type: spec_mat_type(dst)->0,
                scaling: ScalingFactor {
                    numerator: scaling_ratio(spec_bit_depth(src), spec_bit_depth(dst)).0 as u32,
                    denominator: scaling_ratio(spec_bit_depth(src), spec_bit_depth(dst)).1 as u32,
                },
            },
        )
    } else {
        None
    }
}

/// Whether a plan fits its two encodings: its re-encoding reads the source's
/// channel arrangement and writes the destination's, and each matrix type has
/// the channels of its arrangement and the sample kind of its encoding.
pub open spec fn plan_agrees(plan: ConversionPlan, src: Seq<char>, dst: Seq<char>) -> bool {
    &&& op_reads(plan.op) == spec_color_space(src)
    &&& op_writes(plan.op) == spec_color_space(dst)
    &&& plan.src_type.channels == layout_channels(op_reads(plan.op))
    &&& plan.dst_type.channels == layout_channels(op_writes(plan.op))
    &&& spec_mat_type(src) == Some(plan.src_type)
    &&& spec_mat_type(dst) == Some(plan.dst_type)
}

/// Every plan fits its two encodings.
pub proof fn lemma_plan_agrees(src: Seq<char>, dst: Seq<char>)
    ensures
        planned(src, dst) matches Some(plan) ==> plan_agrees(plan, src, dst),
{
    lemma_catalog_rows(src);
    lemma_catalog_rows(dst);
    if planned(src, dst) is Some {
        let op = planned(src, dst)->0.op;
        lemma_conversion_table_layouts(spec_color_space(src), spec_color_space(dst), op);
    }
}

/// Plans the conversion of one encoding to another. Fails with
/// `UnsupportedEncoding` on an unrecognized identifier, the source's being
/// reported first, and with `UnsupportedConversion` where no re-encoding is
/// defined between the channel arrangements or where a YUV 4:2:2 source is
/// asked to go to a 16-bit destination.
pub fn plan_conversion(src_encoding: &str, dst_encoding: &str) -> (r: Result<
    ConversionPlan,
    BridgeError,
>)
    ensures
        r is Ok <==> convertible_encodings(src_encoding@, dst_encoding@),
        r matches Ok(plan) ==> planned(src_encoding@, dst_encoding@) == Some(plan),
        r matches Ok(plan) ==> plan_agrees(plan, src_encoding@, dst_encoding@),
        r matches Err(e) ==> (if !is_recognized(src_encoding@) {
            e matches BridgeError::UnsupportedEncoding(s) && s@ == src_encoding@
        } else if !is_recognized(dst_encoding@) {
            e matches BridgeError::UnsupportedEncoding(s) && s@ == dst_encoding@
        } else {
            e == BridgeError::UnsupportedConversion(
                spec_color_space(src_encoding@),
                spec_color_space(dst_encoding@),
            )
        }),
{
    let src = match descriptor_for(src_encoding) {
        Ok(d) => d,
        Err(e) => {
            return Err(e);
        },
    };
    let dst = match descriptor_for(dst_encoding) {
        Ok(d) => d,
        Err(e) => {
            return Err(e);
        },
    };
    let op = match get_conversion_code(src.color_space, dst.color_space) {
        Ok(op) => op,
        Err(e) => {
            return Err(e);
        },
    };
    let yuv_source = match src.color_space {
        Encoding::Yuv422 => true,
        Encoding::Yuv422yuy2 => true,
        _ => false,
    };
    if yuv_source && dst.bit_depth != 8 {
        return Err(BridgeError::UnsupportedConversion(src.color_space, dst.color_space));
    }
    Ok(
        ConversionPlan {
            op,
            src_type: MatType { depth: src.element_kind, channels: src.channels },
            dst_type: MatType { depth: dst.element_kind, channels: dst.channels },
            scaling: get_scaling_factor(src_encoding, dst_encoding),
        },
    )
}

} // verus!
