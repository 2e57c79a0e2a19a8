//! `CvImage` holds an image and its metadata in the form the processing
//! side works on, and is the bridge between the wire message and the pixel
//! matrix of the vision backend.

use vstd::prelude::*;
use crate::error::BridgeError;
use crate::msgs::{Header, HeaderView, Image, ImageView};
use crate::utils::image_byteorder_ops::{
    decode_u16s, lemma_native_order_keeps_values, lemma_order_round_trip, native_order,
    to_native_order, to_wire_order, wire_order,
};
use crate::utils::image_encodings::{
    descriptor_for, is_recognized, plan_agrees, plan_conversion, planned, spec_bit_depth, spec_mat_type,
    spec_color_space, spec_num_channels, ConversionPlan, ElementKind, EncodingDescriptor, MatType,
};

verus! {

/// An image in processing form: metadata and an owned buffer of pixel bytes,
/// row by row without padding, 16-bit samples in little-endian order.
#[derive(Debug)]
pub struct CvImage {
    header: Header,
    height: usize,
    width: usize,
    encoding: String,
    data: Vec<u8>,
}

/// What an image holds, as plain values.
pub struct CvImageView {
    pub header: HeaderView,
    pub height: nat,
    pub width: nat,
    pub encoding: Seq<char>,
    pub data: Seq<u8>,
}

/// Bytes that one pixel of an encoding occupies: channels times bytes per
/// channel sample; 0 for an unrecognized identifier.
pub open spec fn pixel_bytes(encoding: Seq<char>) -> nat {
    spec_num_channels(encoding) * (spec_bit_depth(encoding) / 8)
}

/// Length of the buffer of a packed image.
pub open spec fn buffer_len(width: nat, height: nat, encoding: Seq<char>) -> nat {
    width * height * pixel_bytes(encoding)
}

/// Bytes of one packed row.
pub open spec fn row_bytes(width: nat, encoding: Seq<char>) -> nat {
    width * pixel_bytes(encoding)
}

impl CvImageView {
    /// An image is well formed when its encoding is in the catalog, its
    /// dimensions fit the 32-bit fields of a message, and its buffer holds
    /// exactly `width * height * channels * bytes_per_channel` bytes.
    pub open spec fn wf(self) -> bool {
        &&& is_recognized(self.encoding)
        &&& self.width <= u32::MAX
        &&& self.height <= u32::MAX
        &&& self.data.len() == buffer_len(self.width, self.height, self.encoding)
    }
}

/// The image that a message decodes to, if it decodes: the encoding must be
/// in the catalog, the buffer must have the length that the dimensions and
/// the encoding call for, and where samples have 16 bits the byte-order flag
/// must be 0 or 1.
pub open spec fn decoded(m: ImageView) -> Option<CvImageView> {
    if is_recognized(m.encoding) && m.data.len() == buffer_len(
        m.width as nat,
        m.height as nat,
        m.encoding,
    ) && flag_fits(m.encoding, m.is_bigendian) {
        match native_order(m.data, spec_bit_depth(m.encoding) as u8, m.is_bigendian == 1) {
            Some(data) => Some(
                CvImageView {
                    header: m.header,
                    height: m.height as nat,
                    width: m.width as nat,
                    encoding: m.encoding,
                    data,
                },
            ),
            None => None,
        }
    } else {
        None
    }
}

/// Whether a byte-order flag can go with an encoding: where samples have 16
/// bits the flag must be 0 (little-endian) or 1 (big-endian); for 8-bit
/// samples byte order means nothing and the flag is not looked at.
pub open spec fn flag_fits(encoding: Seq<char>, is_bigendian: u8) -> bool {
    spec_bit_depth(encoding) == 16 ==> is_bigendian <= 1
}

/// The message that an image encodes to with a byte-order flag, if it
/// encodes: the image must be well formed, the flag must fit the encoding,
/// and the row stride must fit the message's 32-bit field. The stride is
/// computed afresh as `width * channels * bytes_per_channel`; 16-bit samples
/// are emitted big-endian where the flag is 1 and little-endian where it is
/// 0; the flag is recorded in the message.
pub open spec fn encoded(img: CvImageView, is_bigendian: u8) -> Option<ImageView> {
    if img.wf() && flag_fits(img.encoding, is_bigendian) && row_bytes(img.width, img.encoding)
        <= u32::MAX {
        match wire_order(img.data, spec_bit_depth(img.encoding) as u8, is_bigendian == 1) {
            Some(data) => Some(
                ImageView {
                    header: img.header,
                    height: img.height as u32,
                    width: img.width as u32,
                    encoding: img.encoding,
                    is_bigendian,
                    step: row_bytes(img.width, img.encoding) as u32,
                    data,
                },
            ),
            None => None,
        }
    } else {
        None
    }
}

/// The image that wraps the packed buffer of a matrix, if the buffer fits:
/// the encoding must be in the catalog, the dimensions must not be negative,
/// and the buffer must have the length that they call for. The image gets
/// an empty header.
pub open spec fn wrapped(rows: i32, cols: i32, data: Seq<u8>, encoding: Seq<char>) -> Option<
    CvImageView,
> {
    if is_recognized(encoding) && rows >= 0 && cols >= 0 && data.len() == buffer_len(
        cols as nat,
        rows as nat,
        encoding,
    ) {
        Some(
            CvImageView {
                header: Header::spec_empty(),
                height: rows as nat,
                width: cols as nat,
                encoding,
                data,
            },
        )
    } else {
        None
    }
}

/// Whether an error is the one that wrapping a matrix buffer reports: an
/// unrecognized encoding first, then a negative dimension, then a buffer
/// whose length differs from what the dimensions call for.
pub open spec fn wrap_refusal(
    e: BridgeError,
    rows: i32,
    cols: i32,
    data: Seq<u8>,
    encoding: Seq<char>,
) -> bool {
    if !is_recognized(encoding) {
        e matches BridgeError::UnsupportedEncoding(s) && s@ == encoding
    } else if rows < 0 || cols < 0 {
        e == BridgeError::InvalidDimensions
    } else {
        e matches BridgeError::SizeMismatch(expected, actual) && expected == buffer_len(
            cols as nat,
            rows as nat,
            encoding,
        ) && actual == data.len()
    }
}

/// A packed, row-major pixel matrix that borrows the buffer of an image:
/// `rows` by `cols` elements of type `mat_type`, without padding between
/// rows. Writing through `data` writes the image's pixels in place; the
/// borrow keeps the image from being used or dropped meanwhile.
pub struct MatView<'a> {
    pub rows: i32,
    pub cols: i32,
    pub mat_type: MatType,
    pub data: &'a mut [u8],
}

impl<'a> MatView<'a> {
    /// Bytes of one sample of the element type.
    pub open spec fn sample_bytes(&self) -> nat {
        match self.mat_type.depth {
            ElementKind::UInt8 => 1,
            ElementKind::UInt16 => 2,
        }
    }

    /// A view is well formed when its dimensions are not negative, it has
    /// one to four channels, and its buffer holds exactly
    /// `rows * cols * channels * sample_bytes` bytes.
    pub open spec fn wf(&self) -> bool {
        &&& self.rows >= 0
        &&& self.cols >= 0
        &&& 1 <= self.mat_type.channels <= 4
        &&& self.data@.len() == self.rows * self.cols * (self.mat_type.channels
            * self.sample_bytes())
    }
}

impl View for CvImage {
    type V = CvImageView;

    closed spec fn view(&self) -> CvImageView {
        CvImageView {
            header: self.header@,
            height: self.height as nat,
            width: self.width as nat,
            encoding: self.encoding@,
            data: self.data@,
        }
    }
}

/// The pixel bytes of an encoding never exceed eight, and the buffer of a
/// packed 16-bit image has even length.
pub proof fn lemma_pixel_bytes(encoding: Seq<char>)
    ensures
        is_recognized(encoding) ==> 1 <= pixel_bytes(encoding) <= 8,
        !is_recognized(encoding) ==> pixel_bytes(encoding) == 0,
        spec_bit_depth(encoding) == 16 ==> pixel_bytes(encoding) % 2 == 0,
        spec_bit_depth(encoding) == 8 || spec_bit_depth(encoding) == 16 || spec_bit_depth(
            encoding,
        ) == 0,
{
}

/// The packed buffer of a 16-bit image has even length, whatever the
/// dimensions.
pub proof fn lemma_sixteen_bit_buffer_even(width: nat, height: nat, encoding: Seq<char>)
    requires
        spec_bit_depth(encoding) == 16,
    ensures
        buffer_len(width, height, encoding) % 2 == 0,
{
    let channels = spec_num_channels(encoding);
    let half = width * height * channels;
    assert(width * height * pixel_bytes(encoding) == 2 * half) by (nonlinear_arith)
        requires
            pixel_bytes(encoding) == channels * 2,
            half == width * height * channels,
    {}
}

/// A message that decodes comes back bit for bit when the image is encoded
/// again with the message's own byte-order flag, provided that the message's
/// stride is the packed one, `width * channels * bytes_per_channel`: the
/// stride is computed afresh on the way out, so any other would not come
/// back. This holds for every encoding of the catalog and either byte order.
pub proof fn lemma_message_round_trip(m: ImageView)
    requires
        is_recognized(m.encoding),
        m.data.len() == buffer_len(m.width as nat, m.height as nat, m.encoding),
        flag_fits(m.encoding, m.is_bigendian),
        m.step == row_bytes(m.width as nat, m.encoding),
    ensures
        decoded(m) matches Some(img) && img.wf() && encoded(img, m.is_bigendian) == Some(m),
{
    lemma_pixel_bytes(m.encoding);
    let depth = spec_bit_depth(m.encoding) as u8;
    if depth == 16 {
        lemma_sixteen_bit_buffer_even(m.width as nat, m.height as nat, m.encoding);
    }
    lemma_order_round_trip(m.data, depth, m.is_bigendian == 1);
    let img = decoded(m)->0;
    assert(img.data.len() == m.data.len());
    let back = encoded(img, m.is_bigendian)->0;
    assert(back.data =~= m.data);
}

/// Decoding keeps the samples: the buffer of the image holds, read as
/// little-endian, the 16-bit samples that the message holds in its declared
/// byte order, and for 8-bit encodings it is the message's buffer itself.
pub proof fn lemma_decoded_samples(m: ImageView)
    requires
        decoded(m) is Some,
    ensures
        spec_bit_depth(m.encoding) == 8 ==> decoded(m)->0.data == m.data,
        spec_bit_depth(m.encoding) == 16 ==> decode_u16s(decoded(m)->0.data, false)
            == decode_u16s(m.data, m.is_bigendian == 1),
{
    lemma_pixel_bytes(m.encoding);
    if spec_bit_depth(m.encoding) == 16 {
        lemma_sixteen_bit_buffer_even(m.width as nat, m.height as nat, m.encoding);
        lemma_native_order_keeps_values(m.data, m.is_bigendian == 1);
    }
}

/// Length in bytes of the packed buffer of `width` by `height` pixels of a
/// catalog row. The product cannot overflow: it stays below `2^67`.
fn packed_len(width: u32, height: u32, d: &EncodingDescriptor) -> (n: u128)
    requires
        d.wf(),
    ensures
        n == width * height * d.spec_pixel_bytes(),
{
    let pixel: u128 = d.pixel_bytes() as u128;
    assert((width as int) * (height as int) <= 0xffff_ffff * 0xffff_ffff) by (nonlinear_arith)
        requires
            0 <= width <= 0xffff_ffff,
            0 <= height <= 0xffff_ffff,
    {}
    let area: u128 = (width as u128) * (height as u128);
    assert(area * pixel <= 0xffff_ffff * 0xffff_ffff * 8) by (nonlinear_arith)
        requires
            area <= 0xffff_ffff * 0xffff_ffff,
            pixel <= 8,
    {}
    area * pixel
}

impl CvImage {
    /// Whether the image is well formed; every constructor establishes this
    /// and every method keeps it.
    pub open spec fn wf(&self) -> bool {
        self@.wf()
    }

    /// Tests whether the image is well formed. Images made by this
    /// library's constructors always are; the test is for callers that
    /// cannot see the proofs.
    pub fn is_well_formed(&self) -> (ok: bool)
        ensures
            ok == self.wf(),
    {
        let d = match descriptor_for(self.encoding.as_str()) {
            Ok(d) => d,
            Err(_) => {
                return false;
            },
        };
        if self.width > u32::MAX as usize || self.height > u32::MAX as usize {
            return false;
        }
        self.data.len() as u128 == packed_len(self.width as u32, self.height as u32, &d)
    }

    /// Constructs an image from a message. The encoding is validated
    /// against the catalog, the buffer length against the dimensions and the
    /// encoding, and 16-bit samples are brought into little-endian order
    /// according to the message's byte-order flag. The header passes through
    /// unchanged; the message's stride is not consulted.
    pub fn from_imgmsg(image: Image) -> (r: Result<CvImage, BridgeError>)
        ensures
            match r {
                Ok(img) => decoded(image@) == Some(img@) && img.wf(),
                Err(e) => decoded(image@) is None && (if !is_recognized(image@.encoding) {
                    e matches BridgeError::UnsupportedEncoding(s) && s@ == image@.encoding
                } else if image@.data.len() != buffer_len(
                    image@.width as nat,
                    image@.height as nat,
                    image@.encoding,
                ) {
                    e matches BridgeError::SizeMismatch(expected, actual) && expected
                        == buffer_len(image@.width as nat, image@.height as nat, image@.encoding)
                        && actual == image@.data.len()
                } else {
                    e == BridgeError::UnsupportedEndianness(image@.is_bigendian)
                }),
            },
    {
        let d = match descriptor_for(image.encoding.as_str()) {
            Ok(d) => d,
            Err(e) => {
                return Err(e);
            },
        };
        let expected: u128 = packed_len(image.width, image.height, &d);
        if image.data.len() as u128 != expected {
            return Err(BridgeError::SizeMismatch(expected, image.data.len()));
        }
        if d.bit_depth == 16 && image.is_bigendian > 1 {
            return Err(BridgeError::UnsupportedEndianness(image.is_bigendian));
        }
        proof {
            if d.bit_depth == 16 {
                lemma_sixteen_bit_buffer_even(
                    image.width as nat,
                    image.height as nat,
                    image.encoding@,
                );
            }
        }
        match to_native_order(image.data, d.bit_depth, image.is_bigendian == 1) {
            Ok(data) => Ok(
                CvImage {
                    header: image.header,
                    height: image.height as usize,
                    width: image.width as usize,
                    encoding: image.encoding,
                    data,
                },
            ),
            Err(e) => Err(e),
        }
    }

    /// Constructs an image around the packed buffer of a pixel matrix of
    /// `rows` by `cols` elements. A matrix does not say how its channels are
    /// to be read, so the caller states the encoding; it is validated against
    /// the catalog and the buffer length against the dimensions. The image
    /// gets an empty header.
    pub fn from_cvmat(rows: i32, cols: i32, data: Vec<u8>, encoding: &str) -> (r: Result<
        CvImage,
        BridgeError,
    >)
        ensures
            match r {
                Ok(img) => wrapped(rows, cols, data@, encoding@) == Some(img@) && img.wf(),
                Err(e) => wrapped(rows, cols, data@, encoding@) is None && wrap_refusal(
                    e,
                    rows,
                    cols,
                    data@,
                    encoding@,
                ),
            },
    {
        let d = match descriptor_for(encoding) {
            Ok(d) => d,
            Err(e) => {
                return Err(e);
            },
        };
        if rows < 0 || cols < 0 {
            return Err(BridgeError::InvalidDimensions);
        }
        let expected: u128 = packed_len(cols as u32, rows as u32, &d);
        if data.len() as u128 != expected {
            return Err(BridgeError::SizeMismatch(expected, data.len()));
        }
        Ok(
            CvImage {
                header: Header::empty(),
                height: rows as usize,
                width: cols as usize,
                encoding: encoding.to_owned(),
                data,
            },
        )
    }

    /// Converts the image into a message, consuming it. The stride is
    /// computed afresh as `width * channels * bytes_per_channel`, and 16-bit
    /// samples are emitted big-endian where `is_bigendian` is 1 and
    /// little-endian where it is 0; the flag is recorded in the message.
    /// Fails with `UnsupportedEndianness` where samples have 16 bits and the
    /// flag is neither 0 nor 1, so that no message leaves that could not be
    /// read back, and otherwise with `InvalidDimensions` where the stride
    /// does not fit the message's 32-bit field.
    pub fn into_imgmsg(self, is_bigendian: u8) -> (r: Result<Image, BridgeError>)
        requires
            self.wf(),
        ensures
            r is Ok <==> flag_fits(self@.encoding, is_bigendian) && row_bytes(
                self@.width,
                self@.encoding,
            ) <= u32::MAX,
            match r {
                Ok(m) => encoded(self@, is_bigendian) == Some(m@),
                Err(e) => encoded(self@, is_bigendian) is None && e == (if !flag_fits(
                    self@.encoding,
                    is_bigendian,
                ) {
                    BridgeError::UnsupportedEndianness(is_bigendian)
                } else {
                    BridgeError::InvalidDimensions
                }),
            },
    {
        let d = match descriptor_for(self.encoding.as_str()) {
            Ok(d) => d,
            Err(e) => {
                return Err(e);
            },
        };
        if d.bit_depth == 16 && is_bigendian > 1 {
            return Err(BridgeError::UnsupportedEndianness(is_bigendian));
        }
        let pixel: u64 = d.pixel_bytes() as u64;
        assert((self.width as int) * (pixel as int) <= 0xffff_ffff * 8) by (nonlinear_arith)
            requires
                0 <= self.width <= 0xffff_ffff,
                0 <= pixel <= 8,
        {}
        let step: u64 = (self.width as u64) * pixel;
        if step > u32::MAX as u64 {
            return Err(BridgeError::InvalidDimensions);
        }
        proof {
            if d.bit_depth == 16 {
                lemma_sixteen_bit_buffer_even(
                    self.width as nat,
                    self.height as nat,
                    self.encoding@,
                );
            }
        }
        match to_wire_order(self.data, d.bit_depth, is_bigendian == 1) {
            Ok(data) => Ok(
                Image {
                    header: self.header,
                    height: self.height as u32,
                    width: self.width as u32,
                    encoding: self.encoding,
                    is_bigendian,
                    step: step as u32,
                    data,
                },
            ),
            Err(e) => Err(e),
        }
    }

    /// Lends the image's buffer out as a pixel matrix, without copying. The
    /// element type follows from the encoding: unsigned 8-bit or 16-bit
    /// samples with the encoding's channel count. What is written through
    /// the view is written to the image. Fails where a dimension does not
    /// fit the matrix's signed 32-bit fields; the image is then unchanged.
    pub fn as_cvmat(&mut self) -> (r: Result<MatView<'_>, BridgeError>)
        requires
            old(self).wf(),
        ensures
            r is Ok <==> old(self)@.height <= i32::MAX && old(self)@.width <= i32::MAX,
            match r {
                Ok(v) => {
                    &&& v.wf()
                    &&& v.rows == old(self)@.height
                    &&& v.cols == old(self)@.width
                    &&& spec_mat_type(old(self)@.encoding) == Some(v.mat_type)
                    &&& v.data@ == old(self)@.data
                    &&& final(self)@ == (CvImageView { data: final(v.data)@, ..old(self)@ })
                },
                Err(e) => e == BridgeError::InvalidDimensions && final(self)@ == old(self)@,
            },
    {
        let d = match descriptor_for(self.encoding.as_str()) {
            Ok(d) => d,
            Err(e) => {
                return Err(e);
            },
        };
        if self.height > i32::MAX as usize || self.width > i32::MAX as usize {
            return Err(BridgeError::InvalidDimensions);
        }
        proof {
            let w = self.width as int;
            let h = self.height as int;
            let p = (d.channels * d.spec_bytes_per_channel()) as int;
            assert(w * h * p == h * w * p) by (nonlinear_arith);
        }
        Ok(
            MatView {
                rows: self.height as i32,
                cols: self.width as i32,
                mat_type: MatType { depth: d.element_kind, channels: d.channels },
                data: self.data.as_mut_slice(),
            },
        )
    }

    /// Prepares the conversion of the image to another encoding: the
    /// re-encoding to ask of the vision backend, the element types of the
    /// source and the destination matrix, and the factor by which sample
    /// values are rescaled where the bit depth changes.
    pub fn conversion_plan(&self, desired_encoding: &str) -> (r: Result<
        ConversionPlan,
        BridgeError,
    >)
        requires
            self.wf(),
        ensures
            r is Ok <==> planned(self@.encoding, desired_encoding@) is Some,
            r matches Ok(plan) ==> planned(self@.encoding, desired_encoding@) == Some(plan),
            r matches Ok(plan) ==> plan_agrees(plan, self@.encoding, desired_encoding@),
            r matches Err(e) ==> (if !is_recognized(desired_encoding@) {
                e matches BridgeError::UnsupportedEncoding(s) && s@ == desired_encoding@
            } else {
                e == BridgeError::UnsupportedConversion(
                    spec_color_space(self@.encoding),
                    spec_color_space(desired_encoding@),
                )
            }),
    {
        plan_conversion(self.encoding.as_str(), desired_encoding)
    }

    /// Finishes a conversion with what the vision backend returned: the
    /// dimensions and the packed buffer of the destination matrix, or the
    /// backend's report of its failure. A matrix is wrapped as an image of
    /// the desired encoding, as `from_cvmat` does; a failure is handed on as
    /// `ConversionBackendError`.
    pub fn complete_conversion(
        outcome: Result<(i32, i32, Vec<u8>), String>,
        desired_encoding: &str,
    ) -> (r: Result<CvImage, BridgeError>)
        ensures
            match outcome {
                Ok((rows, cols, data)) => match r {
                    Ok(img) => wrapped(rows, cols, data@, desired_encoding@) == Some(img@)
                        && img.wf(),
                    Err(e) => wrapped(rows, cols, data@, desired_encoding@) is None
                        && wrap_refusal(e, rows, cols, data@, desired_encoding@),
                },
                Err(cause) => r matches Err(BridgeError::ConversionBackendError(s)) && s@
                    == cause@,
            },
    {
        match outcome {
            Ok((rows, cols, data)) => CvImage::from_cvmat(rows, cols, data, desired_encoding),
            Err(cause) => Err(BridgeError::ConversionBackendError(cause)),
        }
    }

    /// The pixel bytes.
    pub fn as_container(&self) -> (data: &[u8])
        ensures
            data@ == self@.data,
    {
        self.data.as_slice()
    }

    /// The pixel bytes, for writing in place. The length of the buffer
    /// cannot change, so a well-formed image stays well formed.
    pub fn as_mut_container(&mut self) -> (data: &mut [u8])
        ensures
            data@ == old(self)@.data,
            final(self)@ == (CvImageView { data: final(data)@, ..old(self)@ }),
    {
        self.data.as_mut_slice()
    }

    /// The header that came with the message.
    pub fn header(&self) -> (h: &Header)
        ensures
            h@ == self@.header,
    {
        &self.header
    }

    /// The header, for writing in place.
    pub fn header_mut(&mut self) -> (h: &mut Header)
        ensures
            h@ == old(self)@.header,
            final(self)@ == (CvImageView { header: final(h)@, ..old(self)@ }),
    {
        &mut self.header
    }

    /// The encoding identifier.
    pub fn encoding(&self) -> (e: &String)
        ensures
            e@ == self@.encoding,
    {
        &self.encoding
    }

    /// The width in pixels.
    pub fn width(&self) -> (w: usize)
        ensures
            w == self@.width,
    {
        self.width
    }

    /// The height in pixels.
    pub fn height(&self) -> (h: usize)
        ensures
            h == self@.height,
    {
        self.height
    }
}

} // verus!
