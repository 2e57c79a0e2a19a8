//! The serialized form of an image: the message that travels on the wire,
//! with its header.

use vstd::prelude::*;

verus! {

/// A point in time: whole seconds and the nanoseconds inside the second.
#[derive(Debug, Clone, Copy, PartialEq, Eq, Structural)]
pub struct Time {
    pub sec: u32,
    pub nsec: u32,
}

/// Metadata that accompanies a message: a sequence number, a timestamp and
/// the name of the coordinate frame. The conversions pass it through
/// untouched.
#[derive(Debug, Clone, PartialEq, Eq)]
pub struct Header {
    pub seq: u32,
    pub stamp: Time,
    pub frame_id: String,
}

/// What a header holds, as plain values.
pub struct HeaderView {
    pub seq: u32,
    pub stamp: Time,
    pub frame_id: Seq<char>,
}

impl View for Header {
    type V = HeaderView;

    open spec fn view(&self) -> HeaderView {
        HeaderView { seq: self.seq, stamp: self.stamp, frame_id: self.frame_id@ }
    }
}

impl Header {
    /// The header of an image that did not come from a message.
    pub open spec fn spec_empty() -> HeaderView {
        HeaderView { seq: 0, stamp: Time { sec: 0, nsec: 0 }, frame_id: Seq::empty() }
    }

    /// A header with sequence number 0, time 0 and an empty frame name.
    pub fn empty() -> (h: Header)
        ensures
            h@ == Header::spec_empty(),
    {
        Header { seq: 0, stamp: Time { sec: 0, nsec: 0 }, frame_id: String::new() }
    }
}

/// An image as it is sent: dimensions, the encoding identifier, the byte
/// order of multi-byte samples (0 little-endian, 1 big-endian), the row
/// stride in bytes and the pixel bytes, row by row without padding.
#[derive(Debug, Clone, PartialEq, Eq)]
pub struct Image {
    pub header: Header,
    pub height: u32,
    pub width: u32,
    pub encoding: String,
    pub is_bigendian: u8,
    pub step: u32,
    pub data: Vec<u8>,
}

/// What a message holds, as plain values.
pub struct ImageView {
    pub header: HeaderView,
    pub height: u32,
    pub width: u32,
    pub encoding: Seq<char>,
    pub is_bigendian: u8,
    pub step: u32,
    pub data: Seq<u8>,
}

impl View for Image {
    type V = ImageView;

    open spec fn view(&self) -> ImageView {
        ImageView {
            header: self.header@,
            height: self.height,
            width: self.width,
            encoding: self.encoding@,
            is_bigendian: self.is_bigendian,
            step: self.step,
            data: self.data@,
        }
    }
}

} // verus!
