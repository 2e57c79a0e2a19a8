//! Conversions between byte buffers and 16-bit samples, and between the
//! big-endian and the little-endian layout of a buffer of 16-bit samples.
//!
//! The processing side works on little-endian buffers; the wire side states
//! its byte order with each message.

use vstd::prelude::*;
use vstd::slice::slice_subrange;
use byteorder::{BigEndian, ByteOrder, LittleEndian};
use crate::error::BridgeError;

verus! {

/// The 16-bit value of two bytes, the more significant one first.
pub open spec fn be_value(first: u8, second: u8) -> int {
    first as int * 256 + second as int
}

/// The 16-bit value of two bytes, the less significant one first.
pub open spec fn le_value(first: u8, second: u8) -> int {
    second as int * 256 + first as int
}

/// The 16-bit value of two bytes in the given order.
pub open spec fn pair_value(first: u8, second: u8, big_endian: bool) -> int {
    if big_endian {
        be_value(first, second)
    } else {
        le_value(first, second)
    }
}

/// The samples that a byte buffer of even length holds: one per pair of
/// bytes.
pub open spec fn decode_u16s(bytes: Seq<u8>, big_endian: bool) -> Seq<u16>
    recommends
        bytes.len() % 2 == 0,
{
    Seq::new(
        (bytes.len() / 2) as nat,
        |k: int| pair_value(bytes[2 * k], bytes[2 * k + 1], big_endian) as u16,
    )
}

/// The byte at position `i` of the buffer that holds the samples.
pub open spec fn encoded_byte(samples: Seq<u16>, big_endian: bool, i: int) -> u8 {
    let v = samples[i / 2];
    if (i % 2 == 0) == big_endian {
        (v / 256) as u8
    } else {
        (v % 256) as u8
    }
}

/// The byte buffer that holds the samples: two bytes each, in the given
/// order.
pub open spec fn encode_u16s(samples: Seq<u16>, big_endian: bool) -> Seq<u8> {
    Seq::new(2 * samples.len(), |i: int| encoded_byte(samples, big_endian, i))
}

/// A buffer of even length with the two bytes of every pair exchanged.
pub open spec fn swap_pairs(bytes: Seq<u8>) -> Seq<u8>
    recommends
        bytes.len() % 2 == 0,
{
    Seq::new(
        bytes.len(),
        |i: int|
            if i % 2 == 0 {
                bytes[i + 1]
            } else {
                bytes[i - 1]
            },
    )
}

/// `byteorder::BigEndian::read_u16`: the value of the first two bytes of the
/// buffer, the more significant one first. It panics on a shorter buffer,
/// which the precondition excludes.
#[verifier::external_body]
fn read_u16_be(buf: &[u8]) -> (v: u16)
    requires
        buf@.len() >= 2,
    ensures
        v as int == be_value(buf@[0], buf@[1]),
{
    BigEndian::read_u16(buf)
}

/// `byteorder::LittleEndian::read_u16`: the value of the first two bytes of
/// the buffer, the less significant one first. It panics on a shorter
/// buffer, which the precondition excludes.
#[verifier::external_body]
fn read_u16_le(buf: &[u8]) -> (v: u16)
    requires
        buf@.len() >= 2,
    ensures
        v as int == le_value(buf@[0], buf@[1]),
{
    LittleEndian::read_u16(buf)
}

/// `byteorder::BigEndian::write_u16` into a two-byte buffer: the more
/// significant byte of the value comes first.
#[verifier::external_body]
fn write_u16_be(n: u16) -> (buf: [u8; 2])
    ensures
        buf@[0] as int == n as int / 256,
        buf@[1] as int == n as int % 256,
{
    let mut buf = [0u8; 2];
    BigEndian::write_u16(&mut buf, n);
    buf
}

/// `byteorder::LittleEndian::write_u16` into a two-byte buffer: the less
/// significant byte of the value comes first.
#[verifier::external_body]
fn write_u16_le(n: u16) -> (buf: [u8; 2])
    ensures
        buf@[0] as int == n as int % 256,
        buf@[1] as int == n as int / 256,
{
    let mut buf = [0u8; 2];
    LittleEndian::write_u16(&mut buf, n);
    buf
}

/// Builds 16-bit samples from a byte buffer, two bytes per sample in the
/// given byte order. Fails with `TruncatedBuffer` on a buffer of odd length:
/// its last byte is half a sample.
pub fn from_u8_to_u16(data: &[u8], big_endian: bool) -> (r: Result<Vec<u16>, BridgeError>)
    ensures
        data@.len() % 2 == 0 ==> (r matches Ok(samples) && samples@ == decode_u16s(
            data@,
            big_endian,
        )),
        data@.len() % 2 == 1 ==> (r matches Err(e) && e == BridgeError::TruncatedBuffer),
{
    if data.len() % 2 != 0 {
        return Err(BridgeError::TruncatedBuffer);
    }
    let n: usize = data.len() / 2;
    let mut samples: Vec<u16> = Vec::with_capacity(n);
    let mut k: usize = 0;
    while k < n
        invariant
            k <= n,
            n == data@.len() / 2,
            data@.len() <= usize::MAX,
            samples@.len() == k,
            forall|j: int|
                0 <= j < k ==> samples@[j] == pair_value(
                    data@[2 * j],
                    data@[2 * j + 1],
                    big_endian,
                ) as u16,
        decreases n - k,
    {
        let pair = slice_subrange(data, 2 * k, 2 * k + 2);
        let v = if big_endian {
            read_u16_be(pair)
        } else {
            read_u16_le(pair)
        };
        samples.push(v);
        k = k + 1;
    }
    assert(samples@ =~= decode_u16s(data@, big_endian));
    Ok(samples)
}

/// Lays 16-bit samples out as bytes, two per sample in the given byte order.
pub fn from_u16_to_u8(data: &[u16], big_endian: bool) -> (bytes: Vec<u8>)
    ensures
        bytes@ == encode_u16s(data@, big_endian),
{
    let n: usize = data.len();
    let mut bytes: Vec<u8> = Vec::with_capacity(n);
    let mut k: usize = 0;
    while k < n
        invariant
            k <= n,
            n == data@.len(),
            bytes@.len() == 2 * k,
            forall|i: int| 0 <= i < 2 * k ==> bytes@[i] == encoded_byte(data@, big_endian, i),
        decreases n - k,
    {
        let pair = if big_endian {
            write_u16_be(data[k])
        } else {
            write_u16_le(data[k])
        };
        bytes.push(pair[0]);
        bytes.push(pair[1]);
        k = k + 1;
    }
    assert(bytes@ =~= encode_u16s(data@, big_endian));
    bytes
}

/// Turns a buffer of big-endian 16-bit samples into the little-endian
/// buffer of the same samples. Fails with `TruncatedBuffer` on a buffer of
/// odd length.
pub fn from_be_to_le(be: &[u8]) -> (r: Result<Vec<u8>, BridgeError>)
    ensures
        be@.len() % 2 == 0 ==> (r matches Ok(le) && le@ == swap_pairs(be@) && decode_u16s(
            le@,
            false,
        ) == decode_u16s(be@, true)),
        be@.len() % 2 == 1 ==> (r matches Err(e) && e == BridgeError::TruncatedBuffer),
{
    if be.len() % 2 != 0 {
        return Err(BridgeError::TruncatedBuffer);
    }
    let n: usize = be.len() / 2;
    let mut le: Vec<u8> = Vec::with_capacity(be.len());
    let mut k: usize = 0;
    while k < n
        invariant
            k <= n,
            n == be@.len() / 2,
            be@.len() % 2 == 0,
            be@.len() <= usize::MAX,
            le@.len() == 2 * k,
            forall|i: int| 0 <= i < 2 * k ==> le@[i] == swap_pairs(be@)[i],
        decreases n - k,
    {
        let value = read_u16_be(slice_subrange(be, 2 * k, 2 * k + 2));
        let pair = write_u16_le(value);
        le.push(pair[0]);
        le.push(pair[1]);
        k = k + 1;
    }
    proof {
        assert(le@ =~= swap_pairs(be@));
        lemma_swap_keeps_values(be@, true);
    }
    Ok(le)
}

/// Turns a buffer of little-endian 16-bit samples into the big-endian
/// buffer of the same samples. Fails with `TruncatedBuffer` on a buffer of
/// odd length.
pub fn from_le_to_be(le: &[u8]) -> (r: Result<Vec<u8>, BridgeError>)
    ensures
        le@.len() % 2 == 0 ==> (r matches Ok(be) && be@ == swap_pairs(le@) && decode_u16s(
            be@,
            true,
        ) == decode_u16s(le@, false)),
        le@.len() % 2 == 1 ==> (r matches Err(e) && e == BridgeError::TruncatedBuffer),
{
    if le.len() % 2 != 0 {
        return Err(BridgeError::TruncatedBuffer);
    }
    let n: usize = le.len() / 2;
    let mut be: Vec<u8> = Vec::with_capacity(le.len());
    let mut k: usize = 0;
    while k < n
        invariant
            k <= n,
            n == le@.len() / 2,
            le@.len() % 2 == 0,
            le@.len() <= usize::MAX,
            be@.len() == 2 * k,
            forall|i: int| 0 <= i < 2 * k ==> be@[i] == swap_pairs(le@)[i],
        decreases n - k,
    {
        let value = read_u16_le(slice_subrange(le, 2 * k, 2 * k + 2));
        let pair = write_u16_be(value);
        be.push(pair[0]);
        be.push(pair[1]);
        k = k + 1;
    }
    proof {
        assert(be@ =~= swap_pairs(le@));
        lemma_swap_keeps_values(le@, false);
    }
    Ok(be)
}

/// A buffer in the order the processing side uses, given the order it was
/// declared in: unchanged for 8-bit samples, for which byte order means
/// nothing, and for 16-bit samples declared little-endian; with every pair
/// exchanged for 16-bit samples declared big-endian. `None` where the bit
/// depth is neither 8 nor 16, or where a 16-bit buffer has odd length.
pub open spec fn native_order(bytes: Seq<u8>, bit_depth: u8, declared_bigendian: bool) -> Option<
    Seq<u8>,
> {
    if bit_depth == 8 {
        Some(bytes)
    } else if bit_depth == 16 && bytes.len() % 2 == 0 {
        Some(
            if declared_bigendian {
                swap_pairs(bytes)
            } else {
                bytes
            },
        )
    } else {
        None
    }
}

/// A buffer of the processing side in the order asked for on the wire: the
/// inverse of `native_order`.
pub open spec fn wire_order(bytes: Seq<u8>, bit_depth: u8, want_bigendian: bool) -> Option<
    Seq<u8>,
> {
    if bit_depth == 8 {
        Some(bytes)
    } else if bit_depth == 16 && bytes.len() % 2 == 0 {
        Some(
            if want_bigendian {
                swap_pairs(bytes)
            } else {
                bytes
            },
        )
    } else {
        None
    }
}

/// The error that a reordering reports for a bit depth and a buffer length.
pub open spec fn reorder_error(bit_depth: u8) -> BridgeError {
    if bit_depth == 16 {
        BridgeError::TruncatedBuffer
    } else {
        BridgeError::UnsupportedBitDepth(bit_depth)
    }
}

/// Brings a buffer from its declared byte order into the little-endian
/// order of the processing side. An 8-bit buffer comes back unchanged; a
/// 16-bit buffer has every sample re-emitted in little-endian order. Fails
/// with `TruncatedBuffer` on a 16-bit buffer of odd length and with
/// `UnsupportedBitDepth` on a depth other than 8 and 16.
pub fn to_native_order(bytes: Vec<u8>, bit_depth: u8, declared_bigendian: bool) -> (r: Result<
    Vec<u8>,
    BridgeError,
>)
    ensures
        match r {
            Ok(out) => native_order(bytes@, bit_depth, declared_bigendian) == Some(out@),
            Err(e) => native_order(bytes@, bit_depth, declared_bigendian) is None && e
                == reorder_error(bit_depth),
        },
{
    if bit_depth == 8 {
        Ok(bytes)
    } else if bit_depth == 16 {
        if declared_bigendian {
            from_be_to_le(bytes.as_slice())
        } else if bytes.len() % 2 != 0 {
            Err(BridgeError::TruncatedBuffer)
        } else {
            Ok(bytes)
        }
    } else {
        Err(BridgeError::UnsupportedBitDepth(bit_depth))
    }
}

/// Brings a little-endian buffer of the processing side into the byte order
/// asked for on the wire. An 8-bit buffer comes back unchanged; a 16-bit
/// buffer has every sample re-emitted in the order asked for. Fails with
/// `TruncatedBuffer` on a 16-bit buffer of odd length and with
/// `UnsupportedBitDepth` on a depth other than 8 and 16.
pub fn to_wire_order(bytes: Vec<u8>, bit_depth: u8, want_bigendian: bool) -> (r: Result<
    Vec<u8>,
    BridgeError,
>)
    ensures
        match r {
            Ok(out) => wire_order(bytes@, bit_depth, want_bigendian) == Some(out@),
            Err(e) => wire_order(bytes@, bit_depth, want_bigendian) is None && e == reorder_error(
                bit_depth,
            ),
        },
{
    if bit_depth == 8 {
        Ok(bytes)
    } else if bit_depth == 16 {
        if want_bigendian {
            from_le_to_be(bytes.as_slice())
        } else if bytes.len() % 2 != 0 {
            Err(BridgeError::TruncatedBuffer)
        } else {
            Ok(bytes)
        }
    } else {
        Err(BridgeError::UnsupportedBitDepth(bit_depth))
    }
}

/// Byte order means nothing for 8-bit samples: whatever order is declared,
/// the buffer is its own native form.
pub proof fn lemma_native_order_eight_bit(bytes: Seq<u8>)
    ensures
        native_order(bytes, 8, true) == Some(bytes),
        native_order(bytes, 8, false) == Some(bytes),
{
}

/// Bringing a buffer into native order and back into the order it was
/// declared in gives the buffer again, for every buffer whose length is a
/// multiple of the sample size.
pub proof fn lemma_order_round_trip(bytes: Seq<u8>, bit_depth: u8, bigendian: bool)
    requires
        bit_depth == 8 || (bit_depth == 16 && bytes.len() % 2 == 0),
    ensures
        native_order(bytes, bit_depth, bigendian) matches Some(native) && wire_order(
            native,
            bit_depth,
            bigendian,
        ) == Some(bytes),
{
    if bit_depth == 16 {
        lemma_swap_twice(bytes);
    }
}

/// The native form of a 16-bit buffer holds, read as little-endian, the
/// samples that the buffer holds in its declared order.
pub proof fn lemma_native_order_keeps_values(bytes: Seq<u8>, declared_bigendian: bool)
    requires
        bytes.len() % 2 == 0,
    ensures
        native_order(bytes, 16, declared_bigendian) matches Some(native) && decode_u16s(
            native,
            false,
        ) == decode_u16s(bytes, declared_bigendian),
{
    lemma_swap_keeps_values(bytes, true);
}

/// Exchanging the bytes of every pair turns a buffer in one byte order into
/// the buffer of the same samples in the other byte order.
pub proof fn lemma_swap_keeps_values(bytes: Seq<u8>, big_endian: bool)
    requires
        bytes.len() % 2 == 0,
    ensures
        decode_u16s(swap_pairs(bytes), !big_endian) == decode_u16s(bytes, big_endian),
{
    assert(decode_u16s(swap_pairs(bytes), !big_endian) =~= decode_u16s(bytes, big_endian));
}

/// Exchanging the bytes of every pair twice gives back a buffer of even
/// length.
pub proof fn lemma_swap_twice(bytes: Seq<u8>)
    requires
        bytes.len() % 2 == 0,
    ensures
        swap_pairs(swap_pairs(bytes)) == bytes,
{
    assert(swap_pairs(swap_pairs(bytes)) =~= bytes);
}

/// Laying samples out as bytes and reading them back in the same byte order
/// gives the samples again.
pub proof fn lemma_decode_encode(samples: Seq<u16>, big_endian: bool)
    ensures
        decode_u16s(encode_u16s(samples, big_endian), big_endian) == samples,
{
    assert(decode_u16s(encode_u16s(samples, big_endian), big_endian) =~= samples);
}

/// Reading a buffer of even length as samples and laying them out again in
/// the same byte order gives the buffer again.
pub proof fn lemma_encode_decode(bytes: Seq<u8>, big_endian: bool)
    requires
        bytes.len() % 2 == 0,
    ensures
        encode_u16s(decode_u16s(bytes, big_endian), big_endian) == bytes,
{
    assert(encode_u16s(decode_u16s(bytes, big_endian), big_endian) =~= bytes);
}

} // verus!
