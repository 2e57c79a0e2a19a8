use cv_bridge::error::BridgeError;
use cv_bridge::utils::image_byteorder_ops::{
    from_be_to_le, from_le_to_be, from_u16_to_u8, from_u8_to_u16, to_native_order, to_wire_order,
};
use cv_bridge::utils::text::str_eq;

#[test]
fn two_bytes_declared_big_endian() {
    assert_eq!(from_u8_to_u16(&[0x01, 0x02], true), Ok(vec![0x0102]));
}

#[test]
fn two_bytes_declared_little_endian() {
    assert_eq!(from_u8_to_u16(&[0x01, 0x02], false), Ok(vec![0x0201]));
}

#[test]
fn bytes_to_samples() {
    assert_eq!(from_u8_to_u16(&[], true), Ok(Vec::<u16>::new()));
    assert_eq!(from_u8_to_u16(&[0xff, 0xff, 0x80, 0x00, 0x00, 0xff], true), Ok(vec![65535, 32768, 255]));
    assert_eq!(from_u8_to_u16(&[0xff, 0xff, 0x00, 0x80, 0xff, 0x00], false), Ok(vec![65535, 32768, 255]));
}

#[test]
fn bytes_to_samples_refuses_half_a_sample() {
    assert_eq!(from_u8_to_u16(&[0x12], true), Err(BridgeError::TruncatedBuffer));
    assert_eq!(from_u8_to_u16(&[0x12, 0x34, 0x56], true), Err(BridgeError::TruncatedBuffer));
    assert_eq!(from_u8_to_u16(&[0x12, 0x34, 0x56], false), Err(BridgeError::TruncatedBuffer));
}

#[test]
fn samples_to_bytes() {
    assert_eq!(from_u16_to_u8(&[], false), Vec::<u8>::new());
    assert_eq!(from_u16_to_u8(&[65535, 32768, 255], true), vec![0xff, 0xff, 0x80, 0x00, 0x00, 0xff]);
    assert_eq!(from_u16_to_u8(&[65535, 32768, 255], false), vec![0xff, 0xff, 0x00, 0x80, 0xff, 0x00]);
    assert_eq!(from_u16_to_u8(&[0x0102], true), vec![0x01, 0x02]);
    assert_eq!(from_u16_to_u8(&[0x0102], false), vec![0x02, 0x01]);
}

#[test]
fn samples_survive_the_bytes() {
    let samples: Vec<u16> = vec![0, 1, 255, 256, 257, 0x1234, 0xfffe, 0xffff];
    for be in [true, false] {
        assert_eq!(from_u8_to_u16(&from_u16_to_u8(&samples, be), be), Ok(samples.clone()));
    }
    let bytes: Vec<u8> = (0..=255).collect();
    for be in [true, false] {
        assert_eq!(from_u16_to_u8(&from_u8_to_u16(&bytes, be).unwrap(), be), bytes);
    }
}

#[test]
fn big_to_little() {
    let arr: Vec<u8> = (1..=32).collect();
    let mut expect = Vec::new();
    for pair in arr.chunks(2) {
        expect.push(pair[1]);
        expect.push(pair[0]);
    }
    assert_eq!(from_be_to_le(&arr), Ok(expect));
    assert_eq!(from_be_to_le(&[0x00, 0x0a]), Ok(vec![0x0a, 0x00]));
    assert_eq!(from_be_to_le(&[]), Ok(Vec::<u8>::new()));
}

#[test]
fn little_to_big() {
    assert_eq!(from_le_to_be(&[0x0a, 0x00, 0x34, 0x12]), Ok(vec![0x00, 0x0a, 0x12, 0x34]));
    assert_eq!(from_le_to_be(&[]), Ok(Vec::<u8>::new()));
}

#[test]
fn swaps_refuse_a_buffer_of_odd_length() {
    assert_eq!(from_be_to_le(&[1, 2, 3]), Err(BridgeError::TruncatedBuffer));
    assert_eq!(from_le_to_be(&[1, 2, 3]), Err(BridgeError::TruncatedBuffer));
    assert_eq!(from_be_to_le(&[9]), Err(BridgeError::TruncatedBuffer));
    assert_eq!(from_le_to_be(&[9]), Err(BridgeError::TruncatedBuffer));
}

#[test]
fn swap_keeps_the_sample_values() {
    let bytes: Vec<u8> = vec![0x12, 0x34, 0xab, 0xcd, 0x00, 0xff];
    assert_eq!(from_u8_to_u16(&from_be_to_le(&bytes).unwrap(), false), from_u8_to_u16(&bytes, true));
    assert_eq!(from_u8_to_u16(&from_le_to_be(&bytes).unwrap(), true), from_u8_to_u16(&bytes, false));
    assert_eq!(from_le_to_be(&from_be_to_le(&bytes).unwrap()), Ok(bytes.clone()));
    assert_eq!(from_u8_to_u16(&bytes, true), Ok(vec![0x1234, 0xabcd, 0x00ff]));
}

#[test]
fn eight_bit_buffers_are_left_alone() {
    for b in [vec![], vec![7u8], vec![1, 2, 3], vec![0x01, 0x02, 0x03, 0x04]] {
        assert_eq!(to_native_order(b.clone(), 8, true), Ok(b.clone()));
        assert_eq!(to_native_order(b.clone(), 8, false), Ok(b.clone()));
        assert_eq!(to_wire_order(b.clone(), 8, true), Ok(b.clone()));
        assert_eq!(to_wire_order(b.clone(), 8, false), Ok(b.clone()));
    }
}

#[test]
fn sixteen_bit_buffers_are_reordered() {
    assert_eq!(to_native_order(vec![0x01, 0x02, 0x03, 0x04], 16, true), Ok(vec![0x02, 0x01, 0x04, 0x03]));
    assert_eq!(to_native_order(vec![0x01, 0x02, 0x03, 0x04], 16, false), Ok(vec![0x01, 0x02, 0x03, 0x04]));
    assert_eq!(to_wire_order(vec![0x02, 0x01, 0x04, 0x03], 16, true), Ok(vec![0x01, 0x02, 0x03, 0x04]));
    assert_eq!(to_wire_order(vec![0x02, 0x01], 16, false), Ok(vec![0x02, 0x01]));
    assert_eq!(to_native_order(vec![], 16, true), Ok(vec![]));
}

#[test]
fn native_and_wire_order_round_trip() {
    let b: Vec<u8> = vec![0, 1, 2, 3, 250, 251, 252, 253];
    for depth in [8u8, 16u8] {
        for be in [true, false] {
            let native = to_native_order(b.clone(), depth, be).unwrap();
            assert_eq!(to_wire_order(native, depth, be), Ok(b.clone()));
        }
    }
}

#[test]
fn odd_sixteen_bit_buffer_is_truncated() {
    assert_eq!(to_native_order(vec![1, 2, 3], 16, true), Err(BridgeError::TruncatedBuffer));
    assert_eq!(to_native_order(vec![1], 16, false), Err(BridgeError::TruncatedBuffer));
    assert_eq!(to_wire_order(vec![1, 2, 3], 16, false), Err(BridgeError::TruncatedBuffer));
}

#[test]
fn other_bit_depths_are_refused() {
    assert_eq!(to_native_order(vec![1, 2], 0, true), Err(BridgeError::UnsupportedBitDepth(0)));
    assert_eq!(to_native_order(vec![1, 2], 32, false), Err(BridgeError::UnsupportedBitDepth(32)));
    assert_eq!(to_wire_order(vec![1, 2, 3], 24, true), Err(BridgeError::UnsupportedBitDepth(24)));
}

#[test]
fn string_comparison() {
    assert!(str_eq("", ""));
    assert!(str_eq("rgb8", "rgb8"));
    assert!(!str_eq("rgb8", "RGB8"));
    assert!(!str_eq("rgb8", "rgb"));
    assert!(!str_eq("rgb", "rgb8"));
    assert!(!str_eq("bgr8", "rgb8"));
    assert!(str_eq("caf\u{e9}", "caf\u{e9}"));
    assert!(!str_eq("caf\u{e9}", "cafe"));
}
