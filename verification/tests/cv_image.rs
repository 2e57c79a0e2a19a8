use cv_bridge::cv_image::CvImage;
use cv_bridge::error::BridgeError;
use cv_bridge::msgs::{Header, Image, Time};
use cv_bridge::utils::image_byteorder_ops::from_u8_to_u16;
use cv_bridge::utils::image_encodings::{
    descriptor_for, ConversionOp, ElementKind, Encoding, MatType, ScalingFactor,
};

fn header() -> Header {
    Header { seq: 7, stamp: Time { sec: 1_700_000_000, nsec: 42 }, frame_id: "camera".to_string() }
}

fn message(width: u32, height: u32, encoding: &str, is_bigendian: u8, step: u32, data: Vec<u8>) -> Image {
    Image { header: header(), height, width, encoding: encoding.to_string(), is_bigendian, step, data }
}

const IDS: [&str; 20] = [
    "mono8", "mono16", "rgb8", "rgb16", "rgba8", "rgba16", "bgr8", "bgr16", "bgra8", "bgra16",
    "bayer_rggb8", "bayer_rggb16", "bayer_bggr8", "bayer_bggr16", "bayer_gbrg8", "bayer_gbrg16",
    "bayer_grbg8", "bayer_grbg16", "yuv422", "yuv422_yuy2",
];

#[test]
fn mono8_message_becomes_a_matrix() {
    let msg = message(2, 2, "mono8", 0, 2, vec![10, 20, 30, 40]);
    let mut img = CvImage::from_imgmsg(msg).unwrap();
    let view = img.as_cvmat().unwrap();
    assert_eq!(view.rows, 2);
    assert_eq!(view.cols, 2);
    assert_eq!(view.mat_type, MatType { depth: ElementKind::UInt8, channels: 1 });
    assert_eq!(view.data.len(), 4);
    assert_eq!(view.data.to_vec(), vec![10, 20, 30, 40]);
}

#[test]
fn rgb8_to_mono8_goes_through_the_gray_backend() {
    let msg = message(1, 1, "rgb8", 0, 3, vec![255, 0, 0]);
    let img = CvImage::from_imgmsg(msg).unwrap();
    let plan = img.conversion_plan("mono8").unwrap();
    assert_eq!(plan.op, ConversionOp::Rgb2Gray);
    assert_eq!(plan.src_type, MatType { depth: ElementKind::UInt8, channels: 3 });
    assert_eq!(plan.dst_type, MatType { depth: ElementKind::UInt8, channels: 1 });
    assert_eq!(plan.scaling, ScalingFactor { numerator: 1, denominator: 1 });
    // The backend's luma weighting of (255, 0, 0) is 0.299 * 255, rounded.
    let luma = (0.299f64 * 255.0).round() as u8;
    assert_eq!(luma, 76);
    let gray = CvImage::complete_conversion(Ok((1, 1, vec![luma])), "mono8").unwrap();
    assert_eq!(gray.encoding(), "mono8");
    assert_eq!(gray.width(), 1);
    assert_eq!(gray.height(), 1);
    assert_eq!(gray.as_container().to_vec(), vec![76]);
}

#[test]
fn big_endian_mono16_round_trips() {
    let msg = message(1, 1, "mono16", 1, 2, vec![0x00, 0x0a]);
    let img = CvImage::from_imgmsg(msg.clone()).unwrap();
    assert_eq!(img.as_container().to_vec(), vec![0x0a, 0x00]);
    assert_eq!(from_u8_to_u16(img.as_container(), false), Ok(vec![10]));
    let back = img.into_imgmsg(1).unwrap();
    assert_eq!(back.data, vec![0x00, 0x0a]);
    assert_eq!(back, msg);
}

#[test]
fn yuv422_to_mono16_is_unsupported() {
    let msg = message(2, 1, "yuv422", 0, 4, vec![128, 16, 128, 235]);
    let img = CvImage::from_imgmsg(msg).unwrap();
    assert_eq!(
        img.conversion_plan("mono16"),
        Err(BridgeError::UnsupportedConversion(Encoding::Yuv422, Encoding::Gray))
    );
    assert!(img.conversion_plan("mono8").is_ok());
}

#[test]
fn every_encoding_round_trips_in_both_byte_orders() {
    for id in IDS {
        let d = descriptor_for(id).unwrap();
        let (width, height) = (4u32, 3u32);
        let step = width * d.pixel_bytes() as u32;
        let len = (step * height) as usize;
        let data: Vec<u8> = (0..len).map(|i| (i * 7 + 3) as u8).collect();
        for flag in [0u8, 1u8] {
            let msg = message(width, height, id, flag, step, data.clone());
            let img = CvImage::from_imgmsg(msg.clone()).unwrap();
            assert_eq!(img.width(), 4);
            assert_eq!(img.height(), 3);
            assert_eq!(img.encoding(), id);
            assert_eq!(img.header(), &header());
            assert_eq!(img.into_imgmsg(flag), Ok(msg));
        }
    }
}

#[test]
fn empty_images_round_trip() {
    for (w, h) in [(0u32, 0u32), (0, 5), (5, 0)] {
        let msg = message(w, h, "rgb16", 1, w * 6, vec![]);
        let img = CvImage::from_imgmsg(msg.clone()).unwrap();
        assert_eq!(img.into_imgmsg(1), Ok(msg));
    }
}

#[test]
fn decoding_normalizes_sixteen_bit_samples() {
    let be = message(2, 1, "mono16", 1, 4, vec![0x12, 0x34, 0xab, 0xcd]);
    let le = message(2, 1, "mono16", 0, 4, vec![0x34, 0x12, 0xcd, 0xab]);
    let a = CvImage::from_imgmsg(be).unwrap();
    let b = CvImage::from_imgmsg(le).unwrap();
    assert_eq!(a.as_container(), b.as_container());
    assert_eq!(from_u8_to_u16(a.as_container(), false), Ok(vec![0x1234, 0xabcd]));
}

#[test]
fn encoding_restores_the_wire_order() {
    let le = message(2, 1, "mono16", 0, 4, vec![0x34, 0x12, 0xcd, 0xab]);
    let out = CvImage::from_imgmsg(le).unwrap().into_imgmsg(1).unwrap();
    assert_eq!(out.is_bigendian, 1);
    assert_eq!(out.data, vec![0x12, 0x34, 0xab, 0xcd]);
}

#[test]
fn eight_bit_images_ignore_the_byte_order_flag() {
    let msg = message(2, 1, "rgb8", 1, 6, vec![1, 2, 3, 4, 5, 6]);
    let img = CvImage::from_imgmsg(msg.clone()).unwrap();
    assert_eq!(img.as_container().to_vec(), vec![1, 2, 3, 4, 5, 6]);
    assert_eq!(img.into_imgmsg(1), Ok(msg));
    let odd = message(2, 1, "rgb8", 9, 6, vec![1, 2, 3, 4, 5, 6]);
    assert!(CvImage::from_imgmsg(odd).is_ok());
}

#[test]
fn stride_is_computed_afresh() {
    let msg = message(3, 2, "bgra16", 0, 0, vec![0; 48]);
    let out = CvImage::from_imgmsg(msg).unwrap().into_imgmsg(0).unwrap();
    assert_eq!(out.step, 24);
    let msg = message(5, 1, "yuv422", 0, 999, vec![0; 10]);
    let out = CvImage::from_imgmsg(msg).unwrap().into_imgmsg(0).unwrap();
    assert_eq!(out.step, 10);
    assert_eq!(out.width, 5);
    assert_eq!(out.height, 1);
}

#[test]
fn unknown_encoding_is_refused() {
    for id in ["", "RGB8", "jpeg"] {
        let msg = message(1, 1, id, 0, 3, vec![1, 2, 3]);
        assert_eq!(
            CvImage::from_imgmsg(msg).err(),
            Some(BridgeError::UnsupportedEncoding(id.to_string()))
        );
    }
}

#[test]
fn wrong_buffer_length_is_refused() {
    let msg = message(2, 2, "rgb8", 0, 6, vec![0; 11]);
    assert_eq!(CvImage::from_imgmsg(msg).err(), Some(BridgeError::SizeMismatch(12, 11)));
    let msg = message(2, 2, "mono16", 0, 4, vec![0; 9]);
    assert_eq!(CvImage::from_imgmsg(msg).err(), Some(BridgeError::SizeMismatch(8, 9)));
    let msg = message(u32::MAX, u32::MAX, "rgba16", 0, 0, vec![]);
    let expected = (u32::MAX as u128) * (u32::MAX as u128) * 8;
    assert_eq!(CvImage::from_imgmsg(msg).err(), Some(BridgeError::SizeMismatch(expected, 0)));
}

#[test]
fn wrong_byte_order_flag_is_refused() {
    let msg = message(1, 1, "mono16", 2, 2, vec![0, 10]);
    assert_eq!(CvImage::from_imgmsg(msg).err(), Some(BridgeError::UnsupportedEndianness(2)));
}

#[test]
fn sixteen_bit_image_is_not_encoded_with_another_flag() {
    for flag in [2u8, 3, 255] {
        let msg = message(1, 1, "mono16", 0, 2, vec![0x0a, 0x00]);
        let img = CvImage::from_imgmsg(msg).unwrap();
        assert_eq!(img.into_imgmsg(flag), Err(BridgeError::UnsupportedEndianness(flag)));
    }
    let wide = message(0x8000_0000, 0, "rgba16", 0, 0, vec![]);
    let img = CvImage::from_imgmsg(wide).unwrap();
    assert_eq!(img.into_imgmsg(2), Err(BridgeError::UnsupportedEndianness(2)));
}

#[test]
fn every_message_that_leaves_can_be_read_back() {
    for id in IDS {
        let d = descriptor_for(id).unwrap();
        let data: Vec<u8> = (0..2 * d.pixel_bytes()).map(|i| i as u8).collect();
        for flag in [0u8, 1, 2, 200] {
            let img = CvImage::from_cvmat(1, 2, data.clone(), id).unwrap();
            match img.into_imgmsg(flag) {
                Ok(msg) => {
                    assert!(d.bit_depth == 8 || flag <= 1);
                    assert_eq!(msg.is_bigendian, flag);
                    let again = CvImage::from_imgmsg(msg).unwrap();
                    assert_eq!(again.as_container().to_vec(), data);
                }
                Err(e) => {
                    assert_eq!(d.bit_depth, 16);
                    assert_eq!(e, BridgeError::UnsupportedEndianness(flag));
                }
            }
        }
    }
}

#[test]
fn uyvy_to_bgr_is_wrapped_with_three_channels() {
    let msg = message(2, 1, "yuv422", 0, 4, vec![128, 16, 128, 235]);
    let img = CvImage::from_imgmsg(msg).unwrap();
    let plan = img.conversion_plan("bgr8").unwrap();
    assert_eq!(plan.op, ConversionOp::Yuv2BgrUyvy);
    assert_eq!(plan.dst_type, MatType { depth: ElementKind::UInt8, channels: 3 });
    let bgr = CvImage::complete_conversion(Ok((1, 2, vec![0, 0, 0, 255, 255, 255])), "bgr8").unwrap();
    assert_eq!(bgr.as_container().len(), 6);
    let plan = img.conversion_plan("bgra8").unwrap();
    assert_eq!(plan.op, ConversionOp::Yuv2BgraUyvy);
    assert_eq!(plan.dst_type, MatType { depth: ElementKind::UInt8, channels: 4 });
    assert!(CvImage::complete_conversion(Ok((1, 2, vec![0; 8])), "bgra8").is_ok());
}

#[test]
fn stride_that_does_not_fit_is_refused() {
    let msg = message(0x8000_0000, 0, "rgba16", 0, 0, vec![]);
    let img = CvImage::from_imgmsg(msg).unwrap();
    assert_eq!(img.width(), 0x8000_0000);
    assert_eq!(img.into_imgmsg(0), Err(BridgeError::InvalidDimensions));
}

#[test]
fn matrix_that_does_not_fit_is_refused() {
    let msg = message(0x8000_0000, 0, "mono8", 0, 0, vec![]);
    let mut img = CvImage::from_imgmsg(msg).unwrap();
    assert_eq!(img.as_cvmat().err(), Some(BridgeError::InvalidDimensions));
    let msg = message(0, 0xffff_ffff, "mono8", 0, 0, vec![]);
    let mut img = CvImage::from_imgmsg(msg).unwrap();
    assert_eq!(img.as_cvmat().err(), Some(BridgeError::InvalidDimensions));
}

#[test]
fn matrix_view_of_a_sixteen_bit_image() {
    let msg = message(2, 1, "rgb16", 1, 12, vec![0, 1, 0, 2, 0, 3, 1, 0, 2, 0, 3, 0]);
    let mut img = CvImage::from_imgmsg(msg).unwrap();
    let view = img.as_cvmat().unwrap();
    assert_eq!(view.rows, 1);
    assert_eq!(view.cols, 2);
    assert_eq!(view.mat_type, MatType { depth: ElementKind::UInt16, channels: 3 });
    assert_eq!(from_u8_to_u16(view.data, false), Ok(vec![1, 2, 3, 256, 512, 768]));
}

#[test]
fn writing_through_the_view_writes_the_image() {
    let msg = message(2, 2, "mono8", 0, 2, vec![10, 20, 30, 40]);
    let mut img = CvImage::from_imgmsg(msg).unwrap();
    {
        let view = img.as_cvmat().unwrap();
        view.data[1] = 99;
        view.data[3] = 0;
    }
    assert_eq!(img.as_container().to_vec(), vec![10, 99, 30, 0]);
    img.as_mut_container()[0] = 1;
    assert_eq!(img.into_imgmsg(0).unwrap().data, vec![1, 99, 30, 0]);
}

#[test]
fn header_passes_through_and_can_be_edited() {
    let msg = message(1, 1, "mono8", 0, 1, vec![5]);
    let mut img = CvImage::from_imgmsg(msg).unwrap();
    assert_eq!(img.header(), &header());
    img.header_mut().frame_id = "lidar".to_string();
    img.header_mut().seq = 8;
    let out = img.into_imgmsg(0).unwrap();
    assert_eq!(out.header.frame_id, "lidar");
    assert_eq!(out.header.seq, 8);
    assert_eq!(out.header.stamp, Time { sec: 1_700_000_000, nsec: 42 });
}

#[test]
fn image_from_a_matrix() {
    let img = CvImage::from_cvmat(2, 3, vec![1, 2, 3, 4, 5, 6], "mono8").unwrap();
    assert_eq!(img.height(), 2);
    assert_eq!(img.width(), 3);
    assert_eq!(img.encoding(), "mono8");
    assert_eq!(img.header(), &Header::empty());
    assert_eq!(img.header(), &Header { seq: 0, stamp: Time { sec: 0, nsec: 0 }, frame_id: String::new() });
    assert_eq!(img.as_container().to_vec(), vec![1, 2, 3, 4, 5, 6]);
    let msg = img.into_imgmsg(0).unwrap();
    assert_eq!(msg.height, 2);
    assert_eq!(msg.width, 3);
    assert_eq!(msg.step, 3);
    let img = CvImage::from_cvmat(1, 1, vec![0x0a, 0x00, 0x14, 0x00, 0x1e, 0x00], "bgr16").unwrap();
    assert_eq!(img.into_imgmsg(1).unwrap().data, vec![0x00, 0x0a, 0x00, 0x14, 0x00, 0x1e]);
}

#[test]
fn matrix_that_cannot_be_wrapped() {
    assert_eq!(
        CvImage::from_cvmat(1, 1, vec![1], "gray").err(),
        Some(BridgeError::UnsupportedEncoding("gray".to_string()))
    );
    assert_eq!(CvImage::from_cvmat(-1, 1, vec![], "mono8").err(), Some(BridgeError::InvalidDimensions));
    assert_eq!(CvImage::from_cvmat(1, -1, vec![], "mono8").err(), Some(BridgeError::InvalidDimensions));
    assert_eq!(CvImage::from_cvmat(2, 2, vec![0; 5], "mono8").err(), Some(BridgeError::SizeMismatch(4, 5)));
    assert_eq!(CvImage::from_cvmat(2, 2, vec![0; 8], "rgb8").err(), Some(BridgeError::SizeMismatch(12, 8)));
}

#[test]
fn backend_failure_is_handed_on() {
    assert_eq!(
        CvImage::complete_conversion(Err("bad matrix".to_string()), "mono8").err(),
        Some(BridgeError::ConversionBackendError("bad matrix".to_string()))
    );
    assert_eq!(
        CvImage::complete_conversion(Ok((1, 1, vec![1, 2])), "mono8").err(),
        Some(BridgeError::SizeMismatch(1, 2))
    );
}

#[test]
fn plans_from_an_image() {
    let img = CvImage::from_cvmat(1, 2, vec![0; 4], "bayer_bggr16").unwrap();
    let plan = img.conversion_plan("rgb8").unwrap();
    assert_eq!(plan.op, ConversionOp::BayerRG2Rgb);
    assert_eq!(plan.scaling, ScalingFactor { numerator: 1, denominator: 256 });
    assert_eq!(
        img.conversion_plan("rgba8"),
        Err(BridgeError::UnsupportedConversion(Encoding::BayerBGGR, Encoding::Rgba))
    );
    assert_eq!(
        img.conversion_plan("Rgb8"),
        Err(BridgeError::UnsupportedEncoding("Rgb8".to_string()))
    );
}
