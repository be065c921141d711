use jpegxl_rs::metadata::JxlOrientation;
use jpegxl_rs::types::{JxlBool, JxlDecoderStatus};

#[test]
fn test_jxl_bool() {
    assert_eq!(JxlBool::from(true), JxlBool::True);
    assert_eq!(JxlBool::from(false), JxlBool::False);
}

#[test]
fn jxl_bool_roundtrip() {
    for b in [true, false] {
        assert_eq!(bool::from(JxlBool::from(b)), b);
    }
    assert_eq!(JxlBool::True.raw(), 1);
    assert_eq!(JxlBool::False.raw(), 0);
    assert_eq!(JxlBool::from_raw(1), Some(JxlBool::True));
    assert_eq!(JxlBool::from_raw(0), Some(JxlBool::False));
    assert_eq!(JxlBool::from_raw(2), None);
    assert_eq!(JxlBool::from_raw(-1), None);
}

#[test]
fn decoder_status_codes() {
    assert_eq!(JxlDecoderStatus::Success.code(), 0);
    assert_eq!(JxlDecoderStatus::BasicInfo.code(), 0x40);
    assert_eq!(JxlDecoderStatus::ColorEncoding.code(), 0x100);
    assert_eq!(JxlDecoderStatus::FullImage.code(), 0x1000);
    assert_eq!(JxlDecoderStatus::JPEGReconstruction.code(), 0x2000);
    assert_eq!(JxlDecoderStatus::BoxComplete.code(), 0x10000);
    let all = [
        JxlDecoderStatus::Success,
        JxlDecoderStatus::Error,
        JxlDecoderStatus::NeedMoreInput,
        JxlDecoderStatus::NeedPreviewOutBuffer,
        JxlDecoderStatus::NeedImageOutBuffer,
        JxlDecoderStatus::JPEGNeedMoreOutput,
        JxlDecoderStatus::BoxNeedMoreOutput,
        JxlDecoderStatus::BasicInfo,
        JxlDecoderStatus::ColorEncoding,
        JxlDecoderStatus::PreviewImage,
        JxlDecoderStatus::Frame,
        JxlDecoderStatus::FullImage,
        JxlDecoderStatus::JPEGReconstruction,
        JxlDecoderStatus::Box,
        JxlDecoderStatus::FrameProgression,
        JxlDecoderStatus::BoxComplete,
    ];
    for s in all {
        assert_eq!(JxlDecoderStatus::from_code(s.code()), Some(s));
    }
    assert_eq!(JxlDecoderStatus::from_code(4), None);
    assert_eq!(JxlDecoderStatus::from_code(0x41), None);
}

#[test]
fn orientation_values() {
    assert_eq!(JxlOrientation::Identity.value(), 1);
    assert_eq!(JxlOrientation::Rotate90Ccw.value(), 8);
    for v in 1..=8u32 {
        assert_eq!(JxlOrientation::try_from_primitive(v).unwrap().value(), v);
    }
    assert_eq!(JxlOrientation::try_from_primitive(0), None);
    assert_eq!(JxlOrientation::try_from_primitive(9), None);
    assert_eq!(JxlOrientation::try_from_primitive(6), Some(JxlOrientation::Rotate90Cw));
}
