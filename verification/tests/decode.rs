use jpegxl_rs::common::PixelType;
use jpegxl_rs::decode::{
    decoder_builder, DecoderOption, ImageInfo, parse_events, ColorEncodingConfig, Config, DecodeAction, Event, JxlDecoder,
    PixelFormat, ProgressiveDetail, Session, SessionAction,
};
use jpegxl_rs::errors::check_dec_status;
use jpegxl_rs::metadata::JxlOrientation;
use jpegxl_rs::types::{
    JxlColorProfileTarget, JxlDataType, JxlDecoderStatus, JxlEndianness, JxlPixelFormat,
};
use jpegxl_rs::{DecodeError, Endianness};

#[test]
#[allow(clippy::clone_on_copy)]
fn decode_test_derive() {
    let e = PixelFormat::default().clone();
    println!("{e:?}");

    _ = decoder_builder().clone();
}

#[test]
fn builder_defaults() {
    let d = decoder_builder().build();
    assert_eq!(d.pixel_format, None);
    assert!(!d.icc_profile);
    assert_eq!(d.init_jpeg_buffer, 512 * 1024);
    assert_eq!(d.coalescing, None);
}

#[test]
fn decode_builder() {
    let format = PixelFormat { num_channels: 3, endianness: Endianness::Big, align: 10 };
    let d = decoder_builder()
        .pixel_format(format)
        .coalescing(false)
        .progressive_detail(ProgressiveDetail::Passes)
        .render_spotcolors(false)
        .decompress(true)
        .unpremul_alpha(true)
        .skip_reorientation(true)
        .icc_profile(true)
        .init_jpeg_buffer(64)
        .build();
    assert_eq!(d.pixel_format, Some(format));
    assert_eq!(d.coalescing, Some(false));
    assert_eq!(d.progressive_detail, Some(ProgressiveDetail::Passes));
    assert_eq!(d.render_spotcolors, Some(false));
    assert_eq!(d.decompress, Some(true));
    assert_eq!(d.unpremul_alpha, Some(true));
    assert_eq!(d.skip_reorientation, Some(true));
    assert!(d.icc_profile);
    assert_eq!(d.init_jpeg_buffer, 64);
}

#[test]
fn decode_invalid() {
    assert!(matches!(JxlDecoder::check_input(&[0x00, 0x00]), Err(DecodeError::InvalidInput)));
}

#[test]
fn decode_invalid_data() {
    assert!(matches!(JxlDecoder::check_input(&[]), Err(DecodeError::InvalidInput)));
    assert!(matches!(JxlDecoder::check_input(&[0; 64]), Err(DecodeError::InvalidInput)));
    assert!(matches!(check_dec_status(JxlDecoderStatus::Error), Err(DecodeError::GenericError)));
    println!("{x:?}", x = check_dec_status(JxlDecoderStatus::BasicInfo).unwrap_err());
}

#[test]
fn invalid_input() {
    assert_eq!(JxlDecoder::check_input(&[]), Err(DecodeError::InvalidInput));
    assert_eq!(JxlDecoder::check_input(&[0; 64]), Err(DecodeError::InvalidInput));
    assert_eq!(JxlDecoder::check_input(&[0x00, 0x00]), Err(DecodeError::InvalidInput));
    assert_eq!(JxlDecoder::check_input(&[0xff, 0x0a, 0xfa]), Ok(()));
}

#[test]
fn dec_status_mapping() {
    assert_eq!(check_dec_status(JxlDecoderStatus::Success), Ok(()));
    assert!(matches!(check_dec_status(JxlDecoderStatus::Error), Err(DecodeError::GenericError)));
    assert_eq!(
        check_dec_status(JxlDecoderStatus::BasicInfo),
        Err(DecodeError::UnknownStatus(JxlDecoderStatus::BasicInfo))
    );
}

#[test]
fn subscribed_events() {
    assert_eq!(JxlDecoder::subscribed_events(false, false), 0x1040);
    assert_eq!(JxlDecoder::subscribed_events(true, false), 0x1140);
    assert_eq!(JxlDecoder::subscribed_events(false, true), 0x3040);
    assert_eq!(JxlDecoder::subscribed_events(true, true), 0x3140);
}

#[test]
fn output_data_type() {
    assert_eq!(JxlDecoder::output_data_type(8, 0), Ok(JxlDataType::Uint8));
    assert_eq!(JxlDecoder::output_data_type(1, 0), Ok(JxlDataType::Uint8));
    assert_eq!(JxlDecoder::output_data_type(12, 0), Ok(JxlDataType::Uint16));
    assert_eq!(JxlDecoder::output_data_type(16, 0), Ok(JxlDataType::Uint16));
    assert_eq!(JxlDecoder::output_data_type(16, 5), Ok(JxlDataType::Float16));
    assert_eq!(JxlDecoder::output_data_type(32, 8), Ok(JxlDataType::Float));
    assert_eq!(JxlDecoder::output_data_type(32, 0), Ok(JxlDataType::Float));
    assert_eq!(
        JxlDecoder::output_data_type(24, 0),
        Err(DecodeError::UnsupportedBitWidth(24))
    );
    assert_eq!(
        JxlDecoder::output_data_type(64, 11),
        Err(DecodeError::UnsupportedBitWidth(64))
    );
}

#[test]
fn output_pixel_format() {
    let d = decoder_builder().build();
    // RGB with alpha, 8 bits: four channels of u8.
    assert_eq!(
        d.output_pixel_format(None, 8, 0, 3, 8),
        Ok(JxlPixelFormat {
            num_channels: 4,
            data_type: JxlDataType::Uint8,
            endianness: JxlEndianness::Native,
            align: 0
        })
    );
    // Gray without alpha, the caller asks for f32.
    assert_eq!(
        d.output_pixel_format(Some(JxlDataType::Float), 8, 0, 1, 0),
        Ok(JxlPixelFormat {
            num_channels: 1,
            data_type: JxlDataType::Float,
            endianness: JxlEndianness::Native,
            align: 0
        })
    );
    let d = decoder_builder()
        .pixel_format(PixelFormat { num_channels: 3, endianness: Endianness::Big, align: 8 })
        .build();
    assert_eq!(
        d.output_pixel_format(None, 16, 0, 3, 16),
        Ok(JxlPixelFormat {
            num_channels: 3,
            data_type: JxlDataType::Uint16,
            endianness: JxlEndianness::Big,
            align: 8
        })
    );
    assert_eq!(d.output_pixel_format(None, 20, 3, 3, 0), Err(DecodeError::UnsupportedBitWidth(20)));
}

#[test]
fn decode_steps() {
    let d = decoder_builder().init_jpeg_buffer(8).build();
    let mut jpeg: Option<Vec<u8>> = Some(Vec::new());
    assert_eq!(
        d.decode_step(JxlDecoderStatus::BasicInfo, false, &mut jpeg, 0),
        Ok(DecodeAction::ReadBasicInfo)
    );
    assert_eq!(
        d.decode_step(JxlDecoderStatus::JPEGReconstruction, false, &mut jpeg, 0),
        Ok(DecodeAction::SetJpegBuffer)
    );
    assert_eq!(jpeg.as_ref().unwrap().len(), 8);
    jpeg.as_mut().unwrap()[0] = 0xff;
    assert_eq!(
        d.decode_step(JxlDecoderStatus::JPEGNeedMoreOutput, false, &mut jpeg, 4),
        Ok(DecodeAction::SetJpegBuffer)
    );
    assert_eq!(jpeg.as_ref().unwrap().len(), 12);
    assert_eq!(jpeg.as_ref().unwrap()[0], 0xff);
    assert_eq!(
        d.decode_step(JxlDecoderStatus::NeedImageOutBuffer, false, &mut jpeg, 0),
        Ok(DecodeAction::SetImageOutBuffer)
    );
    assert_eq!(
        d.decode_step(JxlDecoderStatus::FullImage, false, &mut jpeg, 0),
        Ok(DecodeAction::Continue)
    );
    assert_eq!(
        d.decode_step(JxlDecoderStatus::Success, false, &mut jpeg, 5),
        Ok(DecodeAction::Finish)
    );
    assert_eq!(jpeg.as_ref().unwrap().len(), 7);
    assert_eq!(
        d.decode_step(JxlDecoderStatus::NeedMoreInput, false, &mut jpeg, 0),
        Err(DecodeError::GenericError)
    );
    assert_eq!(
        d.decode_step(JxlDecoderStatus::Error, false, &mut jpeg, 0),
        Err(DecodeError::GenericError)
    );
    assert_eq!(
        d.decode_step(JxlDecoderStatus::ColorEncoding, true, &mut None, 0),
        Ok(DecodeAction::ReadIccProfile)
    );
}

#[test]
fn events_parsing() {
    let icc = ColorEncodingConfig { target: JxlColorProfileTarget::Data, icc_profile: true };
    let enc = ColorEncodingConfig { target: JxlColorProfileTarget::Original, icc_profile: false };
    assert_eq!(i32::from(Event::BasicInfo), 0x40);
    assert_eq!(i32::from(Event::ColorEncoding(icc)), 0x100);
    let (flags, config) = parse_events(&[]);
    assert_eq!(flags, 0);
    assert_eq!(config, Config::default());
    let (flags, config) = parse_events(&[
        Event::BasicInfo,
        Event::ColorEncoding(icc),
        Event::JpegReconstruction { init_buffer_size: 10 },
        Event::ColorEncoding(enc),
    ]);
    assert_eq!(flags, 0x2140);
    assert_eq!(config.color_profile, Some(enc));
    assert_eq!(config.jpeg_reconstruction, Some(10));
    assert_eq!(config.preview, None);
    assert_eq!(config.frame, None);
    let gray = JxlPixelFormat {
        num_channels: 1,
        data_type: JxlDataType::Uint8,
        endianness: JxlEndianness::Native,
        align: 0,
    };
    let (flags, config) = parse_events(&[
        Event::PreviewImage { pixel_format: gray },
        Event::JpegReconstruction { init_buffer_size: 10 },
        Event::BasicInfo,
        Event::JpegReconstruction { init_buffer_size: 20 },
    ]);
    assert_eq!(flags, 0x2240);
    assert_eq!(config.preview, Some(gray));
    assert_eq!(config.jpeg_reconstruction, Some(20));
    assert_eq!(config.color_profile, None);
    let (a, _) = parse_events(&[Event::BasicInfo]);
    let (b, _) = parse_events(&[Event::JpegReconstruction { init_buffer_size: 1 }]);
    let (ab, _) =
        parse_events(&[Event::BasicInfo, Event::JpegReconstruction { init_buffer_size: 1 }]);
    assert_eq!(ab, a | b);
}

#[test]
fn test_session() {
    let session = Session::new(&[Event::BasicInfo]);
    assert_eq!(session.flags(), 0x40);
    drop(session);
}

#[test]
fn session_steps() {
    let icc = ColorEncodingConfig { target: JxlColorProfileTarget::Data, icc_profile: true };
    let mut session = Session::new(&[Event::BasicInfo, Event::ColorEncoding(icc)]);
    assert_eq!(session.step(JxlDecoderStatus::BasicInfo, 0), Ok(SessionAction::ReadBasicInfo));
    assert_eq!(
        session.step(JxlDecoderStatus::ColorEncoding, 0),
        Ok(SessionAction::ReadIccProfile(JxlColorProfileTarget::Data))
    );
    assert_eq!(session.step(JxlDecoderStatus::Frame, 0), Ok(SessionAction::ReadFrame));
    assert_eq!(session.step(JxlDecoderStatus::Error, 0), Err(DecodeError::GenericError));
    assert!(matches!(
        session.step(JxlDecoderStatus::PreviewImage, 0),
        Err(DecodeError::InternalError(_))
    ));
    assert!(matches!(
        session.step(JxlDecoderStatus::JPEGReconstruction, 0),
        Err(DecodeError::InternalError(_))
    ));
    assert_eq!(session.step(JxlDecoderStatus::JPEGNeedMoreOutput, 16), Ok(SessionAction::Continue));
    assert_eq!(session.jpeg_buffer().len(), 16);
    assert!(Session::is_finished(JxlDecoderStatus::Success));
    assert!(!Session::is_finished(JxlDecoderStatus::Frame));

    let enc = ColorEncodingConfig { target: JxlColorProfileTarget::Original, icc_profile: false };
    let mut session = Session::new(&[Event::ColorEncoding(enc)]);
    assert_eq!(
        session.step(JxlDecoderStatus::ColorEncoding, 0),
        Ok(SessionAction::ReadEncodedProfile(JxlColorProfileTarget::Original))
    );
    let mut session = Session::new(&[Event::JpegReconstruction { init_buffer_size: 6 }]);
    assert_eq!(session.step(JxlDecoderStatus::JPEGReconstruction, 0), Ok(SessionAction::Continue));
    assert_eq!(session.jpeg_buffer(), &[0u8; 6][..]);
    assert_eq!(session.step(JxlDecoderStatus::JPEGNeedMoreOutput, 2), Ok(SessionAction::Continue));
    assert_eq!(session.jpeg_buffer().len(), 8);
    let gray = JxlPixelFormat {
        num_channels: 1,
        data_type: JxlDataType::Uint8,
        endianness: JxlEndianness::Native,
        align: 0,
    };
    let mut session = Session::new(&[Event::PreviewImage { pixel_format: gray }]);
    assert_eq!(
        session.step(JxlDecoderStatus::PreviewImage, 0),
        Ok(SessionAction::ReadPreviewImage(gray))
    );
    let mut session = Session::new(&[]);
    assert!(matches!(
        session.step(JxlDecoderStatus::ColorEncoding, 0),
        Err(DecodeError::InternalError(_))
    ));
}

#[test]
fn frame_names() {
    assert_eq!(Session::frame_name_buffer_len(0), 1);
    assert_eq!(Session::frame_name_buffer_len(5), 6);
    assert_eq!(Session::check_frame_name(b"name\0"), Ok(()));
    assert_eq!(Session::check_frame_name(b"\0"), Ok(()));
    assert_eq!(
        Session::check_frame_name(b"na\0me\0"),
        Err(DecodeError::InternalError("Invalid frame name"))
    );
    assert_eq!(
        Session::check_frame_name(b"name"),
        Err(DecodeError::InternalError("Invalid frame name"))
    );
    assert_eq!(Session::check_frame_name(b""), Err(DecodeError::InternalError("Invalid frame name")));
}

#[test]
fn pixel_conversion() {
    let le = JxlPixelFormat {
        num_channels: 1,
        data_type: JxlDataType::Uint16,
        endianness: JxlEndianness::Little,
        align: 0,
    };
    let be = JxlPixelFormat { endianness: JxlEndianness::Big, ..le };
    let native = JxlPixelFormat { endianness: JxlEndianness::Native, ..le };
    let data = [0x01u8, 0x02, 0xff, 0x00];
    assert_eq!(u16::convert(&data, &le), vec![0x0201, 0x00ff]);
    assert_eq!(u16::convert(&data, &be), vec![0x0102, 0xff00]);
    let n = u16::convert(&data, &native);
    assert!(n == vec![0x0201, 0x00ff] || n == vec![0x0102, 0xff00]);
    assert_eq!(u8::convert(&data, &le), data.to_vec());
    assert_eq!(u8::pixel_type(), JxlDataType::Uint8);
    assert_eq!(u16::pixel_type(), JxlDataType::Uint16);
    assert_eq!(u8::bits_per_sample(), (8, 0));
    assert_eq!(u16::bits_per_sample(), (16, 0));
    assert!(u16::convert(&[], &le).is_empty());
}

#[test]
fn decoded_metadata() {
    let info = ImageInfo {
        xsize: 64,
        ysize: 32,
        bits_per_sample: 8,
        exponent_bits_per_sample: 0,
        orientation: JxlOrientation::Rotate90Cw,
        num_color_channels: 3,
        alpha_bits: 8,
        intrinsic_xsize: 128,
        intrinsic_ysize: 64,
    };
    let m = JxlDecoder::metadata(&info, Some(vec![1, 2]));
    assert_eq!(m.width, 64);
    assert_eq!(m.height, 32);
    assert_eq!(m.orientation, JxlOrientation::Rotate90Cw);
    assert_eq!(m.num_color_channels, 3);
    assert!(m.has_alpha_channel);
    assert_eq!(m.intrinsic_width, 128);
    assert_eq!(m.intrinsic_height, 64);
    assert_eq!(m.icc_profile, Some(vec![1, 2]));
    let m = JxlDecoder::metadata(&ImageInfo { alpha_bits: 0, ..info }, None);
    assert!(!m.has_alpha_channel);
    assert_eq!(m.icc_profile, None);
}

#[test]
fn codec_options() {
    assert!(decoder_builder().build().codec_options().is_empty());
    let d = decoder_builder().coalescing(false).skip_reorientation(true).decompress(true).build();
    assert_eq!(
        d.codec_options(),
        vec![DecoderOption::KeepOrientation(true), DecoderOption::Coalescing(false)]
    );
    let d = decoder_builder()
        .unpremul_alpha(true)
        .render_spotcolors(false)
        .skip_reorientation(false)
        .coalescing(true)
        .build();
    assert_eq!(
        d.codec_options(),
        vec![
            DecoderOption::KeepOrientation(false),
            DecoderOption::UnpremultiplyAlpha(true),
            DecoderOption::RenderSpotcolors(false),
            DecoderOption::Coalescing(true),
        ]
    );
}

#[test]
fn u16_roundtrip() {
    let v = vec![0x0102u16, 0xfffe, 0, 0x8000];
    let le: Vec<u8> = v.iter().flat_map(|x| x.to_le_bytes()).collect();
    let be: Vec<u8> = v.iter().flat_map(|x| x.to_be_bytes()).collect();
    let ne: Vec<u8> = v.iter().flat_map(|x| x.to_ne_bytes()).collect();
    let f = JxlPixelFormat {
        num_channels: 1,
        data_type: JxlDataType::Uint16,
        endianness: JxlEndianness::Little,
        align: 0,
    };
    assert_eq!(u16::convert(&le, &f), v);
    assert_eq!(u16::convert(&be, &JxlPixelFormat { endianness: JxlEndianness::Big, ..f }), v);
    assert_eq!(u16::convert(&ne, &JxlPixelFormat { endianness: JxlEndianness::Native, ..f }), v);
    assert_eq!(u16::convert(&[0x01, 0x02], &JxlPixelFormat { endianness: JxlEndianness::Big, ..f }), vec![0x0102]);
    assert_eq!(u16::convert(&[0x01, 0x02], &f), vec![0x0201]);
}

#[test]
fn icc_profile_present_when_asked() {
    for with_icc in [true, false] {
        let mut icc = JxlDecoder::icc_profile_buffer(with_icc);
        assert_eq!(icc.is_some(), with_icc);
        if with_icc {
            assert!(icc.as_ref().unwrap().is_empty());
            JxlDecoder::size_icc_profile(&mut icc, 12);
            assert_eq!(icc.as_ref().unwrap(), &vec![0u8; 12]);
        }
        let info = ImageInfo {
            xsize: 1,
            ysize: 1,
            bits_per_sample: 8,
            exponent_bits_per_sample: 0,
            orientation: JxlOrientation::Identity,
            num_color_channels: 1,
            alpha_bits: 0,
            intrinsic_xsize: 1,
            intrinsic_ysize: 1,
        };
        assert_eq!(JxlDecoder::metadata(&info, icc).icc_profile.is_some(), with_icc);
    }
}

#[test]
fn reconstruction_choice() {
    assert!(JxlDecoder::reconstruction_is_jpeg(&[0xff, 0xd8]));
    assert!(!JxlDecoder::reconstruction_is_jpeg(&[]));
}
