use jpegxl_rs::encode::{
    encoder_builder, EncoderResult, finish_output, grow_output, BlendInfo, BlendMode, ColorEncoding,
    EncoderBasicInfo, EncoderFrame, EncoderSpeed, FrameHeader, JxlEncoder, LayerInfo, Metadata,
};
use jpegxl_rs::metadata::JxlBlendMode;
use jpegxl_rs::types::{
    JxlBool, JxlDataType, JxlEncoderError, JxlEncoderStatus, JxlEndianness, JxlPixelFormat,
};
use jpegxl_rs::EncodeError;

#[test]
#[allow(clippy::clone_on_copy)]
fn encode_test_derive() {
    let e = EncoderSpeed::default().clone();
    println!("{e:?}");

    let e = ColorEncoding::Srgb.clone();
    println!("{e:?}");

    _ = encoder_builder().clone();
}

#[test]
fn encoder_builder_defaults() {
    let e = encoder_builder().build();
    assert!(!e.has_alpha);
    assert!(!e.lossless);
    assert_eq!(e.speed, EncoderSpeed::Squirrel);
    assert!(!e.use_container);
    assert!(!e.uses_original_profile);
    assert_eq!(e.decoding_speed, 0);
    assert_eq!(e.init_buffer_size, 512 * 1024);
    assert_eq!(e.color_encoding, ColorEncoding::Srgb);
    assert!(!e.use_box);
}

#[test]
fn encode_builder() {
    let e = encoder_builder()
        .has_alpha(true)
        .lossless(false)
        .speed(EncoderSpeed::Lightning)
        .color_encoding(ColorEncoding::LinearSrgb)
        .decoding_speed(4)
        .init_buffer_size(64)
        .build();
    assert!(e.has_alpha);
    assert!(!e.lossless);
    assert_eq!(e.speed, EncoderSpeed::Lightning);
    assert_eq!(e.color_encoding, ColorEncoding::LinearSrgb);
    assert_eq!(e.decoding_speed, 4);
    assert_eq!(e.init_buffer_size, 64);
}

#[test]
fn initial_buffer() {
    assert_eq!(encoder_builder().init_buffer_size(0).build().init_buffer_size, 32);
    assert_eq!(encoder_builder().init_buffer_size(31).build().init_buffer_size, 32);
    assert_eq!(encoder_builder().init_buffer_size(33).build().init_buffer_size, 33);
    let mut e = encoder_builder().init_buffer_size(0).build();
    assert_eq!(e.output_buffer(), vec![0u8; 32]);
    e.init_buffer_size = 0;
    assert_eq!(e.output_buffer(), vec![0u8; 32]);
    e.init_buffer_size = 40;
    assert_eq!(e.output_buffer(), vec![0u8; 40]);
}

#[test]
fn speed_efforts() {
    assert_eq!(EncoderSpeed::Lightning.effort(), 1);
    assert_eq!(EncoderSpeed::Falcon.effort(), 3);
    assert_eq!(EncoderSpeed::Cheetah.effort(), 4);
    assert_eq!(EncoderSpeed::default().effort(), 7);
    assert_eq!(EncoderSpeed::Glacier.effort(), 10);
}

#[test]
fn enc_status_mapping() {
    let e = encoder_builder().build();
    let ok = JxlEncoderError::OK;
    assert_eq!(e.check_enc_status(JxlEncoderStatus::Success, ok), Ok(()));
    assert_eq!(
        e.check_enc_status(JxlEncoderStatus::NeedMoreOutput, ok),
        Err(EncodeError::NeedMoreOutput)
    );
    let cases = [
        (JxlEncoderError::Generic, EncodeError::GenericError),
        (JxlEncoderError::OutOfMemory, EncodeError::OutOfMemory),
        (JxlEncoderError::Jbrd, EncodeError::Jbrd),
        (JxlEncoderError::BadInput, EncodeError::BadInput),
        (JxlEncoderError::NotSupported, EncodeError::NotSupported),
        (JxlEncoderError::ApiUsage, EncodeError::ApiUsage),
    ];
    for (err, expected) in cases {
        assert_eq!(e.check_enc_status(JxlEncoderStatus::Error, err), Err(expected));
    }
}

#[test]
fn basic_info_setup() {
    let e = encoder_builder().has_alpha(true).use_container(true).build();
    assert_eq!(
        e.basic_info_for::<u16>(640, 480),
        EncoderBasicInfo {
            xsize: 640,
            ysize: 480,
            have_container: JxlBool::True,
            uses_original_profile: JxlBool::False,
            bits_per_sample: 16,
            exponent_bits_per_sample: 0,
            num_color_channels: 3,
            num_extra_channels: 1,
            alpha_bits: 16,
            alpha_exponent_bits: 0,
        }
    );
    let g = encoder_builder().color_encoding(ColorEncoding::SrgbLuma).build();
    let info = g.basic_info(2, 3, (32, 8), false);
    assert_eq!(info.num_color_channels, 1);
    assert_eq!(info.num_extra_channels, 0);
    assert_eq!(info.alpha_bits, 0);
    assert_eq!(info.bits_per_sample, 32);
    assert_eq!(info.exponent_bits_per_sample, 8);
    let g = encoder_builder().color_encoding(ColorEncoding::LinearSrgbLuma).build();
    assert_eq!(g.basic_info(1, 1, (8, 0), true).num_color_channels, 1);
}

#[test]
fn test_usebox() {
    let mut encoder = encoder_builder().build();
    let metadata = Metadata::Exif(&[0, 1, 2, 3]);
    let (enable, t, compress) = encoder.prepare_metadata_box(&metadata, true);
    assert!(enable);
    assert_eq!(t.0, *b"Exif");
    assert_eq!(compress, JxlBool::True);
    assert!(!encoder.use_box);
    assert_eq!(encoder.record_use_boxes(JxlEncoderStatus::Success, JxlEncoderError::OK), Ok(()));
    assert!(encoder.use_box);
    let (enable, t, compress) = encoder.prepare_metadata_box(&Metadata::Xmp(&[]), false);
    assert!(!enable);
    assert_eq!(t.0, *b"xml ");
    assert_eq!(compress, JxlBool::False);
}

#[test]
fn failed_box_enable() {
    let mut encoder = encoder_builder().build();
    assert_eq!(
        encoder.record_use_boxes(JxlEncoderStatus::Error, JxlEncoderError::ApiUsage),
        Err(EncodeError::ApiUsage)
    );
    assert!(!encoder.use_box);
    let (enable, _, _) = encoder.prepare_metadata_box(&Metadata::Jumb(&[1]), false);
    assert!(enable);
}

#[test]
fn metadata_boxes() {
    let data = [9u8, 8, 7];
    assert_eq!(Metadata::Jumb(&data).box_contents(), (*b"jumb", &data[..]));
    assert_eq!(Metadata::Custom(*b"abcd", &data).box_contents(), (*b"abcd", &data[..]));
    assert_eq!(Metadata::box_type(*b"wxyz").0, *b"wxyz");
}

#[test]
fn output_growth() {
    let mut buffer = vec![1u8, 2, 3, 4];
    let avail = grow_output(&mut buffer, 3);
    assert_eq!(buffer, vec![1, 2, 3, 4, 0, 0, 0, 0]);
    assert_eq!(avail, 5);
    finish_output(&mut buffer, 5);
    assert_eq!(buffer, vec![1, 2, 3, 4, 0]);
}

#[test]
fn frames() {
    let data = [1u8, 2, 3];
    let frame = EncoderFrame::new(&data[..]);
    assert_eq!(
        frame.pixel_format(),
        JxlPixelFormat {
            num_channels: 3,
            data_type: JxlDataType::Uint8,
            endianness: JxlEndianness::Native,
            align: 0
        }
    );
    assert!(frame.get_header().is_none());
    let header = FrameHeader::new().duration(5).timecode(0x01020304);
    let frame = frame.num_channels(4).endianness(JxlEndianness::Big).align(8).header(header);
    assert_eq!(
        frame.pixel_format(),
        JxlPixelFormat {
            num_channels: 4,
            data_type: JxlDataType::Uint8,
            endianness: JxlEndianness::Big,
            align: 8
        }
    );
    let h = frame.get_header().unwrap();
    assert_eq!(h.duration, 5);
    assert_eq!(h.timecode, 0x01020304);
    assert_eq!(h.name_length, 0);
    let wide = [1u16, 2];
    assert_eq!(EncoderFrame::new(&wide[..]).pixel_format().data_type, JxlDataType::Uint16);
}

#[test]
fn layers_and_blending() {
    let blend = BlendInfo::new(BlendMode::Blend, 1, 2, true);
    assert_eq!(blend.0.blendmode, JxlBlendMode::Blend);
    assert_eq!(blend.0.source, 1);
    assert_eq!(blend.0.alpha, 2);
    assert_eq!(blend.0.clamp, JxlBool::True);
    let layer = LayerInfo::new(true, -4, 5, 10, 20, blend, 1);
    assert_eq!(layer.0.have_crop, JxlBool::True);
    assert_eq!(layer.0.crop_x0, -4);
    assert_eq!(layer.0.crop_y0, 5);
    assert_eq!(layer.0.xsize, 10);
    assert_eq!(layer.0.ysize, 20);
    assert_eq!(layer.0.blend_info, blend.0);
    assert_eq!(layer.0.save_as_reference, 1);
    let header = FrameHeader::new().layer_info(layer);
    assert_eq!(header.0.layer_info, layer.0);
    let fresh = FrameHeader::new();
    assert_eq!(fresh.0.duration, 0);
    assert_eq!(fresh.0.is_last, JxlBool::True);
    assert_eq!(fresh.0.layer_info.blend_info.blendmode, JxlBlendMode::Replace);
}

#[test]
fn encoder_settings_type() {
    let e: JxlEncoder = encoder_builder().build();
    let copy = e;
    assert_eq!(copy, e);
}

#[test]
fn encoder_result_bytes() {
    let r: EncoderResult<u16> = EncoderResult::from_output(vec![1, 2, 3, 0, 0], 3);
    assert_eq!(&*r, &[1u8, 2, 3][..]);
    assert_eq!(r.data, vec![1, 2, 3]);
    assert_eq!(r.len(), 3);
}

/// Runs the output loop of an encoder against a codec that has `stream` to
/// give and writes as much of it as fits on each call.
fn run_output(encoder: &JxlEncoder, stream: &[u8]) -> Vec<u8> {
    let mut buffer = encoder.output_buffer();
    let mut written = 0usize;
    loop {
        let n = (buffer.len() - written).min(stream.len() - written);
        buffer[written..written + n].copy_from_slice(&stream[written..written + n]);
        written += n;
        if written == stream.len() {
            break;
        }
        grow_output(&mut buffer, written);
    }
    EncoderResult::<u8>::from_output(buffer, written).data
}

#[test]
fn output_independent_of_initial_size() {
    let stream: Vec<u8> = (0..1000u32).map(|i| (i * 7 % 251) as u8).collect();
    let mut e = encoder_builder().init_buffer_size(0).build();
    assert_eq!(run_output(&e, &stream), stream);
    e.init_buffer_size = 0;
    assert_eq!(run_output(&e, &stream), stream);
    e.init_buffer_size = 4096;
    assert_eq!(run_output(&e, &stream), stream);
    e.init_buffer_size = 1000;
    assert_eq!(run_output(&e, &stream), stream);
    assert_eq!(run_output(&e, &[]), Vec::<u8>::new());
}
