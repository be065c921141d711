//! Decoder of the JPEG XL format: the decoder settings, their builder, and
//! the decisions that drive a decoding run.

use vstd::prelude::*;

use crate::buffer::{resize_bytes, resized};
use crate::common::Endianness;
use crate::errors::DecodeError;
use crate::utils::{
    check_valid_signature, spec_valid_signature, starts_with_codestream, starts_with_container,
};
use crate::metadata::JxlOrientation;
use crate::types::{JxlDataType, JxlDecoderStatus, JxlPixelFormat, JxlProgressiveDetail};

pub mod event;
pub mod session;

pub use event::{parse_events, ColorProfileTarget, Event};
pub use session::{ColorEncodingConfig, Config, Session, SessionAction};

verus! {

/// Progressive decoding steps.
pub type ProgressiveDetail = JxlProgressiveDetail;

/// Desired pixel format.
#[derive(Clone, Copy, Debug, PartialEq, Eq, Structural)]
pub struct PixelFormat {
    /// Amount of channels available in a pixel buffer (1: gray, 2: gray and
    /// alpha, 3: RGB, 4: RGBA). Default 0, which means determined
    /// automatically from color channels and alpha bits.
    pub num_channels: u32,
    /// Whether multibyte data types are represented in big endian or little
    /// endian format. Default [`Endianness::Native`].
    pub endianness: Endianness,
    /// Align scanlines to a multiple of align bytes. Default 0, which means no
    /// alignment.
    pub align: usize,
}

impl Default for PixelFormat {
    fn default() -> (r: Self)
        ensures
            r == (PixelFormat { num_channels: 0, endianness: Endianness::Native, align: 0 }),
    {
        PixelFormat { num_channels: 0, endianness: Endianness::Native, align: 0 }
    }
}

/// Builder of a [`JxlDecoder`]: every setting left unset takes its default.
#[derive(Clone, Copy, Debug)]
pub struct JxlDecoderBuilder {
    pub pixel_format: Option<PixelFormat>,
    pub skip_reorientation: Option<bool>,
    pub unpremul_alpha: Option<bool>,
    pub render_spotcolors: Option<bool>,
    pub coalescing: Option<bool>,
    pub decompress: Option<bool>,
    pub progressive_detail: Option<JxlProgressiveDetail>,
    pub icc_profile: Option<bool>,
    pub init_jpeg_buffer: Option<usize>,
}

impl Default for JxlDecoderBuilder {
    fn default() -> (r: Self)
        ensures
            r.unset(),
    {
        JxlDecoderBuilder {
            pixel_format: None,
            skip_reorientation: None,
            unpremul_alpha: None,
            render_spotcolors: None,
            coalescing: None,
            decompress: None,
            progressive_detail: None,
            icc_profile: None,
            init_jpeg_buffer: None,
        }
    }
}

impl JxlDecoderBuilder {
    /// No setting is set.
    pub open spec fn unset(self) -> bool {
        &&& self.pixel_format is None
        &&& self.skip_reorientation is None
        &&& self.unpremul_alpha is None
        &&& self.render_spotcolors is None
        &&& self.coalescing is None
        &&& self.decompress is None
        &&& self.progressive_detail is None
        &&& self.icc_profile is None
        &&& self.init_jpeg_buffer is None
    }

    /// The decoder that the builder describes: the settings that were set,
    /// the defaults for the others.
    pub open spec fn spec_build(self) -> JxlDecoder {
        JxlDecoder {
            pixel_format: self.pixel_format,
            skip_reorientation: self.skip_reorientation,
            unpremul_alpha: self.unpremul_alpha,
            render_spotcolors: self.render_spotcolors,
            coalescing: self.coalescing,
            decompress: self.decompress,
            progressive_detail: self.progressive_detail,
            icc_profile: match self.icc_profile {
                Some(v) => v,
                None => false,
            },
            init_jpeg_buffer: match self.init_jpeg_buffer {
                Some(v) => v,
                None => DEFAULT_JPEG_BUFFER_SIZE,
            },
        }
    }

    /// Build a [`JxlDecoder`] from the settings.
    pub fn build(&self) -> (r: JxlDecoder)
        ensures
            r == self.spec_build(),
            r.pixel_format == self.pixel_format,
            r.skip_reorientation == self.skip_reorientation,
            r.unpremul_alpha == self.unpremul_alpha,
            r.render_spotcolors == self.render_spotcolors,
            r.coalescing == self.coalescing,
            r.decompress == self.decompress,
            r.progressive_detail == self.progressive_detail,
            self.icc_profile matches Some(x) ==> r.icc_profile == x,
            self.icc_profile is None ==> !r.icc_profile,
            self.init_jpeg_buffer matches Some(x) ==> r.init_jpeg_buffer == x,
            self.init_jpeg_buffer is None ==> r.init_jpeg_buffer == 524288,
    {
        JxlDecoder {
            pixel_format: self.pixel_format,
            skip_reorientation: self.skip_reorientation,
            unpremul_alpha: self.unpremul_alpha,
            render_spotcolors: self.render_spotcolors,
            coalescing: self.coalescing,
            decompress: self.decompress,
            progressive_detail: self.progressive_detail,
            icc_profile: match self.icc_profile {
                Some(v) => v,
                None => false,
            },
            init_jpeg_buffer: match self.init_jpeg_buffer {
                Some(v) => v,
                None => DEFAULT_JPEG_BUFFER_SIZE,
            },
        }
    }

    /// Override desired pixel format.
    pub fn pixel_format(&mut self, value: PixelFormat) -> (r: &mut Self)
        ensures
            *final(self) == *final(r),
            *r == (JxlDecoderBuilder { pixel_format: Some(value), ..*old(self) }),
    {
        self.pixel_format = Some(value);
        self
    }

    /// Whether to keep the as-in-bitstream orientation of the pixel data.
    pub fn skip_reorientation(&mut self, value: bool) -> (r: &mut Self)
        ensures
            *final(self) == *final(r),
            *r == (JxlDecoderBuilder { skip_reorientation: Some(value), ..*old(self) }),
    {
        self.skip_reorientation = Some(value);
        self
    }

    /// Whether to unpremultiply colors by associated alpha channels.
    pub fn unpremul_alpha(&mut self, value: bool) -> (r: &mut Self)
        ensures
            *final(self) == *final(r),
            *r == (JxlDecoderBuilder { unpremul_alpha: Some(value), ..*old(self) }),
    {
        self.unpremul_alpha = Some(value);
        self
    }

    /// Whether to render spot colors.
    pub fn render_spotcolors(&mut self, value: bool) -> (r: &mut Self)
        ensures
            *final(self) == *final(r),
            *r == (JxlDecoderBuilder { render_spotcolors: Some(value), ..*old(self) }),
    {
        self.render_spotcolors = Some(value);
        self
    }

    /// Whether to coalesce zero-duration frames.
    pub fn coalescing(&mut self, value: bool) -> (r: &mut Self)
        ensures
            *final(self) == *final(r),
            *r == (JxlDecoderBuilder { coalescing: Some(value), ..*old(self) }),
    {
        self.coalescing = Some(value);
        self
    }

    /// Whether to get boxes in decompressed mode.
    pub fn decompress(&mut self, value: bool) -> (r: &mut Self)
        ensures
            *final(self) == *final(r),
            *r == (JxlDecoderBuilder { decompress: Some(value), ..*old(self) }),
    {
        self.decompress = Some(value);
        self
    }

    /// At which progressive steps the decoder pauses.
    pub fn progressive_detail(&mut self, value: JxlProgressiveDetail) -> (r: &mut Self)
        ensures
            *final(self) == *final(r),
            *r == (JxlDecoderBuilder { progressive_detail: Some(value), ..*old(self) }),
    {
        self.progressive_detail = Some(value);
        self
    }

    /// Whether the ICC profile is retrieved.
    pub fn icc_profile(&mut self, value: bool) -> (r: &mut Self)
        ensures
            *final(self) == *final(r),
            *r == (JxlDecoderBuilder { icc_profile: Some(value), ..*old(self) }),
    {
        self.icc_profile = Some(value);
        self
    }

    /// Initial buffer size for JPEG reconstruction.
    pub fn init_jpeg_buffer(&mut self, value: usize) -> (r: &mut Self)
        ensures
            *final(self) == *final(r),
            *r == (JxlDecoderBuilder { init_jpeg_buffer: Some(value), ..*old(self) }),
    {
        self.init_jpeg_buffer = Some(value);
        self
    }
}

/// Default initial buffer size for JPEG reconstruction: 512 KiB.
pub const DEFAULT_JPEG_BUFFER_SIZE: usize = 524288;

/// Return a [`JxlDecoderBuilder`] with default settings.
pub fn decoder_builder() -> (r: JxlDecoderBuilder)
    ensures
        r.unset(),
{
    JxlDecoderBuilder::default()
}

/// Settings of a JPEG XL decoder.
#[derive(Clone, Copy, Debug, PartialEq, Eq, Structural)]
pub struct JxlDecoder {
    /// Override desired pixel format.
    pub pixel_format: Option<PixelFormat>,
    /// Keep the as-in-bitstream orientation: `true` skips the re-orientation.
    /// Default `false`.
    pub skip_reorientation: Option<bool>,
    /// Unpremultiply colors by associated alpha channels. Default `false`.
    pub unpremul_alpha: Option<bool>,
    /// Render spot colors. Default `true`.
    pub render_spotcolors: Option<bool>,
    /// Coalesce zero-duration frames. Default `true`.
    pub coalescing: Option<bool>,
    /// Get boxes in decompressed mode. Default `false` (raw mode).
    pub decompress: Option<bool>,
    /// At which progressive steps in frame decoding the decoder pauses.
    pub progressive_detail: Option<JxlProgressiveDetail>,
    /// Whether the ICC profile is retrieved. Default `false`.
    pub icc_profile: bool,
    /// Initial buffer for JPEG reconstruction; larger buffers need fewer
    /// reallocations. Default 512 KiB.
    pub init_jpeg_buffer: usize,
}

/// What a decoding run does next after the decoder reports a status.
#[derive(Clone, Copy, Debug, PartialEq, Eq, Structural)]
pub enum DecodeAction {
    /// Read the basic info and hand it to the parallel runner.
    ReadBasicInfo,
    /// Read the ICC profile of the decoded data.
    ReadIccProfile,
    /// Hand the JPEG reconstruction buffer to the decoder.
    SetJpegBuffer,
    /// Size the image output buffer and hand it to the decoder.
    SetImageOutBuffer,
    /// Process more input.
    Continue,
    /// Decoding finished: collect the results.
    Finish,
}

/// The integer fields of the basic info that a decoding run reads.
#[derive(Clone, Copy, Debug, PartialEq, Eq, Structural)]
pub struct ImageInfo {
    /// Width of the image in pixels, before applying orientation.
    pub xsize: u32,
    /// Height of the image in pixels, before applying orientation.
    pub ysize: u32,
    /// Bits per sample of the color channels.
    pub bits_per_sample: u32,
    /// Floating point exponent bits, or 0 for unsigned integers.
    pub exponent_bits_per_sample: u32,
    /// Image orientation.
    pub orientation: JxlOrientation,
    /// Number of color channels (1 for gray, 3 for color).
    pub num_color_channels: u32,
    /// Bit depth of the alpha channel, or 0 if there is none.
    pub alpha_bits: u32,
    /// Intrinsic width of the image.
    pub intrinsic_xsize: u32,
    /// Intrinsic height of the image.
    pub intrinsic_ysize: u32,
}

/// What a decoding run reports of the image, besides its intensity range.
#[derive(Debug, PartialEq, Eq)]
pub struct DecodedMetadata {
    /// Width of the image.
    pub width: u32,
    /// Height of the image.
    pub height: u32,
    /// Orientation.
    pub orientation: JxlOrientation,
    /// Number of color channels per pixel without alpha channel.
    pub num_color_channels: u32,
    /// Whether the image has an alpha channel.
    pub has_alpha_channel: bool,
    /// Intrinsic width of the image.
    pub intrinsic_width: u32,
    /// Intrinsic height of the image.
    pub intrinsic_height: u32,
    /// ICC profile, when it was asked for.
    pub icc_profile: Option<Vec<u8>>,
}

/// A decoder option that a decoding run hands to the codec.
#[derive(Clone, Copy, Debug, PartialEq, Eq, Structural)]
pub enum DecoderOption {
    /// Keep the as-in-bitstream orientation.
    KeepOrientation(bool),
    /// Unpremultiply colors by associated alpha channels.
    UnpremultiplyAlpha(bool),
    /// Render spot colors.
    RenderSpotcolors(bool),
    /// Coalesce zero-duration frames.
    Coalescing(bool),
}

/// The one-element sequence of a set option, or the empty sequence.
pub open spec fn option_seq(o: Option<DecoderOption>) -> Seq<DecoderOption> {
    match o {
        Some(v) => seq![v],
        None => Seq::empty(),
    }
}

impl JxlDecoder {
    /// The ICC profile buffer a decoding run starts with: an empty buffer
    /// when the ICC profile is asked for, none otherwise.
    pub fn icc_profile_buffer(with_icc_profile: bool) -> (r: Option<Vec<u8>>)
        ensures
            r is Some <==> with_icc_profile,
            r matches Some(v) ==> v@.len() == 0,
    {
        if with_icc_profile {
            Some(Vec::new())
        } else {
            None
        }
    }

    /// Size the ICC profile buffer to the size the codec reports for the
    /// profile, before the codec fills it; the buffer stays present.
    pub fn size_icc_profile(icc_profile: &mut Option<Vec<u8>>, size: usize)
        requires
            old(icc_profile).is_some(),
        ensures
            final(icc_profile).is_some(),
            final(icc_profile).unwrap()@ == resized(old(icc_profile).unwrap()@, size as int),
    {
        match icc_profile {
            Some(buf) => resize_bytes(buf, size),
            None => {},
        }
    }

    /// Whether a reconstruction gives JPEG data: it does when the JPEG buffer
    /// holds bytes, else it falls back to pixels.
    pub fn reconstruction_is_jpeg(jpeg: &[u8]) -> (r: bool)
        ensures
            r == (jpeg@.len() > 0),
    {
        jpeg.len() > 0
    }

    /// The metadata of a decoded image: its size, orientation, color
    /// channels and intrinsic size as the basic info gives them, an alpha
    /// channel when the alpha bit depth is not 0, and the ICC profile.
    pub fn metadata(info: &ImageInfo, icc_profile: Option<Vec<u8>>) -> (r: DecodedMetadata)
        ensures
            r.width == info.xsize,
            r.height == info.ysize,
            r.orientation == info.orientation,
            r.num_color_channels == info.num_color_channels,
            r.has_alpha_channel == (info.alpha_bits > 0),
            r.intrinsic_width == info.intrinsic_xsize,
            r.intrinsic_height == info.intrinsic_ysize,
            r.icc_profile == icc_profile,
    {
        DecodedMetadata {
            width: info.xsize,
            height: info.ysize,
            orientation: info.orientation,
            num_color_channels: info.num_color_channels,
            has_alpha_channel: info.alpha_bits > 0,
            intrinsic_width: info.intrinsic_xsize,
            intrinsic_height: info.intrinsic_ysize,
            icc_profile,
        }
    }

    /// The keep-orientation option, when set.
    pub open spec fn spec_keep_orientation(self) -> Option<DecoderOption> {
        match self.skip_reorientation {
            Some(v) => Some(DecoderOption::KeepOrientation(v)),
            None => None,
        }
    }

    /// The unpremultiply-alpha option, when set.
    pub open spec fn spec_unpremultiply_alpha(self) -> Option<DecoderOption> {
        match self.unpremul_alpha {
            Some(v) => Some(DecoderOption::UnpremultiplyAlpha(v)),
            None => None,
        }
    }

    /// The render-spot-colors option, when set.
    pub open spec fn spec_render_spotcolors(self) -> Option<DecoderOption> {
        match self.render_spotcolors {
            Some(v) => Some(DecoderOption::RenderSpotcolors(v)),
            None => None,
        }
    }

    /// The coalescing option, when set.
    pub open spec fn spec_coalescing(self) -> Option<DecoderOption> {
        match self.coalescing {
            Some(v) => Some(DecoderOption::Coalescing(v)),
            None => None,
        }
    }

    /// The options a decoding run hands to the codec, in this order, each
    /// only when it is set: keep orientation, unpremultiply alpha, render
    /// spot colors, coalescing.
    pub open spec fn spec_codec_options(self) -> Seq<DecoderOption> {
        option_seq(self.spec_keep_orientation()) + option_seq(self.spec_unpremultiply_alpha())
            + option_seq(self.spec_render_spotcolors()) + option_seq(self.spec_coalescing())
    }

    /// Each option the decoder was built with reaches the codec with its
    /// value, and no option that was left unset does; there is at most one of
    /// each kind.
    pub proof fn lemma_codec_options(self, v: bool)
        ensures
            self.spec_codec_options().contains(DecoderOption::KeepOrientation(v))
                <==> self.skip_reorientation == Some(v),
            self.spec_codec_options().contains(DecoderOption::UnpremultiplyAlpha(v))
                <==> self.unpremul_alpha == Some(v),
            self.spec_codec_options().contains(DecoderOption::RenderSpotcolors(v))
                <==> self.render_spotcolors == Some(v),
            self.spec_codec_options().contains(DecoderOption::Coalescing(v)) <==> self.coalescing
                == Some(v),
            self.spec_codec_options().len() <= 4,
    {
        broadcast use vstd::seq_lib::lemma_seq_concat_contains_all_elements;

        let a = option_seq(self.spec_keep_orientation());
        let b = option_seq(self.spec_unpremultiply_alpha());
        let c = option_seq(self.spec_render_spotcolors());
        let e = option_seq(self.spec_coalescing());
        assert(a.contains(DecoderOption::KeepOrientation(v)) ==> a[0] == DecoderOption::KeepOrientation(v));
        assert(b.contains(DecoderOption::UnpremultiplyAlpha(v)) ==> b[0] == DecoderOption::UnpremultiplyAlpha(v));
        assert(c.contains(DecoderOption::RenderSpotcolors(v)) ==> c[0] == DecoderOption::RenderSpotcolors(v));
        assert(e.contains(DecoderOption::Coalescing(v)) ==> e[0] == DecoderOption::Coalescing(v));
        if self.skip_reorientation == Some(v) {
            assert(a[0] == DecoderOption::KeepOrientation(v));
        }
        if self.unpremul_alpha == Some(v) {
            assert(b[0] == DecoderOption::UnpremultiplyAlpha(v));
        }
        if self.render_spotcolors == Some(v) {
            assert(c[0] == DecoderOption::RenderSpotcolors(v));
        }
        if self.coalescing == Some(v) {
            assert(e[0] == DecoderOption::Coalescing(v));
        }
    }

    /// The options a decoding run hands to the codec.
    pub fn codec_options(&self) -> (r: Vec<DecoderOption>)
        ensures
            r@ == self.spec_codec_options(),
            forall|v: bool|
                #![trigger r@.contains(DecoderOption::KeepOrientation(v))]
                r@.contains(DecoderOption::KeepOrientation(v)) <==> self.skip_reorientation == Some(v),
            forall|v: bool|
                #![trigger r@.contains(DecoderOption::UnpremultiplyAlpha(v))]
                r@.contains(DecoderOption::UnpremultiplyAlpha(v)) <==> self.unpremul_alpha == Some(v),
            forall|v: bool|
                #![trigger r@.contains(DecoderOption::RenderSpotcolors(v))]
                r@.contains(DecoderOption::RenderSpotcolors(v)) <==> self.render_spotcolors == Some(v),
            forall|v: bool|
                #![trigger r@.contains(DecoderOption::Coalescing(v))]
                r@.contains(DecoderOption::Coalescing(v)) <==> self.coalescing == Some(v),
    {
        proof {
            self.lemma_codec_options(true);
            self.lemma_codec_options(false);
        }
        let mut r: Vec<DecoderOption> = Vec::new();
        match self.skip_reorientation {
            Some(v) => r.push(DecoderOption::KeepOrientation(v)),
            None => {},
        }
        assert(r@ =~= option_seq(self.spec_keep_orientation()));
        match self.unpremul_alpha {
            Some(v) => r.push(DecoderOption::UnpremultiplyAlpha(v)),
            None => {},
        }
        assert(r@ =~= option_seq(self.spec_keep_orientation()) + option_seq(
            self.spec_unpremultiply_alpha(),
        ));
        match self.render_spotcolors {
            Some(v) => r.push(DecoderOption::RenderSpotcolors(v)),
            None => {},
        }
        assert(r@ =~= option_seq(self.spec_keep_orientation()) + option_seq(
            self.spec_unpremultiply_alpha(),
        ) + option_seq(self.spec_render_spotcolors()));
        match self.coalescing {
            Some(v) => r.push(DecoderOption::Coalescing(v)),
            None => {},
        }
        assert(r@ =~= self.spec_codec_options());
        r
    }

    /// Check the input before decoding it: it must hold a complete and valid
    /// signature, else it is invalid input.
    pub fn check_input(data: &[u8]) -> (r: Result<(), DecodeError>)
        ensures
            r is Ok <==> spec_valid_signature(data@) == Some(true),
            r is Ok <==> (starts_with_codestream(data@) || starts_with_container(data@)),
            r is Err ==> r == Err::<(), DecodeError>(DecodeError::InvalidInput),
    {
        match check_valid_signature(data) {
            Some(true) => Ok(()),
            _ => Err(DecodeError::InvalidInput),
        }
    }

    /// The events a decoding run subscribes to: basic info and full image
    /// always, the color encoding when the ICC profile is wanted, JPEG
    /// reconstruction when a JPEG is to be reconstructed.
    pub open spec fn spec_subscribed_events(icc: bool, reconstruct_jpeg: bool) -> i32 {
        let base = JxlDecoderStatus::BasicInfo.spec_code() | JxlDecoderStatus::FullImage.spec_code();
        let with_icc = if icc {
            base | JxlDecoderStatus::ColorEncoding.spec_code()
        } else {
            base
        };
        if reconstruct_jpeg {
            with_icc | JxlDecoderStatus::JPEGReconstruction.spec_code()
        } else {
            with_icc
        }
    }

    /// The event mask a decoding run subscribes to.
    pub fn subscribed_events(icc: bool, reconstruct_jpeg: bool) -> (r: i32)
        ensures
            r == Self::spec_subscribed_events(icc, reconstruct_jpeg),
            r & JxlDecoderStatus::BasicInfo.spec_code() == JxlDecoderStatus::BasicInfo.spec_code(),
            r & JxlDecoderStatus::FullImage.spec_code() == JxlDecoderStatus::FullImage.spec_code(),
            (r & JxlDecoderStatus::ColorEncoding.spec_code()
                == JxlDecoderStatus::ColorEncoding.spec_code()) == icc,
            (r & JxlDecoderStatus::JPEGReconstruction.spec_code()
                == JxlDecoderStatus::JPEGReconstruction.spec_code()) == reconstruct_jpeg,
    {
        proof {
            lemma_subscribed_events(icc, reconstruct_jpeg);
        }
        let mut events = JxlDecoderStatus::BasicInfo.code() | JxlDecoderStatus::FullImage.code();
        if icc {
            events = events | JxlDecoderStatus::ColorEncoding.code();
        }
        if reconstruct_jpeg {
            events = events | JxlDecoderStatus::JPEGReconstruction.code();
        }
        events
    }

    /// The sample type for a bit depth, as a table: unsigned integers up to
    /// 8 bits are `u8`, up to 16 bits `u16`; 16-bit floats are half precision,
    /// 32-bit samples single precision; other depths are not supported.
    pub open spec fn output_data_type_result(bits_per_sample: u32, exponent_bits: u32) -> Result<
        JxlDataType,
        DecodeError,
    > {
        if exponent_bits == 0 && bits_per_sample <= 8 {
            Ok(JxlDataType::Uint8)
        } else if exponent_bits == 0 && bits_per_sample <= 16 {
            Ok(JxlDataType::Uint16)
        } else if bits_per_sample == 16 {
            Ok(JxlDataType::Float16)
        } else if bits_per_sample == 32 {
            Ok(JxlDataType::Float)
        } else {
            Err(DecodeError::UnsupportedBitWidth(bits_per_sample))
        }
    }

    /// The sample type of the output when none is asked for, chosen from the
    /// bit depth of the image: unsigned integers of up to 8 or 16 bits, half
    /// or single precision floats.
    pub open spec fn spec_output_data_type(bits_per_sample: u32, exponent_bits: u32) -> Result<
        JxlDataType,
        DecodeError,
    > {
        if exponent_bits == 0 && bits_per_sample <= 8 {
            Ok(JxlDataType::Uint8)
        } else if exponent_bits == 0 && bits_per_sample <= 16 {
            Ok(JxlDataType::Uint16)
        } else if bits_per_sample == 16 {
            Ok(JxlDataType::Float16)
        } else if bits_per_sample == 32 {
            Ok(JxlDataType::Float)
        } else {
            Err(DecodeError::UnsupportedBitWidth(bits_per_sample))
        }
    }

    /// The sample type of the output when none is asked for.
    pub fn output_data_type(bits_per_sample: u32, exponent_bits: u32) -> (r: Result<
        JxlDataType,
        DecodeError,
    >)
        ensures
            r == Self::spec_output_data_type(bits_per_sample, exponent_bits),
            exponent_bits == 0 && bits_per_sample <= 8 ==> r == Ok::<JxlDataType, DecodeError>(
                JxlDataType::Uint8,
            ),
            exponent_bits == 0 && 8 < bits_per_sample <= 16 ==> r == Ok::<JxlDataType, DecodeError>(
                JxlDataType::Uint16,
            ),
            exponent_bits != 0 && bits_per_sample == 16 ==> r == Ok::<JxlDataType, DecodeError>(
                JxlDataType::Float16,
            ),
            bits_per_sample == 32 ==> r == Ok::<JxlDataType, DecodeError>(JxlDataType::Float),
            !(bits_per_sample <= 16 || bits_per_sample == 32) || (exponent_bits != 0
                && bits_per_sample != 16 && bits_per_sample != 32) ==> r == Err::<
                JxlDataType,
                DecodeError,
            >(DecodeError::UnsupportedBitWidth(bits_per_sample)),
    {
        if exponent_bits == 0 && bits_per_sample <= 8 {
            Ok(JxlDataType::Uint8)
        } else if exponent_bits == 0 && bits_per_sample <= 16 {
            Ok(JxlDataType::Uint16)
        } else if bits_per_sample == 16 {
            Ok(JxlDataType::Float16)
        } else if bits_per_sample == 32 {
            Ok(JxlDataType::Float)
        } else {
            Err(DecodeError::UnsupportedBitWidth(bits_per_sample))
        }
    }

    /// The requested pixel format, or the default one.
    pub open spec fn spec_requested_format(self) -> PixelFormat {
        match self.pixel_format {
            Some(f) => f,
            None => PixelFormat { num_channels: 0, endianness: Endianness::Native, align: 0 },
        }
    }

    /// The pixel format of the image output buffer: the requested sample
    /// type or the one the bit depth calls for; the requested number of
    /// channels, or when it is 0 the color channels plus one for alpha; the
    /// requested endianness and alignment.
    pub open spec fn spec_output_pixel_format(
        self,
        data_type: Option<JxlDataType>,
        bits_per_sample: u32,
        exponent_bits: u32,
        num_color_channels: u32,
        alpha_bits: u32,
    ) -> Result<JxlPixelFormat, DecodeError> {
        let f = self.spec_requested_format();
        let dt = match data_type {
            Some(v) => Ok(v),
            None => Self::spec_output_data_type(bits_per_sample, exponent_bits),
        };
        match dt {
            Err(e) => Err(e),
            Ok(dt) => Ok(
                JxlPixelFormat {
                    num_channels: if f.num_channels == 0 {
                        (num_color_channels + if alpha_bits > 0 {
                            1u32
                        } else {
                            0u32
                        }) as u32
                    } else {
                        f.num_channels
                    },
                    data_type: dt,
                    endianness: f.endianness,
                    align: f.align,
                },
            ),
        }
    }

    /// The pixel format of the image output buffer, from the requested
    /// sample type (if any) and the basic info of the image.
    pub fn output_pixel_format(
        &self,
        data_type: Option<JxlDataType>,
        bits_per_sample: u32,
        exponent_bits: u32,
        num_color_channels: u32,
        alpha_bits: u32,
    ) -> (r: Result<JxlPixelFormat, DecodeError>)
        requires
            self.spec_requested_format().num_channels == 0 ==> num_color_channels < u32::MAX,
        ensures
            r == self.spec_output_pixel_format(
                data_type,
                bits_per_sample,
                exponent_bits,
                num_color_channels,
                alpha_bits,
            ),
            data_type is Some ==> r is Ok,
            r matches Ok(pf) ==> {
                &&& data_type matches Some(d) ==> pf.data_type == d
                &&& data_type is None ==> Ok::<JxlDataType, DecodeError>(pf.data_type)
                    == Self::output_data_type_result(bits_per_sample, exponent_bits)
                &&& (match self.pixel_format {
                    Some(f) => f.num_channels == 0,
                    None => true,
                }) ==> pf.num_channels == num_color_channels + (if alpha_bits > 0 {
                    1int
                } else {
                    0int
                })
                &&& self.pixel_format matches Some(f) ==> (f.num_channels != 0 ==> pf.num_channels
                    == f.num_channels)
                &&& self.pixel_format matches Some(f) ==> pf.endianness == f.endianness
                    && pf.align == f.align
                &&& self.pixel_format is None ==> pf.endianness == Endianness::Native
                    && pf.align == 0
            },
            r matches Err(e) ==> data_type is None && Err::<JxlDataType, DecodeError>(e)
                == Self::output_data_type_result(bits_per_sample, exponent_bits),
    {
        let dt = match data_type {
            Some(v) => v,
            None => match Self::output_data_type(bits_per_sample, exponent_bits) {
                Ok(v) => v,
                Err(e) => {
                    return Err(e);
                },
            },
        };
        let f = match self.pixel_format {
            Some(f) => f,
            None => PixelFormat::default(),
        };
        let num_channels = if f.num_channels == 0 {
            num_color_channels + if alpha_bits > 0 {
                1u32
            } else {
                0u32
            }
        } else {
            f.num_channels
        };
        Ok(JxlPixelFormat { num_channels, data_type: dt, endianness: f.endianness, align: f.align })
    }

    /// Whether a decoding run can meet the status: the statuses it does not
    /// subscribe to, or does not handle, never come.
    pub open spec fn status_expected(
        status: JxlDecoderStatus,
        icc: bool,
        reconstruct_jpeg: bool,
    ) -> bool {
        match status {
            JxlDecoderStatus::ColorEncoding => icc,
            JxlDecoderStatus::JPEGReconstruction | JxlDecoderStatus::JPEGNeedMoreOutput =>
                reconstruct_jpeg,
            JxlDecoderStatus::NeedPreviewOutBuffer | JxlDecoderStatus::BoxNeedMoreOutput
            | JxlDecoderStatus::PreviewImage | JxlDecoderStatus::Frame | JxlDecoderStatus::Box
            | JxlDecoderStatus::FrameProgression | JxlDecoderStatus::BoxComplete => false,
            _ => true,
        }
    }

    /// The action of a decoding run on a status.
    pub open spec fn spec_decode_action(status: JxlDecoderStatus) -> Result<
        DecodeAction,
        DecodeError,
    > {
        match status {
            JxlDecoderStatus::NeedMoreInput | JxlDecoderStatus::Error => Err(
                DecodeError::GenericError,
            ),
            JxlDecoderStatus::BasicInfo => Ok(DecodeAction::ReadBasicInfo),
            JxlDecoderStatus::ColorEncoding => Ok(DecodeAction::ReadIccProfile),
            JxlDecoderStatus::JPEGReconstruction | JxlDecoderStatus::JPEGNeedMoreOutput => Ok(
                DecodeAction::SetJpegBuffer,
            ),
            JxlDecoderStatus::NeedImageOutBuffer => Ok(DecodeAction::SetImageOutBuffer),
            JxlDecoderStatus::FullImage => Ok(DecodeAction::Continue),
            _ => Ok(DecodeAction::Finish),
        }
    }

    /// The JPEG reconstruction buffer after the action on a status; `released`
    /// is the number of bytes of the buffer the decoder has not written,
    /// which the decoder reports when it releases the buffer.
    pub open spec fn spec_jpeg_buffer_after(
        self,
        status: JxlDecoderStatus,
        jpeg: Option<Seq<u8>>,
        released: usize,
    ) -> Option<Seq<u8>> {
        match jpeg {
            None => None,
            Some(buf) => Some(
                match status {
                    JxlDecoderStatus::JPEGReconstruction => resized(
                        buf,
                        self.init_jpeg_buffer as int,
                    ),
                    JxlDecoderStatus::JPEGNeedMoreOutput => resized(buf, buf.len() + released),
                    JxlDecoderStatus::Success => resized(buf, buf.len() - released),
                    _ => buf,
                },
            ),
        }
    }

    /// One step of a decoding run: the action on the status the decoder
    /// reported, and the update of the JPEG reconstruction buffer (grown by
    /// the bytes the decoder still needs, or cut to the bytes it wrote at the
    /// end).
    pub fn decode_step(
        &self,
        status: JxlDecoderStatus,
        icc: bool,
        jpeg: &mut Option<Vec<u8>>,
        released: usize,
    ) -> (r: Result<DecodeAction, DecodeError>)
        requires
            Self::status_expected(status, icc, old(jpeg).is_some()),
            status == JxlDecoderStatus::JPEGNeedMoreOutput ==> old(jpeg).unwrap()@.len() + released
                <= usize::MAX,
            status == JxlDecoderStatus::Success && old(jpeg).is_some() ==> released <= old(
                jpeg,
            ).unwrap()@.len(),
        ensures
            r == Self::spec_decode_action(status),
            (status == JxlDecoderStatus::Error || status == JxlDecoderStatus::NeedMoreInput) ==> r
                == Err::<DecodeAction, DecodeError>(DecodeError::GenericError),
            status == JxlDecoderStatus::BasicInfo ==> r == Ok::<DecodeAction, DecodeError>(
                DecodeAction::ReadBasicInfo,
            ),
            status == JxlDecoderStatus::ColorEncoding ==> r == Ok::<DecodeAction, DecodeError>(
                DecodeAction::ReadIccProfile,
            ),
            (status == JxlDecoderStatus::JPEGReconstruction || status
                == JxlDecoderStatus::JPEGNeedMoreOutput) ==> r == Ok::<DecodeAction, DecodeError>(
                DecodeAction::SetJpegBuffer,
            ),
            status == JxlDecoderStatus::NeedImageOutBuffer ==> r == Ok::<DecodeAction, DecodeError>(
                DecodeAction::SetImageOutBuffer,
            ),
            status == JxlDecoderStatus::FullImage ==> r == Ok::<DecodeAction, DecodeError>(
                DecodeAction::Continue,
            ),
            status == JxlDecoderStatus::Success ==> r == Ok::<DecodeAction, DecodeError>(
                DecodeAction::Finish,
            ),
            old(jpeg).is_none() ==> final(jpeg).is_none(),
            old(jpeg).is_some() ==> final(jpeg).is_some(),
            status == JxlDecoderStatus::JPEGReconstruction && old(jpeg).is_some()
                ==> final(jpeg).unwrap()@.len() == self.init_jpeg_buffer,
            status == JxlDecoderStatus::JPEGNeedMoreOutput ==> {
                &&& final(jpeg).unwrap()@.len() == old(jpeg).unwrap()@.len() + released
                &&& final(jpeg).unwrap()@.subrange(0, old(jpeg).unwrap()@.len() as int)
                    == old(jpeg).unwrap()@
            },
            status == JxlDecoderStatus::Success && old(jpeg).is_some() ==> final(jpeg).unwrap()@
                == old(jpeg).unwrap()@.subrange(0, old(jpeg).unwrap()@.len() - released),
            r is Err ==> *final(jpeg) == *old(jpeg),
            r is Ok ==> (match *final(jpeg) {
                Some(v) => Some(v@),
                None => None,
            }) == self.spec_jpeg_buffer_after(
                status,
                match *old(jpeg) {
                    Some(v) => Some(v@),
                    None => None,
                },
                released,
            ),
    {
        match status {
            JxlDecoderStatus::NeedMoreInput | JxlDecoderStatus::Error => Err(
                DecodeError::GenericError,
            ),
            JxlDecoderStatus::BasicInfo => Ok(DecodeAction::ReadBasicInfo),
            JxlDecoderStatus::ColorEncoding => Ok(DecodeAction::ReadIccProfile),
            JxlDecoderStatus::JPEGReconstruction => {
                match jpeg {
                    Some(buf) => resize_bytes(buf, self.init_jpeg_buffer),
                    None => {},
                }
                Ok(DecodeAction::SetJpegBuffer)
            },
            JxlDecoderStatus::JPEGNeedMoreOutput => {
                match jpeg {
                    Some(buf) => {
                        let n = buf.len() + released;
                        resize_bytes(buf, n);
                    },
                    None => {},
                }
                Ok(DecodeAction::SetJpegBuffer)
            },
            JxlDecoderStatus::NeedImageOutBuffer => Ok(DecodeAction::SetImageOutBuffer),
            JxlDecoderStatus::FullImage => Ok(DecodeAction::Continue),
            _ => {
                match jpeg {
                    Some(buf) => {
                        let n = buf.len() - released;
                        resize_bytes(buf, n);
                    },
                    None => {},
                }
                Ok(DecodeAction::Finish)
            },
        }
    }
}

/// The output pixel format depends on the decoder only through its
/// requested format, and on that only through its fields: asking for the
/// default format is asking for nothing.
pub proof fn lemma_output_format_default(
    d1: JxlDecoder,
    d2: JxlDecoder,
    data_type: Option<JxlDataType>,
    bits_per_sample: u32,
    exponent_bits: u32,
    num_color_channels: u32,
    alpha_bits: u32,
)
    requires
        d1.pixel_format is None,
        d2.pixel_format matches Some(g) && g.num_channels == 0 && g.endianness
            == Endianness::Native && g.align == 0,
    ensures
        d1.spec_output_pixel_format(
            data_type,
            bits_per_sample,
            exponent_bits,
            num_color_channels,
            alpha_bits,
        ) == d2.spec_output_pixel_format(
            data_type,
            bits_per_sample,
            exponent_bits,
            num_color_channels,
            alpha_bits,
        ),
{
}

/// A requested channel count of 0 means the color channels plus one for an
/// alpha channel; any other count is kept; the requested byte order and
/// alignment are kept; a requested sample type is kept and always succeeds;
/// without one, the sample type follows the bit depth.
pub proof fn lemma_output_pixel_format(
    d: JxlDecoder,
    f: PixelFormat,
    data_type: Option<JxlDataType>,
    bits_per_sample: u32,
    exponent_bits: u32,
    num_color_channels: u32,
    alpha_bits: u32,
)
    requires
        d.pixel_format == Some(f),
    ensures
        data_type is Some ==> d.spec_output_pixel_format(
            data_type,
            bits_per_sample,
            exponent_bits,
            num_color_channels,
            alpha_bits,
        ) is Ok,
        d.spec_output_pixel_format(
            data_type,
            bits_per_sample,
            exponent_bits,
            num_color_channels,
            alpha_bits,
        ) matches Ok(pf) ==> pf.endianness == f.endianness && pf.align == f.align && (f.num_channels
            != 0 ==> pf.num_channels == f.num_channels) && (f.num_channels == 0 ==> pf.num_channels
            == (num_color_channels + (if alpha_bits > 0 {
            1int
        } else {
            0int
        })) as u32) && (data_type matches Some(t) ==> pf.data_type == t),
        data_type is None && exponent_bits == 0 && bits_per_sample <= 8 ==> d.spec_output_pixel_format(
            data_type,
            bits_per_sample,
            exponent_bits,
            num_color_channels,
            alpha_bits,
        ).unwrap().data_type == JxlDataType::Uint8,
        data_type is None && exponent_bits == 0 && 8 < bits_per_sample <= 16
            ==> d.spec_output_pixel_format(
            data_type,
            bits_per_sample,
            exponent_bits,
            num_color_channels,
            alpha_bits,
        ).unwrap().data_type == JxlDataType::Uint16,
{
}

/// A decoder built from any builder has the settings that were set, and
/// the defaults (no ICC profile, a 512 KiB JPEG buffer, everything else left
/// to the codec) for the others.
pub proof fn lemma_decoder_build(b: JxlDecoderBuilder)
    ensures
        b.spec_build().pixel_format == b.pixel_format,
        b.spec_build().skip_reorientation == b.skip_reorientation,
        b.spec_build().coalescing == b.coalescing,
        b.icc_profile matches Some(v) ==> b.spec_build().icc_profile == v,
        b.init_jpeg_buffer matches Some(v) ==> b.spec_build().init_jpeg_buffer == v,
        b.unset() ==> b.spec_build() == (JxlDecoder {
            pixel_format: None,
            skip_reorientation: None,
            unpremul_alpha: None,
            render_spotcolors: None,
            coalescing: None,
            decompress: None,
            progressive_detail: None,
            icc_profile: false,
            init_jpeg_buffer: DEFAULT_JPEG_BUFFER_SIZE,
        }),
{
}

/// The subscription mask always holds the basic info and full image events;
/// it holds the color encoding event exactly when the ICC profile is wanted
/// and the JPEG reconstruction event exactly when a JPEG is reconstructed.
pub proof fn lemma_subscribed_events(icc: bool, reconstruct_jpeg: bool)
    ensures
        JxlDecoder::spec_subscribed_events(icc, reconstruct_jpeg) & 0x40 == 0x40,
        JxlDecoder::spec_subscribed_events(icc, reconstruct_jpeg) & 0x1000 == 0x1000,
        (JxlDecoder::spec_subscribed_events(icc, reconstruct_jpeg) & 0x100 == 0x100) == icc,
        (JxlDecoder::spec_subscribed_events(icc, reconstruct_jpeg) & 0x2000 == 0x2000)
            == reconstruct_jpeg,
{
    let m = JxlDecoder::spec_subscribed_events(icc, reconstruct_jpeg);
    let base = 0x40i32 | 0x1000i32;
    let with_icc = if icc {
        base | 0x100i32
    } else {
        base
    };
    assert(m == if reconstruct_jpeg {
        with_icc | 0x2000i32
    } else {
        with_icc
    });
    assert(m & 0x40 == 0x40 && m & 0x1000 == 0x1000 && (m & 0x100 == 0x100) == icc && (m & 0x2000
        == 0x2000) == reconstruct_jpeg) by (bit_vector)
        requires
            m == if reconstruct_jpeg {
                (if icc {
                    (0x40i32 | 0x1000i32) | 0x100i32
                } else {
                    0x40i32 | 0x1000i32
                }) | 0x2000i32
            } else {
                if icc {
                    (0x40i32 | 0x1000i32) | 0x100i32
                } else {
                    0x40i32 | 0x1000i32
                }
            },
    ;
}

} // verus!
