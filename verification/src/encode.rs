//! Encoder of the JPEG XL format: the encoder settings, their builder, and
//! the decisions the encoder takes while it sets up and collects output.

use core::marker::PhantomData;

use vstd::prelude::*;

use crate::common::PixelType;
use crate::errors::EncodeError;
use crate::types::{JxlBool, JxlBoxType, JxlEncoderError, JxlEncoderStatus};

mod frame;
mod metadata;
mod options;

pub use frame::{
    default_blend_info, default_frame_header, BlendInfo, BlendMode, EncoderFrame, FrameHeader,
    LayerInfo,
};
pub use metadata::Metadata;
pub use options::{ColorEncoding, EncoderSpeed};

verus! {

/// Encoder result.
pub struct EncoderResult<U: PixelType> {
    /// Output binary data.
    pub data: Vec<u8>,
    _pixel_type: PhantomData<U>,
}

impl<U: PixelType> EncoderResult<U> {
    /// The output bytes.
    pub closed spec fn spec_data(&self) -> Seq<u8> {
        self.data@
    }

    /// The result of an encoding run: the `written` bytes of its output
    /// buffer.
    pub fn from_output(buffer: Vec<u8>, written: usize) -> (r: Self)
        requires
            written <= buffer@.len(),
        ensures
            r.spec_data() == buffer@.subrange(0, written as int),
    {
        let mut data = buffer;
        finish_output(&mut data, written);
        EncoderResult { data, _pixel_type: PhantomData }
    }
}

impl<U: PixelType> core::ops::Deref for EncoderResult<U> {
    type Target = [u8];

    fn deref(&self) -> (r: &[u8])
        ensures
            r@ == self.spec_data(),
    {
        self.data.as_slice()
    }
}

/// Default initial output buffer size: 512 KiB.
pub const DEFAULT_OUTPUT_BUFFER_SIZE: usize = 524288;

/// Smallest initial output buffer size: smaller requests are rounded up.
pub const MIN_OUTPUT_BUFFER_SIZE: usize = 32;

/// Builder of a [`JxlEncoder`]: every setting left unset takes its default.
#[derive(Clone, Copy, Debug)]
pub struct JxlEncoderBuilder {
    pub has_alpha: Option<bool>,
    pub lossless: Option<bool>,
    pub speed: Option<EncoderSpeed>,
    pub use_container: Option<bool>,
    pub uses_original_profile: Option<bool>,
    pub decoding_speed: Option<i64>,
    pub init_buffer_size: Option<usize>,
    pub color_encoding: Option<ColorEncoding>,
    pub use_box: Option<bool>,
}

impl Default for JxlEncoderBuilder {
    fn default() -> (r: Self)
        ensures
            r.unset(),
    {
        JxlEncoderBuilder {
            has_alpha: None,
            lossless: None,
            speed: None,
            use_container: None,
            uses_original_profile: None,
            decoding_speed: None,
            init_buffer_size: None,
            color_encoding: None,
            use_box: None,
        }
    }
}

/// Settings of a JPEG XL encoder.
#[derive(Clone, Copy, Debug, PartialEq, Eq, Structural)]
pub struct JxlEncoder {
    /// Set alpha channel. Default `false`.
    pub has_alpha: bool,
    /// Set lossless. Default `false`.
    pub lossless: bool,
    /// Set speed. Default [`EncoderSpeed::Squirrel`] (7).
    pub speed: EncoderSpeed,
    /// Use the JPEG XL container format. Default `false`.
    pub use_container: bool,
    /// Use the original color profile. Default `false`.
    pub uses_original_profile: bool,
    /// Decoding speed tier, from 0 (highest quality) to 4. Default 0.
    pub decoding_speed: i64,
    /// Initial output buffer size in bytes, at least 32. Default 512 KiB.
    pub init_buffer_size: usize,
    /// Color encoding. Default sRGB.
    pub color_encoding: ColorEncoding,
    /// Whether boxes are enabled in the encoder.
    pub use_box: bool,
}

impl JxlEncoderBuilder {
    /// No setting is set.
    pub open spec fn unset(self) -> bool {
        &&& self.has_alpha is None
        &&& self.lossless is None
        &&& self.speed is None
        &&& self.use_container is None
        &&& self.uses_original_profile is None
        &&& self.decoding_speed is None
        &&& self.init_buffer_size is None
        &&& self.color_encoding is None
        &&& self.use_box is None
    }

    /// The initial output buffer size of a requested one: 512 KiB when none
    /// is requested, otherwise at least 32.
    pub open spec fn spec_buffer_size(requested: Option<usize>) -> usize {
        match requested {
            None => DEFAULT_OUTPUT_BUFFER_SIZE,
            Some(v) => if v < MIN_OUTPUT_BUFFER_SIZE {
                MIN_OUTPUT_BUFFER_SIZE
            } else {
                v
            },
        }
    }

    /// The encoder that the builder describes: the settings that were set,
    /// the defaults for the others.
    pub open spec fn spec_build(self) -> JxlEncoder {
        JxlEncoder {
            has_alpha: match self.has_alpha {
                Some(v) => v,
                None => false,
            },
            lossless: match self.lossless {
                Some(v) => v,
                None => false,
            },
            speed: match self.speed {
                Some(v) => v,
                None => EncoderSpeed::Squirrel,
            },
            use_container: match self.use_container {
                Some(v) => v,
                None => false,
            },
            uses_original_profile: match self.uses_original_profile {
                Some(v) => v,
                None => false,
            },
            decoding_speed: match self.decoding_speed {
                Some(v) => v,
                None => 0,
            },
            init_buffer_size: Self::spec_buffer_size(self.init_buffer_size),
            color_encoding: match self.color_encoding {
                Some(v) => v,
                None => ColorEncoding::Srgb,
            },
            use_box: match self.use_box {
                Some(v) => v,
                None => false,
            },
        }
    }

    /// Build a [`JxlEncoder`] from the settings.
    pub fn build(&self) -> (r: JxlEncoder)
        ensures
            r == self.spec_build(),
            self.has_alpha matches Some(x) ==> r.has_alpha == x,
            self.has_alpha is None ==> !r.has_alpha,
            self.lossless matches Some(x) ==> r.lossless == x,
            self.lossless is None ==> !r.lossless,
            self.speed matches Some(x) ==> r.speed == x,
            self.speed is None ==> r.speed == EncoderSpeed::Squirrel,
            self.use_container matches Some(x) ==> r.use_container == x,
            self.use_container is None ==> !r.use_container,
            self.uses_original_profile matches Some(x) ==> r.uses_original_profile == x,
            self.uses_original_profile is None ==> !r.uses_original_profile,
            self.decoding_speed matches Some(x) ==> r.decoding_speed == x,
            self.decoding_speed is None ==> r.decoding_speed == 0,
            self.init_buffer_size matches Some(x) ==> r.init_buffer_size == (if x < 32 {
                32
            } else {
                x
            }),
            self.init_buffer_size is None ==> r.init_buffer_size == 524288,
            self.color_encoding matches Some(x) ==> r.color_encoding == x,
            self.color_encoding is None ==> r.color_encoding == ColorEncoding::Srgb,
            self.use_box matches Some(x) ==> r.use_box == x,
            self.use_box is None ==> !r.use_box,
    {
        let init_buffer_size = match self.init_buffer_size {
            None => DEFAULT_OUTPUT_BUFFER_SIZE,
            Some(v) => if v < MIN_OUTPUT_BUFFER_SIZE {
                MIN_OUTPUT_BUFFER_SIZE
            } else {
                v
            },
        };
        JxlEncoder {
            has_alpha: match self.has_alpha {
                Some(v) => v,
                None => false,
            },
            lossless: match self.lossless {
                Some(v) => v,
                None => false,
            },
            speed: match self.speed {
                Some(v) => v,
                None => EncoderSpeed::default(),
            },
            use_container: match self.use_container {
                Some(v) => v,
                None => false,
            },
            uses_original_profile: match self.uses_original_profile {
                Some(v) => v,
                None => false,
            },
            decoding_speed: match self.decoding_speed {
                Some(v) => v,
                None => 0,
            },
            init_buffer_size,
            color_encoding: match self.color_encoding {
                Some(v) => v,
                None => ColorEncoding::Srgb,
            },
            use_box: match self.use_box {
                Some(v) => v,
                None => false,
            },
        }
    }

    /// Set alpha channel.
    pub fn has_alpha(&mut self, value: bool) -> (r: &mut Self)
        ensures
            *final(self) == *final(r),
            *r == (JxlEncoderBuilder { has_alpha: Some(value), ..*old(self) }),
    {
        self.has_alpha = Some(value);
        self
    }

    /// Set lossless.
    pub fn lossless(&mut self, value: bool) -> (r: &mut Self)
        ensures
            *final(self) == *final(r),
            *r == (JxlEncoderBuilder { lossless: Some(value), ..*old(self) }),
    {
        self.lossless = Some(value);
        self
    }

    /// Set speed.
    pub fn speed(&mut self, value: EncoderSpeed) -> (r: &mut Self)
        ensures
            *final(self) == *final(r),
            *r == (JxlEncoderBuilder { speed: Some(value), ..*old(self) }),
    {
        self.speed = Some(value);
        self
    }

    /// Use the JPEG XL container format.
    pub fn use_container(&mut self, value: bool) -> (r: &mut Self)
        ensures
            *final(self) == *final(r),
            *r == (JxlEncoderBuilder { use_container: Some(value), ..*old(self) }),
    {
        self.use_container = Some(value);
        self
    }

    /// Use the original color profile.
    pub fn uses_original_profile(&mut self, value: bool) -> (r: &mut Self)
        ensures
            *final(self) == *final(r),
            *r == (JxlEncoderBuilder { uses_original_profile: Some(value), ..*old(self) }),
    {
        self.uses_original_profile = Some(value);
        self
    }

    /// Set the decoding speed tier.
    pub fn decoding_speed(&mut self, value: i64) -> (r: &mut Self)
        ensures
            *final(self) == *final(r),
            *r == (JxlEncoderBuilder { decoding_speed: Some(value), ..*old(self) }),
    {
        self.decoding_speed = Some(value);
        self
    }

    /// Set the initial output buffer size in bytes.
    pub fn init_buffer_size(&mut self, value: usize) -> (r: &mut Self)
        ensures
            *final(self) == *final(r),
            *r == (JxlEncoderBuilder { init_buffer_size: Some(value), ..*old(self) }),
    {
        self.init_buffer_size = Some(value);
        self
    }

    /// Set color encoding.
    pub fn color_encoding(&mut self, value: ColorEncoding) -> (r: &mut Self)
        ensures
            *final(self) == *final(r),
            *r == (JxlEncoderBuilder { color_encoding: Some(value), ..*old(self) }),
    {
        self.color_encoding = Some(value);
        self
    }

    /// Set whether boxes are enabled.
    pub fn use_box(&mut self, value: bool) -> (r: &mut Self)
        ensures
            *final(self) == *final(r),
            *r == (JxlEncoderBuilder { use_box: Some(value), ..*old(self) }),
    {
        self.use_box = Some(value);
        self
    }
}

/// Return a [`JxlEncoderBuilder`] with default settings.
pub fn encoder_builder() -> (r: JxlEncoderBuilder)
    ensures
        r.unset(),
{
    JxlEncoderBuilder::default()
}

/// The integer fields of the basic info the encoder sets up for an image.
#[derive(Clone, Copy, Debug, PartialEq, Eq, Structural)]
pub struct EncoderBasicInfo {
    pub xsize: u32,
    pub ysize: u32,
    pub have_container: JxlBool,
    pub uses_original_profile: JxlBool,
    pub bits_per_sample: u32,
    pub exponent_bits_per_sample: u32,
    pub num_color_channels: u32,
    pub num_extra_channels: u32,
    pub alpha_bits: u32,
    pub alpha_exponent_bits: u32,
}

/// The JPEG XL boolean of a `bool`.
pub open spec fn jxl_bool(b: bool) -> JxlBool {
    if b {
        JxlBool::True
    } else {
        JxlBool::False
    }
}

impl JxlEncoder {
    /// The error that an encoder status maps to.
    pub open spec fn spec_check_enc_status(status: JxlEncoderStatus, error: JxlEncoderError) -> Result<
        (),
        EncodeError,
    > {
        match status {
            JxlEncoderStatus::Success => Ok(()),
            JxlEncoderStatus::NeedMoreOutput => Err(EncodeError::NeedMoreOutput),
            JxlEncoderStatus::Error => match error {
                JxlEncoderError::Generic => Err(EncodeError::GenericError),
                JxlEncoderError::OutOfMemory => Err(EncodeError::OutOfMemory),
                JxlEncoderError::Jbrd => Err(EncodeError::Jbrd),
                JxlEncoderError::BadInput => Err(EncodeError::BadInput),
                JxlEncoderError::NotSupported => Err(EncodeError::NotSupported),
                _ => Err(EncodeError::ApiUsage),
            },
        }
    }

    /// Error mapping from an encoder status, and the error the encoder
    /// reports with the error status, to [`EncodeError`].
    pub fn check_enc_status(&self, status: JxlEncoderStatus, error: JxlEncoderError) -> (r: Result<
        (),
        EncodeError,
    >)
        requires
            status == JxlEncoderStatus::Error ==> error != JxlEncoderError::OK,
        ensures
            r == Self::spec_check_enc_status(status, error),
            r is Ok <==> status == JxlEncoderStatus::Success,
            status == JxlEncoderStatus::NeedMoreOutput ==> r == Err::<(), EncodeError>(
                EncodeError::NeedMoreOutput,
            ),
            status == JxlEncoderStatus::Error ==> r == Err::<(), EncodeError>(
                match error {
                    JxlEncoderError::Generic => EncodeError::GenericError,
                    JxlEncoderError::OutOfMemory => EncodeError::OutOfMemory,
                    JxlEncoderError::Jbrd => EncodeError::Jbrd,
                    JxlEncoderError::BadInput => EncodeError::BadInput,
                    JxlEncoderError::NotSupported => EncodeError::NotSupported,
                    _ => EncodeError::ApiUsage,
                },
            ),
    {
        match status {
            JxlEncoderStatus::Success => Ok(()),
            JxlEncoderStatus::Error => match error {
                JxlEncoderError::Generic => Err(EncodeError::GenericError),
                JxlEncoderError::OutOfMemory => Err(EncodeError::OutOfMemory),
                JxlEncoderError::Jbrd => Err(EncodeError::Jbrd),
                JxlEncoderError::BadInput => Err(EncodeError::BadInput),
                JxlEncoderError::NotSupported => Err(EncodeError::NotSupported),
                JxlEncoderError::ApiUsage => Err(EncodeError::ApiUsage),
                JxlEncoderError::OK => Err(EncodeError::ApiUsage),
            },
            JxlEncoderStatus::NeedMoreOutput => Err(EncodeError::NeedMoreOutput),
        }
    }

    /// The basic info of an image of the given size and sample bits: the
    /// container and profile settings of the encoder; alpha with the sample
    /// bits when the image has it, else none; one color channel for the luma
    /// encodings, else three.
    pub open spec fn spec_basic_info(
        self,
        width: u32,
        height: u32,
        bits: (u32, u32),
        has_alpha: bool,
    ) -> EncoderBasicInfo {
        EncoderBasicInfo {
            xsize: width,
            ysize: height,
            have_container: jxl_bool(self.use_container),
            uses_original_profile: jxl_bool(self.uses_original_profile),
            bits_per_sample: bits.0,
            exponent_bits_per_sample: bits.1,
            num_color_channels: if self.color_encoding.spec_is_luma() {
                1
            } else {
                3
            },
            num_extra_channels: if has_alpha {
                1
            } else {
                0
            },
            alpha_bits: if has_alpha {
                bits.0
            } else {
                0
            },
            alpha_exponent_bits: if has_alpha {
                bits.1
            } else {
                0
            },
        }
    }

    /// The basic info the encoder sets up for an image.
    pub fn basic_info(&self, width: u32, height: u32, bits: (u32, u32), has_alpha: bool) -> (r:
        EncoderBasicInfo)
        ensures
            r == self.spec_basic_info(width, height, bits, has_alpha),
            r.xsize == width,
            r.ysize == height,
            r.have_container == (if self.use_container {
                JxlBool::True
            } else {
                JxlBool::False
            }),
            r.uses_original_profile == (if self.uses_original_profile {
                JxlBool::True
            } else {
                JxlBool::False
            }),
            r.bits_per_sample == bits.0,
            r.exponent_bits_per_sample == bits.1,
            has_alpha ==> r.num_extra_channels == 1 && r.alpha_bits == bits.0
                && r.alpha_exponent_bits == bits.1,
            !has_alpha ==> r.num_extra_channels == 0 && r.alpha_bits == 0 && r.alpha_exponent_bits
                == 0,
            (self.color_encoding == ColorEncoding::SrgbLuma || self.color_encoding
                == ColorEncoding::LinearSrgbLuma) ==> r.num_color_channels == 1,
            (self.color_encoding == ColorEncoding::Srgb || self.color_encoding
                == ColorEncoding::LinearSrgb) ==> r.num_color_channels == 3,
    {
        let (bits_per_sample, exp) = bits;
        let mut info = EncoderBasicInfo {
            xsize: width,
            ysize: height,
            have_container: JxlBool::from(self.use_container),
            uses_original_profile: JxlBool::from(self.uses_original_profile),
            bits_per_sample,
            exponent_bits_per_sample: exp,
            num_color_channels: 3,
            num_extra_channels: 0,
            alpha_bits: 0,
            alpha_exponent_bits: 0,
        };
        if has_alpha {
            info.num_extra_channels = 1;
            info.alpha_bits = bits_per_sample;
            info.alpha_exponent_bits = exp;
        }
        match self.color_encoding {
            ColorEncoding::SrgbLuma | ColorEncoding::LinearSrgbLuma => {
                info.num_color_channels = 1;
            },
            _ => {},
        }
        info
    }

    /// The basic info of an image encoded with the sample type `U`.
    pub fn basic_info_for<U: PixelType>(&self, width: u32, height: u32) -> (r: EncoderBasicInfo)
        ensures
            r == self.spec_basic_info(width, height, U::spec_bits_per_sample(), self.has_alpha),
            r.xsize == width,
            r.ysize == height,
            r.bits_per_sample == U::spec_bits_per_sample().0,
            r.exponent_bits_per_sample == U::spec_bits_per_sample().1,
            self.has_alpha ==> r.alpha_bits == r.bits_per_sample && r.alpha_exponent_bits
                == r.exponent_bits_per_sample && r.num_extra_channels == 1,
            !self.has_alpha ==> r.alpha_bits == 0 && r.alpha_exponent_bits == 0
                && r.num_extra_channels == 0,
    {
        self.basic_info(width, height, U::bits_per_sample(), self.has_alpha)
    }

    /// Prepare adding a metadata box: whether boxes must first be enabled in
    /// the encoder (as long as they are not), the type of the box, and the
    /// compression flag of the box.
    pub fn prepare_metadata_box(&self, metadata: &Metadata, compress: bool) -> (r: (
        bool,
        JxlBoxType,
        JxlBool,
    ))
        ensures
            r.0 == !self.use_box,
            r.1.0@ == metadata.spec_box().0,
            r.2 == jxl_bool(compress),
    {
        let (t, _data) = metadata.box_contents();
        (!self.use_box, Metadata::box_type(t), JxlBool::from(compress))
    }

    /// Record the outcome of enabling boxes in the encoder: boxes count as
    /// enabled from the first enable call that succeeded on; a failed call
    /// leaves them as they were and gives its error.
    pub fn record_use_boxes(&mut self, status: JxlEncoderStatus, error: JxlEncoderError) -> (r:
        Result<(), EncodeError>)
        requires
            status == JxlEncoderStatus::Error ==> error != JxlEncoderError::OK,
        ensures
            r == Self::spec_check_enc_status(status, error),
            r is Ok <==> status == JxlEncoderStatus::Success,
            final(self).use_box == (old(self).use_box || status == JxlEncoderStatus::Success),
            *final(self) == (JxlEncoder { use_box: old(self).use_box || r is Ok, ..*old(self) }),
    {
        let r = self.check_enc_status(status, error);
        match r {
            Ok(()) => {
                self.use_box = true;
            },
            Err(_) => {},
        }
        r
    }

    /// The size of the output buffer an encoding run starts with: the
    /// initial buffer size, rounded up to 32 bytes.
    pub open spec fn spec_start_size(self) -> usize {
        if self.init_buffer_size < MIN_OUTPUT_BUFFER_SIZE {
            MIN_OUTPUT_BUFFER_SIZE
        } else {
            self.init_buffer_size
        }
    }

    /// The output buffer an encoding run starts with: zero bytes, as many as
    /// the initial buffer size rounded up to 32.
    pub fn output_buffer(&self) -> (r: Vec<u8>)
        ensures
            r@ == Seq::new(self.spec_start_size() as nat, |i: int| 0u8),
            r@.len() >= MIN_OUTPUT_BUFFER_SIZE,
    {
        let size = if self.init_buffer_size < MIN_OUTPUT_BUFFER_SIZE {
            MIN_OUTPUT_BUFFER_SIZE
        } else {
            self.init_buffer_size
        };
        let mut buffer: Vec<u8> = Vec::new();
        crate::buffer::resize_bytes(&mut buffer, size);
        proof {
            assert(buffer@ =~= Seq::new(self.spec_start_size() as nat, |i: int| 0u8));
        }
        buffer
    }
}

/// The output buffer after the encoder asked for more output: twice as long,
/// the bytes written so far kept, zeros after them.
pub open spec fn spec_grown(buf: Seq<u8>) -> Seq<u8> {
    crate::buffer::resized(buf, (2 * buf.len()) as int)
}

/// Grow the output buffer when the encoder needs more output: double it,
/// keeping the `written` bytes; returns the room left after them.
pub fn grow_output(buffer: &mut Vec<u8>, written: usize) -> (avail: usize)
    requires
        written <= old(buffer)@.len(),
        2 * old(buffer)@.len() <= usize::MAX,
    ensures
        final(buffer)@ == spec_grown(old(buffer)@),
        final(buffer)@.len() == 2 * old(buffer)@.len(),
        final(buffer)@.subrange(0, written as int) == old(buffer)@.subrange(0, written as int),
        avail == final(buffer)@.len() - written,
{
    let n = buffer.len() * 2;
    crate::buffer::resize_bytes(buffer, n);
    proof {
        assert(final(buffer)@.subrange(0, written as int) =~= old(buffer)@.subrange(0, written as int));
    }
    n - written
}

/// The buffer after the codec wrote the next bytes of `stream` after the
/// `written` bytes of `buf`, as many as fit.
pub open spec fn spec_write_next(stream: Seq<u8>, buf: Seq<u8>, written: nat) -> Seq<u8> {
    let room = buf.len() - written;
    let rest = stream.len() - written;
    let n = if room < rest {
        room
    } else {
        rest
    };
    buf.subrange(0, written as int) + stream.subrange(written as int, written + n) + buf.subrange(
        written + n,
        buf.len() as int,
    )
}

/// How many bytes of the stream are written after the codec filled what fits.
pub open spec fn spec_written_next(stream: Seq<u8>, buf: Seq<u8>, written: nat) -> nat {
    let room = buf.len() - written;
    let rest = stream.len() - written;
    if room < rest {
        buf.len()
    } else {
        stream.len()
    }
}

/// The output of an encoding run when the codec has the bytes `stream` to
/// give: each call writes as much of the rest as fits after the bytes
/// written so far; while bytes remain the driver grows the buffer
/// ([`grow_output`]), and at the end keeps the written bytes
/// ([`finish_output`]).
pub open spec fn spec_output_run(stream: Seq<u8>, buf: Seq<u8>, written: nat) -> Seq<u8>
    decreases stream.len() - written, if buf.len() == written {
        1int
    } else {
        0int
    },
    when written <= stream.len() && written <= buf.len() && buf.len() >= 1
{
    let buf2 = spec_write_next(stream, buf, written);
    let w2 = spec_written_next(stream, buf, written);
    if w2 == stream.len() {
        buf2.subrange(0, w2 as int)
    } else {
        spec_output_run(stream, spec_grown(buf2), w2)
    }
}

/// Whatever the size of the buffer an encoding run starts with (at least
/// one byte), its output is exactly the bytes the codec gives: no byte lost,
/// none left over; so the output does not depend on the initial buffer size.
pub proof fn lemma_output_run(stream: Seq<u8>, buf1: Seq<u8>, buf2: Seq<u8>)
    requires
        buf1.len() >= 1,
        buf2.len() >= 1,
    ensures
        spec_output_run(stream, buf1, 0) == stream,
        spec_output_run(stream, buf1, 0) == spec_output_run(stream, buf2, 0),
{
    assert(buf1.subrange(0, 0) =~= stream.subrange(0, 0));
    assert(buf2.subrange(0, 0) =~= stream.subrange(0, 0));
    lemma_output_run_from(stream, buf1, 0);
    lemma_output_run_from(stream, buf2, 0);
}

/// An encoding run that has written a prefix of the stream ends with the
/// whole stream.
proof fn lemma_output_run_from(stream: Seq<u8>, buf: Seq<u8>, written: nat)
    requires
        buf.len() >= 1,
        written <= stream.len(),
        written <= buf.len(),
        buf.subrange(0, written as int) == stream.subrange(0, written as int),
    ensures
        spec_output_run(stream, buf, written) == stream,
    decreases stream.len() - written, if buf.len() == written {
        1int
    } else {
        0int
    },
{
    let b2 = spec_write_next(stream, buf, written);
    let w2 = spec_written_next(stream, buf, written);
    assert(b2.len() == buf.len());
    assert(b2.subrange(0, w2 as int) =~= stream.subrange(0, w2 as int)) by {
        assert forall|i: int| 0 <= i < w2 implies b2[i] == stream[i] by {
            if i < written {
                assert(buf.subrange(0, written as int)[i] == stream.subrange(0, written as int)[i]);
            }
        }
    }
    if w2 == stream.len() {
        assert(stream.subrange(0, w2 as int) =~= stream);
    } else {
        let g = spec_grown(b2);
        assert(g.len() == 2 * b2.len());
        assert(g.subrange(0, w2 as int) =~= b2.subrange(0, w2 as int));
        lemma_output_run_from(stream, g, w2);
    }
}

/// Finish the output: keep the `written` bytes.
pub fn finish_output(buffer: &mut Vec<u8>, written: usize)
    requires
        written <= old(buffer)@.len(),
    ensures
        final(buffer)@ == old(buffer)@.subrange(0, written as int),
{
    buffer.truncate(written);
}

/// The alpha channel of an image is declared with the same sample bits as
/// its color channels, exponent bits included, and only when the image has
/// one; the luma encodings have one color channel, the others three.
pub proof fn lemma_basic_info(e: JxlEncoder, width: u32, height: u32, bits: (u32, u32), has_alpha: bool)
    ensures
        ({
            let r = e.spec_basic_info(width, height, bits, has_alpha);
            &&& r.xsize == width && r.ysize == height
            &&& r.bits_per_sample == bits.0 && r.exponent_bits_per_sample == bits.1
            &&& has_alpha ==> (r.alpha_bits == r.bits_per_sample && r.alpha_exponent_bits
                == r.exponent_bits_per_sample && r.num_extra_channels == 1)
            &&& !has_alpha ==> (r.alpha_bits == 0 && r.alpha_exponent_bits == 0
                && r.num_extra_channels == 0)
            &&& (r.num_color_channels == 1) == (e.color_encoding == ColorEncoding::SrgbLuma
                || e.color_encoding == ColorEncoding::LinearSrgbLuma)
            &&& r.num_color_channels == 1 || r.num_color_channels == 3
            &&& (r.have_container == JxlBool::True) == e.use_container
            &&& (r.uses_original_profile == JxlBool::True) == e.uses_original_profile
        }),
{
}

/// Every setting that was set on a builder is the setting of the encoder it
/// builds; every other setting is its default.
pub proof fn lemma_encoder_build_settings(b: JxlEncoderBuilder)
    ensures
        ({
            let e = b.spec_build();
            &&& b.has_alpha matches Some(x) ==> e.has_alpha == x
            &&& b.lossless matches Some(x) ==> e.lossless == x
            &&& b.speed matches Some(x) ==> e.speed == x
            &&& b.use_container matches Some(x) ==> e.use_container == x
            &&& b.uses_original_profile matches Some(x) ==> e.uses_original_profile == x
            &&& b.decoding_speed matches Some(x) ==> e.decoding_speed == x
            &&& b.color_encoding matches Some(x) ==> e.color_encoding == x
            &&& b.use_box matches Some(x) ==> e.use_box == x
            &&& b.init_buffer_size matches Some(x) ==> (x >= 32 ==> e.init_buffer_size == x)
            &&& b.init_buffer_size matches Some(x) ==> (x < 32 ==> e.init_buffer_size == 32)
            &&& b.has_alpha is None ==> !e.has_alpha
            &&& b.lossless is None ==> !e.lossless
            &&& b.speed is None ==> e.speed == EncoderSpeed::Squirrel
            &&& b.use_container is None ==> !e.use_container
            &&& b.uses_original_profile is None ==> !e.uses_original_profile
            &&& b.decoding_speed is None ==> e.decoding_speed == 0
            &&& b.color_encoding is None ==> e.color_encoding == ColorEncoding::Srgb
            &&& b.use_box is None ==> !e.use_box
            &&& b.init_buffer_size is None ==> e.init_buffer_size == 524288
        }),
{
}

/// An encoder built from any builder starts with an output buffer of at
/// least 32 bytes, so that growing it doubles it into a longer one; settings
/// that were set are the settings of the encoder.
pub proof fn lemma_encoder_build(b: JxlEncoderBuilder, v: usize)
    ensures
        b.spec_build().init_buffer_size >= MIN_OUTPUT_BUFFER_SIZE,
        2 * b.spec_build().init_buffer_size > b.spec_build().init_buffer_size,
        b.init_buffer_size == Some(v) && v >= MIN_OUTPUT_BUFFER_SIZE ==> b.spec_build().init_buffer_size == v,
        b.has_alpha matches Some(x) ==> b.spec_build().has_alpha == x,
        b.speed matches Some(x) ==> b.spec_build().speed == x,
        b.color_encoding matches Some(x) ==> b.spec_build().color_encoding == x,
        b.unset() ==> b.spec_build() == (JxlEncoder {
            has_alpha: false,
            lossless: false,
            speed: EncoderSpeed::Squirrel,
            use_container: false,
            uses_original_profile: false,
            decoding_speed: 0,
            init_buffer_size: DEFAULT_OUTPUT_BUFFER_SIZE,
            color_encoding: ColorEncoding::Srgb,
            use_box: false,
        }),
{
}

} // verus!
