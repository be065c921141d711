//! Data types shared by the encoder and the decoder interface.

use vstd::prelude::*;

verus! {

/// Boolean as the codec interface represents it (`1` is true, `0` is false).
#[derive(Debug, Clone, Copy, PartialEq, Eq, Structural, Hash)]
pub enum JxlBool {
    True,
    False,
}

impl JxlBool {
    /// The integer this boolean stands for in the codec interface.
    pub open spec fn spec_raw(self) -> i32 {
        match self {
            JxlBool::True => 1,
            JxlBool::False => 0,
        }
    }

    /// The integer this boolean stands for in the codec interface.
    pub fn raw(self) -> (r: i32)
        ensures
            r == self.spec_raw(),
    {
        match self {
            JxlBool::True => 1,
            JxlBool::False => 0,
        }
    }

    /// The boolean a raw integer stands for, if it is `0` or `1`.
    pub fn from_raw(v: i32) -> (r: Option<JxlBool>)
        ensures
            r matches Some(b) ==> b.spec_raw() == v,
            r is None <==> (v != 0 && v != 1),
    {
        if v == 1 {
            Some(JxlBool::True)
        } else if v == 0 {
            Some(JxlBool::False)
        } else {
            None
        }
    }
}

impl From<bool> for JxlBool {
    fn from(b: bool) -> (r: Self) {
        if b {
            JxlBool::True
        } else {
            JxlBool::False
        }
    }
}

impl vstd::std_specs::convert::FromSpecImpl<bool> for JxlBool {
    open spec fn obeys_from_spec() -> bool {
        true
    }

    open spec fn from_spec(b: bool) -> Self {
        if b {
            JxlBool::True
        } else {
            JxlBool::False
        }
    }
}

impl From<JxlBool> for bool {
    fn from(b: JxlBool) -> (r: Self) {
        match b {
            JxlBool::True => true,
            JxlBool::False => false,
        }
    }
}

impl vstd::std_specs::convert::FromSpecImpl<JxlBool> for bool {
    open spec fn obeys_from_spec() -> bool {
        true
    }

    open spec fn from_spec(b: JxlBool) -> Self {
        b == JxlBool::True
    }
}

/// Converting a `bool` to a [`JxlBool`] and back gives the same `bool`, and
/// the other way round; the raw integer of a [`JxlBool`] decodes to itself.
pub proof fn lemma_jxl_bool_roundtrip(b: bool, j: JxlBool)
    ensures
        <bool as vstd::std_specs::convert::FromSpec<JxlBool>>::from_spec(
            <JxlBool as vstd::std_specs::convert::FromSpec<bool>>::from_spec(b),
        ) == b,
        <JxlBool as vstd::std_specs::convert::FromSpec<bool>>::from_spec(
            <bool as vstd::std_specs::convert::FromSpec<JxlBool>>::from_spec(j),
        ) == j,
        j.spec_raw() == 1 <==> <bool as vstd::std_specs::convert::FromSpec<JxlBool>>::from_spec(j),
{
}


/// Data type for the sample values per channel per pixel.
#[derive(Debug, Clone, Copy, PartialEq, Eq, Structural, Hash)]
pub enum JxlDataType {
    /// 32-bit single-precision floating point values, range 0.0-1.0.
    Float,
    /// `u8` samples.
    Uint8,
    /// `u16` samples.
    Uint16,
    /// 16-bit half-precision floating point values.
    Float16,
}

/// Ordering of multi-byte data.
#[derive(Debug, Clone, Copy, PartialEq, Eq, Structural, Hash)]
pub enum JxlEndianness {
    /// Use the endianness of the system, either little endian or big endian.
    Native,
    /// Force little endian.
    Little,
    /// Force big endian.
    Big,
}

/// Layout of a pixel buffer: channels are interleaved per pixel, pixels are
/// organized row by row.
#[derive(Debug, Clone, Copy, PartialEq, Eq, Structural, Hash)]
pub struct JxlPixelFormat {
    /// Amount of channels available in a pixel buffer (1: gray, 2: gray and
    /// alpha, 3: RGB, 4: RGBA).
    pub num_channels: u32,
    /// Data type of each channel.
    pub data_type: JxlDataType,
    /// Byte order of multi-byte data types.
    pub endianness: JxlEndianness,
    /// Align scanlines to a multiple of align bytes, or 0 for no alignment.
    pub align: usize,
}

/// Interpretation of the range of UINT input and output buffers.
#[derive(Debug, Clone, Copy, PartialEq, Eq, Structural, Hash)]
pub enum JxlBitDepthType {
    /// Use the full range of the pixel format data type.
    FromPixelFormat,
    /// Use the range given by the bits per sample of the codestream.
    FromCodestream,
    /// A custom range, decoder only.
    Custom,
}

/// Interpretation of the input and output buffers in terms of the range of
/// allowed pixel values.
#[derive(Debug, Clone, Copy, PartialEq, Eq, Structural, Hash)]
pub struct JxlBitDepth {
    /// Bit depth setting.
    pub type_: JxlBitDepthType,
    /// Custom bits per sample.
    pub bits_per_sample: u32,
    /// Custom exponent bits per sample.
    pub exponent_bits_per_sample: u32,
}

/// The four-character type name of an ISOBMFF box, as bytes.
#[derive(Debug, Clone, Copy, PartialEq, Eq)]
pub struct JxlBoxType(pub [u8; 4]);

/// Progressive decoding steps at which the decoder may pause.
#[derive(Debug, Clone, Copy, PartialEq, Eq, Structural, Hash)]
pub enum JxlProgressiveDetail {
    Frames,
    DC,
    LastPasses,
    Passes,
    DCProgressive,
    DCGroups,
    Groups,
}

/// Which color profile a query refers to.
#[derive(Debug, Clone, Copy, PartialEq, Eq, Structural, Hash)]
pub enum JxlColorProfileTarget {
    /// The color profile of the original image.
    Original,
    /// The color profile of the pixel data the decoder outputs.
    Data,
}

/// Result of checking the signature of a byte stream.
#[derive(Debug, Clone, Copy, PartialEq, Eq, Structural, Hash)]
pub enum JxlSignature {
    /// Not enough bytes were passed to determine if a valid signature is there.
    NotEnoughBytes,
    /// No valid JPEG XL header was found.
    Invalid,
    /// A valid JPEG XL codestream signature was found.
    Codestream,
    /// A valid container signature was found.
    Container,
}

/// Status that the decoder reports after processing input.
#[derive(Debug, Clone, Copy, PartialEq, Eq, Structural, Hash)]
pub enum JxlDecoderStatus {
    Success,
    Error,
    NeedMoreInput,
    NeedPreviewOutBuffer,
    NeedImageOutBuffer,
    JPEGNeedMoreOutput,
    BoxNeedMoreOutput,
    BasicInfo,
    ColorEncoding,
    PreviewImage,
    Frame,
    FullImage,
    JPEGReconstruction,
    Box,
    FrameProgression,
    BoxComplete,
}

impl JxlDecoderStatus {
    /// The integer code of the status in the codec interface. The event
    /// statuses are distinct single bits, so that they can be combined into
    /// a subscription mask.
    pub open spec fn spec_code(self) -> i32 {
        match self {
            JxlDecoderStatus::Success => 0,
            JxlDecoderStatus::Error => 1,
            JxlDecoderStatus::NeedMoreInput => 2,
            JxlDecoderStatus::NeedPreviewOutBuffer => 3,
            JxlDecoderStatus::NeedImageOutBuffer => 5,
            JxlDecoderStatus::JPEGNeedMoreOutput => 6,
            JxlDecoderStatus::BoxNeedMoreOutput => 7,
            JxlDecoderStatus::BasicInfo => 0x40,
            JxlDecoderStatus::ColorEncoding => 0x100,
            JxlDecoderStatus::PreviewImage => 0x200,
            JxlDecoderStatus::Frame => 0x400,
            JxlDecoderStatus::FullImage => 0x1000,
            JxlDecoderStatus::JPEGReconstruction => 0x2000,
            JxlDecoderStatus::Box => 0x4000,
            JxlDecoderStatus::FrameProgression => 0x8000,
            JxlDecoderStatus::BoxComplete => 0x10000,
        }
    }

    /// The integer code of the status in the codec interface.
    pub fn code(self) -> (r: i32)
        ensures
            r == self.spec_code(),
    {
        match self {
            JxlDecoderStatus::Success => 0,
            JxlDecoderStatus::Error => 1,
            JxlDecoderStatus::NeedMoreInput => 2,
            JxlDecoderStatus::NeedPreviewOutBuffer => 3,
            JxlDecoderStatus::NeedImageOutBuffer => 5,
            JxlDecoderStatus::JPEGNeedMoreOutput => 6,
            JxlDecoderStatus::BoxNeedMoreOutput => 7,
            JxlDecoderStatus::BasicInfo => 0x40,
            JxlDecoderStatus::ColorEncoding => 0x100,
            JxlDecoderStatus::PreviewImage => 0x200,
            JxlDecoderStatus::Frame => 0x400,
            JxlDecoderStatus::FullImage => 0x1000,
            JxlDecoderStatus::JPEGReconstruction => 0x2000,
            JxlDecoderStatus::Box => 0x4000,
            JxlDecoderStatus::FrameProgression => 0x8000,
            JxlDecoderStatus::BoxComplete => 0x10000,
        }
    }

    /// Whether an integer is the code of some status.
    pub open spec fn is_code(v: i32) -> bool {
        v == 0 || v == 1 || v == 2 || v == 3 || v == 5 || v == 6 || v == 7 || v == 0x40 || v
            == 0x100 || v == 0x200 || v == 0x400 || v == 0x1000 || v == 0x2000 || v == 0x4000 || v
            == 0x8000 || v == 0x10000
    }

    /// The status that an integer code stands for, if any.
    pub fn from_code(v: i32) -> (r: Option<JxlDecoderStatus>)
        ensures
            r matches Some(s) ==> s.spec_code() == v,
            r is Some <==> Self::is_code(v),
    {
        let r = if v == 0 {
            Some(JxlDecoderStatus::Success)
        } else if v == 1 {
            Some(JxlDecoderStatus::Error)
        } else if v == 2 {
            Some(JxlDecoderStatus::NeedMoreInput)
        } else if v == 3 {
            Some(JxlDecoderStatus::NeedPreviewOutBuffer)
        } else if v == 5 {
            Some(JxlDecoderStatus::NeedImageOutBuffer)
        } else if v == 6 {
            Some(JxlDecoderStatus::JPEGNeedMoreOutput)
        } else if v == 7 {
            Some(JxlDecoderStatus::BoxNeedMoreOutput)
        } else if v == 0x40 {
            Some(JxlDecoderStatus::BasicInfo)
        } else if v == 0x100 {
            Some(JxlDecoderStatus::ColorEncoding)
        } else if v == 0x200 {
            Some(JxlDecoderStatus::PreviewImage)
        } else if v == 0x400 {
            Some(JxlDecoderStatus::Frame)
        } else if v == 0x1000 {
            Some(JxlDecoderStatus::FullImage)
        } else if v == 0x2000 {
            Some(JxlDecoderStatus::JPEGReconstruction)
        } else if v == 0x4000 {
            Some(JxlDecoderStatus::Box)
        } else if v == 0x8000 {
            Some(JxlDecoderStatus::FrameProgression)
        } else if v == 0x10000 {
            Some(JxlDecoderStatus::BoxComplete)
        } else {
            None
        };
        r
    }
}

/// Distinct decoder statuses have distinct codes, and decoding the code of a
/// status gives that status back.
pub proof fn lemma_decoder_status_code_injective(a: JxlDecoderStatus, b: JxlDecoderStatus)
    ensures
        a.spec_code() == b.spec_code() <==> a == b,
        JxlDecoderStatus::is_code(a.spec_code()),
{
}

/// Status that the encoder reports.
#[derive(Debug, Clone, Copy, PartialEq, Eq, Structural, Hash)]
pub enum JxlEncoderStatus {
    /// Function call finished successfully, or encoding is finished.
    Success,
    /// An error occurred, for example out of memory.
    Error,
    /// The encoder needs more output buffer to continue encoding.
    NeedMoreOutput,
}

/// Error conditions that the encoder reports with [`JxlEncoderStatus::Error`].
#[derive(Debug, Clone, Copy, PartialEq, Eq, Structural, Hash)]
pub enum JxlEncoderError {
    /// No error.
    OK,
    /// Generic encoder error due to unspecified cause.
    Generic,
    /// Out of memory.
    OutOfMemory,
    /// JPEG bitstream reconstruction data could not be represented.
    Jbrd,
    /// Input is invalid (e.g. corrupt JPEG file or ICC profile).
    BadInput,
    /// The encoder doesn't (yet) support this.
    NotSupported,
    /// The encoder API is used in an incorrect way.
    ApiUsage,
}

/// Identifier of an encoder frame setting.
#[derive(Debug, Clone, Copy, PartialEq, Eq, Structural, Hash)]
pub enum JxlEncoderFrameSettingId {
    Effort,
    DecodingSpeed,
    Resampling,
    ExtraChannelResampling,
    AlreadyDownsampled,
    PhotonNoise,
    Noise,
    Dots,
    Patches,
    Epf,
    Gaborish,
    Modular,
    KeepInvisible,
    GroupOrder,
    GroupOrderCenterX,
    GroupOrderCenterY,
    Responsive,
    ProgressiveAc,
    QprogressiveAc,
    ProgressiveDc,
    ChannelColorsGlobalPercent,
    ChannelColorsGroupPercent,
    PaletteColors,
    LossyPalette,
    ColorTransform,
    ModularColorSpace,
    ModularGroupSize,
    ModularPredictor,
    ModularMaTreeLearningPercent,
    ModularNbPrevChannels,
    JpegReconCfl,
    IndexBox,
    BrotliEffort,
    JpegCompressBoxes,
    Buffering,
    JpegKeepExif,
    JpegKeepXmp,
    JpegKeepJumbf,
    UseFullImageHeuristics,
    DisablePerceptualHeuristics,
    FillEnum,
}

/// Keys of the statistics that the encoder can collect.
#[derive(Debug, Clone, Copy, PartialEq, Eq, Structural, Hash)]
pub enum JxlEncoderStatsKey {
    HeaderBits,
    TocBits,
    DictionaryBits,
    SplinesBits,
    NoiseBits,
    QuantBits,
    ModularTreeBits,
    ModularGlobalBits,
    DcBits,
    ModularDcGroupBits,
    ControlFieldsBits,
    CoefOrderBits,
    AcHistogramBits,
    AcBits,
    ModularAcGroupBits,
    NumSmallBlocks,
    NumDct4x8Blocks,
    NumAfvBlocks,
    NumDct8Blocks,
    NumDct8x32Blocks,
    NumDct16Blocks,
    NumDct16x32Blocks,
    NumDct32Blocks,
    NumDct32x64Blocks,
    NumDct64Blocks,
    NumButteraugliIters,
    NumStats,
}

} // verus!
