//! Enumerations of the structured color encoding.

use vstd::prelude::*;

verus! {

/// Color space of the image data.
#[derive(Debug, Clone, Copy, PartialEq, Eq, Structural, Hash)]
pub enum JxlColorSpace {
    /// Tristimulus RGB.
    Rgb,
    /// Luminance based; implies one color channel.
    Gray,
    /// XYB (opsin) color space.
    Xyb,
    /// None of the other table entries describe the color space appropriately.
    Unknown,
}

/// Built-in white points for color encoding.
#[derive(Debug, Clone, Copy, PartialEq, Eq, Structural, Hash)]
pub enum JxlWhitePoint {
    /// CIE Standard Illuminant D65.
    D65,
    /// The white point is given numerically.
    Custom,
    /// CIE Standard Illuminant E (equal-energy).
    E,
    /// DCI-P3 from SMPTE RP 431-2.
    Dci,
}

/// Built-in primaries for color encoding.
#[derive(Debug, Clone, Copy, PartialEq, Eq, Structural, Hash)]
pub enum JxlPrimaries {
    /// The sRGB primaries.
    SRgb,
    /// The primaries are given numerically.
    Custom,
    /// As specified in Rec. ITU-R BT.2100-1.
    Rec2100,
    /// As specified in SMPTE RP 431-2.
    P3,
}

/// Built-in transfer functions for color encoding.
#[derive(Debug, Clone, Copy, PartialEq, Eq, Structural, Hash)]
pub enum JxlTransferFunction {
    /// As specified in ITU-R BT.709-6.
    BT709,
    /// None of the other table entries describe the transfer function.
    Unknown,
    /// The gamma exponent is 1.
    Linear,
    /// As specified in IEC 61966-2-1 sRGB.
    SRGB,
    /// As specified in SMPTE ST 2084.
    PQ,
    /// As specified in SMPTE ST 428-1.
    DCI,
    /// As specified in Rec. ITU-R BT.2100-1.
    HLG,
    /// Power law given by a gamma value.
    Gamma,
}

/// Rendering intent for color encoding, as specified in ISO 15076-1:2010.
#[derive(Debug, Clone, Copy, PartialEq, Eq, Structural, Hash)]
pub enum JxlRenderingIntent {
    /// Vendor-specific.
    Perceptual,
    /// Media-relative.
    Relative,
    /// Vendor-specific.
    Saturation,
    /// ICC-absolute.
    Absolute,
}

} // verus!
