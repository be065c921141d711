//! Structures of the codestream headers: orientation, extra channels,
//! preview and animation headers, and the per-frame layer and blending info.

use vstd::prelude::*;
use crate::types::JxlBool;

verus! {

/// Image orientation metadata. Values 1..8 match the EXIF definitions; the
/// name is the operation that transforms the encoded image into the
/// displayed one.
#[derive(Debug, Clone, Copy, PartialEq, Eq, Structural, Hash)]
pub enum JxlOrientation {
    Identity,
    FlipHorizontal,
    Rotate180,
    FlipVertical,
    Transpose,
    Rotate90Cw,
    AntiTranspose,
    Rotate90Ccw,
}

impl JxlOrientation {
    /// The EXIF value (1..8) of the orientation.
    pub open spec fn spec_value(self) -> u32 {
        match self {
            JxlOrientation::Identity => 1,
            JxlOrientation::FlipHorizontal => 2,
            JxlOrientation::Rotate180 => 3,
            JxlOrientation::FlipVertical => 4,
            JxlOrientation::Transpose => 5,
            JxlOrientation::Rotate90Cw => 6,
            JxlOrientation::AntiTranspose => 7,
            JxlOrientation::Rotate90Ccw => 8,
        }
    }

    /// The EXIF value (1..8) of the orientation.
    pub fn value(self) -> (r: u32)
        ensures
            r == self.spec_value(),
    {
        match self {
            JxlOrientation::Identity => 1,
            JxlOrientation::FlipHorizontal => 2,
            JxlOrientation::Rotate180 => 3,
            JxlOrientation::FlipVertical => 4,
            JxlOrientation::Transpose => 5,
            JxlOrientation::Rotate90Cw => 6,
            JxlOrientation::AntiTranspose => 7,
            JxlOrientation::Rotate90Ccw => 8,
        }
    }

    /// The orientation with the given EXIF value, or `None` when the value is
    /// not in 1..8.
    pub fn try_from_primitive(v: u32) -> (r: Option<JxlOrientation>)
        ensures
            r is Some <==> 1 <= v <= 8,
            r matches Some(o) ==> o.spec_value() == v,
    {
        if v == 1 {
            Some(JxlOrientation::Identity)
        } else if v == 2 {
            Some(JxlOrientation::FlipHorizontal)
        } else if v == 3 {
            Some(JxlOrientation::Rotate180)
        } else if v == 4 {
            Some(JxlOrientation::FlipVertical)
        } else if v == 5 {
            Some(JxlOrientation::Transpose)
        } else if v == 6 {
            Some(JxlOrientation::Rotate90Cw)
        } else if v == 7 {
            Some(JxlOrientation::AntiTranspose)
        } else if v == 8 {
            Some(JxlOrientation::Rotate90Ccw)
        } else {
            None
        }
    }
}

/// Every orientation has an EXIF value in 1..8, distinct orientations have
/// distinct values, so reading back the value of an orientation gives it.
pub proof fn lemma_orientation_value_roundtrip(a: JxlOrientation, b: JxlOrientation)
    ensures
        1 <= a.spec_value() <= 8,
        a.spec_value() == b.spec_value() <==> a == b,
{
}

/// Given type of an extra channel.
#[derive(Debug, Clone, Copy, PartialEq, Eq, Structural, Hash)]
pub enum JxlExtraChannelType {
    Alpha,
    Depth,
    SpotColor,
    SelectionMask,
    Black,
    Cfa,
    Thermal,
    Reserved0,
    Reserved1,
    Reserved2,
    Reserved3,
    Reserved4,
    Reserved5,
    Reserved6,
    Reserved7,
    Unknown,
    Optional,
}

/// The codestream preview header.
#[derive(Debug, Clone, Copy, PartialEq, Eq, Structural)]
pub struct JxlPreviewHeader {
    /// Preview width in pixels.
    pub xsize: u32,
    /// Preview height in pixels.
    pub ysize: u32,
}

/// The codestream animation header, applying to all animation frames.
#[derive(Debug, Clone, Copy, PartialEq, Eq, Structural)]
pub struct JxlAnimationHeader {
    /// Numerator of ticks per second of a single animation frame time unit.
    pub tps_numerator: u32,
    /// Denominator of ticks per second of a single animation frame time unit.
    pub tps_denominator: u32,
    /// Amount of animation loops, or 0 to repeat infinitely.
    pub num_loops: u32,
    /// Whether animation time codes are present at animation frames.
    pub have_timecodes: JxlBool,
}

/// Extensions in the codestream header.
#[derive(Debug, Clone, Copy, PartialEq, Eq, Structural)]
pub struct JxlHeaderExtensions {
    /// Extension bits.
    pub extensions: u64,
}

/// Frame blend modes.
#[derive(Debug, Clone, Copy, PartialEq, Eq, Structural, Hash)]
pub enum JxlBlendMode {
    Replace,
    Add,
    Blend,
    MULADD,
    MUL,
}

/// How the color channels or a single extra channel are blended.
#[derive(Debug, Clone, Copy, PartialEq, Eq, Structural)]
pub struct JxlBlendInfo {
    /// Blend mode.
    pub blendmode: JxlBlendMode,
    /// Reference frame ID to use as the 'bottom' layer (0-3).
    pub source: u32,
    /// Which extra channel to use as the 'alpha' channel.
    pub alpha: u32,
    /// Clamp values to [0,1] for the purpose of blending.
    pub clamp: JxlBool,
}

/// The information about a layer.
#[derive(Debug, Clone, Copy, PartialEq, Eq, Structural)]
pub struct JxlLayerInfo {
    /// Whether cropping is applied for this frame.
    pub have_crop: JxlBool,
    /// Horizontal offset of the frame (can be negative).
    pub crop_x0: i32,
    /// Vertical offset of the frame (can be negative).
    pub crop_y0: i32,
    /// Width of the frame (number of columns).
    pub xsize: u32,
    /// Height of the frame (number of rows).
    pub ysize: u32,
    /// The blending info for the color channels.
    pub blend_info: JxlBlendInfo,
    /// After blending, save the frame as reference frame with this ID (0-3).
    pub save_as_reference: u32,
}

/// The header of one displayed frame or non-coalesced layer.
#[derive(Debug, Clone, Copy, PartialEq, Eq, Structural)]
pub struct JxlFrameHeader {
    /// How long to wait after rendering, in ticks.
    pub duration: u32,
    /// SMPTE timecode of the frame in form 0xHHMMSSFF, or 0.
    pub timecode: u32,
    /// Length of the frame name in bytes, or 0 if no name.
    pub name_length: u32,
    /// Whether this is the last animation frame.
    pub is_last: JxlBool,
    /// Information about the layer in case of no coalescing.
    pub layer_info: JxlLayerInfo,
}

} // verus!
