//! Frames for the encoder: the pixels and how they are laid out, and the
//! frame header with its layer and blending info.

use vstd::prelude::*;

use crate::common::PixelType;
use crate::metadata::{JxlBlendInfo, JxlBlendMode, JxlFrameHeader, JxlLayerInfo};
use crate::types::{JxlBool, JxlEndianness, JxlPixelFormat};

verus! {

/// Blend mode.
pub type BlendMode = JxlBlendMode;

/// The blend info the encoder starts from: replace, source and alpha 0, no
/// clamping.
pub open spec fn default_blend_info() -> JxlBlendInfo {
    JxlBlendInfo { blendmode: JxlBlendMode::Replace, source: 0, alpha: 0, clamp: JxlBool::False }
}

/// Blend info.
#[derive(Debug, Clone, Copy, PartialEq, Eq, Structural)]
pub struct BlendInfo(pub JxlBlendInfo);

impl BlendInfo {
    /// Create new blend info.
    pub fn new(blendmode: BlendMode, source: u32, alpha: u32, clamp: bool) -> (r: Self)
        ensures
            r.0 == (JxlBlendInfo {
                blendmode,
                source,
                alpha,
                clamp: if clamp {
                    JxlBool::True
                } else {
                    JxlBool::False
                },
            }),
    {
        let mut blend_info = JxlBlendInfo {
            blendmode: JxlBlendMode::Replace,
            source: 0,
            alpha: 0,
            clamp: JxlBool::False,
        };
        blend_info.blendmode = blendmode;
        blend_info.source = source;
        blend_info.alpha = alpha;
        blend_info.clamp = JxlBool::from(clamp);
        BlendInfo(blend_info)
    }
}

/// Layer information.
#[derive(Debug, Clone, Copy, PartialEq, Eq, Structural)]
pub struct LayerInfo(pub JxlLayerInfo);

impl LayerInfo {
    /// Create new layer info.
    pub fn new(
        have_crop: bool,
        crop_x0: i32,
        crop_y0: i32,
        xsize: u32,
        ysize: u32,
        blend_info: BlendInfo,
        save_as_reference: u32,
    ) -> (r: Self)
        ensures
            r.0 == (JxlLayerInfo {
                have_crop: if have_crop {
                    JxlBool::True
                } else {
                    JxlBool::False
                },
                crop_x0,
                crop_y0,
                xsize,
                ysize,
                blend_info: blend_info.0,
                save_as_reference,
            }),
    {
        LayerInfo(
            JxlLayerInfo {
                have_crop: JxlBool::from(have_crop),
                crop_x0,
                crop_y0,
                xsize,
                ysize,
                blend_info: blend_info.0,
                save_as_reference,
            },
        )
    }
}

/// The frame header the encoder starts from: no duration, no timecode, no
/// name, marked as the last frame (the default of the format; the encoder
/// does not read it, frames are closed separately), no crop, an empty layer
/// that replaces.
pub open spec fn default_frame_header() -> JxlFrameHeader {
    JxlFrameHeader {
        duration: 0,
        timecode: 0,
        name_length: 0,
        is_last: JxlBool::True,
        layer_info: JxlLayerInfo {
            have_crop: JxlBool::False,
            crop_x0: 0,
            crop_y0: 0,
            xsize: 0,
            ysize: 0,
            blend_info: default_blend_info(),
            save_as_reference: 0,
        },
    }
}

/// Additional information for a frame.
#[derive(Debug, Clone, Copy, PartialEq, Eq, Structural)]
pub struct FrameHeader(pub JxlFrameHeader);

impl FrameHeader {
    /// Create a default frame header.
    pub fn new() -> (r: Self)
        ensures
            r.0 == default_frame_header(),
    {
        FrameHeader(
            JxlFrameHeader {
                duration: 0,
                timecode: 0,
                name_length: 0,
                is_last: JxlBool::True,
                layer_info: JxlLayerInfo {
                    have_crop: JxlBool::False,
                    crop_x0: 0,
                    crop_y0: 0,
                    xsize: 0,
                    ysize: 0,
                    blend_info: JxlBlendInfo {
                        blendmode: JxlBlendMode::Replace,
                        source: 0,
                        alpha: 0,
                        clamp: JxlBool::False,
                    },
                    save_as_reference: 0,
                },
            },
        )
    }

    /// Set duration.
    pub fn duration(self, duration: u32) -> (r: Self)
        ensures
            r.0 == (JxlFrameHeader { duration, ..self.0 }),
    {
        let mut s = self;
        s.0.duration = duration;
        s
    }

    /// Set timecode.
    pub fn timecode(self, timecode: u32) -> (r: Self)
        ensures
            r.0 == (JxlFrameHeader { timecode, ..self.0 }),
    {
        let mut s = self;
        s.0.timecode = timecode;
        s
    }

    /// Set layer info.
    pub fn layer_info(self, layer_info: LayerInfo) -> (r: Self)
        ensures
            r.0 == (JxlFrameHeader { layer_info: layer_info.0, ..self.0 }),
    {
        let mut s = self;
        s.0.layer_info = layer_info.0;
        s
    }
}

/// A frame for the encoder, consisting of the pixels and its options.
pub struct EncoderFrame<'data, T: PixelType> {
    /// The pixels.
    pub data: &'data [T],
    /// Number of channels of the source; 3 when not set.
    pub num_channels: Option<u32>,
    /// Endianness of the source; native when not set.
    pub endianness: Option<JxlEndianness>,
    /// Alignment of the scanlines of the source; none when not set.
    pub align: Option<usize>,
    /// The frame header.
    pub header: Option<FrameHeader>,
}

impl<'data, T: PixelType> EncoderFrame<'data, T> {
    /// Create a default frame from the data: RGB (3) channels, native
    /// endianness and no alignment.
    pub fn new(data: &'data [T]) -> (r: Self)
        ensures
            r.data@ == data@,
            r.num_channels is None,
            r.endianness is None,
            r.align is None,
            r.header is None,
    {
        EncoderFrame { data, num_channels: None, endianness: None, align: None, header: None }
    }

    /// Set the number of channels of the source; with an alpha channel,
    /// count it here.
    pub fn num_channels(self, value: u32) -> (r: Self)
        ensures
            r.data@ == self.data@,
            r.num_channels == Some(value),
            r.endianness == self.endianness,
            r.align == self.align,
            r.header == self.header,
    {
        let mut s = self;
        s.num_channels = Some(value);
        s
    }

    /// Set the endianness of the source.
    pub fn endianness(self, value: JxlEndianness) -> (r: Self)
        ensures
            r.data@ == self.data@,
            r.num_channels == self.num_channels,
            r.endianness == Some(value),
            r.align == self.align,
            r.header == self.header,
    {
        let mut s = self;
        s.endianness = Some(value);
        s
    }

    /// Set the alignment of the scanlines of the source, in bytes, or 0 for
    /// no alignment.
    pub fn align(self, value: usize) -> (r: Self)
        ensures
            r.data@ == self.data@,
            r.num_channels == self.num_channels,
            r.endianness == self.endianness,
            r.align == Some(value),
            r.header == self.header,
    {
        let mut s = self;
        s.align = Some(value);
        s
    }

    /// Set the frame header.
    pub fn header(self, value: FrameHeader) -> (r: Self)
        ensures
            r.data@ == self.data@,
            r.num_channels == self.num_channels,
            r.endianness == self.endianness,
            r.align == self.align,
            r.header == Some(value),
    {
        let mut s = self;
        s.header = Some(value);
        s
    }

    /// The frame header, if one is set.
    pub fn get_header(&self) -> (r: Option<&JxlFrameHeader>)
        ensures
            r matches Some(h) ==> self.header matches Some(fh) && *h == fh.0,
            r is None <==> self.header is None,
    {
        match &self.header {
            Some(f) => Some(&f.0),
            None => None,
        }
    }

    /// The pixel format of the source: the set options, or 3 channels,
    /// native endianness and no alignment, with the data type of `T`.
    pub open spec fn spec_pixel_format(&self) -> JxlPixelFormat {
        JxlPixelFormat {
            num_channels: match self.num_channels {
                Some(v) => v,
                None => 3,
            },
            data_type: T::spec_pixel_type(),
            endianness: match self.endianness {
                Some(v) => v,
                None => JxlEndianness::Native,
            },
            align: match self.align {
                Some(v) => v,
                None => 0,
            },
        }
    }

    /// The pixel format of the source.
    pub fn pixel_format(&self) -> (r: JxlPixelFormat)
        ensures
            r == self.spec_pixel_format(),
            self.num_channels matches Some(n) ==> r.num_channels == n,
            self.num_channels is None ==> r.num_channels == 3,
            r.data_type == T::spec_pixel_type(),
            self.endianness matches Some(e) ==> r.endianness == e,
            self.endianness is None ==> r.endianness == JxlEndianness::Native,
            self.align matches Some(a) ==> r.align == a,
            self.align is None ==> r.align == 0,
    {
        JxlPixelFormat {
            num_channels: match self.num_channels {
                Some(v) => v,
                None => 3,
            },
            data_type: T::pixel_type(),
            endianness: match self.endianness {
                Some(v) => v,
                None => JxlEndianness::Native,
            },
            align: match self.align {
                Some(v) => v,
                None => 0,
            },
        }
    }
}

} // verus!
