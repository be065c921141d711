//! Which in-memory image layout a decoded buffer fits.

use vstd::prelude::*;

use crate::types::{JxlDataType, JxlPixelFormat};

verus! {

/// Layouts of in-memory images that decoded pixels can be turned into.
#[derive(Debug, Clone, Copy, PartialEq, Eq, Structural)]
pub enum ImageLayout {
    /// RGB, `f32` samples.
    Rgb32F,
    /// RGBA, `f32` samples.
    Rgba32F,
    /// Gray, `u8` samples.
    Luma8,
    /// Gray and alpha, `u8` samples.
    LumaA8,
    /// RGB, `u8` samples.
    Rgb8,
    /// RGBA, `u8` samples.
    Rgba8,
    /// Gray, `u16` samples.
    Luma16,
    /// Gray and alpha, `u16` samples.
    LumaA16,
    /// RGB, `u16` samples.
    Rgb16,
    /// RGBA, `u16` samples.
    Rgba16,
}

impl ImageLayout {
    /// Number of channels of a pixel of the layout.
    pub open spec fn spec_channels(self) -> u32 {
        match self {
            ImageLayout::Luma8 | ImageLayout::Luma16 => 1,
            ImageLayout::LumaA8 | ImageLayout::LumaA16 => 2,
            ImageLayout::Rgb32F | ImageLayout::Rgb8 | ImageLayout::Rgb16 => 3,
            _ => 4,
        }
    }

    /// The sample type of the layout.
    pub open spec fn spec_data_type(self) -> JxlDataType {
        match self {
            ImageLayout::Rgb32F | ImageLayout::Rgba32F => JxlDataType::Float,
            ImageLayout::Luma8 | ImageLayout::LumaA8 | ImageLayout::Rgb8 | ImageLayout::Rgba8 =>
                JxlDataType::Uint8,
            _ => JxlDataType::Uint16,
        }
    }
}

/// The layout a decoded buffer of the given pixel format fits: float RGB
/// or RGBA; gray, gray and alpha, RGB or RGBA for `u8` and `u16`; none
/// otherwise (half precision floats, other channel counts, float gray).
pub open spec fn spec_image_layout(pixel_format: JxlPixelFormat) -> Option<ImageLayout> {
    match (pixel_format.data_type, pixel_format.num_channels) {
        (JxlDataType::Float, 3) => Some(ImageLayout::Rgb32F),
        (JxlDataType::Float, 4) => Some(ImageLayout::Rgba32F),
        (JxlDataType::Uint8, 1) => Some(ImageLayout::Luma8),
        (JxlDataType::Uint8, 2) => Some(ImageLayout::LumaA8),
        (JxlDataType::Uint8, 3) => Some(ImageLayout::Rgb8),
        (JxlDataType::Uint8, 4) => Some(ImageLayout::Rgba8),
        (JxlDataType::Uint16, 1) => Some(ImageLayout::Luma16),
        (JxlDataType::Uint16, 2) => Some(ImageLayout::LumaA16),
        (JxlDataType::Uint16, 3) => Some(ImageLayout::Rgb16),
        (JxlDataType::Uint16, 4) => Some(ImageLayout::Rgba16),
        _ => None,
    }
}

/// The layout a decoded buffer of the given pixel format fits, if any.
pub fn image_layout(pixel_format: &JxlPixelFormat) -> (r: Option<ImageLayout>)
    ensures
        r == spec_image_layout(*pixel_format),
        r matches Some(l) ==> l.spec_data_type() == pixel_format.data_type && l.spec_channels()
            == pixel_format.num_channels,
        r is Some <==> ((pixel_format.data_type == JxlDataType::Float && 3 <= pixel_format.num_channels
            <= 4) || ((pixel_format.data_type == JxlDataType::Uint8 || pixel_format.data_type
            == JxlDataType::Uint16) && 1 <= pixel_format.num_channels <= 4)),
{
    match (pixel_format.data_type, pixel_format.num_channels) {
        (JxlDataType::Float, 3) => Some(ImageLayout::Rgb32F),
        (JxlDataType::Float, 4) => Some(ImageLayout::Rgba32F),
        (JxlDataType::Uint8, 1) => Some(ImageLayout::Luma8),
        (JxlDataType::Uint8, 2) => Some(ImageLayout::LumaA8),
        (JxlDataType::Uint8, 3) => Some(ImageLayout::Rgb8),
        (JxlDataType::Uint8, 4) => Some(ImageLayout::Rgba8),
        (JxlDataType::Uint16, 1) => Some(ImageLayout::Luma16),
        (JxlDataType::Uint16, 2) => Some(ImageLayout::LumaA16),
        (JxlDataType::Uint16, 3) => Some(ImageLayout::Rgb16),
        (JxlDataType::Uint16, 4) => Some(ImageLayout::Rgba16),
        _ => None,
    }
}

/// A buffer fits a layout exactly when the layout has its sample type and
/// its number of channels.
pub proof fn lemma_image_layout(pixel_format: JxlPixelFormat, layout: ImageLayout)
    ensures
        spec_image_layout(pixel_format) == Some(layout) <==> (layout.spec_data_type()
            == pixel_format.data_type && layout.spec_channels() == pixel_format.num_channels),
{
}

} // verus!
