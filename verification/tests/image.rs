use jpegxl_rs::image::{image_layout, ImageLayout};
use jpegxl_rs::types::{JxlDataType, JxlEndianness, JxlPixelFormat};

fn format(data_type: JxlDataType, num_channels: u32) -> JxlPixelFormat {
    JxlPixelFormat { num_channels, data_type, endianness: JxlEndianness::Native, align: 0 }
}

#[test]
fn image_layouts_by_type_and_channels() {
    assert_eq!(image_layout(&format(JxlDataType::Float16, 3)), None);
    assert_eq!(image_layout(&format(JxlDataType::Uint8, 1)), Some(ImageLayout::Luma8));
    assert_eq!(image_layout(&format(JxlDataType::Uint16, 1)), Some(ImageLayout::Luma16));
    assert_eq!(image_layout(&format(JxlDataType::Float, 1)), None);
    assert_eq!(image_layout(&format(JxlDataType::Uint8, 2)), Some(ImageLayout::LumaA8));
    assert_eq!(image_layout(&format(JxlDataType::Uint16, 2)), Some(ImageLayout::LumaA16));
    assert_eq!(image_layout(&format(JxlDataType::Float, 2)), None);
    assert_eq!(image_layout(&format(JxlDataType::Uint8, 3)), Some(ImageLayout::Rgb8));
    assert_eq!(image_layout(&format(JxlDataType::Uint16, 3)), Some(ImageLayout::Rgb16));
    assert_eq!(image_layout(&format(JxlDataType::Float, 3)), Some(ImageLayout::Rgb32F));
    assert_eq!(image_layout(&format(JxlDataType::Uint8, 4)), Some(ImageLayout::Rgba8));
    assert_eq!(image_layout(&format(JxlDataType::Uint16, 4)), Some(ImageLayout::Rgba16));
    assert_eq!(image_layout(&format(JxlDataType::Float, 4)), Some(ImageLayout::Rgba32F));
    assert_eq!(image_layout(&format(JxlDataType::Uint8, 5)), None);
}
