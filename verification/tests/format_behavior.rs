use gpukit::format::{
    add_srgb_suffix, components, is_srgb, pixel_byte_cost, sample_kind, SampleKind, TexFormat,
};
use gpukit::strfmt::u32_to_string;
use gpukit::texture::{upload_format, PixelKind};

#[test]
fn srgb_flags() {
    assert!(is_srgb(TexFormat::Rgba8UnormSrgb));
    assert!(is_srgb(TexFormat::Bgra8UnormSrgb));
    assert!(!is_srgb(TexFormat::Rgba8Unorm));
    assert!(!is_srgb(TexFormat::Bgra8Unorm));
    assert!(!is_srgb(TexFormat::R32Float));
}

#[test]
fn srgb_suffix_pairs() {
    assert_eq!(add_srgb_suffix(TexFormat::Rgba8Unorm), TexFormat::Rgba8UnormSrgb);
    assert_eq!(add_srgb_suffix(TexFormat::Bgra8Unorm), TexFormat::Bgra8UnormSrgb);
    assert_eq!(add_srgb_suffix(TexFormat::R8Unorm), TexFormat::R8Unorm);
    assert_eq!(add_srgb_suffix(TexFormat::Rgba32Float), TexFormat::Rgba32Float);
}

#[test]
fn channel_counts() {
    assert_eq!(components(TexFormat::R8Unorm), 1);
    assert_eq!(components(TexFormat::Rg8Unorm), 2);
    assert_eq!(components(TexFormat::Rgba8UnormSrgb), 4);
    assert_eq!(components(TexFormat::R32Float), 1);
    assert_eq!(components(TexFormat::Rg16Float), 2);
    assert_eq!(components(TexFormat::Rgba32Float), 4);
}

#[test]
fn pixel_byte_costs() {
    assert_eq!(pixel_byte_cost(TexFormat::R8Unorm), 1);
    assert_eq!(pixel_byte_cost(TexFormat::Rg8Unorm), 2);
    // the API's copy-footprint table counts four-channel 8-bit formats as 8
    assert_eq!(pixel_byte_cost(TexFormat::Rgba8UnormSrgb), 8);
    assert_eq!(pixel_byte_cost(TexFormat::Bgra8Unorm), 8);
    assert_eq!(pixel_byte_cost(TexFormat::Rg16Float), 4);
    assert_eq!(pixel_byte_cost(TexFormat::R32Float), 4);
    assert_eq!(pixel_byte_cost(TexFormat::Rgba16Float), 8);
    assert_eq!(pixel_byte_cost(TexFormat::Rgba32Float), 16);
}

#[test]
fn sample_kinds() {
    assert_eq!(sample_kind(TexFormat::R32Float), SampleKind::Float { filterable: false });
    assert_eq!(sample_kind(TexFormat::Rgba32Float), SampleKind::Float { filterable: false });
    assert_eq!(sample_kind(TexFormat::R8Unorm), SampleKind::Float { filterable: true });
    assert_eq!(sample_kind(TexFormat::Rgba16Float), SampleKind::Float { filterable: true });
}

#[test]
fn upload_formats() {
    assert_eq!(upload_format(PixelKind::Luma8), (TexFormat::R8Unorm, 1));
    assert_eq!(upload_format(PixelKind::LumaA8), (TexFormat::Rg8Unorm, 2));
    assert_eq!(upload_format(PixelKind::Rgb8), (TexFormat::Rgba8UnormSrgb, 4));
    assert_eq!(upload_format(PixelKind::Rgba8), (TexFormat::Rgba8UnormSrgb, 4));
    assert_eq!(upload_format(PixelKind::Luma16), (TexFormat::R32Float, 4));
    assert_eq!(upload_format(PixelKind::LumaA16), (TexFormat::Rg16Float, 4));
    assert_eq!(upload_format(PixelKind::Rgb16), (TexFormat::Rgba16Float, 8));
    assert_eq!(upload_format(PixelKind::Rgba16), (TexFormat::Rgba16Float, 8));
    assert_eq!(upload_format(PixelKind::Rgb32F), (TexFormat::Rgba32Float, 16));
    assert_eq!(upload_format(PixelKind::Rgba32F), (TexFormat::Rgba32Float, 16));
    assert_eq!(upload_format(PixelKind::Other), (TexFormat::Rgba32Float, 16));
}

#[test]
fn decimal_rendering() {
    assert_eq!(u32_to_string(0), "0");
    assert_eq!(u32_to_string(7), "7");
    assert_eq!(u32_to_string(10), "10");
    assert_eq!(u32_to_string(409), "409");
    assert_eq!(u32_to_string(1234567), "1234567");
    assert_eq!(u32_to_string(u32::MAX), "4294967295");
}
