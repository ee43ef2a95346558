//! Plain models of the texture-format properties the library reads.
//!
//! The formats listed here are the ones this library ever creates: the
//! image-upload formats and the 8-bit surface formats. Each table below
//! states, for these formats, the value the graphics API documents.

use vstd::prelude::*;

verus! {

/// The texture formats this library creates textures with.
#[derive(Clone, Copy, Debug, PartialEq, Eq, Structural)]
pub enum TexFormat {
    R8Unorm,
    Rg8Unorm,
    Rgba8Unorm,
    Rgba8UnormSrgb,
    Bgra8Unorm,
    Bgra8UnormSrgb,
    Rg16Float,
    Rgba16Float,
    R32Float,
    Rgba32Float,
}

/// How a shader may sample a texture of a given format. Every format in
/// `TexFormat` is float-sampled; only filterability differs.
#[derive(Clone, Copy, Debug, PartialEq, Eq, Structural)]
pub enum SampleKind {
    Float { filterable: bool },
}

/// The dimensionality of a texture view.
#[derive(Clone, Copy, Debug, PartialEq, Eq, Structural)]
pub enum TexDim {
    D1,
    D2,
    D2Array,
    Cube,
    CubeArray,
    D3,
}

/// Which aspect of a texture a view reads.
#[derive(Clone, Copy, Debug, PartialEq, Eq, Structural)]
pub enum TexAspect {
    All,
    DepthOnly,
    StencilOnly,
}

/// A two-dimensional texture size in texels.
#[derive(Clone, Copy, Debug, PartialEq, Eq, Structural)]
pub struct Extent {
    pub width: u32,
    pub height: u32,
}

pub open spec fn spec_is_srgb(f: TexFormat) -> bool {
    f == TexFormat::Rgba8UnormSrgb || f == TexFormat::Bgra8UnormSrgb
}

/// Whether the format stores values with the sRGB transfer function.
pub fn is_srgb(f: TexFormat) -> (r: bool)
    ensures
        r == spec_is_srgb(f),
{
    match f {
        TexFormat::Rgba8UnormSrgb => true,
        TexFormat::Bgra8UnormSrgb => true,
        _ => false,
    }
}

pub open spec fn spec_add_srgb_suffix(f: TexFormat) -> TexFormat {
    match f {
        TexFormat::Rgba8Unorm => TexFormat::Rgba8UnormSrgb,
        TexFormat::Bgra8Unorm => TexFormat::Bgra8UnormSrgb,
        _ => f,
    }
}

/// The sRGB sibling of a linear 8-bit format; every other format is its own.
pub fn add_srgb_suffix(f: TexFormat) -> (r: TexFormat)
    ensures
        r == spec_add_srgb_suffix(f),
{
    match f {
        TexFormat::Rgba8Unorm => TexFormat::Rgba8UnormSrgb,
        TexFormat::Bgra8Unorm => TexFormat::Bgra8UnormSrgb,
        _ => f,
    }
}

pub open spec fn spec_components(f: TexFormat) -> u32 {
    match f {
        TexFormat::R8Unorm => 1,
        TexFormat::Rg8Unorm => 2,
        TexFormat::Rgba8Unorm => 4,
        TexFormat::Rgba8UnormSrgb => 4,
        TexFormat::Bgra8Unorm => 4,
        TexFormat::Bgra8UnormSrgb => 4,
        TexFormat::Rg16Float => 2,
        TexFormat::Rgba16Float => 4,
        TexFormat::R32Float => 1,
        TexFormat::Rgba32Float => 4,
    }
}

/// The number of colour channels of the format.
pub fn components(f: TexFormat) -> (r: u32)
    ensures
        r == spec_components(f),
{
    match f {
        TexFormat::R8Unorm => 1,
        TexFormat::Rg8Unorm => 2,
        TexFormat::Rgba8Unorm => 4,
        TexFormat::Rgba8UnormSrgb => 4,
        TexFormat::Bgra8Unorm => 4,
        TexFormat::Bgra8UnormSrgb => 4,
        TexFormat::Rg16Float => 2,
        TexFormat::Rgba16Float => 4,
        TexFormat::R32Float => 1,
        TexFormat::Rgba32Float => 4,
    }
}

pub open spec fn spec_pixel_byte_cost(f: TexFormat) -> u32 {
    match f {
        TexFormat::R8Unorm => 1,
        TexFormat::Rg8Unorm => 2,
        TexFormat::Rgba8Unorm => 8,
        TexFormat::Rgba8UnormSrgb => 8,
        TexFormat::Bgra8Unorm => 8,
        TexFormat::Bgra8UnormSrgb => 8,
        TexFormat::Rg16Float => 4,
        TexFormat::Rgba16Float => 8,
        TexFormat::R32Float => 4,
        TexFormat::Rgba32Float => 16,
    }
}

/// The texel block copy footprint of the format: the bytes one texel
/// occupies during an image copy. The 8-bit four-channel formats count as
/// 8 bytes in the API's table, not 4.
pub fn pixel_byte_cost(f: TexFormat) -> (r: u32)
    ensures
        r == spec_pixel_byte_cost(f),
{
    match f {
        TexFormat::R8Unorm => 1,
        TexFormat::Rg8Unorm => 2,
        TexFormat::Rgba8Unorm => 8,
        TexFormat::Rgba8UnormSrgb => 8,
        TexFormat::Bgra8Unorm => 8,
        TexFormat::Bgra8UnormSrgb => 8,
        TexFormat::Rg16Float => 4,
        TexFormat::Rgba16Float => 8,
        TexFormat::R32Float => 4,
        TexFormat::Rgba32Float => 16,
    }
}

pub open spec fn spec_sample_kind(f: TexFormat) -> SampleKind {
    if f == TexFormat::R32Float || f == TexFormat::Rgba32Float {
        SampleKind::Float { filterable: false }
    } else {
        SampleKind::Float { filterable: true }
    }
}

/// How a shader samples the format when no extra device features are
/// enabled: 32-bit float formats are not filterable, the rest are.
pub fn sample_kind(f: TexFormat) -> (r: SampleKind)
    ensures
        r == spec_sample_kind(f),
{
    match f {
        TexFormat::R32Float => SampleKind::Float { filterable: false },
        TexFormat::Rgba32Float => SampleKind::Float { filterable: false },
        _ => SampleKind::Float { filterable: true },
    }
}

} // verus!
