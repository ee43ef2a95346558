//! Textures, texture views, and the texture error type.

use vstd::prelude::*;
use vstd::string::StringExecFns;
use crate::format::{TexAspect, TexDim, TexFormat, Extent};
use crate::format::{components, pixel_byte_cost, spec_components, spec_pixel_byte_cost};
use crate::strfmt::{dec_str, u32_to_string};

verus! {

pub const TEXTURE_USAGE_COPY_SRC: u32 = 0x1;
pub const TEXTURE_USAGE_COPY_DST: u32 = 0x2;
pub const TEXTURE_USAGE_TEXTURE_BINDING: u32 = 0x4;
pub const TEXTURE_USAGE_STORAGE_BINDING: u32 = 0x8;
pub const TEXTURE_USAGE_RENDER_ATTACHMENT: u32 = 0x10;

/// A GPU texture together with the facts the library's own logic reads:
/// its format, size, usage flags, view dimensionality, an optional label,
/// and the views created of it so far.
pub struct GpuTexture {
    pub label: Option<String>,
    pub dim: TexDim,
    pub format: TexFormat,
    pub size: Extent,
    pub usage: u32,
    pub raw: wgpu::Texture,
    pub views: Vec<GpuTextureView>,
}

/// A view of a texture, with the parameters it was created with.
pub struct GpuTextureView {
    pub raw: wgpu::TextureView,
    pub format: TexFormat,
    pub dimension: TexDim,
    pub aspect: TexAspect,
    pub base_mip_level: u32,
    pub mip_level_count: Option<u32>,
    pub base_array_layer: u32,
    pub array_layer_count: Option<u32>,
}

/// What can go wrong while loading a texture from encoded image data.
#[derive(Debug)]
pub enum TextureError {
    IoError(std::io::Error),
    ImageError(image::ImageError),
    Other(String),
}

impl From<std::io::Error> for TextureError {
    fn from(error: std::io::Error) -> (r: Self) {
        TextureError::IoError(error)
    }
}

impl vstd::std_specs::convert::FromSpecImpl<std::io::Error> for TextureError {
    open spec fn obeys_from_spec() -> bool {
        true
    }

    open spec fn from_spec(v: std::io::Error) -> Self {
        TextureError::IoError(v)
    }
}

impl From<image::ImageError> for TextureError {
    fn from(error: image::ImageError) -> (r: Self) {
        TextureError::ImageError(error)
    }
}

impl vstd::std_specs::convert::FromSpecImpl<image::ImageError> for TextureError {
    open spec fn obeys_from_spec() -> bool {
        true
    }

    open spec fn from_spec(v: image::ImageError) -> Self {
        TextureError::ImageError(v)
    }
}

/// Relies on std's `Display` for `io::Error`: the error's own text.
#[verifier::external_body]
fn raw_io_error_text(e: &std::io::Error) -> String {
    format!("{}", e)
}

/// Relies on the image crate's `Display` for `ImageError`: the error's
/// own text.
#[verifier::external_body]
fn raw_image_error_text(e: &image::ImageError) -> String {
    format!("{}", e)
}

impl TextureError {
    /// The error spelled out, prefixed with which kind it is. Only the
    /// prefix is pinned for the io and decoder arms: their own text is
    /// the outside error's.
    pub fn message(&self) -> (s: String)
        ensures
            self is IoError ==> "IO error: "@.is_prefix_of(s@),
            self is ImageError ==> "Image error: "@.is_prefix_of(s@),
            self matches TextureError::Other(m) ==> s@ == "Other error: "@ + m@,
    {
        match self {
            TextureError::IoError(e) => {
                let mut s = String::from_str("IO error: ");
                s.append(raw_io_error_text(e).as_str());
                proof {
                    assert(s@.subrange(0, "IO error: "@.len() as int) =~= "IO error: "@);
                }
                s
            },
            TextureError::ImageError(e) => {
                let mut s = String::from_str("Image error: ");
                s.append(raw_image_error_text(e).as_str());
                proof {
                    assert(s@.subrange(0, "Image error: "@.len() as int) =~= "Image error: "@);
                }
                s
            },
            TextureError::Other(m) => {
                let mut s = String::from_str("Other error: ");
                s.append(m.as_str());
                s
            },
        }
    }
}

/// The pixel layouts of a decoded image that pick the upload format.
#[derive(Clone, Copy, Debug, PartialEq, Eq, Structural)]
pub enum PixelKind {
    Luma8,
    LumaA8,
    Rgb8,
    Rgba8,
    Luma16,
    LumaA16,
    Rgb16,
    Rgba16,
    Rgb32F,
    Rgba32F,
    Other,
}

pub open spec fn spec_upload_format(k: PixelKind) -> (TexFormat, u32) {
    match k {
        PixelKind::Luma8 => (TexFormat::R8Unorm, 1u32),
        PixelKind::LumaA8 => (TexFormat::Rg8Unorm, 2u32),
        PixelKind::Rgb8 => (TexFormat::Rgba8UnormSrgb, 4u32),
        PixelKind::Rgba8 => (TexFormat::Rgba8UnormSrgb, 4u32),
        PixelKind::Luma16 => (TexFormat::R32Float, 4u32),
        PixelKind::LumaA16 => (TexFormat::Rg16Float, 4u32),
        PixelKind::Rgb16 => (TexFormat::Rgba16Float, 8u32),
        PixelKind::Rgba16 => (TexFormat::Rgba16Float, 8u32),
        PixelKind::Rgb32F => (TexFormat::Rgba32Float, 16u32),
        PixelKind::Rgba32F => (TexFormat::Rgba32Float, 16u32),
        PixelKind::Other => (TexFormat::Rgba32Float, 16u32),
    }
}

/// The texture format a decoded image of the given pixel layout is
/// uploaded as, together with the bytes per pixel counted for the
/// upload's row stride.
pub fn upload_format(k: PixelKind) -> (r: (TexFormat, u32))
    ensures
        r == spec_upload_format(k),
        1 <= r.1 <= 16,
{
    match k {
        PixelKind::Luma8 => (TexFormat::R8Unorm, 1),
        PixelKind::LumaA8 => (TexFormat::Rg8Unorm, 2),
        PixelKind::Rgb8 => (TexFormat::Rgba8UnormSrgb, 4),
        PixelKind::Rgba8 => (TexFormat::Rgba8UnormSrgb, 4),
        PixelKind::Luma16 => (TexFormat::R32Float, 4),
        PixelKind::LumaA16 => (TexFormat::Rg16Float, 4),
        PixelKind::Rgb16 => (TexFormat::Rgba16Float, 8),
        PixelKind::Rgba16 => (TexFormat::Rgba16Float, 8),
        PixelKind::Rgb32F => (TexFormat::Rgba32Float, 16),
        PixelKind::Rgba32F => (TexFormat::Rgba32Float, 16),
        PixelKind::Other => (TexFormat::Rgba32Float, 16),
    }
}

/// The text of a texture's default label, from its channel count, texel
/// byte cost, and size; the textures this library creates are one texel
/// deep.
pub open spec fn label_text(channels: nat, byte_cost: nat, width: nat, height: nat) -> Seq<
    char,
> {
    dec_str(channels) + " channel, "@ + dec_str(byte_cost) + " bytes per pixel, "@ + dec_str(
        width,
    ) + " by "@ + dec_str(height) + " by 1 texture"@
}

/// Relies on the graphics API's `Texture::create_view`: creates a view of
/// the whole texture, in the texture's own format, with the given label.
#[verifier::external_body]
fn raw_create_view(t: &wgpu::Texture, label: Option<&str>) -> wgpu::TextureView {
    let mut desc = wgpu::TextureViewDescriptor::default();
    desc.label = label;
    t.create_view(&desc)
}

impl GpuTexture {
    /// The label a texture gets when none is given: its channel count,
    /// texel byte cost, and size, spelled out.
    pub fn default_label(&self) -> (s: String)
        ensures
            s@ == label_text(
                spec_components(self.format) as nat,
                spec_pixel_byte_cost(self.format) as nat,
                self.size.width as nat,
                self.size.height as nat,
            ),
    {
        let mut s = u32_to_string(components(self.format));
        s.append(" channel, ");
        let b = u32_to_string(pixel_byte_cost(self.format));
        s.append(b.as_str());
        s.append(" bytes per pixel, ");
        let w = u32_to_string(self.size.width);
        s.append(w.as_str());
        s.append(" by ");
        let h = u32_to_string(self.size.height);
        s.append(h.as_str());
        s.append(" by 1 texture");
        proof {
            assert(s@ =~= label_text(
                spec_components(self.format) as nat,
                spec_pixel_byte_cost(self.format) as nat,
                self.size.width as nat,
                self.size.height as nat,
            ));
        }
        s
    }

    /// The first view created of this texture, which covers all of it.
    pub fn view_all(&self) -> (v: &GpuTextureView)
        requires
            self.views@.len() > 0,
        ensures
            *v == self.views@[0],
    {
        &self.views[0]
    }

    /// Creates one more full view of the texture, labelled after the
    /// texture's own label, and remembers it in `views`.
    pub fn new_view(&mut self)
        ensures
            final(self).label == old(self).label,
            final(self).dim == old(self).dim,
            final(self).format == old(self).format,
            final(self).size == old(self).size,
            final(self).usage == old(self).usage,
            final(self).raw == old(self).raw,
            final(self).views@.len() == old(self).views@.len() + 1,
            final(self).views@.subrange(0, old(self).views@.len() as int) == old(self).views@,
            final(self).views@.last().format == old(self).format,
            final(self).views@.last().dimension == TexDim::D2,
            final(self).views@.last().aspect == TexAspect::All,
            final(self).views@.last().base_mip_level == 0,
            final(self).views@.last().mip_level_count is None,
            final(self).views@.last().base_array_layer == 0,
            final(self).views@.last().array_layer_count is None,
    {
        let raw = match &self.label {
            Some(l) => {
                let s = String::from_str("View of ").concat(l.as_str());
                raw_create_view(&self.raw, Some(s.as_str()))
            },
            None => raw_create_view(&self.raw, None),
        };
        let view = GpuTextureView {
            raw,
            format: self.format,
            dimension: TexDim::D2,
            aspect: TexAspect::All,
            base_mip_level: 0,
            mip_level_count: None,
            base_array_layer: 0,
            array_layer_count: None,
        };
        self.views.push(view);
        proof {
            assert(self.views@.subrange(0, old(self).views@.len() as int) =~= old(self).views@);
        }
    }
}

impl GpuTextureView {
    /// Relies on the graphics API's render-pass attachment struct:
    /// describes this view as a colour attachment that clears to black
    /// at the start of the pass and stores at its end.
    #[verifier::external_body]
    pub fn attachment(&self) -> wgpu::RenderPassColorAttachment<'_> {
        wgpu::RenderPassColorAttachment {
            view: &self.raw,
            resolve_target: None,
            ops: wgpu::Operations {
                load: wgpu::LoadOp::Clear(wgpu::Color::BLACK),
                store: wgpu::StoreOp::Store,
            },
        }
    }
}

} // verus!
