//! The bundle of core GPU handles, and the resource-creation helpers.

use vstd::prelude::*;
use vstd::pervasive::unreached;
use vstd::string::StringExecFns;
use crate::bindgroup::{BGBuilder, GpuBindGroup};
use crate::buffer::{
    GpuBuffer, BUFFER_USAGE_COPY_DST, BUFFER_USAGE_COPY_SRC, BUFFER_USAGE_STORAGE,
    BUFFER_USAGE_UNIFORM,
};
use crate::format::{is_srgb, spec_is_srgb, Extent, TexAspect, TexDim, TexFormat};
use crate::resource::ResourceManager;
use crate::texture::{
    spec_upload_format, upload_format, GpuTexture, GpuTextureView, PixelKind, TextureError,
    TEXTURE_USAGE_COPY_DST, TEXTURE_USAGE_RENDER_ATTACHMENT, TEXTURE_USAGE_TEXTURE_BINDING,
};

verus! {

/// The surface facts the library's own logic reads: the configured
/// format, the extra formats views of the surface may take, and the
/// configured size.
pub struct SurfaceConfig {
    pub format: TexFormat,
    pub view_formats: Vec<TexFormat>,
    pub width: u32,
    pub height: u32,
}

/// The core GPU handles in one place, so they are easier to construct
/// and pass around. The embedder negotiates the adapter and device and
/// configures the surface; this type carries the handles from then on.
pub struct Gpu {
    pub adapter: wgpu::Adapter,
    pub device: wgpu::Device,
    pub queue: wgpu::Queue,
    pub surface_config: SurfaceConfig,
}

/// Converts a modelled format to the API's own enum.
#[verifier::external_body]
fn lower_format(f: TexFormat) -> wgpu::TextureFormat {
    match f {
        TexFormat::R8Unorm => wgpu::TextureFormat::R8Unorm,
        TexFormat::Rg8Unorm => wgpu::TextureFormat::Rg8Unorm,
        TexFormat::Rgba8Unorm => wgpu::TextureFormat::Rgba8Unorm,
        TexFormat::Rgba8UnormSrgb => wgpu::TextureFormat::Rgba8UnormSrgb,
        TexFormat::Bgra8Unorm => wgpu::TextureFormat::Bgra8Unorm,
        TexFormat::Bgra8UnormSrgb => wgpu::TextureFormat::Bgra8UnormSrgb,
        TexFormat::Rg16Float => wgpu::TextureFormat::Rg16Float,
        TexFormat::Rgba16Float => wgpu::TextureFormat::Rgba16Float,
        TexFormat::R32Float => wgpu::TextureFormat::R32Float,
        TexFormat::Rgba32Float => wgpu::TextureFormat::Rgba32Float,
    }
}

/// Relies on the graphics API's `Device::create_buffer`: allocates an
/// unmapped buffer of the given size and usage bits.
#[verifier::external_body]
fn raw_create_buffer(device: &wgpu::Device, size: u64, usage: u32) -> wgpu::Buffer {
    device.create_buffer(&wgpu::BufferDescriptor {
        label: None,
        mapped_at_creation: false,
        size,
        usage: wgpu::BufferUsages::from_bits_truncate(usage),
    })
}

/// Relies on the graphics API's `Queue::write_buffer`: schedules the
/// bytes to be copied into the buffer at the given offset.
#[verifier::external_body]
fn raw_write_buffer(queue: &wgpu::Queue, buffer: &wgpu::Buffer, offset: u64, data: &[u8]) {
    queue.write_buffer(buffer, offset, data);
}

/// Relies on the graphics API's `Device::create_texture`: creates a
/// two-dimensional, single-sample, single-mip texture of the given size,
/// format and usage bits.
#[verifier::external_body]
fn raw_create_texture(
    device: &wgpu::Device,
    width: u32,
    height: u32,
    format: wgpu::TextureFormat,
    usage: u32,
) -> wgpu::Texture {
    device.create_texture(&wgpu::TextureDescriptor {
        dimension: wgpu::TextureDimension::D2,
        format,
        size: wgpu::Extent3d { width, height, depth_or_array_layers: 1 },
        label: None,
        mip_level_count: 1,
        sample_count: 1,
        usage: wgpu::TextureUsages::from_bits_truncate(usage),
        view_formats: &[],
    })
}

/// Relies on the graphics API's `Queue::write_texture`: schedules the
/// bytes to fill the whole two-dimensional texture, rows packed at the
/// given stride.
#[verifier::external_body]
fn raw_write_texture(
    queue: &wgpu::Queue,
    texture: &wgpu::Texture,
    data: &[u8],
    bytes_per_row: u32,
    width: u32,
    height: u32,
) {
    queue.write_texture(
        texture.as_image_copy(),
        data,
        wgpu::TexelCopyBufferLayout { bytes_per_row: Some(bytes_per_row), rows_per_image: None, offset: 0 },
        wgpu::Extent3d { width, height, depth_or_array_layers: 1 },
    );
}

/// Relies on the graphics API's `Texture::create_view` on a surface
/// texture: creates a view of it in the given format.
#[verifier::external_body]
fn raw_create_surface_view(
    surface_texture: &wgpu::SurfaceTexture,
    format: wgpu::TextureFormat,
) -> wgpu::TextureView {
    let mut desc = wgpu::TextureViewDescriptor::default();
    desc.format = Some(format);
    surface_texture.texture.create_view(&desc)
}

/// Relies on the graphics API's `Device::create_pipeline_layout`:
/// composes the given bind-group layouts, in order, with no push
/// constants.
#[verifier::external_body]
fn raw_create_pipeline_layout(
    device: &wgpu::Device,
    layouts: &Vec<&wgpu::BindGroupLayout>,
) -> wgpu::PipelineLayout {
    device.create_pipeline_layout(&wgpu::PipelineLayoutDescriptor {
        label: None,
        bind_group_layouts: layouts.as_slice(),
        push_constant_ranges: &[],
    })
}

/// What decoding an encoded image yields: decoding is a function of the
/// encoded bytes alone, so its outcome bears a name — `None` when the
/// bytes do not decode, else the decoded width, height, pixel layout and
/// pixel bytes.
pub uninterp spec fn spec_decode(bytes: Seq<u8>) -> Option<(u32, u32, PixelKind, Seq<u8>)>;

/// Relies on the image crate's `load_from_memory` (format guessed from
/// the bytes), `dimensions` and `as_bytes`: decodes an encoded image and
/// hands its facts out as plain values, or the decoder's error.
#[verifier::external_body]
fn raw_decode(bytes: &[u8]) -> (r: Result<(u32, u32, PixelKind, Vec<u8>), image::ImageError>)
    ensures
        r matches Ok(d) ==> spec_decode(bytes@) == Some((d.0, d.1, d.2, d.3@)),
        r is Err ==> spec_decode(bytes@) is None,
{
    match image::load_from_memory(bytes) {
        Ok(img) => {
            let (width, height) = image::GenericImageView::dimensions(&img);
            Ok((width, height, raw_image_kind(&img), img.as_bytes().to_vec()))
        },
        Err(e) => Err(e),
    }
}

/// Tells the decoded image's pixel layout apart, one arm per variant.
#[verifier::external_body]
fn raw_image_kind(img: &image::DynamicImage) -> PixelKind {
    match img {
        image::DynamicImage::ImageLuma8(_) => PixelKind::Luma8,
        image::DynamicImage::ImageLumaA8(_) => PixelKind::LumaA8,
        image::DynamicImage::ImageRgb8(_) => PixelKind::Rgb8,
        image::DynamicImage::ImageRgba8(_) => PixelKind::Rgba8,
        image::DynamicImage::ImageLuma16(_) => PixelKind::Luma16,
        image::DynamicImage::ImageLumaA16(_) => PixelKind::LumaA16,
        image::DynamicImage::ImageRgb16(_) => PixelKind::Rgb16,
        image::DynamicImage::ImageRgba16(_) => PixelKind::Rgba16,
        image::DynamicImage::ImageRgb32F(_) => PixelKind::Rgb32F,
        image::DynamicImage::ImageRgba32F(_) => PixelKind::Rgba32F,
        _ => PixelKind::Other,
    }
}

/// The format a surface is configured with: the first sRGB format among
/// the formats the surface supports, or the first supported format when
/// none is sRGB.
pub fn preferred_surface_format(formats: &Vec<TexFormat>) -> (f: TexFormat)
    requires
        formats@.len() > 0,
    ensures
        (exists|i: int| 0 <= i < formats@.len() && spec_is_srgb(formats@[i])) ==> (exists|i: int|
            0 <= i < formats@.len() && f == formats@[i] && spec_is_srgb(f) && (forall|j: int|
                0 <= j < i ==> !spec_is_srgb(#[trigger] formats@[j]))),
        !(exists|i: int| 0 <= i < formats@.len() && spec_is_srgb(formats@[i])) ==> f == formats@[0],
{
    let mut chosen: TexFormat = formats[0];
    let mut found: bool = false;
    let mut i: usize = 0;
    while i < formats.len()
        invariant
            formats@.len() > 0,
            i <= formats@.len(),
            !found ==> forall|j: int| 0 <= j < i ==> !spec_is_srgb(#[trigger] formats@[j]),
            !found ==> chosen == formats@[0],
            found ==> (exists|k: int|
                0 <= k < i && chosen == formats@[k] && spec_is_srgb(chosen) && (forall|j: int|
                    0 <= j < k ==> !spec_is_srgb(#[trigger] formats@[j]))),
        decreases formats@.len() - i,
    {
        if !found && is_srgb(formats[i]) {
            chosen = formats[i];
            found = true;
        }
        i = i + 1;
    }
    chosen
}

/// How a surface should be configured: the chosen surface format and,
/// when that choice is linear, the sRGB sibling to offer views in.
pub struct SurfacePlan {
    pub format: TexFormat,
    pub srgb_view_format: Option<TexFormat>,
}

/// Plans the surface configuration over the formats the surface
/// supports: the first sRGB format, or the first supported one when
/// none is sRGB; a linear choice offers its sRGB sibling as an extra
/// view format, an sRGB choice offers nothing.
pub fn plan_surface(formats: &Vec<TexFormat>) -> (p: SurfacePlan)
    requires
        formats@.len() > 0,
    ensures
        (exists|i: int| 0 <= i < formats@.len() && spec_is_srgb(formats@[i])) ==> (exists|i: int|
            0 <= i < formats@.len() && p.format == formats@[i] && spec_is_srgb(p.format) && (
            forall|j: int| 0 <= j < i ==> !spec_is_srgb(#[trigger] formats@[j]))),
        !(exists|i: int| 0 <= i < formats@.len() && spec_is_srgb(formats@[i])) ==> p.format
            == formats@[0],
        spec_is_srgb(p.format) ==> p.srgb_view_format is None,
        !spec_is_srgb(p.format) ==> p.srgb_view_format == Some(
            crate::format::spec_add_srgb_suffix(p.format),
        ),
{
    let format = preferred_surface_format(formats);
    let srgb_view_format = if is_srgb(format) {
        None
    } else {
        Some(crate::format::add_srgb_suffix(format))
    };
    SurfacePlan { format, srgb_view_format }
}

/// The drawable size a window's inner size maps to: each side at least
/// one texel.
pub fn clamped_window_size(width: u32, height: u32) -> (e: Extent)
    ensures
        e.width == if width == 0 { 1u32 } else { width },
        e.height == if height == 0 { 1u32 } else { height },
{
    Extent {
        width: if width == 0 { 1 } else { width },
        height: if height == 0 { 1 } else { height },
    }
}

/// The format surface views are taken in: the first sRGB format among
/// the configured view formats, or the surface's own format when no
/// sRGB one is offered.
pub fn preferred_view_format(cfg: &SurfaceConfig) -> (f: TexFormat)
    ensures
        (exists|i: int|
            0 <= i < cfg.view_formats@.len() && spec_is_srgb(cfg.view_formats@[i])) ==> (
        exists|i: int|
            0 <= i < cfg.view_formats@.len() && f == cfg.view_formats@[i] && spec_is_srgb(f) && (
            forall|j: int| 0 <= j < i ==> !spec_is_srgb(#[trigger] cfg.view_formats@[j]))),
        !(exists|i: int|
            0 <= i < cfg.view_formats@.len() && spec_is_srgb(cfg.view_formats@[i])) ==> f
            == cfg.format,
{
    let mut chosen: TexFormat = cfg.format;
    let mut found: bool = false;
    let mut i: usize = 0;
    while i < cfg.view_formats.len()
        invariant
            i <= cfg.view_formats@.len(),
            !found ==> forall|j: int|
                0 <= j < i ==> !spec_is_srgb(#[trigger] cfg.view_formats@[j]),
            !found ==> chosen == cfg.format,
            found ==> (exists|k: int|
                0 <= k < i && chosen == cfg.view_formats@[k] && spec_is_srgb(chosen) && (
                forall|j: int| 0 <= j < k ==> !spec_is_srgb(#[trigger] cfg.view_formats@[j]))),
        decreases cfg.view_formats@.len() - i,
    {
        if !found && is_srgb(cfg.view_formats[i]) {
            chosen = cfg.view_formats[i];
            found = true;
        }
        i = i + 1;
    }
    chosen
}

impl Gpu {
    /// Bundles already-negotiated handles. The embedder requests the
    /// adapter and device and configures the surface, then hands the
    /// handles over here.
    pub fn from_parts(
        adapter: wgpu::Adapter,
        device: wgpu::Device,
        queue: wgpu::Queue,
        surface_config: SurfaceConfig,
    ) -> (g: Gpu)
        ensures
            g.adapter == adapter,
            g.device == device,
            g.queue == queue,
            g.surface_config == surface_config,
    {
        Gpu { adapter, device, queue, surface_config }
    }

    /// Starts an empty bind-group builder on this device.
    pub fn new_bind_group(&self) -> (b: BGBuilder)
        ensures
            b.wf(),
            b.slots() =~= Seq::<crate::bindgroup::LayoutSlot>::empty(),
    {
        BGBuilder::new(&self.device)
    }

    /// Composes the shared layouts of the given bind groups, in order,
    /// into a pipeline layout. Every group's descriptor must already be
    /// cached — which holds for any group `finish` produced with this
    /// manager.
    pub fn new_pipeline_layout(
        &self,
        resources: &ResourceManager,
        bind_groups: &Vec<&GpuBindGroup>,
    ) -> wgpu::PipelineLayout
        requires
            resources.wf(),
            forall|i: int|
                0 <= i < bind_groups@.len() ==> resources.spec_contains(
                    #[trigger] bind_groups@[i].entries@,
                ),
    {
        let mut layouts: Vec<&wgpu::BindGroupLayout> = Vec::new();
        let mut i: usize = 0;
        while i < bind_groups.len()
            invariant
                i <= bind_groups@.len(),
                resources.wf(),
                forall|j: int|
                    0 <= j < bind_groups@.len() ==> resources.spec_contains(
                        #[trigger] bind_groups@[j].entries@,
                    ),
            decreases bind_groups@.len() - i,
        {
            match resources.get_bind_group_layout(&bind_groups[i].entries) {
                Some(l) => layouts.push(l),
                None => unreached(),
            }
            i = i + 1;
        }
        raw_create_pipeline_layout(&self.device, &layouts)
    }

    /// Creates a two-dimensional texture of the given size and format.
    /// Renderable textures can be drawn to and sampled; other textures
    /// can be uploaded to and sampled. The texture is labelled with its
    /// default label and comes with one full view.
    pub fn new_texture(&self, size: Extent, format: TexFormat, renderable: bool) -> (t:
        GpuTexture)
        ensures
            t.format == format,
            t.size == size,
            t.dim == TexDim::D2,
            renderable ==> t.usage == TEXTURE_USAGE_RENDER_ATTACHMENT
                | TEXTURE_USAGE_TEXTURE_BINDING,
            !renderable ==> t.usage == TEXTURE_USAGE_COPY_DST | TEXTURE_USAGE_TEXTURE_BINDING,
            t.label matches Some(l) && l@ == crate::texture::label_text(
                crate::format::spec_components(format) as nat,
                crate::format::spec_pixel_byte_cost(format) as nat,
                size.width as nat,
                size.height as nat,
            ),
            t.views@.len() == 1,
            t.views@[0].format == format,
            t.views@[0].dimension == TexDim::D2,
            t.views@[0].aspect == TexAspect::All,
            t.views@[0].base_mip_level == 0,
            t.views@[0].mip_level_count is None,
            t.views@[0].base_array_layer == 0,
            t.views@[0].array_layer_count is None,
    {
        let usage = if renderable {
            TEXTURE_USAGE_RENDER_ATTACHMENT | TEXTURE_USAGE_TEXTURE_BINDING
        } else {
            TEXTURE_USAGE_COPY_DST | TEXTURE_USAGE_TEXTURE_BINDING
        };
        let raw = raw_create_texture(&self.device, size.width, size.height, lower_format(format), usage);
        let mut tex = GpuTexture {
            raw,
            label: None,
            dim: TexDim::D2,
            format,
            size,
            usage,
            views: Vec::new(),
        };
        let label = tex.default_label();
        tex.label = Some(label);
        tex.new_view();
        tex
    }

    /// A view of the frame's surface texture, in the first sRGB format
    /// the surface was configured to offer views in, or in the surface's
    /// own format when it offers none.
    pub fn get_surface_view(&self, surface_texture: &wgpu::SurfaceTexture) -> (v: GpuTextureView)
        ensures
            (exists|i: int|
                0 <= i < self.surface_config.view_formats@.len() && spec_is_srgb(
                    self.surface_config.view_formats@[i],
                )) ==> (exists|i: int|
                0 <= i < self.surface_config.view_formats@.len() && v.format
                    == self.surface_config.view_formats@[i] && spec_is_srgb(v.format) && (
                forall|j: int|
                    0 <= j < i ==> !spec_is_srgb(
                        #[trigger] self.surface_config.view_formats@[j],
                    ))),
            !(exists|i: int|
                0 <= i < self.surface_config.view_formats@.len() && spec_is_srgb(
                    self.surface_config.view_formats@[i],
                )) ==> v.format == self.surface_config.format,
            v.dimension == TexDim::D2,
            v.aspect == TexAspect::All,
            v.base_mip_level == 0,
            v.mip_level_count is None,
            v.base_array_layer == 0,
            v.array_layer_count is None,
    {
        let chosen = preferred_view_format(&self.surface_config);
        let raw = raw_create_surface_view(surface_texture, lower_format(chosen));
        GpuTextureView {
            raw,
            format: chosen,
            dimension: TexDim::D2,
            aspect: TexAspect::All,
            base_mip_level: 0,
            mip_level_count: None,
            base_array_layer: 0,
            array_layer_count: None,
        }
    }

    /// Creates a uniform buffer of exactly the given bytes and schedules
    /// them to be written into it.
    pub fn new_uniform_buffer(&self, contents: &[u8]) -> (b: GpuBuffer)
        ensures
            b.size == contents@.len(),
            b.usage == BUFFER_USAGE_UNIFORM | BUFFER_USAGE_COPY_DST,
    {
        let size = contents.len() as u64;
        let usage = BUFFER_USAGE_UNIFORM | BUFFER_USAGE_COPY_DST;
        let raw = raw_create_buffer(&self.device, size, usage);
        raw_write_buffer(&self.queue, &raw, 0, contents);
        GpuBuffer { raw, size, usage }
    }

    /// Creates an empty storage buffer of the given size, copyable in
    /// both directions.
    pub fn new_storage_buffer(&self, size: u64) -> (b: GpuBuffer)
        ensures
            b.size == size,
            b.usage == BUFFER_USAGE_STORAGE | BUFFER_USAGE_COPY_DST | BUFFER_USAGE_COPY_SRC,
    {
        let usage = BUFFER_USAGE_STORAGE | BUFFER_USAGE_COPY_DST | BUFFER_USAGE_COPY_SRC;
        let raw = raw_create_buffer(&self.device, size, usage);
        GpuBuffer { raw, size, usage }
    }

    /// Uploads already-decoded pixels as a two-dimensional texture:
    /// picks the upload format for the pixel layout, creates a texture
    /// of the given size, and schedules the pixel rows to be written at
    /// the format's byte cost per pixel. Succeeds exactly when one row
    /// fits the API's 32-bit stride.
    pub fn new_texture_from_pixels(
        &self,
        kind: PixelKind,
        width: u32,
        height: u32,
        data: &[u8],
    ) -> (r: Result<GpuTexture, TextureError>)
        ensures
            r is Ok <==> width <= u32::MAX as int / spec_upload_format(kind).1 as int,
            r matches Ok(t) ==> {
                &&& t.format == spec_upload_format(kind).0
                &&& t.size == (Extent { width, height })
                &&& t.dim == TexDim::D2
                &&& t.usage == TEXTURE_USAGE_COPY_DST | TEXTURE_USAGE_TEXTURE_BINDING
                &&& t.views@.len() == 1
            },
            r is Err ==> r->Err_0 is Other,
    {
        let (format, bytes_per_pixel) = upload_format(kind);
        if width > u32::MAX / bytes_per_pixel {
            return Err(TextureError::Other(String::from_str("image row too wide to upload")));
        }
        proof {
            assert(width * bytes_per_pixel <= u32::MAX) by (nonlinear_arith)
                requires
                    width <= u32::MAX as int / bytes_per_pixel as int,
                    1 <= bytes_per_pixel <= 16,
            ;
        }
        let bytes_per_row = width * bytes_per_pixel;
        let tex = self.new_texture(Extent { width, height }, format, false);
        raw_write_texture(&self.queue, &tex.raw, data, bytes_per_row, width, height);
        Ok(tex)
    }

    /// Decodes an encoded image and uploads it as a texture. Succeeds
    /// exactly when the bytes decode and one decoded row, at the upload
    /// format's byte cost per pixel, fits the API's 32-bit stride; the
    /// texture then takes the decoded size and the upload format of the
    /// decoded pixel layout. Undecodable bytes yield the decoder's error.
    pub fn new_texture_from_bytes(&self, bytes: &[u8]) -> (r: Result<GpuTexture, TextureError>)
        ensures
            spec_decode(bytes@) is None ==> r is Err && r->Err_0 is ImageError,
            spec_decode(bytes@) matches Some(d) ==> {
                &&& (r is Ok <==> d.0 <= u32::MAX as int / spec_upload_format(d.2).1 as int)
                &&& (r matches Ok(t) ==> t.format == spec_upload_format(d.2).0 && t.size == (
                Extent { width: d.0, height: d.1 }) && t.dim == TexDim::D2 && t.usage
                    == TEXTURE_USAGE_COPY_DST | TEXTURE_USAGE_TEXTURE_BINDING && t.views@.len()
                    == 1)
                &&& (r is Err ==> r->Err_0 is Other)
            },
    {
        match raw_decode(bytes) {
            Ok((width, height, kind, data)) => {
                self.new_texture_from_pixels(kind, width, height, data.as_slice())
            },
            Err(e) => Err(TextureError::ImageError(e)),
        }
    }
}

} // verus!
