use gpukit::bindgroup::{BindingKind, LayoutSlot, STAGE_COMPUTE, STAGE_FRAGMENT, STAGE_VERTEX};
use gpukit::buffer::{
    GpuBuffer, BUFFER_USAGE_COPY_DST, BUFFER_USAGE_COPY_SRC, BUFFER_USAGE_STORAGE,
    BUFFER_USAGE_UNIFORM,
};
use gpukit::format::{Extent, SampleKind, TexAspect, TexDim, TexFormat};
use gpukit::gpu::{
    clamped_window_size, plan_surface, preferred_surface_format, preferred_view_format, Gpu,
    SurfaceConfig,
};
use gpukit::texture::PixelKind;
use gpukit::resource::ResourceManager;
use gpukit::texture::{
    TextureError, TEXTURE_USAGE_COPY_DST, TEXTURE_USAGE_RENDER_ATTACHMENT,
    TEXTURE_USAGE_TEXTURE_BINDING,
};

fn test_gpu() -> Gpu {
    let instance = wgpu::Instance::new(&wgpu::InstanceDescriptor {
        backends: wgpu::Backends::NOOP,
        flags: wgpu::InstanceFlags::default(),
        backend_options: wgpu::BackendOptions {
            gl: wgpu::GlBackendOptions::default(),
            dx12: wgpu::Dx12BackendOptions::default(),
            noop: wgpu::NoopBackendOptions { enable: true },
        },
    });
    let adapter =
        pollster::block_on(instance.request_adapter(&wgpu::RequestAdapterOptions::default()))
            .expect("the stub adapter should be available");
    let (device, queue) =
        pollster::block_on(adapter.request_device(&wgpu::DeviceDescriptor::default()))
            .expect("the stub device should be available");
    Gpu::from_parts(
        adapter,
        device,
        queue,
        SurfaceConfig {
            format: TexFormat::Bgra8Unorm,
            view_formats: vec![TexFormat::Bgra8UnormSrgb],
            width: 640,
            height: 480,
        },
    )
}

#[test]
fn uniform_buffer_facts() {
    let gpu = test_gpu();
    let contents = [7u8; 48];
    let b = gpu.new_uniform_buffer(&contents);
    assert_eq!(b.size, 48);
    assert_eq!(b.usage, BUFFER_USAGE_UNIFORM | BUFFER_USAGE_COPY_DST);
    let v = b.view(16, 32);
    assert_eq!(v.offset, 16);
    assert_eq!(v.size, 32);
    assert!(!v.read_only);
    assert_eq!(v.usage, b.usage);
    let r = b.view_read(0, 8);
    assert!(r.read_only);
    let a = b.view_all();
    assert_eq!(a.offset, 0);
    assert_eq!(a.size, 48);
}

#[test]
fn storage_buffer_facts() {
    let gpu = test_gpu();
    let b = gpu.new_storage_buffer(1024);
    assert_eq!(b.size, 1024);
    assert_eq!(
        b.usage,
        BUFFER_USAGE_STORAGE | BUFFER_USAGE_COPY_DST | BUFFER_USAGE_COPY_SRC
    );
}

#[test]
fn texture_facts_and_label() {
    let gpu = test_gpu();
    let t = gpu.new_texture(Extent { width: 64, height: 32 }, TexFormat::Rgba8UnormSrgb, false);
    assert_eq!(t.format, TexFormat::Rgba8UnormSrgb);
    assert_eq!(t.size, Extent { width: 64, height: 32 });
    assert_eq!(t.dim, TexDim::D2);
    assert_eq!(t.usage, TEXTURE_USAGE_COPY_DST | TEXTURE_USAGE_TEXTURE_BINDING);
    assert_eq!(
        t.label.as_deref(),
        Some("4 channel, 8 bytes per pixel, 64 by 32 by 1 texture")
    );
    assert_eq!(t.views.len(), 1);
    let v = t.view_all();
    assert_eq!(v.format, TexFormat::Rgba8UnormSrgb);
    assert_eq!(v.dimension, TexDim::D2);
    assert_eq!(v.aspect, TexAspect::All);
    assert_eq!(v.base_mip_level, 0);
    assert_eq!(v.mip_level_count, None);

    let r = gpu.new_texture(Extent { width: 8, height: 8 }, TexFormat::R8Unorm, true);
    assert_eq!(r.usage, TEXTURE_USAGE_RENDER_ATTACHMENT | TEXTURE_USAGE_TEXTURE_BINDING);
    assert_eq!(
        r.label.as_deref(),
        Some("1 channel, 1 bytes per pixel, 8 by 8 by 1 texture")
    );
}

#[test]
fn extra_views_accumulate() {
    let gpu = test_gpu();
    let mut t = gpu.new_texture(Extent { width: 4, height: 4 }, TexFormat::R8Unorm, false);
    t.new_view();
    assert_eq!(t.views.len(), 2);
    assert_eq!(t.views[1].format, TexFormat::R8Unorm);
    assert_eq!(t.views[1].aspect, TexAspect::All);
}

#[test]
fn builder_infers_kinds_and_indices() {
    let gpu = test_gpu();
    let mut manager = ResourceManager::new();
    let uniform = gpu.new_uniform_buffer(&[0u8; 16]);
    let storage = gpu.new_storage_buffer(256);
    let texture = gpu.new_texture(Extent { width: 4, height: 4 }, TexFormat::Rgba16Float, false);

    let mut builder = gpu.new_bind_group();
    builder.with_buffer(&uniform.view_all(), STAGE_VERTEX);
    builder.with_buffer(&storage.view_all(), STAGE_COMPUTE);
    builder.with_texture(&texture, STAGE_FRAGMENT);
    let bg = builder.finish(&mut manager);

    let expected = vec![
        LayoutSlot { binding: 0, visibility: STAGE_VERTEX, kind: BindingKind::UniformBuffer },
        LayoutSlot {
            binding: 1,
            visibility: STAGE_COMPUTE,
            kind: BindingKind::StorageBuffer { read_only: false },
        },
        LayoutSlot {
            binding: 2,
            visibility: STAGE_FRAGMENT,
            kind: BindingKind::SampledTexture {
                dim: TexDim::D2,
                sample: SampleKind::Float { filterable: true },
            },
        },
    ];
    assert_eq!(bg.entries.entries, expected);
    assert!(manager.contains(&bg.entries));
    assert!(manager.get_bind_group_layout(&bg.entries).is_some());
}

#[test]
fn uniform_capability_takes_precedence() {
    let gpu = test_gpu();
    let mut manager = ResourceManager::new();
    // a buffer declared for both uniform and storage use binds as uniform
    let raw = gpu.new_uniform_buffer(&[0u8; 16]).raw;
    let both = GpuBuffer {
        raw,
        size: 16,
        usage: BUFFER_USAGE_UNIFORM | BUFFER_USAGE_STORAGE | BUFFER_USAGE_COPY_DST,
    };
    let mut builder = gpu.new_bind_group();
    builder.with_buffer(&both.view_all(), STAGE_FRAGMENT);
    let bg = builder.finish(&mut manager);
    assert_eq!(bg.entries.entries[0].kind, BindingKind::UniformBuffer);
}

#[test]
fn layout_compiled_once_per_descriptor() {
    let gpu = test_gpu();
    let mut manager = ResourceManager::new();
    let uniform = gpu.new_uniform_buffer(&[0u8; 32]);

    let mut first = gpu.new_bind_group();
    first.with_buffer(&uniform.view_all(), STAGE_VERTEX);
    let a = first.finish(&mut manager);
    assert_eq!(manager.len(), 1);

    let other = gpu.new_uniform_buffer(&[1u8; 64]);
    let mut second = gpu.new_bind_group();
    second.with_buffer(&other.view_all(), STAGE_VERTEX);
    let b = second.finish(&mut manager);
    // same slot shape, same cached layout: nothing new compiled
    assert_eq!(manager.len(), 1);
    assert!(a.entries.matches(&b.entries));

    let mut third = gpu.new_bind_group();
    third.with_buffer(&other.view_all(), STAGE_FRAGMENT);
    third.finish(&mut manager);
    // different visibility, different descriptor
    assert_eq!(manager.len(), 2);
}

#[test]
fn pipeline_layout_from_cached_groups() {
    let gpu = test_gpu();
    let mut manager = ResourceManager::new();
    let uniform = gpu.new_uniform_buffer(&[0u8; 16]);
    let storage = gpu.new_storage_buffer(128);

    let mut first = gpu.new_bind_group();
    first.with_buffer(&uniform.view_all(), STAGE_VERTEX);
    let a = first.finish(&mut manager);

    let mut second = gpu.new_bind_group();
    second.with_buffer(&storage.view_all(), STAGE_COMPUTE);
    let b = second.finish(&mut manager);

    let groups = vec![&a, &b];
    let _layout = gpu.new_pipeline_layout(&manager, &groups);
}

#[test]
fn image_bytes_become_a_texture() {
    let gpu = test_gpu();
    let img = image::RgbaImage::from_pixel(2, 2, image::Rgba([10, 20, 30, 255]));
    let mut bytes: Vec<u8> = Vec::new();
    let encoder = image::codecs::png::PngEncoder::new(std::io::Cursor::new(&mut bytes));
    image::ImageEncoder::write_image(encoder, img.as_raw(), 2, 2, image::ExtendedColorType::Rgba8)
        .expect("png encoding should succeed");

    let tex = gpu.new_texture_from_bytes(&bytes).expect("a png should upload");
    assert_eq!(tex.format, TexFormat::Rgba8UnormSrgb);
    assert_eq!(tex.size, Extent { width: 2, height: 2 });
    assert_eq!(tex.usage, TEXTURE_USAGE_COPY_DST | TEXTURE_USAGE_TEXTURE_BINDING);
    assert_eq!(tex.views.len(), 1);
}

#[test]
fn undecodable_bytes_report_the_decoder_error() {
    let gpu = test_gpu();
    let err = gpu.new_texture_from_bytes(&[1, 2, 3]).err().expect("junk must not decode");
    match &err {
        TextureError::ImageError(_) => (),
        _ => panic!("expected the decoder's error"),
    }
    assert!(err.message().starts_with("Image error: "));
}

#[test]
fn other_error_message_is_exact() {
    let err = TextureError::Other(String::from("boom"));
    assert_eq!(err.message(), "Other error: boom");
}

#[test]
fn surface_views_prefer_srgb() {
    let cfg = SurfaceConfig {
        format: TexFormat::Bgra8Unorm,
        view_formats: vec![TexFormat::Bgra8Unorm, TexFormat::Bgra8UnormSrgb, TexFormat::Rgba8UnormSrgb],
        width: 100,
        height: 100,
    };
    assert_eq!(preferred_view_format(&cfg), TexFormat::Bgra8UnormSrgb);

    let plain = SurfaceConfig {
        format: TexFormat::Bgra8Unorm,
        view_formats: vec![TexFormat::Bgra8Unorm],
        width: 100,
        height: 100,
    };
    assert_eq!(preferred_view_format(&plain), TexFormat::Bgra8Unorm);

    let none = SurfaceConfig {
        format: TexFormat::Rgba8Unorm,
        view_formats: Vec::new(),
        width: 100,
        height: 100,
    };
    assert_eq!(preferred_view_format(&none), TexFormat::Rgba8Unorm);
}

#[test]
fn surface_format_negotiation_prefers_srgb() {
    let offered = vec![TexFormat::Bgra8Unorm, TexFormat::Rgba16Float, TexFormat::Bgra8UnormSrgb];
    assert_eq!(preferred_surface_format(&offered), TexFormat::Bgra8UnormSrgb);

    let linear_only = vec![TexFormat::Rgba16Float, TexFormat::Bgra8Unorm];
    assert_eq!(preferred_surface_format(&linear_only), TexFormat::Rgba16Float);
}

#[test]
fn surface_plan_offers_srgb_view_only_when_linear() {
    let with_srgb = vec![TexFormat::Bgra8Unorm, TexFormat::Bgra8UnormSrgb];
    let plan = plan_surface(&with_srgb);
    assert_eq!(plan.format, TexFormat::Bgra8UnormSrgb);
    assert_eq!(plan.srgb_view_format, None);

    let linear_only = vec![TexFormat::Bgra8Unorm];
    let plan = plan_surface(&linear_only);
    assert_eq!(plan.format, TexFormat::Bgra8Unorm);
    assert_eq!(plan.srgb_view_format, Some(TexFormat::Bgra8UnormSrgb));

    let no_sibling = vec![TexFormat::Rgba16Float];
    let plan = plan_surface(&no_sibling);
    assert_eq!(plan.format, TexFormat::Rgba16Float);
    // a format with no srgb sibling offers itself
    assert_eq!(plan.srgb_view_format, Some(TexFormat::Rgba16Float));
}

#[test]
fn window_sizes_clamp_to_one_texel() {
    let e = clamped_window_size(0, 0);
    assert_eq!((e.width, e.height), (1, 1));
    let e = clamped_window_size(640, 0);
    assert_eq!((e.width, e.height), (640, 1));
    let e = clamped_window_size(640, 480);
    assert_eq!((e.width, e.height), (640, 480));
}

#[test]
fn pixels_upload_with_exact_facts() {
    let gpu = test_gpu();
    let tex = gpu
        .new_texture_from_pixels(PixelKind::Luma8, 1, 1, &[5])
        .expect("a one-texel row fits");
    assert_eq!(tex.format, TexFormat::R8Unorm);
    assert_eq!(tex.size, Extent { width: 1, height: 1 });
    assert_eq!(tex.views.len(), 1);
}

#[test]
fn too_wide_rows_are_refused_before_any_upload() {
    let gpu = test_gpu();
    let too_wide = u32::MAX / 16 + 1;
    let err = gpu
        .new_texture_from_pixels(PixelKind::Rgba32F, too_wide, 1, &[])
        .err()
        .expect("a row wider than the stride limit must be refused");
    assert_eq!(err.message(), "Other error: image row too wide to upload");
}
