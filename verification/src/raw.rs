//! Declarations of the graphics-API and image-decoder types that the
//! library's structs carry. Each is opaque here: the library never reads
//! inside one, it only stores and hands back the handles, and every call
//! on one stands behind a contracted wrapper.

use vstd::prelude::*;

verus! {

#[verifier::external_type_specification]
#[verifier::external_body]
pub struct ExDevice(wgpu::Device);

#[verifier::external_type_specification]
#[verifier::external_body]
pub struct ExQueue(wgpu::Queue);

#[verifier::external_type_specification]
#[verifier::external_body]
pub struct ExAdapter(wgpu::Adapter);

#[verifier::external_type_specification]
#[verifier::external_body]
pub struct ExBuffer(wgpu::Buffer);

#[verifier::external_type_specification]
#[verifier::external_body]
pub struct ExTexture(wgpu::Texture);

#[verifier::external_type_specification]
#[verifier::external_body]
pub struct ExTextureView(wgpu::TextureView);

#[verifier::external_type_specification]
#[verifier::external_body]
pub struct ExBindGroupLayout(wgpu::BindGroupLayout);

#[verifier::external_type_specification]
#[verifier::external_body]
pub struct ExBindGroup(wgpu::BindGroup);

#[verifier::external_type_specification]
#[verifier::external_body]
pub struct ExPipelineLayout(wgpu::PipelineLayout);

#[verifier::external_type_specification]
#[verifier::external_body]
pub struct ExSurfaceTexture(wgpu::SurfaceTexture);

#[verifier::external_type_specification]
#[verifier::external_body]
pub struct ExBufferBinding<'a>(wgpu::BufferBinding<'a>);

#[verifier::external_type_specification]
#[verifier::external_body]
pub struct ExRenderPassColorAttachment<'a>(wgpu::RenderPassColorAttachment<'a>);

#[verifier::external_type_specification]
#[verifier::external_body]
pub struct ExTextureFormat(wgpu::TextureFormat);

#[verifier::external_type_specification]
#[verifier::external_body]
pub struct ExTextureViewDimension(wgpu::TextureViewDimension);

#[verifier::external_type_specification]
#[verifier::external_body]
pub struct ExTextureSampleType(wgpu::TextureSampleType);

#[verifier::external_type_specification]
#[verifier::external_body]
pub struct ExBindingType(wgpu::BindingType);

#[verifier::external_type_specification]
#[verifier::external_body]
pub struct ExBindGroupLayoutEntry(wgpu::BindGroupLayoutEntry);

#[verifier::external_type_specification]
#[verifier::external_body]
pub struct ExBindGroupEntry<'a>(wgpu::BindGroupEntry<'a>);

#[verifier::external_type_specification]
#[verifier::external_body]
pub struct ExDynamicImage(image::DynamicImage);

#[verifier::external_type_specification]
#[verifier::external_body]
pub struct ExImageError(image::ImageError);

#[verifier::external_type_specification]
#[verifier::external_body]
pub struct ExIoError(std::io::Error);

/// Relies on the graphics API's `Device::clone`: the derived impl
/// duplicates a reference-counted handle, so the clone denotes the very
/// same logical device.
pub assume_specification[ <wgpu::Device as Clone>::clone ](d: &wgpu::Device) -> (r:
    wgpu::Device)
    ensures
        r == *d,
;

/// Relies on the graphics API's `Buffer::clone`: the derived impl
/// duplicates a reference-counted handle, so the clone denotes the very
/// same buffer allocation.
pub assume_specification[ <wgpu::Buffer as Clone>::clone ](b: &wgpu::Buffer) -> (r:
    wgpu::Buffer)
    ensures
        r == *b,
;

/// Relies on the graphics API's `TextureView::clone`: the derived impl
/// duplicates a reference-counted handle, so the clone denotes the very
/// same view.
pub assume_specification[ <wgpu::TextureView as Clone>::clone ](v: &wgpu::TextureView) -> (r:
    wgpu::TextureView)
    ensures
        r == *v,
;

} // verus!
