//! Buffers and buffer views.
//!
//! A `GpuBuffer` pairs the raw API handle with the two facts the library's
//! own logic reads: the byte size and the usage flags the buffer was
//! created with. The flag bits mirror the graphics API's buffer-usage
//! bitmask.

use vstd::prelude::*;

verus! {

pub const BUFFER_USAGE_MAP_READ: u32 = 0x1;
pub const BUFFER_USAGE_MAP_WRITE: u32 = 0x2;
pub const BUFFER_USAGE_COPY_SRC: u32 = 0x4;
pub const BUFFER_USAGE_COPY_DST: u32 = 0x8;
pub const BUFFER_USAGE_INDEX: u32 = 0x10;
pub const BUFFER_USAGE_VERTEX: u32 = 0x20;
pub const BUFFER_USAGE_UNIFORM: u32 = 0x40;
pub const BUFFER_USAGE_STORAGE: u32 = 0x80;

/// A GPU buffer together with the size and usage it was created with.
pub struct GpuBuffer {
    pub raw: wgpu::Buffer,
    pub size: u64,
    pub usage: u32,
}

/// A byte range of a buffer, to be bound to a shader stage. Holds its own
/// handle to the buffer (handles are reference counted), plus the range
/// and the facts a bind-group builder reads.
pub struct GpuBufferView {
    pub raw: wgpu::Buffer,
    pub offset: u64,
    pub size: u64,
    pub read_only: bool,
    pub usage: u32,
}

impl GpuBuffer {
    /// A writable view of the byte range `[offset, offset + size)`.
    pub fn view(&self, offset: u64, size: u64) -> (v: GpuBufferView)
        ensures
            v.offset == offset,
            v.size == size,
            !v.read_only,
            v.usage == self.usage,
    {
        GpuBufferView {
            raw: self.raw.clone(),
            offset,
            size,
            read_only: false,
            usage: self.usage,
        }
    }

    /// A writable view of the whole buffer.
    pub fn view_all(&self) -> (v: GpuBufferView)
        ensures
            v.offset == 0,
            v.size == self.size,
            !v.read_only,
            v.usage == self.usage,
    {
        GpuBufferView {
            raw: self.raw.clone(),
            offset: 0,
            size: self.size,
            read_only: false,
            usage: self.usage,
        }
    }

    /// A read-only view of the byte range `[offset, offset + size)`.
    pub fn view_read(&self, offset: u64, size: u64) -> (v: GpuBufferView)
        ensures
            v.offset == offset,
            v.size == size,
            v.read_only,
            v.usage == self.usage,
    {
        GpuBufferView {
            raw: self.raw.clone(),
            offset,
            size,
            read_only: true,
            usage: self.usage,
        }
    }
}

impl GpuBufferView {
    /// Relies on the graphics API's buffer-binding struct: describes the
    /// view's byte range of its buffer, a zero size standing for the
    /// rest of the buffer.
    #[verifier::external_body]
    pub fn binding(&self) -> wgpu::BufferBinding<'_> {
        wgpu::BufferBinding {
            buffer: &self.raw,
            offset: self.offset,
            size: std::num::NonZeroU64::new(self.size),
        }
    }
}

} // verus!
