//! Bind-group descriptors and the bind-group builder.
//!
//! A bind-group layout descriptor is an ordered sequence of slots; each
//! slot holds its binding index, the shader stages that may access it,
//! and the kind of resource bound there. Two descriptors are equal iff
//! their slot sequences are element-wise equal. The builder accumulates
//! slots one at a time, assigning binding indices sequentially from zero,
//! and `finish` compiles the group against the process-wide layout cache.

use vstd::prelude::*;
use vstd::pervasive::unreached;
use crate::buffer::{GpuBufferView, BUFFER_USAGE_UNIFORM, BUFFER_USAGE_STORAGE};
use crate::format::{SampleKind, TexDim};
use crate::format::sample_kind;
use crate::resource::ResourceManager;
use crate::texture::GpuTexture;

verus! {

pub const STAGE_VERTEX: u32 = 0x1;
pub const STAGE_FRAGMENT: u32 = 0x2;
pub const STAGE_COMPUTE: u32 = 0x4;

/// The kind of resource a bind-group slot holds.
#[derive(Clone, Copy, Debug, PartialEq, Eq, Structural)]
pub enum BindingKind {
    UniformBuffer,
    StorageBuffer { read_only: bool },
    SampledTexture { dim: TexDim, sample: SampleKind },
}

/// One slot of a bind-group layout descriptor.
#[derive(Clone, Copy, Debug, PartialEq, Eq, Structural)]
pub struct LayoutSlot {
    pub binding: u32,
    pub visibility: u32,
    pub kind: BindingKind,
}

/// A bind-group layout descriptor: the ordered slot sequence that keys
/// the layout cache.
pub struct BindGroupLayoutEntries {
    pub entries: Vec<LayoutSlot>,
}

impl View for BindGroupLayoutEntries {
    type V = Seq<LayoutSlot>;

    open spec fn view(&self) -> Seq<LayoutSlot> {
        self.entries@
    }
}

impl BindGroupLayoutEntries {
    pub fn new() -> (r: Self)
        ensures
            r@ =~= Seq::<LayoutSlot>::empty(),
    {
        BindGroupLayoutEntries { entries: Vec::new() }
    }

    /// A copy of the descriptor, slot for slot.
    pub fn duplicate(&self) -> (r: Self)
        ensures
            r@ == self@,
    {
        let mut entries: Vec<LayoutSlot> = Vec::new();
        let mut i: usize = 0;
        while i < self.entries.len()
            invariant
                i <= self.entries@.len(),
                entries@ =~= self.entries@.subrange(0, i as int),
            decreases self.entries@.len() - i,
        {
            entries.push(self.entries[i]);
            i = i + 1;
        }
        proof {
            assert(entries@ =~= self.entries@);
        }
        BindGroupLayoutEntries { entries }
    }

    /// Descriptor equality: the slot sequences are element-wise equal.
    pub fn matches(&self, other: &Self) -> (r: bool)
        ensures
            r == (self@ == other@),
    {
        if self.entries.len() != other.entries.len() {
            return false;
        }
        let mut i: usize = 0;
        while i < self.entries.len()
            invariant
                i <= self.entries@.len(),
                self.entries@.len() == other.entries@.len(),
                forall|j: int| 0 <= j < i ==> self.entries@[j] == other.entries@[j],
            decreases self.entries@.len() - i,
        {
            if self.entries[i] != other.entries[i] {
                return false;
            }
            i = i + 1;
        }
        proof {
            assert(self@ =~= other@);
        }
        true
    }

    pub fn len(&self) -> (r: usize)
        ensures
            r == self@.len(),
    {
        self.entries.len()
    }
}

/// A concrete resource bound into one slot of a bind group.
pub enum BoundResource {
    Buffer { raw: wgpu::Buffer, offset: u64, size: u64 },
    Texture { view: wgpu::TextureView },
}

/// A compiled bind group together with the descriptor it was compiled
/// against; the descriptor is what looks the shared layout back up when
/// bind groups are composed into a pipeline layout.
pub struct GpuBindGroup {
    pub raw: wgpu::BindGroup,
    pub entries: BindGroupLayoutEntries,
}

/// Accumulates bind-group slots one at a time, then compiles the group.
pub struct BGBuilder {
    layout_entries: BindGroupLayoutEntries,
    entries: Vec<BoundResource>,
    device: wgpu::Device,
}

/// Relies on the graphics API's `Device::create_bind_group_layout`:
/// compiles a layout from the lowered slot entries.
#[verifier::external_body]
fn raw_create_bind_group_layout(
    device: &wgpu::Device,
    entries: &Vec<wgpu::BindGroupLayoutEntry>,
) -> wgpu::BindGroupLayout {
    device.create_bind_group_layout(&wgpu::BindGroupLayoutDescriptor {
        label: None,
        entries: entries.as_slice(),
    })
}

/// Relies on the graphics API's `Device::create_bind_group`: compiles a
/// bind group over the given layout and entries.
#[verifier::external_body]
fn raw_create_bind_group(
    device: &wgpu::Device,
    layout: &wgpu::BindGroupLayout,
    entries: &Vec<wgpu::BindGroupEntry>,
) -> wgpu::BindGroup {
    device.create_bind_group(&wgpu::BindGroupDescriptor {
        label: None,
        layout,
        entries: entries.as_slice(),
    })
}

/// Converts one collected resource to the API's bind-group entry at the
/// given binding index.
#[verifier::external_body]
fn lower_resource<'a>(binding: u32, r: &'a BoundResource) -> wgpu::BindGroupEntry<'a> {
    let resource = match r {
        BoundResource::Buffer { raw, offset, size } => {
            wgpu::BindingResource::Buffer(wgpu::BufferBinding {
                buffer: raw,
                offset: *offset,
                size: std::num::NonZeroU64::new(*size),
            })
        },
        BoundResource::Texture { view } => wgpu::BindingResource::TextureView(view),
    };
    wgpu::BindGroupEntry { binding, resource }
}

/// Converts one slot's view dimensionality to the API's own enum.
#[verifier::external_body]
fn lower_dim(d: TexDim) -> wgpu::TextureViewDimension {
    match d {
        TexDim::D1 => wgpu::TextureViewDimension::D1,
        TexDim::D2 => wgpu::TextureViewDimension::D2,
        TexDim::D2Array => wgpu::TextureViewDimension::D2Array,
        TexDim::Cube => wgpu::TextureViewDimension::Cube,
        TexDim::CubeArray => wgpu::TextureViewDimension::CubeArray,
        TexDim::D3 => wgpu::TextureViewDimension::D3,
    }
}

/// Converts one slot's sample kind to the API's own enum.
#[verifier::external_body]
fn lower_sample(s: SampleKind) -> wgpu::TextureSampleType {
    match s {
        SampleKind::Float { filterable } => wgpu::TextureSampleType::Float { filterable },
    }
}

/// Converts one slot's resource kind to the API's binding type.
#[verifier::external_body]
fn lower_kind(k: BindingKind) -> wgpu::BindingType {
    let buffer = |ty: wgpu::BufferBindingType| wgpu::BindingType::Buffer { ty, has_dynamic_offset: false, min_binding_size: None };
    match k {
        BindingKind::UniformBuffer => buffer(wgpu::BufferBindingType::Uniform),
        BindingKind::StorageBuffer { read_only } => buffer(wgpu::BufferBindingType::Storage { read_only }),
        BindingKind::SampledTexture { dim, sample } => wgpu::BindingType::Texture { sample_type: lower_sample(sample), view_dimension: lower_dim(dim), multisampled: false },
    }
}

/// Converts one descriptor slot to the API's layout entry.
#[verifier::external_body]
fn lower_slot(s: &LayoutSlot) -> wgpu::BindGroupLayoutEntry {
    wgpu::BindGroupLayoutEntry {
        binding: s.binding,
        visibility: wgpu::ShaderStages::from_bits_truncate(s.visibility),
        ty: lower_kind(s.kind),
        count: None,
    }
}

/// Lowers every slot of a descriptor, in order.
fn lower_slots(slots: &Vec<LayoutSlot>) -> (r: Vec<wgpu::BindGroupLayoutEntry>)
    ensures
        r@.len() == slots@.len(),
{
    let mut r: Vec<wgpu::BindGroupLayoutEntry> = Vec::new();
    let mut i: usize = 0;
    while i < slots.len()
        invariant
            i <= slots@.len(),
            r@.len() == i,
        decreases slots@.len() - i,
    {
        r.push(lower_slot(&slots[i]));
        i = i + 1;
    }
    r
}

impl BGBuilder {
    /// The slot sequence accumulated so far.
    pub closed spec fn slots(self) -> Seq<LayoutSlot> {
        self.layout_entries@
    }

    /// The concrete resources collected so far, one per slot.
    pub closed spec fn resources(self) -> Seq<BoundResource> {
        self.entries@
    }

    /// How many concrete resources have been collected so far.
    pub open spec fn n_bound(self) -> nat {
        self.resources().len()
    }

    /// One resource per slot, and binding indices are assigned
    /// sequentially in call order starting at zero.
    pub open spec fn wf(self) -> bool {
        &&& self.slots().len() == self.n_bound()
        &&& forall|i: int| 0 <= i < self.slots().len() ==> #[trigger] self.slots()[i].binding == i
    }

    pub fn new(device: &wgpu::Device) -> (b: BGBuilder)
        ensures
            b.wf(),
            b.slots() =~= Seq::<LayoutSlot>::empty(),
            b.resources() =~= Seq::<BoundResource>::empty(),
    {
        BGBuilder {
            device: device.clone(),
            entries: Vec::new(),
            layout_entries: BindGroupLayoutEntries::new(),
        }
    }

    /// Adds a buffer slot. The resource kind is inferred from the usage
    /// the buffer was declared with: uniform-capable buffers bind as
    /// uniform slots, otherwise storage-capable ones bind as read-write
    /// storage slots. A buffer declared for neither use is a contract
    /// violation, ruled out by the precondition.
    pub fn with_buffer(&mut self, view: &GpuBufferView, visibility: u32)
        requires
            old(self).wf(),
            view.usage & BUFFER_USAGE_UNIFORM != 0 || view.usage & BUFFER_USAGE_STORAGE != 0,
            old(self).slots().len() < u32::MAX,
        ensures
            final(self).wf(),
            final(self).slots() == old(self).slots().push(
                (LayoutSlot {
                    binding: old(self).slots().len() as u32,
                    visibility: visibility,
                    kind: if view.usage & BUFFER_USAGE_UNIFORM != 0 {
                        BindingKind::UniformBuffer
                    } else {
                        (BindingKind::StorageBuffer { read_only: false })
                    },
                }),
            ),
            final(self).resources() == old(self).resources().push(
                (BoundResource::Buffer { raw: view.raw, offset: view.offset, size: view.size }),
            ),
    {
        let kind = if view.usage & BUFFER_USAGE_UNIFORM != 0 {
            BindingKind::UniformBuffer
        } else {
            BindingKind::StorageBuffer { read_only: false }
        };
        let slot = LayoutSlot {
            binding: self.layout_entries.len() as u32,
            visibility,
            kind,
        };
        self.layout_entries.entries.push(slot);
        self.entries.push(
            BoundResource::Buffer { raw: view.raw.clone(), offset: view.offset, size: view.size },
        );
        proof {
            assert(self.slots() =~= old(self).slots().push(slot));
            assert(self.resources() =~= old(self).resources().push(
                (BoundResource::Buffer { raw: view.raw, offset: view.offset, size: view.size }),
            ));
        }
    }

    /// Adds a sampled-texture slot, in the texture's own dimensionality
    /// and with the sample kind its format supports; binds the texture's
    /// first (whole) view as the concrete resource.
    pub fn with_texture(&mut self, texture: &GpuTexture, visibility: u32)
        requires
            old(self).wf(),
            texture.views@.len() > 0,
            old(self).slots().len() < u32::MAX,
        ensures
            final(self).wf(),
            final(self).slots() == old(self).slots().push(
                (LayoutSlot {
                    binding: old(self).slots().len() as u32,
                    visibility: visibility,
                    kind: (BindingKind::SampledTexture {
                        dim: texture.dim,
                        sample: crate::format::spec_sample_kind(texture.format),
                    }),
                }),
            ),
            final(self).resources() == old(self).resources().push(
                (BoundResource::Texture { view: texture.views@[0].raw }),
            ),
    {
        let slot = LayoutSlot {
            binding: self.layout_entries.len() as u32,
            visibility,
            kind: BindingKind::SampledTexture {
                dim: texture.dim,
                sample: sample_kind(texture.format),
            },
        };
        self.layout_entries.entries.push(slot);
        let view = texture.view_all();
        self.entries.push(BoundResource::Texture { view: view.raw.clone() });
        proof {
            assert(self.slots() =~= old(self).slots().push(slot));
            assert(self.resources() =~= old(self).resources().push(
                (BoundResource::Texture { view: texture.views@[0].raw }),
            ));
        }
    }

    /// Compiles the accumulated bind group. Looks the descriptor up in
    /// the cache; on a miss, compiles a new layout and inserts it, so
    /// that afterwards exactly one layout exists for this descriptor.
    /// The returned group carries a copy of the descriptor, which later
    /// looks the shared layout back up.
    pub fn finish(&self, manager: &mut ResourceManager) -> (bg: GpuBindGroup)
        requires
            self.wf(),
            old(manager).wf(),
        ensures
            final(manager).wf(),
            bg.entries@ == self.slots(),
            final(manager).spec_contains(self.slots()),
            old(manager).spec_contains(self.slots()) ==> *final(manager) == *old(manager),
            !old(manager).spec_contains(self.slots()) ==> final(manager).keys() == old(
                manager,
            ).keys().push(self.slots()),
            !old(manager).spec_contains(self.slots()) ==> final(manager).layouts().len() == old(
                manager,
            ).layouts().len() + 1 && final(manager).layouts().subrange(
                0,
                old(manager).layouts().len() as int,
            ) == old(manager).layouts(),
            old(manager).keys().len() <= final(manager).keys().len() <= old(manager).keys().len()
                + 1,
    {
        let present = manager.contains(&self.layout_entries);
        if !present {
            let lowered = lower_slots(&self.layout_entries.entries);
            let layout = raw_create_bind_group_layout(&self.device, &lowered);
            manager.insert_layout(&self.layout_entries, layout);
            proof {
                assert(manager.keys()[manager.keys().len() - 1] == self.slots());
                assert(manager.spec_contains(self.slots()));
                assert(manager.layouts().subrange(0, old(manager).layouts().len() as int) =~= old(
                    manager,
                ).layouts());
            }
        }
        match manager.get_bind_group_layout(&self.layout_entries) {
            Some(layout) => {
                let mut lowered_entries: Vec<wgpu::BindGroupEntry> = Vec::new();
                let mut i: usize = 0;
                while i < self.entries.len()
                    invariant
                        i <= self.entries@.len(),
                        self.wf(),
                    decreases self.entries@.len() - i,
                {
                    proof {
                        assert(self.slots()[i as int].binding == i as int);
                    }
                    lowered_entries.push(lower_resource(i as u32, &self.entries[i]));
                    i = i + 1;
                }
                let raw = raw_create_bind_group(&self.device, layout, &lowered_entries);
                GpuBindGroup { raw, entries: self.layout_entries.duplicate() }
            },
            None => unreached(),
        }
    }
}

} // verus!
