//! The process-wide cache of compiled bind-group layouts.
//!
//! The cache maps layout descriptors to compiled layout handles. Keys are
//! immutable once inserted, insertion order does not matter to lookups,
//! and only one compiled layout ever exists per distinct descriptor for
//! the lifetime of the manager.

use vstd::prelude::*;
use crate::bindgroup::{BindGroupLayoutEntries, LayoutSlot};

verus! {

/// Caches bind-group layouts, keyed by their slot-sequence descriptor.
pub struct ResourceManager {
    keys: Vec<BindGroupLayoutEntries>,
    layouts: Vec<wgpu::BindGroupLayout>,
}

impl ResourceManager {
    /// The descriptors cached so far, in insertion order.
    pub closed spec fn keys(self) -> Seq<Seq<LayoutSlot>> {
        self.keys@.map_values(|k: BindGroupLayoutEntries| k@)
    }

    /// The compiled layouts, positionally matching `keys`.
    pub closed spec fn layouts(self) -> Seq<wgpu::BindGroupLayout> {
        self.layouts@
    }

    /// One layout per key, and all keys distinct: at most one compiled
    /// layout ever exists per descriptor.
    pub open spec fn wf(self) -> bool {
        &&& self.layouts().len() == self.keys().len()
        &&& forall|i: int, j: int|
            0 <= i < j < self.keys().len() ==> self.keys()[i] != self.keys()[j]
    }

    /// Whether a layout for this descriptor has been compiled already.
    pub open spec fn spec_contains(self, d: Seq<LayoutSlot>) -> bool {
        exists|i: int| 0 <= i < self.keys().len() && self.keys()[i] == d
    }

    pub fn new() -> (r: Self)
        ensures
            r.wf(),
            r.keys() =~= Seq::<Seq<LayoutSlot>>::empty(),
    {
        ResourceManager { keys: Vec::new(), layouts: Vec::new() }
    }

    /// The position of the descriptor among the cached keys, if any.
    fn find(&self, layout_entries: &BindGroupLayoutEntries) -> (r: Option<usize>)
        ensures
            match r {
                Some(i) => i < self.keys().len() && self.keys()[i as int] == layout_entries@,
                None => !self.spec_contains(layout_entries@),
            },
    {
        let mut i: usize = 0;
        while i < self.keys.len()
            invariant
                i <= self.keys@.len(),
                forall|j: int| 0 <= j < i ==> self.keys()[j] != layout_entries@,
            decreases self.keys@.len() - i,
        {
            if self.keys[i].matches(layout_entries) {
                return Some(i);
            }
            i = i + 1;
        }
        None
    }

    /// How many distinct descriptors have layouts cached.
    pub fn len(&self) -> (r: usize)
        ensures
            r == self.keys().len(),
    {
        self.keys.len()
    }

    /// Whether a layout for this descriptor is cached.
    pub fn contains(&self, layout_entries: &BindGroupLayoutEntries) -> (r: bool)
        ensures
            r == self.spec_contains(layout_entries@),
    {
        self.find(layout_entries).is_some()
    }

    /// The cached layout for this descriptor: `Some` exactly when one was
    /// inserted, and then the very handle stored beside the equal key.
    pub fn get_bind_group_layout(&self, layout_entries: &BindGroupLayoutEntries) -> (r: Option<
        &wgpu::BindGroupLayout,
    >)
        requires
            self.wf(),
        ensures
            match r {
                Some(l) => self.spec_contains(layout_entries@) && (exists|i: int|
                    0 <= i < self.keys().len() && self.keys()[i] == layout_entries@
                        && *l == self.layouts()[i]),
                None => !self.spec_contains(layout_entries@),
            },
    {
        match self.find(layout_entries) {
            Some(i) => Some(&self.layouts[i]),
            None => None,
        }
    }

    /// Only one compiled layout ever exists per distinct descriptor: in
    /// a well-formed cache a descriptor can stand at one position only,
    /// so every lookup of it yields the same compiled layout.
    pub proof fn lemma_one_layout_per_descriptor(self, i: int, j: int)
        requires
            self.wf(),
            0 <= i < self.keys().len(),
            0 <= j < self.keys().len(),
            self.keys()[i] == self.keys()[j],
        ensures
            i == j,
            self.layouts()[i] == self.layouts()[j],
    {
    }

    /// Inserts the compiled layout for a descriptor not cached yet.
    pub fn insert_layout(&mut self, layout_entries: &BindGroupLayoutEntries, layout: wgpu::BindGroupLayout)
        requires
            old(self).wf(),
            !old(self).spec_contains(layout_entries@),
        ensures
            final(self).wf(),
            final(self).keys() == old(self).keys().push(layout_entries@),
            final(self).layouts() == old(self).layouts().push(layout),
    {
        self.keys.push(layout_entries.duplicate());
        self.layouts.push(layout);
        proof {
            assert(self.keys() =~= old(self).keys().push(layout_entries@));
            assert forall|i: int, j: int| 0 <= i < j < self.keys().len() implies self.keys()[i]
                != self.keys()[j] by {
                if j == self.keys().len() - 1 {
                    assert(!old(self).spec_contains(self.keys()[j]));
                }
            }
        }
    }
}

} // verus!
