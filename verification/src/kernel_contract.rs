//! The public boot contract between the boot environment and the kernel entry path.

use vstd::prelude::*;

verus! {

/// CPU architectures intentionally supported by the public boot contract.
#[derive(Clone, Copy, Debug, PartialEq, Eq, Structural)]
pub enum Architecture {
    X86_64,
    Aarch64,
}

/// Firmware environments accepted by the project.
#[derive(Clone, Copy, Debug, PartialEq, Eq, Structural)]
pub enum Firmware {
    Uefi,
}

#[derive(Clone, Copy, Debug, PartialEq, Eq, Structural)]
pub enum MemoryRegionKind {
    Usable,
    Firmware,
    Runtime,
    Acpi,
    Mmio,
    Reserved,
}

#[derive(Clone, Copy, Debug, PartialEq, Eq, Structural)]
pub struct PhysicalMemoryRegion {
    pub start: u64,
    pub length: u64,
    pub kind: MemoryRegionKind,
}

impl PhysicalMemoryRegion {
    /// A region is well formed when it is nonempty and its end fits in 64 bits.
    pub open spec fn spec_is_valid(self) -> bool {
        self.length != 0 && self.start + self.length <= u64::MAX
    }

    pub fn end_exclusive(self) -> (r: Option<u64>)
        ensures
            r is Some <==> self.start + self.length <= u64::MAX,
            r matches Some(e) ==> e == self.start + self.length,
    {
        self.start.checked_add(self.length)
    }

    pub fn is_empty(self) -> (r: bool)
        ensures
            r == (self.length == 0),
    {
        self.length == 0
    }
}

#[derive(Clone, Copy, Debug, PartialEq, Eq, Structural)]
pub enum PixelFormat {
    Rgb,
    Bgr,
}

#[derive(Clone, Copy, Debug, PartialEq, Eq, Structural)]
pub struct FramebufferInfo {
    pub physical_address: u64,
    pub byte_len: u64,
    pub width: u32,
    pub height: u32,
    pub stride_pixels: u32,
    pub format: PixelFormat,
}

impl FramebufferInfo {
    pub open spec fn spec_dimensions_are_valid(self) -> bool {
        self.width > 0 && self.height > 0 && self.stride_pixels >= self.width && self.byte_len > 0
    }

    pub fn dimensions_are_valid(self) -> (r: bool)
        ensures
            r == self.spec_dimensions_are_valid(),
    {
        self.width > 0 && self.height > 0 && self.stride_pixels >= self.width && self.byte_len > 0
    }
}

/// Data passed from the future boot environment into the kernel entry path.
///
/// The contract intentionally owns no allocator-backed objects so it can be
/// consumed before the kernel heap exists.
#[derive(Clone, Copy, Debug)]
pub struct BootInfo<'a> {
    pub architecture: Architecture,
    pub firmware: Firmware,
    pub memory_regions: &'a [PhysicalMemoryRegion],
    pub framebuffer: Option<FramebufferInfo>,
}

impl BootInfo<'_> {
    /// Every memory region is well formed and any framebuffer has valid dimensions.
    pub open spec fn spec_basic_invariants_hold(&self) -> bool {
        &&& forall|i: int|
            0 <= i < self.memory_regions@.len() ==> #[trigger] self.memory_regions@[i].spec_is_valid()
        &&& match self.framebuffer {
            Some(f) => f.spec_dimensions_are_valid(),
            None => true,
        }
    }

    pub fn basic_invariants_hold(&self) -> (r: bool)
        ensures
            r == self.spec_basic_invariants_hold(),
    {
        let mut i: usize = 0;
        let mut memory_map_is_valid = true;
        while i < self.memory_regions.len()
            invariant
                i <= self.memory_regions@.len(),
                memory_map_is_valid == forall|j: int|
                    0 <= j < i ==> #[trigger] self.memory_regions@[j].spec_is_valid(),
            decreases self.memory_regions@.len() - i,
        {
            let region = self.memory_regions[i];
            let ok = !region.is_empty() && region.end_exclusive().is_some();
            proof {
                assert(ok == self.memory_regions@[i as int].spec_is_valid());
                if forall|j: int|
                    0 <= j < i + 1 ==> #[trigger] self.memory_regions@[j].spec_is_valid() {
                    assert forall|j: int| 0 <= j < i implies #[trigger] self.memory_regions@[
                        j
                    ].spec_is_valid() by {}
                    assert(self.memory_regions@[i as int].spec_is_valid());
                }
                if memory_map_is_valid && ok {
                    assert forall|j: int| 0 <= j < i + 1 implies #[trigger] self.memory_regions@[
                        j
                    ].spec_is_valid() by {
                        if j < i {
                        }
                    }
                }
            }
            memory_map_is_valid = memory_map_is_valid && ok;
            i = i + 1;
        }
        let framebuffer_is_valid = match self.framebuffer {
            Some(f) => f.dimensions_are_valid(),
            None => true,
        };
        memory_map_is_valid && framebuffer_is_valid
    }
}

} // verus!
