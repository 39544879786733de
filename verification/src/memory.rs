//! Bootstrap physical page allocator over the firmware memory map.

use vstd::prelude::*;
use crate::kernel_core::{MemoryDescriptorHandoff, UEFI_MEMORY_TYPE_CONVENTIONAL, UEFI_PAGE_SIZE};

verus! {

#[derive(Clone, Copy, Debug, PartialEq, Eq, Structural)]
pub struct PhysicalPage {
    start_address: u64,
}

impl PhysicalPage {
    pub closed spec fn spec_start_address(self) -> u64 {
        self.start_address
    }

    pub fn start_address(self) -> (r: u64)
        ensures
            r == self.spec_start_address(),
    {
        self.start_address
    }
}

#[derive(Clone, Copy, Debug, PartialEq, Eq, Structural)]
pub enum BootstrapAllocatorError {
    EmptyMemoryMap,
    InvalidDescriptor,
    NoConventionalMemory,
}

/// The lowest free address of descriptor `d` at or above `cursor`, if any.
pub open spec fn spec_candidate(d: MemoryDescriptorHandoff, cursor: u64) -> Option<u64> {
    if d.memory_type != UEFI_MEMORY_TYPE_CONVENTIONAL {
        None
    } else if d.spec_end() <= cursor {
        None
    } else {
        let c = if d.physical_start >= cursor {
            d.physical_start
        } else {
            cursor
        };
        if c >= d.spec_end() {
            None
        } else {
            Some(c)
        }
    }
}

/// True when `p` is the lowest candidate address over all descriptors.
pub open spec fn is_lowest_candidate(ds: Seq<MemoryDescriptorHandoff>, cursor: u64, p: u64) -> bool {
    &&& exists|i: int| 0 <= i < ds.len() && spec_candidate(ds[i], cursor) == Some(p)
    &&& forall|i: int|
        0 <= i < ds.len() && (#[trigger] spec_candidate(ds[i], cursor)) is Some ==> p
            <= spec_candidate(ds[i], cursor)->0
}

/// True when no descriptor has a free address at or above `cursor`.
pub open spec fn no_candidate(ds: Seq<MemoryDescriptorHandoff>, cursor: u64) -> bool {
    forall|i: int| 0 <= i < ds.len() ==> (#[trigger] spec_candidate(ds[i], cursor)) is None
}

/// Why a memory map cannot back the allocator, if it cannot.
pub open spec fn spec_map_error(ds: Seq<MemoryDescriptorHandoff>) -> Option<BootstrapAllocatorError> {
    if ds.len() == 0 {
        Some(BootstrapAllocatorError::EmptyMemoryMap)
    } else if exists|i: int| 0 <= i < ds.len() && !(#[trigger] ds[i].spec_is_valid()) {
        Some(BootstrapAllocatorError::InvalidDescriptor)
    } else if forall|i: int|
        0 <= i < ds.len() ==> (#[trigger] ds[i].memory_type) != UEFI_MEMORY_TYPE_CONVENTIONAL {
        Some(BootstrapAllocatorError::NoConventionalMemory)
    } else {
        None
    }
}

/// Hands out the lowest free conventional page above everything handed out
/// before, so pages are never handed out twice.
pub struct BootstrapPageAllocator<'a> {
    descriptors: &'a [MemoryDescriptorHandoff],
    cursor: u64,
    allocated_pages: u64,
}

impl<'a> BootstrapPageAllocator<'a> {
    /// The memory map the allocator draws from.
    pub closed spec fn spec_descriptors(&self) -> Seq<MemoryDescriptorHandoff> {
        self.descriptors@
    }

    /// Every address below the cursor has been handed out or skipped.
    pub closed spec fn spec_cursor(&self) -> u64 {
        self.cursor
    }

    pub closed spec fn spec_allocated_pages(&self) -> u64 {
        self.allocated_pages
    }

    #[verifier::type_invariant]
    closed spec fn well_formed(&self) -> bool {
        &&& forall|i: int| 0 <= i < self.descriptors@.len() ==> #[trigger] self.descriptors@[i].spec_is_valid()
        &&& self.cursor % UEFI_PAGE_SIZE == 0
    }

    pub fn new(descriptors: &'a [MemoryDescriptorHandoff]) -> (r: Result<Self, BootstrapAllocatorError>)
        ensures
            match r {
                Ok(a) => spec_map_error(descriptors@) is None && a.spec_descriptors() == descriptors@
                    && a.spec_cursor() == 0 && a.spec_allocated_pages() == 0,
                Err(e) => spec_map_error(descriptors@) == Some(e),
            },
    {
        if descriptors.len() == 0 {
            return Err(BootstrapAllocatorError::EmptyMemoryMap);
        }
        let mut has_conventional = false;
        let mut i: usize = 0;
        while i < descriptors.len()
            invariant
                i <= descriptors@.len(),
                forall|j: int| 0 <= j < i ==> #[trigger] descriptors@[j].spec_is_valid(),
                has_conventional == exists|j: int|
                    0 <= j < i && #[trigger] descriptors@[j].memory_type == UEFI_MEMORY_TYPE_CONVENTIONAL,
            decreases descriptors@.len() - i,
        {
            let d = descriptors[i];
            if !d.is_valid() {
                return Err(BootstrapAllocatorError::InvalidDescriptor);
            }
            if d.memory_type == UEFI_MEMORY_TYPE_CONVENTIONAL {
                has_conventional = true;
            }
            i = i + 1;
        }
        if !has_conventional {
            return Err(BootstrapAllocatorError::NoConventionalMemory);
        }
        Ok(Self { descriptors, cursor: 0, allocated_pages: 0 })
    }

    pub fn allocated_pages(&self) -> (r: u64)
        ensures
            r == self.spec_allocated_pages(),
    {
        self.allocated_pages
    }

    /// Allocates the lowest free conventional page at or above the cursor.
    ///
    /// The cursor only moves up, past each page handed out, so no page is
    /// handed out twice.
    pub fn allocate_page(&mut self) -> (r: Option<PhysicalPage>)
        ensures
            final(self).spec_descriptors() == old(self).spec_descriptors(),
            match spec_lowest_candidate(old(self).spec_descriptors(), old(self).spec_cursor()) {
                None => r is None && final(self).spec_cursor() == old(self).spec_cursor()
                    && final(self).spec_allocated_pages() == old(self).spec_allocated_pages(),
                Some(p) => if p + UEFI_PAGE_SIZE > u64::MAX {
                    r is None && final(self).spec_cursor() == old(self).spec_cursor()
                        && final(self).spec_allocated_pages() == old(self).spec_allocated_pages()
                } else if old(self).spec_allocated_pages() == u64::MAX {
                    r is None && final(self).spec_cursor() == p + UEFI_PAGE_SIZE
                        && final(self).spec_allocated_pages() == old(self).spec_allocated_pages()
                } else {
                    &&& r matches Some(page) && page.spec_start_address() == p
                    &&& final(self).spec_cursor() == p + UEFI_PAGE_SIZE
                    &&& final(self).spec_allocated_pages() == old(self).spec_allocated_pages() + 1
                },
            },
            no_candidate(old(self).spec_descriptors(), old(self).spec_cursor()) ==> r is None,
            r matches Some(page) ==> {
                &&& is_lowest_candidate(old(self).spec_descriptors(), old(self).spec_cursor(), page.spec_start_address())
                &&& page.spec_start_address() % UEFI_PAGE_SIZE == 0
                &&& old(self).spec_cursor() <= page.spec_start_address()
                &&& page.spec_start_address() < final(self).spec_cursor()
            },
            old(self).spec_cursor() <= final(self).spec_cursor(),
    {
        proof {
            use_type_invariant(&*self);
            lemma_lowest_candidate_is_least(self.descriptors@, self.cursor);
        }
        let mut best: Option<u64> = None;
        let cursor = self.cursor;
        let ds = self.descriptors;
        let mut i: usize = 0;
        assert(ds@.take(0) =~= Seq::<MemoryDescriptorHandoff>::empty());
        while i < ds.len()
            invariant
                i <= ds@.len(),
                forall|j: int| 0 <= j < ds@.len() ==> #[trigger] ds@[j].spec_is_valid(),
                best == spec_lowest_candidate(ds@.take(i as int), cursor),
            decreases ds@.len() - i,
        {
            let d = ds[i];
            assert(ds@.take(i + 1).drop_last() =~= ds@.take(i as int));
            assert(ds@.take(i + 1).last() == d);
            assert(d.spec_is_valid());
            if d.memory_type == UEFI_MEMORY_TYPE_CONVENTIONAL {
                let end = match d.physical_end_exclusive() {
                    Some(e) => e,
                    None => return None,
                };
                if end > cursor {
                    let candidate = if d.physical_start >= cursor {
                        d.physical_start
                    } else {
                        cursor
                    };
                    if candidate < end {
                        let better = match best {
                            None => true,
                            Some(current) => candidate < current,
                        };
                        if better {
                            best = Some(candidate);
                        }
                    }
                }
            }
            i = i + 1;
        }
        assert(ds@.take(ds@.len() as int) =~= ds@);
        let start_address = match best {
            Some(b) => b,
            None => return None,
        };
        if start_address > u64::MAX - UEFI_PAGE_SIZE {
            return None;
        }
        proof {
            lemma_lowest_candidate_is_aligned(ds@, cursor);
            assert(start_address as int % 4096 == 0 ==> (start_address as int + 4096) % 4096 == 0);
        }
        self.cursor = start_address + UEFI_PAGE_SIZE;
        if self.allocated_pages == u64::MAX {
            return None;
        }
        self.allocated_pages = self.allocated_pages + 1;
        Some(PhysicalPage { start_address })
    }
}

/// The lowest candidate address over the descriptors, scanning front to back.
pub open spec fn spec_lowest_candidate(ds: Seq<MemoryDescriptorHandoff>, cursor: u64) -> Option<u64>
    decreases ds.len(),
{
    if ds.len() == 0 {
        None
    } else {
        let rest = spec_lowest_candidate(ds.drop_last(), cursor);
        match (rest, spec_candidate(ds.last(), cursor)) {
            (None, c) => c,
            (Some(b), None) => Some(b),
            (Some(b), Some(c)) => if c < b {
                Some(c)
            } else {
                Some(b)
            },
        }
    }
}

/// Over a valid map and an aligned cursor, every candidate is page aligned
/// and at or above the cursor.
proof fn lemma_lowest_candidate_is_aligned(ds: Seq<MemoryDescriptorHandoff>, cursor: u64)
    requires
        forall|j: int| 0 <= j < ds.len() ==> #[trigger] ds[j].spec_is_valid(),
        cursor % UEFI_PAGE_SIZE == 0,
    ensures
        spec_lowest_candidate(ds, cursor) matches Some(p) ==> p % UEFI_PAGE_SIZE == 0 && p >= cursor,
    decreases ds.len(),
{
    if ds.len() > 0 {
        let d = ds.last();
        assert(d == ds[ds.len() - 1]);
        assert(d.spec_is_valid());
        assert forall|j: int| 0 <= j < ds.len() - 1 implies #[trigger] ds.drop_last()[j].spec_is_valid() by {
            assert(ds.drop_last()[j] == ds[j]);
        }
        lemma_lowest_candidate_is_aligned(ds.drop_last(), cursor);
        match spec_candidate(d, cursor) {
            Some(c) => {
                assert(c == d.physical_start || c == cursor);
                assert(c % UEFI_PAGE_SIZE == 0);
            },
            None => {},
        }
    }
}

/// The allocator answers with the least candidate address, and with none
/// exactly when no descriptor has room at or above the cursor; every answer
/// is page aligned and at or above the cursor.
pub proof fn lemma_lowest_candidate_is_least(ds: Seq<MemoryDescriptorHandoff>, cursor: u64)
    requires
        forall|j: int| 0 <= j < ds.len() ==> #[trigger] ds[j].spec_is_valid(),
        cursor % UEFI_PAGE_SIZE == 0,
    ensures
        spec_lowest_candidate(ds, cursor) is None <==> no_candidate(ds, cursor),
        spec_lowest_candidate(ds, cursor) matches Some(p) ==> is_lowest_candidate(ds, cursor, p)
            && p % UEFI_PAGE_SIZE == 0 && p >= cursor,
    decreases ds.len(),
{
    lemma_lowest_candidate_is_aligned(ds, cursor);
    if ds.len() > 0 {
        let prefix = ds.drop_last();
        let n = ds.len() - 1;
        assert(ds.last() == ds[n]);
        lemma_lowest_candidate_is_least(prefix, cursor);
        assert forall|j: int| 0 <= j < n implies #[trigger] prefix[j] == ds[j] by {}
        match spec_lowest_candidate(ds, cursor) {
            None => {
                assert forall|i: int| 0 <= i < ds.len() implies (#[trigger] spec_candidate(
                    ds[i],
                    cursor,
                )) is None by {
                    if i < n {
                        assert(prefix[i] == ds[i]);
                    }
                }
            },
            Some(p) => {
                let rest = spec_lowest_candidate(prefix, cursor);
                let w: int = if rest == Some(p) {
                    choose|i: int| 0 <= i < prefix.len() && spec_candidate(prefix[i], cursor) == Some(p)
                } else {
                    n
                };
                assert(0 <= w < ds.len() && spec_candidate(ds[w], cursor) == Some(p));
                assert forall|i: int|
                    0 <= i < ds.len() && (#[trigger] spec_candidate(ds[i], cursor)) is Some implies p
                        <= spec_candidate(ds[i], cursor)->0 by {
                    if i < n {
                        assert(prefix[i] == ds[i]);
                    }
                }
                if no_candidate(ds, cursor) {
                    assert(spec_candidate(ds[w], cursor) is None);
                }
            },
        }
    }
}

} // verus!
