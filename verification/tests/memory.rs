use awos::kernel_core::{MemoryDescriptorHandoff, UEFI_MEMORY_TYPE_CONVENTIONAL};
use awos::memory::{BootstrapAllocatorError, BootstrapPageAllocator};

fn descriptor(memory_type: u32, start: u64, page_count: u64) -> MemoryDescriptorHandoff {
    MemoryDescriptorHandoff {
        memory_type,
        reserved: 0,
        physical_start: start,
        page_count,
        attributes: 0,
    }
}

#[test]
fn allocates_lowest_pages_even_when_map_is_unsorted() {
    let map = [
        descriptor(UEFI_MEMORY_TYPE_CONVENTIONAL, 0x40_0000, 2),
        descriptor(UEFI_MEMORY_TYPE_CONVENTIONAL, 0x10_0000, 2),
        descriptor(UEFI_MEMORY_TYPE_CONVENTIONAL, 0x20_0000, 1),
    ];
    let mut allocator = BootstrapPageAllocator::new(&map).unwrap();

    assert_eq!(allocator.allocate_page().unwrap().start_address(), 0x10_0000);
    assert_eq!(allocator.allocate_page().unwrap().start_address(), 0x10_1000);
    assert_eq!(allocator.allocate_page().unwrap().start_address(), 0x20_0000);
    assert_eq!(allocator.allocate_page().unwrap().start_address(), 0x40_0000);
    assert_eq!(allocator.allocate_page().unwrap().start_address(), 0x40_1000);
    assert_eq!(allocator.allocate_page(), None);
    assert_eq!(allocator.allocated_pages(), 5);
}

#[test]
fn ignores_non_conventional_ranges() {
    let map = [
        descriptor(2, 0x10_0000, 8),
        descriptor(11, 0x20_0000, 8),
        descriptor(UEFI_MEMORY_TYPE_CONVENTIONAL, 0x30_0000, 1),
    ];
    let mut allocator = BootstrapPageAllocator::new(&map).unwrap();

    assert_eq!(allocator.allocate_page().unwrap().start_address(), 0x30_0000);
    assert_eq!(allocator.allocate_page(), None);
}

#[test]
fn rejects_invalid_descriptors() {
    let map = [MemoryDescriptorHandoff {
        memory_type: UEFI_MEMORY_TYPE_CONVENTIONAL,
        reserved: 0,
        physical_start: 0x10_0001,
        page_count: 1,
        attributes: 0,
    }];

    assert!(matches!(
        BootstrapPageAllocator::new(&map),
        Err(BootstrapAllocatorError::InvalidDescriptor)
    ));
}

#[test]
fn rejects_map_without_conventional_memory() {
    let map = [descriptor(2, 0x10_0000, 1), descriptor(11, 0x20_0000, 1)];

    assert!(matches!(
        BootstrapPageAllocator::new(&map),
        Err(BootstrapAllocatorError::NoConventionalMemory)
    ));
}

#[test]
fn rejects_empty_map() {
    assert!(matches!(
        BootstrapPageAllocator::new(&[] as &[MemoryDescriptorHandoff]),
        Err(BootstrapAllocatorError::EmptyMemoryMap)
    ));
}
