use awos::kernel_contract::{
    Architecture, BootInfo, Firmware, FramebufferInfo, MemoryRegionKind, PhysicalMemoryRegion,
    PixelFormat,
};

#[test]
fn rejects_overflowing_memory_region() {
    let regions = [PhysicalMemoryRegion {
        start: u64::MAX - 3,
        length: 8,
        kind: MemoryRegionKind::Usable,
    }];
    let info = BootInfo {
        architecture: Architecture::X86_64,
        firmware: Firmware::Uefi,
        memory_regions: &regions,
        framebuffer: None,
    };

    assert!(!info.basic_invariants_hold());
}

#[test]
fn accepts_minimal_valid_boot_info() {
    let regions = [PhysicalMemoryRegion {
        start: 0x10_0000,
        length: 0x20_0000,
        kind: MemoryRegionKind::Usable,
    }];
    let info = BootInfo {
        architecture: Architecture::X86_64,
        firmware: Firmware::Uefi,
        memory_regions: &regions,
        framebuffer: Some(FramebufferInfo {
            physical_address: 0x8000_0000,
            byte_len: 1920 * 1080 * 4,
            width: 1920,
            height: 1080,
            stride_pixels: 1920,
            format: PixelFormat::Bgr,
        }),
    };

    assert!(info.basic_invariants_hold());
}

#[test]
fn region_end_and_emptiness() {
    let region = PhysicalMemoryRegion {
        start: 0x1000,
        length: 0x2000,
        kind: MemoryRegionKind::Usable,
    };
    assert_eq!(region.end_exclusive(), Some(0x3000));
    assert!(!region.is_empty());
    let overflowing = PhysicalMemoryRegion {
        start: u64::MAX - 3,
        length: 8,
        kind: MemoryRegionKind::Usable,
    };
    assert_eq!(overflowing.end_exclusive(), None);
}
