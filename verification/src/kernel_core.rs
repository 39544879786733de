//! The boot-to-kernel handoff record and the kernel image header.

pub mod image;

use vstd::prelude::*;

verus! {

pub const KERNEL_HANDOFF_MAGIC: u64 = 0x4157_4b48_4f46_4631;
pub const KERNEL_HANDOFF_ABI_VERSION: u32 = 1;
pub const HANDOFF_FLAG_FRAMEBUFFER_PRESENT: u64 = 1;
/// Size in bytes of the C layout of `KernelHandoff`.
pub const KERNEL_HANDOFF_SIZE: u32 = 72;
/// Page size used by UEFI allocations.
pub const UEFI_PAGE_SIZE: u64 = 4096;
/// The UEFI memory type of conventional (free) memory.
pub const UEFI_MEMORY_TYPE_CONVENTIONAL: u32 = 7;

#[derive(Clone, Copy, Debug, PartialEq, Eq, Structural)]
pub enum HandoffPixelFormat {
    Unknown,
    Rgb,
    Bgr,
    Bitmask,
}

#[derive(Clone, Copy, Debug, PartialEq, Eq, Structural)]
pub struct FramebufferHandoff {
    pub physical_address: u64,
    pub byte_len: u64,
    pub width: u32,
    pub height: u32,
    pub stride_pixels: u32,
    pub pixel_format: HandoffPixelFormat,
}

/// The framebuffer record of a handoff without a framebuffer.
pub open spec fn spec_no_framebuffer() -> FramebufferHandoff {
    FramebufferHandoff {
        physical_address: 0,
        byte_len: 0,
        width: 0,
        height: 0,
        stride_pixels: 0,
        pixel_format: HandoffPixelFormat::Unknown,
    }
}

impl FramebufferHandoff {
    /// The handoff that describes no framebuffer: every field zero.
    pub fn none() -> (r: Self)
        ensures
            r == spec_no_framebuffer(),
    {
        Self {
            physical_address: 0,
            byte_len: 0,
            width: 0,
            height: 0,
            stride_pixels: 0,
            pixel_format: HandoffPixelFormat::Unknown,
        }
    }

    pub open spec fn spec_dimensions_are_valid(self) -> bool {
        self.physical_address != 0 && self.byte_len != 0 && self.width != 0 && self.height != 0
            && self.stride_pixels >= self.width
    }

    pub fn dimensions_are_valid(self) -> (r: bool)
        ensures
            r == self.spec_dimensions_are_valid(),
    {
        self.physical_address != 0 && self.byte_len != 0 && self.width != 0 && self.height != 0
            && self.stride_pixels >= self.width
    }
}

#[derive(Clone, Copy, Debug, PartialEq, Eq, Structural)]
pub struct KernelHandoff {
    pub magic: u64,
    pub abi_version: u32,
    pub struct_size: u32,
    pub flags: u64,
    pub acpi_rsdp: u64,
    pub memory_map_entries: u64,
    pub framebuffer: FramebufferHandoff,
}

#[derive(Clone, Copy, Debug, PartialEq, Eq, Structural)]
pub enum HandoffError {
    InvalidMagic,
    UnsupportedAbiVersion,
    InvalidStructSize,
    MissingAcpiRsdp,
    EmptyMemoryMap,
    InvalidFramebuffer,
    UnexpectedFramebuffer,
}

/// Why a handoff is rejected, if it is.
pub open spec fn spec_handoff_error(h: KernelHandoff) -> Option<HandoffError> {
    let present = h.flags & HANDOFF_FLAG_FRAMEBUFFER_PRESENT != 0;
    if h.magic != KERNEL_HANDOFF_MAGIC {
        Some(HandoffError::InvalidMagic)
    } else if h.abi_version != KERNEL_HANDOFF_ABI_VERSION {
        Some(HandoffError::UnsupportedAbiVersion)
    } else if h.struct_size < KERNEL_HANDOFF_SIZE {
        Some(HandoffError::InvalidStructSize)
    } else if h.acpi_rsdp == 0 {
        Some(HandoffError::MissingAcpiRsdp)
    } else if h.memory_map_entries == 0 {
        Some(HandoffError::EmptyMemoryMap)
    } else if present && !h.framebuffer.spec_dimensions_are_valid() {
        Some(HandoffError::InvalidFramebuffer)
    } else if !present && h.framebuffer != spec_no_framebuffer() {
        Some(HandoffError::UnexpectedFramebuffer)
    } else {
        None
    }
}

impl KernelHandoff {
    pub fn new(acpi_rsdp: u64, memory_map_entries: u64, framebuffer: Option<FramebufferHandoff>) -> (r: Self)
        ensures
            r.magic == KERNEL_HANDOFF_MAGIC,
            r.abi_version == KERNEL_HANDOFF_ABI_VERSION,
            r.struct_size == KERNEL_HANDOFF_SIZE,
            r.acpi_rsdp == acpi_rsdp,
            r.memory_map_entries == memory_map_entries,
            match framebuffer {
                Some(f) => r.flags == HANDOFF_FLAG_FRAMEBUFFER_PRESENT && r.framebuffer == f,
                None => r.flags == 0 && r.framebuffer == spec_no_framebuffer(),
            },
    {
        match framebuffer {
            Some(framebuffer) => Self {
                magic: KERNEL_HANDOFF_MAGIC,
                abi_version: KERNEL_HANDOFF_ABI_VERSION,
                struct_size: KERNEL_HANDOFF_SIZE,
                flags: HANDOFF_FLAG_FRAMEBUFFER_PRESENT,
                acpi_rsdp,
                memory_map_entries,
                framebuffer,
            },
            None => Self {
                magic: KERNEL_HANDOFF_MAGIC,
                abi_version: KERNEL_HANDOFF_ABI_VERSION,
                struct_size: KERNEL_HANDOFF_SIZE,
                flags: 0,
                acpi_rsdp,
                memory_map_entries,
                framebuffer: FramebufferHandoff::none(),
            },
        }
    }

    pub fn validate(&self) -> (r: Result<(), HandoffError>)
        ensures
            match r {
                Ok(()) => spec_handoff_error(*self) is None,
                Err(e) => spec_handoff_error(*self) == Some(e),
            },
    {
        if self.magic != KERNEL_HANDOFF_MAGIC {
            return Err(HandoffError::InvalidMagic);
        }
        if self.abi_version != KERNEL_HANDOFF_ABI_VERSION {
            return Err(HandoffError::UnsupportedAbiVersion);
        }
        if self.struct_size < KERNEL_HANDOFF_SIZE {
            return Err(HandoffError::InvalidStructSize);
        }
        if self.acpi_rsdp == 0 {
            return Err(HandoffError::MissingAcpiRsdp);
        }
        if self.memory_map_entries == 0 {
            return Err(HandoffError::EmptyMemoryMap);
        }
        let framebuffer_present = self.flags & HANDOFF_FLAG_FRAMEBUFFER_PRESENT != 0;
        if framebuffer_present && !self.framebuffer.dimensions_are_valid() {
            return Err(HandoffError::InvalidFramebuffer);
        }
        if !framebuffer_present && self.framebuffer != FramebufferHandoff::none() {
            return Err(HandoffError::UnexpectedFramebuffer);
        }
        Ok(())
    }
}

/// A handoff built by `KernelHandoff::new` from a nonzero RSDP, a nonempty
/// memory map and either no framebuffer or a valid one always validates.
pub proof fn lemma_constructed_handoff_validates(h: KernelHandoff, framebuffer: Option<FramebufferHandoff>)
    requires
        h.magic == KERNEL_HANDOFF_MAGIC,
        h.abi_version == KERNEL_HANDOFF_ABI_VERSION,
        h.struct_size == KERNEL_HANDOFF_SIZE,
        h.acpi_rsdp != 0,
        h.memory_map_entries != 0,
        match framebuffer {
            Some(f) => h.flags == HANDOFF_FLAG_FRAMEBUFFER_PRESENT && h.framebuffer == f
                && f.spec_dimensions_are_valid(),
            None => h.flags == 0 && h.framebuffer == spec_no_framebuffer(),
        },
    ensures
        spec_handoff_error(h) is None,
{
    assert(1u64 & 1u64 != 0 && 0u64 & 1u64 == 0) by (bit_vector);
}

/// Validates the handoff at kernel entry.
pub fn enter(handoff: &KernelHandoff) -> (r: Result<(), HandoffError>)
    ensures
        match r {
            Ok(()) => spec_handoff_error(*handoff) is None,
            Err(e) => spec_handoff_error(*handoff) == Some(e),
        },
{
    handoff.validate()
}

/// One UEFI memory descriptor as handed to the kernel.
#[derive(Clone, Copy, Debug, PartialEq, Eq, Structural)]
pub struct MemoryDescriptorHandoff {
    pub memory_type: u32,
    pub reserved: u32,
    pub physical_start: u64,
    pub page_count: u64,
    pub attributes: u64,
}

impl MemoryDescriptorHandoff {
    /// End of the described range, as a mathematical integer.
    pub open spec fn spec_end(self) -> int {
        self.physical_start + self.page_count * UEFI_PAGE_SIZE
    }

    /// A descriptor is valid when it is page aligned, nonempty and ends below 2^64.
    pub open spec fn spec_is_valid(self) -> bool {
        &&& self.physical_start % UEFI_PAGE_SIZE == 0
        &&& self.page_count != 0
        &&& self.spec_end() <= u64::MAX
    }

    /// First address after the described range, if it is representable.
    pub fn physical_end_exclusive(&self) -> (r: Option<u64>)
        ensures
            r is Some <==> self.spec_end() <= u64::MAX,
            r matches Some(e) ==> e == self.spec_end(),
    {
        let bytes = match self.page_count.checked_mul(UEFI_PAGE_SIZE) {
            Some(b) => b,
            None => return None,
        };
        self.physical_start.checked_add(bytes)
    }

    /// True for a page-aligned, nonempty descriptor whose end is representable.
    pub fn is_valid(&self) -> (r: bool)
        ensures
            r == self.spec_is_valid(),
    {
        self.physical_start % UEFI_PAGE_SIZE == 0 && self.page_count != 0
            && self.physical_end_exclusive().is_some()
    }
}

} // verus!
