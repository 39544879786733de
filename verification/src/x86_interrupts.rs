//! Pure encoding and validation for the x86-64 Global Descriptor Table (GDT)
//! and Interrupt Descriptor Table (IDT).
//!
//! Nothing here loads a table into the CPU: it builds the byte-exact
//! descriptor values and answers the classification questions (does this
//! exception push an error code, what gate type does it need) that the
//! kernel needs before it executes `lgdt`/`lidt`. [`ioapic`] and [`msi`]
//! do the same for the two routes a device interrupt can take.

pub mod ioapic;
pub mod msi;

use vstd::prelude::*;

verus! {

/// CPU privilege level used by both segment and gate descriptors.
#[derive(Clone, Copy, Debug, PartialEq, Eq, Structural)]
pub enum PrivilegeLevel {
    Ring0,
    Ring3,
}

impl PrivilegeLevel {
    /// The two-bit level: 0 or 3.
    pub open spec fn spec_level(self) -> u16 {
        match self {
            PrivilegeLevel::Ring0 => 0,
            PrivilegeLevel::Ring3 => 3,
        }
    }

    fn as_u64(self) -> (r: u64)
        ensures
            r == self.spec_level(),
    {
        match self {
            PrivilegeLevel::Ring0 => 0,
            PrivilegeLevel::Ring3 => 3,
        }
    }

    fn as_u16(self) -> (r: u16)
        ensures
            r == self.spec_level(),
    {
        match self {
            PrivilegeLevel::Ring0 => 0,
            PrivilegeLevel::Ring3 => 3,
        }
    }
}

/// A GDT segment selector: table index plus requested privilege level (the
/// table indicator bit is always zero: no LDT is used).
#[derive(Clone, Copy, Debug, PartialEq, Eq, Structural)]
pub struct SegmentSelector(u16);

/// Maximum GDT index representable in a 16-bit selector, given 3 bits are
/// reserved for the table indicator and requested privilege level.
pub const MAX_SELECTOR_INDEX: u16 = 0x1fff;

impl SegmentSelector {
    pub closed spec fn spec_raw(self) -> u16 {
        self.0
    }

    pub fn new(index: u16, privilege_level: PrivilegeLevel) -> (r: Option<Self>)
        ensures
            r is Some <==> index <= MAX_SELECTOR_INDEX,
            r matches Some(s) ==> s.spec_raw() == (index << 3u16) | privilege_level.spec_level(),
            r matches Some(s) ==> s.spec_raw() >> 3u16 == index && s.spec_raw() & 7 == privilege_level.spec_level(),
    {
        if index > MAX_SELECTOR_INDEX {
            return None;
        }
        let level = privilege_level.as_u16();
        let raw = (index << 3u16) | level;
        assert(level <= 3 && index <= 0x1fff ==> ((index << 3u16) | level) >> 3u16 == index
            && ((index << 3u16) | level) & 7 == level) by (bit_vector);
        Some(Self(raw))
    }

    pub fn raw(self) -> (r: u16)
        ensures
            r == self.spec_raw(),
    {
        self.0
    }

    pub fn index(self) -> (r: u16)
        ensures
            r == self.spec_raw() >> 3u16,
    {
        self.0 >> 3u16
    }
}

pub const GDT_PRESENT: u64 = 0x0000_8000_0000_0000;
pub const GDT_CODE_OR_DATA: u64 = 0x0000_1000_0000_0000;
pub const GDT_READABLE_OR_WRITABLE: u64 = 0x0000_0200_0000_0000;
pub const GDT_EXECUTABLE: u64 = 0x0000_0800_0000_0000;
pub const GDT_LONG_MODE_CODE: u64 = 0x0020_0000_0000_0000;

/// One 8-byte GDT descriptor with base and limit fixed at zero/maximum (long
/// mode ignores both for code and data segments).
#[derive(Clone, Copy, Debug, PartialEq, Eq, Structural)]
pub struct GdtEntry(u64);

/// The descriptor-privilege-level bits of a level.
pub open spec fn spec_dpl(privilege_level: PrivilegeLevel) -> u64 {
    (privilege_level.spec_level() as u64) << 45u64
}

impl GdtEntry {
    pub closed spec fn spec_raw(self) -> u64 {
        self.0
    }

    /// The null descriptor.
    pub fn null() -> (r: Self)
        ensures
            r.spec_raw() == 0,
    {
        Self(0)
    }

    fn dpl(privilege_level: PrivilegeLevel) -> (r: u64)
        ensures
            r == spec_dpl(privilege_level),
    {
        privilege_level.as_u64() << 45u64
    }

    /// A flat 64-bit code segment: present, non-conforming, readable, long mode.
    pub fn code64(privilege_level: PrivilegeLevel) -> (r: Self)
        ensures
            r.spec_raw() == GDT_PRESENT | GDT_CODE_OR_DATA | GDT_READABLE_OR_WRITABLE | GDT_EXECUTABLE
                | GDT_LONG_MODE_CODE | spec_dpl(privilege_level),
            r.spec_raw() & GDT_PRESENT != 0,
            (r.spec_raw() >> 45u64) & 3 == privilege_level.spec_level(),
    {
        let dpl = Self::dpl(privilege_level);
        let raw = GDT_PRESENT | GDT_CODE_OR_DATA | GDT_READABLE_OR_WRITABLE | GDT_EXECUTABLE
            | GDT_LONG_MODE_CODE | dpl;
        let level = privilege_level.as_u64();
        assert(level <= 3 && dpl == level << 45u64 ==> (0x0000_8000_0000_0000u64 | 0x0000_1000_0000_0000u64
            | 0x0000_0200_0000_0000u64 | 0x0000_0800_0000_0000u64 | 0x0020_0000_0000_0000u64 | dpl)
            & 0x0000_8000_0000_0000u64 != 0 && ((0x0000_8000_0000_0000u64 | 0x0000_1000_0000_0000u64
            | 0x0000_0200_0000_0000u64 | 0x0000_0800_0000_0000u64 | 0x0020_0000_0000_0000u64 | dpl)
            >> 45u64) & 3 == level) by (bit_vector);
        Self(raw)
    }

    /// A flat 64-bit writable data segment.
    pub fn data64(privilege_level: PrivilegeLevel) -> (r: Self)
        ensures
            r.spec_raw() == GDT_PRESENT | GDT_CODE_OR_DATA | GDT_READABLE_OR_WRITABLE | spec_dpl(
                privilege_level,
            ),
            r.spec_raw() & GDT_PRESENT != 0,
            (r.spec_raw() >> 45u64) & 3 == privilege_level.spec_level(),
    {
        let dpl = Self::dpl(privilege_level);
        let raw = GDT_PRESENT | GDT_CODE_OR_DATA | GDT_READABLE_OR_WRITABLE | dpl;
        let level = privilege_level.as_u64();
        assert(level <= 3 && dpl == level << 45u64 ==> (0x0000_8000_0000_0000u64 | 0x0000_1000_0000_0000u64
            | 0x0000_0200_0000_0000u64 | dpl) & 0x0000_8000_0000_0000u64 != 0 && ((0x0000_8000_0000_0000u64
            | 0x0000_1000_0000_0000u64 | 0x0000_0200_0000_0000u64 | dpl) >> 45u64) & 3 == level)
            by (bit_vector);
        Self(raw)
    }

    pub fn raw(self) -> (r: u64)
        ensures
            r == self.spec_raw(),
    {
        self.0
    }

    pub fn is_present(self) -> (r: bool)
        ensures
            r == (self.spec_raw() & GDT_PRESENT != 0),
    {
        self.0 & GDT_PRESENT != 0
    }
}

/// Gate type for an IDT entry: an interrupt gate clears `IF` on entry, a
/// trap gate leaves it alone.
#[derive(Clone, Copy, Debug, PartialEq, Eq, Structural)]
pub enum GateType {
    Interrupt,
    Trap,
}

impl GateType {
    pub open spec fn spec_type_bits(self) -> u8 {
        match self {
            GateType::Interrupt => 0x0e,
            GateType::Trap => 0x0f,
        }
    }

    fn type_bits(self) -> (r: u8)
        ensures
            r == self.spec_type_bits(),
    {
        match self {
            GateType::Interrupt => 0x0e,
            GateType::Trap => 0x0f,
        }
    }
}

#[derive(Clone, Copy, Debug, PartialEq, Eq, Structural)]
pub enum IdtEntryError {
    /// The interrupt-stack-table index must fit in 3 bits.
    InvalidInterruptStackTableIndex,
}

/// One 16-byte IDT gate descriptor, in architectural field order.
#[derive(Clone, Copy, Debug, PartialEq, Eq, Structural)]
pub struct IdtEntry {
    offset_low: u16,
    selector: u16,
    interrupt_stack_table_index: u8,
    type_attributes: u8,
    offset_mid: u16,
    offset_high: u32,
    reserved: u32,
}

/// The present bit of a gate's type attributes.
pub const IDT_PRESENT: u8 = 0x80;

/// The address assembled from a gate's three offset fields.
pub open spec fn spec_handler_address(low: u16, mid: u16, high: u32) -> u64 {
    (low as u64) | ((mid as u64) << 16u64) | ((high as u64) << 32u64)
}

impl IdtEntry {
    pub closed spec fn spec_handler_address(self) -> u64 {
        spec_handler_address(self.offset_low, self.offset_mid, self.offset_high)
    }

    pub closed spec fn spec_selector(self) -> u16 {
        self.selector
    }

    pub closed spec fn spec_ist_index(self) -> u8 {
        self.interrupt_stack_table_index
    }

    pub closed spec fn spec_type_attributes(self) -> u8 {
        self.type_attributes
    }

    /// A not-present entry; delivering through it raises `#GP`.
    pub fn missing() -> (r: Self)
        ensures
            r.spec_type_attributes() == 0,
            r.spec_handler_address() == 0,
            r.spec_selector() == 0,
            r.spec_ist_index() == 0,
    {
        let r = Self {
            offset_low: 0,
            selector: 0,
            interrupt_stack_table_index: 0,
            type_attributes: 0,
            offset_mid: 0,
            offset_high: 0,
            reserved: 0,
        };
        assert(spec_handler_address(0, 0, 0) == 0) by (bit_vector);
        r
    }

    pub fn new(
        handler_address: u64,
        code_selector: SegmentSelector,
        gate_type: GateType,
        privilege_level: PrivilegeLevel,
        interrupt_stack_table_index: u8,
    ) -> (r: Result<Self, IdtEntryError>)
        ensures
            interrupt_stack_table_index > 7 ==> r == Err::<Self, IdtEntryError>(
                IdtEntryError::InvalidInterruptStackTableIndex,
            ),
            interrupt_stack_table_index <= 7 ==> (r matches Ok(e) && e.spec_handler_address()
                == handler_address && e.spec_selector() == code_selector.spec_raw() && e.spec_ist_index()
                == interrupt_stack_table_index && e.spec_type_attributes() == IDT_PRESENT | (
            (privilege_level.spec_level() as u8) << 5u8) | gate_type.spec_type_bits()),
    {
        if interrupt_stack_table_index > 7 {
            return Err(IdtEntryError::InvalidInterruptStackTableIndex);
        }
        let level = privilege_level.as_u64() as u8;
        let type_attributes = IDT_PRESENT | (level << 5u8) | gate_type.type_bits();
        let offset_low = (handler_address & 0xffff) as u16;
        let offset_mid = ((handler_address >> 16u64) & 0xffff) as u16;
        let offset_high = (handler_address >> 32u64) as u32;
        assert(spec_handler_address(
            (handler_address & 0xffff) as u16,
            ((handler_address >> 16u64) & 0xffff) as u16,
            (handler_address >> 32u64) as u32,
        ) == handler_address) by (bit_vector);
        Ok(
            Self {
                offset_low,
                selector: code_selector.raw(),
                interrupt_stack_table_index,
                type_attributes,
                offset_mid,
                offset_high,
                reserved: 0,
            },
        )
    }

    pub fn is_present(self) -> (r: bool)
        ensures
            r == (self.spec_type_attributes() & IDT_PRESENT != 0),
    {
        self.type_attributes & IDT_PRESENT != 0
    }

    pub fn handler_address(self) -> (r: u64)
        ensures
            r == self.spec_handler_address(),
    {
        (self.offset_low as u64) | ((self.offset_mid as u64) << 16u64) | ((self.offset_high as u64)
            << 32u64)
    }

    pub fn selector(self) -> (r: SegmentSelector)
        ensures
            r.spec_raw() == self.spec_selector(),
    {
        SegmentSelector(self.selector)
    }

    pub fn interrupt_stack_table_index(self) -> (r: u8)
        ensures
            r == self.spec_ist_index(),
    {
        self.interrupt_stack_table_index
    }

    /// The present bit, descriptor privilege level and gate type, as stored.
    pub fn type_attributes(self) -> (r: u8)
        ensures
            r == self.spec_type_attributes(),
    {
        self.type_attributes
    }
}

#[derive(Clone, Copy, Debug, PartialEq, Eq, Structural)]
pub enum DescriptorTablePointerError {
    EmptyTable,
    TableTooLarge,
}

/// The operand of `lgdt`/`lidt`: a byte limit (table size minus one) and the
/// table's linear base address.
#[derive(Clone, Copy, Debug, PartialEq, Eq, Structural)]
pub struct DescriptorTablePointer {
    limit: u16,
    base: u64,
}

impl DescriptorTablePointer {
    pub closed spec fn spec_limit(&self) -> u16 {
        self.limit
    }

    pub closed spec fn spec_base(&self) -> u64 {
        self.base
    }

    pub fn new(base: u64, entry_count: usize, entry_size: usize) -> (r: Result<Self, DescriptorTablePointerError>)
        ensures
            entry_count * entry_size > usize::MAX ==> r == Err::<Self, DescriptorTablePointerError>(
                DescriptorTablePointerError::TableTooLarge,
            ),
            entry_count * entry_size <= usize::MAX && entry_count * entry_size == 0 ==> r == Err::<
                Self,
                DescriptorTablePointerError,
            >(DescriptorTablePointerError::EmptyTable),
            entry_count * entry_size <= usize::MAX && entry_count * entry_size > 0x1_0000 ==> r == Err::<
                Self,
                DescriptorTablePointerError,
            >(DescriptorTablePointerError::TableTooLarge),
            1 <= entry_count * entry_size <= 0x1_0000 ==> (r matches Ok(p) && p.spec_limit()
                == entry_count * entry_size - 1 && p.spec_base() == base),
    {
        let byte_len = match entry_count.checked_mul(entry_size) {
            Some(n) => n,
            None => return Err(DescriptorTablePointerError::TableTooLarge),
        };
        if byte_len == 0 {
            return Err(DescriptorTablePointerError::EmptyTable);
        }
        let limit = byte_len - 1;
        if limit > u16::MAX as usize {
            return Err(DescriptorTablePointerError::TableTooLarge);
        }
        Ok(Self { limit: limit as u16, base })
    }

    pub fn limit(&self) -> (r: u16)
        ensures
            r == self.spec_limit(),
    {
        self.limit
    }

    pub fn base(&self) -> (r: u64)
        ensures
            r == self.spec_base(),
    {
        self.base
    }
}

/// Total number of vectors in a full x86-64 IDT.
pub const IDT_ENTRY_COUNT: usize = 256;

/// The lowest vector number available for external/software interrupts.
pub const FIRST_USABLE_INTERRUPT_VECTOR: u8 = 32;

/// The exception vectors whose handlers find an error code on the stack.
pub open spec fn spec_pushes_error_code(vector: u8) -> bool {
    vector == 8 || vector == 10 || vector == 11 || vector == 12 || vector == 13 || vector == 14
        || vector == 17 || vector == 21 || vector == 29 || vector == 30
}

/// Whether the CPU pushes an error code before entering the handler for
/// this vector; vectors 32 and above never do.
pub fn exception_pushes_error_code(vector: u8) -> (r: bool)
    ensures
        r == spec_pushes_error_code(vector),
{
    vector == 8 || vector == 10 || vector == 11 || vector == 12 || vector == 13 || vector == 14
        || vector == 17 || vector == 21 || vector == 29 || vector == 30
}

/// The short, stable name of a vector for diagnostics.
pub open spec fn spec_exception_name(vector: u8) -> &'static str {
    if vector == 0 {
        "divide-error"
    } else if vector == 1 {
        "debug"
    } else if vector == 2 {
        "nmi"
    } else if vector == 3 {
        "breakpoint"
    } else if vector == 4 {
        "overflow"
    } else if vector == 5 {
        "bound-range-exceeded"
    } else if vector == 6 {
        "invalid-opcode"
    } else if vector == 7 {
        "device-not-available"
    } else if vector == 8 {
        "double-fault"
    } else if vector == 10 {
        "invalid-tss"
    } else if vector == 11 {
        "segment-not-present"
    } else if vector == 12 {
        "stack-segment-fault"
    } else if vector == 13 {
        "general-protection-fault"
    } else if vector == 14 {
        "page-fault"
    } else if vector == 16 {
        "x87-floating-point"
    } else if vector == 17 {
        "alignment-check"
    } else if vector == 18 {
        "machine-check"
    } else if vector == 19 {
        "simd-floating-point"
    } else if vector == 20 {
        "virtualization"
    } else if vector == 21 {
        "control-protection"
    } else if vector == 28 {
        "hypervisor-injection"
    } else if vector == 29 {
        "vmm-communication"
    } else if vector == 30 {
        "security"
    } else if vector < 32 {
        "reserved"
    } else {
        "external-interrupt"
    }
}

/// Short, stable names for the CPU-reserved exception vectors (0-31);
/// architecturally reserved vectors are `"reserved"`, and every vector from
/// 32 on is `"external-interrupt"`.
pub fn exception_name(vector: u8) -> (r: &'static str)
    ensures
        r == spec_exception_name(vector),
{
    if vector == 0 {
        "divide-error"
    } else if vector == 1 {
        "debug"
    } else if vector == 2 {
        "nmi"
    } else if vector == 3 {
        "breakpoint"
    } else if vector == 4 {
        "overflow"
    } else if vector == 5 {
        "bound-range-exceeded"
    } else if vector == 6 {
        "invalid-opcode"
    } else if vector == 7 {
        "device-not-available"
    } else if vector == 8 {
        "double-fault"
    } else if vector == 10 {
        "invalid-tss"
    } else if vector == 11 {
        "segment-not-present"
    } else if vector == 12 {
        "stack-segment-fault"
    } else if vector == 13 {
        "general-protection-fault"
    } else if vector == 14 {
        "page-fault"
    } else if vector == 16 {
        "x87-floating-point"
    } else if vector == 17 {
        "alignment-check"
    } else if vector == 18 {
        "machine-check"
    } else if vector == 19 {
        "simd-floating-point"
    } else if vector == 20 {
        "virtualization"
    } else if vector == 21 {
        "control-protection"
    } else if vector == 28 {
        "hypervisor-injection"
    } else if vector == 29 {
        "vmm-communication"
    } else if vector == 30 {
        "security"
    } else if vector < 32 {
        "reserved"
    } else {
        "external-interrupt"
    }
}

/// A selector gives back the index and level it was built from.
pub proof fn lemma_selector_round_trip(index: u16, level: u16)
    requires
        index <= MAX_SELECTOR_INDEX,
        level <= 3,
    ensures
        ((index << 3u16) | level) >> 3u16 == index,
        ((index << 3u16) | level) & 7 == level,
{
    assert(index <= 0x1fff && level <= 3 ==> ((index << 3u16) | level) >> 3u16 == index && ((index
        << 3u16) | level) & 7 == level) by (bit_vector);
}

/// Splitting an address into a gate's three offset fields and joining them
/// again gives the address back.
pub proof fn lemma_handler_address_round_trip(address: u64)
    ensures
        spec_handler_address(
            (address & 0xffff) as u16,
            ((address >> 16u64) & 0xffff) as u16,
            (address >> 32u64) as u32,
        ) == address,
{
    assert(spec_handler_address(
        (address & 0xffff) as u16,
        ((address >> 16u64) & 0xffff) as u16,
        (address >> 32u64) as u32,
    ) == address) by (bit_vector);
}

} // verus!
