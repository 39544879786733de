//! Validation of the ACPI tables the kernel reads before it trusts firmware:
//! the RSDP, generic SDT headers, the MCFG (PCIe ECAM) and the MADT.

use vstd::prelude::*;
use vstd::slice::slice_subrange;
use crate::le_bytes::{u16_le, u32_le, u64_le, read_u16_le, read_u32_le, read_u64_le};

verus! {

pub const RSDP_V1_LEN: usize = 20;
pub const RSDP_V2_MIN_LEN: usize = 36;
pub const RSDP_MAX_LEN: usize = 4096;
pub const SDT_HEADER_LEN: usize = 36;
pub const MCFG_HEADER_LEN: usize = 44;
pub const MCFG_ALLOCATION_LEN: usize = 16;
/// SDT header, then the 32-bit local APIC address and the 32-bit flags word.
pub const MADT_HEADER_LEN: usize = 44;

/// The RSDP signature `"RSD PTR "`.
pub open spec fn rsdp_signature() -> Seq<u8> {
    seq![0x52u8, 0x53, 0x44, 0x20, 0x50, 0x54, 0x52, 0x20]
}

/// The MCFG signature `"MCFG"`.
pub open spec fn mcfg_signature() -> Seq<u8> {
    seq![0x4du8, 0x43, 0x46, 0x47]
}

/// The MADT signature `"APIC"`.
pub open spec fn madt_signature() -> Seq<u8> {
    seq![0x41u8, 0x50, 0x49, 0x43]
}

#[derive(Clone, Copy, Debug, PartialEq, Eq, Structural)]
pub enum RsdpError {
    TooShort,
    InvalidSignature,
    InvalidChecksum,
    InvalidLength,
    InvalidExtendedChecksum,
}

#[derive(Clone, Copy, Debug, PartialEq, Eq, Structural)]
pub struct RsdpInfo {
    pub revision: u8,
    pub length: usize,
    pub rsdt_address: u32,
    pub xsdt_address: Option<u64>,
}

#[derive(Clone, Copy, Debug, PartialEq, Eq, Structural)]
pub enum SdtError {
    TooShort,
    InvalidLength,
    InvalidChecksum,
}

#[derive(Clone, Copy, Debug, PartialEq, Eq)]
pub struct SdtHeaderInfo {
    pub signature: [u8; 4],
    pub length: usize,
    pub revision: u8,
}

#[derive(Clone, Copy, Debug, PartialEq, Eq, Structural)]
pub enum McfgError {
    InvalidSdt(SdtError),
    InvalidSignature,
    InvalidAllocationLength,
    InvalidBusRange,
}

impl From<SdtError> for McfgError {
    fn from(value: SdtError) -> (r: Self) {
        McfgError::InvalidSdt(value)
    }
}

impl vstd::std_specs::convert::FromSpecImpl<SdtError> for McfgError {
    open spec fn obeys_from_spec() -> bool {
        true
    }

    open spec fn from_spec(v: SdtError) -> Self {
        McfgError::InvalidSdt(v)
    }
}

/// Sum of all bytes, as a mathematical integer.
pub open spec fn byte_sum(s: Seq<u8>) -> nat
    decreases s.len(),
{
    if s.len() == 0 {
        0
    } else {
        byte_sum(s.drop_last()) + s.last() as nat
    }
}

/// The ACPI checksum: the byte sum modulo 256. A table is intact when it is zero.
pub open spec fn spec_checksum(s: Seq<u8>) -> u8 {
    (byte_sum(s) % 256) as u8
}

/// Sum modulo 256 of the first `len` bytes.
fn checksum(bytes: &[u8], len: usize) -> (r: u8)
    requires
        len <= bytes@.len(),
    ensures
        r == spec_checksum(bytes@.take(len as int)),
{
    let mut acc: u8 = 0;
    let mut i: usize = 0;
    while i < len
        invariant
            i <= len,
            len <= bytes@.len(),
            acc as nat == byte_sum(bytes@.take(i as int)) % 256,
        decreases len - i,
    {
        let b = bytes[i];
        proof {
            assert(bytes@.take(i + 1).drop_last() =~= bytes@.take(i as int));
            assert(bytes@.take(i + 1).last() == b);
        }
        acc = ((acc as u16 + b as u16) % 256) as u8;
        proof {
            let t = byte_sum(bytes@.take(i as int));
            assert((t % 256 + b as nat) % 256 == (t + b as nat) % 256) by (nonlinear_arith);
        }
        i = i + 1;
    }
    acc
}

/// The ACPI 2.0 length field of an RSDP.
pub open spec fn rsdp_length_field(s: Seq<u8>) -> u32 {
    u32_le(s, 20)
}

/// What `declared_length` answers for an RSDP prefix.
pub open spec fn spec_declared_length(s: Seq<u8>) -> Result<usize, RsdpError> {
    if s.len() < RSDP_V1_LEN {
        Err(RsdpError::TooShort)
    } else if s.take(8) != rsdp_signature() {
        Err(RsdpError::InvalidSignature)
    } else if spec_checksum(s.take(RSDP_V1_LEN as int)) != 0 {
        Err(RsdpError::InvalidChecksum)
    } else if s[15] < 2 {
        Ok(RSDP_V1_LEN)
    } else if s.len() < 24 {
        Err(RsdpError::TooShort)
    } else if rsdp_length_field(s) < RSDP_V2_MIN_LEN || rsdp_length_field(s) > RSDP_MAX_LEN {
        Err(RsdpError::InvalidLength)
    } else {
        Ok(rsdp_length_field(s) as usize)
    }
}

fn has_rsdp_signature(bytes: &[u8]) -> (r: bool)
    requires
        bytes@.len() >= 8,
    ensures
        r == (bytes@.take(8) == rsdp_signature()),
{
    let r = bytes[0] == 0x52 && bytes[1] == 0x53 && bytes[2] == 0x44 && bytes[3] == 0x20
        && bytes[4] == 0x50 && bytes[5] == 0x54 && bytes[6] == 0x52 && bytes[7] == 0x20;
    if r {
        assert(bytes@.take(8) =~= rsdp_signature());
    } else {
        assert(bytes@.take(8) != rsdp_signature()) by {
            if bytes@.take(8) == rsdp_signature() {
                assert(bytes@.take(8)[0] == bytes@[0]);
                assert(bytes@.take(8)[7] == bytes@[7]);
            }
        }
    }
    r
}

/// Returns the total RSDP length after validating the signature and the
/// ACPI 1.0 checksum. A caller can use this to determine how many bytes must
/// be made available for full ACPI 2.0+ validation.
pub fn declared_length(prefix: &[u8]) -> (r: Result<usize, RsdpError>)
    ensures
        r == spec_declared_length(prefix@),
{
    if prefix.len() < RSDP_V1_LEN {
        return Err(RsdpError::TooShort);
    }
    if !has_rsdp_signature(prefix) {
        return Err(RsdpError::InvalidSignature);
    }
    if checksum(prefix, RSDP_V1_LEN) != 0 {
        return Err(RsdpError::InvalidChecksum);
    }
    if prefix[15] < 2 {
        return Ok(RSDP_V1_LEN);
    }
    if prefix.len() < 24 {
        return Err(RsdpError::TooShort);
    }
    let length = read_u32_le(prefix, 20);
    if length < 36 || length > 4096 {
        return Err(RsdpError::InvalidLength);
    }
    Ok(length as usize)
}

/// What `validate_rsdp` answers for a buffer.
pub open spec fn spec_validate_rsdp(s: Seq<u8>) -> Result<RsdpInfo, RsdpError> {
    match spec_declared_length(s) {
        Err(e) => Err(e),
        Ok(length) => if s.len() < length {
            Err(RsdpError::TooShort)
        } else if s[15] >= 2 && spec_checksum(s.take(length as int)) != 0 {
            Err(RsdpError::InvalidExtendedChecksum)
        } else {
            Ok(
                RsdpInfo {
                    revision: s[15],
                    length,
                    rsdt_address: u32_le(s, 16),
                    xsdt_address: if s[15] >= 2 {
                        Some(u64_le(s, 24))
                    } else {
                        None
                    },
                },
            )
        },
    }
}

/// Validates a complete RSDP (ACPI 1.0 or 2.0+) and extracts the table pointers.
pub fn validate_rsdp(bytes: &[u8]) -> (r: Result<RsdpInfo, RsdpError>)
    ensures
        r == spec_validate_rsdp(bytes@),
{
    let length = match declared_length(bytes) {
        Ok(length) => length,
        Err(e) => return Err(e),
    };
    if bytes.len() < length {
        return Err(RsdpError::TooShort);
    }
    let revision = bytes[15];
    if revision >= 2 && checksum(bytes, length) != 0 {
        return Err(RsdpError::InvalidExtendedChecksum);
    }
    let rsdt_address = read_u32_le(bytes, 16);
    let xsdt_address = if revision >= 2 {
        Some(read_u64_le(bytes, 24))
    } else {
        None
    };
    Ok(RsdpInfo { revision, length, rsdt_address, xsdt_address })
}

/// The length field of an SDT header.
pub open spec fn sdt_length_field(s: Seq<u8>) -> u32 {
    u32_le(s, 4)
}

/// Why an SDT is rejected, if it is.
pub open spec fn spec_sdt_error(s: Seq<u8>) -> Option<SdtError> {
    if s.len() < SDT_HEADER_LEN {
        Some(SdtError::TooShort)
    } else if sdt_length_field(s) < SDT_HEADER_LEN || sdt_length_field(s) > s.len() {
        Some(SdtError::InvalidLength)
    } else if spec_checksum(s.take(sdt_length_field(s) as int)) != 0 {
        Some(SdtError::InvalidChecksum)
    } else {
        None
    }
}

/// Validates a system description table header, its length and its checksum.
pub fn validate_sdt(bytes: &[u8]) -> (r: Result<SdtHeaderInfo, SdtError>)
    ensures
        r is Err <==> spec_sdt_error(bytes@) is Some,
        r matches Err(e) ==> spec_sdt_error(bytes@) == Some(e),
        r matches Ok(h) ==> {
            &&& h.signature@ == bytes@.take(4)
            &&& h.length == sdt_length_field(bytes@)
            &&& h.revision == bytes@[8]
        },
{
    if bytes.len() < SDT_HEADER_LEN {
        return Err(SdtError::TooShort);
    }
    let length = read_u32_le(bytes, 4) as usize;
    if length < SDT_HEADER_LEN || length > bytes.len() {
        return Err(SdtError::InvalidLength);
    }
    if checksum(bytes, length) != 0 {
        return Err(SdtError::InvalidChecksum);
    }
    let signature = [bytes[0], bytes[1], bytes[2], bytes[3]];
    assert(signature@ =~= bytes@.take(4));
    Ok(SdtHeaderInfo { signature, length, revision: bytes[8] })
}

#[derive(Clone, Copy, Debug, PartialEq, Eq, Structural)]
pub struct McfgAllocation {
    pub base_address: u64,
    pub segment_group: u16,
    pub start_bus: u8,
    pub end_bus: u8,
}

/// Offset of an ECAM register relative to the allocation base.
pub open spec fn spec_ecam_offset(start_bus: u8, bus: u8, device: u8, function: u8, register_offset: u16) -> int {
    (bus - start_bus) * 0x10_0000 + device * 0x8000 + function * 0x1000 + register_offset
}

impl McfgAllocation {
    /// True when `bus` lies in the inclusive bus window of this allocation.
    pub open spec fn spec_contains_bus(self, bus: u8) -> bool {
        self.start_bus <= bus <= self.end_bus
    }

    /// True when the ECAM coordinates name a register inside this allocation.
    pub open spec fn spec_ecam_arguments_valid(self, bus: u8, device: u8, function: u8, register_offset: u16) -> bool {
        self.spec_contains_bus(bus) && device <= 31 && function <= 7 && register_offset <= 0x0fff
    }

    pub fn contains_bus(self, bus: u8) -> (r: bool)
        ensures
            r == self.spec_contains_bus(bus),
    {
        bus >= self.start_bus && bus <= self.end_bus
    }

    /// Physical address of a PCIe configuration register through this allocation.
    pub fn ecam_address(self, bus: u8, device: u8, function: u8, register_offset: u16) -> (r: Option<u64>)
        requires
            self.spec_ecam_arguments_valid(bus, device, function, register_offset) ==> self.base_address
                + spec_ecam_offset(self.start_bus, bus, device, function, register_offset) <= u64::MAX,
        ensures
            r is Some <==> self.spec_ecam_arguments_valid(bus, device, function, register_offset),
            r matches Some(a) ==> a == self.base_address + spec_ecam_offset(
                self.start_bus,
                bus,
                device,
                function,
                register_offset,
            ),
    {
        if !self.contains_bus(bus) || device > 31 || function > 7 || register_offset > 0x0fff {
            return None;
        }
        let relative_bus = (bus - self.start_bus) as u64;
        let d = device as u64;
        let f = function as u64;
        assert(relative_bus < 256 ==> relative_bus << 20u64 == relative_bus * 0x10_0000) by (bit_vector);
        assert(d < 32 ==> d << 15u64 == d * 0x8000) by (bit_vector);
        assert(f < 8 ==> f << 12u64 == f * 0x1000) by (bit_vector);
        Some(self.base_address + (relative_bus << 20u64) + (d << 15u64) + (f << 12u64)
            + register_offset as u64)
    }
}

/// The allocation record stored at byte offset `off`.
pub open spec fn spec_mcfg_allocation(s: Seq<u8>, off: int) -> McfgAllocation {
    McfgAllocation {
        base_address: u64_le(s, off),
        segment_group: u16_le(s, off + 8),
        start_bus: s[off + 10],
        end_bus: s[off + 11],
    }
}

/// Number of allocation records in a table of length `len`.
pub open spec fn mcfg_allocation_count(len: int) -> int {
    (len - MCFG_HEADER_LEN) / (MCFG_ALLOCATION_LEN as int)
}

/// True when every allocation record of the table has an ordered bus window.
pub open spec fn mcfg_bus_ranges_ordered(t: Seq<u8>) -> bool {
    forall|i: int|
        0 <= i < mcfg_allocation_count(t.len() as int) ==> #[trigger] spec_mcfg_allocation(
            t,
            MCFG_HEADER_LEN + 16 * i,
        ).start_bus <= spec_mcfg_allocation(t, MCFG_HEADER_LEN + 16 * i).end_bus
}

/// Why an MCFG is rejected, if it is.
pub open spec fn spec_mcfg_error(s: Seq<u8>) -> Option<McfgError> {
    match spec_sdt_error(s) {
        Some(e) => Some(McfgError::InvalidSdt(e)),
        None => {
            let len = sdt_length_field(s) as int;
            if s.take(4) != mcfg_signature() {
                Some(McfgError::InvalidSignature)
            } else if len < MCFG_HEADER_LEN || (len - MCFG_HEADER_LEN) % 16 != 0 {
                Some(McfgError::InvalidAllocationLength)
            } else if !mcfg_bus_ranges_ordered(s.take(len)) {
                Some(McfgError::InvalidBusRange)
            } else {
                None
            }
        },
    }
}

/// A validated MCFG table, holding exactly its declared length of bytes.
#[derive(Clone, Copy, Debug)]
pub struct Mcfg<'a> {
    table: &'a [u8],
}

impl<'a> Mcfg<'a> {
    /// The bytes of the validated table.
    pub closed spec fn table(self) -> Seq<u8> {
        self.table@
    }

    #[verifier::type_invariant]
    closed spec fn well_formed(self) -> bool {
        &&& self.table@.len() >= MCFG_HEADER_LEN
        &&& (self.table@.len() - MCFG_HEADER_LEN) % 16 == 0
        &&& mcfg_bus_ranges_ordered(self.table@)
    }

    /// The ECAM allocation records, in table order.
    pub fn allocations(self) -> (r: Vec<McfgAllocation>)
        ensures
            r@.len() == mcfg_allocation_count(self.table().len() as int),
            forall|i: int|
                0 <= i < r@.len() ==> r@[i] == spec_mcfg_allocation(self.table(), MCFG_HEADER_LEN + 16 * i),
            forall|i: int| 0 <= i < r@.len() ==> r@[i].start_bus <= r@[i].end_bus,
    {
        proof {
            use_type_invariant(&self);
        }
        let mut out: Vec<McfgAllocation> = Vec::new();
        let mut off: usize = MCFG_HEADER_LEN;
        let len = self.table.len();
        while off < len
            invariant
                len == self.table@.len(),
                MCFG_HEADER_LEN <= off <= len,
                (off - MCFG_HEADER_LEN) % 16 == 0,
                (len - MCFG_HEADER_LEN) % 16 == 0,
                mcfg_bus_ranges_ordered(self.table@),
                out@.len() == (off - MCFG_HEADER_LEN) / 16,
                forall|i: int|
                    0 <= i < out@.len() ==> out@[i] == spec_mcfg_allocation(self.table@, MCFG_HEADER_LEN + 16 * i),
            decreases len - off,
        {
            let a = parse_mcfg_allocation(self.table, off);
            proof {
                let k = (off - MCFG_HEADER_LEN) / 16;
                assert(off == MCFG_HEADER_LEN + 16 * k);
            }
            out.push(a);
            off = off + MCFG_ALLOCATION_LEN;
        }
        proof {
            assert forall|i: int| 0 <= i < out@.len() implies out@[i].start_bus <= out@[i].end_bus by {
                assert(spec_mcfg_allocation(self.table@, MCFG_HEADER_LEN + 16 * i).start_bus
                    <= spec_mcfg_allocation(self.table@, MCFG_HEADER_LEN + 16 * i).end_bus);
            }
        }
        out
    }
}

fn parse_mcfg_allocation(bytes: &[u8], off: usize) -> (r: McfgAllocation)
    requires
        off + 16 <= bytes.len(),
    ensures
        r == spec_mcfg_allocation(bytes@, off as int),
{
    McfgAllocation {
        base_address: read_u64_le(bytes, off),
        segment_group: read_u16_le(bytes, off + 8),
        start_bus: bytes[off + 10],
        end_bus: bytes[off + 11],
    }
}

fn signature_is(bytes: &[u8], a: u8, b: u8, c: u8, d: u8) -> (r: bool)
    requires
        bytes@.len() >= 4,
    ensures
        r == (bytes@.take(4) == seq![a, b, c, d]),
{
    let r = bytes[0] == a && bytes[1] == b && bytes[2] == c && bytes[3] == d;
    if r {
        assert(bytes@.take(4) =~= seq![a, b, c, d]);
    } else {
        assert(bytes@.take(4) != seq![a, b, c, d]) by {
            if bytes@.take(4) == seq![a, b, c, d] {
                assert(bytes@.take(4)[0] == bytes@[0]);
                assert(bytes@.take(4)[1] == bytes@[1]);
                assert(bytes@.take(4)[2] == bytes@[2]);
                assert(bytes@.take(4)[3] == bytes@[3]);
            }
        }
    }
    r
}

/// Validates an MCFG table: header, signature, record framing and bus windows.
pub fn validate_mcfg(bytes: &[u8]) -> (r: Result<Mcfg<'_>, McfgError>)
    ensures
        r is Err <==> spec_mcfg_error(bytes@) is Some,
        r matches Err(e) ==> spec_mcfg_error(bytes@) == Some(e),
        r matches Ok(m) ==> m.table() == bytes@.take(sdt_length_field(bytes@) as int),
{
    let header = match validate_sdt(bytes) {
        Ok(h) => h,
        Err(e) => return Err(McfgError::InvalidSdt(e)),
    };
    if !signature_is(bytes, 0x4d, 0x43, 0x46, 0x47) {
        return Err(McfgError::InvalidSignature);
    }
    if header.length < MCFG_HEADER_LEN || (header.length - MCFG_HEADER_LEN) % MCFG_ALLOCATION_LEN != 0 {
        return Err(McfgError::InvalidAllocationLength);
    }
    let table = slice_subrange(bytes, 0, header.length);
    assert(table@ =~= bytes@.take(header.length as int));
    let mut off: usize = MCFG_HEADER_LEN;
    let len = header.length;
    while off < len
        invariant
            len == table@.len(),
            len == sdt_length_field(bytes@),
            table@ == bytes@.take(len as int),
            spec_sdt_error(bytes@) is None,
            bytes@.take(4) == mcfg_signature(),
            MCFG_HEADER_LEN <= off <= len,
            (off - MCFG_HEADER_LEN) % 16 == 0,
            (len - MCFG_HEADER_LEN) % 16 == 0,
            forall|i: int|
                0 <= i < (off - MCFG_HEADER_LEN) / 16 ==> #[trigger] spec_mcfg_allocation(
                    table@,
                    MCFG_HEADER_LEN + 16 * i,
                ).start_bus <= spec_mcfg_allocation(table@, MCFG_HEADER_LEN + 16 * i).end_bus,
        decreases len - off,
    {
        let allocation = parse_mcfg_allocation(table, off);
        let ghost k = (off - MCFG_HEADER_LEN) / 16;
        assert(off == MCFG_HEADER_LEN + 16 * k);
        if allocation.start_bus > allocation.end_bus {
            assert(!mcfg_bus_ranges_ordered(table@)) by {
                assert(0 <= k < mcfg_allocation_count(table@.len() as int));
                assert(spec_mcfg_allocation(table@, MCFG_HEADER_LEN + 16 * k) == allocation);
            }
            return Err(McfgError::InvalidBusRange);
        }
        off = off + MCFG_ALLOCATION_LEN;
    }
    Ok(Mcfg { table })
}

/// Why a MADT (`APIC`) table was rejected.
///
/// Every variant is a refusal to guess. The MADT is the only description the
/// kernel gets of where the I/O APICs live and which global system interrupt a
/// legacy ISA IRQ actually arrives on, so a malformed table must fail closed
/// rather than fall back to the conventional addresses.
#[derive(Clone, Copy, Debug, PartialEq, Eq, Structural)]
pub enum MadtError {
    InvalidSdt(SdtError),
    InvalidSignature,
    /// The table is shorter than the fixed MADT header.
    TooShort,
    /// An entry declared a length of 0 or 1, which cannot advance the walk.
    ZeroLengthEntry,
    /// An entry claimed to extend past the end of the table.
    EntryOutOfBounds,
    /// A known entry type was shorter than its architectural layout.
    EntryTooShortForType,
}

impl From<SdtError> for MadtError {
    fn from(value: SdtError) -> (r: Self) {
        MadtError::InvalidSdt(value)
    }
}

impl vstd::std_specs::convert::FromSpecImpl<SdtError> for MadtError {
    open spec fn obeys_from_spec() -> bool {
        true
    }

    open spec fn from_spec(v: SdtError) -> Self {
        MadtError::InvalidSdt(v)
    }
}

/// Interrupt polarity as encoded in the MPS INTI flags (ACPI 6.5, 5.2.12.5).
#[derive(Clone, Copy, Debug, PartialEq, Eq, Structural)]
pub enum Polarity {
    /// `00`: whatever the bus specification says. ISA means active high.
    ConformsToBus,
    ActiveHigh,
    ActiveLow,
}

/// Interrupt trigger mode as encoded in the MPS INTI flags.
#[derive(Clone, Copy, Debug, PartialEq, Eq, Structural)]
pub enum TriggerMode {
    /// `00`: whatever the bus specification says. ISA means edge triggered.
    ConformsToBus,
    Edge,
    Level,
}

/// The MPS INTI flags word shared by override and NMI entries.
#[derive(Clone, Copy, Debug, PartialEq, Eq, Structural)]
pub struct InterruptFlags(pub u16);

/// Polarity decoded from the two low bits; the reserved `10` means "ask the bus".
pub open spec fn spec_polarity(bits: u16) -> Polarity {
    if bits == 1 {
        Polarity::ActiveHigh
    } else if bits == 3 {
        Polarity::ActiveLow
    } else {
        Polarity::ConformsToBus
    }
}

/// Trigger mode decoded from bits 2-3; the reserved `10` means "ask the bus".
pub open spec fn spec_trigger_mode(bits: u16) -> TriggerMode {
    if bits == 1 {
        TriggerMode::Edge
    } else if bits == 3 {
        TriggerMode::Level
    } else {
        TriggerMode::ConformsToBus
    }
}

impl InterruptFlags {
    pub fn polarity(self) -> (r: Polarity)
        ensures
            r == spec_polarity(self.0 & 3),
    {
        let bits = self.0 & 0b11;
        if bits == 1 {
            Polarity::ActiveHigh
        } else if bits == 3 {
            Polarity::ActiveLow
        } else {
            Polarity::ConformsToBus
        }
    }

    pub fn trigger_mode(self) -> (r: TriggerMode)
        ensures
            r == spec_trigger_mode((self.0 >> 2u16) & 3),
    {
        let bits = (self.0 >> 2u16) & 0b11;
        if bits == 1 {
            TriggerMode::Edge
        } else if bits == 3 {
            TriggerMode::Level
        } else {
            TriggerMode::ConformsToBus
        }
    }
}

/// One entry of the MADT's variable-length interrupt-controller list.
///
/// Types this kernel does not consume yet are preserved as [`MadtEntry::Other`]
/// with their raw type byte rather than dropped, so a later pass can tell the
/// difference between "no such entry" and "not decoded here".
#[allow(inconsistent_fields)]
#[derive(Clone, Copy, Debug, PartialEq, Eq, Structural)]
pub enum MadtEntry {
    LocalApic { processor_uid: u8, apic_id: u8, flags: u32 },
    IoApic { id: u8, address: u32, gsi_base: u32 },
    InterruptSourceOverride {
        bus: u8,
        source_irq: u8,
        global_system_interrupt: u32,
        flags: InterruptFlags,
    },
    LocalX2Apic { x2apic_id: u32, flags: u32, processor_uid: u32 },
    Other { kind: u8 },
}

pub const MADT_LOCAL_APIC: u8 = 0;
pub const MADT_IO_APIC: u8 = 1;
pub const MADT_INTERRUPT_SOURCE_OVERRIDE: u8 = 2;
pub const MADT_LOCAL_X2APIC: u8 = 9;

pub const MADT_LOCAL_APIC_LEN: usize = 8;
pub const MADT_IO_APIC_LEN: usize = 12;
pub const MADT_INTERRUPT_SOURCE_OVERRIDE_LEN: usize = 10;
pub const MADT_LOCAL_X2APIC_LEN: usize = 16;

/// The ISA bus number used by interrupt source overrides.
pub const MADT_ISA_BUS: u8 = 0;

/// Decoding of one entry of type `kind` whose bytes are `e`.
pub open spec fn spec_parse_madt_entry(kind: u8, e: Seq<u8>) -> MadtEntry {
    if kind == MADT_LOCAL_APIC && e.len() >= MADT_LOCAL_APIC_LEN {
        MadtEntry::LocalApic { processor_uid: e[2], apic_id: e[3], flags: u32_le(e, 4) }
    } else if kind == MADT_IO_APIC && e.len() >= MADT_IO_APIC_LEN {
        MadtEntry::IoApic { id: e[2], address: u32_le(e, 4), gsi_base: u32_le(e, 8) }
    } else if kind == MADT_INTERRUPT_SOURCE_OVERRIDE && e.len() >= MADT_INTERRUPT_SOURCE_OVERRIDE_LEN {
        MadtEntry::InterruptSourceOverride {
            bus: e[2],
            source_irq: e[3],
            global_system_interrupt: u32_le(e, 4),
            flags: InterruptFlags(u16_le(e, 8)),
        }
    } else if kind == MADT_LOCAL_X2APIC && e.len() >= MADT_LOCAL_X2APIC_LEN {
        MadtEntry::LocalX2Apic { x2apic_id: u32_le(e, 4), flags: u32_le(e, 8), processor_uid: u32_le(e, 12) }
    } else {
        MadtEntry::Other { kind }
    }
}

/// The entries of an entry list, decoded front to back until the list ends
/// or an entry cannot advance the walk.
pub open spec fn spec_madt_entries(rest: Seq<u8>) -> Seq<MadtEntry>
    decreases rest.len(),
{
    if rest.len() < 2 {
        Seq::empty()
    } else {
        let length = rest[1] as int;
        if length < 2 || length > rest.len() {
            Seq::empty()
        } else {
            seq![spec_parse_madt_entry(rest[0], rest.take(length))] + spec_madt_entries(rest.skip(length))
        }
    }
}

/// Minimum entry length architecturally required for a type this module decodes.
pub open spec fn spec_required_entry_length(kind: u8) -> usize {
    if kind == MADT_LOCAL_APIC {
        MADT_LOCAL_APIC_LEN
    } else if kind == MADT_IO_APIC {
        MADT_IO_APIC_LEN
    } else if kind == MADT_INTERRUPT_SOURCE_OVERRIDE {
        MADT_INTERRUPT_SOURCE_OVERRIDE_LEN
    } else if kind == MADT_LOCAL_X2APIC {
        MADT_LOCAL_X2APIC_LEN
    } else {
        2
    }
}

fn required_entry_length(kind: u8) -> (r: usize)
    ensures
        r == spec_required_entry_length(kind),
{
    if kind == MADT_LOCAL_APIC {
        MADT_LOCAL_APIC_LEN
    } else if kind == MADT_IO_APIC {
        MADT_IO_APIC_LEN
    } else if kind == MADT_INTERRUPT_SOURCE_OVERRIDE {
        MADT_INTERRUPT_SOURCE_OVERRIDE_LEN
    } else if kind == MADT_LOCAL_X2APIC {
        MADT_LOCAL_X2APIC_LEN
    } else {
        2
    }
}

/// Why an entry list is malformed, if it is.
pub open spec fn spec_madt_walk_error(rest: Seq<u8>) -> Option<MadtError>
    decreases rest.len(),
{
    if rest.len() == 0 {
        None
    } else if rest.len() < 2 {
        Some(MadtError::EntryOutOfBounds)
    } else {
        let length = rest[1] as int;
        if length < 2 {
            Some(MadtError::ZeroLengthEntry)
        } else if length > rest.len() {
            Some(MadtError::EntryOutOfBounds)
        } else if length < spec_required_entry_length(rest[0]) {
            Some(MadtError::EntryTooShortForType)
        } else {
            spec_madt_walk_error(rest.skip(length))
        }
    }
}

/// Why a MADT is rejected, if it is.
pub open spec fn spec_madt_error(s: Seq<u8>) -> Option<MadtError> {
    match spec_sdt_error(s) {
        Some(e) => Some(MadtError::InvalidSdt(e)),
        None => {
            let len = sdt_length_field(s) as int;
            if s.take(4) != madt_signature() {
                Some(MadtError::InvalidSignature)
            } else if len < MADT_HEADER_LEN {
                Some(MadtError::TooShort)
            } else {
                spec_madt_walk_error(s.take(len).skip(MADT_HEADER_LEN as int))
            }
        },
    }
}

/// Whether entry `k` is an I/O APIC whose window starts at or below `gsi`.
pub open spec fn starts_at_or_below(entries: Seq<MadtEntry>, k: int, gsi: u32) -> bool {
    0 <= k < entries.len() && (entries[k] matches MadtEntry::IoApic { gsi_base, .. } && gsi_base <= gsi)
}

/// The window base of an I/O APIC entry.
pub open spec fn io_apic_base(e: MadtEntry) -> u32 {
    match e {
        MadtEntry::IoApic { gsi_base, .. } => gsi_base,
        _ => 0,
    }
}

/// Entry `k` is the I/O APIC whose window covers `gsi`: among the I/O APICs
/// starting at or below `gsi` it starts last (windows of distinct I/O APICs do
/// not overlap), and it is the first entry listed with that start.
pub open spec fn covers_gsi(entries: Seq<MadtEntry>, k: int, gsi: u32) -> bool {
    &&& starts_at_or_below(entries, k, gsi)
    &&& forall|j: int| #[trigger] starts_at_or_below(entries, j, gsi)
        ==> io_apic_base(entries[j]) <= io_apic_base(entries[k])
    &&& forall|j: int| 0 <= j < k && #[trigger] starts_at_or_below(entries, j, gsi)
        ==> io_apic_base(entries[j]) < io_apic_base(entries[k])
}

/// The first ISA interrupt source override of `irq`, if any.
pub open spec fn spec_isa_override(entries: Seq<MadtEntry>, irq: u8) -> Option<(u32, InterruptFlags)>
    decreases entries.len(),
{
    if entries.len() == 0 {
        None
    } else {
        match entries[0] {
            MadtEntry::InterruptSourceOverride { bus, source_irq, global_system_interrupt, flags }
                if bus == MADT_ISA_BUS && source_irq == irq => Some((global_system_interrupt, flags)),
            _ => spec_isa_override(entries.drop_first(), irq),
        }
    }
}

/// A MADT whose header and complete entry list have already been validated.
#[derive(Clone, Copy, Debug, PartialEq, Eq)]
pub struct Madt<'a> {
    table: &'a [u8],
}

impl<'a> Madt<'a> {
    /// The bytes of the validated table.
    pub closed spec fn table(self) -> Seq<u8> {
        self.table@
    }

    /// The decoded entry list of the table.
    pub open spec fn spec_entries(self) -> Seq<MadtEntry> {
        spec_madt_entries(self.table().skip(MADT_HEADER_LEN as int))
    }

    #[verifier::type_invariant]
    closed spec fn well_formed(self) -> bool {
        &&& self.table@.len() >= MADT_HEADER_LEN
        &&& spec_madt_walk_error(self.table@.skip(MADT_HEADER_LEN as int)) is None
    }

    /// Physical address of the local APIC registers, as reported by firmware.
    pub fn local_apic_address(self) -> (r: u32)
        ensures
            r == u32_le(self.table(), 36),
    {
        proof {
            use_type_invariant(&self);
        }
        read_u32_le(self.table, 36)
    }

    /// The MADT flags word.
    pub fn flags(self) -> (r: u32)
        ensures
            r == u32_le(self.table(), 40),
    {
        proof {
            use_type_invariant(&self);
        }
        read_u32_le(self.table, 40)
    }

    /// Bit 0 of the flags word: the platform also has a pair of 8259 PICs,
    /// which must be masked before APIC-mode interrupts are enabled.
    pub fn dual_8259_present(self) -> (r: bool)
        ensures
            r == (u32_le(self.table(), 40) & 1 != 0),
    {
        self.flags() & 1 != 0
    }

    /// The decoded entry list, in table order.
    pub fn entries(self) -> (r: Vec<MadtEntry>)
        ensures
            r@ == self.spec_entries(),
    {
        proof {
            use_type_invariant(&self);
        }
        let mut out: Vec<MadtEntry> = Vec::new();
        let mut off: usize = MADT_HEADER_LEN;
        let len = self.table.len();
        let ghost all = self.table@.skip(MADT_HEADER_LEN as int);
        while len - off >= 2
            invariant
                len == self.table@.len(),
                MADT_HEADER_LEN <= off <= len,
                all == self.table@.skip(MADT_HEADER_LEN as int),
                spec_madt_entries(all) == out@ + spec_madt_entries(self.table@.skip(off as int)),
            decreases len - off,
        {
            let ghost rest = self.table@.skip(off as int);
            let kind = self.table[off];
            let length = self.table[off + 1] as usize;
            if length < 2 || length > len - off {
                assert(spec_madt_entries(rest) == Seq::<MadtEntry>::empty());
                assert(out@ + Seq::<MadtEntry>::empty() =~= out@);
                return out;
            }
            let entry = parse_madt_entry(kind, self.table, off, length);
            proof {
                assert(rest.take(length as int) =~= self.table@.subrange(off as int, off + length));
                assert(rest.skip(length as int) =~= self.table@.skip(off + length));
                assert(out@.push(entry) + spec_madt_entries(self.table@.skip(off + length)) =~= out@
                    + (seq![entry] + spec_madt_entries(self.table@.skip(off + length))));
            }
            out.push(entry);
            off = off + length;
        }
        proof {
            let rest = self.table@.skip(off as int);
            assert(rest.len() < 2);
            assert(out@ + Seq::<MadtEntry>::empty() =~= out@);
        }
        out
    }

    /// The I/O APIC whose window covers `gsi` (the one whose window starts
    /// last at or below it), and the offset of `gsi` within that I/O APIC's
    /// redirection table.
    pub fn io_apic_for_gsi(self, gsi: u32) -> (r: Option<(u8, u32, u32)>)
        ensures
            match r {
                None => forall|j: int| !starts_at_or_below(self.spec_entries(), j, gsi),
                Some((id, address, offset)) => exists|k: int|
                    covers_gsi(self.spec_entries(), k, gsi)
                    && self.spec_entries()[k] == (MadtEntry::IoApic {
                        id,
                        address,
                        gsi_base: io_apic_base(self.spec_entries()[k]),
                    })
                    && offset == gsi - io_apic_base(self.spec_entries()[k]),
            },
    {
        let entries = self.entries();
        let mut best: Option<usize> = None;
        let mut i: usize = 0;
        while i < entries.len()
            invariant
                i <= entries@.len(),
                entries@ == self.spec_entries(),
                match best {
                    None => forall|j: int| 0 <= j < i ==> !starts_at_or_below(entries@, j, gsi),
                    Some(k) => k < i && starts_at_or_below(entries@, k as int, gsi)
                        && (forall|j: int| 0 <= j < i && #[trigger] starts_at_or_below(entries@, j, gsi)
                            ==> io_apic_base(entries@[j]) <= io_apic_base(entries@[k as int]))
                        && (forall|j: int| 0 <= j < k && #[trigger] starts_at_or_below(entries@, j, gsi)
                            ==> io_apic_base(entries@[j]) < io_apic_base(entries@[k as int])),
                },
            decreases entries@.len() - i,
        {
            match entries[i] {
                MadtEntry::IoApic { gsi_base, .. } => {
                    if gsi_base <= gsi {
                        let better = match best {
                            None => true,
                            Some(k) => match entries[k] {
                                MadtEntry::IoApic { gsi_base: current, .. } => gsi_base > current,
                                _ => true,
                            },
                        };
                        if better {
                            best = Some(i);
                        }
                    }
                },
                _ => {},
            }
            i = i + 1;
        }
        match best {
            None => {
                assert forall|j: int| !starts_at_or_below(self.spec_entries(), j, gsi) by {
                    if 0 <= j < entries@.len() {
                    }
                }
                None
            },
            Some(k) => match entries[k] {
                MadtEntry::IoApic { id, address, gsi_base } => {
                    assert(covers_gsi(self.spec_entries(), k as int, gsi));
                    Some((id, address, gsi - gsi_base))
                },
                _ => None,
            },
        }
    }

    /// Resolve a legacy ISA IRQ to the global system interrupt it is really
    /// delivered on, together with the polarity and trigger mode to program.
    ///
    /// Identity mapping is the ACPI default, but it is routinely wrong: the
    /// timer's IRQ 0 is commonly overridden to GSI 2, and the ACPI SCI is
    /// commonly overridden to level/low. Programming an I/O APIC from the IRQ
    /// number alone is exactly the bug this lookup exists to prevent.
    pub fn resolve_isa_irq(self, irq: u8) -> (r: (u32, Polarity, TriggerMode))
        ensures
            match spec_isa_override(self.spec_entries(), irq) {
                Some((gsi, flags)) => r == (
                    gsi,
                    spec_polarity(flags.0 & 3),
                    spec_trigger_mode((flags.0 >> 2u16) & 3),
                ),
                None => r == (irq as u32, Polarity::ConformsToBus, TriggerMode::ConformsToBus),
            },
    {
        let entries = self.entries();
        let mut i: usize = 0;
        assert(entries@.skip(0) =~= entries@);
        while i < entries.len()
            invariant
                i <= entries@.len(),
                entries@ == self.spec_entries(),
                spec_isa_override(entries@, irq) == spec_isa_override(entries@.skip(i as int), irq),
            decreases entries@.len() - i,
        {
            proof {
                assert(entries@.skip(i as int).drop_first() =~= entries@.skip(i + 1));
            }
            match entries[i] {
                MadtEntry::InterruptSourceOverride { bus, source_irq, global_system_interrupt, flags } => {
                    if bus == MADT_ISA_BUS && source_irq == irq {
                        return (global_system_interrupt, flags.polarity(), flags.trigger_mode());
                    }
                },
                _ => {},
            }
            i = i + 1;
        }
        (irq as u32, Polarity::ConformsToBus, TriggerMode::ConformsToBus)
    }
}

fn parse_madt_entry(kind: u8, table: &[u8], off: usize, length: usize) -> (r: MadtEntry)
    requires
        off + length <= table.len(),
    ensures
        r == spec_parse_madt_entry(kind, table@.subrange(off as int, off + length)),
{
    let ghost e = table@.subrange(off as int, off + length);
    if kind == MADT_LOCAL_APIC && length >= MADT_LOCAL_APIC_LEN {
        let flags = read_u32_le(table, off + 4);
        assert(u32_le(e, 4) == u32_le(table@, off + 4));
        MadtEntry::LocalApic { processor_uid: table[off + 2], apic_id: table[off + 3], flags }
    } else if kind == MADT_IO_APIC && length >= MADT_IO_APIC_LEN {
        let address = read_u32_le(table, off + 4);
        let gsi_base = read_u32_le(table, off + 8);
        assert(u32_le(e, 4) == u32_le(table@, off + 4));
        assert(u32_le(e, 8) == u32_le(table@, off + 8));
        MadtEntry::IoApic { id: table[off + 2], address, gsi_base }
    } else if kind == MADT_INTERRUPT_SOURCE_OVERRIDE && length >= MADT_INTERRUPT_SOURCE_OVERRIDE_LEN {
        let gsi = read_u32_le(table, off + 4);
        let flags = read_u16_le(table, off + 8);
        assert(u32_le(e, 4) == u32_le(table@, off + 4));
        assert(u16_le(e, 8) == u16_le(table@, off + 8));
        MadtEntry::InterruptSourceOverride {
            bus: table[off + 2],
            source_irq: table[off + 3],
            global_system_interrupt: gsi,
            flags: InterruptFlags(flags),
        }
    } else if kind == MADT_LOCAL_X2APIC && length >= MADT_LOCAL_X2APIC_LEN {
        let x2apic_id = read_u32_le(table, off + 4);
        let flags = read_u32_le(table, off + 8);
        let processor_uid = read_u32_le(table, off + 12);
        assert(u32_le(e, 4) == u32_le(table@, off + 4));
        assert(u32_le(e, 8) == u32_le(table@, off + 8));
        assert(u32_le(e, 12) == u32_le(table@, off + 12));
        MadtEntry::LocalX2Apic { x2apic_id, flags, processor_uid }
    } else {
        MadtEntry::Other { kind }
    }
}

/// Validate a MADT header and its entire entry list before anything reads it.
///
/// The walk is performed once, here, so [`Madt::entries`] cannot stop early on
/// a zero-length entry or read past the declared table length.
pub fn validate_madt(bytes: &[u8]) -> (r: Result<Madt<'_>, MadtError>)
    ensures
        r is Err <==> spec_madt_error(bytes@) is Some,
        r matches Err(e) ==> spec_madt_error(bytes@) == Some(e),
        r matches Ok(m) ==> m.table() == bytes@.take(sdt_length_field(bytes@) as int),
{
    let header = match validate_sdt(bytes) {
        Ok(h) => h,
        Err(e) => return Err(MadtError::InvalidSdt(e)),
    };
    if !signature_is(bytes, 0x41, 0x50, 0x49, 0x43) {
        return Err(MadtError::InvalidSignature);
    }
    if header.length < MADT_HEADER_LEN {
        return Err(MadtError::TooShort);
    }
    let table = slice_subrange(bytes, 0, header.length);
    assert(table@ =~= bytes@.take(header.length as int));
    let len = header.length;
    let mut off: usize = MADT_HEADER_LEN;
    while off < len
        invariant
            len == table@.len(),
            len == sdt_length_field(bytes@),
            table@ == bytes@.take(len as int),
            spec_sdt_error(bytes@) is None,
            bytes@.take(4) == madt_signature(),
            MADT_HEADER_LEN <= off <= len,
            spec_madt_walk_error(table@.skip(MADT_HEADER_LEN as int)) == spec_madt_walk_error(
                table@.skip(off as int),
            ),
        decreases len - off,
    {
        let ghost rest = table@.skip(off as int);
        if len - off < 2 {
            return Err(MadtError::EntryOutOfBounds);
        }
        let kind = table[off];
        let length = table[off + 1] as usize;
        if length < 2 {
            return Err(MadtError::ZeroLengthEntry);
        }
        if length > len - off {
            return Err(MadtError::EntryOutOfBounds);
        }
        if length < required_entry_length(kind) {
            return Err(MadtError::EntryTooShortForType);
        }
        assert(rest.skip(length as int) =~= table@.skip(off + length));
        off = off + length;
    }
    assert(table@.skip(off as int).len() == 0);
    Ok(Madt { table })
}

} // verus!
