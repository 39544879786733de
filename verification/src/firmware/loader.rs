//! The loader's checks on what the firmware hands over before the kernel
//! starts: where the ACPI tables are and how far they may be read, which root
//! table lists the others, how the kernel file is read and placed, how the
//! display is described and how the final memory map is normalized.

use vstd::prelude::*;
use crate::acpi::{RsdpInfo, SdtError, RSDP_V1_LEN, RSDP_V2_MIN_LEN, SDT_HEADER_LEN};
use crate::kernel_core::{FramebufferHandoff, HandoffPixelFormat, MemoryDescriptorHandoff};
use crate::kernel_core::image::AwknImageHeader;
use crate::le_bytes::{u32_le, u64_le};

verus! {

/// The largest system description table the loader will read, in bytes.
pub const MAX_ACPI_SDT_LEN: usize = 1024 * 1024;

/// An entry of the firmware's configuration table, as far as the loader cares.
#[derive(Clone, Copy, Debug, PartialEq, Eq, Structural)]
pub enum ConfigTable {
    /// The ACPI 2.0+ RSDP, at this address.
    Acpi2(usize),
    /// The ACPI 1.0 RSDP, at this address.
    Acpi1(usize),
    /// Anything else.
    Other,
}

/// Whether an entry is an ACPI 2.0 (`two`) or ACPI 1.0 RSDP entry.
pub open spec fn is_kind(t: ConfigTable, two: bool) -> bool {
    if two { t is Acpi2 } else { t is Acpi1 }
}

fn find_kind(tables: &[ConfigTable], two: bool) -> (r: Option<usize>)
    ensures
        match r {
            Some(i) => i < tables@.len() && is_kind(tables@[i as int], two)
                && forall|j: int| 0 <= j < i ==> !is_kind(tables@[j], two),
            None => forall|j: int| 0 <= j < tables@.len() ==> !is_kind(tables@[j], two),
        },
{
    let mut i: usize = 0;
    while i < tables.len()
        invariant
            i <= tables@.len(),
            forall|j: int| 0 <= j < i ==> !is_kind(tables@[j], two),
        decreases tables.len() - i,
    {
        let hit = match tables[i] {
            ConfigTable::Acpi2(_) => two,
            ConfigTable::Acpi1(_) => !two,
            ConfigTable::Other => false,
        };
        if hit {
            return Some(i);
        }
        i = i + 1;
    }
    None
}

/// Where the RSDP is and which ACPI revision announced it: the first ACPI 2.0
/// entry if there is one, else the first ACPI 1.0 entry, else none.
pub fn select_rsdp(tables: &[ConfigTable]) -> (r: Option<(usize, u8)>)
    ensures
        match r {
            Some((address, revision)) => {
                if revision == 2 {
                    exists|i: int| 0 <= i < tables@.len() && tables@[i] == ConfigTable::Acpi2(address)
                        && forall|j: int| 0 <= j < i ==> !(tables@[j] is Acpi2)
                } else {
                    &&& revision == 1
                    &&& forall|j: int| 0 <= j < tables@.len() ==> !(tables@[j] is Acpi2)
                    &&& exists|i: int| 0 <= i < tables@.len() && tables@[i] == ConfigTable::Acpi1(address)
                        && forall|j: int| 0 <= j < i ==> !(tables@[j] is Acpi1)
                }
            },
            None => forall|j: int| 0 <= j < tables@.len() ==> !(tables@[j] is Acpi2) && !(tables@[j] is Acpi1),
        },
{
    match find_kind(tables, true) {
        Some(i) => {
            match tables[i] {
                ConfigTable::Acpi2(address) => Some((address, 2)),
                _ => None,
            }
        },
        None => match find_kind(tables, false) {
            Some(i) => {
                match tables[i] {
                    ConfigTable::Acpi1(address) => Some((address, 1)),
                    _ => None,
                }
            },
            None => None,
        },
    }
}

/// How many bytes of the RSDP to read first: the ACPI 2.0 minimum when the
/// entry announced revision 2 or later, the ACPI 1.0 size otherwise.
pub fn rsdp_probe_len(table_revision: u8) -> (r: usize)
    ensures
        r == if table_revision >= 2 { RSDP_V2_MIN_LEN } else { RSDP_V1_LEN },
{
    if table_revision >= 2 { RSDP_V2_MIN_LEN } else { RSDP_V1_LEN }
}

/// A table address the loader may read from: not null, and addressable.
pub fn sdt_address(address: u64) -> (r: Result<usize, SdtError>)
    ensures
        match r {
            Ok(a) => address != 0 && address <= usize::MAX && a == address,
            Err(e) => (address == 0 || address > usize::MAX) && e == SdtError::InvalidLength,
        },
{
    if address == 0 || address > usize::MAX as u64 {
        return Err(SdtError::InvalidLength);
    }
    Ok(address as usize)
}

/// How much of a table to read, from its 36-byte header: the length it
/// declares, when that covers at least the header and at most 1 MiB.
pub fn sdt_read_len(header: &[u8]) -> (r: Result<usize, SdtError>)
    requires
        header@.len() >= SDT_HEADER_LEN,
    ensures
        match r {
            Ok(n) => n == u32_le(header@, 4) && SDT_HEADER_LEN <= n <= MAX_ACPI_SDT_LEN,
            Err(e) => !(SDT_HEADER_LEN <= u32_le(header@, 4) <= MAX_ACPI_SDT_LEN) && e == SdtError::InvalidLength,
        },
{
    let declared = crate::le_bytes::read_u32_le(header, 4) as usize;
    if declared < SDT_HEADER_LEN || declared > MAX_ACPI_SDT_LEN {
        return Err(SdtError::InvalidLength);
    }
    Ok(declared)
}

/// The root table that lists all the others.
#[derive(Clone, Copy, Debug, PartialEq, Eq, Structural)]
pub struct RootTable {
    pub address: u64,
    /// Bytes per entry: 8 in the XSDT, 4 in the RSDT.
    pub entry_size: usize,
    /// Whether this is the XSDT (else the RSDT).
    pub extended: bool,
}

/// The root table to walk: the XSDT when the RSDP gives a nonzero one, the
/// RSDT when its address is nonzero, and none otherwise.
pub open spec fn spec_acpi_root(rsdp: RsdpInfo) -> Option<RootTable> {
    match rsdp.xsdt_address {
        Some(x) if x != 0 => Some(RootTable { address: x, entry_size: 8, extended: true }),
        _ => if rsdp.rsdt_address != 0 {
            Some(RootTable { address: rsdp.rsdt_address as u64, entry_size: 4, extended: false })
        } else {
            None
        },
    }
}

/// The root table named by the RSDP.
pub fn acpi_root(rsdp: &RsdpInfo) -> (r: Option<RootTable>)
    ensures
        r == spec_acpi_root(*rsdp),
{
    match rsdp.xsdt_address {
        Some(x) if x != 0 => Some(RootTable { address: x, entry_size: 8, extended: true }),
        _ => {
            if rsdp.rsdt_address != 0 {
                Some(RootTable { address: rsdp.rsdt_address as u64, entry_size: 4, extended: false })
            } else {
                None
            }
        },
    }
}

/// Why a root table's entries cannot be read.
#[derive(Clone, Copy, Debug, PartialEq, Eq, Structural)]
pub enum RootTableError {
    /// The table does not carry the signature of the table it should be.
    Signature,
    /// Its payload is not a whole number of entries.
    EntryAlignment,
}

/// "XSDT" or "RSDT".
pub open spec fn root_signature(extended: bool) -> Seq<u8> {
    if extended { seq![0x58u8, 0x53, 0x44, 0x54] } else { seq![0x52u8, 0x53, 0x44, 0x54] }
}

/// "MCFG".
pub open spec fn mcfg_tag() -> Seq<u8> {
    seq![0x4du8, 0x43, 0x46, 0x47]
}

/// The table addresses a root table lists: its payload after the 36-byte
/// header read as 8-byte (XSDT) or 4-byte (RSDT) little-endian addresses.
pub open spec fn spec_root_entries(root: Seq<u8>, table: RootTable) -> Result<Seq<u64>, RootTableError> {
    if root.take(4) != root_signature(table.extended) {
        Err(RootTableError::Signature)
    } else if (root.len() - SDT_HEADER_LEN) % (table.entry_size as int) != 0 {
        Err(RootTableError::EntryAlignment)
    } else {
        Ok(Seq::new(((root.len() - SDT_HEADER_LEN) / (table.entry_size as int)) as nat, |i: int|
            if table.extended {
                u64_le(root, SDT_HEADER_LEN + 8 * i)
            } else {
                u32_le(root, SDT_HEADER_LEN + 4 * i) as u64
            }))
    }
}

/// Read the table addresses of a validated root table.
pub fn root_entries(root: &[u8], table: RootTable) -> (r: Result<Vec<u64>, RootTableError>)
    requires
        root@.len() >= SDT_HEADER_LEN,
        table.entry_size == if table.extended { 8usize } else { 4usize },
    ensures
        match spec_root_entries(root@, table) {
            Ok(entries) => r matches Ok(v) && v@ == entries,
            Err(e) => r == Err::<Vec<u64>, RootTableError>(e),
        },
{
    let expected: [u8; 4] = if table.extended { [0x58, 0x53, 0x44, 0x54] } else { [0x52, 0x53, 0x44, 0x54] };
    if root[0] != expected[0] || root[1] != expected[1] || root[2] != expected[2] || root[3] != expected[3] {
        proof {
            assert(expected@ =~= root_signature(table.extended));
            if root@.take(4) == root_signature(table.extended) {
                assert(root@.take(4)[0] == root@[0]);
                assert(root@.take(4)[1] == root@[1]);
                assert(root@.take(4)[2] == root@[2]);
                assert(root@.take(4)[3] == root@[3]);
            }
        }
        return Err(RootTableError::Signature);
    }
    proof {
        assert(expected@ =~= root_signature(table.extended));
        assert(root@.take(4) =~= root_signature(table.extended));
    }
    let payload = root.len() - SDT_HEADER_LEN;
    if payload % table.entry_size != 0 {
        return Err(RootTableError::EntryAlignment);
    }
    let count = payload / table.entry_size;
    let mut entries: Vec<u64> = Vec::new();
    let mut i: usize = 0;
    while i < count
        invariant
            root@.len() >= SDT_HEADER_LEN,
            table.entry_size == if table.extended { 8usize } else { 4usize },
            payload == root@.len() - SDT_HEADER_LEN,
            payload % table.entry_size == 0,
            count == payload / table.entry_size,
            spec_root_entries(root@, table) is Ok,
            i <= count,
            entries@ =~= spec_root_entries(root@, table)->Ok_0.take(i as int),
        decreases count - i,
    {
        proof {
            assert(count * table.entry_size <= payload) by (nonlinear_arith)
                requires count == payload / table.entry_size, table.entry_size > 0;
            assert(i * table.entry_size + table.entry_size <= count * table.entry_size) by (nonlinear_arith)
                requires i < count, table.entry_size > 0;
        }
        let value = if table.extended {
            assert(i * 8 + 8 <= payload);
            assert(SDT_HEADER_LEN + 8 * i + 8 <= root.len());
            let offset: usize = SDT_HEADER_LEN + 8 * i;
            crate::le_bytes::read_u64_le(root, offset)
        } else {
            assert(i * 4 + 4 <= payload);
            assert(SDT_HEADER_LEN + 4 * i + 4 <= root.len());
            let offset: usize = SDT_HEADER_LEN + 4 * i;
            crate::le_bytes::read_u32_le(root, offset) as u64
        };
        entries.push(value);
        i = i + 1;
    }
    Ok(entries)
}

/// Whether a child table is the MCFG (it carries the "MCFG" signature).
pub fn is_mcfg(table: &[u8]) -> (r: bool)
    requires
        table@.len() >= 4,
    ensures
        r == (table@.take(4) == mcfg_tag()),
{
    let r = table[0] == 0x4d && table[1] == 0x43 && table[2] == 0x46 && table[3] == 0x47;
    proof {
        if table@.take(4) == mcfg_tag() {
            assert(table@.take(4)[0] == table@[0]);
            assert(table@.take(4)[1] == table@[1]);
            assert(table@.take(4)[2] == table@[2]);
            assert(table@.take(4)[3] == table@[3]);
        }
        if r {
            assert(table@.take(4) =~= mcfg_tag());
        }
    }
    r
}

/// Progress of reading the kernel file into a buffer of its size: reads come
/// in pieces until the buffer is full or a read returns nothing.
#[derive(Clone, Copy, Debug, PartialEq, Eq, Structural)]
pub struct FileRead {
    pub len: usize,
    pub offset: usize,
}

impl FileRead {
    /// A read of a file of `len` bytes, none read yet.
    pub fn new(len: usize) -> (r: FileRead)
        ensures
            r == (FileRead { len, offset: 0 }),
    {
        FileRead { len, offset: 0 }
    }

    /// Whether there is more to read.
    pub fn wants_more(&self) -> (r: bool)
        ensures
            r == (self.offset < self.len),
    {
        self.offset < self.len
    }

    /// One read returned `read` bytes into the rest of the buffer. Returns
    /// false when the read returned nothing, which ends the reading.
    pub fn record(&mut self, read: usize) -> (more: bool)
        requires
            old(self).offset + read <= old(self).len,
        ensures
            more == (read != 0),
            *final(self) == (FileRead { offset: (old(self).offset + read) as usize, ..*old(self) }),
    {
        self.offset = self.offset + read;
        read != 0
    }

    /// The file was read in full.
    pub fn complete(&self) -> (r: bool)
        ensures
            r == (self.offset == self.len),
    {
        self.offset == self.len
    }
}

/// Where and how the kernel is placed: its fixed load address, the bytes and
/// pages reserved there, and the address of its entry point.
#[derive(Clone, Copy, Debug, PartialEq, Eq, Structural)]
pub struct KernelPlacement {
    pub load_address: usize,
    pub allocation_len: usize,
    pub pages: usize,
    pub entry_address: usize,
}

/// The placement an image header asks for, when every part of it is an
/// address or size this machine can hold.
pub fn kernel_placement(header: &AwknImageHeader) -> (r: Option<KernelPlacement>)
    ensures
        ({
            let pages = (header.memory_byte_len + 4096 - 1) / 4096;
            match r {
                Some(p) => {
                    &&& header.load_base <= usize::MAX && p.load_address == header.load_base
                    &&& header.memory_byte_len <= usize::MAX && p.allocation_len == header.memory_byte_len
                    &&& pages <= usize::MAX && p.pages == pages
                    &&& header.entry_point <= usize::MAX && p.entry_address == header.entry_point
                },
                None => header.load_base > usize::MAX || header.memory_byte_len > usize::MAX
                    || pages > usize::MAX || header.entry_point > usize::MAX,
            }
        }),
{
    let pages = header.page_count();
    if header.load_base > usize::MAX as u64 || header.memory_byte_len > usize::MAX as u64
        || pages > usize::MAX as u64 || header.entry_point > usize::MAX as u64 {
        return None;
    }
    Some(KernelPlacement {
        load_address: header.load_base as usize,
        allocation_len: header.memory_byte_len as usize,
        pages: pages as usize,
        entry_address: header.entry_point as usize,
    })
}

/// The pixel layout the graphics output reports.
#[derive(Clone, Copy, Debug, PartialEq, Eq, Structural)]
pub enum GopPixelFormat {
    Rgb,
    Bgr,
    Bitmask,
    /// No linear framebuffer: only block transfers.
    BltOnly,
}

/// The handoff's pixel format for a reported one.
pub open spec fn spec_handoff_format(format: GopPixelFormat) -> HandoffPixelFormat {
    match format {
        GopPixelFormat::Rgb => HandoffPixelFormat::Rgb,
        GopPixelFormat::Bgr => HandoffPixelFormat::Bgr,
        GopPixelFormat::Bitmask => HandoffPixelFormat::Bitmask,
        GopPixelFormat::BltOnly => HandoffPixelFormat::Unknown,
    }
}

/// The framebuffer handed to the kernel: none when the display has no linear
/// framebuffer, else its address, size, mode and pixel layout (the mode's
/// numbers narrowed to 32 bits).
pub fn framebuffer_handoff(format: GopPixelFormat, address: usize, size: usize, width: usize, height: usize, stride: usize) -> (r: Option<FramebufferHandoff>)
    ensures
        format == GopPixelFormat::BltOnly ==> r is None,
        format != GopPixelFormat::BltOnly ==> r == Some(FramebufferHandoff {
            physical_address: address as u64,
            byte_len: size as u64,
            width: width as u32,
            height: height as u32,
            stride_pixels: stride as u32,
            pixel_format: spec_handoff_format(format),
        }),
{
    let pixel_format = match format {
        GopPixelFormat::Rgb => HandoffPixelFormat::Rgb,
        GopPixelFormat::Bgr => HandoffPixelFormat::Bgr,
        GopPixelFormat::Bitmask => HandoffPixelFormat::Bitmask,
        GopPixelFormat::BltOnly => return None,
    };
    Some(FramebufferHandoff {
        physical_address: address as u64,
        byte_len: size as u64,
        width: width as u32,
        height: height as u32,
        stride_pixels: stride as u32,
        pixel_format,
    })
}

/// One descriptor of the firmware's final memory map, as the firmware gives it.
#[derive(Clone, Copy, Debug, PartialEq, Eq, Structural)]
pub struct FirmwareDescriptor {
    pub memory_type: u32,
    pub physical_start: u64,
    pub page_count: u64,
    pub attributes: u64,
}

/// The handoff form of a firmware descriptor.
pub open spec fn spec_handoff_descriptor(d: FirmwareDescriptor) -> MemoryDescriptorHandoff {
    MemoryDescriptorHandoff {
        memory_type: d.memory_type,
        reserved: 0,
        physical_start: d.physical_start,
        page_count: d.page_count,
        attributes: d.attributes,
    }
}

/// The final memory map in handoff form: every descriptor converted, provided
/// the map is not empty, fits the `capacity` reserved for it, and every
/// descriptor is valid (page aligned, nonempty, ending below 2^64).
pub open spec fn spec_normalize(map: Seq<FirmwareDescriptor>, capacity: nat) -> Option<Seq<MemoryDescriptorHandoff>> {
    if map.len() == 0 || map.len() > capacity {
        None
    } else if exists|i: int| 0 <= i < map.len() && !spec_handoff_descriptor(map[i]).spec_is_valid() {
        None
    } else {
        Some(map.map_values(|d: FirmwareDescriptor| spec_handoff_descriptor(d)))
    }
}

/// Normalize the final memory map for the kernel.
pub fn normalize_memory_map(map: &[FirmwareDescriptor], capacity: usize) -> (r: Option<Vec<MemoryDescriptorHandoff>>)
    ensures
        match spec_normalize(map@, capacity as nat) {
            Some(v) => r matches Some(out) && out@ == v,
            None => r is None,
        },
{
    if map.len() == 0 || map.len() > capacity {
        return None;
    }
    let mut out: Vec<MemoryDescriptorHandoff> = Vec::new();
    let mut i: usize = 0;
    while i < map.len()
        invariant
            i <= map@.len(),
            forall|j: int| 0 <= j < i ==> spec_handoff_descriptor(map@[j]).spec_is_valid(),
            out@ =~= map@.take(i as int).map_values(|d: FirmwareDescriptor| spec_handoff_descriptor(d)),
        decreases map.len() - i,
    {
        let source = map[i];
        let descriptor = MemoryDescriptorHandoff {
            memory_type: source.memory_type,
            reserved: 0,
            physical_start: source.physical_start,
            page_count: source.page_count,
            attributes: source.attributes,
        };
        if !descriptor.is_valid() {
            return None;
        }
        out.push(descriptor);
        i = i + 1;
    }
    proof {
        assert(map@.take(map@.len() as int) =~= map@);
    }
    Some(out)
}

} // verus!
