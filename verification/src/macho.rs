//! Bounded parsing of 64-bit little-endian Mach-O headers and of the fat
//! (universal) wrapper that may hold several of them.

use vstd::prelude::*;
use vstd::slice::slice_subrange;
use crate::le_bytes::{u32_le, u32_be, read_u32_le, read_u32_be};

verus! {

const MACH_HEADER_64_SIZE: usize = 32;
const LOAD_COMMAND_HEADER_SIZE: usize = 8;
const FAT_HEADER_SIZE: usize = 8;
const FAT_ARCH_SIZE: usize = 20;
const MAX_FAT_ARCHES: u32 = 128;

pub const MH_MAGIC_64: u32 = 0xfeed_facf;
pub const MH_CIGAM_64: u32 = 0xcffa_edfe;
pub const FAT_MAGIC: u32 = 0xcafe_babe;
pub const FAT_CIGAM: u32 = 0xbeba_feca;
pub const MH_OBJECT: u32 = 0x1;
pub const MH_EXECUTE: u32 = 0x2;
pub const MH_DYLIB: u32 = 0x6;
pub const MH_DYLINKER: u32 = 0x7;
pub const MH_BUNDLE: u32 = 0x8;
pub const MH_FILESET: u32 = 0xc;
pub const MH_ALLOW_STACK_EXECUTION: u32 = 0x0002_0000;
pub const CPU_TYPE_X86_64: u32 = 0x0100_0007;
pub const CPU_TYPE_ARM64: u32 = 0x0100_000c;

#[derive(Clone, Copy, Debug, PartialEq, Eq, Structural)]
pub enum CpuType {
    X86_64,
    Arm64,
}

impl CpuType {
    pub open spec fn spec_raw(self) -> u32 {
        match self {
            CpuType::X86_64 => CPU_TYPE_X86_64,
            CpuType::Arm64 => CPU_TYPE_ARM64,
        }
    }

    pub fn raw(self) -> (r: u32)
        ensures
            r == self.spec_raw(),
    {
        match self {
            CpuType::X86_64 => CPU_TYPE_X86_64,
            CpuType::Arm64 => CPU_TYPE_ARM64,
        }
    }

    fn from_raw(raw: u32) -> (r: Result<Self, ParseError>)
        ensures
            r == spec_cpu_from_raw(raw),
    {
        if raw == CPU_TYPE_X86_64 {
            Ok(CpuType::X86_64)
        } else if raw == CPU_TYPE_ARM64 {
            Ok(CpuType::Arm64)
        } else {
            Err(ParseError::UnsupportedCpu(raw))
        }
    }
}

/// The CPU a raw CPU type names, if it is one this loader supports.
pub open spec fn spec_cpu_from_raw(raw: u32) -> Result<CpuType, ParseError> {
    if raw == CPU_TYPE_X86_64 {
        Ok(CpuType::X86_64)
    } else if raw == CPU_TYPE_ARM64 {
        Ok(CpuType::Arm64)
    } else {
        Err(ParseError::UnsupportedCpu(raw))
    }
}

#[derive(Clone, Copy, Debug, PartialEq, Eq, Structural)]
pub enum MachFileType {
    Object,
    Execute,
    Dylib,
    Dylinker,
    Bundle,
    Fileset,
    Other(u32),
}

impl MachFileType {
    pub open spec fn spec_raw(self) -> u32 {
        match self {
            MachFileType::Object => MH_OBJECT,
            MachFileType::Execute => MH_EXECUTE,
            MachFileType::Dylib => MH_DYLIB,
            MachFileType::Dylinker => MH_DYLINKER,
            MachFileType::Bundle => MH_BUNDLE,
            MachFileType::Fileset => MH_FILESET,
            MachFileType::Other(raw) => raw,
        }
    }

    pub fn raw(self) -> (r: u32)
        ensures
            r == self.spec_raw(),
    {
        match self {
            MachFileType::Object => MH_OBJECT,
            MachFileType::Execute => MH_EXECUTE,
            MachFileType::Dylib => MH_DYLIB,
            MachFileType::Dylinker => MH_DYLINKER,
            MachFileType::Bundle => MH_BUNDLE,
            MachFileType::Fileset => MH_FILESET,
            MachFileType::Other(raw) => raw,
        }
    }

    fn from_raw(raw: u32) -> (r: Self)
        ensures
            r == spec_file_type_from_raw(raw),
    {
        if raw == MH_OBJECT {
            MachFileType::Object
        } else if raw == MH_EXECUTE {
            MachFileType::Execute
        } else if raw == MH_DYLIB {
            MachFileType::Dylib
        } else if raw == MH_DYLINKER {
            MachFileType::Dylinker
        } else if raw == MH_BUNDLE {
            MachFileType::Bundle
        } else if raw == MH_FILESET {
            MachFileType::Fileset
        } else {
            MachFileType::Other(raw)
        }
    }
}

/// The file type a raw file type names.
pub open spec fn spec_file_type_from_raw(raw: u32) -> MachFileType {
    if raw == MH_OBJECT {
        MachFileType::Object
    } else if raw == MH_EXECUTE {
        MachFileType::Execute
    } else if raw == MH_DYLIB {
        MachFileType::Dylib
    } else if raw == MH_DYLINKER {
        MachFileType::Dylinker
    } else if raw == MH_BUNDLE {
        MachFileType::Bundle
    } else if raw == MH_FILESET {
        MachFileType::Fileset
    } else {
        MachFileType::Other(raw)
    }
}

/// Decoding a raw file type loses nothing: the decoded type encodes back to
/// the same raw value, and a raw value that names a known type never decodes
/// as `Other`.
pub proof fn lemma_file_type_round_trips(raw: u32)
    ensures
        spec_file_type_from_raw(raw).spec_raw() == raw,
        spec_file_type_from_raw(raw) matches MachFileType::Other(x) ==> x != MH_OBJECT && x != MH_EXECUTE
            && x != MH_DYLIB && x != MH_DYLINKER && x != MH_BUNDLE && x != MH_FILESET,
{
}

#[derive(Clone, Copy, Debug, PartialEq, Eq, Structural)]
pub struct MachHeader64 {
    pub cpu: CpuType,
    pub cpu_subtype: u32,
    pub file_type: MachFileType,
    pub command_count: u32,
    pub command_bytes: u32,
    pub flags: u32,
}

#[derive(Clone, Copy, Debug, PartialEq, Eq, Structural)]
pub struct MachSlice {
    pub offset: usize,
    pub size: usize,
    pub header: MachHeader64,
}

#[derive(Clone, Copy, Debug, PartialEq, Eq, Structural)]
pub enum ParseError {
    TooShort,
    IntegerOverflow,
    UnsupportedMagic(u32),
    UnsupportedEndian,
    UnsupportedCpu(u32),
    LoadCommandsOutOfBounds,
    TooManyLoadCommands,
    LoadCommandTruncated { index: u32 },
    LoadCommandTooSmall { index: u32, size: u32 },
    LoadCommandMisaligned { index: u32, size: u32 },
    LoadCommandRegionMismatch,
    NotExecutableFileType(u32),
    ExecutableStackRequested,
    FatHasNoArchitectures,
    FatTooManyArchitectures(u32),
    FatTableOutOfBounds,
    FatSliceOutOfBounds { index: u32 },
    FatSliceOverlapsTable { index: u32 },
    FatSliceMisaligned { index: u32, align_power: u32 },
    FatSlicesOverlap { first: u32, second: u32 },
    RequestedArchitectureMissing(CpuType),
    AmbiguousArchitecture(CpuType),
    FatArchitectureMismatch { expected: CpuType, actual: CpuType },
}

/// Walks the load commands from `cursor`, command `index` of `count`, inside
/// a command region that ends at `commands_end`; on success, where the walk
/// stops.
pub open spec fn spec_walk_commands(
    s: Seq<u8>,
    cursor: int,
    index: u32,
    count: u32,
    commands_end: int,
) -> Result<int, ParseError>
    decreases count - index,
{
    if index >= count {
        Ok(cursor)
    } else if cursor + 8 > usize::MAX {
        Err(ParseError::IntegerOverflow)
    } else if cursor + 8 > commands_end {
        Err(ParseError::LoadCommandTruncated { index })
    } else {
        let size = u32_le(s, cursor + 4);
        if size < 8 {
            Err(ParseError::LoadCommandTooSmall { index, size })
        } else if size % 8 != 0 {
            Err(ParseError::LoadCommandMisaligned { index, size })
        } else if cursor + size > usize::MAX {
            Err(ParseError::IntegerOverflow)
        } else if cursor + size > commands_end {
            Err(ParseError::LoadCommandTruncated { index })
        } else {
            spec_walk_commands(s, cursor + size, (index + 1) as u32, count, commands_end)
        }
    }
}

/// What `parse_mach_o_64` answers for `s`; checks are made in this order.
pub open spec fn spec_parse_mach_o_64(s: Seq<u8>) -> Result<MachHeader64, ParseError> {
    if s.len() < 32 {
        Err(ParseError::TooShort)
    } else if u32_le(s, 0) == MH_CIGAM_64 {
        Err(ParseError::UnsupportedEndian)
    } else if u32_le(s, 0) != MH_MAGIC_64 {
        Err(ParseError::UnsupportedMagic(u32_le(s, 0)))
    } else {
        match spec_cpu_from_raw(u32_le(s, 4)) {
            Err(e) => Err(e),
            Ok(cpu) => {
                let command_count = u32_le(s, 16);
                let command_bytes = u32_le(s, 20);
                let commands_end = 32 + command_bytes;
                if commands_end > usize::MAX {
                    Err(ParseError::IntegerOverflow)
                } else if commands_end > s.len() {
                    Err(ParseError::LoadCommandsOutOfBounds)
                } else if command_count * 8 > usize::MAX {
                    Err(ParseError::IntegerOverflow)
                } else if command_count * 8 > command_bytes {
                    Err(ParseError::TooManyLoadCommands)
                } else {
                    match spec_walk_commands(s, 32, 0, command_count, commands_end) {
                        Err(e) => Err(e),
                        Ok(end) => if end != commands_end {
                            Err(ParseError::LoadCommandRegionMismatch)
                        } else {
                            Ok(
                                MachHeader64 {
                                    cpu,
                                    cpu_subtype: u32_le(s, 8),
                                    file_type: spec_file_type_from_raw(u32_le(s, 12)),
                                    command_count,
                                    command_bytes,
                                    flags: u32_le(s, 24),
                                },
                            )
                        },
                    }
                }
            },
        }
    }
}

/// Walks the load commands of a header whose command region is known to fit.
fn walk_commands(bytes: &[u8], count: u32, commands_end: usize) -> (r: Result<usize, ParseError>)
    requires
        commands_end <= bytes@.len(),
        32 <= commands_end,
    ensures
        match r {
            Ok(end) => spec_walk_commands(bytes@, 32, 0, count, commands_end as int) == Ok::<
                int,
                ParseError,
            >(end as int),
            Err(e) => spec_walk_commands(bytes@, 32, 0, count, commands_end as int) == Err::<
                int,
                ParseError,
            >(e),
        },
{
    let mut cursor: usize = MACH_HEADER_64_SIZE;
    let mut index: u32 = 0;
    while index < count
        invariant
            commands_end <= bytes@.len(),
            cursor <= commands_end,
            index <= count,
            spec_walk_commands(bytes@, 32, 0, count, commands_end as int) == spec_walk_commands(
                bytes@,
                cursor as int,
                index,
                count,
                commands_end as int,
            ),
        decreases count - index,
    {
        if cursor > usize::MAX - LOAD_COMMAND_HEADER_SIZE {
            return Err(ParseError::IntegerOverflow);
        }
        let header_end = cursor + LOAD_COMMAND_HEADER_SIZE;
        if header_end > commands_end {
            return Err(ParseError::LoadCommandTruncated { index });
        }
        let command_size = read_u32_le(bytes, cursor + 4);
        if command_size < 8u32 {
            return Err(ParseError::LoadCommandTooSmall { index, size: command_size });
        }
        if command_size % 8 != 0 {
            return Err(ParseError::LoadCommandMisaligned { index, size: command_size });
        }
        if cursor > usize::MAX - command_size as usize {
            return Err(ParseError::IntegerOverflow);
        }
        let next = cursor + command_size as usize;
        if next > commands_end {
            return Err(ParseError::LoadCommandTruncated { index });
        }
        cursor = next;
        index = index + 1;
    }
    Ok(cursor)
}

/// Parses and bounds-checks a thin 64-bit little-endian Mach-O header and the
/// layout of its load commands.
pub fn parse_mach_o_64(bytes: &[u8]) -> (r: Result<MachHeader64, ParseError>)
    ensures
        r == spec_parse_mach_o_64(bytes@),
{
    if bytes.len() < MACH_HEADER_64_SIZE {
        return Err(ParseError::TooShort);
    }
    let magic = read_u32_le(bytes, 0);
    if magic == MH_CIGAM_64 {
        return Err(ParseError::UnsupportedEndian);
    }
    if magic != MH_MAGIC_64 {
        return Err(ParseError::UnsupportedMagic(magic));
    }
    let cpu = match CpuType::from_raw(read_u32_le(bytes, 4)) {
        Ok(c) => c,
        Err(e) => return Err(e),
    };
    let cpu_subtype = read_u32_le(bytes, 8);
    let file_type = MachFileType::from_raw(read_u32_le(bytes, 12));
    let command_count = read_u32_le(bytes, 16);
    let command_bytes = read_u32_le(bytes, 20);
    let flags = read_u32_le(bytes, 24);
    if command_bytes as usize > usize::MAX - MACH_HEADER_64_SIZE {
        return Err(ParseError::IntegerOverflow);
    }
    let commands_end = MACH_HEADER_64_SIZE + command_bytes as usize;
    if commands_end > bytes.len() {
        return Err(ParseError::LoadCommandsOutOfBounds);
    }
    let minimum_command_bytes = match (command_count as usize).checked_mul(LOAD_COMMAND_HEADER_SIZE) {
        Some(m) => m,
        None => return Err(ParseError::IntegerOverflow),
    };
    if minimum_command_bytes > command_bytes as usize {
        return Err(ParseError::TooManyLoadCommands);
    }
    let end = match walk_commands(bytes, command_count, commands_end) {
        Ok(end) => end,
        Err(e) => return Err(e),
    };
    if end != commands_end {
        return Err(ParseError::LoadCommandRegionMismatch);
    }
    Ok(MachHeader64 { cpu, cpu_subtype, file_type, command_count, command_bytes, flags })
}

/// What `validate_main_executable` answers for a header.
pub open spec fn spec_validate_main_executable(header: MachHeader64) -> Result<(), ParseError> {
    if header.file_type != MachFileType::Execute {
        Err(ParseError::NotExecutableFileType(header.file_type.spec_raw()))
    } else if header.flags & MH_ALLOW_STACK_EXECUTION != 0 {
        Err(ParseError::ExecutableStackRequested)
    } else {
        Ok(())
    }
}

/// Accepts only a main executable that does not ask for an executable stack.
pub fn validate_main_executable(header: MachHeader64) -> (r: Result<(), ParseError>)
    ensures
        r == spec_validate_main_executable(header),
{
    if header.file_type != MachFileType::Execute {
        return Err(ParseError::NotExecutableFileType(header.file_type.raw()));
    }
    if header.flags & MH_ALLOW_STACK_EXECUTION != 0 {
        return Err(ParseError::ExecutableStackRequested);
    }
    Ok(())
}

#[derive(Clone, Copy, Debug, PartialEq, Eq, Structural)]
struct FatArch {
    cpu_raw: u32,
    offset: usize,
    size: usize,
    align_power: u32,
}

/// Where the fat table ends, given its architecture count.
spec fn spec_table_end(count: u32) -> int {
    8 + count * 20
}

/// What `fat_table` answers: the architecture count and where the table ends.
spec fn spec_fat_table(s: Seq<u8>) -> Result<(u32, int), ParseError> {
    if s.len() < 8 {
        Err(ParseError::TooShort)
    } else if u32_be(s, 0) == FAT_CIGAM {
        Err(ParseError::UnsupportedEndian)
    } else if u32_be(s, 0) != FAT_MAGIC {
        Err(ParseError::UnsupportedMagic(u32_be(s, 0)))
    } else if u32_be(s, 4) == 0 {
        Err(ParseError::FatHasNoArchitectures)
    } else if u32_be(s, 4) > MAX_FAT_ARCHES {
        Err(ParseError::FatTooManyArchitectures(u32_be(s, 4)))
    } else if spec_table_end(u32_be(s, 4)) > s.len() {
        Err(ParseError::FatTableOutOfBounds)
    } else {
        Ok((u32_be(s, 4), spec_table_end(u32_be(s, 4))))
    }
}

/// What `read_fat_arch` answers for the record at `index`.
spec fn spec_fat_arch(s: Seq<u8>, index: u32, table_end: int) -> Result<FatArch, ParseError> {
    let record_offset = 8 + index * 20;
    if record_offset + 20 > table_end {
        Err(ParseError::FatTableOutOfBounds)
    } else {
        let cpu_raw = u32_be(s, record_offset);
        let offset = u32_be(s, record_offset + 8);
        let size = u32_be(s, record_offset + 12);
        let align_power = u32_be(s, record_offset + 16);
        if offset + size > usize::MAX {
            Err(ParseError::IntegerOverflow)
        } else if size == 0 || offset + size > s.len() {
            Err(ParseError::FatSliceOutOfBounds { index })
        } else if offset < table_end {
            Err(ParseError::FatSliceOverlapsTable { index })
        } else if align_power >= usize::BITS {
            Err(ParseError::FatSliceMisaligned { index, align_power })
        } else if (offset as usize) % (1usize << align_power) != 0 {
            Err(ParseError::FatSliceMisaligned { index, align_power })
        } else {
            Ok(FatArch { cpu_raw, offset: offset as usize, size: size as usize, align_power })
        }
    }
}

fn read_fat_arch(bytes: &[u8], index: u32, table_end: usize) -> (r: Result<FatArch, ParseError>)
    requires
        index < MAX_FAT_ARCHES,
        table_end <= bytes@.len(),
    ensures
        r == spec_fat_arch(bytes@, index, table_end as int),
        r matches Ok(a) ==> a.offset + a.size <= bytes@.len() && a.size > 0 && a.offset >= table_end,
{
    let record_offset = FAT_HEADER_SIZE + (index as usize) * FAT_ARCH_SIZE;
    if record_offset + FAT_ARCH_SIZE > table_end {
        return Err(ParseError::FatTableOutOfBounds);
    }
    let cpu_raw = read_u32_be(bytes, record_offset);
    let offset = read_u32_be(bytes, record_offset + 8) as usize;
    let size = read_u32_be(bytes, record_offset + 12) as usize;
    let align_power = read_u32_be(bytes, record_offset + 16);
    if offset > usize::MAX - size {
        return Err(ParseError::IntegerOverflow);
    }
    let slice_end = offset + size;
    if size == 0 || slice_end > bytes.len() {
        return Err(ParseError::FatSliceOutOfBounds { index });
    }
    if offset < table_end {
        return Err(ParseError::FatSliceOverlapsTable { index });
    }
    if align_power >= usize::BITS {
        return Err(ParseError::FatSliceMisaligned { index, align_power });
    }
    let alignment = 1usize << align_power;
    assert(alignment != 0) by {
        assert((1usize << align_power) != 0usize) by (bit_vector)
            requires
                align_power < usize::BITS,
        ;
    }
    if offset % alignment != 0 {
        return Err(ParseError::FatSliceMisaligned { index, align_power });
    }
    Ok(FatArch { cpu_raw, offset, size, align_power })
}

fn fat_table(bytes: &[u8]) -> (r: Result<(u32, usize), ParseError>)
    ensures
        match r {
            Ok((count, end)) => spec_fat_table(bytes@) == Ok::<(u32, int), ParseError>(
                (count, end as int),
            ),
            Err(e) => spec_fat_table(bytes@) == Err::<(u32, int), ParseError>(e),
        },
{
    if bytes.len() < FAT_HEADER_SIZE {
        return Err(ParseError::TooShort);
    }
    let magic = read_u32_be(bytes, 0);
    if magic == FAT_CIGAM {
        return Err(ParseError::UnsupportedEndian);
    }
    if magic != FAT_MAGIC {
        return Err(ParseError::UnsupportedMagic(magic));
    }
    let count = read_u32_be(bytes, 4);
    if count == 0 {
        return Err(ParseError::FatHasNoArchitectures);
    }
    if count > MAX_FAT_ARCHES {
        return Err(ParseError::FatTooManyArchitectures(count));
    }
    let table_end = FAT_HEADER_SIZE + (count as usize) * FAT_ARCH_SIZE;
    if table_end > bytes.len() {
        return Err(ParseError::FatTableOutOfBounds);
    }
    Ok((count, table_end))
}

/// Whether two slices share a byte.
spec fn spec_overlap(a: FatArch, b: FatArch) -> bool {
    a.offset < b.offset + b.size && b.offset < a.offset + a.size
}

/// Compares slice `first` with every later slice from `second` on.
spec fn spec_layout_inner(
    s: Seq<u8>,
    count: u32,
    table_end: int,
    first: u32,
    first_arch: FatArch,
    second: u32,
) -> Result<(), ParseError>
    decreases count - second,
{
    if second >= count {
        Ok(())
    } else {
        match spec_fat_arch(s, second, table_end) {
            Err(e) => Err(e),
            Ok(second_arch) => if spec_overlap(first_arch, second_arch) {
                Err(ParseError::FatSlicesOverlap { first, second })
            } else {
                spec_layout_inner(s, count, table_end, first, first_arch, (second + 1) as u32)
            },
        }
    }
}

/// Checks every pair of slices from slice `first` on.
spec fn spec_layout_outer(s: Seq<u8>, count: u32, table_end: int, first: u32) -> Result<(), ParseError>
    decreases count - first,
{
    if first >= count {
        Ok(())
    } else {
        match spec_fat_arch(s, first, table_end) {
            Err(e) => Err(e),
            Ok(first_arch) => match spec_layout_inner(
                s,
                count,
                table_end,
                first,
                first_arch,
                (first + 1) as u32,
            ) {
                Err(e) => Err(e),
                Ok(()) => spec_layout_outer(s, count, table_end, (first + 1) as u32),
            },
        }
    }
}

fn validate_fat_layout(bytes: &[u8], count: u32, table_end: usize) -> (r: Result<(), ParseError>)
    requires
        count <= MAX_FAT_ARCHES,
        table_end <= bytes@.len(),
    ensures
        r == spec_layout_outer(bytes@, count, table_end as int, 0),
{
    let mut first: u32 = 0;
    while first < count
        invariant
            first <= count,
            count <= MAX_FAT_ARCHES,
            table_end <= bytes@.len(),
            spec_layout_outer(bytes@, count, table_end as int, 0) == spec_layout_outer(
                bytes@,
                count,
                table_end as int,
                first,
            ),
        decreases count - first,
    {
        let first_arch = match read_fat_arch(bytes, first, table_end) {
            Ok(a) => a,
            Err(e) => return Err(e),
        };
        let first_end = first_arch.offset + first_arch.size;
        let mut second: u32 = first + 1;
        while second < count
            invariant
                first < count,
                first < second <= count,
                count <= MAX_FAT_ARCHES,
                table_end <= bytes@.len(),
                first_arch.offset + first_arch.size <= bytes@.len(),
                first_end == first_arch.offset + first_arch.size,
                spec_fat_arch(bytes@, first, table_end as int) == Ok::<FatArch, ParseError>(first_arch),
                spec_layout_outer(bytes@, count, table_end as int, 0) == spec_layout_outer(
                    bytes@,
                    count,
                    table_end as int,
                    first,
                ),
                spec_layout_inner(bytes@, count, table_end as int, first, first_arch, (first + 1) as u32)
                    == spec_layout_inner(bytes@, count, table_end as int, first, first_arch, second),
            decreases count - second,
        {
            let second_arch = match read_fat_arch(bytes, second, table_end) {
                Ok(a) => a,
                Err(e) => return Err(e),
            };
            let second_end = second_arch.offset + second_arch.size;
            if first_arch.offset < second_end && second_arch.offset < first_end {
                return Err(ParseError::FatSlicesOverlap { first, second });
            }
            second = second + 1;
        }
        first = first + 1;
    }
    Ok(())
}

/// Looks for the slice of the target CPU from `index` on, refusing a second
/// one.
spec fn spec_select_scan(
    s: Seq<u8>,
    count: u32,
    table_end: int,
    target: CpuType,
    index: u32,
    selected: Option<FatArch>,
) -> Result<Option<FatArch>, ParseError>
    decreases count - index,
{
    if index >= count {
        Ok(selected)
    } else {
        match spec_fat_arch(s, index, table_end) {
            Err(e) => Err(e),
            Ok(arch) => if arch.cpu_raw == target.spec_raw() {
                if selected is Some {
                    Err(ParseError::AmbiguousArchitecture(target))
                } else {
                    spec_select_scan(s, count, table_end, target, (index + 1) as u32, Some(arch))
                }
            } else {
                spec_select_scan(s, count, table_end, target, (index + 1) as u32, selected)
            },
        }
    }
}

/// What `select_fat_slice` answers.
spec fn spec_select_fat_slice(s: Seq<u8>, target: CpuType) -> Result<MachSlice, ParseError> {
    match spec_fat_table(s) {
        Err(e) => Err(e),
        Ok((count, table_end)) => match spec_layout_outer(s, count, table_end, 0) {
            Err(e) => Err(e),
            Ok(()) => match spec_select_scan(s, count, table_end, target, 0, None) {
                Err(e) => Err(e),
                Ok(None) => Err(ParseError::RequestedArchitectureMissing(target)),
                Ok(Some(arch)) => match spec_parse_mach_o_64(
                    s.subrange(arch.offset as int, arch.offset + arch.size),
                ) {
                    Err(e) => Err(e),
                    Ok(header) => if header.cpu != target {
                        Err(ParseError::FatArchitectureMismatch { expected: target, actual: header.cpu })
                    } else {
                        Ok(MachSlice { offset: arch.offset, size: arch.size, header })
                    },
                },
            },
        },
    }
}

fn select_fat_slice(bytes: &[u8], target: CpuType) -> (r: Result<MachSlice, ParseError>)
    ensures
        r == spec_select_fat_slice(bytes@, target),
{
    let (count, table_end) = match fat_table(bytes) {
        Ok(t) => t,
        Err(e) => return Err(e),
    };
    let layout = validate_fat_layout(bytes, count, table_end);
    if let Err(e) = layout {
        return Err(e);
    }
    assert(spec_layout_outer(bytes@, count, table_end as int, 0) is Ok);
    let mut selected: Option<FatArch> = None;
    let mut index: u32 = 0;
    while index < count
        invariant
            index <= count,
            count <= MAX_FAT_ARCHES,
            table_end <= bytes@.len(),
            spec_select_scan(bytes@, count, table_end as int, target, 0, None) == spec_select_scan(
                bytes@,
                count,
                table_end as int,
                target,
                index,
                selected,
            ),
            selected matches Some(a) ==> a.offset + a.size <= bytes.len(),
            spec_fat_table(bytes@) == Ok::<(u32, int), ParseError>((count, table_end as int)),
            spec_layout_outer(bytes@, count, table_end as int, 0) is Ok,
        decreases count - index,
    {
        let arch = match read_fat_arch(bytes, index, table_end) {
            Ok(a) => a,
            Err(e) => return Err(e),
        };
        if arch.cpu_raw == target.raw() {
            if selected.is_some() {
                return Err(ParseError::AmbiguousArchitecture(target));
            }
            selected = Some(arch);
        }
        index = index + 1;
    }
    let arch = match selected {
        Some(a) => a,
        None => return Err(ParseError::RequestedArchitectureMissing(target)),
    };
    let slice = slice_subrange(bytes, arch.offset, arch.offset + arch.size);
    let header = match parse_mach_o_64(slice) {
        Ok(h) => h,
        Err(e) => return Err(e),
    };
    if header.cpu != target {
        return Err(ParseError::FatArchitectureMismatch { expected: target, actual: header.cpu });
    }
    Ok(MachSlice { offset: arch.offset, size: arch.size, header })
}

/// What `select_mach_o_64` answers: a thin image is taken whole, a fat one
/// is searched for the slice of the target CPU.
pub closed spec fn spec_select_mach_o_64(s: Seq<u8>, target: CpuType) -> Result<MachSlice, ParseError> {
    if s.len() < 4 {
        Err(ParseError::TooShort)
    } else if u32_le(s, 0) == MH_MAGIC_64 || u32_le(s, 0) == MH_CIGAM_64 {
        match spec_parse_mach_o_64(s) {
            Err(e) => Err(e),
            Ok(header) => if header.cpu != target {
                Err(ParseError::RequestedArchitectureMissing(target))
            } else {
                Ok(MachSlice { offset: 0, size: s.len() as usize, header })
            },
        }
    } else {
        spec_select_fat_slice(s, target)
    }
}

/// Picks the 64-bit Mach-O image for `target` out of a thin or fat file.
pub fn select_mach_o_64(bytes: &[u8], target: CpuType) -> (r: Result<MachSlice, ParseError>)
    ensures
        r == spec_select_mach_o_64(bytes@, target),
{
    if bytes.len() < 4 {
        return Err(ParseError::TooShort);
    }
    let thin_magic = read_u32_le(bytes, 0);
    if thin_magic == MH_MAGIC_64 || thin_magic == MH_CIGAM_64 {
        let header = match parse_mach_o_64(bytes) {
            Ok(h) => h,
            Err(e) => return Err(e),
        };
        if header.cpu != target {
            return Err(ParseError::RequestedArchitectureMissing(target));
        }
        return Ok(MachSlice { offset: 0, size: bytes.len(), header });
    }
    select_fat_slice(bytes, target)
}

/// A slice the scan selects lies inside the file.
proof fn lemma_scan_stays_in_bounds(
    s: Seq<u8>,
    count: u32,
    table_end: int,
    target: CpuType,
    index: u32,
    selected: Option<FatArch>,
)
    requires
        selected matches Some(a) ==> a.offset + a.size <= s.len(),
    ensures
        spec_select_scan(s, count, table_end, target, index, selected) matches Ok(Some(a)) ==> a.offset
            + a.size <= s.len(),
    decreases count - index,
{
    if index < count {
        match spec_fat_arch(s, index, table_end) {
            Ok(arch) => {
                if arch.cpu_raw == target.spec_raw() {
                    if selected is None {
                        lemma_scan_stays_in_bounds(s, count, table_end, target, (index + 1) as u32, Some(arch));
                    }
                } else {
                    lemma_scan_stays_in_bounds(s, count, table_end, target, (index + 1) as u32, selected);
                }
            },
            Err(_) => {},
        }
    }
}

/// A parsed header's load commands fit the file: the command region lies
/// inside it and holds at least a command header per command.
pub proof fn lemma_parsed_header_fits(s: Seq<u8>)
    requires
        spec_parse_mach_o_64(s) is Ok,
    ensures
        32 + spec_parse_mach_o_64(s)->Ok_0.command_bytes <= s.len(),
        spec_parse_mach_o_64(s)->Ok_0.command_count * 8 <= spec_parse_mach_o_64(s)->Ok_0.command_bytes,
{
}

/// A selected slice lies inside the file, is of the requested CPU, and is
/// exactly the header that parsing those bytes gives.
pub proof fn lemma_selected_slice_is_in_bounds(s: Seq<u8>, target: CpuType)
    requires
        s.len() <= usize::MAX,
        spec_select_mach_o_64(s, target) is Ok,
    ensures
        ({
            let slice = spec_select_mach_o_64(s, target)->Ok_0;
            &&& slice.offset + slice.size <= s.len()
            &&& slice.header.cpu == target
            &&& spec_parse_mach_o_64(s.subrange(slice.offset as int, slice.offset + slice.size))
                == Ok::<MachHeader64, ParseError>(slice.header)
        }),
{
    if s.len() >= 4 && (u32_le(s, 0) == MH_MAGIC_64 || u32_le(s, 0) == MH_CIGAM_64) {
        assert(s.subrange(0, s.len() as int) =~= s);
    } else {
        let (count, table_end) = spec_fat_table(s)->Ok_0;
        lemma_scan_stays_in_bounds(s, count, table_end, target, 0, None);
    }
}

/// Whether the file starts with the magic of a thin 64-bit Mach-O image (in
/// either byte order); any other file is read as a fat one.
pub open spec fn spec_is_thin(s: Seq<u8>) -> bool {
    s.len() >= 4 && (u32_le(s, 0) == MH_MAGIC_64 || u32_le(s, 0) == MH_CIGAM_64)
}

/// The architecture count a fat header declares.
pub open spec fn spec_fat_count(s: Seq<u8>) -> u32 {
    u32_be(s, 4)
}

/// The CPU type of record `i` of a fat table.
pub open spec fn spec_fat_record_cpu(s: Seq<u8>, i: int) -> u32 {
    u32_be(s, 8 + i * 20)
}

/// Where the slice of record `i` of a fat table starts.
pub open spec fn spec_fat_record_offset(s: Seq<u8>, i: int) -> u32 {
    u32_be(s, 8 + i * 20 + 8)
}

/// How long the slice of record `i` of a fat table is.
pub open spec fn spec_fat_record_size(s: Seq<u8>, i: int) -> u32 {
    u32_be(s, 8 + i * 20 + 12)
}

/// Whether record `k` decodes and names the target CPU.
spec fn spec_hit(s: Seq<u8>, table_end: int, target: CpuType, k: u32) -> bool {
    spec_fat_arch(s, k, table_end) matches Ok(a) && a.cpu_raw == target.spec_raw()
}

/// A decoded record holds the fields of its table entry.
proof fn lemma_fat_arch_fields(s: Seq<u8>, k: u32, table_end: int)
    requires
        spec_fat_arch(s, k, table_end) is Ok,
    ensures
        ({
            let a = spec_fat_arch(s, k, table_end)->Ok_0;
            &&& a.cpu_raw == spec_fat_record_cpu(s, k as int)
            &&& a.offset == spec_fat_record_offset(s, k as int)
            &&& a.size == spec_fat_record_size(s, k as int)
            &&& a.offset + a.size <= s.len()
        }),
{
}

/// Slice `first` checked against every later one: each later record decodes
/// and shares no byte with it.
proof fn lemma_layout_inner_ok(s: Seq<u8>, count: u32, table_end: int, first: u32, first_arch: FatArch, second: u32)
    requires
        spec_layout_inner(s, count, table_end, first, first_arch, second) is Ok,
    ensures
        forall|b: u32|
            second <= b < count ==> (#[trigger] spec_fat_arch(s, b, table_end)) is Ok && !spec_overlap(
                first_arch,
                spec_fat_arch(s, b, table_end)->Ok_0,
            ),
    decreases count - second,
{
    if second < count {
        lemma_layout_inner_ok(s, count, table_end, first, first_arch, (second + 1) as u32);
    }
}

/// A layout that checks out from `first` on: every record decodes, and no two
/// slices share a byte.
proof fn lemma_layout_outer_ok(s: Seq<u8>, count: u32, table_end: int, first: u32)
    requires
        spec_layout_outer(s, count, table_end, first) is Ok,
    ensures
        forall|k: u32| first <= k < count ==> (#[trigger] spec_fat_arch(s, k, table_end)) is Ok,
        forall|a: u32, b: u32|
            first <= a < b < count ==> !spec_overlap(
                #[trigger] spec_fat_arch(s, a, table_end)->Ok_0,
                #[trigger] spec_fat_arch(s, b, table_end)->Ok_0,
            ),
    decreases count - first,
{
    if first < count {
        let fa = spec_fat_arch(s, first, table_end)->Ok_0;
        lemma_layout_inner_ok(s, count, table_end, first, fa, (first + 1) as u32);
        lemma_layout_outer_ok(s, count, table_end, (first + 1) as u32);
    }
}

/// The scan from `index` on, over records that all decode: with a slice
/// already selected it fails exactly when another record names the target;
/// without one it selects the single record naming the target, finds none, or
/// fails when two name it.
proof fn lemma_scan(
    s: Seq<u8>,
    count: u32,
    table_end: int,
    target: CpuType,
    index: u32,
    selected: Option<FatArch>,
)
    requires
        forall|k: u32| index <= k < count ==> (#[trigger] spec_fat_arch(s, k, table_end)) is Ok,
    ensures
        ({
            let r = spec_select_scan(s, count, table_end, target, index, selected);
            let one = exists|k: u32| index <= k < count && #[trigger] spec_hit(s, table_end, target, k);
            let two = exists|k1: u32, k2: u32|
                index <= k1 < k2 < count && #[trigger] spec_hit(s, table_end, target, k1) && #[trigger] spec_hit(
                    s,
                    table_end,
                    target,
                    k2,
                );
            &&& selected is Some ==> r == if one {
                Err::<Option<FatArch>, ParseError>(ParseError::AmbiguousArchitecture(target))
            } else {
                Ok(selected)
            }
            &&& selected is None && two ==> r == Err::<Option<FatArch>, ParseError>(
                ParseError::AmbiguousArchitecture(target),
            )
            &&& selected is None && !one ==> r == Ok::<Option<FatArch>, ParseError>(None)
            &&& selected is None && !two ==> !(r is Err)
            &&& (selected is None && r is Ok && r->Ok_0 is Some) ==> exists|k: u32|
                index <= k < count && #[trigger] spec_hit(s, table_end, target, k) && r->Ok_0->Some_0 == spec_fat_arch(
                    s,
                    k,
                    table_end,
                )->Ok_0 && forall|j: u32| index <= j < count && j != k ==> !spec_hit(s, table_end, target, j)
        }),
    decreases count - index,
{
    if index < count {
        let arch = spec_fat_arch(s, index, table_end)->Ok_0;
        let next = (index + 1) as u32;
        if arch.cpu_raw == target.spec_raw() {
            assert(spec_hit(s, table_end, target, index));
            if selected is None {
                lemma_scan(s, count, table_end, target, next, Some(arch));
                let one_next = exists|k: u32| next <= k < count && #[trigger] spec_hit(s, table_end, target, k);
                if one_next {
                    let k = choose|k: u32| next <= k < count && #[trigger] spec_hit(s, table_end, target, k);
                    assert(index < k && spec_hit(s, table_end, target, index) && spec_hit(s, table_end, target, k));
                } else {
                    assert forall|k1: u32, k2: u32|
                        index <= k1 < k2 < count && #[trigger] spec_hit(s, table_end, target, k1) implies !#[trigger] spec_hit(
                            s,
                            table_end,
                            target,
                            k2,
                        ) by {
                        assert(next <= k2);
                    }
                    assert forall|j: u32| index <= j < count && j != index implies !spec_hit(s, table_end, target, j) by {
                        assert(next <= j);
                    }
                }
            }
        } else {
            assert(!spec_hit(s, table_end, target, index));
            lemma_scan(s, count, table_end, target, next, selected);
            assert forall|k: u32| index <= k < count && #[trigger] spec_hit(s, table_end, target, k) implies next <= k by {}
        }
    }
}

/// What selecting the image of `target` gives: a thin file is taken whole; in
/// a fat file exactly one record names the target and its slice is the one
/// taken, and the slices of the table share no byte.
pub proof fn lemma_selected_slice_shape(s: Seq<u8>, target: CpuType)
    requires
        s.len() <= usize::MAX,
        spec_select_mach_o_64(s, target) is Ok,
    ensures
        ({
            let slice = spec_select_mach_o_64(s, target)->Ok_0;
            &&& spec_is_thin(s) ==> slice.offset == 0 && slice.size == s.len()
            &&& !spec_is_thin(s) ==> {
                let n = spec_fat_count(s) as int;
                &&& exists|i: int|
                    0 <= i < n && spec_fat_record_cpu(s, i) == target.spec_raw() && slice.offset
                        == spec_fat_record_offset(s, i) && slice.size == spec_fat_record_size(s, i) && forall|j: int|
                        0 <= j < n && j != i ==> #[trigger] spec_fat_record_cpu(s, j) != target.spec_raw()
                &&& forall|i: int, j: int|
                    0 <= i < j < n ==> #[trigger] spec_fat_record_offset(s, i) + spec_fat_record_size(s, i)
                        <= #[trigger] spec_fat_record_offset(s, j) || spec_fat_record_offset(s, j)
                        + spec_fat_record_size(s, j) <= spec_fat_record_offset(s, i)
            }
        }),
{
    if !spec_is_thin(s) {
        let (count, table_end) = spec_fat_table(s)->Ok_0;
        lemma_layout_outer_ok(s, count, table_end, 0);
        lemma_scan(s, count, table_end, target, 0, None);
        let a = spec_select_scan(s, count, table_end, target, 0, None)->Ok_0->Some_0;
        let k = choose|k: u32|
            0 <= k < count && #[trigger] spec_hit(s, table_end, target, k) && a == spec_fat_arch(s, k, table_end)->Ok_0
                && forall|j: u32| 0 <= j < count && j != k ==> !spec_hit(s, table_end, target, j);
        lemma_fat_arch_fields(s, k, table_end);
        assert forall|j: int| 0 <= j < count && j != k implies #[trigger] spec_fat_record_cpu(s, j)
            != target.spec_raw() by {
            lemma_fat_arch_fields(s, j as u32, table_end);
            assert(!spec_hit(s, table_end, target, j as u32));
        }
        assert forall|i: int, j: int| 0 <= i < j < count implies #[trigger] spec_fat_record_offset(s, i)
            + spec_fat_record_size(s, i) <= #[trigger] spec_fat_record_offset(s, j) || spec_fat_record_offset(s, j)
            + spec_fat_record_size(s, j) <= spec_fat_record_offset(s, i) by {
            lemma_fat_arch_fields(s, i as u32, table_end);
            lemma_fat_arch_fields(s, j as u32, table_end);
            assert(!spec_overlap(spec_fat_arch(s, i as u32, table_end)->Ok_0, spec_fat_arch(s, j as u32, table_end)->Ok_0));
        }
        assert(0 <= k < count && spec_fat_record_cpu(s, k as int) == target.spec_raw());
    }
}

/// A fat file whose table names the target CPU twice never yields a slice,
/// and the ambiguity error comes only from such a table.
pub proof fn lemma_ambiguous_target(s: Seq<u8>, target: CpuType, i: int, j: int)
    requires
        !spec_is_thin(s),
        0 <= i < j < spec_fat_count(s),
        spec_fat_record_cpu(s, i) == target.spec_raw(),
        spec_fat_record_cpu(s, j) == target.spec_raw(),
    ensures
        spec_select_mach_o_64(s, target) is Err,
{
    if spec_fat_table(s) is Ok {
        let (count, table_end) = spec_fat_table(s)->Ok_0;
        if spec_layout_outer(s, count, table_end, 0) is Ok {
            lemma_layout_outer_ok(s, count, table_end, 0);
            lemma_scan(s, count, table_end, target, 0, None);
            lemma_fat_arch_fields(s, i as u32, table_end);
            lemma_fat_arch_fields(s, j as u32, table_end);
            assert(spec_hit(s, table_end, target, i as u32) && spec_hit(s, table_end, target, j as u32));
        }
    }
}

/// A parsed header's file type is the one its file type field holds: it
/// encodes back to that field.
pub proof fn lemma_parsed_file_type_is_the_field(s: Seq<u8>)
    requires
        spec_parse_mach_o_64(s) is Ok,
    ensures
        spec_parse_mach_o_64(s)->Ok_0.file_type.spec_raw() == u32_le(s, 12),
{
    lemma_file_type_round_trips(u32_le(s, 12));
}

} // verus!
