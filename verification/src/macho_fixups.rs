//! Bounded discovery of the dyld fixup metadata of a Mach-O image: the legacy
//! `LC_DYLD_INFO` opcode streams, the exports trie, and the chained-fixups
//! header with its per-segment page starts.

use vstd::prelude::*;
use vstd::slice::slice_subrange;
use crate::le_bytes::{u16_le, u32_le, u64_le, read_u16_le, read_u32_le, read_u64_le};
use crate::macho::MachSlice;

verus! {

const MACH_HEADER_64_SIZE: usize = 32;
const LOAD_COMMAND_HEADER_SIZE: usize = 8;
const DYLD_INFO_COMMAND_SIZE: usize = 48;
const LINKEDIT_DATA_COMMAND_SIZE: usize = 16;
const CHAINED_FIXUPS_HEADER_SIZE: usize = 28;
const CHAINED_STARTS_HEADER_SIZE: usize = 4;
const CHAINED_SEGMENT_HEADER_SIZE: usize = 22;

pub const LC_DYLD_INFO: u32 = 0x22;
pub const LC_DYLD_INFO_ONLY: u32 = 0x8000_0022;
pub const LC_DYLD_EXPORTS_TRIE: u32 = 0x8000_0033;
pub const LC_DYLD_CHAINED_FIXUPS: u32 = 0x8000_0034;

pub const DYLD_CHAINED_IMPORT: u32 = 1;
pub const DYLD_CHAINED_IMPORT_ADDEND: u32 = 2;
pub const DYLD_CHAINED_IMPORT_ADDEND64: u32 = 3;
pub const DYLD_CHAINED_SYMBOLS_UNCOMPRESSED: u32 = 0;
pub const DYLD_CHAINED_SYMBOLS_ZLIB: u32 = 1;

#[allow(inconsistent_fields)]
#[derive(Clone, Copy, Debug, PartialEq, Eq, Structural)]
pub enum FixupError {
    IntegerOverflow,
    SliceOutOfBounds,
    LoadCommandOutOfBounds { index: u32 },
    LoadCommandTooSmall { index: u32, size: u32 },
    LoadCommandMisaligned { index: u32, size: u32 },
    LoadCommandRegionMismatch,
    CommandTooSmall { index: u32, command: u32, size: usize, minimum: usize },
    LinkeditRangeOutOfBounds { index: u32, offset: u32, size: u32 },
    DuplicateDyldInfo,
    DuplicateExportsTrie,
    DuplicateChainedFixups,
    ChainedHeaderTooShort { size: usize },
    UnsupportedFixupsVersion(u32),
    UnsupportedImportsFormat(u32),
    UnsupportedSymbolsFormat(u32),
    ChainedOffsetOutOfBounds { offset: u32 },
    ImportsTableOutOfBounds,
    StartsTableOutOfBounds,
    SegmentIndexOutOfBounds { index: u32, count: u32 },
    SegmentInfoOffsetInvalid { index: u32, offset: u32 },
    SegmentInfoTooSmall { index: u32, size: u32, minimum: usize },
    SegmentInfoOutOfBounds { index: u32 },
    UnsupportedPageSize { index: u32, page_size: u16 },
    PageIndexOutOfBounds { index: u16, count: u16 },
}

#[derive(Clone, Copy, Debug, PartialEq, Eq, Structural)]
pub struct LinkeditRange {
    pub offset: u32,
    pub size: u32,
}

impl LinkeditRange {
    pub fn is_empty(self) -> (r: bool)
        ensures
            r == (self.size == 0),
    {
        self.size == 0
    }
}

#[derive(Clone, Copy, Debug, PartialEq, Eq, Structural)]
pub struct DyldInfo {
    pub command_index: u32,
    pub rebase: LinkeditRange,
    pub bind: LinkeditRange,
    pub weak_bind: LinkeditRange,
    pub lazy_bind: LinkeditRange,
    pub exports: LinkeditRange,
}

#[derive(Clone, Copy, Debug, PartialEq, Eq, Structural)]
pub struct LinkeditData {
    pub command_index: u32,
    pub range: LinkeditRange,
}

#[derive(Clone, Copy, Debug, PartialEq, Eq, Structural)]
pub struct FixupMetadata {
    pub dyld_info: Option<DyldInfo>,
    pub exports_trie: Option<LinkeditData>,
    pub chained_fixups: Option<LinkeditData>,
}

#[derive(Clone, Copy, Debug, PartialEq, Eq, Structural)]
pub struct ChainedFixupsHeader {
    pub fixups_version: u32,
    pub starts_offset: u32,
    pub imports_offset: u32,
    pub symbols_offset: u32,
    pub imports_count: u32,
    pub imports_format: u32,
    pub symbols_format: u32,
}

/// The little-endian `u16` at `offset`, or why it cannot be read.
pub open spec fn spec_read_u16(s: Seq<u8>, offset: int) -> Result<u16, FixupError> {
    if offset + 2 > usize::MAX {
        Err(FixupError::IntegerOverflow)
    } else if offset + 2 > s.len() {
        Err(FixupError::SliceOutOfBounds)
    } else {
        Ok(u16_le(s, offset))
    }
}

/// The little-endian `u32` at `offset`, or why it cannot be read.
pub open spec fn spec_read_u32(s: Seq<u8>, offset: int) -> Result<u32, FixupError> {
    if offset + 4 > usize::MAX {
        Err(FixupError::IntegerOverflow)
    } else if offset + 4 > s.len() {
        Err(FixupError::SliceOutOfBounds)
    } else {
        Ok(u32_le(s, offset))
    }
}

/// The little-endian `u64` at `offset`, or why it cannot be read.
pub open spec fn spec_read_u64(s: Seq<u8>, offset: int) -> Result<u64, FixupError> {
    if offset + 8 > usize::MAX {
        Err(FixupError::IntegerOverflow)
    } else if offset + 8 > s.len() {
        Err(FixupError::SliceOutOfBounds)
    } else {
        Ok(u64_le(s, offset))
    }
}

fn checked_read_u16(bytes: &[u8], offset: usize) -> (r: Result<u16, FixupError>)
    ensures
        r == spec_read_u16(bytes@, offset as int),
{
    if offset > usize::MAX - 2 {
        return Err(FixupError::IntegerOverflow);
    }
    if offset + 2 > bytes.len() {
        return Err(FixupError::SliceOutOfBounds);
    }
    Ok(read_u16_le(bytes, offset))
}

fn checked_read_u32(bytes: &[u8], offset: usize) -> (r: Result<u32, FixupError>)
    ensures
        r == spec_read_u32(bytes@, offset as int),
{
    if offset > usize::MAX - 4 {
        return Err(FixupError::IntegerOverflow);
    }
    if offset + 4 > bytes.len() {
        return Err(FixupError::SliceOutOfBounds);
    }
    Ok(read_u32_le(bytes, offset))
}

fn checked_read_u64(bytes: &[u8], offset: usize) -> (r: Result<u64, FixupError>)
    ensures
        r == spec_read_u64(bytes@, offset as int),
{
    if offset > usize::MAX - 8 {
        return Err(FixupError::IntegerOverflow);
    }
    if offset + 8 > bytes.len() {
        return Err(FixupError::SliceOutOfBounds);
    }
    Ok(read_u64_le(bytes, offset))
}

/// The bytes of the selected image inside the whole file, or why they cannot
/// be taken.
pub open spec fn spec_selected_image(s: Seq<u8>, slice: MachSlice) -> Result<Seq<u8>, FixupError> {
    if slice.offset + slice.size > usize::MAX {
        Err(FixupError::IntegerOverflow)
    } else if slice.offset + slice.size > s.len() {
        Err(FixupError::SliceOutOfBounds)
    } else {
        Ok(s.subrange(slice.offset as int, slice.offset + slice.size))
    }
}

fn selected_image<'a>(bytes: &'a [u8], slice: MachSlice) -> (r: Result<&'a [u8], FixupError>)
    ensures
        match r {
            Ok(image) => spec_selected_image(bytes@, slice) == Ok::<Seq<u8>, FixupError>(image@),
            Err(e) => spec_selected_image(bytes@, slice) == Err::<Seq<u8>, FixupError>(e),
        },
{
    if slice.offset > usize::MAX - slice.size {
        return Err(FixupError::IntegerOverflow);
    }
    let end = slice.offset + slice.size;
    if end > bytes.len() {
        return Err(FixupError::SliceOutOfBounds);
    }
    Ok(slice_subrange(bytes, slice.offset, end))
}

/// A linkedit range checked against the image length.
pub open spec fn spec_validate_range(image_len: int, index: u32, offset: u32, size: u32) -> Result<
    LinkeditRange,
    FixupError,
> {
    if offset + size > image_len {
        Err(FixupError::LinkeditRangeOutOfBounds { index, offset, size })
    } else {
        Ok(LinkeditRange { offset, size })
    }
}

fn validate_range(image_len: usize, index: u32, offset: u32, size: u32) -> (r: Result<
    LinkeditRange,
    FixupError,
>)
    ensures
        r == spec_validate_range(image_len as int, index, offset, size),
{
    let end = offset as u64 + size as u64;
    if end > image_len as u64 {
        return Err(FixupError::LinkeditRangeOutOfBounds { index, offset, size });
    }
    Ok(LinkeditRange { offset, size })
}

/// What `parse_dyld_info` answers for the bytes of one command.
pub open spec fn spec_parse_dyld_info(image_len: int, index: u32, command: u32, c: Seq<u8>) -> Result<
    DyldInfo,
    FixupError,
> {
    if c.len() < 48 {
        Err(FixupError::CommandTooSmall { index, command, size: c.len() as usize, minimum: 48 })
    } else {
        match spec_validate_range(image_len, index, u32_le(c, 8), u32_le(c, 12)) {
            Err(e) => Err(e),
            Ok(rebase) => match spec_validate_range(image_len, index, u32_le(c, 16), u32_le(c, 20)) {
                Err(e) => Err(e),
                Ok(bind) => match spec_validate_range(image_len, index, u32_le(c, 24), u32_le(c, 28)) {
                    Err(e) => Err(e),
                    Ok(weak_bind) => match spec_validate_range(
                        image_len,
                        index,
                        u32_le(c, 32),
                        u32_le(c, 36),
                    ) {
                        Err(e) => Err(e),
                        Ok(lazy_bind) => match spec_validate_range(
                            image_len,
                            index,
                            u32_le(c, 40),
                            u32_le(c, 44),
                        ) {
                            Err(e) => Err(e),
                            Ok(exports) => Ok(
                                DyldInfo { command_index: index, rebase, bind, weak_bind, lazy_bind, exports },
                            ),
                        },
                    },
                },
            },
        }
    }
}

fn parse_dyld_info(image_len: usize, index: u32, command: u32, bytes: &[u8]) -> (r: Result<
    DyldInfo,
    FixupError,
>)
    ensures
        r == spec_parse_dyld_info(image_len as int, index, command, bytes@),
{
    if bytes.len() < DYLD_INFO_COMMAND_SIZE {
        return Err(
            FixupError::CommandTooSmall {
                index,
                command,
                size: bytes.len(),
                minimum: DYLD_INFO_COMMAND_SIZE,
            },
        );
    }
    let rebase = match validate_range(image_len, index, read_u32_le(bytes, 8), read_u32_le(bytes, 12)) {
        Ok(r) => r,
        Err(e) => return Err(e),
    };
    let bind = match validate_range(image_len, index, read_u32_le(bytes, 16), read_u32_le(bytes, 20)) {
        Ok(r) => r,
        Err(e) => return Err(e),
    };
    let weak_bind = match validate_range(
        image_len,
        index,
        read_u32_le(bytes, 24),
        read_u32_le(bytes, 28),
    ) {
        Ok(r) => r,
        Err(e) => return Err(e),
    };
    let lazy_bind = match validate_range(
        image_len,
        index,
        read_u32_le(bytes, 32),
        read_u32_le(bytes, 36),
    ) {
        Ok(r) => r,
        Err(e) => return Err(e),
    };
    let exports = match validate_range(
        image_len,
        index,
        read_u32_le(bytes, 40),
        read_u32_le(bytes, 44),
    ) {
        Ok(r) => r,
        Err(e) => return Err(e),
    };
    Ok(DyldInfo { command_index: index, rebase, bind, weak_bind, lazy_bind, exports })
}

/// What `parse_linkedit_data` answers for the bytes of one command.
pub open spec fn spec_parse_linkedit_data(
    image_len: int,
    index: u32,
    command: u32,
    c: Seq<u8>,
) -> Result<LinkeditData, FixupError> {
    if c.len() < 16 {
        Err(FixupError::CommandTooSmall { index, command, size: c.len() as usize, minimum: 16 })
    } else {
        match spec_validate_range(image_len, index, u32_le(c, 8), u32_le(c, 12)) {
            Err(e) => Err(e),
            Ok(range) => Ok(LinkeditData { command_index: index, range }),
        }
    }
}

fn parse_linkedit_data(image_len: usize, index: u32, command: u32, bytes: &[u8]) -> (r: Result<
    LinkeditData,
    FixupError,
>)
    ensures
        r == spec_parse_linkedit_data(image_len as int, index, command, bytes@),
{
    if bytes.len() < LINKEDIT_DATA_COMMAND_SIZE {
        return Err(
            FixupError::CommandTooSmall {
                index,
                command,
                size: bytes.len(),
                minimum: LINKEDIT_DATA_COMMAND_SIZE,
            },
        );
    }
    match validate_range(image_len, index, read_u32_le(bytes, 8), read_u32_le(bytes, 12)) {
        Ok(range) => Ok(LinkeditData { command_index: index, range }),
        Err(e) => Err(e),
    }
}

/// Folds one load command into the metadata gathered so far.
pub open spec fn spec_meta_command(
    image_len: int,
    index: u32,
    command: u32,
    c: Seq<u8>,
    acc: FixupMetadata,
) -> Result<FixupMetadata, FixupError> {
    if command == LC_DYLD_INFO || command == LC_DYLD_INFO_ONLY {
        if acc.dyld_info is Some {
            Err(FixupError::DuplicateDyldInfo)
        } else {
            match spec_parse_dyld_info(image_len, index, command, c) {
                Err(e) => Err(e),
                Ok(d) => Ok(FixupMetadata { dyld_info: Some(d), ..acc }),
            }
        }
    } else if command == LC_DYLD_EXPORTS_TRIE {
        if acc.exports_trie is Some {
            Err(FixupError::DuplicateExportsTrie)
        } else {
            match spec_parse_linkedit_data(image_len, index, command, c) {
                Err(e) => Err(e),
                Ok(d) => Ok(FixupMetadata { exports_trie: Some(d), ..acc }),
            }
        }
    } else if command == LC_DYLD_CHAINED_FIXUPS {
        if acc.chained_fixups is Some {
            Err(FixupError::DuplicateChainedFixups)
        } else {
            match spec_parse_linkedit_data(image_len, index, command, c) {
                Err(e) => Err(e),
                Ok(d) => Ok(FixupMetadata { chained_fixups: Some(d), ..acc }),
            }
        }
    } else {
        Ok(acc)
    }
}

/// Walks the load commands from `cursor`, command `index` of `count`,
/// gathering metadata; on success, where the walk stops and what it found.
pub open spec fn spec_meta_walk(
    image: Seq<u8>,
    cursor: int,
    index: u32,
    count: u32,
    commands_end: int,
    acc: FixupMetadata,
) -> Result<(int, FixupMetadata), FixupError>
    decreases count - index,
{
    if index >= count {
        Ok((cursor, acc))
    } else if cursor + 8 > usize::MAX {
        Err(FixupError::IntegerOverflow)
    } else if cursor + 8 > commands_end {
        Err(FixupError::LoadCommandOutOfBounds { index })
    } else {
        let command = u32_le(image, cursor);
        let size = u32_le(image, cursor + 4);
        if size < 8 {
            Err(FixupError::LoadCommandTooSmall { index, size })
        } else if size % 8 != 0 {
            Err(FixupError::LoadCommandMisaligned { index, size })
        } else if cursor + size > usize::MAX {
            Err(FixupError::IntegerOverflow)
        } else if cursor + size > commands_end {
            Err(FixupError::LoadCommandOutOfBounds { index })
        } else {
            match spec_meta_command(
                image.len() as int,
                index,
                command,
                image.subrange(cursor, cursor + size),
                acc,
            ) {
                Err(e) => Err(e),
                Ok(next) => spec_meta_walk(
                    image,
                    cursor + size,
                    (index + 1) as u32,
                    count,
                    commands_end,
                    next,
                ),
            }
        }
    }
}

/// Nothing found yet.
pub open spec fn spec_no_metadata() -> FixupMetadata {
    FixupMetadata { dyld_info: None, exports_trie: None, chained_fixups: None }
}

/// What `metadata` answers for a file and its selected slice.
pub open spec fn spec_metadata(s: Seq<u8>, slice: MachSlice) -> Result<FixupMetadata, FixupError> {
    match spec_selected_image(s, slice) {
        Err(e) => Err(e),
        Ok(image) => {
            let commands_end = 32 + slice.header.command_bytes;
            if commands_end > usize::MAX {
                Err(FixupError::IntegerOverflow)
            } else if commands_end > image.len() {
                Err(FixupError::SliceOutOfBounds)
            } else {
                match spec_meta_walk(
                    image,
                    32,
                    0,
                    slice.header.command_count,
                    commands_end,
                    spec_no_metadata(),
                ) {
                    Err(e) => Err(e),
                    Ok((cursor, found)) => if cursor != commands_end {
                        Err(FixupError::LoadCommandRegionMismatch)
                    } else {
                        Ok(found)
                    },
                }
            }
        },
    }
}

/// Finds the dyld metadata commands of the selected image, refusing any that
/// repeat, that are too small, or whose ranges leave the image.
pub fn metadata(bytes: &[u8], slice: MachSlice) -> (r: Result<FixupMetadata, FixupError>)
    ensures
        r == spec_metadata(bytes@, slice),
{
    let image = match selected_image(bytes, slice) {
        Ok(i) => i,
        Err(e) => return Err(e),
    };
    if slice.header.command_bytes as usize > usize::MAX - MACH_HEADER_64_SIZE {
        return Err(FixupError::IntegerOverflow);
    }
    let commands_end = MACH_HEADER_64_SIZE + slice.header.command_bytes as usize;
    if commands_end > image.len() {
        return Err(FixupError::SliceOutOfBounds);
    }
    let count = slice.header.command_count;
    let mut cursor: usize = MACH_HEADER_64_SIZE;
    let mut found = FixupMetadata { dyld_info: None, exports_trie: None, chained_fixups: None };
    let mut index: u32 = 0;
    while index < count
        invariant
            commands_end <= image@.len(),
            cursor <= commands_end,
            index <= count,
            count == slice.header.command_count,
            commands_end == 32 + slice.header.command_bytes,
            spec_selected_image(bytes@, slice) == Ok::<Seq<u8>, FixupError>(image@),
            spec_meta_walk(image@, 32, 0, count, commands_end as int, spec_no_metadata())
                == spec_meta_walk(image@, cursor as int, index, count, commands_end as int, found),
        decreases count - index,
    {
        if cursor > usize::MAX - LOAD_COMMAND_HEADER_SIZE {
            return Err(FixupError::IntegerOverflow);
        }
        if cursor + LOAD_COMMAND_HEADER_SIZE > commands_end {
            return Err(FixupError::LoadCommandOutOfBounds { index });
        }
        let command = read_u32_le(image, cursor);
        let size = read_u32_le(image, cursor + 4);
        if size < 8u32 {
            return Err(FixupError::LoadCommandTooSmall { index, size });
        }
        if size % 8 != 0 {
            return Err(FixupError::LoadCommandMisaligned { index, size });
        }
        if cursor > usize::MAX - size as usize {
            return Err(FixupError::IntegerOverflow);
        }
        let end = cursor + size as usize;
        if end > commands_end {
            return Err(FixupError::LoadCommandOutOfBounds { index });
        }
        let command_bytes = slice_subrange(image, cursor, end);
        if command == LC_DYLD_INFO || command == LC_DYLD_INFO_ONLY {
            if found.dyld_info.is_some() {
                return Err(FixupError::DuplicateDyldInfo);
            }
            match parse_dyld_info(image.len(), index, command, command_bytes) {
                Ok(d) => {
                    found.dyld_info = Some(d);
                },
                Err(e) => return Err(e),
            }
        } else if command == LC_DYLD_EXPORTS_TRIE {
            if found.exports_trie.is_some() {
                return Err(FixupError::DuplicateExportsTrie);
            }
            match parse_linkedit_data(image.len(), index, command, command_bytes) {
                Ok(d) => {
                    found.exports_trie = Some(d);
                },
                Err(e) => return Err(e),
            }
        } else if command == LC_DYLD_CHAINED_FIXUPS {
            if found.chained_fixups.is_some() {
                return Err(FixupError::DuplicateChainedFixups);
            }
            match parse_linkedit_data(image.len(), index, command, command_bytes) {
                Ok(d) => {
                    found.chained_fixups = Some(d);
                },
                Err(e) => return Err(e),
            }
        }
        cursor = end;
        index = index + 1;
    }
    if cursor != commands_end {
        return Err(FixupError::LoadCommandRegionMismatch);
    }
    Ok(found)
}

/// The bytes of a linkedit range inside the selected image, or why they
/// cannot be taken.
pub open spec fn spec_range_payload(
    s: Seq<u8>,
    slice: MachSlice,
    command_index: u32,
    range: LinkeditRange,
) -> Result<Seq<u8>, FixupError> {
    match spec_selected_image(s, slice) {
        Err(e) => Err(e),
        Ok(image) => if range.offset + range.size > usize::MAX {
            Err(FixupError::IntegerOverflow)
        } else if range.offset + range.size > image.len() {
            Err(
                FixupError::LinkeditRangeOutOfBounds {
                    index: command_index,
                    offset: range.offset,
                    size: range.size,
                },
            )
        } else {
            Ok(image.subrange(range.offset as int, range.offset + range.size))
        },
    }
}

/// The bytes a linkedit data command refers to.
pub fn linkedit_payload<'a>(bytes: &'a [u8], slice: MachSlice, data: LinkeditData) -> (r: Result<
    &'a [u8],
    FixupError,
>)
    ensures
        match r {
            Ok(p) => spec_range_payload(bytes@, slice, data.command_index, data.range) == Ok::<
                Seq<u8>,
                FixupError,
            >(p@),
            Err(e) => spec_range_payload(bytes@, slice, data.command_index, data.range) == Err::<
                Seq<u8>,
                FixupError,
            >(e),
        },
{
    dyld_payload(bytes, slice, data.command_index, data.range)
}

/// The bytes one of the `LC_DYLD_INFO` ranges refers to.
pub fn dyld_payload<'a>(bytes: &'a [u8], slice: MachSlice, command_index: u32, range: LinkeditRange) -> (r:
    Result<&'a [u8], FixupError>)
    ensures
        match r {
            Ok(p) => spec_range_payload(bytes@, slice, command_index, range) == Ok::<
                Seq<u8>,
                FixupError,
            >(p@),
            Err(e) => spec_range_payload(bytes@, slice, command_index, range) == Err::<
                Seq<u8>,
                FixupError,
            >(e),
        },
{
    let image = match selected_image(bytes, slice) {
        Ok(i) => i,
        Err(e) => return Err(e),
    };
    let start = range.offset as usize;
    if start > usize::MAX - range.size as usize {
        return Err(FixupError::IntegerOverflow);
    }
    let end = start + range.size as usize;
    if end > image.len() {
        return Err(
            FixupError::LinkeditRangeOutOfBounds {
                index: command_index,
                offset: range.offset,
                size: range.size,
            },
        );
    }
    Ok(slice_subrange(image, start, end))
}

/// One segment's chained-fixup starts: its header and its page-start table.
#[derive(Clone, Copy, Debug, PartialEq, Eq)]
pub struct ChainedSegmentInfo<'a> {
    pub segment_index: u32,
    pub size: u32,
    pub page_size: u16,
    pub pointer_format: u16,
    pub segment_offset: u64,
    pub max_valid_pointer: u32,
    page_starts: &'a [u8],
    page_count: u16,
}

impl<'a> ChainedSegmentInfo<'a> {
    pub closed spec fn spec_segment_index(&self) -> u32 {
        self.segment_index
    }

    pub closed spec fn spec_size(&self) -> u32 {
        self.size
    }

    pub closed spec fn spec_page_size(&self) -> u16 {
        self.page_size
    }

    pub closed spec fn spec_pointer_format(&self) -> u16 {
        self.pointer_format
    }

    pub closed spec fn spec_segment_offset(&self) -> u64 {
        self.segment_offset
    }

    pub closed spec fn spec_max_valid_pointer(&self) -> u32 {
        self.max_valid_pointer
    }

    /// The raw page-start table, two bytes per page.
    pub closed spec fn spec_page_starts(&self) -> Seq<u8> {
        self.page_starts@
    }

    pub closed spec fn spec_page_count(&self) -> u16 {
        self.page_count
    }

    pub fn page_count(&self) -> (r: u16)
        ensures
            r == self.spec_page_count(),
    {
        self.page_count
    }

    /// The start of page `index` within its page, as stored.
    pub fn page_start(&self, index: u16) -> (r: Result<u16, FixupError>)
        ensures
            index >= self.spec_page_count() ==> r == Err::<u16, FixupError>(
                FixupError::PageIndexOutOfBounds { index, count: self.spec_page_count() },
            ),
            index < self.spec_page_count() ==> r == spec_read_u16(
                self.spec_page_starts(),
                index * 2,
            ),
            index < self.spec_page_count() && self.spec_page_starts().len() == 2 * self.spec_page_count()
                ==> r == Ok::<u16, FixupError>(u16_le(self.spec_page_starts(), index * 2)),
    {
        if index >= self.page_count {
            return Err(FixupError::PageIndexOutOfBounds { index, count: self.page_count });
        }
        checked_read_u16(self.page_starts, (index as usize) * 2)
    }
}

/// Where segment `index`'s record starts in the payload, `None` for a
/// segment without fixups, or why the record is refused.
pub open spec fn spec_segment_record(
    p: Seq<u8>,
    starts_base: int,
    count: u32,
    table_bytes: int,
    index: u32,
) -> Result<Option<int>, FixupError> {
    if index >= count {
        Err(FixupError::SegmentIndexOutOfBounds { index, count })
    } else if starts_base + 4 + index * 4 > usize::MAX {
        Err(FixupError::IntegerOverflow)
    } else {
        match spec_read_u32(p, starts_base + 4 + index * 4) {
            Err(e) => Err(e),
            Ok(relative) => if relative == 0 {
                Ok(None)
            } else if relative < table_bytes {
                Err(FixupError::SegmentInfoOffsetInvalid { index, offset: relative })
            } else if starts_base + relative + 22 > usize::MAX {
                Err(FixupError::IntegerOverflow)
            } else if starts_base + relative + 22 > p.len() {
                Err(FixupError::SegmentInfoOutOfBounds { index })
            } else {
                let record = starts_base + relative;
                let size = u32_le(p, record);
                let minimum = 22 + u16_le(p, record + 20) * 2;
                let page_size = u16_le(p, record + 4);
                if size < minimum {
                    Err(FixupError::SegmentInfoTooSmall { index, size, minimum: minimum as usize })
                } else if record + size > usize::MAX {
                    Err(FixupError::IntegerOverflow)
                } else if record + size > p.len() {
                    Err(FixupError::SegmentInfoOutOfBounds { index })
                } else if page_size != 0x1000 && page_size != 0x4000 {
                    Err(FixupError::UnsupportedPageSize { index, page_size })
                } else {
                    Ok(Some(record))
                }
            },
        }
    }
}

/// Whether `info` is segment `index`'s record at `record` in the payload.
pub open spec fn spec_segment_info_at(info: ChainedSegmentInfo, p: Seq<u8>, index: u32, record: int) -> bool {
    &&& info.spec_segment_index() == index
    &&& info.spec_size() == u32_le(p, record)
    &&& info.spec_page_size() == u16_le(p, record + 4)
    &&& info.spec_pointer_format() == u16_le(p, record + 6)
    &&& info.spec_segment_offset() == u64_le(p, record + 8)
    &&& info.spec_max_valid_pointer() == u32_le(p, record + 16)
    &&& info.spec_page_count() == u16_le(p, record + 20)
    &&& info.spec_page_starts() == p.subrange(record + 22, record + 22 + info.spec_page_count() * 2)
}

/// What a segment record read from a payload `p` whose starts table begins
/// at `starts_base` and spans `table_bytes` always satisfies: a supported page
/// size, room for its page-start table, a place past the starts table inside
/// the payload, and one two-byte start per page.
pub open spec fn spec_segment_info_sound(info: ChainedSegmentInfo, p: Seq<u8>, starts_base: int, table_bytes: int, record: int) -> bool {
    &&& info.spec_page_size() == 0x1000 || info.spec_page_size() == 0x4000
    &&& info.spec_size() >= 22 + 2 * info.spec_page_count()
    &&& starts_base + table_bytes <= record
    &&& record + info.spec_size() <= p.len()
    &&& info.spec_page_starts().len() == 2 * info.spec_page_count()
}

/// The chained-fixups payload of an image: its header and its starts table.
#[derive(Clone, Copy, Debug, PartialEq, Eq)]
pub struct ChainedFixups<'a> {
    pub header: ChainedFixupsHeader,
    payload: &'a [u8],
    starts_base: usize,
    segment_count: u32,
    segment_table_bytes: usize,
}

impl<'a> ChainedFixups<'a> {
    pub closed spec fn spec_header(&self) -> ChainedFixupsHeader {
        self.header
    }

    pub closed spec fn spec_payload(&self) -> Seq<u8> {
        self.payload@
    }

    /// Offset of the starts table in the payload.
    pub closed spec fn spec_starts_base(&self) -> int {
        self.starts_base as int
    }

    pub closed spec fn spec_segment_count(&self) -> u32 {
        self.segment_count
    }

    /// Size of the starts table: its count and one offset per segment.
    pub closed spec fn spec_segment_table_bytes(&self) -> int {
        self.segment_table_bytes as int
    }

    /// The header fields, as the payload stores them.
    pub fn header(&self) -> (r: ChainedFixupsHeader)
        ensures
            r == self.spec_header(),
    {
        self.header
    }

    pub fn segment_count(&self) -> (r: u32)
        ensures
            r == self.spec_segment_count(),
    {
        self.segment_count
    }

    pub fn payload(&self) -> (r: &'a [u8])
        ensures
            r@ == self.spec_payload(),
    {
        self.payload
    }

    /// The starts of segment `index`, `None` when it has no fixups.
    pub fn segment(&self, index: u32) -> (r: Result<Option<ChainedSegmentInfo<'a>>, FixupError>)
        ensures
            ({
                let spec = spec_segment_record(
                    self.spec_payload(),
                    self.spec_starts_base(),
                    self.spec_segment_count(),
                    self.spec_segment_table_bytes(),
                    index,
                );
                match r {
                    Ok(None) => spec == Ok::<Option<int>, FixupError>(None),
                    Ok(Some(info)) => spec matches Ok(Some(record)) && spec_segment_info_at(
                        info,
                        self.spec_payload(),
                        index,
                        record,
                    ) && spec_segment_info_sound(
                        info,
                        self.spec_payload(),
                        self.spec_starts_base(),
                        self.spec_segment_table_bytes(),
                        record,
                    ),
                    Err(e) => spec == Err::<Option<int>, FixupError>(e),
                }
            }),
    {
        if index >= self.segment_count {
            return Err(FixupError::SegmentIndexOutOfBounds { index, count: self.segment_count });
        }
        let index_bytes = (index as usize) as u64 * 4;
        if self.starts_base as u64 > (usize::MAX as u64) - 4 || index_bytes > (usize::MAX as u64) - 4
            - self.starts_base as u64 {
            return Err(FixupError::IntegerOverflow);
        }
        let table_offset = self.starts_base + CHAINED_STARTS_HEADER_SIZE + (index as usize) * 4;
        let relative = match checked_read_u32(self.payload, table_offset) {
            Ok(v) => v,
            Err(e) => return Err(e),
        };
        if relative == 0 {
            return Ok(None);
        }
        if (relative as usize) < self.segment_table_bytes {
            return Err(FixupError::SegmentInfoOffsetInvalid { index, offset: relative });
        }
        if self.starts_base > usize::MAX - relative as usize {
            return Err(FixupError::IntegerOverflow);
        }
        let record = self.starts_base + relative as usize;
        if record > usize::MAX - CHAINED_SEGMENT_HEADER_SIZE {
            return Err(FixupError::IntegerOverflow);
        }
        let fixed_end = record + CHAINED_SEGMENT_HEADER_SIZE;
        if fixed_end > self.payload.len() {
            return Err(FixupError::SegmentInfoOutOfBounds { index });
        }
        let size = read_u32_le(self.payload, record);
        let page_count = read_u16_le(self.payload, record + 20);
        let page_bytes = (page_count as usize) * 2;
        let minimum = CHAINED_SEGMENT_HEADER_SIZE + page_bytes;
        if (size as usize) < minimum {
            return Err(FixupError::SegmentInfoTooSmall { index, size, minimum });
        }
        if record > usize::MAX - size as usize {
            return Err(FixupError::IntegerOverflow);
        }
        let record_end = record + size as usize;
        if record_end > self.payload.len() {
            return Err(FixupError::SegmentInfoOutOfBounds { index });
        }
        let page_size = read_u16_le(self.payload, record + 4);
        if page_size != 0x1000u16 && page_size != 0x4000u16 {
            return Err(FixupError::UnsupportedPageSize { index, page_size });
        }
        let page_starts = slice_subrange(self.payload, fixed_end, fixed_end + page_bytes);
        Ok(
            Some(
                ChainedSegmentInfo {
                    segment_index: index,
                    size,
                    page_size,
                    pointer_format: read_u16_le(self.payload, record + 6),
                    segment_offset: read_u64_le(self.payload, record + 8),
                    max_valid_pointer: read_u32_le(self.payload, record + 16),
                    page_starts,
                    page_count,
                },
            ),
        )
    }
}

/// Size of one import entry of a format, or why the format is refused.
pub open spec fn spec_import_entry_size(format: u32) -> Result<int, FixupError> {
    if format == DYLD_CHAINED_IMPORT {
        Ok(4)
    } else if format == DYLD_CHAINED_IMPORT_ADDEND {
        Ok(8)
    } else if format == DYLD_CHAINED_IMPORT_ADDEND64 {
        Ok(16)
    } else {
        Err(FixupError::UnsupportedImportsFormat(format))
    }
}

fn import_entry_size(format: u32) -> (r: Result<usize, FixupError>)
    ensures
        match r {
            Ok(n) => spec_import_entry_size(format) == Ok::<int, FixupError>(n as int),
            Err(e) => spec_import_entry_size(format) == Err::<int, FixupError>(e),
        },
{
    if format == DYLD_CHAINED_IMPORT {
        Ok(4)
    } else if format == DYLD_CHAINED_IMPORT_ADDEND {
        Ok(8)
    } else if format == DYLD_CHAINED_IMPORT_ADDEND64 {
        Ok(16)
    } else {
        Err(FixupError::UnsupportedImportsFormat(format))
    }
}

fn validate_chained_offset(payload_len: usize, offset: u32) -> (r: Result<usize, FixupError>)
    ensures
        offset > payload_len ==> r == Err::<usize, FixupError>(
            FixupError::ChainedOffsetOutOfBounds { offset },
        ),
        offset <= payload_len ==> r == Ok::<usize, FixupError>(offset as usize),
{
    let value = offset as usize;
    if value > payload_len {
        return Err(FixupError::ChainedOffsetOutOfBounds { offset });
    }
    Ok(value)
}

/// The header fields stored at the start of a chained-fixups payload.
pub open spec fn spec_chained_header(p: Seq<u8>) -> ChainedFixupsHeader {
    ChainedFixupsHeader {
        fixups_version: u32_le(p, 0),
        starts_offset: u32_le(p, 4),
        imports_offset: u32_le(p, 8),
        symbols_offset: u32_le(p, 12),
        imports_count: u32_le(p, 16),
        imports_format: u32_le(p, 20),
        symbols_format: u32_le(p, 24),
    }
}

/// The checks `parse_chained_fixups` makes on the header and tables of a
/// payload before it looks at the segments; on success, the segment count.
pub open spec fn spec_chained_tables(p: Seq<u8>) -> Result<u32, FixupError> {
    let h = spec_chained_header(p);
    if p.len() < 28 {
        Err(FixupError::ChainedHeaderTooShort { size: p.len() as usize })
    } else if h.fixups_version != 0 {
        Err(FixupError::UnsupportedFixupsVersion(h.fixups_version))
    } else if h.symbols_format != DYLD_CHAINED_SYMBOLS_UNCOMPRESSED && h.symbols_format
        != DYLD_CHAINED_SYMBOLS_ZLIB {
        Err(FixupError::UnsupportedSymbolsFormat(h.symbols_format))
    } else if h.starts_offset > p.len() {
        Err(FixupError::ChainedOffsetOutOfBounds { offset: h.starts_offset })
    } else if h.imports_offset > p.len() {
        Err(FixupError::ChainedOffsetOutOfBounds { offset: h.imports_offset })
    } else if h.symbols_offset > p.len() {
        Err(FixupError::ChainedOffsetOutOfBounds { offset: h.symbols_offset })
    } else {
        match spec_import_entry_size(h.imports_format) {
            Err(e) => Err(e),
            Ok(import_size) => if h.imports_count * import_size > usize::MAX {
                Err(FixupError::IntegerOverflow)
            } else if h.imports_offset + h.imports_count * import_size > usize::MAX {
                Err(FixupError::IntegerOverflow)
            } else if h.imports_offset + h.imports_count * import_size > p.len() || (h.imports_count
                != 0 && h.symbols_offset >= p.len()) {
                Err(FixupError::ImportsTableOutOfBounds)
            } else if h.starts_offset + 4 > usize::MAX {
                Err(FixupError::IntegerOverflow)
            } else if h.starts_offset + 4 > p.len() {
                Err(FixupError::StartsTableOutOfBounds)
            } else {
                let count = u32_le(p, h.starts_offset as int);
                if count * 4 > usize::MAX || 4 + count * 4 > usize::MAX || h.starts_offset + 4
                    + count * 4 > usize::MAX {
                    Err(FixupError::IntegerOverflow)
                } else if h.starts_offset + 4 + count * 4 > p.len() {
                    Err(FixupError::StartsTableOutOfBounds)
                } else {
                    Ok(count)
                }
            },
        }
    }
}

/// Whether every segment record from `index` on is acceptable; the first
/// refusal otherwise.
pub open spec fn spec_segments_from(
    p: Seq<u8>,
    starts_base: int,
    count: u32,
    table_bytes: int,
    index: u32,
) -> Result<(), FixupError>
    decreases count - index,
{
    if index >= count {
        Ok(())
    } else {
        match spec_segment_record(p, starts_base, count, table_bytes, index) {
            Err(e) => Err(e),
            Ok(_) => spec_segments_from(p, starts_base, count, table_bytes, (index + 1) as u32),
        }
    }
}

/// Why `parse_chained_fixups` refuses, if it does.
pub open spec fn spec_chained_fixups_error(s: Seq<u8>, slice: MachSlice, data: LinkeditData) -> Option<
    FixupError,
> {
    match spec_range_payload(s, slice, data.command_index, data.range) {
        Err(e) => Some(e),
        Ok(p) => match spec_chained_tables(p) {
            Err(e) => Some(e),
            Ok(count) => {
                let base = spec_chained_header(p).starts_offset as int;
                match spec_segments_from(p, base, count, 4 + count * 4, 0) {
                    Err(e) => Some(e),
                    Ok(()) => None,
                }
            },
        },
    }
}

/// Parses the chained-fixups header and starts table of the image, and checks
/// every segment record before handing any of it out.
pub fn parse_chained_fixups<'a>(bytes: &'a [u8], slice: MachSlice, data: LinkeditData) -> (r: Result<
    ChainedFixups<'a>,
    FixupError,
>)
    ensures
        match r {
            Ok(parsed) => {
                &&& spec_chained_fixups_error(bytes@, slice, data) is None
                &&& spec_range_payload(bytes@, slice, data.command_index, data.range) == Ok::<
                    Seq<u8>,
                    FixupError,
                >(parsed.spec_payload())
                &&& parsed.spec_header() == spec_chained_header(parsed.spec_payload())
                &&& parsed.spec_starts_base() == parsed.spec_header().starts_offset
                &&& spec_chained_tables(parsed.spec_payload()) == Ok::<u32, FixupError>(
                    parsed.spec_segment_count(),
                )
                &&& parsed.spec_segment_table_bytes() == 4 + parsed.spec_segment_count() * 4
            },
            Err(e) => spec_chained_fixups_error(bytes@, slice, data) == Some(e),
        },
{
    let payload = match linkedit_payload(bytes, slice, data) {
        Ok(p) => p,
        Err(e) => return Err(e),
    };
    if payload.len() < CHAINED_FIXUPS_HEADER_SIZE {
        return Err(FixupError::ChainedHeaderTooShort { size: payload.len() });
    }
    let header = ChainedFixupsHeader {
        fixups_version: read_u32_le(payload, 0),
        starts_offset: read_u32_le(payload, 4),
        imports_offset: read_u32_le(payload, 8),
        symbols_offset: read_u32_le(payload, 12),
        imports_count: read_u32_le(payload, 16),
        imports_format: read_u32_le(payload, 20),
        symbols_format: read_u32_le(payload, 24),
    };
    if header.fixups_version != 0 {
        return Err(FixupError::UnsupportedFixupsVersion(header.fixups_version));
    }
    if header.symbols_format != DYLD_CHAINED_SYMBOLS_UNCOMPRESSED && header.symbols_format
        != DYLD_CHAINED_SYMBOLS_ZLIB {
        return Err(FixupError::UnsupportedSymbolsFormat(header.symbols_format));
    }
    let starts_base = match validate_chained_offset(payload.len(), header.starts_offset) {
        Ok(v) => v,
        Err(e) => return Err(e),
    };
    let imports_base = match validate_chained_offset(payload.len(), header.imports_offset) {
        Ok(v) => v,
        Err(e) => return Err(e),
    };
    let symbols_base = match validate_chained_offset(payload.len(), header.symbols_offset) {
        Ok(v) => v,
        Err(e) => return Err(e),
    };
    let import_size = match import_entry_size(header.imports_format) {
        Ok(n) => n,
        Err(e) => return Err(e),
    };
    let imports_bytes = match (header.imports_count as usize).checked_mul(import_size) {
        Some(n) => n,
        None => return Err(FixupError::IntegerOverflow),
    };
    if imports_base > usize::MAX - imports_bytes {
        return Err(FixupError::IntegerOverflow);
    }
    let imports_end = imports_base + imports_bytes;
    if imports_end > payload.len() || (header.imports_count != 0 && symbols_base >= payload.len()) {
        return Err(FixupError::ImportsTableOutOfBounds);
    }
    if starts_base > usize::MAX - CHAINED_STARTS_HEADER_SIZE {
        return Err(FixupError::IntegerOverflow);
    }
    if starts_base + CHAINED_STARTS_HEADER_SIZE > payload.len() {
        return Err(FixupError::StartsTableOutOfBounds);
    }
    let segment_count = read_u32_le(payload, starts_base);
    let offsets_bytes = match (segment_count as usize).checked_mul(4) {
        Some(n) => n,
        None => return Err(FixupError::IntegerOverflow),
    };
    if offsets_bytes > usize::MAX - CHAINED_STARTS_HEADER_SIZE {
        return Err(FixupError::IntegerOverflow);
    }
    let segment_table_bytes = CHAINED_STARTS_HEADER_SIZE + offsets_bytes;
    if starts_base > usize::MAX - segment_table_bytes {
        return Err(FixupError::IntegerOverflow);
    }
    if starts_base + segment_table_bytes > payload.len() {
        return Err(FixupError::StartsTableOutOfBounds);
    }
    let parsed = ChainedFixups { header, payload, starts_base, segment_count, segment_table_bytes };
    let mut index: u32 = 0;
    while index < segment_count
        invariant
            index <= segment_count,
            parsed.payload@ == payload@,
            parsed.starts_base == starts_base,
            parsed.segment_count == segment_count,
            parsed.segment_table_bytes == segment_table_bytes,
            parsed.header == spec_chained_header(payload@),
            spec_range_payload(bytes@, slice, data.command_index, data.range) == Ok::<
                Seq<u8>,
                FixupError,
            >(payload@),
            spec_chained_tables(payload@) == Ok::<u32, FixupError>(segment_count),
            starts_base == spec_chained_header(payload@).starts_offset,
            segment_table_bytes == 4 + segment_count * 4,
            spec_segments_from(payload@, starts_base as int, segment_count, segment_table_bytes as int, 0)
                == spec_segments_from(
                payload@,
                starts_base as int,
                segment_count,
                segment_table_bytes as int,
                index,
            ),
        decreases segment_count - index,
    {
        match parsed.segment(index) {
            Ok(_) => {},
            Err(e) => return Err(e),
        }
        index = index + 1;
    }
    Ok(parsed)
}

/// Once every segment record from `index` on has been checked, each of them
/// can be read.
proof fn lemma_segments_from_each(
    p: Seq<u8>,
    starts_base: int,
    count: u32,
    table_bytes: int,
    index: u32,
    i: u32,
)
    requires
        spec_segments_from(p, starts_base, count, table_bytes, index) is Ok,
        index <= i < count,
    ensures
        spec_segment_record(p, starts_base, count, table_bytes, i) is Ok,
    decreases i - index,
{
    if index < i {
        lemma_segments_from_each(p, starts_base, count, table_bytes, (index + 1) as u32, i);
    }
}

/// Every segment of parsed chained fixups can be read: for each index below
/// the segment count, `segment` succeeds.
pub proof fn lemma_parsed_segments_are_readable(
    s: Seq<u8>,
    slice: MachSlice,
    data: LinkeditData,
    index: u32,
)
    requires
        spec_chained_fixups_error(s, slice, data) is None,
        spec_range_payload(s, slice, data.command_index, data.range) is Ok,
        index < spec_chained_tables(spec_range_payload(s, slice, data.command_index, data.range)->Ok_0)->Ok_0,
    ensures
        ({
            let p = spec_range_payload(s, slice, data.command_index, data.range)->Ok_0;
            let count = spec_chained_tables(p)->Ok_0;
            spec_segment_record(p, spec_chained_header(p).starts_offset as int, count, 4 + count * 4, index)
                is Ok
        }),
{
    let p = spec_range_payload(s, slice, data.command_index, data.range)->Ok_0;
    let count = spec_chained_tables(p)->Ok_0;
    lemma_segments_from_each(p, spec_chained_header(p).starts_offset as int, count, 4 + count * 4, 0, index);
}

} // verus!
