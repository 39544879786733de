//! Decoding of the chained-fixups import table: one import per entry, with
//! its library ordinal, weak flag, symbol name and addend.

pub mod legacy;

use vstd::prelude::*;
use crate::le_bytes::{u32_le, u64_le, read_u32_le, read_u64_le};
use crate::macho_fixups::{ChainedFixups, ChainedFixupsHeader};

verus! {

pub const DYLD_CHAINED_IMPORT: u32 = 1;
pub const DYLD_CHAINED_IMPORT_ADDEND: u32 = 2;
pub const DYLD_CHAINED_IMPORT_ADDEND64: u32 = 3;
pub const DYLD_CHAINED_SYMBOLS_UNCOMPRESSED: u32 = 0;

#[derive(Clone, Copy, Debug, PartialEq, Eq, Structural)]
pub enum BindError {
    IntegerOverflow,
    UnsupportedImportsFormat(u32),
    UnsupportedSymbolsFormat(u32),
    ImportsTableOutOfBounds,
    ImportsOverlapSymbols,
    ImportIndexOutOfBounds { index: u32, count: u32 },
    ReservedBitsNonZero { index: u32, bits: u16 },
    SymbolOffsetOutOfBounds { index: u32, offset: u32 },
    UnterminatedSymbol { index: u32 },
    EmptySymbol { index: u32 },
}

#[derive(Clone, Copy, Debug, PartialEq, Eq, Structural)]
pub enum ImportAddend {
    Absent,
    Signed32(i32),
    Raw64(u64),
}

/// One decoded import.
#[derive(Clone, Copy, Debug, PartialEq, Eq)]
pub struct ChainedImport<'a> {
    pub index: u32,
    pub lib_ordinal: i16,
    pub weak_import: bool,
    pub name: &'a [u8],
    pub addend: ImportAddend,
}

/// `v`'s low eight bits read as a signed byte.
pub open spec fn spec_signed8(v: u32) -> i16 {
    let b = v & 0xff;
    if b >= 128 {
        (b - 256) as i16
    } else {
        b as i16
    }
}

/// `v`'s low sixteen bits read as a signed half-word.
pub open spec fn spec_signed16(v: u64) -> i16 {
    let b = v & 0xffff;
    if b >= 0x8000 {
        (b - 0x10000) as i16
    } else {
        b as i16
    }
}

/// `v` read as a signed word.
pub open spec fn spec_signed32(v: u32) -> i32 {
    if v >= 0x8000_0000 {
        (v - 0x1_0000_0000) as i32
    } else {
        v as i32
    }
}

/// Size of one import entry of a format, or why the format is refused.
pub open spec fn spec_entry_size(format: u32) -> Result<int, BindError> {
    if format == DYLD_CHAINED_IMPORT {
        Ok(4)
    } else if format == DYLD_CHAINED_IMPORT_ADDEND {
        Ok(8)
    } else if format == DYLD_CHAINED_IMPORT_ADDEND64 {
        Ok(16)
    } else {
        Err(BindError::UnsupportedImportsFormat(format))
    }
}

fn entry_size(format: u32) -> (r: Result<usize, BindError>)
    ensures
        match r {
            Ok(n) => spec_entry_size(format) == Ok::<int, BindError>(n as int),
            Err(e) => spec_entry_size(format) == Err::<int, BindError>(e),
        },
{
    if format == DYLD_CHAINED_IMPORT {
        Ok(4)
    } else if format == DYLD_CHAINED_IMPORT_ADDEND {
        Ok(8)
    } else if format == DYLD_CHAINED_IMPORT_ADDEND64 {
        Ok(16)
    } else {
        Err(BindError::UnsupportedImportsFormat(format))
    }
}

/// Where the import and symbol tables start and how large an entry is, or
/// why the layout is refused.
pub open spec fn spec_layout(h: ChainedFixupsHeader, payload_len: int) -> Result<(int, int, int), BindError> {
    if h.symbols_format != DYLD_CHAINED_SYMBOLS_UNCOMPRESSED {
        Err(BindError::UnsupportedSymbolsFormat(h.symbols_format))
    } else {
        match spec_entry_size(h.imports_format) {
            Err(e) => Err(e),
            Ok(size) => if h.imports_count * size > usize::MAX {
                Err(BindError::IntegerOverflow)
            } else if h.imports_offset + h.imports_count * size > usize::MAX {
                Err(BindError::IntegerOverflow)
            } else if h.imports_offset + h.imports_count * size > payload_len || h.symbols_offset
                > payload_len {
                Err(BindError::ImportsTableOutOfBounds)
            } else if h.imports_offset + h.imports_count * size > h.symbols_offset {
                Err(BindError::ImportsOverlapSymbols)
            } else {
                Ok((h.imports_offset as int, h.symbols_offset as int, size))
            },
        }
    }
}

fn validated_layout(fixups: ChainedFixups<'_>) -> (r: Result<(usize, usize, usize), BindError>)
    ensures
        match r {
            Ok((i, s, n)) => spec_layout(fixups.spec_header(), fixups.spec_payload().len() as int)
                == Ok::<(int, int, int), BindError>((i as int, s as int, n as int)),
            Err(e) => spec_layout(fixups.spec_header(), fixups.spec_payload().len() as int) == Err::<
                (int, int, int),
                BindError,
            >(e),
        },
{
    let header = fixups.header();
    if header.symbols_format != DYLD_CHAINED_SYMBOLS_UNCOMPRESSED {
        return Err(BindError::UnsupportedSymbolsFormat(header.symbols_format));
    }
    let size = match entry_size(header.imports_format) {
        Ok(n) => n,
        Err(e) => return Err(e),
    };
    let imports_base = header.imports_offset as usize;
    let symbols_base = header.symbols_offset as usize;
    let imports_bytes = match (header.imports_count as usize).checked_mul(size) {
        Some(n) => n,
        None => return Err(BindError::IntegerOverflow),
    };
    if imports_base > usize::MAX - imports_bytes {
        return Err(BindError::IntegerOverflow);
    }
    let imports_end = imports_base + imports_bytes;
    let payload = fixups.payload();
    if imports_end > payload.len() || symbols_base > payload.len() {
        return Err(BindError::ImportsTableOutOfBounds);
    }
    if imports_end > symbols_base {
        return Err(BindError::ImportsOverlapSymbols);
    }
    Ok((imports_base, symbols_base, size))
}

/// The decoded fields of import `index` (ordinal, weak flag, name offset,
/// addend), or why they are refused.
pub open spec fn spec_import_entry(h: ChainedFixupsHeader, p: Seq<u8>, index: u32) -> Result<
    (i16, bool, u32, ImportAddend),
    BindError,
> {
    if index >= h.imports_count {
        Err(BindError::ImportIndexOutOfBounds { index, count: h.imports_count })
    } else {
        match spec_layout(h, p.len() as int) {
            Err(e) => Err(e),
            Ok((imports_base, _symbols_base, size)) => {
                let entry = imports_base + index * size;
                if h.imports_format == DYLD_CHAINED_IMPORT_ADDEND64 {
                    let raw = u64_le(p, entry);
                    let reserved = ((raw >> 17u64) & 0x7fff) as u16;
                    if reserved != 0 {
                        Err(BindError::ReservedBitsNonZero { index, bits: reserved })
                    } else {
                        Ok(
                            (
                                spec_signed16(raw),
                                (raw >> 16u64) & 1 != 0,
                                (raw >> 32u64) as u32,
                                ImportAddend::Raw64(u64_le(p, entry + 8)),
                            ),
                        )
                    }
                } else {
                    let raw = u32_le(p, entry);
                    Ok(
                        (
                            spec_signed8(raw),
                            (raw >> 8u32) & 1 != 0,
                            raw >> 9u32,
                            if h.imports_format == DYLD_CHAINED_IMPORT_ADDEND {
                                ImportAddend::Signed32(spec_signed32(u32_le(p, entry + 4)))
                            } else {
                                ImportAddend::Absent
                            },
                        ),
                    )
                }
            },
        }
    }
}

/// The first zero byte of `s` at or after `i`.
pub open spec fn spec_zero_from(s: Seq<u8>, i: int) -> Option<int>
    decreases s.len() - i,
{
    if i < 0 || i >= s.len() {
        None
    } else if s[i] == 0 {
        Some(i)
    } else {
        spec_zero_from(s, i + 1)
    }
}

/// Where the symbol name of import `index` starts and ends in the payload,
/// or why it is refused.
pub open spec fn spec_symbol(p: Seq<u8>, symbols_base: int, index: u32, name_offset: u32) -> Result<
    (int, int),
    BindError,
> {
    let start = symbols_base + name_offset;
    if start > usize::MAX {
        Err(BindError::IntegerOverflow)
    } else if start > p.len() {
        Err(BindError::SymbolOffsetOutOfBounds { index, offset: name_offset })
    } else {
        match spec_zero_from(p, start) {
            None => Err(BindError::UnterminatedSymbol { index }),
            Some(end) => if end == start {
                Err(BindError::EmptySymbol { index })
            } else {
                Ok((start, end))
            },
        }
    }
}

fn symbol_name<'a>(payload: &'a [u8], symbols_base: usize, index: u32, name_offset: u32) -> (r:
    Result<&'a [u8], BindError>)
    ensures
        match r {
            Ok(name) => spec_symbol(payload@, symbols_base as int, index, name_offset) matches Ok(
                (start, end),
            ) && name@ == payload@.subrange(start, end),
            Err(e) => spec_symbol(payload@, symbols_base as int, index, name_offset) == Err::<
                (int, int),
                BindError,
            >(e),
        },
{
    if symbols_base > usize::MAX - name_offset as usize {
        return Err(BindError::IntegerOverflow);
    }
    let start = symbols_base + name_offset as usize;
    if start > payload.len() {
        return Err(BindError::SymbolOffsetOutOfBounds { index, offset: name_offset });
    }
    let mut end = start;
    while end < payload.len()
        invariant
            start <= end <= payload@.len(),
            start == symbols_base + name_offset,
            spec_zero_from(payload@, start as int) == spec_zero_from(payload@, end as int),
        decreases payload@.len() - end,
    {
        if payload[end] == 0 {
            if end == start {
                return Err(BindError::EmptySymbol { index });
            }
            return Ok(vstd::slice::slice_subrange(payload, start, end));
        }
        end = end + 1;
    }
    Err(BindError::UnterminatedSymbol { index })
}

/// Whether `import` is import `index` decoded from the fixups.
pub open spec fn spec_is_import(import: ChainedImport, fixups: ChainedFixups, index: u32) -> bool {
    let h = fixups.spec_header();
    let p = fixups.spec_payload();
    &&& spec_import_entry(h, p, index) matches Ok((ordinal, weak, name_offset, addend))
    &&& spec_layout(h, p.len() as int) matches Ok((_i, symbols_base, _n))
    &&& spec_symbol(p, symbols_base, index, name_offset) matches Ok((start, end))
    &&& import.index == index
    &&& import.lib_ordinal == ordinal
    &&& import.weak_import == weak
    &&& import.addend == addend
    &&& import.name@ == p.subrange(start, end)
}

/// Why import `index` cannot be decoded, if it cannot.
pub open spec fn spec_import_error(fixups: ChainedFixups, index: u32) -> Option<BindError> {
    let h = fixups.spec_header();
    let p = fixups.spec_payload();
    match spec_import_entry(h, p, index) {
        Err(e) => Some(e),
        Ok((_o, _w, name_offset, _a)) => match spec_layout(h, p.len() as int) {
            Err(e) => Some(e),
            Ok((_i, symbols_base, _n)) => match spec_symbol(p, symbols_base, index, name_offset) {
                Err(e) => Some(e),
                Ok(_) => None,
            },
        },
    }
}

/// `index * size + size` stays within a table of `count` entries.
proof fn lemma_entry_in_table(index: int, count: int, size: int)
    requires
        0 <= index < count,
        0 < size,
    ensures
        index * size + size <= count * size,
{
    assert((index + 1) * size <= count * size) by (nonlinear_arith)
        requires
            index + 1 <= count,
            0 < size,
    ;
    assert((index + 1) * size == index * size + size) by (nonlinear_arith);
}

/// Decodes import `index` of the chained-fixups import table.
pub fn chained_import<'a>(fixups: ChainedFixups<'a>, index: u32) -> (r: Result<
    ChainedImport<'a>,
    BindError,
>)
    ensures
        match r {
            Ok(import) => spec_import_error(fixups, index) is None && spec_is_import(
                import,
                fixups,
                index,
            ),
            Err(e) => spec_import_error(fixups, index) == Some(e),
        },
{
    let header = fixups.header();
    if index >= header.imports_count {
        return Err(BindError::ImportIndexOutOfBounds { index, count: header.imports_count });
    }
    let (imports_base, symbols_base, size) = match validated_layout(fixups) {
        Ok(l) => l,
        Err(e) => return Err(e),
    };
    proof {
        lemma_entry_in_table(index as int, header.imports_count as int, size as int);
    }
    let entry_offset = imports_base + (index as usize) * size;
    let payload = fixups.payload();
    let (lib_ordinal, weak_import, name_offset, addend) = if header.imports_format
        == DYLD_CHAINED_IMPORT || header.imports_format == DYLD_CHAINED_IMPORT_ADDEND {
        let raw = read_u32_le(payload, entry_offset);
        assert(raw & 0xff <= 0xff) by (bit_vector);
        let low = (raw & 0xff) as i16;
        let lib_ordinal: i16 = if low >= 128 {
            low - 256
        } else {
            low
        };
        let weak_import = (raw >> 8u32) & 1 != 0;
        let name_offset = raw >> 9u32;
        let addend = if header.imports_format == DYLD_CHAINED_IMPORT_ADDEND {
            let word = read_u32_le(payload, entry_offset + 4);
            let signed: i32 = if word >= 0x8000_0000 {
                (word as i64 - 0x1_0000_0000i64) as i32
            } else {
                word as i32
            };
            ImportAddend::Signed32(signed)
        } else {
            ImportAddend::Absent
        };
        (lib_ordinal, weak_import, name_offset, addend)
    } else if header.imports_format == DYLD_CHAINED_IMPORT_ADDEND64 {
        let raw = read_u64_le(payload, entry_offset);
        let reserved = ((raw >> 17u64) & 0x7fff) as u16;
        if reserved != 0 {
            return Err(BindError::ReservedBitsNonZero { index, bits: reserved });
        }
        assert(raw & 0xffff <= 0xffff) by (bit_vector);
        let low = (raw & 0xffff) as i32;
        let lib_ordinal: i16 = if low >= 0x8000 {
            (low - 0x10000) as i16
        } else {
            low as i16
        };
        let weak_import = (raw >> 16u64) & 1 != 0;
        let name_offset = (raw >> 32u64) as u32;
        let addend = ImportAddend::Raw64(read_u64_le(payload, entry_offset + 8));
        (lib_ordinal, weak_import, name_offset, addend)
    } else {
        return Err(BindError::UnsupportedImportsFormat(header.imports_format));
    };
    let name = match symbol_name(payload, symbols_base, index, name_offset) {
        Ok(n) => n,
        Err(e) => return Err(e),
    };
    Ok(ChainedImport { index, lib_ordinal, weak_import, name, addend })
}

/// Walks the import table in order, stopping after the first error.
#[derive(Clone, Copy, Debug, PartialEq, Eq)]
pub struct ChainedImportIter<'a> {
    fixups: ChainedFixups<'a>,
    next_index: u32,
    failed: bool,
}

impl<'a> ChainedImportIter<'a> {
    pub closed spec fn spec_fixups(&self) -> ChainedFixups<'a> {
        self.fixups
    }

    /// The index of the import the next call decodes.
    pub closed spec fn spec_next_index(&self) -> u32 {
        self.next_index
    }

    /// Whether an earlier import failed, which ends the walk.
    pub closed spec fn spec_failed(&self) -> bool {
        self.failed
    }

    /// Decodes the next import; `None` once the table is exhausted or an
    /// import has failed.
    pub fn next(&mut self) -> (r: Option<Result<ChainedImport<'a>, BindError>>)
        ensures
            final(self).spec_fixups() == old(self).spec_fixups(),
            old(self).spec_failed() || old(self).spec_next_index() >= old(
                self,
            ).spec_fixups().spec_header().imports_count ==> r is None && *final(self) == *old(
                self,
            ),
            !(old(self).spec_failed() || old(self).spec_next_index() >= old(
                self,
            ).spec_fixups().spec_header().imports_count) ==> {
                &&& r matches Some(result) && match result {
                    Ok(import) => spec_import_error(old(self).spec_fixups(), old(self).spec_next_index())
                        is None && spec_is_import(
                        import,
                        old(self).spec_fixups(),
                        old(self).spec_next_index(),
                    ),
                    Err(e) => spec_import_error(old(self).spec_fixups(), old(self).spec_next_index())
                        == Some(e),
                }
                &&& final(self).spec_next_index() == old(self).spec_next_index() + 1
                &&& final(self).spec_failed() == (r matches Some(Err(_)))
            },
    {
        if self.failed || self.next_index >= self.fixups.header().imports_count {
            return None;
        }
        let index = self.next_index;
        self.next_index = index + 1;
        let result = chained_import(self.fixups, index);
        if result.is_err() {
            self.failed = true;
        }
        Some(result)
    }
}

/// Checks the import table's layout and starts a walk over it.
pub fn chained_imports<'a>(fixups: ChainedFixups<'a>) -> (r: Result<ChainedImportIter<'a>, BindError>)
    ensures
        match r {
            Ok(iter) => spec_layout(fixups.spec_header(), fixups.spec_payload().len() as int) is Ok
                && iter.spec_fixups() == fixups && iter.spec_next_index() == 0 && !iter.spec_failed(),
            Err(e) => spec_layout(fixups.spec_header(), fixups.spec_payload().len() as int) == Err::<
                (int, int, int),
                BindError,
            >(e),
        },
{
    match validated_layout(fixups) {
        Ok(_) => Ok(ChainedImportIter { fixups, next_index: 0, failed: false }),
        Err(e) => Err(e),
    }
}

} // verus!
