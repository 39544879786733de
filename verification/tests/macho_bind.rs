use awos::macho::{select_mach_o_64, CpuType};
use awos::macho_bind::{
    chained_import, chained_imports, BindError, ImportAddend, DYLD_CHAINED_IMPORT,
    DYLD_CHAINED_IMPORT_ADDEND, DYLD_CHAINED_IMPORT_ADDEND64,
};
use awos::macho_fixups::{parse_chained_fixups, ChainedFixups, LinkeditData, LinkeditRange};

fn entry_size(format: u32) -> Result<usize, BindError> {
    match format {
        DYLD_CHAINED_IMPORT => Ok(4),
        DYLD_CHAINED_IMPORT_ADDEND => Ok(8),
        DYLD_CHAINED_IMPORT_ADDEND64 => Ok(16),
        _ => Err(BindError::UnsupportedImportsFormat(format)),
    }
}


const MH_MAGIC_64: u32 = 0xfeed_facf;
const MH_EXECUTE: u32 = 0x2;
const CPU_TYPE_X86_64: u32 = 0x0100_0007;
const HEADER_SIZE: usize = 32;
const FIXUPS_HEADER_SIZE: usize = 28;

fn set_u32(bytes: &mut [u8], offset: usize, value: u32) {
    bytes[offset..offset + 4].copy_from_slice(&value.to_le_bytes());
}

fn set_u64(bytes: &mut [u8], offset: usize, value: u64) {
    bytes[offset..offset + 8].copy_from_slice(&value.to_le_bytes());
}

fn image_with_fixups(
    format: u32,
    symbols_format: u32,
    entries: &[u8],
    symbols: &[u8],
) -> Vec<u8> {
    let starts_offset = FIXUPS_HEADER_SIZE;
    let starts_size = 4usize;
    let imports_offset = starts_offset + starts_size;
    let symbols_offset = imports_offset + entries.len();
    let mut payload = vec![0u8; symbols_offset + symbols.len()];
    set_u32(&mut payload, 0, 0);
    set_u32(&mut payload, 4, starts_offset as u32);
    set_u32(&mut payload, 8, imports_offset as u32);
    set_u32(&mut payload, 12, symbols_offset as u32);
    set_u32(
        &mut payload,
        16,
        (entries.len() / entry_size(format).unwrap()) as u32,
    );
    set_u32(&mut payload, 20, format);
    set_u32(&mut payload, 24, symbols_format);
    set_u32(&mut payload, starts_offset, 0);
    payload[imports_offset..symbols_offset].copy_from_slice(entries);
    payload[symbols_offset..].copy_from_slice(symbols);

    let mut image = Vec::with_capacity(HEADER_SIZE + payload.len());
    image.extend_from_slice(&MH_MAGIC_64.to_le_bytes());
    image.extend_from_slice(&CPU_TYPE_X86_64.to_le_bytes());
    image.extend_from_slice(&3u32.to_le_bytes());
    image.extend_from_slice(&MH_EXECUTE.to_le_bytes());
    image.extend_from_slice(&0u32.to_le_bytes());
    image.extend_from_slice(&0u32.to_le_bytes());
    image.extend_from_slice(&0u32.to_le_bytes());
    image.extend_from_slice(&0u32.to_le_bytes());
    image.extend_from_slice(&payload);
    image
}

fn parsed(image: &[u8]) -> ChainedFixups<'_> {
    let slice = select_mach_o_64(image, CpuType::X86_64).unwrap();
    parse_chained_fixups(
        image,
        slice,
        LinkeditData {
            command_index: 0,
            range: LinkeditRange {
                offset: HEADER_SIZE as u32,
                size: (image.len() - HEADER_SIZE) as u32,
            },
        },
    )
    .unwrap()
}

#[test]
fn decodes_plain_import_and_signed_ordinal() {
    let raw = u32::from(0xffu8) | (1 << 8);
    let image = image_with_fixups(DYLD_CHAINED_IMPORT, 0, &raw.to_le_bytes(), b"foo\0");
    let import = chained_import(parsed(&image), 0).unwrap();
    assert_eq!(import.lib_ordinal, -1);
    assert!(import.weak_import);
    assert_eq!(import.name, b"foo");
    assert_eq!(import.addend, ImportAddend::Absent);
}

#[test]
fn decodes_signed32_addend_and_symbol_offset() {
    let first = b"skip\0";
    let raw = 2u32 | ((first.len() as u32) << 9);
    let mut entry = vec![0u8; 8];
    set_u32(&mut entry, 0, raw);
    set_u32(&mut entry, 4, (-7i32) as u32);
    let image = image_with_fixups(DYLD_CHAINED_IMPORT_ADDEND, 0, &entry, b"skip\0target\0");
    let import = chained_import(parsed(&image), 0).unwrap();
    assert_eq!(import.lib_ordinal, 2);
    assert_eq!(import.name, b"target");
    assert_eq!(import.addend, ImportAddend::Signed32(-7));
}

#[test]
fn decodes_addend64_import() {
    let raw = u64::from(0xfffeu16) | (1 << 16);
    let mut entry = vec![0u8; 16];
    set_u64(&mut entry, 0, raw);
    set_u64(&mut entry, 8, 0x1122_3344_5566_7788);
    let image = image_with_fixups(DYLD_CHAINED_IMPORT_ADDEND64, 0, &entry, b"symbol64\0");
    let import = chained_import(parsed(&image), 0).unwrap();
    assert_eq!(import.lib_ordinal, -2);
    assert!(import.weak_import);
    assert_eq!(import.name, b"symbol64");
    assert_eq!(import.addend, ImportAddend::Raw64(0x1122_3344_5566_7788));
}

#[test]
fn rejects_reserved_bits_in_addend64() {
    let raw = 1u64 | (1 << 17);
    let mut entry = vec![0u8; 16];
    set_u64(&mut entry, 0, raw);
    let image = image_with_fixups(DYLD_CHAINED_IMPORT_ADDEND64, 0, &entry, b"x\0");
    assert_eq!(
        chained_import(parsed(&image), 0),
        Err(BindError::ReservedBitsNonZero { index: 0, bits: 1 })
    );
}

#[test]
fn rejects_compressed_symbol_pool_until_supported() {
    let raw = 1u32;
    let image = image_with_fixups(DYLD_CHAINED_IMPORT, 1, &raw.to_le_bytes(), b"x\0");
    assert_eq!(
        chained_imports(parsed(&image)),
        Err(BindError::UnsupportedSymbolsFormat(1))
    );
}

#[test]
fn iterator_preserves_import_order() {
    let first = 1u32;
    let second = 2u32 | (2 << 9);
    let mut entries = vec![0u8; 8];
    set_u32(&mut entries, 0, first);
    set_u32(&mut entries, 4, second);
    let image = image_with_fixups(DYLD_CHAINED_IMPORT, 0, &entries, b"a\0b\0");
    let parsed = parsed(&image);
    let mut iter = chained_imports(parsed).unwrap();
    let mut imports = Vec::new();
    while let Some(import) = iter.next() {
        imports.push(import.unwrap());
    }
    assert_eq!(imports.len(), 2);
    assert_eq!(imports[0].name, b"a");
    assert_eq!(imports[1].name, b"b");
    assert_eq!(imports[1].lib_ordinal, 2);
}
