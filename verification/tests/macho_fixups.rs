use awos::macho::{select_mach_o_64, CpuType, MachSlice};
use awos::macho_fixups::{
    metadata, parse_chained_fixups, FixupError, DYLD_CHAINED_IMPORT,
    DYLD_CHAINED_SYMBOLS_UNCOMPRESSED, LC_DYLD_CHAINED_FIXUPS, LC_DYLD_EXPORTS_TRIE,
    LC_DYLD_INFO_ONLY,
};

const MACH_HEADER_64_SIZE: usize = 32;
const DYLD_INFO_COMMAND_SIZE: usize = 48;
const LINKEDIT_DATA_COMMAND_SIZE: usize = 16;
const CHAINED_FIXUPS_HEADER_SIZE: usize = 28;
const CHAINED_SEGMENT_HEADER_SIZE: usize = 22;

const MH_MAGIC_64: u32 = 0xfeed_facf;
const MH_EXECUTE: u32 = 0x2;
const CPU_TYPE_X86_64: u32 = 0x0100_0007;

fn set_u16(bytes: &mut [u8], offset: usize, value: u16) {
    bytes[offset..offset + 2].copy_from_slice(&value.to_le_bytes());
}

fn set_u32(bytes: &mut [u8], offset: usize, value: u32) {
    bytes[offset..offset + 4].copy_from_slice(&value.to_le_bytes());
}

fn set_u64(bytes: &mut [u8], offset: usize, value: u64) {
    bytes[offset..offset + 8].copy_from_slice(&value.to_le_bytes());
}

fn command(command: u32, size: usize) -> Vec<u8> {
    let mut out = vec![0u8; size];
    set_u32(&mut out, 0, command);
    set_u32(&mut out, 4, size as u32);
    out
}

fn linkedit_command(command_id: u32, offset: u32, size: u32) -> Vec<u8> {
    let mut out = command(command_id, LINKEDIT_DATA_COMMAND_SIZE);
    set_u32(&mut out, 8, offset);
    set_u32(&mut out, 12, size);
    out
}

fn fixture(commands: &[Vec<u8>], payload: &[u8]) -> Vec<u8> {
    let command_bytes: usize = commands.iter().map(Vec::len).sum();
    let mut out = Vec::with_capacity(MACH_HEADER_64_SIZE + command_bytes + payload.len());
    out.extend_from_slice(&MH_MAGIC_64.to_le_bytes());
    out.extend_from_slice(&CPU_TYPE_X86_64.to_le_bytes());
    out.extend_from_slice(&3u32.to_le_bytes());
    out.extend_from_slice(&MH_EXECUTE.to_le_bytes());
    out.extend_from_slice(&(commands.len() as u32).to_le_bytes());
    out.extend_from_slice(&(command_bytes as u32).to_le_bytes());
    out.extend_from_slice(&0u32.to_le_bytes());
    out.extend_from_slice(&0u32.to_le_bytes());
    for item in commands {
        out.extend_from_slice(item);
    }
    out.extend_from_slice(payload);
    out
}

fn selected(image: &[u8]) -> MachSlice {
    select_mach_o_64(image, CpuType::X86_64).unwrap()
}

#[test]
fn parses_legacy_dyld_info_and_modern_linkedit_commands() {
    let payload_start = MACH_HEADER_64_SIZE + DYLD_INFO_COMMAND_SIZE + 2 * LINKEDIT_DATA_COMMAND_SIZE;
    let mut dyld = command(LC_DYLD_INFO_ONLY, DYLD_INFO_COMMAND_SIZE);
    set_u32(&mut dyld, 8, payload_start as u32);
    set_u32(&mut dyld, 12, 4);
    set_u32(&mut dyld, 16, (payload_start + 4) as u32);
    set_u32(&mut dyld, 20, 4);
    set_u32(&mut dyld, 24, (payload_start + 8) as u32);
    set_u32(&mut dyld, 28, 2);
    set_u32(&mut dyld, 32, (payload_start + 10) as u32);
    set_u32(&mut dyld, 36, 2);
    set_u32(&mut dyld, 40, (payload_start + 12) as u32);
    set_u32(&mut dyld, 44, 4);

    let exports = linkedit_command(LC_DYLD_EXPORTS_TRIE, (payload_start + 12) as u32, 4);
    let chained = linkedit_command(LC_DYLD_CHAINED_FIXUPS, (payload_start + 16) as u32, 28);
    let image = fixture(&[dyld, exports, chained], &[0u8; 44]);
    let parsed = metadata(&image, selected(&image)).unwrap();

    assert_eq!(parsed.dyld_info.unwrap().bind.size, 4);
    assert_eq!(parsed.exports_trie.unwrap().range.size, 4);
    assert_eq!(parsed.chained_fixups.unwrap().range.size, 28);
}

#[test]
fn rejects_duplicate_chained_fixups() {
    let payload_start = MACH_HEADER_64_SIZE + 2 * LINKEDIT_DATA_COMMAND_SIZE;
    let first = linkedit_command(LC_DYLD_CHAINED_FIXUPS, payload_start as u32, 0);
    let second = linkedit_command(LC_DYLD_CHAINED_FIXUPS, payload_start as u32, 0);
    let image = fixture(&[first, second], &[]);
    assert_eq!(
        metadata(&image, selected(&image)),
        Err(FixupError::DuplicateChainedFixups)
    );
}

#[test]
fn rejects_linkedit_range_out_of_slice() {
    let payload_start = MACH_HEADER_64_SIZE + LINKEDIT_DATA_COMMAND_SIZE;
    let chained = linkedit_command(LC_DYLD_CHAINED_FIXUPS, payload_start as u32, 64);
    let image = fixture(&[chained], &[0u8; 8]);
    assert_eq!(
        metadata(&image, selected(&image)),
        Err(FixupError::LinkeditRangeOutOfBounds {
            index: 0,
            offset: payload_start as u32,
            size: 64,
        })
    );
}

fn chained_payload() -> Vec<u8> {
    let starts_offset = CHAINED_FIXUPS_HEADER_SIZE;
    let starts_table_size = 12usize;
    let segment_offset = starts_offset + starts_table_size;
    let segment_size = CHAINED_SEGMENT_HEADER_SIZE + 4;
    let imports_offset = segment_offset + segment_size;
    let symbols_offset = imports_offset + 4;
    let mut payload = vec![0u8; symbols_offset + 4];

    set_u32(&mut payload, 0, 0);
    set_u32(&mut payload, 4, starts_offset as u32);
    set_u32(&mut payload, 8, imports_offset as u32);
    set_u32(&mut payload, 12, symbols_offset as u32);
    set_u32(&mut payload, 16, 1);
    set_u32(&mut payload, 20, DYLD_CHAINED_IMPORT);
    set_u32(&mut payload, 24, DYLD_CHAINED_SYMBOLS_UNCOMPRESSED);

    set_u32(&mut payload, starts_offset, 2);
    set_u32(&mut payload, starts_offset + 4, 0);
    set_u32(&mut payload, starts_offset + 8, starts_table_size as u32);

    set_u32(&mut payload, segment_offset, segment_size as u32);
    set_u16(&mut payload, segment_offset + 4, 0x1000);
    set_u16(&mut payload, segment_offset + 6, 2);
    set_u64(&mut payload, segment_offset + 8, 0x4000);
    set_u32(&mut payload, segment_offset + 16, 0);
    set_u16(&mut payload, segment_offset + 20, 2);
    set_u16(&mut payload, segment_offset + 22, 0x20);
    set_u16(&mut payload, segment_offset + 24, 0xffff);

    payload[symbols_offset..symbols_offset + 4].copy_from_slice(b"foo\0");
    payload
}

#[test]
fn parses_bounded_chained_fixups_header_and_segment_starts() {
    let payload = chained_payload();
    let payload_start = MACH_HEADER_64_SIZE + LINKEDIT_DATA_COMMAND_SIZE;
    let chained = linkedit_command(
        LC_DYLD_CHAINED_FIXUPS,
        payload_start as u32,
        payload.len() as u32,
    );
    let image = fixture(&[chained], &payload);
    let slice = selected(&image);
    let data = metadata(&image, slice).unwrap().chained_fixups.unwrap();
    let parsed = parse_chained_fixups(&image, slice, data).unwrap();

    assert_eq!(parsed.segment_count(), 2);
    assert!(parsed.segment(0).unwrap().is_none());
    let segment = parsed.segment(1).unwrap().unwrap();
    assert_eq!(segment.page_size, 0x1000);
    assert_eq!(segment.pointer_format, 2);
    assert_eq!(segment.segment_offset, 0x4000);
    assert_eq!(segment.page_count(), 2);
    assert_eq!(segment.page_start(0).unwrap(), 0x20);
    assert_eq!(segment.page_start(1).unwrap(), 0xffff);
}

#[test]
fn rejects_unknown_chained_fixups_version() {
    let mut payload = chained_payload();
    set_u32(&mut payload, 0, 1);
    let payload_start = MACH_HEADER_64_SIZE + LINKEDIT_DATA_COMMAND_SIZE;
    let chained = linkedit_command(
        LC_DYLD_CHAINED_FIXUPS,
        payload_start as u32,
        payload.len() as u32,
    );
    let image = fixture(&[chained], &payload);
    let slice = selected(&image);
    let data = metadata(&image, slice).unwrap().chained_fixups.unwrap();
    assert_eq!(
        parse_chained_fixups(&image, slice, data),
        Err(FixupError::UnsupportedFixupsVersion(1))
    );
}

#[test]
fn rejects_segment_info_inside_starts_table() {
    let mut payload = chained_payload();
    set_u32(&mut payload, CHAINED_FIXUPS_HEADER_SIZE + 8, 4);
    let payload_start = MACH_HEADER_64_SIZE + LINKEDIT_DATA_COMMAND_SIZE;
    let chained = linkedit_command(
        LC_DYLD_CHAINED_FIXUPS,
        payload_start as u32,
        payload.len() as u32,
    );
    let image = fixture(&[chained], &payload);
    let slice = selected(&image);
    let data = metadata(&image, slice).unwrap().chained_fixups.unwrap();
    assert_eq!(
        parse_chained_fixups(&image, slice, data),
        Err(FixupError::SegmentInfoOffsetInvalid {
            index: 1,
            offset: 4,
        })
    );
}

#[test]
fn segment_record_names_its_index_and_bounds_its_page_starts() {
    let payload = chained_payload();
    let payload_start = MACH_HEADER_64_SIZE + LINKEDIT_DATA_COMMAND_SIZE;
    let chained = linkedit_command(
        LC_DYLD_CHAINED_FIXUPS,
        payload_start as u32,
        payload.len() as u32,
    );
    let image = fixture(&[chained], &payload);
    let slice = selected(&image);
    let data = metadata(&image, slice).unwrap().chained_fixups.unwrap();
    let parsed = parse_chained_fixups(&image, slice, data).unwrap();

    let segment = parsed.segment(1).unwrap().unwrap();
    assert_eq!(segment.segment_index, 1);
    assert!(segment.size as usize >= 22 + 2 * segment.page_count() as usize);
    assert_eq!(
        segment.page_start(2),
        Err(FixupError::PageIndexOutOfBounds { index: 2, count: 2 })
    );
    assert_eq!(
        parsed.segment(2).unwrap_err(),
        FixupError::SegmentIndexOutOfBounds { index: 2, count: 2 }
    );
}
