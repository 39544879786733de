use awos::macho::{select_mach_o_64, CpuType, MachSlice};
use awos::macho_dyld::{
    dylibs, dynamic_linker, run_paths, DyldError, DylibKind, DYLIB_COMMAND_SIZE,
    DYLINKER_COMMAND_SIZE, LC_LAZY_LOAD_DYLIB, LC_LOAD_DYLIB, LC_LOAD_DYLINKER,
    LC_LOAD_UPWARD_DYLIB, LC_LOAD_WEAK_DYLIB, LC_REEXPORT_DYLIB, LC_RPATH, RPATH_COMMAND_SIZE,
};

const MACH_HEADER_64_SIZE: usize = 32;

const MH_MAGIC_64: u32 = 0xfeed_facf;
const MH_EXECUTE: u32 = 0x2;
const CPU_TYPE_X86_64: u32 = 0x0100_0007;

fn set_u32(bytes: &mut [u8], offset: usize, value: u32) {
    bytes[offset..offset + 4].copy_from_slice(&value.to_le_bytes());
}

fn aligned_command_size(size: usize) -> usize {
    (size + 7) & !7
}

fn dylib_command(command: u32, path: &[u8], version: u32) -> Vec<u8> {
    let size = aligned_command_size(DYLIB_COMMAND_SIZE + path.len() + 1);
    let mut out = vec![0u8; size];
    set_u32(&mut out, 0, command);
    set_u32(&mut out, 4, size as u32);
    set_u32(&mut out, 8, DYLIB_COMMAND_SIZE as u32);
    set_u32(&mut out, 12, 1);
    set_u32(&mut out, 16, version);
    set_u32(&mut out, 20, 0x0001_0000);
    out[DYLIB_COMMAND_SIZE..DYLIB_COMMAND_SIZE + path.len()].copy_from_slice(path);
    out
}

fn simple_path_command(command: u32, minimum: usize, path: &[u8]) -> Vec<u8> {
    let size = aligned_command_size(minimum + path.len() + 1);
    let mut out = vec![0u8; size];
    set_u32(&mut out, 0, command);
    set_u32(&mut out, 4, size as u32);
    set_u32(&mut out, 8, minimum as u32);
    out[minimum..minimum + path.len()].copy_from_slice(path);
    out
}

fn fixture(command_list: &[Vec<u8>]) -> Vec<u8> {
    let command_bytes: usize = command_list.iter().map(Vec::len).sum();
    let mut out = Vec::with_capacity(MACH_HEADER_64_SIZE + command_bytes);
    out.extend_from_slice(&MH_MAGIC_64.to_le_bytes());
    out.extend_from_slice(&CPU_TYPE_X86_64.to_le_bytes());
    out.extend_from_slice(&3u32.to_le_bytes());
    out.extend_from_slice(&MH_EXECUTE.to_le_bytes());
    out.extend_from_slice(&(command_list.len() as u32).to_le_bytes());
    out.extend_from_slice(&(command_bytes as u32).to_le_bytes());
    out.extend_from_slice(&0u32.to_le_bytes());
    out.extend_from_slice(&0u32.to_le_bytes());
    for command in command_list {
        out.extend_from_slice(command);
    }
    out
}

fn selected(image: &[u8]) -> MachSlice {
    select_mach_o_64(image, CpuType::X86_64).unwrap()
}

#[test]
fn parses_dynamic_linker_path() {
    let image = fixture(&[simple_path_command(
        LC_LOAD_DYLINKER,
        DYLINKER_COMMAND_SIZE,
        b"/usr/lib/dyld",
    )]);
    assert_eq!(
        dynamic_linker(&image, selected(&image)).unwrap(),
        Some(&b"/usr/lib/dyld"[..])
    );
}

#[test]
fn parses_all_supported_dylib_kinds() {
    let image = fixture(&[
        dylib_command(LC_LOAD_DYLIB, b"/usr/lib/libSystem.B.dylib", 1),
        dylib_command(LC_LOAD_WEAK_DYLIB, b"@rpath/Weak.dylib", 2),
        dylib_command(LC_REEXPORT_DYLIB, b"@rpath/Reexport.dylib", 3),
        dylib_command(LC_LAZY_LOAD_DYLIB, b"@rpath/Lazy.dylib", 4),
        dylib_command(LC_LOAD_UPWARD_DYLIB, b"@rpath/Upward.dylib", 5),
    ]);
    let mut iter = dylibs(&image, selected(&image)).unwrap();
    let mut parsed = Vec::new();
    while let Some(dylib) = iter.next() {
        parsed.push(dylib.unwrap());
    }
    assert_eq!(parsed.len(), 5);
    assert_eq!(parsed[0].kind, DylibKind::Required);
    assert_eq!(parsed[1].kind, DylibKind::Weak);
    assert_eq!(parsed[2].kind, DylibKind::Reexport);
    assert_eq!(parsed[3].kind, DylibKind::Lazy);
    assert_eq!(parsed[4].kind, DylibKind::Upward);
    assert_eq!(parsed[4].current_version, 5);
}

#[test]
fn parses_run_paths() {
    let image = fixture(&[
        simple_path_command(LC_RPATH, RPATH_COMMAND_SIZE, b"@loader_path/Frameworks"),
        simple_path_command(LC_RPATH, RPATH_COMMAND_SIZE, b"/opt/aw/lib"),
    ]);
    let mut iter = run_paths(&image, selected(&image)).unwrap();
    let mut paths = Vec::new();
    while let Some(path) = iter.next() {
        paths.push(path.unwrap().path);
    }
    assert_eq!(
        paths,
        vec![&b"@loader_path/Frameworks"[..], &b"/opt/aw/lib"[..]]
    );
}

#[test]
fn rejects_duplicate_dynamic_linker_commands() {
    let image = fixture(&[
        simple_path_command(LC_LOAD_DYLINKER, DYLINKER_COMMAND_SIZE, b"/usr/lib/dyld"),
        simple_path_command(LC_LOAD_DYLINKER, DYLINKER_COMMAND_SIZE, b"/other/dyld"),
    ]);
    assert_eq!(
        dynamic_linker(&image, selected(&image)),
        Err(DyldError::DuplicateDynamicLinker)
    );
}

#[test]
fn rejects_string_offset_inside_fixed_command_fields() {
    let mut command = simple_path_command(LC_RPATH, RPATH_COMMAND_SIZE, b"/valid");
    set_u32(&mut command, 8, 8);
    let image = fixture(&[command]);
    let mut paths = run_paths(&image, selected(&image)).unwrap();
    assert_eq!(
        paths.next(),
        Some(Err(DyldError::StringOffsetOutOfBounds {
            index: 0,
            offset: 8,
            minimum: RPATH_COMMAND_SIZE,
            size: 24,
        }))
    );
}

#[test]
fn rejects_unterminated_path() {
    let mut command = vec![0u8; 16];
    set_u32(&mut command, 0, LC_LOAD_DYLINKER);
    set_u32(&mut command, 4, 16);
    set_u32(&mut command, 8, DYLINKER_COMMAND_SIZE as u32);
    command[12..16].copy_from_slice(b"dyld");
    let image = fixture(&[command]);
    assert_eq!(
        dynamic_linker(&image, selected(&image)),
        Err(DyldError::UnterminatedPath { index: 0 })
    );
}

#[test]
fn rejects_empty_path() {
    let image = fixture(&[simple_path_command(
        LC_LOAD_DYLINKER,
        DYLINKER_COMMAND_SIZE,
        b"",
    )]);
    assert_eq!(
        dynamic_linker(&image, selected(&image)),
        Err(DyldError::EmptyPath { index: 0 })
    );
}
