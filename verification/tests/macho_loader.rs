use awos::macho::{select_mach_o_64, CpuType};
use awos::macho_loader::{
    plan_executable, segments, LoaderError, ENTRY_POINT_COMMAND_SIZE, LC_MAIN, LC_SEGMENT_64,
    MH_PIE, SEGMENT_COMMAND_64_SIZE, VM_PROT_EXECUTE, VM_PROT_READ, VM_PROT_WRITE,
};


const MH_MAGIC_64: u32 = 0xfeed_facf;
const MH_EXECUTE: u32 = 0x2;
const CPU_TYPE_X86_64: u32 = 0x0100_0007;

fn push_u32(value: u32, out: &mut Vec<u8>) {
    out.extend_from_slice(&value.to_le_bytes());
}

fn push_u64(value: u64, out: &mut Vec<u8>) {
    out.extend_from_slice(&value.to_le_bytes());
}

fn fixture(main_count: u32, initial_protection: u32, entryoff: u64) -> Vec<u8> {
    let command_count = 1 + main_count;
    let command_bytes =
        SEGMENT_COMMAND_64_SIZE as u32 + main_count * ENTRY_POINT_COMMAND_SIZE as u32;

    let mut out = Vec::new();
    push_u32(MH_MAGIC_64, &mut out);
    push_u32(CPU_TYPE_X86_64, &mut out);
    push_u32(3, &mut out);
    push_u32(MH_EXECUTE, &mut out);
    push_u32(command_count, &mut out);
    push_u32(command_bytes, &mut out);
    push_u32(MH_PIE, &mut out);
    push_u32(0, &mut out);

    push_u32(LC_SEGMENT_64, &mut out);
    push_u32(SEGMENT_COMMAND_64_SIZE as u32, &mut out);
    let mut name = [0u8; 16];
    name[..6].copy_from_slice(b"__TEXT");
    out.extend_from_slice(&name);
    push_u64(0x1_0000_0000, &mut out);
    push_u64(0x1000, &mut out);
    push_u64(0, &mut out);
    push_u64(0x1000, &mut out);
    push_u32(VM_PROT_READ | VM_PROT_EXECUTE, &mut out);
    push_u32(initial_protection, &mut out);
    push_u32(0, &mut out);
    push_u32(0, &mut out);

    for _ in 0..main_count {
        push_u32(LC_MAIN, &mut out);
        push_u32(ENTRY_POINT_COMMAND_SIZE as u32, &mut out);
        push_u64(entryoff, &mut out);
        push_u64(0, &mut out);
    }

    out.resize(0x1000, 0);
    out
}

#[test]
fn plans_x86_64_main_entrypoint() {
    let image = fixture(1, VM_PROT_READ | VM_PROT_EXECUTE, 0x100);
    let plan = plan_executable(&image, CpuType::X86_64).unwrap();
    assert_eq!(plan.entry_file_offset, 0x100);
    assert_eq!(plan.entry_vm_address, 0x1_0000_0100);
    assert_eq!(plan.segment_count, 1);
    assert!(plan.position_independent);
}

#[test]
fn exposes_validated_segments() {
    let image = fixture(1, VM_PROT_READ | VM_PROT_EXECUTE, 0x100);
    let slice = select_mach_o_64(&image, CpuType::X86_64).unwrap();
    let mut iter = segments(&image, slice).unwrap();
    let mut items = Vec::new();
    while let Some(item) = iter.next() {
        items.push(item);
    }
    assert_eq!(items.len(), 1);
    let segment = items[0].unwrap();
    assert_eq!(&segment.name[..6], b"__TEXT");
    assert!(segment.is_executable());
    assert!(!segment.is_writable());
}

#[test]
fn rejects_writable_executable_segment() {
    let image = fixture(1, VM_PROT_READ | VM_PROT_WRITE | VM_PROT_EXECUTE, 0x100);
    assert_eq!(
        plan_executable(&image, CpuType::X86_64),
        Err(LoaderError::WritableExecutableSegment { index: 0 })
    );
}

#[test]
fn rejects_missing_main_command() {
    let image = fixture(0, VM_PROT_READ | VM_PROT_EXECUTE, 0x100);
    assert_eq!(
        plan_executable(&image, CpuType::X86_64),
        Err(LoaderError::MissingMainCommand)
    );
}

#[test]
fn rejects_duplicate_main_command() {
    let image = fixture(2, VM_PROT_READ | VM_PROT_EXECUTE, 0x100);
    assert_eq!(
        plan_executable(&image, CpuType::X86_64),
        Err(LoaderError::DuplicateMainCommand)
    );
}

#[test]
fn rejects_entrypoint_outside_executable_segment() {
    let image = fixture(1, VM_PROT_READ, 0x100);
    assert_eq!(
        plan_executable(&image, CpuType::X86_64),
        Err(LoaderError::EntryPointNotExecutable)
    );
}

#[test]
fn rejects_segment_file_range_past_image() {
    let mut image = fixture(1, VM_PROT_READ | VM_PROT_EXECUTE, 0x100);
    image[80..88].copy_from_slice(&0x2000u64.to_le_bytes());
    assert_eq!(
        plan_executable(&image, CpuType::X86_64),
        Err(LoaderError::SegmentFileOutOfBounds { index: 0 })
    );
}

#[test]
fn rejects_segment_protection_above_maximum() {
    let mut image = fixture(1, VM_PROT_READ | VM_PROT_EXECUTE, 0x100);
    image[88..92].copy_from_slice(&VM_PROT_READ.to_le_bytes());
    assert_eq!(
        plan_executable(&image, CpuType::X86_64),
        Err(LoaderError::SegmentProtectionEscalation { index: 0 })
    );
}
