use awos::macho::{
    parse_mach_o_64, select_mach_o_64, validate_main_executable, CpuType, MachFileType,
    ParseError, FAT_MAGIC, MH_ALLOW_STACK_EXECUTION, MH_EXECUTE, MH_MAGIC_64,
};


fn push_le(value: u32, out: &mut Vec<u8>) {
    out.extend_from_slice(&value.to_le_bytes());
}

fn push_be(value: u32, out: &mut Vec<u8>) {
    out.extend_from_slice(&value.to_be_bytes());
}

fn thin(cpu: CpuType, flags: u32) -> Vec<u8> {
    let mut out = Vec::new();
    push_le(MH_MAGIC_64, &mut out);
    push_le(cpu.raw(), &mut out);
    push_le(0, &mut out);
    push_le(MH_EXECUTE, &mut out);
    push_le(1, &mut out);
    push_le(8, &mut out);
    push_le(flags, &mut out);
    push_le(0, &mut out);
    push_le(0x2, &mut out);
    push_le(8, &mut out);
    out
}

fn fat_two(x86: &[u8], arm: &[u8]) -> Vec<u8> {
    let x86_offset = 48u32;
    let arm_offset = x86_offset + x86.len() as u32;
    assert!(x86_offset % 4 == 0);
    assert!(arm_offset % 4 == 0);

    let mut out = Vec::new();
    push_be(FAT_MAGIC, &mut out);
    push_be(2, &mut out);
    push_be(CpuType::X86_64.raw(), &mut out);
    push_be(0, &mut out);
    push_be(x86_offset, &mut out);
    push_be(x86.len() as u32, &mut out);
    push_be(2, &mut out);
    push_be(CpuType::Arm64.raw(), &mut out);
    push_be(0, &mut out);
    push_be(arm_offset, &mut out);
    push_be(arm.len() as u32, &mut out);
    push_be(2, &mut out);
    out.extend_from_slice(x86);
    out.extend_from_slice(arm);
    out
}

#[test]
fn parses_bounded_x86_64_thin_image() {
    let image = thin(CpuType::X86_64, 0);
    let parsed = parse_mach_o_64(&image).unwrap();
    assert_eq!(parsed.cpu, CpuType::X86_64);
    assert_eq!(parsed.file_type, MachFileType::Execute);
    assert_eq!(parsed.command_count, 1);
    assert_eq!(parsed.command_bytes, 8);
    assert_eq!(validate_main_executable(parsed), Ok(()));
}

#[test]
fn rejects_executable_stack_request() {
    let image = thin(CpuType::Arm64, MH_ALLOW_STACK_EXECUTION);
    let parsed = parse_mach_o_64(&image).unwrap();
    assert_eq!(
        validate_main_executable(parsed),
        Err(ParseError::ExecutableStackRequested)
    );
}

#[test]
fn rejects_command_region_past_end_of_file() {
    let mut image = thin(CpuType::X86_64, 0);
    image[20..24].copy_from_slice(&16u32.to_le_bytes());
    assert_eq!(
        parse_mach_o_64(&image),
        Err(ParseError::LoadCommandsOutOfBounds)
    );
}

#[test]
fn rejects_misaligned_load_command_size() {
    let mut image = thin(CpuType::X86_64, 0);
    image.extend_from_slice(&[0; 4]);
    image[20..24].copy_from_slice(&12u32.to_le_bytes());
    image[36..40].copy_from_slice(&12u32.to_le_bytes());
    assert_eq!(
        parse_mach_o_64(&image),
        Err(ParseError::LoadCommandMisaligned { index: 0, size: 12 })
    );
}

#[test]
fn selects_arm64_from_fat_wrapper() {
    let x86 = thin(CpuType::X86_64, 0);
    let arm = thin(CpuType::Arm64, 0);
    let fat = fat_two(&x86, &arm);
    let selected = select_mach_o_64(&fat, CpuType::Arm64).unwrap();
    assert_eq!(selected.header.cpu, CpuType::Arm64);
    assert_eq!(selected.offset, 48 + x86.len());
    assert_eq!(selected.size, arm.len());
}

#[test]
fn rejects_overlapping_fat_slices() {
    let x86 = thin(CpuType::X86_64, 0);
    let arm = thin(CpuType::Arm64, 0);
    let mut fat = fat_two(&x86, &arm);
    fat[36..40].copy_from_slice(&52u32.to_be_bytes());
    assert_eq!(
        select_mach_o_64(&fat, CpuType::Arm64),
        Err(ParseError::FatSlicesOverlap {
            first: 0,
            second: 1
        })
    );
}

#[test]
fn rejects_fat_entry_that_lies_about_its_cpu() {
    let x86 = thin(CpuType::X86_64, 0);
    let arm = thin(CpuType::Arm64, 0);
    let mut fat = fat_two(&x86, &arm);
    fat[28..32].copy_from_slice(&CpuType::X86_64.raw().to_be_bytes());
    assert_eq!(
        select_mach_o_64(&fat, CpuType::X86_64),
        Err(ParseError::AmbiguousArchitecture(CpuType::X86_64))
    );
}

#[test]
fn thin_image_is_selected_whole() {
    let arm = thin(CpuType::Arm64, 0);
    let selected = select_mach_o_64(&arm, CpuType::Arm64).unwrap();
    assert_eq!(selected.offset, 0);
    assert_eq!(selected.size, arm.len());
    assert_eq!(
        select_mach_o_64(&arm, CpuType::X86_64),
        Err(ParseError::RequestedArchitectureMissing(CpuType::X86_64))
    );
}
