use awos::acpi::{RsdpInfo, SdtError};
use awos::firmware::boot_review::{
    boot_screen, classify, screen_line, utterance, Command, ContinueKey, Review, ReviewEffect,
};
use awos::firmware::keys::KeyPress;
use awos::firmware::loader::{
    acpi_root, framebuffer_handoff, is_mcfg, kernel_placement, normalize_memory_map,
    root_entries, rsdp_probe_len, sdt_address, sdt_read_len, select_rsdp, ConfigTable, FileRead,
    FirmwareDescriptor, GopPixelFormat, RootTable, RootTableError,
};
use awos::firmware::setup_speech::{spell_plan, spelling_sound, SpellSound, SpellStep};
use awos::firmware::sound::{divisor_bytes, tone_divisor, CUE_ENTER_HZ, CUE_MOVE_HZ};
use awos::kernel_core::image::AwknImageHeader;
use awos::kernel_core::HandoffPixelFormat;
use awos::screen_reader::semantics::Role;

#[test]
fn boot_screen_reads_five_lines_with_the_real_display() {
    let display = "Display 1280 by 800";
    let screen = boot_screen(display);
    assert_eq!(screen.len(), 5);
    assert_eq!(screen[0].name, "Accessible Windows");
    assert_eq!(screen[0].role, Role::Window);
    assert_eq!(screen[3].name, display);
    assert_eq!(screen[4].name, "Loading the operating system");
    let mut buffer = [0u8; 128];
    assert_eq!(utterance(&screen[0], &mut buffer), Some("Accessible Windows, window"));
    let mut buffer = [0u8; 128];
    assert_eq!(utterance(&screen[2], &mut buffer), Some("Starting Accessible Windows"));
    let silent = screen_line(9, Role::StaticText, "");
    let mut buffer = [0u8; 128];
    assert_eq!(utterance(&silent, &mut buffer), None);
}

#[test]
fn boot_screen_keys_review_or_continue() {
    assert_eq!(classify(KeyPress::Special(0x02)), Command::Next);
    assert_eq!(classify(KeyPress::Special(0x01)), Command::Previous);
    assert_eq!(classify(KeyPress::Special(0x17)), Command::Continue(ContinueKey::Escape));
    assert_eq!(classify(KeyPress::Printable(0x0d)), Command::Continue(ContinueKey::Enter));
    assert_eq!(classify(KeyPress::Printable(0x09)), Command::Next);
    assert_eq!(classify(KeyPress::Printable(0x20)), Command::Ignore);
    assert_eq!(classify(KeyPress::Special(0x0b)), Command::Ignore);
}

#[test]
fn review_starts_on_the_last_line_and_stops_at_the_ends() {
    assert_eq!(Review::start(0), None);
    let mut review = Review::start(5).unwrap();
    assert_eq!(review.cursor, 4);
    assert_eq!(review.step(Command::Next), ReviewEffect::Reread(4));
    assert_eq!(review.step(Command::Previous), ReviewEffect::Reread(3));
    for _ in 0..10 {
        review.step(Command::Previous);
    }
    assert_eq!(review.cursor, 0);
    assert_eq!(review.step(Command::Previous), ReviewEffect::Reread(0));
    assert_eq!(review.step(Command::Ignore), ReviewEffect::Ignored);
    assert_eq!(
        review.step(Command::Continue(ContinueKey::Enter)),
        ReviewEffect::Continue(ContinueKey::Enter)
    );
}

#[test]
fn spelling_covers_letters_digits_and_some_punctuation() {
    assert_eq!(spelling_sound('a'), Some(SpellSound::Letter(b'a')));
    assert_eq!(spelling_sound('Q'), Some(SpellSound::Letter(b'q')));
    assert_eq!(spelling_sound('7'), Some(SpellSound::Digit(7)));
    assert_eq!(spelling_sound('\\'), Some(SpellSound::Slash));
    assert_eq!(spelling_sound('/'), Some(SpellSound::Slash));
    assert_eq!(spelling_sound('_'), Some(SpellSound::Underscore));
    assert_eq!(spelling_sound('!'), None);
    assert_eq!(spelling_sound('é'), None);
    assert_eq!(
        spell_plan("Ab 1!"),
        vec![
            SpellStep::Say(SpellSound::Letter(b'a')),
            SpellStep::Say(SpellSound::Letter(b'b')),
            SpellStep::WordPause,
            SpellStep::Say(SpellSound::Digit(1)),
            SpellStep::ShortPause,
        ]
    );
    assert_eq!(spell_plan(""), vec![]);
    assert_eq!(spell_plan("é\t"), vec![SpellStep::ShortPause, SpellStep::WordPause]);
}

#[test]
fn tones_become_timer_divisors() {
    assert_eq!(tone_divisor(CUE_MOVE_HZ), Some(1807));
    assert_eq!(tone_divisor(CUE_ENTER_HZ), Some(1521));
    assert_eq!(tone_divisor(0), None);
    assert_eq!(tone_divisor(10), None);
    assert_eq!(tone_divisor(2_000_000), None);
    assert_eq!(tone_divisor(19), Some(62799));
    assert_eq!(divisor_bytes(1807), (0x0f, 0x07));
}

#[test]
fn rsdp_prefers_the_acpi2_entry() {
    let tables = [ConfigTable::Other, ConfigTable::Acpi1(0x10), ConfigTable::Acpi2(0x20), ConfigTable::Acpi2(0x30)];
    assert_eq!(select_rsdp(&tables), Some((0x20, 2)));
    assert_eq!(select_rsdp(&[ConfigTable::Acpi1(5), ConfigTable::Other]), Some((5, 1)));
    assert_eq!(select_rsdp(&[ConfigTable::Other]), None);
    assert_eq!(rsdp_probe_len(2), 36);
    assert_eq!(rsdp_probe_len(1), 20);
}

#[test]
fn table_reads_are_bounded() {
    assert_eq!(sdt_address(0), Err(SdtError::InvalidLength));
    assert_eq!(sdt_address(0x7fe1_0000), Ok(0x7fe1_0000));
    let mut header = [0u8; 36];
    header[4..8].copy_from_slice(&40u32.to_le_bytes());
    assert_eq!(sdt_read_len(&header), Ok(40));
    header[4..8].copy_from_slice(&35u32.to_le_bytes());
    assert_eq!(sdt_read_len(&header), Err(SdtError::InvalidLength));
    header[4..8].copy_from_slice(&(2u32 << 20).to_le_bytes());
    assert_eq!(sdt_read_len(&header), Err(SdtError::InvalidLength));
}

#[test]
fn root_table_is_the_xsdt_then_the_rsdt() {
    let rsdp = |rsdt: u32, xsdt: Option<u64>| RsdpInfo { revision: 2, length: 36, rsdt_address: rsdt, xsdt_address: xsdt };
    assert_eq!(
        acpi_root(&rsdp(0x2000, Some(0x1000))),
        Some(RootTable { address: 0x1000, entry_size: 8, extended: true })
    );
    assert_eq!(
        acpi_root(&rsdp(0x2000, Some(0))),
        Some(RootTable { address: 0x2000, entry_size: 4, extended: false })
    );
    assert_eq!(acpi_root(&rsdp(0, None)), None);
}

#[test]
fn root_entries_are_read_after_the_header() {
    let xsdt = RootTable { address: 0x1000, entry_size: 8, extended: true };
    let mut table = b"XSDT".to_vec();
    table.resize(36, 0);
    table.extend_from_slice(&0x7fe1_2000u64.to_le_bytes());
    table.extend_from_slice(&0x1_0000_0000u64.to_le_bytes());
    assert_eq!(root_entries(&table, xsdt), Ok(vec![0x7fe1_2000, 0x1_0000_0000]));
    table.push(0);
    assert_eq!(root_entries(&table, xsdt), Err(RootTableError::EntryAlignment));
    let rsdt = RootTable { address: 0x2000, entry_size: 4, extended: false };
    assert_eq!(root_entries(&table, rsdt), Err(RootTableError::Signature));
    let mut table = b"RSDT".to_vec();
    table.resize(36, 0);
    table.extend_from_slice(&0x1234u32.to_le_bytes());
    assert_eq!(root_entries(&table, rsdt), Ok(vec![0x1234]));
    assert!(is_mcfg(b"MCFG...."));
    assert!(!is_mcfg(b"APIC"));
}

#[test]
fn kernel_file_is_read_until_full_or_dry() {
    let mut read = FileRead::new(10);
    assert!(read.wants_more());
    assert!(read.record(4));
    assert!(read.record(6));
    assert!(!read.wants_more());
    assert!(read.complete());
    let mut short = FileRead::new(10);
    assert!(short.record(3));
    assert!(!short.record(0));
    assert!(!short.complete());
}

#[test]
fn kernel_is_placed_at_its_linked_base() {
    let header = AwknImageHeader {
        load_base: 0x20_0000,
        file_byte_len: 0x3000,
        memory_byte_len: 0x4100,
        entry_point: 0x20_0040,
        bss_offset: 0x3000,
        bss_byte_len: 0x1100,
    };
    let placement = kernel_placement(&header).unwrap();
    assert_eq!(placement.load_address, 0x20_0000);
    assert_eq!(placement.allocation_len, 0x4100);
    assert_eq!(placement.pages, 5);
    assert_eq!(placement.entry_address, 0x20_0040);
}

#[test]
fn framebuffer_needs_a_linear_buffer() {
    assert_eq!(framebuffer_handoff(GopPixelFormat::BltOnly, 0x8000_0000, 0x100, 10, 10, 10), None);
    let fb = framebuffer_handoff(GopPixelFormat::Bgr, 0x8000_0000, 4 * 1280 * 800, 1280, 800, 1280).unwrap();
    assert_eq!(fb.physical_address, 0x8000_0000);
    assert_eq!(fb.byte_len, 4 * 1280 * 800);
    assert_eq!((fb.width, fb.height, fb.stride_pixels), (1280, 800, 1280));
    assert_eq!(fb.pixel_format, HandoffPixelFormat::Bgr);
}

#[test]
fn final_memory_map_is_normalized_or_refused() {
    let good = FirmwareDescriptor { memory_type: 7, physical_start: 0x10_0000, page_count: 16, attributes: 0xf };
    let unaligned = FirmwareDescriptor { physical_start: 0x10_0001, ..good };
    let out = normalize_memory_map(&[good], 4).unwrap();
    assert_eq!(out.len(), 1);
    assert_eq!(out[0].memory_type, 7);
    assert_eq!(out[0].reserved, 0);
    assert_eq!(out[0].page_count, 16);
    assert_eq!(out[0].attributes, 0xf);
    assert!(normalize_memory_map(&[], 4).is_none());
    assert!(normalize_memory_map(&[good, good], 1).is_none());
    assert!(normalize_memory_map(&[good, unaligned], 4).is_none());
}
