use awos::acpi::{
    declared_length, validate_madt, validate_mcfg, validate_rsdp, validate_sdt, InterruptFlags,
    MadtEntry, MadtError, McfgError, Polarity, RsdpError, SdtError, TriggerMode, MADT_HEADER_LEN,
    MADT_ISA_BUS, MCFG_ALLOCATION_LEN, MCFG_HEADER_LEN, RSDP_V1_LEN, RSDP_V2_MIN_LEN,
};

const RSDP_SIGNATURE: &[u8; 8] = b"RSD PTR ";

fn checksum(bytes: &[u8]) -> u8 {
    bytes.iter().fold(0_u8, |sum, byte| sum.wrapping_add(*byte))
}

fn set_checksum(bytes: &mut [u8], checksum_offset: usize, length: usize) {
    bytes[checksum_offset] = 0;
    let sum = checksum(&bytes[..length]);
    bytes[checksum_offset] = 0_u8.wrapping_sub(sum);
}

fn valid_v2_rsdp() -> [u8; RSDP_V2_MIN_LEN] {
    let mut rsdp = [0_u8; RSDP_V2_MIN_LEN];
    rsdp[..8].copy_from_slice(RSDP_SIGNATURE);
    rsdp[9..15].copy_from_slice(b"AWOS  ");
    rsdp[15] = 2;
    rsdp[16..20].copy_from_slice(&0x1234_5000_u32.to_le_bytes());
    rsdp[20..24].copy_from_slice(&(RSDP_V2_MIN_LEN as u32).to_le_bytes());
    rsdp[24..32].copy_from_slice(&0x1234_5678_9abc_d000_u64.to_le_bytes());
    set_checksum(&mut rsdp, 8, RSDP_V1_LEN);
    set_checksum(&mut rsdp, 32, RSDP_V2_MIN_LEN);
    rsdp
}

fn valid_mcfg() -> [u8; MCFG_HEADER_LEN + MCFG_ALLOCATION_LEN] {
    let mut table = [0_u8; MCFG_HEADER_LEN + MCFG_ALLOCATION_LEN];
    table[..4].copy_from_slice(b"MCFG");
    let table_len = table.len();
    table[4..8].copy_from_slice(&(table_len as u32).to_le_bytes());
    table[8] = 1;
    table[10..16].copy_from_slice(b"AWOS  ");
    table[16..24].copy_from_slice(b"GENERIC ");

    let entry = &mut table[MCFG_HEADER_LEN..];
    entry[0..8].copy_from_slice(&0xe000_0000_u64.to_le_bytes());
    entry[8..10].copy_from_slice(&0_u16.to_le_bytes());
    entry[10] = 0;
    entry[11] = 0xff;

    set_checksum(&mut table, 9, table_len);
    table
}

#[test]
fn accepts_valid_v2_rsdp() {
    let rsdp = valid_v2_rsdp();
    let info = validate_rsdp(&rsdp).expect("valid RSDP must parse");

    assert_eq!(info.revision, 2);
    assert_eq!(info.length, RSDP_V2_MIN_LEN);
    assert_eq!(info.rsdt_address, 0x1234_5000);
    assert_eq!(info.xsdt_address, Some(0x1234_5678_9abc_d000));
}

#[test]
fn rejects_bad_signature() {
    let mut rsdp = valid_v2_rsdp();
    rsdp[0] = b'X';
    assert_eq!(validate_rsdp(&rsdp), Err(RsdpError::InvalidSignature));
}

#[test]
fn rejects_bad_v1_checksum() {
    let mut rsdp = valid_v2_rsdp();
    rsdp[10] ^= 1;
    assert_eq!(validate_rsdp(&rsdp), Err(RsdpError::InvalidChecksum));
}

#[test]
fn rejects_bad_extended_checksum() {
    let mut rsdp = valid_v2_rsdp();
    rsdp[35] ^= 1;
    assert_eq!(
        validate_rsdp(&rsdp),
        Err(RsdpError::InvalidExtendedChecksum)
    );
}

#[test]
fn rejects_unreasonable_declared_length() {
    let mut rsdp = valid_v2_rsdp();
    rsdp[20..24].copy_from_slice(&8_u32.to_le_bytes());
    set_checksum(&mut rsdp, 8, RSDP_V1_LEN);
    assert_eq!(validate_rsdp(&rsdp), Err(RsdpError::InvalidLength));
}

#[test]
fn validates_sdt_checksum_and_length() {
    let table = valid_mcfg();
    let header = validate_sdt(&table).expect("valid SDT must parse");
    assert_eq!(header.signature, *b"MCFG");
    assert_eq!(header.length, table.len());
}

#[test]
fn parses_mcfg_ecam_allocation() {
    let table = valid_mcfg();
    let mcfg = validate_mcfg(&table).expect("valid MCFG must parse");
    let allocation = mcfg.allocations().into_iter().next().expect("one allocation");
    assert_eq!(allocation.base_address, 0xe000_0000);
    assert_eq!(allocation.segment_group, 0);
    assert_eq!(allocation.start_bus, 0);
    assert_eq!(allocation.end_bus, 0xff);
    assert_eq!(
        allocation.ecam_address(2, 5, 3, 0x120),
        Some(0xe000_0000 + (2_u64 << 20) + (5_u64 << 15) + (3_u64 << 12) + 0x120)
    );
}

/// A MADT shaped like the one QEMU's q35 machine publishes: one local APIC,
/// one I/O APIC at the conventional address, and the IRQ 0 -> GSI 2
/// override that makes the timer arrive on a different pin than its IRQ
/// number suggests.
fn valid_madt() -> [u8; MADT_HEADER_LEN + 8 + 12 + 10 + 10] {
    let mut table = [0_u8; MADT_HEADER_LEN + 8 + 12 + 10 + 10];
    table[..4].copy_from_slice(b"APIC");
    let table_len = table.len();
    table[4..8].copy_from_slice(&(table_len as u32).to_le_bytes());
    table[8] = 5;
    table[10..16].copy_from_slice(b"AWOS  ");
    table[36..40].copy_from_slice(&0xfee0_0000_u32.to_le_bytes());
    // PCAT_COMPAT: the legacy 8259 pair is present and must be masked.
    table[40..44].copy_from_slice(&1_u32.to_le_bytes());

    let mut at = MADT_HEADER_LEN;
    // Processor local APIC, enabled.
    table[at] = 0;
    table[at + 1] = 8;
    table[at + 2] = 1;
    table[at + 3] = 0;
    table[at + 4..at + 8].copy_from_slice(&1_u32.to_le_bytes());
    at += 8;

    // I/O APIC 0 at 0xfec00000, covering GSI 0 upwards.
    table[at] = 1;
    table[at + 1] = 12;
    table[at + 2] = 0;
    table[at + 4..at + 8].copy_from_slice(&0xfec0_0000_u32.to_le_bytes());
    table[at + 8..at + 12].copy_from_slice(&0_u32.to_le_bytes());
    at += 12;

    // ISA IRQ 0 is really delivered on GSI 2, bus-default polarity/trigger.
    table[at] = 2;
    table[at + 1] = 10;
    table[at + 2] = MADT_ISA_BUS;
    table[at + 3] = 0;
    table[at + 4..at + 8].copy_from_slice(&2_u32.to_le_bytes());
    table[at + 8..at + 10].copy_from_slice(&0_u16.to_le_bytes());
    at += 10;

    // ISA IRQ 9 (the ACPI SCI) is level triggered and active low.
    table[at] = 2;
    table[at + 1] = 10;
    table[at + 2] = MADT_ISA_BUS;
    table[at + 3] = 9;
    table[at + 4..at + 8].copy_from_slice(&9_u32.to_le_bytes());
    table[at + 8..at + 10].copy_from_slice(&0b1111_u16.to_le_bytes());

    set_checksum(&mut table, 9, table_len);
    table
}

#[test]
fn parses_madt_header_and_entry_list() {
    let table = valid_madt();
    let madt = validate_madt(&table).expect("valid MADT must parse");

    assert_eq!(madt.local_apic_address(), 0xfee0_0000);
    assert!(madt.dual_8259_present());

    let mut entries = madt.entries().into_iter();
    assert_eq!(
        entries.next(),
        Some(MadtEntry::LocalApic {
            processor_uid: 1,
            apic_id: 0,
            flags: 1,
        })
    );
    assert_eq!(
        entries.next(),
        Some(MadtEntry::IoApic {
            id: 0,
            address: 0xfec0_0000,
            gsi_base: 0,
        })
    );
    assert_eq!(madt.entries().len(), 4);
}

#[test]
fn resolves_overridden_and_identity_mapped_isa_irqs() {
    let table = valid_madt();
    let madt = validate_madt(&table).expect("valid MADT must parse");

    // The timer: overridden onto another pin, bus-default electrical spec.
    assert_eq!(
        madt.resolve_isa_irq(0),
        (2, Polarity::ConformsToBus, TriggerMode::ConformsToBus)
    );
    // The SCI: overridden and explicitly level/low.
    assert_eq!(
        madt.resolve_isa_irq(9),
        (9, Polarity::ActiveLow, TriggerMode::Level)
    );
    // Everything without an override stays identity mapped.
    assert_eq!(
        madt.resolve_isa_irq(4),
        (4, Polarity::ConformsToBus, TriggerMode::ConformsToBus)
    );
}

#[test]
fn locates_the_io_apic_owning_a_global_system_interrupt() {
    let table = valid_madt();
    let madt = validate_madt(&table).expect("valid MADT must parse");

    assert_eq!(madt.io_apic_for_gsi(2), Some((0, 0xfec0_0000, 2)));
}

#[test]
fn rejects_madt_with_a_zero_length_entry() {
    let mut table = valid_madt();
    table[MADT_HEADER_LEN + 1] = 0;
    let table_len = table.len();
    set_checksum(&mut table, 9, table_len);

    assert_eq!(validate_madt(&table), Err(MadtError::ZeroLengthEntry));
}

#[test]
fn rejects_madt_entry_that_runs_past_the_table() {
    let mut table = valid_madt();
    table[MADT_HEADER_LEN + 1] = 0xff;
    let table_len = table.len();
    set_checksum(&mut table, 9, table_len);

    assert_eq!(validate_madt(&table), Err(MadtError::EntryOutOfBounds));
}

#[test]
fn rejects_io_apic_entry_too_short_for_its_type() {
    let mut table = valid_madt();
    // Shrink the I/O APIC entry to 4 bytes and absorb the difference into
    // the following entry, so only the per-type length rule can catch it.
    let io_apic = MADT_HEADER_LEN + 8;
    table[io_apic + 1] = 4;
    table[io_apic + 4] = 0x7f;
    table[io_apic + 5] = 8;
    let table_len = table.len();
    set_checksum(&mut table, 9, table_len);

    assert_eq!(validate_madt(&table), Err(MadtError::EntryTooShortForType));
}

#[test]
fn rejects_madt_with_a_foreign_signature() {
    let mut table = valid_madt();
    table[..4].copy_from_slice(b"MCFG");
    let table_len = table.len();
    set_checksum(&mut table, 9, table_len);

    assert_eq!(validate_madt(&table), Err(MadtError::InvalidSignature));
}

#[test]
fn rejects_mcfg_with_invalid_bus_range() {
    let mut table = valid_mcfg();
    table[MCFG_HEADER_LEN + 10] = 10;
    table[MCFG_HEADER_LEN + 11] = 2;
    let table_len = table.len();
    set_checksum(&mut table, 9, table_len);
    assert!(matches!(
        validate_mcfg(&table),
        Err(McfgError::InvalidBusRange)
    ));
}

#[test]
fn declared_length_reads_the_v2_length_field() {
    let rsdp = valid_v2_rsdp();
    assert_eq!(declared_length(&rsdp[..RSDP_V1_LEN]), Err(RsdpError::TooShort));
    assert_eq!(declared_length(&rsdp[..24]), Ok(RSDP_V2_MIN_LEN));
    assert_eq!(declared_length(&rsdp), Ok(RSDP_V2_MIN_LEN));
    let mut v1 = rsdp;
    v1[15] = 0;
    set_checksum(&mut v1, 8, RSDP_V1_LEN);
    assert_eq!(declared_length(&v1[..RSDP_V1_LEN]), Ok(RSDP_V1_LEN));
    assert_eq!(declared_length(&rsdp[..4]), Err(RsdpError::TooShort));
}

#[test]
fn sdt_rejects_short_and_corrupt_tables() {
    let table = valid_mcfg();
    assert_eq!(validate_sdt(&table[..10]), Err(SdtError::TooShort));
    let mut corrupt = table;
    corrupt[20] ^= 0x40;
    assert_eq!(validate_sdt(&corrupt), Err(SdtError::InvalidChecksum));
}

#[test]
fn interrupt_flags_decode_polarity_and_trigger() {
    assert_eq!(InterruptFlags(0b0000).polarity(), Polarity::ConformsToBus);
    assert_eq!(InterruptFlags(0b0001).polarity(), Polarity::ActiveHigh);
    assert_eq!(InterruptFlags(0b0011).polarity(), Polarity::ActiveLow);
    assert_eq!(InterruptFlags(0b0100).trigger_mode(), TriggerMode::Edge);
    assert_eq!(InterruptFlags(0b1100).trigger_mode(), TriggerMode::Level);
    let allocation = validate_mcfg(&valid_mcfg()).unwrap().allocations()[0];
    assert!(allocation.contains_bus(0x10));
    assert_eq!(allocation.ecam_address(0, 32, 0, 0), None);
}

fn two_io_apic_madt() -> [u8; MADT_HEADER_LEN + 12 + 12] {
    let mut table = [0_u8; MADT_HEADER_LEN + 12 + 12];
    table[..4].copy_from_slice(b"APIC");
    let table_len = table.len();
    table[4..8].copy_from_slice(&(table_len as u32).to_le_bytes());
    table[8] = 5;
    table[36..40].copy_from_slice(&0xfee0_0000_u32.to_le_bytes());
    let mut at = MADT_HEADER_LEN;
    for (id, address, base) in [(0_u8, 0xfec0_0000_u32, 0_u32), (1, 0xfec1_0000, 24)] {
        table[at] = 1;
        table[at + 1] = 12;
        table[at + 2] = id;
        table[at + 4..at + 8].copy_from_slice(&address.to_le_bytes());
        table[at + 8..at + 12].copy_from_slice(&base.to_le_bytes());
        at += 12;
    }
    set_checksum(&mut table, 9, table_len);
    table
}

#[test]
fn picks_the_io_apic_whose_window_covers_the_interrupt() {
    let table = two_io_apic_madt();
    let madt = validate_madt(&table).expect("valid MADT must parse");
    assert_eq!(madt.io_apic_for_gsi(30), Some((1, 0xfec1_0000, 6)));
    assert_eq!(madt.io_apic_for_gsi(23), Some((0, 0xfec0_0000, 23)));
    assert_eq!(madt.io_apic_for_gsi(24), Some((1, 0xfec1_0000, 0)));
}
