use awos::x86_interrupts::ioapic::{
    redirection_entry_count, redirection_registers, DeliveryMode, DestinationMode, PinPolarity,
    PinTrigger, RedirectionEntry, RedirectionEntryError, MAX_REDIRECTION_INDEX,
};

#[test]
fn encodes_a_masked_edge_triggered_fixed_entry() {
    let entry = RedirectionEntry::new(
        0x50,
        DeliveryMode::Fixed,
        DestinationMode::Physical,
        PinPolarity::ActiveHigh,
        PinTrigger::Edge,
        true,
        0,
    )
    .expect("a fixed entry on a device vector is valid");

    assert_eq!(entry.raw(), 0x0000_0000_0001_0050);
    assert!(entry.is_masked());
    assert_eq!(entry.vector(), 0x50);
    assert_eq!(entry.high(), 0);
}

#[test]
fn encodes_level_triggered_active_low_to_a_remote_apic() {
    let entry = RedirectionEntry::new(
        0x51,
        DeliveryMode::LowestPriority,
        DestinationMode::Logical,
        PinPolarity::ActiveLow,
        PinTrigger::Level,
        false,
        0x03,
    )
    .expect("valid entry");

    // vector 0x51, delivery 001, logical, active low, level triggered.
    assert_eq!(entry.low(), 0x0000_a951);
    assert_eq!(entry.high(), 0x0300_0000);
    assert_eq!(entry.destination(), 3);
    assert!(!entry.is_masked());
}

#[test]
fn mask_bit_toggles_without_disturbing_the_rest_of_the_entry() {
    let unmasked = RedirectionEntry::new(
        0x60,
        DeliveryMode::Fixed,
        DestinationMode::Physical,
        PinPolarity::ActiveHigh,
        PinTrigger::Level,
        false,
        1,
    )
    .expect("valid entry");

    let masked = unmasked.with_mask(true);
    assert!(masked.is_masked());
    assert_eq!(masked.with_mask(false), unmasked);
    assert_eq!(masked.raw() & !(1 << 16), unmasked.raw());
}

#[test]
fn rejects_vectors_the_cpu_has_reserved_for_exceptions() {
    for vector in [0_u8, 8, 14, 31] {
        assert_eq!(
            RedirectionEntry::new(
                vector,
                DeliveryMode::Fixed,
                DestinationMode::Physical,
                PinPolarity::ActiveHigh,
                PinTrigger::Edge,
                true,
                0,
            ),
            Err(RedirectionEntryError::VectorOutOfRange)
        );
    }
}

#[test]
fn ioapic_nmi_delivery_must_not_carry_a_vector() {
    assert_eq!(
        RedirectionEntry::new(
            0x50,
            DeliveryMode::Nmi,
            DestinationMode::Physical,
            PinPolarity::ActiveHigh,
            PinTrigger::Edge,
            true,
            0,
        ),
        Err(RedirectionEntryError::VectorNotAllowedForDeliveryMode)
    );

    assert!(
        RedirectionEntry::new(
            0,
            DeliveryMode::Nmi,
            DestinationMode::Physical,
            PinPolarity::ActiveHigh,
            PinTrigger::Edge,
            true,
            0,
        )
        .is_ok()
    );
}

#[test]
fn redirection_registers_are_a_pair_per_entry_and_bounded() {
    assert_eq!(redirection_registers(0), Ok((0x10, 0x11)));
    assert_eq!(redirection_registers(2), Ok((0x14, 0x15)));
    assert_eq!(redirection_registers(23), Ok((0x3e, 0x3f)));
    assert_eq!(
        redirection_registers(MAX_REDIRECTION_INDEX + 1),
        Err(RedirectionEntryError::IndexOutOfRange)
    );
}

#[test]
fn version_register_reports_the_implemented_entry_count() {
    // QEMU's I/O APIC: version 0x20, 24 redirection entries.
    assert_eq!(redirection_entry_count(0x0017_0020), 24);
}

#[test]
fn entry_halves_rebuild_the_same_entry() {
    let entry = RedirectionEntry::new(
        0x51,
        DeliveryMode::LowestPriority,
        DestinationMode::Logical,
        PinPolarity::ActiveLow,
        PinTrigger::Level,
        false,
        0x03,
    )
    .expect("valid entry");
    assert_eq!(RedirectionEntry::from_halves(entry.low(), entry.high()), entry);
    assert!(DeliveryMode::Fixed.uses_vector());
    assert!(!DeliveryMode::Nmi.uses_vector());
}
