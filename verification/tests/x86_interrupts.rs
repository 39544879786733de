use awos::x86_interrupts::{
    exception_name, exception_pushes_error_code, DescriptorTablePointer,
    DescriptorTablePointerError, GateType, GdtEntry, IdtEntry, IdtEntryError, PrivilegeLevel,
    SegmentSelector, IDT_ENTRY_COUNT, MAX_SELECTOR_INDEX,
};

#[test]
fn segment_selector_encodes_index_and_privilege_level() {
    let selector = SegmentSelector::new(1, PrivilegeLevel::Ring0).unwrap();
    assert_eq!(selector.raw(), 0x08);
    assert_eq!(selector.index(), 1);

    let selector = SegmentSelector::new(2, PrivilegeLevel::Ring3).unwrap();
    assert_eq!(selector.raw(), 0x13);
    assert_eq!(selector.index(), 2);
}

#[test]
fn segment_selector_rejects_out_of_range_index() {
    assert!(
        SegmentSelector::new(MAX_SELECTOR_INDEX + 1, PrivilegeLevel::Ring0).is_none()
    );
    assert!(SegmentSelector::new(MAX_SELECTOR_INDEX, PrivilegeLevel::Ring0).is_some());
}

#[test]
fn null_gdt_entry_is_not_present() {
    assert_eq!(GdtEntry::null().raw(), 0);
    assert!(!GdtEntry::null().is_present());
}

#[test]
fn code64_descriptor_matches_known_long_mode_bit_pattern() {
    // Reference bit pattern for a flat ring-0 64-bit code segment:
    // present | type=code/data | readable | executable | long-mode.
    let expected = (1u64 << 47) | (1u64 << 44) | (1u64 << 41) | (1u64 << 43) | (1u64 << 53);
    assert_eq!(GdtEntry::code64(PrivilegeLevel::Ring0).raw(), expected);
    assert!(GdtEntry::code64(PrivilegeLevel::Ring0).is_present());
}

#[test]
fn data64_descriptor_matches_known_long_mode_bit_pattern() {
    let expected = (1u64 << 47) | (1u64 << 44) | (1u64 << 41);
    assert_eq!(GdtEntry::data64(PrivilegeLevel::Ring0).raw(), expected);
}

#[test]
fn ring3_descriptors_set_the_dpl_bits() {
    let code = GdtEntry::code64(PrivilegeLevel::Ring3).raw();
    let dpl = (code >> 45) & 0b11;
    assert_eq!(dpl, 3);
}

#[test]
fn idt_entry_round_trips_a_64_bit_handler_address() {
    let selector = SegmentSelector::new(1, PrivilegeLevel::Ring0).unwrap();
    let handler_address = 0xffff_8000_1234_5678;
    let entry = IdtEntry::new(
        handler_address,
        selector,
        GateType::Interrupt,
        PrivilegeLevel::Ring0,
        0,
    )
    .unwrap();

    assert_eq!(entry.handler_address(), handler_address);
    assert_eq!(entry.selector(), selector);
    assert!(entry.is_present());
    assert_eq!(entry.interrupt_stack_table_index(), 0);
}

#[test]
fn idt_entry_rejects_out_of_range_ist_index() {
    let selector = SegmentSelector::new(1, PrivilegeLevel::Ring0).unwrap();
    assert_eq!(
        IdtEntry::new(0, selector, GateType::Interrupt, PrivilegeLevel::Ring0, 8),
        Err(IdtEntryError::InvalidInterruptStackTableIndex)
    );
    assert!(IdtEntry::new(0, selector, GateType::Interrupt, PrivilegeLevel::Ring0, 7).is_ok());
}

#[test]
fn missing_idt_entry_is_not_present() {
    assert!(!IdtEntry::missing().is_present());
    assert_eq!(IdtEntry::missing().handler_address(), 0);
}

#[test]
fn trap_and_interrupt_gates_use_distinct_type_bits() {
    let selector = SegmentSelector::new(1, PrivilegeLevel::Ring0).unwrap();
    let interrupt = IdtEntry::new(0, selector, GateType::Interrupt, PrivilegeLevel::Ring0, 0)
        .unwrap()
        .type_attributes();
    let trap = IdtEntry::new(0, selector, GateType::Trap, PrivilegeLevel::Ring0, 0)
        .unwrap()
        .type_attributes();
    assert_ne!(interrupt & 0b1111, trap & 0b1111);
}

#[test]
fn descriptor_table_pointer_computes_limit_as_size_minus_one() {
    let pointer = DescriptorTablePointer::new(0x1000, 3, 8).unwrap();
    assert_eq!(pointer.limit(), 3 * 8 - 1);
    assert_eq!(pointer.base(), 0x1000);
}

#[test]
fn descriptor_table_pointer_rejects_empty_table() {
    assert_eq!(
        DescriptorTablePointer::new(0x1000, 0, 8),
        Err(DescriptorTablePointerError::EmptyTable)
    );
}

#[test]
fn descriptor_table_pointer_rejects_overflowing_limit() {
    assert_eq!(
        DescriptorTablePointer::new(0x1000, IDT_ENTRY_COUNT + 1, 4096),
        Err(DescriptorTablePointerError::TableTooLarge)
    );
}

#[test]
fn full_idt_size_fits_in_a_16_bit_limit() {
    assert!(DescriptorTablePointer::new(0x1000, IDT_ENTRY_COUNT, 16).is_ok());
}

#[test]
fn error_code_classification_matches_the_architectural_table() {
    for vector in 0..=31u8 {
        let expected = matches!(vector, 8 | 10 | 11 | 12 | 13 | 14 | 17 | 21 | 29 | 30);
        assert_eq!(exception_pushes_error_code(vector), expected);
    }
    assert!(!exception_pushes_error_code(32));
    assert!(!exception_pushes_error_code(255));
}

#[test]
fn every_reserved_exception_vector_has_a_name() {
    for vector in 0..=31u8 {
        assert!(!exception_name(vector).is_empty());
    }
    assert_eq!(exception_name(32), "external-interrupt");
}
