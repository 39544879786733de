use awos::x86_interrupts::ioapic::{DeliveryMode, PinTrigger};
use awos::x86_interrupts::msi::{MsiError, MsiMessage};

#[test]
fn encodes_a_fixed_edge_message_to_the_bootstrap_processor() {
    let message = MsiMessage::physical(0, 0x51, DeliveryMode::Fixed, PinTrigger::Edge)
        .expect("device vector is valid");

    assert_eq!(message.address, 0xfee0_0000);
    assert_eq!(message.data, 0x0000_0051);
    assert_eq!(message.destination_apic_id(), 0);
    assert_eq!(message.vector(), 0x51);
    assert!(!message.is_logical_destination());
    assert!(!message.uses_redirection_hint());
    assert_eq!(message.address_high(), 0);
}

#[test]
fn destination_apic_id_lands_in_the_address_not_the_data() {
    let message = MsiMessage::physical(3, 0x60, DeliveryMode::Fixed, PinTrigger::Edge)
        .expect("valid message");

    assert_eq!(message.address, 0xfee0_3000);
    assert_eq!(message.data, 0x0000_0060);
}

#[test]
fn level_triggered_messages_set_both_level_and_assert() {
    let message = MsiMessage::physical(0, 0x52, DeliveryMode::Fixed, PinTrigger::Level)
        .expect("valid message");

    assert_eq!(message.data, 0x0000_c052);
}

#[test]
fn rejects_vectors_reserved_for_cpu_exceptions() {
    assert_eq!(
        MsiMessage::physical(0, 14, DeliveryMode::Fixed, PinTrigger::Edge),
        Err(MsiError::VectorOutOfRange)
    );
    assert_eq!(
        MsiMessage::physical(0, 0xff, DeliveryMode::Fixed, PinTrigger::Edge),
        Err(MsiError::VectorOutOfRange)
    );
}

#[test]
fn msi_nmi_delivery_must_not_carry_a_vector() {
    assert_eq!(
        MsiMessage::physical(0, 0x50, DeliveryMode::Nmi, PinTrigger::Edge),
        Err(MsiError::VectorNotAllowedForDeliveryMode)
    );
    assert!(MsiMessage::physical(0, 0, DeliveryMode::Nmi, PinTrigger::Edge).is_ok());
}
