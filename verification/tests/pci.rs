use awos::pci::{PciAddress, PciBaseClass, PciClassCode, PciDeviceIdentity};

#[test]
fn rejects_invalid_device_or_function_numbers() {
    assert!(PciAddress::new(0, 0, 31, 7).is_some());
    assert!(PciAddress::new(0, 0, 32, 0).is_none());
    assert!(PciAddress::new(0, 0, 0, 8).is_none());
}

#[test]
fn computes_standard_pcie_ecam_offsets() {
    let address = PciAddress::new(0, 2, 5, 3).unwrap();
    assert_eq!(
        address.ecam_offset(0x120),
        Some((2_u64 << 20) | (5_u64 << 15) | (3_u64 << 12) | 0x120)
    );
    assert_eq!(address.ecam_offset(0x1000), None);
}

#[test]
fn classifies_boot_critical_standard_controllers() {
    assert!(PciClassCode::new(0x01, 0x08, 0x02).is_nvme());
    assert!(PciClassCode::new(0x01, 0x06, 0x01).is_ahci());
    assert!(PciClassCode::new(0x0c, 0x03, 0x30).is_xhci());
    assert!(PciClassCode::new(0x04, 0x03, 0x00).is_hda());
}

#[test]
fn keeps_unknown_classes_forward_compatible() {
    assert_eq!(
        PciClassCode::new(0xff, 0, 0).base_class(),
        PciBaseClass::Other(0xff)
    );
}

#[test]
fn classifies_other_controllers_and_absent_devices() {
    assert_eq!(
        PciClassCode::new(0x01, 0x08, 0x02).base_class(),
        PciBaseClass::MassStorage
    );
    assert!(!PciClassCode::new(0x01, 0x08, 0x01).is_nvme());
    let absent = PciDeviceIdentity {
        vendor_id: 0xffff,
        device_id: 0xffff,
        subsystem_vendor_id: None,
        subsystem_device_id: None,
        class: PciClassCode::new(0xff, 0xff, 0xff),
    };
    assert!(!absent.is_present());
}
