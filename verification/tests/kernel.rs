use awos::abi::capability;
use awos::abi::{AccessibilityContract, BootInfo, BootPhase};
use awos::kernel::{BringUpError, KernelFoundation};

#[test]
fn refuses_boot_without_required_accessibility() {
    let info = BootInfo::new(
        BootPhase::Bootloader,
        AccessibilityContract::new(
            capability::KEYBOARD_INPUT | capability::SPEECH_OUTPUT,
            capability::KEYBOARD_INPUT,
        ),
    );
    let mut kernel = KernelFoundation::new();
    assert_eq!(
        kernel.accept_boot_info(&info),
        Err(BringUpError::AccessibilityContractUnsatisfied {
            missing: capability::SPEECH_OUTPUT,
        })
    );
}

#[test]
fn accepts_valid_accessible_transition() {
    let required = capability::KEYBOARD_INPUT | capability::SPEECH_OUTPUT;
    let info = BootInfo::new(
        BootPhase::Bootloader,
        AccessibilityContract::new(required, required),
    );
    let mut kernel = KernelFoundation::new();
    assert_eq!(kernel.accept_boot_info(&info), Ok(()));
    assert!(kernel.boot_contract_verified());
}
