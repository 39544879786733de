use awos::abi::capability;
use awos::abi::{AccessibilityContract, BootInfo, BootPhase, HumanIoContract};
use awos::abi::human_io;
use awos::accessibility::{AccessibilityState, STRICT_BOOT_REQUIREMENTS};

#[test]
fn detects_missing_accessibility_capabilities() {
    let contract = AccessibilityContract::new(
        capability::KEYBOARD_INPUT | capability::SPEECH_OUTPUT,
        capability::KEYBOARD_INPUT,
    );
    assert_eq!(contract.missing(), capability::SPEECH_OUTPUT);
    assert!(!contract.is_satisfied());
}

#[test]
fn validates_v1_boot_info() {
    let info = BootInfo::new(
        BootPhase::Bootloader,
        AccessibilityContract::new(capability::KEYBOARD_INPUT, capability::KEYBOARD_INPUT),
    );
    assert!(info.is_valid_v1());
}

#[test]
fn capabilities_are_never_assumed() {
    let state = AccessibilityState::new(BootPhase::Firmware);
    assert_eq!(state.available(), 0);
    assert_eq!(state.strict_contract().missing(), STRICT_BOOT_REQUIREMENTS);
}

#[test]
fn observed_capabilities_survive_phase_change() {
    let mut state = AccessibilityState::new(BootPhase::Firmware);
    state.observe(capability::KEYBOARD_INPUT | capability::SPEECH_OUTPUT);
    state.advance_to(BootPhase::Bootloader);
    assert_eq!(state.phase(), BootPhase::Bootloader);
    assert!(state.strict_contract().is_satisfied());
}

#[test]
fn strict_requirements_are_keyboard_and_speech() {
    assert_eq!(
        STRICT_BOOT_REQUIREMENTS,
        capability::KEYBOARD_INPUT | capability::SPEECH_OUTPUT
    );
    let contract = AccessibilityContract::new(STRICT_BOOT_REQUIREMENTS, capability::BRAILLE_OUTPUT);
    assert_eq!(contract.missing(), STRICT_BOOT_REQUIREMENTS);
}

#[test]
fn human_io_requires_every_mandatory_and_one_optional_channel() {
    let contract = HumanIoContract::new(
        human_io::KEYBOARD_INPUT,
        human_io::SPEECH_OUTPUT | human_io::BRAILLE_OUTPUT,
        human_io::KEYBOARD_INPUT | human_io::BRAILLE_OUTPUT,
    );
    assert_eq!(contract.missing_all(), 0);
    assert!(contract.is_satisfied());
    let contract = HumanIoContract::new(
        human_io::KEYBOARD_INPUT,
        human_io::SPEECH_OUTPUT | human_io::BRAILLE_OUTPUT,
        human_io::KEYBOARD_INPUT,
    );
    assert!(!contract.is_satisfied());
}
