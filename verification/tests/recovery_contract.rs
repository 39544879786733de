use awos::recovery_contract::{
    recovery_action_order, required_recovery_capabilities, RecoveryAction, RecoveryCapability,
    RecoveryDiagnosticCode, RecoveryEvent, RecoveryInteractionOutcome, RecoveryKeyboardCommand,
    RecoveryMenuState, RecoveryProbeReport, RecoveryReadinessError, RecoverySeverity,
    RECOVERY_ACTION_COUNT,
};

fn base_report() -> RecoveryProbeReport {
    let mut report = RecoveryProbeReport::new();
    for capability in required_recovery_capabilities() {
        report.mark_passed(capability);
    }
    report
}

#[test]
fn visual_only_recovery_is_rejected() {
    assert_eq!(
        base_report().accessible_ready(),
        Err(RecoveryReadinessError::NoDirectNonVisualOutput)
    );
}

#[test]
fn speech_recovery_is_accepted() {
    let mut report = base_report();
    report.mark_passed(RecoveryCapability::SpeechOutput);
    let ready = report.accessible_ready().unwrap();
    assert!(ready.speech_available());
    assert!(!ready.braille_available());
}

#[test]
fn braille_recovery_is_accepted_without_speech() {
    let mut report = base_report();
    report.mark_passed(RecoveryCapability::BrailleOutput);
    let ready = report.accessible_ready().unwrap();
    assert!(!ready.speech_available());
    assert!(ready.braille_available());
}

#[test]
fn keyboard_is_mandatory_even_with_speech() {
    let mut report = RecoveryProbeReport::new();
    report.mark_passed(RecoveryCapability::StructuredDiagnostics);
    report.mark_passed(RecoveryCapability::SpeechOutput);
    report.mark_passed(RecoveryCapability::RollbackSelection);
    report.mark_passed(RecoveryCapability::SignedReinstall);
    report.mark_passed(RecoveryCapability::DiagnosticExport);
    assert_eq!(
        report.accessible_ready(),
        Err(RecoveryReadinessError::MissingCapability(
            RecoveryCapability::KeyboardInput
        ))
    );
}

#[test]
fn diagnostic_codes_are_stable_machine_readable_values() {
    assert_eq!(RecoveryDiagnosticCode::BootStateCorrupt.code(), 0x1001);
    assert_eq!(RecoveryDiagnosticCode::StorageReadFailed.code(), 0x1201);
    assert_eq!(RecoveryDiagnosticCode::SpeechUnavailable.code(), 0x1403);
}

#[test]
fn one_event_can_feed_visual_speech_braille_and_serial_frontends() {
    let event = RecoveryEvent::new(
        RecoveryDiagnosticCode::RollbackActivated,
        RecoverySeverity::Warning,
        RecoveryAction::BootPreviousGeneration,
        Some(41),
    );
    assert_eq!(event.code().code(), 0x1301);
    assert_eq!(event.action(), RecoveryAction::BootPreviousGeneration);
    assert_eq!(event.generation(), Some(41));
}

#[test]
fn keyboard_action_order_is_stable_and_non_wrapping() {
    assert_eq!(
        recovery_action_order(),
        vec![
            RecoveryAction::RetryCurrentGeneration,
            RecoveryAction::BootPreviousGeneration,
            RecoveryAction::EnterRecovery,
            RecoveryAction::ExportDiagnostics,
            RecoveryAction::ReinstallSignedImage,
            RecoveryAction::PowerOffSafely,
        ]
    );

    let mut menu = RecoveryMenuState::new();
    assert_eq!(menu.selected_action(), RecoveryAction::RetryCurrentGeneration);
    assert_eq!(
        menu.apply(RecoveryKeyboardCommand::Previous),
        RecoveryInteractionOutcome::NoAction
    );
    assert_eq!(
        menu.apply(RecoveryKeyboardCommand::Next),
        RecoveryInteractionOutcome::SelectionChanged(RecoveryAction::BootPreviousGeneration)
    );
}

#[test]
fn signed_reinstall_needs_distinct_confirmation_command() {
    let mut menu = RecoveryMenuState::new();
    for _ in 0..4 {
        let _ = menu.apply(RecoveryKeyboardCommand::Next);
    }
    assert_eq!(menu.selected_action(), RecoveryAction::ReinstallSignedImage);
    assert_eq!(
        menu.apply(RecoveryKeyboardCommand::Activate),
        RecoveryInteractionOutcome::ConfirmationRequired(RecoveryAction::ReinstallSignedImage)
    );
    assert_eq!(
        menu.pending_confirmation(),
        Some(RecoveryAction::ReinstallSignedImage)
    );
    assert_eq!(
        menu.apply(RecoveryKeyboardCommand::Activate),
        RecoveryInteractionOutcome::NoAction
    );
    assert_eq!(
        menu.apply(RecoveryKeyboardCommand::Confirm),
        RecoveryInteractionOutcome::ActionReady(RecoveryAction::ReinstallSignedImage)
    );
    assert_eq!(menu.pending_confirmation(), None);
}

#[test]
fn timeout_never_confirms_destructive_action() {
    let mut menu = RecoveryMenuState::new();
    for _ in 0..5 {
        let _ = menu.apply(RecoveryKeyboardCommand::Next);
    }
    assert_eq!(menu.selected_action(), RecoveryAction::PowerOffSafely);
    assert_eq!(
        menu.apply(RecoveryKeyboardCommand::Activate),
        RecoveryInteractionOutcome::ConfirmationRequired(RecoveryAction::PowerOffSafely)
    );
    assert_eq!(
        menu.apply(RecoveryKeyboardCommand::Timeout),
        RecoveryInteractionOutcome::NoAction
    );
    assert_eq!(
        menu.pending_confirmation(),
        Some(RecoveryAction::PowerOffSafely)
    );
}

#[test]
fn cancel_clears_confirmation_without_running_action() {
    let mut menu = RecoveryMenuState::new();
    for _ in 0..4 {
        let _ = menu.apply(RecoveryKeyboardCommand::Next);
    }
    let _ = menu.apply(RecoveryKeyboardCommand::Activate);
    assert_eq!(
        menu.apply(RecoveryKeyboardCommand::Cancel),
        RecoveryInteractionOutcome::ConfirmationCancelled
    );
    assert_eq!(menu.pending_confirmation(), None);
}

#[test]
fn boot_previous_generation_is_direct_keyboard_action() {
    let mut menu = RecoveryMenuState::new();
    let _ = menu.apply(RecoveryKeyboardCommand::Next);
    assert_eq!(
        menu.apply(RecoveryKeyboardCommand::Activate),
        RecoveryInteractionOutcome::ActionReady(RecoveryAction::BootPreviousGeneration)
    );
}

#[test]
fn destructive_actions_need_confirmation_and_events_keep_their_fields() {
    assert_eq!(recovery_action_order().len(), RECOVERY_ACTION_COUNT);
    assert!(RecoveryAction::ReinstallSignedImage.requires_explicit_confirmation());
    assert!(RecoveryAction::PowerOffSafely.requires_explicit_confirmation());
    assert!(!RecoveryAction::BootPreviousGeneration.requires_explicit_confirmation());
    let event = RecoveryEvent::new(
        RecoveryDiagnosticCode::StorageReadFailed,
        RecoverySeverity::Critical,
        RecoveryAction::EnterRecovery,
        None,
    );
    assert_eq!(event.severity(), RecoverySeverity::Critical);
    assert_eq!(event.code(), RecoveryDiagnosticCode::StorageReadFailed);
    assert_eq!(event.generation(), None);
    let mut report = RecoveryProbeReport::new();
    assert!(!report.passed(RecoveryCapability::KeyboardInput));
    report.mark_passed(RecoveryCapability::KeyboardInput);
    assert!(report.passed(RecoveryCapability::KeyboardInput));
}
