use awos::bootstate::{
    select_newest_record, BootSelectionState, BootStateError, BootStateRecord, GenerationLocator,
    MAX_TRIAL_BOOT_ATTEMPTS,
};
use awos::generation::{
    required_boot_components, required_success_health_checks, GenerationPlan, ObjectId,
    RuntimeHealthCheck, RuntimeHealthReport, SuccessfulGeneration,
};
use awos::recovery_contract::{AccessibleRecoveryReady, RecoveryCapability, RecoveryProbeReport};
fn object(seed: u8) -> ObjectId {
    ObjectId::new([seed; 32]).unwrap()
}

fn locator(generation: u64, seed: u8) -> GenerationLocator {
    GenerationLocator::new(generation, object(seed)).unwrap()
}

fn trial(sequence: u64, tries_remaining: u8) -> BootStateRecord {
    BootStateRecord::new(
        sequence,
        locator(42, 1),
        locator(41, 2),
        7,
        BootSelectionState::Trial { tries_remaining },
    )
    .unwrap()
}

fn recovery_ready() -> AccessibleRecoveryReady {
    let mut report = RecoveryProbeReport::new();
    for capability in [
        RecoveryCapability::KeyboardInput,
        RecoveryCapability::StructuredDiagnostics,
        RecoveryCapability::SpeechOutput,
        RecoveryCapability::RollbackSelection,
        RecoveryCapability::SignedReinstall,
        RecoveryCapability::DiagnosticExport,
    ] {
        report.mark_passed(capability);
    }
    report.accessible_ready().unwrap()
}

fn healthy_generation(generation: u64, rollback_index: u64) -> SuccessfulGeneration {
    let mut plan = GenerationPlan::<8>::new(generation, rollback_index).unwrap();
    for (index, kind) in required_boot_components().into_iter().enumerate() {
        plan.push(kind, object((index + 10) as u8)).unwrap();
    }
    let candidate = plan.boot_candidate(rollback_index).unwrap();
    let mut health = RuntimeHealthReport::new();
    for check in required_success_health_checks() {
        if check == RuntimeHealthCheck::AccessibleRecovery {
            health.mark_accessible_recovery(recovery_ready());
        } else {
            health.mark_passed(check).unwrap();
        }
    }
    candidate.successful_generation(health).unwrap()
}

#[test]
fn rejects_invalid_record_shape() {
    assert!(matches!(
        BootStateRecord::new(
            0,
            locator(42, 1),
            locator(41, 2),
            7,
            BootSelectionState::Successful
        ),
        Err(BootStateError::ZeroSequence)
    ));
    assert!(matches!(
        BootStateRecord::new(
            1,
            locator(42, 1),
            locator(41, 2),
            0,
            BootSelectionState::Successful
        ),
        Err(BootStateError::ZeroRollbackFloor)
    ));
    assert!(matches!(
        BootStateRecord::new(
            1,
            locator(42, 1),
            locator(41, 2),
            7,
            BootSelectionState::Trial { tries_remaining: 0 }
        ),
        Err(BootStateError::InvalidTrialAttempts)
    ));
    assert!(matches!(
        BootStateRecord::new(
            1,
            locator(42, 1),
            locator(41, 2),
            7,
            BootSelectionState::TrialAttempt {
                tries_remaining: MAX_TRIAL_BOOT_ATTEMPTS
            }
        ),
        Err(BootStateError::InvalidTrialAttempts)
    ));
    assert!(GenerationLocator::new(0, object(1)).is_none());
}

#[test]
fn redundant_selection_uses_highest_sequence() {
    let selected = select_newest_record(Some(trial(10, 3)), Some(trial(11, 2))).unwrap();
    assert_eq!(selected.sequence(), 11);
    assert_eq!(
        selected.state(),
        BootSelectionState::Trial { tries_remaining: 2 }
    );
}

#[test]
fn equal_sequence_conflict_fails_closed() {
    assert!(matches!(
        select_newest_record(Some(trial(10, 3)), Some(trial(10, 2))),
        Err(BootStateError::ConflictingSequence)
    ));
}

#[test]
fn preparing_trial_consumes_attempt_before_transfer() {
    let prepared = trial(10, 3).prepare_trial_boot().unwrap();
    assert_eq!(prepared.sequence(), 11);
    assert_eq!(prepared.selected().generation(), 42);
    assert_eq!(
        prepared.state(),
        BootSelectionState::TrialAttempt { tries_remaining: 2 }
    );
}

#[test]
fn failed_prepared_trial_returns_to_retryable_trial() {
    let next = trial(10, 3)
        .prepare_trial_boot()
        .unwrap()
        .after_failed_trial()
        .unwrap();
    assert_eq!(next.sequence(), 12);
    assert_eq!(next.selected().generation(), 42);
    assert_eq!(
        next.state(),
        BootSelectionState::Trial { tries_remaining: 2 }
    );
}

#[test]
fn interrupted_prepared_trial_consumes_attempt_after_power_loss() {
    let persisted_before_transfer = trial(10, 2).prepare_trial_boot().unwrap();
    assert_eq!(
        persisted_before_transfer.state(),
        BootSelectionState::TrialAttempt { tries_remaining: 1 }
    );

    let recovered_on_next_boot = persisted_before_transfer.after_interrupted_trial().unwrap();
    assert_eq!(recovered_on_next_boot.sequence(), 12);
    assert_eq!(
        recovered_on_next_boot.state(),
        BootSelectionState::Trial { tries_remaining: 1 }
    );
}

#[test]
fn exhausted_prepared_trial_rolls_back_to_last_successful_generation() {
    let prepared = trial(10, 1).prepare_trial_boot().unwrap();
    assert_eq!(
        prepared.state(),
        BootSelectionState::TrialAttempt { tries_remaining: 0 }
    );

    let next = prepared.after_interrupted_trial().unwrap();
    assert_eq!(next.sequence(), 12);
    assert_eq!(next.selected().generation(), 41);
    assert_eq!(next.previous_successful().generation(), 41);
    assert_eq!(next.state(), BootSelectionState::Successful);
}

#[test]
fn successful_record_cannot_prepare_trial_attempt() {
    let record = BootStateRecord::new(
        10,
        locator(41, 2),
        locator(41, 2),
        7,
        BootSelectionState::Successful,
    )
    .unwrap();
    assert!(matches!(
        record.prepare_trial_boot(),
        Err(BootStateError::NotTrial)
    ));
}

#[test]
fn unprepared_trial_cannot_be_promoted() {
    assert!(matches!(
        trial(10, 3).after_successful_trial(healthy_generation(42, 7)),
        Err(BootStateError::NotPreparedTrial)
    ));
}

#[test]
fn trial_success_requires_matching_accessibility_health_proof() {
    let next = trial(10, 3)
        .prepare_trial_boot()
        .unwrap()
        .after_successful_trial(healthy_generation(42, 7))
        .unwrap();
    assert_eq!(next.sequence(), 12);
    assert_eq!(next.selected().generation(), 42);
    assert_eq!(next.previous_successful().generation(), 42);
    assert_eq!(next.state(), BootSelectionState::Successful);
    assert_eq!(next.rollback_floor(), 7);
}

#[test]
fn health_proof_for_another_generation_is_rejected() {
    assert_eq!(
        trial(10, 3)
            .prepare_trial_boot()
            .unwrap()
            .after_successful_trial(healthy_generation(43, 7)),
        Err(BootStateError::HealthGenerationMismatch {
            selected: 42,
            healthy: 43,
        })
    );
}

#[test]
fn health_proof_below_persisted_rollback_floor_is_rejected() {
    assert_eq!(
        trial(10, 3)
            .prepare_trial_boot()
            .unwrap()
            .after_successful_trial(healthy_generation(42, 6)),
        Err(BootStateError::HealthRollbackRejected {
            declared: 6,
            minimum: 7,
        })
    );
}

#[test]
fn repeated_power_loss_rolls_back_after_the_last_attempt() {
    let mut record = trial(10, MAX_TRIAL_BOOT_ATTEMPTS);
    for round in 1..MAX_TRIAL_BOOT_ATTEMPTS {
        record = record.prepare_trial_boot().unwrap().after_interrupted_trial().unwrap();
        assert_eq!(
            record.state(),
            BootSelectionState::Trial { tries_remaining: MAX_TRIAL_BOOT_ATTEMPTS - round }
        );
        assert_eq!(record.selected().generation(), 42);
        assert_eq!(record.sequence(), 10 + 2 * round as u64);
    }
    record = record.prepare_trial_boot().unwrap().after_interrupted_trial().unwrap();
    assert_eq!(record.state(), BootSelectionState::Successful);
    assert_eq!(record.selected().generation(), 41);
    assert_eq!(record.sequence(), 10 + 2 * MAX_TRIAL_BOOT_ATTEMPTS as u64);
}
