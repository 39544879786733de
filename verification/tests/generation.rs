use awos::generation::{
    required_boot_components, required_success_health_checks, CoreComponentKind, GenerationPlan,
    GenerationPlanError, ObjectId, RuntimeHealthCheck, RuntimeHealthError, RuntimeHealthReport,
    HealthMarkError, OBJECT_DIGEST_BYTES,
};
use awos::recovery_contract::{AccessibleRecoveryReady, RecoveryCapability, RecoveryProbeReport};

fn object(seed: u8) -> ObjectId {
    ObjectId::new([seed; OBJECT_DIGEST_BYTES]).unwrap()
}

fn complete_plan() -> GenerationPlan<8> {
    let mut plan = GenerationPlan::new(42, 7).unwrap();
    for (index, kind) in required_boot_components().into_iter().enumerate() {
        plan.push(kind, object((index + 1) as u8)).unwrap();
    }
    plan
}

fn recovery_ready() -> AccessibleRecoveryReady {
    let mut report = RecoveryProbeReport::new();
    for capability in [
        RecoveryCapability::KeyboardInput,
        RecoveryCapability::StructuredDiagnostics,
        RecoveryCapability::SpeechOutput,
        RecoveryCapability::RollbackSelection,
        RecoveryCapability::SignedReinstall,
        RecoveryCapability::DiagnosticExport,
    ] {
        report.mark_passed(capability);
    }
    report.accessible_ready().unwrap()
}

fn health_without(missing: Option<RuntimeHealthCheck>) -> RuntimeHealthReport {
    let mut health = RuntimeHealthReport::new();
    for check in required_success_health_checks() {
        if Some(check) == missing {
            continue;
        }
        if check == RuntimeHealthCheck::AccessibleRecovery {
            health.mark_accessible_recovery(recovery_ready());
        } else {
            health.mark_passed(check).unwrap();
        }
    }
    health
}

fn complete_health() -> RuntimeHealthReport {
    health_without(None)
}

#[test]
fn rejects_zero_generation_and_zero_rollback_index() {
    assert!(matches!(
        GenerationPlan::<8>::new(0, 1),
        Err(GenerationPlanError::ZeroGeneration)
    ));
    assert!(matches!(
        GenerationPlan::<8>::new(1, 0),
        Err(GenerationPlanError::ZeroRollbackIndex)
    ));
    assert_eq!(ObjectId::new([0; OBJECT_DIGEST_BYTES]), None);
}

#[test]
fn rejects_duplicate_component_roles() {
    let mut plan = GenerationPlan::<8>::new(1, 1).unwrap();
    plan.push(CoreComponentKind::Kernel, object(1)).unwrap();
    assert!(matches!(
        plan.push(CoreComponentKind::Kernel, object(2)),
        Err(GenerationPlanError::DuplicateComponent(
            CoreComponentKind::Kernel
        ))
    ));
}

#[test]
fn accessibility_is_part_of_boot_readiness() {
    // Every required component but the accessibility broker, which leaves a
    // seven-component plan.
    let mut plan = GenerationPlan::<8>::new(42, 7).unwrap();
    for (index, kind) in required_boot_components().into_iter().enumerate() {
        if kind != CoreComponentKind::AccessibilityBroker {
            plan.push(kind, object((index + 1) as u8)).unwrap();
        }
    }
    assert_eq!(plan.len(), 7);

    assert!(matches!(
        plan.boot_candidate(7),
        Err(GenerationPlanError::MissingRequiredComponent(
            CoreComponentKind::AccessibilityBroker
        ))
    ));
}

#[test]
fn rejects_generation_below_rollback_floor() {
    let plan = complete_plan();
    assert!(matches!(
        plan.boot_candidate(8),
        Err(GenerationPlanError::RollbackRejected {
            declared: 7,
            minimum_allowed: 8
        })
    ));
}

#[test]
fn complete_generation_can_obtain_boot_candidate() {
    let plan = complete_plan();
    let candidate = plan.boot_candidate(7).unwrap();
    assert_eq!(candidate.generation(), 42);
    assert_eq!(candidate.rollback_index(), 7);
    assert_eq!(candidate.component_count(), 8);
}

#[test]
fn graphical_boot_without_speech_cannot_be_successful() {
    let plan = complete_plan();
    let candidate = plan.boot_candidate(7).unwrap();
    let health = health_without(Some(RuntimeHealthCheck::Speech));

    assert_eq!(
        candidate.successful_generation(health),
        Err(RuntimeHealthError::MissingRequiredCheck(
            RuntimeHealthCheck::Speech
        ))
    );
}

#[test]
fn inaccessible_recovery_cannot_be_marked_successful() {
    let plan = complete_plan();
    let candidate = plan.boot_candidate(7).unwrap();
    let health = health_without(Some(RuntimeHealthCheck::AccessibleRecovery));

    assert_eq!(
        candidate.successful_generation(health),
        Err(RuntimeHealthError::MissingRequiredCheck(
            RuntimeHealthCheck::AccessibleRecovery
        ))
    );
}

#[test]
fn all_runtime_health_checks_produce_success_proof() {
    let plan = complete_plan();
    let candidate = plan.boot_candidate(7).unwrap();
    let successful = candidate.successful_generation(complete_health()).unwrap();
    assert_eq!(successful.generation(), 42);
    assert_eq!(successful.rollback_index(), 7);
}

#[test]
fn plan_records_components_in_order() {
    let plan = complete_plan();
    assert_eq!(plan.generation(), 42);
    assert_eq!(plan.rollback_index(), 7);
    assert!(!plan.is_empty());
    assert!(plan.contains(CoreComponentKind::SpeechService));
    let first = plan.component(0).unwrap();
    assert_eq!(first.kind(), CoreComponentKind::Kernel);
    assert_eq!(first.object(), object(1));
    assert_eq!(plan.component(8), None);
    let mut full = complete_plan();
    assert!(matches!(
        full.push(CoreComponentKind::Kernel, object(9)),
        Err(GenerationPlanError::DuplicateComponent(CoreComponentKind::Kernel))
    ));
}

#[test]
fn accessible_recovery_is_recorded_only_from_a_readiness_proof() {
    let mut health = RuntimeHealthReport::new();
    health.mark_passed(RuntimeHealthCheck::Speech).unwrap();
    let before = health;
    assert_eq!(
        health.mark_passed(RuntimeHealthCheck::AccessibleRecovery),
        Err(HealthMarkError::AccessibleRecoveryNeedsProof)
    );
    assert_eq!(health, before);
    assert!(!health.passed(RuntimeHealthCheck::AccessibleRecovery));
    health.mark_accessible_recovery(recovery_ready());
    assert!(health.passed(RuntimeHealthCheck::AccessibleRecovery));
    assert!(health.passed(RuntimeHealthCheck::Speech));
}
