use awos::runtime_sources::{
    common_required_components, family_required_components, validate_complete_source_set,
    RuntimeFamily, RuntimeSourceSet, SourceComponent, SourceCompletenessError,
};

fn mark_all(set: &mut RuntimeSourceSet, components: &[SourceComponent], missing: Option<SourceComponent>) {
    for component in components {
        if Some(*component) != missing {
            set.mark(*component);
        }
    }
}

fn set_without(family: RuntimeFamily, missing: Option<SourceComponent>) -> RuntimeSourceSet {
    let mut set = RuntimeSourceSet::new(family);
    mark_all(&mut set, &common_required_components(), missing);
    mark_all(&mut set, &family_required_components(family), missing);
    set
}

fn complete_set(family: RuntimeFamily) -> RuntimeSourceSet {
    set_without(family, None)
}

#[test]
fn every_family_can_prove_complete_source_coverage() {
    for family in [
        RuntimeFamily::Linux,
        RuntimeFamily::Android,
        RuntimeFamily::Darwin,
    ] {
        let proof = validate_complete_source_set(complete_set(family)).unwrap();
        assert_eq!(proof.family(), family);
    }
}

#[test]
fn immutable_source_pin_is_mandatory() {
    let set = set_without(RuntimeFamily::Linux, Some(SourceComponent::ImmutableSourcePins));
    assert_eq!(
        validate_complete_source_set(set),
        Err(SourceCompletenessError::Missing(
            SourceComponent::ImmutableSourcePins
        ))
    );
}

#[test]
fn android_without_accessibility_is_not_complete() {
    let set = set_without(RuntimeFamily::Android, Some(SourceComponent::AndroidAccessibility));
    assert_eq!(
        validate_complete_source_set(set),
        Err(SourceCompletenessError::Missing(
            SourceComponent::AndroidAccessibility
        ))
    );
}

#[test]
fn linux_without_portal_is_not_complete() {
    let set = set_without(RuntimeFamily::Linux, Some(SourceComponent::LinuxDesktopPortal));
    assert_eq!(
        validate_complete_source_set(set),
        Err(SourceCompletenessError::Missing(
            SourceComponent::LinuxDesktopPortal
        ))
    );
}

#[test]
fn darwin_without_clean_room_appkit_compat_is_not_complete() {
    let set = set_without(RuntimeFamily::Darwin, Some(SourceComponent::DarwinAppKitCompat));
    assert_eq!(
        validate_complete_source_set(set),
        Err(SourceCompletenessError::Missing(
            SourceComponent::DarwinAppKitCompat
        ))
    );
}

#[test]
fn license_inventory_is_never_optional() {
    let set = set_without(RuntimeFamily::Darwin, Some(SourceComponent::LicenseInventory));
    assert_eq!(
        validate_complete_source_set(set),
        Err(SourceCompletenessError::Missing(
            SourceComponent::LicenseInventory
        ))
    );
}
