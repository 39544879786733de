use awos::guest_vm::{
    admit_guest_vm, admit_release_guest_vm, base_required_capabilities,
    graphical_required_capabilities, GuestFamily, GuestIsolation, GuestSurface,
    GuestVmAdmissionError, GuestVmCapability, GuestVmProfile,
};
use awos::runtime_sources::{
    common_required_components, family_required_components, validate_complete_source_set,
    CompleteRuntimeSources, RuntimeFamily, RuntimeSourceSet,
};

fn profile_without(
    family: GuestFamily,
    surface: GuestSurface,
    isolation: GuestIsolation,
    missing: Option<GuestVmCapability>,
) -> GuestVmProfile {
    let mut profile = GuestVmProfile::new(family, surface, isolation);
    for capability in base_required_capabilities() {
        if Some(capability) != missing {
            profile.mark_capability(capability);
        }
    }
    if surface == GuestSurface::Graphical {
        for capability in graphical_required_capabilities() {
            if Some(capability) != missing {
                profile.mark_capability(capability);
            }
        }
    }
    profile
}

fn complete_profile(
    family: GuestFamily,
    surface: GuestSurface,
    isolation: GuestIsolation,
) -> GuestVmProfile {
    profile_without(family, surface, isolation, None)
}

fn source_proof(family: RuntimeFamily) -> CompleteRuntimeSources {
    let mut set = RuntimeSourceSet::new(family);
    for component in common_required_components() {
        set.mark(component);
    }
    for component in family_required_components(family) {
        set.mark(component);
    }
    validate_complete_source_set(set).unwrap()
}

#[test]
fn linux_and_android_cannot_share_the_host_kernel() {
    for family in [GuestFamily::Linux, GuestFamily::Android] {
        let profile = complete_profile(
            family,
            GuestSurface::Headless,
            GuestIsolation::SharedHostKernel,
        );
        assert_eq!(
            admit_guest_vm(profile),
            Err(GuestVmAdmissionError::SharedHostKernelForbidden)
        );
    }
}

#[test]
fn semantic_accessibility_channel_is_mandatory_even_headless() {
    let profile = profile_without(
        GuestFamily::Linux,
        GuestSurface::Headless,
        GuestIsolation::HardwareVirtualMachine,
        Some(GuestVmCapability::AccessibilitySemanticBridge),
    );
    assert_eq!(
        admit_guest_vm(profile),
        Err(GuestVmAdmissionError::MissingCapability(
            GuestVmCapability::AccessibilitySemanticBridge
        ))
    );
}

#[test]
fn graphical_guest_requires_host_window_surface() {
    let profile = profile_without(
        GuestFamily::Android,
        GuestSurface::Graphical,
        GuestIsolation::HardwareVirtualMachine,
        Some(GuestVmCapability::WindowSurfaceBridge),
    );
    assert_eq!(
        admit_guest_vm(profile),
        Err(GuestVmAdmissionError::MissingCapability(
            GuestVmCapability::WindowSurfaceBridge
        ))
    );
}

#[test]
fn graphical_guest_requires_brokered_network_policy() {
    let profile = profile_without(
        GuestFamily::Linux,
        GuestSurface::Graphical,
        GuestIsolation::HardwareVirtualMachine,
        Some(GuestVmCapability::NetworkPolicyBridge),
    );
    assert_eq!(
        admit_guest_vm(profile),
        Err(GuestVmAdmissionError::MissingCapability(
            GuestVmCapability::NetworkPolicyBridge
        ))
    );
}

#[test]
fn complete_linux_and_android_guests_are_admitted() {
    for family in [GuestFamily::Linux, GuestFamily::Android] {
        let profile = complete_profile(
            family,
            GuestSurface::Graphical,
            GuestIsolation::HardwareVirtualMachine,
        );
        let ready = admit_guest_vm(profile).unwrap();
        assert_eq!(ready.family(), family);
        assert_eq!(ready.surface(), GuestSurface::Graphical);
    }
}

#[test]
fn release_guest_requires_matching_source_family() {
    let profile = complete_profile(
        GuestFamily::Android,
        GuestSurface::Graphical,
        GuestIsolation::HardwareVirtualMachine,
    );
    let linux_sources = source_proof(RuntimeFamily::Linux);
    assert_eq!(
        admit_release_guest_vm(profile, linux_sources),
        Err(GuestVmAdmissionError::SourceFamilyMismatch {
            expected: RuntimeFamily::Android,
            actual: RuntimeFamily::Linux,
        })
    );
}

#[test]
fn release_guest_accepts_matching_complete_sources() {
    for family in [GuestFamily::Linux, GuestFamily::Android] {
        let profile = complete_profile(
            family,
            GuestSurface::Graphical,
            GuestIsolation::HardwareVirtualMachine,
        );
        let sources = source_proof(family.runtime_family());
        assert!(admit_release_guest_vm(profile, sources).is_ok());
    }
}
