use awos::app_compat::{
    admit_runtime, required_base, AppSurface, CompatibilityTarget, RuntimeAdmissionError,
    RuntimeBoundary, RuntimeCapability, RuntimeProfile,
};

fn base_profile(
    target: CompatibilityTarget,
    boundary: RuntimeBoundary,
    surface: AppSurface,
) -> RuntimeProfile {
    let mut profile = RuntimeProfile::new(target, boundary, surface);
    for capability in required_base() {
        profile.mark_capability(capability);
    }
    profile
}

#[test]
fn android_is_not_admitted_as_shared_host_userspace() {
    let profile = base_profile(
        CompatibilityTarget::AndroidDex,
        RuntimeBoundary::UserModeCompatibility,
        AppSurface::CommandLine,
    );
    assert_eq!(
        admit_runtime(profile),
        Err(RuntimeAdmissionError::AndroidRequiresHardwareVm)
    );
}

#[test]
fn android_x86_64_can_run_locally_in_isolated_vm() {
    let profile = base_profile(
        CompatibilityTarget::AndroidNativeX86_64,
        RuntimeBoundary::HardwareIsolatedVm,
        AppSurface::CommandLine,
    );
    assert!(admit_runtime(profile).is_ok());
}

#[test]
fn arm_android_requires_explicit_translation() {
    let profile = base_profile(
        CompatibilityTarget::AndroidNativeArm64,
        RuntimeBoundary::HardwareIsolatedVm,
        AppSurface::CommandLine,
    );
    assert_eq!(
        admit_runtime(profile),
        Err(RuntimeAdmissionError::ForeignIsaTranslationUnavailable)
    );
}

#[test]
fn darwin_is_userspace_compatibility_not_macos_vm() {
    let profile = base_profile(
        CompatibilityTarget::DarwinMachOX86_64,
        RuntimeBoundary::HardwareIsolatedVm,
        AppSurface::CommandLine,
    );
    assert_eq!(
        admit_runtime(profile),
        Err(RuntimeAdmissionError::DarwinRequiresUserModeCompatibility)
    );
}

#[test]
fn graphical_apps_require_graphics_and_accessibility_bridges() {
    let mut profile = base_profile(
        CompatibilityTarget::DarwinMachOX86_64,
        RuntimeBoundary::UserModeCompatibility,
        AppSurface::Graphical,
    );
    assert_eq!(
        admit_runtime(profile),
        Err(RuntimeAdmissionError::MissingCapability(
            RuntimeCapability::GraphicsBridge
        ))
    );
    profile.mark_capability(RuntimeCapability::GraphicsBridge);
    assert!(admit_runtime(profile).is_ok());
}

#[test]
fn accessibility_bridge_is_mandatory_for_every_runtime() {
    let mut profile = RuntimeProfile::new(
        CompatibilityTarget::AndroidDex,
        RuntimeBoundary::HardwareIsolatedVm,
        AppSurface::CommandLine,
    );
    for capability in [
        RuntimeCapability::PackageIdentity,
        RuntimeCapability::SyscallIsolation,
        RuntimeCapability::IpcBroker,
        RuntimeCapability::FilesystemBroker,
        RuntimeCapability::InputBridge,
    ] {
        profile.mark_capability(capability);
    }
    assert_eq!(
        admit_runtime(profile),
        Err(RuntimeAdmissionError::MissingCapability(
            RuntimeCapability::AccessibilityBridge
        ))
    );
}

#[test]
fn admitted_runtime_reports_its_target_and_surface() {
    let profile = base_profile(
        CompatibilityTarget::AndroidNativeX86_64,
        RuntimeBoundary::HardwareIsolatedVm,
        AppSurface::CommandLine,
    );
    assert!(profile.has(RuntimeCapability::AccessibilityBridge));
    assert_eq!(profile.target(), CompatibilityTarget::AndroidNativeX86_64);
    assert_eq!(profile.boundary(), RuntimeBoundary::HardwareIsolatedVm);
    let ready = admit_runtime(profile).unwrap();
    assert_eq!(ready.target(), CompatibilityTarget::AndroidNativeX86_64);
    assert_eq!(ready.surface(), AppSurface::CommandLine);
}
