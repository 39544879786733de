//! Admission policy for local application compatibility runtimes.

use vstd::prelude::*;

verus! {

#[derive(Clone, Copy, Debug, PartialEq, Eq, Structural)]
pub enum CompatibilityTarget {
    AndroidDex,
    AndroidNativeX86_64,
    AndroidNativeArm64,
    DarwinMachOX86_64,
    DarwinMachOArm64,
}

#[derive(Clone, Copy, Debug, PartialEq, Eq, Structural)]
pub enum RuntimeBoundary {
    /// Hardware-assisted VM boundary used for Android framework/runtime execution.
    HardwareIsolatedVm,
    /// User-mode personality translating a foreign userspace ABI into host services.
    UserModeCompatibility,
}

#[derive(Clone, Copy, Debug, PartialEq, Eq, Structural)]
pub enum AppSurface {
    CommandLine,
    Graphical,
}

#[derive(Clone, Copy, Debug, PartialEq, Eq, Structural)]
pub enum RuntimeCapability {
    PackageIdentity,
    SyscallIsolation,
    IpcBroker,
    FilesystemBroker,
    InputBridge,
    AccessibilityBridge,
    GraphicsBridge,
    AudioBridge,
    NetworkBroker,
    ForeignIsaTranslation,
}

impl RuntimeCapability {
    /// The bit position recording this capability in a profile.
    pub open spec fn spec_index(self) -> u16 {
        match self {
            RuntimeCapability::PackageIdentity => 0,
            RuntimeCapability::SyscallIsolation => 1,
            RuntimeCapability::IpcBroker => 2,
            RuntimeCapability::FilesystemBroker => 3,
            RuntimeCapability::InputBridge => 4,
            RuntimeCapability::AccessibilityBridge => 5,
            RuntimeCapability::GraphicsBridge => 6,
            RuntimeCapability::AudioBridge => 7,
            RuntimeCapability::NetworkBroker => 8,
            RuntimeCapability::ForeignIsaTranslation => 9,
        }
    }

    /// The bit recording this capability in a profile.
    pub open spec fn spec_bit(self) -> u16 {
        1u16 << self.spec_index()
    }

    fn bit(self) -> (r: u16)
        ensures
            r == self.spec_bit(),
    {
        let index: u16 = match self {
            RuntimeCapability::PackageIdentity => 0,
            RuntimeCapability::SyscallIsolation => 1,
            RuntimeCapability::IpcBroker => 2,
            RuntimeCapability::FilesystemBroker => 3,
            RuntimeCapability::InputBridge => 4,
            RuntimeCapability::AccessibilityBridge => 5,
            RuntimeCapability::GraphicsBridge => 6,
            RuntimeCapability::AudioBridge => 7,
            RuntimeCapability::NetworkBroker => 8,
            RuntimeCapability::ForeignIsaTranslation => 9,
        };
        1u16 << index
    }
}

#[derive(Clone, Copy, Debug, PartialEq, Eq, Structural)]
pub struct RuntimeProfile {
    target: CompatibilityTarget,
    boundary: RuntimeBoundary,
    surface: AppSurface,
    capabilities: u16,
}

impl RuntimeProfile {
    pub closed spec fn spec_target(self) -> CompatibilityTarget {
        self.target
    }

    pub closed spec fn spec_boundary(self) -> RuntimeBoundary {
        self.boundary
    }

    pub closed spec fn spec_surface(self) -> AppSurface {
        self.surface
    }

    /// The capability bits recorded so far.
    pub closed spec fn spec_capabilities(self) -> u16 {
        self.capabilities
    }

    /// True when `capability` has been marked.
    pub open spec fn spec_has(self, capability: RuntimeCapability) -> bool {
        self.spec_capabilities() & capability.spec_bit() != 0
    }

    pub fn new(target: CompatibilityTarget, boundary: RuntimeBoundary, surface: AppSurface) -> (r: Self)
        ensures
            r.spec_target() == target,
            r.spec_boundary() == boundary,
            r.spec_surface() == surface,
            r.spec_capabilities() == 0,
    {
        Self { target, boundary, surface, capabilities: 0 }
    }

    pub fn mark_capability(&mut self, capability: RuntimeCapability)
        ensures
            final(self).spec_capabilities() == old(self).spec_capabilities() | capability.spec_bit(),
            final(self).spec_target() == old(self).spec_target(),
            final(self).spec_boundary() == old(self).spec_boundary(),
            final(self).spec_surface() == old(self).spec_surface(),
    {
        self.capabilities = self.capabilities | capability.bit();
    }

    pub fn has(self, capability: RuntimeCapability) -> (r: bool)
        ensures
            r == self.spec_has(capability),
    {
        self.capabilities & capability.bit() != 0
    }

    pub fn target(self) -> (r: CompatibilityTarget)
        ensures
            r == self.spec_target(),
    {
        self.target
    }

    pub fn boundary(self) -> (r: RuntimeBoundary)
        ensures
            r == self.spec_boundary(),
    {
        self.boundary
    }

    pub fn surface(self) -> (r: AppSurface)
        ensures
            r == self.spec_surface(),
    {
        self.surface
    }
}

/// Marking a capability makes `has` report it, and leaves every other
/// capability as it was.
pub proof fn lemma_mark_then_has(caps: u16, marked: RuntimeCapability, queried: RuntimeCapability)
    ensures
        (caps | marked.spec_bit()) & marked.spec_bit() != 0,
        queried != marked ==> (((caps | marked.spec_bit()) & queried.spec_bit() != 0) == (caps
            & queried.spec_bit() != 0)),
{
    let i = marked.spec_index();
    let j = queried.spec_index();
    assert(i < 16 ==> (caps | (1u16 << i)) & (1u16 << i) != 0) by (bit_vector);
    if queried != marked {
        assert(i != j);
        assert(i < 16 && j < 16 && i != j ==> (((caps | (1u16 << i)) & (1u16 << j) != 0) == (caps
            & (1u16 << j) != 0))) by (bit_vector);
    }
}

#[derive(Clone, Copy, Debug, PartialEq, Eq, Structural)]
pub enum RuntimeAdmissionError {
    AndroidRequiresHardwareVm,
    DarwinRequiresUserModeCompatibility,
    MissingCapability(RuntimeCapability),
    ForeignIsaTranslationUnavailable,
}

#[derive(Clone, Copy, Debug, PartialEq, Eq, Structural)]
pub struct RuntimeReady {
    target: CompatibilityTarget,
    surface: AppSurface,
}

impl RuntimeReady {
    pub closed spec fn spec_target(self) -> CompatibilityTarget {
        self.target
    }

    pub closed spec fn spec_surface(self) -> AppSurface {
        self.surface
    }

    pub fn target(self) -> (r: CompatibilityTarget)
        ensures
            r == self.spec_target(),
    {
        self.target
    }

    pub fn surface(self) -> (r: AppSurface)
        ensures
            r == self.spec_surface(),
    {
        self.surface
    }
}

/// Capabilities every runtime must have, in the order they are checked.
pub open spec fn spec_required_base() -> Seq<RuntimeCapability> {
    seq![
        RuntimeCapability::PackageIdentity,
        RuntimeCapability::SyscallIsolation,
        RuntimeCapability::IpcBroker,
        RuntimeCapability::FilesystemBroker,
        RuntimeCapability::InputBridge,
        RuntimeCapability::AccessibilityBridge,
    ]
}

/// Capabilities every runtime must have, in the order they are checked.
pub fn required_base() -> (r: Vec<RuntimeCapability>)
    ensures
        r@ == spec_required_base(),
{
    vec![
        RuntimeCapability::PackageIdentity,
        RuntimeCapability::SyscallIsolation,
        RuntimeCapability::IpcBroker,
        RuntimeCapability::FilesystemBroker,
        RuntimeCapability::InputBridge,
        RuntimeCapability::AccessibilityBridge,
    ]
}

/// The first capability of `list` the profile lacks.
pub open spec fn first_missing(profile: RuntimeProfile, list: Seq<RuntimeCapability>) -> Option<
    RuntimeCapability,
>
    decreases list.len(),
{
    if list.len() == 0 {
        None
    } else if !profile.spec_has(list[0]) {
        Some(list[0])
    } else {
        first_missing(profile, list.drop_first())
    }
}

/// True for the Android targets.
pub open spec fn is_android(t: CompatibilityTarget) -> bool {
    t == CompatibilityTarget::AndroidDex || t == CompatibilityTarget::AndroidNativeX86_64 || t
        == CompatibilityTarget::AndroidNativeArm64
}

/// True for targets whose native code is not x86-64.
pub open spec fn is_foreign_isa(t: CompatibilityTarget) -> bool {
    t == CompatibilityTarget::AndroidNativeArm64 || t == CompatibilityTarget::DarwinMachOArm64
}

/// Why a runtime profile is refused, if it is.
pub open spec fn spec_admission_error(p: RuntimeProfile) -> Option<RuntimeAdmissionError> {
    if is_android(p.spec_target()) && p.spec_boundary() != RuntimeBoundary::HardwareIsolatedVm {
        Some(RuntimeAdmissionError::AndroidRequiresHardwareVm)
    } else if !is_android(p.spec_target()) && p.spec_boundary()
        != RuntimeBoundary::UserModeCompatibility {
        Some(RuntimeAdmissionError::DarwinRequiresUserModeCompatibility)
    } else if first_missing(p, spec_required_base()) is Some {
        Some(RuntimeAdmissionError::MissingCapability(first_missing(p, spec_required_base())->0))
    } else if p.spec_surface() == AppSurface::Graphical && !p.spec_has(
        RuntimeCapability::GraphicsBridge,
    ) {
        Some(RuntimeAdmissionError::MissingCapability(RuntimeCapability::GraphicsBridge))
    } else if is_foreign_isa(p.spec_target()) && !p.spec_has(RuntimeCapability::ForeignIsaTranslation) {
        Some(RuntimeAdmissionError::ForeignIsaTranslationUnavailable)
    } else {
        None
    }
}

/// Validates a local compatibility runtime before applications may be launched.
///
/// Android is deliberately required to run behind a hardware VM boundary rather than a shared
/// host-kernel container. Darwin/macOS compatibility is a clean-room userspace personality, not a
/// bundled or virtualized copy of macOS. Graphical applications additionally require a graphics
/// bridge. Foreign-ISA native binaries require an explicit translation capability.
pub fn admit_runtime(profile: RuntimeProfile) -> (r: Result<RuntimeReady, RuntimeAdmissionError>)
    ensures
        match r {
            Ok(ready) => spec_admission_error(profile) is None && ready.spec_target()
                == profile.spec_target() && ready.spec_surface() == profile.spec_surface(),
            Err(e) => spec_admission_error(profile) == Some(e),
        },
{
    match profile.target {
        CompatibilityTarget::AndroidDex
        | CompatibilityTarget::AndroidNativeX86_64
        | CompatibilityTarget::AndroidNativeArm64 => {
            if profile.boundary != RuntimeBoundary::HardwareIsolatedVm {
                return Err(RuntimeAdmissionError::AndroidRequiresHardwareVm);
            }
        },
        CompatibilityTarget::DarwinMachOX86_64 | CompatibilityTarget::DarwinMachOArm64 => {
            if profile.boundary != RuntimeBoundary::UserModeCompatibility {
                return Err(RuntimeAdmissionError::DarwinRequiresUserModeCompatibility);
            }
        },
    }
    let base = required_base();
    let mut i: usize = 0;
    assert(base@.skip(0) =~= base@);
    while i < base.len()
        invariant
            !(is_android(profile.spec_target()) && profile.spec_boundary()
                != RuntimeBoundary::HardwareIsolatedVm),
            !(!is_android(profile.spec_target()) && profile.spec_boundary()
                != RuntimeBoundary::UserModeCompatibility),
            base@ == spec_required_base(),
            i <= base@.len(),
            first_missing(profile, spec_required_base()) == first_missing(profile, base@.skip(i as int)),
        decreases base@.len() - i,
    {
        assert(base@.skip(i as int).drop_first() =~= base@.skip(i + 1));
        if !profile.has(base[i]) {
            return Err(RuntimeAdmissionError::MissingCapability(base[i]));
        }
        i = i + 1;
    }
    if profile.surface == AppSurface::Graphical && !profile.has(RuntimeCapability::GraphicsBridge) {
        return Err(RuntimeAdmissionError::MissingCapability(RuntimeCapability::GraphicsBridge));
    }
    let foreign = match profile.target {
        CompatibilityTarget::AndroidNativeArm64 | CompatibilityTarget::DarwinMachOArm64 => true,
        _ => false,
    };
    if foreign && !profile.has(RuntimeCapability::ForeignIsaTranslation) {
        return Err(RuntimeAdmissionError::ForeignIsaTranslationUnavailable);
    }
    Ok(RuntimeReady { target: profile.target, surface: profile.surface })
}

/// An admitted runtime always has the accessibility bridge: no runtime is
/// launched that would strand an assistive-technology user.
pub proof fn lemma_admitted_runtime_is_accessible(p: RuntimeProfile)
    requires
        spec_admission_error(p) is None,
    ensures
        p.spec_has(RuntimeCapability::AccessibilityBridge),
        p.spec_has(RuntimeCapability::InputBridge),
        p.spec_surface() == AppSurface::Graphical ==> p.spec_has(RuntimeCapability::GraphicsBridge),
        is_android(p.spec_target()) ==> p.spec_boundary() == RuntimeBoundary::HardwareIsolatedVm,
{
    let l = spec_required_base();
    reveal_with_fuel(first_missing, 7);
    assert(l.drop_first().drop_first().drop_first().drop_first().drop_first()[0]
        == RuntimeCapability::AccessibilityBridge);
}

} // verus!
