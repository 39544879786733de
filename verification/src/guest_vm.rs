//! Admission policy for Linux and Android guest virtual machines.

use vstd::prelude::*;
use crate::runtime_sources::{CompleteRuntimeSources, RuntimeFamily};

verus! {

#[derive(Clone, Copy, Debug, PartialEq, Eq, Structural)]
pub enum GuestFamily {
    Linux,
    Android,
}

impl GuestFamily {
    pub open spec fn spec_runtime_family(self) -> RuntimeFamily {
        match self {
            GuestFamily::Linux => RuntimeFamily::Linux,
            GuestFamily::Android => RuntimeFamily::Android,
        }
    }

    pub fn runtime_family(self) -> (r: RuntimeFamily)
        ensures
            r == self.spec_runtime_family(),
    {
        match self {
            GuestFamily::Linux => RuntimeFamily::Linux,
            GuestFamily::Android => RuntimeFamily::Android,
        }
    }
}

#[derive(Clone, Copy, Debug, PartialEq, Eq, Structural)]
pub enum GuestSurface {
    Headless,
    Graphical,
}

#[derive(Clone, Copy, Debug, PartialEq, Eq, Structural)]
pub enum GuestIsolation {
    HardwareVirtualMachine,
    SharedHostKernel,
}

#[derive(Clone, Copy, Debug, PartialEq, Eq, Structural)]
pub enum GuestVmCapability {
    HardwareVirtualization,
    SeparateGuestMemory,
    VirtualCpu,
    InterruptController,
    VerifiedGuestImage,
    CrashContainment,
    VirtioBlock,
    VirtioNetwork,
    VirtioInput,
    EntropySource,
    MonotonicClock,
    HostIpcTransport,
    AccessibilitySemanticBridge,
    VirtioGraphics,
    WindowSurfaceBridge,
    ClipboardBridge,
    NotificationBridge,
    FilePortalBridge,
    UrlIntentBridge,
    AudioBridge,
    NetworkPolicyBridge,
}

impl GuestVmCapability {
    /// The declaration position of this capability, which is its bit position.
    pub open spec fn spec_index(self) -> u64 {
        match self {
            GuestVmCapability::HardwareVirtualization => 0,
            GuestVmCapability::SeparateGuestMemory => 1,
            GuestVmCapability::VirtualCpu => 2,
            GuestVmCapability::InterruptController => 3,
            GuestVmCapability::VerifiedGuestImage => 4,
            GuestVmCapability::CrashContainment => 5,
            GuestVmCapability::VirtioBlock => 6,
            GuestVmCapability::VirtioNetwork => 7,
            GuestVmCapability::VirtioInput => 8,
            GuestVmCapability::EntropySource => 9,
            GuestVmCapability::MonotonicClock => 10,
            GuestVmCapability::HostIpcTransport => 11,
            GuestVmCapability::AccessibilitySemanticBridge => 12,
            GuestVmCapability::VirtioGraphics => 13,
            GuestVmCapability::WindowSurfaceBridge => 14,
            GuestVmCapability::ClipboardBridge => 15,
            GuestVmCapability::NotificationBridge => 16,
            GuestVmCapability::FilePortalBridge => 17,
            GuestVmCapability::UrlIntentBridge => 18,
            GuestVmCapability::AudioBridge => 19,
            GuestVmCapability::NetworkPolicyBridge => 20,
        }
    }

    /// The bit recording this capability in a profile.
    pub open spec fn spec_bit(self) -> u64 {
        1u64 << self.spec_index()
    }

    fn index(self) -> (r: u64)
        ensures
            r == self.spec_index(),
    {
        match self {
            GuestVmCapability::HardwareVirtualization => 0,
            GuestVmCapability::SeparateGuestMemory => 1,
            GuestVmCapability::VirtualCpu => 2,
            GuestVmCapability::InterruptController => 3,
            GuestVmCapability::VerifiedGuestImage => 4,
            GuestVmCapability::CrashContainment => 5,
            GuestVmCapability::VirtioBlock => 6,
            GuestVmCapability::VirtioNetwork => 7,
            GuestVmCapability::VirtioInput => 8,
            GuestVmCapability::EntropySource => 9,
            GuestVmCapability::MonotonicClock => 10,
            GuestVmCapability::HostIpcTransport => 11,
            GuestVmCapability::AccessibilitySemanticBridge => 12,
            GuestVmCapability::VirtioGraphics => 13,
            GuestVmCapability::WindowSurfaceBridge => 14,
            GuestVmCapability::ClipboardBridge => 15,
            GuestVmCapability::NotificationBridge => 16,
            GuestVmCapability::FilePortalBridge => 17,
            GuestVmCapability::UrlIntentBridge => 18,
            GuestVmCapability::AudioBridge => 19,
            GuestVmCapability::NetworkPolicyBridge => 20,
        }
    }

    /// The bit recording this capability in a profile.
    pub fn bit(self) -> (r: u64)
        ensures
            r == self.spec_bit(),
    {
        1u64 << self.index()
    }
}

#[derive(Clone, Copy, Debug, PartialEq, Eq, Structural)]
pub struct GuestVmProfile {
    family: GuestFamily,
    surface: GuestSurface,
    isolation: GuestIsolation,
    capabilities: u64,
}

impl GuestVmProfile {
    pub closed spec fn spec_family(self) -> GuestFamily {
        self.family
    }

    pub closed spec fn spec_surface(self) -> GuestSurface {
        self.surface
    }

    pub closed spec fn spec_isolation(self) -> GuestIsolation {
        self.isolation
    }

    /// The bits of the capabilities marked present.
    pub closed spec fn spec_capabilities(self) -> u64 {
        self.capabilities
    }

    /// True when `capability` was marked present.
    pub open spec fn spec_has(self, capability: GuestVmCapability) -> bool {
        self.spec_capabilities() & capability.spec_bit() != 0
    }

    pub fn new(family: GuestFamily, surface: GuestSurface, isolation: GuestIsolation) -> (r: Self)
        ensures
            r.spec_family() == family,
            r.spec_surface() == surface,
            r.spec_isolation() == isolation,
            r.spec_capabilities() == 0,
    {
        Self { family, surface, isolation, capabilities: 0 }
    }

    pub fn mark_capability(&mut self, capability: GuestVmCapability)
        ensures
            final(self).spec_capabilities() == old(self).spec_capabilities() | capability.spec_bit(),
            final(self).spec_family() == old(self).spec_family(),
            final(self).spec_surface() == old(self).spec_surface(),
            final(self).spec_isolation() == old(self).spec_isolation(),
    {
        self.capabilities = self.capabilities | capability.bit();
    }

    pub fn has(self, capability: GuestVmCapability) -> (r: bool)
        ensures
            r == self.spec_has(capability),
    {
        self.capabilities & capability.bit() != 0
    }

    pub fn family(self) -> (r: GuestFamily)
        ensures
            r == self.spec_family(),
    {
        self.family
    }

    pub fn surface(self) -> (r: GuestSurface)
        ensures
            r == self.spec_surface(),
    {
        self.surface
    }

    pub fn isolation(self) -> (r: GuestIsolation)
        ensures
            r == self.spec_isolation(),
    {
        self.isolation
    }
}

#[derive(Clone, Copy, Debug, PartialEq, Eq, Structural)]
pub enum GuestVmAdmissionError {
    SharedHostKernelForbidden,
    MissingCapability(GuestVmCapability),
    SourceFamilyMismatch { expected: RuntimeFamily, actual: RuntimeFamily },
}

#[derive(Clone, Copy, Debug, PartialEq, Eq, Structural)]
pub struct GuestVmReady {
    family: GuestFamily,
    surface: GuestSurface,
}

impl GuestVmReady {
    pub closed spec fn spec_family(self) -> GuestFamily {
        self.family
    }

    pub closed spec fn spec_surface(self) -> GuestSurface {
        self.surface
    }

    pub fn family(self) -> (r: GuestFamily)
        ensures
            r == self.spec_family(),
    {
        self.family
    }

    pub fn surface(self) -> (r: GuestSurface)
        ensures
            r == self.spec_surface(),
    {
        self.surface
    }
}

/// Capabilities every guest needs, in checking order.
pub open spec fn spec_base_required() -> Seq<GuestVmCapability> {
    seq![
        GuestVmCapability::HardwareVirtualization,
        GuestVmCapability::SeparateGuestMemory,
        GuestVmCapability::VirtualCpu,
        GuestVmCapability::InterruptController,
        GuestVmCapability::VerifiedGuestImage,
        GuestVmCapability::CrashContainment,
        GuestVmCapability::VirtioBlock,
        GuestVmCapability::VirtioNetwork,
        GuestVmCapability::VirtioInput,
        GuestVmCapability::EntropySource,
        GuestVmCapability::MonotonicClock,
        GuestVmCapability::HostIpcTransport,
        GuestVmCapability::AccessibilitySemanticBridge,
    ]
}

/// Capabilities a graphical guest needs in addition, in checking order.
pub open spec fn spec_graphical_required() -> Seq<GuestVmCapability> {
    seq![
        GuestVmCapability::VirtioGraphics,
        GuestVmCapability::WindowSurfaceBridge,
        GuestVmCapability::ClipboardBridge,
        GuestVmCapability::NotificationBridge,
        GuestVmCapability::FilePortalBridge,
        GuestVmCapability::UrlIntentBridge,
        GuestVmCapability::AudioBridge,
        GuestVmCapability::NetworkPolicyBridge,
    ]
}

/// Capabilities every guest needs, in checking order.
pub fn base_required_capabilities() -> (r: Vec<GuestVmCapability>)
    ensures
        r@ == spec_base_required(),
{
    vec![
        GuestVmCapability::HardwareVirtualization,
        GuestVmCapability::SeparateGuestMemory,
        GuestVmCapability::VirtualCpu,
        GuestVmCapability::InterruptController,
        GuestVmCapability::VerifiedGuestImage,
        GuestVmCapability::CrashContainment,
        GuestVmCapability::VirtioBlock,
        GuestVmCapability::VirtioNetwork,
        GuestVmCapability::VirtioInput,
        GuestVmCapability::EntropySource,
        GuestVmCapability::MonotonicClock,
        GuestVmCapability::HostIpcTransport,
        GuestVmCapability::AccessibilitySemanticBridge,
    ]
}

/// Capabilities a graphical guest needs in addition, in checking order.
pub fn graphical_required_capabilities() -> (r: Vec<GuestVmCapability>)
    ensures
        r@ == spec_graphical_required(),
{
    vec![
        GuestVmCapability::VirtioGraphics,
        GuestVmCapability::WindowSurfaceBridge,
        GuestVmCapability::ClipboardBridge,
        GuestVmCapability::NotificationBridge,
        GuestVmCapability::FilePortalBridge,
        GuestVmCapability::UrlIntentBridge,
        GuestVmCapability::AudioBridge,
        GuestVmCapability::NetworkPolicyBridge,
    ]
}

/// The first capability of `list` the profile lacks.
pub open spec fn first_missing_guest(p: GuestVmProfile, list: Seq<GuestVmCapability>) -> Option<GuestVmCapability>
    decreases list.len(),
{
    if list.len() == 0 {
        None
    } else if !p.spec_has(list[0]) {
        Some(list[0])
    } else {
        first_missing_guest(p, list.drop_first())
    }
}

fn require(p: GuestVmProfile, list: &Vec<GuestVmCapability>) -> (r: Option<GuestVmCapability>)
    ensures
        r == first_missing_guest(p, list@),
{
    let mut i: usize = 0;
    assert(list@.skip(0) =~= list@);
    while i < list.len()
        invariant
            i <= list@.len(),
            first_missing_guest(p, list@) == first_missing_guest(p, list@.skip(i as int)),
        decreases list@.len() - i,
    {
        assert(list@.skip(i as int).drop_first() =~= list@.skip(i + 1));
        if !p.has(list[i]) {
            return Some(list[i]);
        }
        i = i + 1;
    }
    None
}

/// Why a guest profile is refused, if it is.
pub open spec fn spec_guest_error(p: GuestVmProfile) -> Option<GuestVmAdmissionError> {
    if p.spec_isolation() != GuestIsolation::HardwareVirtualMachine {
        Some(GuestVmAdmissionError::SharedHostKernelForbidden)
    } else if first_missing_guest(p, spec_base_required()) is Some {
        Some(GuestVmAdmissionError::MissingCapability(first_missing_guest(p, spec_base_required())->0))
    } else if p.spec_surface() == GuestSurface::Graphical && first_missing_guest(
        p,
        spec_graphical_required(),
    ) is Some {
        Some(GuestVmAdmissionError::MissingCapability(first_missing_guest(p, spec_graphical_required())->0))
    } else {
        None
    }
}

/// Admits a guest only behind a hardware VM boundary with every required device,
/// bridge and (for graphical guests) host-integration capability present.
pub fn admit_guest_vm(profile: GuestVmProfile) -> (r: Result<GuestVmReady, GuestVmAdmissionError>)
    ensures
        match r {
            Ok(ready) => spec_guest_error(profile) is None && ready.spec_family() == profile.spec_family()
                && ready.spec_surface() == profile.spec_surface(),
            Err(e) => spec_guest_error(profile) == Some(e),
        },
{
    if profile.isolation != GuestIsolation::HardwareVirtualMachine {
        return Err(GuestVmAdmissionError::SharedHostKernelForbidden);
    }
    let base = base_required_capabilities();
    if let Some(c) = require(profile, &base) {
        return Err(GuestVmAdmissionError::MissingCapability(c));
    }
    if profile.surface == GuestSurface::Graphical {
        let graphical = graphical_required_capabilities();
        if let Some(c) = require(profile, &graphical) {
            return Err(GuestVmAdmissionError::MissingCapability(c));
        }
    }
    Ok(GuestVmReady { family: profile.family, surface: profile.surface })
}

/// Admits a release guest only with a source-completeness proof for its own family.
pub fn admit_release_guest_vm(profile: GuestVmProfile, sources: CompleteRuntimeSources) -> (r: Result<
    GuestVmReady,
    GuestVmAdmissionError,
>)
    ensures
        profile.spec_family().spec_runtime_family() != sources.spec_family() ==> r == Err::<
            GuestVmReady,
            _,
        >(
            GuestVmAdmissionError::SourceFamilyMismatch {
                expected: profile.spec_family().spec_runtime_family(),
                actual: sources.spec_family(),
            },
        ),
        profile.spec_family().spec_runtime_family() == sources.spec_family() ==> match r {
            Ok(ready) => spec_guest_error(profile) is None && ready.spec_family() == profile.spec_family()
                && ready.spec_surface() == profile.spec_surface(),
            Err(e) => spec_guest_error(profile) == Some(e),
        },
{
    let expected = profile.family.runtime_family();
    let actual = sources.family();
    if expected != actual {
        return Err(GuestVmAdmissionError::SourceFamilyMismatch { expected, actual });
    }
    admit_guest_vm(profile)
}

/// Every admitted guest runs in a hardware VM and carries the semantic
/// accessibility bridge, even when headless.
pub proof fn lemma_admitted_guest_is_isolated_and_accessible(p: GuestVmProfile)
    requires
        spec_guest_error(p) is None,
    ensures
        p.spec_isolation() == GuestIsolation::HardwareVirtualMachine,
        p.spec_has(GuestVmCapability::AccessibilitySemanticBridge),
        p.spec_has(GuestVmCapability::VirtioInput),
{
    reveal_with_fuel(first_missing_guest, 14);
}

} // verus!
