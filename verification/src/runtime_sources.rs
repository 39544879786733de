//! Source-coverage gate for the runtime families the host integrates.

use vstd::prelude::*;

verus! {

#[derive(Clone, Copy, Debug, PartialEq, Eq, Structural)]
pub enum RuntimeFamily {
    Linux,
    Android,
    Darwin,
}

#[derive(Clone, Copy, Debug, PartialEq, Eq, Structural)]
pub enum SourceComponent {
    LinuxKernel,
    LinuxLibc,
    LinuxInitServices,
    LinuxDbus,
    LinuxWayland,
    LinuxXwayland,
    LinuxMesa,
    LinuxPipewire,
    LinuxDesktopPortal,
    LinuxAccessibilityAtSpi,
    AndroidBuildSystem,
    AndroidKernelContract,
    AndroidBionic,
    AndroidArt,
    AndroidBinder,
    AndroidFrameworkBase,
    AndroidFrameworkNative,
    AndroidGraphics,
    AndroidMediaAudio,
    AndroidPackageActivityServices,
    AndroidPermissionSecurity,
    AndroidAccessibility,
    DarwinMachAbi,
    DarwinMachOLoader,
    DarwinDynamicLoader,
    DarwinLibSystem,
    DarwinLibc,
    DarwinObjectiveCRuntime,
    DarwinDispatch,
    DarwinCoreFoundationCompat,
    DarwinFoundationCompat,
    DarwinAppKitCompat,
    DarwinGraphicsCompat,
    DarwinAudioCompat,
    DarwinSecurityCompat,
    DarwinAccessibilityCompat,
    ImmutableSourcePins,
    LicenseInventory,
    SourceProvenance,
    ReproducibleBuildRecipe,
}

impl SourceComponent {
    /// The declaration position of this component, which is its bit position.
    pub open spec fn spec_index(self) -> u64 {
        match self {
            SourceComponent::LinuxKernel => 0,
            SourceComponent::LinuxLibc => 1,
            SourceComponent::LinuxInitServices => 2,
            SourceComponent::LinuxDbus => 3,
            SourceComponent::LinuxWayland => 4,
            SourceComponent::LinuxXwayland => 5,
            SourceComponent::LinuxMesa => 6,
            SourceComponent::LinuxPipewire => 7,
            SourceComponent::LinuxDesktopPortal => 8,
            SourceComponent::LinuxAccessibilityAtSpi => 9,
            SourceComponent::AndroidBuildSystem => 10,
            SourceComponent::AndroidKernelContract => 11,
            SourceComponent::AndroidBionic => 12,
            SourceComponent::AndroidArt => 13,
            SourceComponent::AndroidBinder => 14,
            SourceComponent::AndroidFrameworkBase => 15,
            SourceComponent::AndroidFrameworkNative => 16,
            SourceComponent::AndroidGraphics => 17,
            SourceComponent::AndroidMediaAudio => 18,
            SourceComponent::AndroidPackageActivityServices => 19,
            SourceComponent::AndroidPermissionSecurity => 20,
            SourceComponent::AndroidAccessibility => 21,
            SourceComponent::DarwinMachAbi => 22,
            SourceComponent::DarwinMachOLoader => 23,
            SourceComponent::DarwinDynamicLoader => 24,
            SourceComponent::DarwinLibSystem => 25,
            SourceComponent::DarwinLibc => 26,
            SourceComponent::DarwinObjectiveCRuntime => 27,
            SourceComponent::DarwinDispatch => 28,
            SourceComponent::DarwinCoreFoundationCompat => 29,
            SourceComponent::DarwinFoundationCompat => 30,
            SourceComponent::DarwinAppKitCompat => 31,
            SourceComponent::DarwinGraphicsCompat => 32,
            SourceComponent::DarwinAudioCompat => 33,
            SourceComponent::DarwinSecurityCompat => 34,
            SourceComponent::DarwinAccessibilityCompat => 35,
            SourceComponent::ImmutableSourcePins => 36,
            SourceComponent::LicenseInventory => 37,
            SourceComponent::SourceProvenance => 38,
            SourceComponent::ReproducibleBuildRecipe => 39,
        }
    }

    /// The bit recording this component in a source set.
    pub open spec fn spec_bit(self) -> u64 {
        1u64 << self.spec_index()
    }

    fn index(self) -> (r: u64)
        ensures
            r == self.spec_index(),
    {
        match self {
            SourceComponent::LinuxKernel => 0,
            SourceComponent::LinuxLibc => 1,
            SourceComponent::LinuxInitServices => 2,
            SourceComponent::LinuxDbus => 3,
            SourceComponent::LinuxWayland => 4,
            SourceComponent::LinuxXwayland => 5,
            SourceComponent::LinuxMesa => 6,
            SourceComponent::LinuxPipewire => 7,
            SourceComponent::LinuxDesktopPortal => 8,
            SourceComponent::LinuxAccessibilityAtSpi => 9,
            SourceComponent::AndroidBuildSystem => 10,
            SourceComponent::AndroidKernelContract => 11,
            SourceComponent::AndroidBionic => 12,
            SourceComponent::AndroidArt => 13,
            SourceComponent::AndroidBinder => 14,
            SourceComponent::AndroidFrameworkBase => 15,
            SourceComponent::AndroidFrameworkNative => 16,
            SourceComponent::AndroidGraphics => 17,
            SourceComponent::AndroidMediaAudio => 18,
            SourceComponent::AndroidPackageActivityServices => 19,
            SourceComponent::AndroidPermissionSecurity => 20,
            SourceComponent::AndroidAccessibility => 21,
            SourceComponent::DarwinMachAbi => 22,
            SourceComponent::DarwinMachOLoader => 23,
            SourceComponent::DarwinDynamicLoader => 24,
            SourceComponent::DarwinLibSystem => 25,
            SourceComponent::DarwinLibc => 26,
            SourceComponent::DarwinObjectiveCRuntime => 27,
            SourceComponent::DarwinDispatch => 28,
            SourceComponent::DarwinCoreFoundationCompat => 29,
            SourceComponent::DarwinFoundationCompat => 30,
            SourceComponent::DarwinAppKitCompat => 31,
            SourceComponent::DarwinGraphicsCompat => 32,
            SourceComponent::DarwinAudioCompat => 33,
            SourceComponent::DarwinSecurityCompat => 34,
            SourceComponent::DarwinAccessibilityCompat => 35,
            SourceComponent::ImmutableSourcePins => 36,
            SourceComponent::LicenseInventory => 37,
            SourceComponent::SourceProvenance => 38,
            SourceComponent::ReproducibleBuildRecipe => 39,
        }
    }

    fn bit(self) -> (r: u64)
        ensures
            r == self.spec_bit(),
    {
        1u64 << self.index()
    }
}

#[derive(Clone, Copy, Debug, PartialEq, Eq, Structural)]
pub struct RuntimeSourceSet {
    family: RuntimeFamily,
    components: u64,
}

impl RuntimeSourceSet {
    pub closed spec fn spec_family(self) -> RuntimeFamily {
        self.family
    }

    /// The bits of the components marked present.
    pub closed spec fn spec_components(self) -> u64 {
        self.components
    }

    /// True when `component` was marked present.
    pub open spec fn spec_has(self, component: SourceComponent) -> bool {
        self.spec_components() & component.spec_bit() != 0
    }

    pub fn new(family: RuntimeFamily) -> (r: Self)
        ensures
            r.spec_family() == family,
            r.spec_components() == 0,
    {
        Self { family, components: 0 }
    }

    pub fn mark(&mut self, component: SourceComponent)
        ensures
            final(self).spec_components() == old(self).spec_components() | component.spec_bit(),
            final(self).spec_family() == old(self).spec_family(),
    {
        self.components = self.components | component.bit();
    }

    pub fn has(self, component: SourceComponent) -> (r: bool)
        ensures
            r == self.spec_has(component),
    {
        self.components & component.bit() != 0
    }

    pub fn family(self) -> (r: RuntimeFamily)
        ensures
            r == self.spec_family(),
    {
        self.family
    }
}

#[derive(Clone, Copy, Debug, PartialEq, Eq, Structural)]
pub enum SourceCompletenessError {
    Missing(SourceComponent),
}

/// Proof that a runtime family has complete source coverage.
#[derive(Clone, Copy, Debug, PartialEq, Eq, Structural)]
pub struct CompleteRuntimeSources {
    family: RuntimeFamily,
}

impl CompleteRuntimeSources {
    pub closed spec fn spec_family(self) -> RuntimeFamily {
        self.family
    }

    pub fn family(self) -> (r: RuntimeFamily)
        ensures
            r == self.spec_family(),
    {
        self.family
    }
}

/// Components every family needs, in checking order.
pub open spec fn spec_common_required() -> Seq<SourceComponent> {
    seq![
        SourceComponent::ImmutableSourcePins,
        SourceComponent::LicenseInventory,
        SourceComponent::SourceProvenance,
        SourceComponent::ReproducibleBuildRecipe,
    ]
}

/// Components a family needs beyond the common ones, in checking order.
pub open spec fn spec_family_required(family: RuntimeFamily) -> Seq<SourceComponent> {
    match family {
        RuntimeFamily::Linux => seq![
            SourceComponent::LinuxKernel,
            SourceComponent::LinuxLibc,
            SourceComponent::LinuxInitServices,
            SourceComponent::LinuxDbus,
            SourceComponent::LinuxWayland,
            SourceComponent::LinuxXwayland,
            SourceComponent::LinuxMesa,
            SourceComponent::LinuxPipewire,
            SourceComponent::LinuxDesktopPortal,
            SourceComponent::LinuxAccessibilityAtSpi,
        ],
        RuntimeFamily::Android => seq![
            SourceComponent::AndroidBuildSystem,
            SourceComponent::AndroidKernelContract,
            SourceComponent::AndroidBionic,
            SourceComponent::AndroidArt,
            SourceComponent::AndroidBinder,
            SourceComponent::AndroidFrameworkBase,
            SourceComponent::AndroidFrameworkNative,
            SourceComponent::AndroidGraphics,
            SourceComponent::AndroidMediaAudio,
            SourceComponent::AndroidPackageActivityServices,
            SourceComponent::AndroidPermissionSecurity,
            SourceComponent::AndroidAccessibility,
        ],
        RuntimeFamily::Darwin => seq![
            SourceComponent::DarwinMachAbi,
            SourceComponent::DarwinMachOLoader,
            SourceComponent::DarwinDynamicLoader,
            SourceComponent::DarwinLibSystem,
            SourceComponent::DarwinLibc,
            SourceComponent::DarwinObjectiveCRuntime,
            SourceComponent::DarwinDispatch,
            SourceComponent::DarwinCoreFoundationCompat,
            SourceComponent::DarwinFoundationCompat,
            SourceComponent::DarwinAppKitCompat,
            SourceComponent::DarwinGraphicsCompat,
            SourceComponent::DarwinAudioCompat,
            SourceComponent::DarwinSecurityCompat,
            SourceComponent::DarwinAccessibilityCompat,
        ],
    }
}

/// Components every family needs, in checking order.
pub fn common_required_components() -> (r: Vec<SourceComponent>)
    ensures
        r@ == spec_common_required(),
{
    vec![
        SourceComponent::ImmutableSourcePins,
        SourceComponent::LicenseInventory,
        SourceComponent::SourceProvenance,
        SourceComponent::ReproducibleBuildRecipe,
    ]
}

/// Components a family needs beyond the common ones, in checking order.
pub fn family_required_components(family: RuntimeFamily) -> (r: Vec<SourceComponent>)
    ensures
        r@ == spec_family_required(family),
{
    match family {
        RuntimeFamily::Linux => vec![
            SourceComponent::LinuxKernel,
            SourceComponent::LinuxLibc,
            SourceComponent::LinuxInitServices,
            SourceComponent::LinuxDbus,
            SourceComponent::LinuxWayland,
            SourceComponent::LinuxXwayland,
            SourceComponent::LinuxMesa,
            SourceComponent::LinuxPipewire,
            SourceComponent::LinuxDesktopPortal,
            SourceComponent::LinuxAccessibilityAtSpi,
        ],
        RuntimeFamily::Android => vec![
            SourceComponent::AndroidBuildSystem,
            SourceComponent::AndroidKernelContract,
            SourceComponent::AndroidBionic,
            SourceComponent::AndroidArt,
            SourceComponent::AndroidBinder,
            SourceComponent::AndroidFrameworkBase,
            SourceComponent::AndroidFrameworkNative,
            SourceComponent::AndroidGraphics,
            SourceComponent::AndroidMediaAudio,
            SourceComponent::AndroidPackageActivityServices,
            SourceComponent::AndroidPermissionSecurity,
            SourceComponent::AndroidAccessibility,
        ],
        RuntimeFamily::Darwin => vec![
            SourceComponent::DarwinMachAbi,
            SourceComponent::DarwinMachOLoader,
            SourceComponent::DarwinDynamicLoader,
            SourceComponent::DarwinLibSystem,
            SourceComponent::DarwinLibc,
            SourceComponent::DarwinObjectiveCRuntime,
            SourceComponent::DarwinDispatch,
            SourceComponent::DarwinCoreFoundationCompat,
            SourceComponent::DarwinFoundationCompat,
            SourceComponent::DarwinAppKitCompat,
            SourceComponent::DarwinGraphicsCompat,
            SourceComponent::DarwinAudioCompat,
            SourceComponent::DarwinSecurityCompat,
            SourceComponent::DarwinAccessibilityCompat,
        ],
    }
}

/// The first component of `required` the set lacks.
pub open spec fn first_missing_source(set: RuntimeSourceSet, required: Seq<SourceComponent>) -> Option<
    SourceComponent,
>
    decreases required.len(),
{
    if required.len() == 0 {
        None
    } else if !set.spec_has(required[0]) {
        Some(required[0])
    } else {
        first_missing_source(set, required.drop_first())
    }
}

fn require(set: RuntimeSourceSet, required: &Vec<SourceComponent>) -> (r: Result<(), SourceCompletenessError>)
    ensures
        match first_missing_source(set, required@) {
            Some(c) => r == Err::<(), _>(SourceCompletenessError::Missing(c)),
            None => r is Ok,
        },
{
    let mut i: usize = 0;
    assert(required@.skip(0) =~= required@);
    while i < required.len()
        invariant
            i <= required@.len(),
            first_missing_source(set, required@) == first_missing_source(set, required@.skip(i as int)),
        decreases required@.len() - i,
    {
        assert(required@.skip(i as int).drop_first() =~= required@.skip(i + 1));
        if !set.has(required[i]) {
            return Err(SourceCompletenessError::Missing(required[i]));
        }
        i = i + 1;
    }
    Ok(())
}

/// The first component a set lacks: common components first, then the family's own.
pub open spec fn spec_source_set_error(set: RuntimeSourceSet) -> Option<SourceCompletenessError> {
    match first_missing_source(set, spec_common_required()) {
        Some(c) => Some(SourceCompletenessError::Missing(c)),
        None => match first_missing_source(set, spec_family_required(set.spec_family())) {
            Some(c) => Some(SourceCompletenessError::Missing(c)),
            None => None,
        },
    }
}

/// Proves that a runtime family has every source class needed by the host integration contract.
///
/// This gate deliberately models logical source coverage rather than accepting a single giant
/// upstream checkout as proof of completeness. Every family must also have immutable pins,
/// provenance, a license inventory and a reproducible build recipe. Proprietary macOS components
/// cannot satisfy Darwin entries: unavailable APIs must be implemented by clean-room compatible
/// components before Darwin can pass this gate.
pub fn validate_complete_source_set(set: RuntimeSourceSet) -> (r: Result<CompleteRuntimeSources, SourceCompletenessError>)
    ensures
        match r {
            Ok(proof) => spec_source_set_error(set) is None && proof.spec_family() == set.spec_family(),
            Err(e) => spec_source_set_error(set) == Some(e),
        },
{
    let common = common_required_components();
    match require(set, &common) {
        Ok(()) => {},
        Err(e) => return Err(e),
    }
    let own = family_required_components(set.family);
    match require(set, &own) {
        Ok(()) => {},
        Err(e) => return Err(e),
    }
    Ok(CompleteRuntimeSources { family: set.family })
}

/// Source completeness never waives provenance: a complete set always has
/// immutable pins, a license inventory, provenance and a reproducible recipe.
pub proof fn lemma_complete_sources_have_provenance(set: RuntimeSourceSet)
    requires
        spec_source_set_error(set) is None,
    ensures
        set.spec_has(SourceComponent::ImmutableSourcePins),
        set.spec_has(SourceComponent::LicenseInventory),
        set.spec_has(SourceComponent::SourceProvenance),
        set.spec_has(SourceComponent::ReproducibleBuildRecipe),
{
    reveal_with_fuel(first_missing_source, 5);
}

} // verus!
