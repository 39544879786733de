//! Composition and boot-health policy of one immutable OS generation.

use vstd::prelude::*;
use crate::recovery_contract::AccessibleRecoveryReady;

verus! {

pub const OBJECT_DIGEST_BYTES: usize = 32;

/// True when some byte of `s` is nonzero.
pub open spec fn any_nonzero(s: Seq<u8>) -> bool {
    exists|i: int| 0 <= i < s.len() && s[i] != 0
}

/// Returns true when some byte of `bytes` is nonzero.
pub fn has_nonzero_byte(bytes: &[u8]) -> (r: bool)
    ensures
        r == any_nonzero(bytes@),
{
    let mut i: usize = 0;
    while i < bytes.len()
        invariant
            i <= bytes@.len(),
            forall|j: int| 0 <= j < i ==> bytes@[j] == 0,
        decreases bytes@.len() - i,
    {
        if bytes[i] != 0 {
            return true;
        }
        i = i + 1;
    }
    false
}

/// Content address of an object: a digest that is never all zero.
#[derive(Clone, Copy, Debug, PartialEq, Eq)]
pub struct ObjectId([u8; OBJECT_DIGEST_BYTES]);

impl ObjectId {
    /// The digest bytes.
    pub closed spec fn spec_bytes(self) -> Seq<u8> {
        self.0@
    }

    pub fn new(bytes: [u8; OBJECT_DIGEST_BYTES]) -> (r: Option<Self>)
        ensures
            r is Some <==> any_nonzero(bytes@),
            r matches Some(id) ==> id.spec_bytes() == bytes@,
    {
        if has_nonzero_byte(&bytes) {
            Some(Self(bytes))
        } else {
            None
        }
    }

    pub fn bytes(self) -> (r: [u8; OBJECT_DIGEST_BYTES])
        ensures
            r@ == self.spec_bytes(),
    {
        self.0
    }

    /// Compares two object identities byte for byte.
    pub fn equals(&self, other: &Self) -> (r: bool)
        ensures
            r == (*self == *other),
    {
        let mut i: usize = 0;
        while i < OBJECT_DIGEST_BYTES
            invariant
                i <= OBJECT_DIGEST_BYTES,
                forall|j: int| 0 <= j < i ==> self.0@[j] == other.0@[j],
            decreases OBJECT_DIGEST_BYTES - i,
        {
            if self.0[i] != other.0[i] {
                return false;
            }
            i = i + 1;
        }
        assert(self.0 =~= other.0);
        true
    }
}

#[derive(Clone, Copy, Debug, PartialEq, Eq, Structural)]
pub enum CoreComponentKind {
    Kernel,
    StorageService,
    InputService,
    AudioService,
    AccessibilityBroker,
    SpeechService,
    SecurityService,
    UpdateService,
}

/// Components every bootable generation must contain, in checking order.
pub open spec fn spec_required_boot_components() -> Seq<CoreComponentKind> {
    seq![
        CoreComponentKind::Kernel,
        CoreComponentKind::StorageService,
        CoreComponentKind::InputService,
        CoreComponentKind::AudioService,
        CoreComponentKind::AccessibilityBroker,
        CoreComponentKind::SpeechService,
        CoreComponentKind::SecurityService,
        CoreComponentKind::UpdateService,
    ]
}

/// Components every bootable generation must contain, in checking order.
pub fn required_boot_components() -> (r: Vec<CoreComponentKind>)
    ensures
        r@ == spec_required_boot_components(),
{
    vec![
        CoreComponentKind::Kernel,
        CoreComponentKind::StorageService,
        CoreComponentKind::InputService,
        CoreComponentKind::AudioService,
        CoreComponentKind::AccessibilityBroker,
        CoreComponentKind::SpeechService,
        CoreComponentKind::SecurityService,
        CoreComponentKind::UpdateService,
    ]
}

#[derive(Clone, Copy, Debug, PartialEq, Eq)]
pub struct GenerationComponent {
    kind: CoreComponentKind,
    object: ObjectId,
}

impl GenerationComponent {
    pub closed spec fn spec_kind(self) -> CoreComponentKind {
        self.kind
    }

    pub closed spec fn spec_object(self) -> ObjectId {
        self.object
    }

    pub fn kind(self) -> (r: CoreComponentKind)
        ensures
            r == self.spec_kind(),
    {
        self.kind
    }

    pub fn object(self) -> (r: ObjectId)
        ensures
            r == self.spec_object(),
    {
        self.object
    }
}

#[derive(Clone, Copy, Debug, PartialEq, Eq, Structural)]
pub enum GenerationPlanError {
    ZeroGeneration,
    ZeroRollbackIndex,
    Capacity,
    DuplicateComponent(CoreComponentKind),
    MissingRequiredComponent(CoreComponentKind),
    RollbackRejected { declared: u64, minimum_allowed: u64 },
}

/// True when some component of `s` has kind `kind`.
pub open spec fn has_kind(s: Seq<GenerationComponent>, kind: CoreComponentKind) -> bool {
    exists|i: int| 0 <= i < s.len() && s[i].spec_kind() == kind
}

/// The first required component missing from `s`, following `required`.
pub open spec fn first_missing_component(s: Seq<GenerationComponent>, required: Seq<CoreComponentKind>) -> Option<
    CoreComponentKind,
>
    decreases required.len(),
{
    if required.len() == 0 {
        None
    } else if !has_kind(s, required[0]) {
        Some(required[0])
    } else {
        first_missing_component(s, required.drop_first())
    }
}

/// In-memory semantic plan for one immutable OS generation, holding at most
/// `COMPONENTS` components with pairwise distinct kinds.
///
/// This type intentionally does not perform hashing, signature verification, serialization, or
/// disk I/O. Those security boundaries belong to dedicated layers. `ObjectId` values are
/// references to already content-addressed objects and this plan validates only composition and
/// boot-health policy.
pub struct GenerationPlan<const COMPONENTS: usize> {
    generation: u64,
    rollback_index: u64,
    components: Vec<GenerationComponent>,
}

impl<const COMPONENTS: usize> GenerationPlan<COMPONENTS> {
    pub closed spec fn spec_generation(&self) -> u64 {
        self.generation
    }

    pub closed spec fn spec_rollback_index(&self) -> u64 {
        self.rollback_index
    }

    /// The components in insertion order.
    pub closed spec fn spec_components(&self) -> Seq<GenerationComponent> {
        self.components@
    }

    #[verifier::type_invariant]
    closed spec fn well_formed(&self) -> bool {
        &&& self.generation != 0
        &&& self.rollback_index != 0
        &&& self.components@.len() <= COMPONENTS
        &&& forall|i: int, j: int|
            0 <= i < j < self.components@.len() ==> self.components@[i].spec_kind()
                != self.components@[j].spec_kind()
    }

    pub fn new(generation: u64, rollback_index: u64) -> (r: Result<Self, GenerationPlanError>)
        ensures
            generation == 0 ==> r == Err::<Self, _>(GenerationPlanError::ZeroGeneration),
            generation != 0 && rollback_index == 0 ==> r == Err::<Self, _>(
                GenerationPlanError::ZeroRollbackIndex,
            ),
            r is Ok <==> generation != 0 && rollback_index != 0,
            r matches Ok(p) ==> p.spec_generation() == generation && p.spec_rollback_index()
                == rollback_index && p.spec_components().len() == 0,
    {
        if generation == 0 {
            return Err(GenerationPlanError::ZeroGeneration);
        }
        if rollback_index == 0 {
            return Err(GenerationPlanError::ZeroRollbackIndex);
        }
        Ok(Self { generation, rollback_index, components: Vec::new() })
    }

    pub fn generation(&self) -> (r: u64)
        ensures
            r == self.spec_generation(),
    {
        self.generation
    }

    pub fn rollback_index(&self) -> (r: u64)
        ensures
            r == self.spec_rollback_index(),
    {
        self.rollback_index
    }

    pub fn len(&self) -> (r: usize)
        ensures
            r == self.spec_components().len(),
    {
        self.components.len()
    }

    pub fn is_empty(&self) -> (r: bool)
        ensures
            r == (self.spec_components().len() == 0),
    {
        self.components.len() == 0
    }

    pub fn component(&self, index: usize) -> (r: Option<GenerationComponent>)
        ensures
            r is Some <==> index < self.spec_components().len(),
            r matches Some(c) ==> c == self.spec_components()[index as int],
    {
        if index >= self.components.len() {
            return None;
        }
        Some(self.components[index])
    }

    pub fn push(&mut self, kind: CoreComponentKind, object: ObjectId) -> (r: Result<(), GenerationPlanError>)
        ensures
            final(self).spec_generation() == old(self).spec_generation(),
            final(self).spec_rollback_index() == old(self).spec_rollback_index(),
            has_kind(old(self).spec_components(), kind) ==> r == Err::<(), _>(
                GenerationPlanError::DuplicateComponent(kind),
            ),
            !has_kind(old(self).spec_components(), kind) && old(self).spec_components().len()
                >= COMPONENTS ==> r == Err::<(), _>(GenerationPlanError::Capacity),
            r is Ok <==> !has_kind(old(self).spec_components(), kind) && old(self).spec_components().len()
                < COMPONENTS,
            r is Ok ==> final(self).spec_components().len() == old(self).spec_components().len() + 1
                && final(self).spec_components().drop_last() == old(self).spec_components()
                && final(self).spec_components().last().spec_kind() == kind && final(self).spec_components().last().spec_object() == object,
            r is Err ==> final(self).spec_components() == old(self).spec_components(),
    {
        proof {
            use_type_invariant(&*self);
        }
        if self.contains(kind) {
            return Err(GenerationPlanError::DuplicateComponent(kind));
        }
        if self.components.len() >= COMPONENTS {
            return Err(GenerationPlanError::Capacity);
        }
        let ghost before = self.components@;
        let mut components: Vec<GenerationComponent> = Vec::new();
        std::mem::swap(&mut components, &mut self.components);
        components.push(GenerationComponent { kind, object });
        assert(components@.drop_last() =~= before);
        assert forall|i: int, j: int| 0 <= i < j < components@.len() implies components@[i].spec_kind()
            != components@[j].spec_kind() by {
            if j == before.len() {
                assert(components@[i] == before[i]);
            }
        }
        self.components = components;
        Ok(())
    }

    pub fn contains(&self, kind: CoreComponentKind) -> (r: bool)
        ensures
            r == has_kind(self.spec_components(), kind),
    {
        let mut index: usize = 0;
        while index < self.components.len()
            invariant
                index <= self.components@.len(),
                forall|j: int| 0 <= j < index ==> self.components@[j].spec_kind() != kind,
            decreases self.components@.len() - index,
        {
            if self.components[index].kind == kind {
                return true;
            }
            index = index + 1;
        }
        false
    }

    /// Produces a private proof token only when the generation is boot-policy complete.
    ///
    /// Accessibility is deliberately part of the boot contract: input, audio, the accessibility
    /// broker and speech service are mandatory. A generation that boots graphically but strands a
    /// blind user therefore cannot be marked boot-ready by this API.
    pub fn boot_candidate(&self, minimum_rollback_index: u64) -> (r: Result<BootCandidate<'_, COMPONENTS>, GenerationPlanError>)
        ensures
            self.spec_rollback_index() < minimum_rollback_index ==> (r matches Err(e) && e == (
            GenerationPlanError::RollbackRejected {
                declared: self.spec_rollback_index(),
                minimum_allowed: minimum_rollback_index,
            })),
            self.spec_rollback_index() >= minimum_rollback_index ==> match first_missing_component(
                self.spec_components(),
                spec_required_boot_components(),
            ) {
                Some(k) => (r matches Err(e) && e == GenerationPlanError::MissingRequiredComponent(k)),
                None => r is Ok,
            },
            r matches Ok(c) ==> c.spec_generation() == self.spec_generation() && c.spec_rollback_index()
                == self.spec_rollback_index() && c.spec_component_count()
                == self.spec_components().len(),
    {
        if self.rollback_index < minimum_rollback_index {
            return Err(
                GenerationPlanError::RollbackRejected {
                    declared: self.rollback_index,
                    minimum_allowed: minimum_rollback_index,
                },
            );
        }
        let required = required_boot_components();
        let mut i: usize = 0;
        assert(required@.skip(0) =~= required@);
        while i < required.len()
            invariant
                self.spec_rollback_index() >= minimum_rollback_index,
                required@ == spec_required_boot_components(),
                i <= required@.len(),
                first_missing_component(self.spec_components(), spec_required_boot_components())
                    == first_missing_component(self.spec_components(), required@.skip(i as int)),
            decreases required@.len() - i,
        {
            assert(required@.skip(i as int).drop_first() =~= required@.skip(i + 1));
            if !self.contains(required[i]) {
                return Err(GenerationPlanError::MissingRequiredComponent(required[i]));
            }
            i = i + 1;
        }
        Ok(BootCandidate { plan: self })
    }
}

/// Proof that semantic generation composition and anti-rollback policy passed.
///
/// Cryptographic authentication remains a separate proof layer. A boot loader must never treat
/// this token alone as signature verification.
pub struct BootCandidate<'a, const COMPONENTS: usize> {
    plan: &'a GenerationPlan<COMPONENTS>,
}

impl<const COMPONENTS: usize> BootCandidate<'_, COMPONENTS> {
    pub closed spec fn spec_generation(&self) -> u64 {
        self.plan.spec_generation()
    }

    pub closed spec fn spec_rollback_index(&self) -> u64 {
        self.plan.spec_rollback_index()
    }

    pub closed spec fn spec_component_count(&self) -> nat {
        self.plan.spec_components().len()
    }

    pub fn generation(&self) -> (r: u64)
        ensures
            r == self.spec_generation(),
    {
        self.plan.generation()
    }

    pub fn rollback_index(&self) -> (r: u64)
        ensures
            r == self.spec_rollback_index(),
    {
        self.plan.rollback_index()
    }

    pub fn component_count(&self) -> (r: usize)
        ensures
            r == self.spec_component_count(),
    {
        self.plan.len()
    }

    /// Converts a boot candidate into a success proof only after every mandatory runtime health
    /// check has passed. In particular, a graphical desktop is insufficient: keyboard input,
    /// audio, the accessibility broker, speech and an independently usable accessible recovery
    /// path must all be healthy.
    pub fn successful_generation(&self, health: RuntimeHealthReport) -> (r: Result<SuccessfulGeneration, RuntimeHealthError>)
        ensures
            match first_missing_check(health, spec_required_success_health_checks()) {
                Some(c) => r == Err::<SuccessfulGeneration, _>(RuntimeHealthError::MissingRequiredCheck(c)),
                None => (r matches Ok(s) && s.spec_generation() == self.spec_generation()
                    && s.spec_rollback_index() == self.spec_rollback_index()),
            },
    {
        let required = required_success_health_checks();
        let mut i: usize = 0;
        assert(required@.skip(0) =~= required@);
        while i < required.len()
            invariant
                required@ == spec_required_success_health_checks(),
                i <= required@.len(),
                first_missing_check(health, spec_required_success_health_checks()) == first_missing_check(
                    health,
                    required@.skip(i as int),
                ),
            decreases required@.len() - i,
        {
            assert(required@.skip(i as int).drop_first() =~= required@.skip(i + 1));
            if !health.passed(required[i]) {
                return Err(RuntimeHealthError::MissingRequiredCheck(required[i]));
            }
            i = i + 1;
        }
        Ok(SuccessfulGeneration { generation: self.generation(), rollback_index: self.rollback_index() })
    }
}

#[derive(Clone, Copy, Debug, PartialEq, Eq, Structural)]
pub enum RuntimeHealthCheck {
    Kernel,
    Storage,
    Input,
    Audio,
    AccessibilityBroker,
    Speech,
    AccessibleRecovery,
    Security,
    Update,
}

impl RuntimeHealthCheck {
    /// The bit position recording this check in a health report.
    pub open spec fn spec_index(self) -> u16 {
        match self {
            RuntimeHealthCheck::Kernel => 0,
            RuntimeHealthCheck::Storage => 1,
            RuntimeHealthCheck::Input => 2,
            RuntimeHealthCheck::Audio => 3,
            RuntimeHealthCheck::AccessibilityBroker => 4,
            RuntimeHealthCheck::Speech => 5,
            RuntimeHealthCheck::AccessibleRecovery => 6,
            RuntimeHealthCheck::Security => 7,
            RuntimeHealthCheck::Update => 8,
        }
    }

    /// The bit recording this check in a health report.
    pub open spec fn spec_bit(self) -> u16 {
        1u16 << self.spec_index()
    }

    pub fn bit(self) -> (r: u16)
        ensures
            r == self.spec_bit(),
    {
        let index: u16 = match self {
            RuntimeHealthCheck::Kernel => 0,
            RuntimeHealthCheck::Storage => 1,
            RuntimeHealthCheck::Input => 2,
            RuntimeHealthCheck::Audio => 3,
            RuntimeHealthCheck::AccessibilityBroker => 4,
            RuntimeHealthCheck::Speech => 5,
            RuntimeHealthCheck::AccessibleRecovery => 6,
            RuntimeHealthCheck::Security => 7,
            RuntimeHealthCheck::Update => 8,
        };
        1u16 << index
    }
}

/// Checks every successful generation must pass, in checking order.
pub open spec fn spec_required_success_health_checks() -> Seq<RuntimeHealthCheck> {
    seq![
        RuntimeHealthCheck::Kernel,
        RuntimeHealthCheck::Storage,
        RuntimeHealthCheck::Input,
        RuntimeHealthCheck::Audio,
        RuntimeHealthCheck::AccessibilityBroker,
        RuntimeHealthCheck::Speech,
        RuntimeHealthCheck::AccessibleRecovery,
        RuntimeHealthCheck::Security,
        RuntimeHealthCheck::Update,
    ]
}

/// Checks every successful generation must pass, in checking order.
pub fn required_success_health_checks() -> (r: Vec<RuntimeHealthCheck>)
    ensures
        r@ == spec_required_success_health_checks(),
{
    vec![
        RuntimeHealthCheck::Kernel,
        RuntimeHealthCheck::Storage,
        RuntimeHealthCheck::Input,
        RuntimeHealthCheck::Audio,
        RuntimeHealthCheck::AccessibilityBroker,
        RuntimeHealthCheck::Speech,
        RuntimeHealthCheck::AccessibleRecovery,
        RuntimeHealthCheck::Security,
        RuntimeHealthCheck::Update,
    ]
}

/// The first check of `list` that a report has not marked passed.
pub open spec fn first_missing_check(report: RuntimeHealthReport, list: Seq<RuntimeHealthCheck>) -> Option<
    RuntimeHealthCheck,
>
    decreases list.len(),
{
    if list.len() == 0 {
        None
    } else if !report.spec_passed(list[0]) {
        Some(list[0])
    } else {
        first_missing_check(report, list.drop_first())
    }
}

/// Why a probe result cannot be recorded.
#[derive(Clone, Copy, Debug, PartialEq, Eq, Structural)]
pub enum HealthMarkError {
    /// Accessible recovery counts only with a recovery readiness proof.
    AccessibleRecoveryNeedsProof,
}

/// Semantic record of completed runtime probes.
///
/// Probe execution itself belongs to platform/runtime code. This type only records explicit PASS
/// evidence and deliberately has no implicit defaults: a check is absent until a probe marks it
/// passed.
#[derive(Clone, Copy, Debug, PartialEq, Eq, Structural)]
pub struct RuntimeHealthReport {
    passed: u16,
}

impl RuntimeHealthReport {
    /// The bits of the checks marked passed.
    pub closed spec fn spec_bits(self) -> u16 {
        self.passed
    }

    /// True when `check` was marked passed.
    pub open spec fn spec_passed(self, check: RuntimeHealthCheck) -> bool {
        self.spec_bits() & check.spec_bit() != 0
    }

    pub fn new() -> (r: Self)
        ensures
            r.spec_bits() == 0,
    {
        Self { passed: 0 }
    }

    /// Records a passed probe. Accessible recovery is refused here: it is
    /// recorded only from a recovery readiness proof, through
    /// `mark_accessible_recovery`.
    pub fn mark_passed(&mut self, check: RuntimeHealthCheck) -> (r: Result<(), HealthMarkError>)
        ensures
            check == RuntimeHealthCheck::AccessibleRecovery ==> r == Err::<(), HealthMarkError>(
                HealthMarkError::AccessibleRecoveryNeedsProof,
            ) && *final(self) == *old(self),
            check != RuntimeHealthCheck::AccessibleRecovery ==> r is Ok
                && final(self).spec_bits() == old(self).spec_bits() | check.spec_bit(),
    {
        if check == RuntimeHealthCheck::AccessibleRecovery {
            return Err(HealthMarkError::AccessibleRecoveryNeedsProof);
        }
        self.passed = self.passed | check.bit();
        Ok(())
    }

    /// Records the accessible-recovery check from a recovery readiness proof.
    pub fn mark_accessible_recovery(&mut self, ready: AccessibleRecoveryReady)
        ensures
            final(self).spec_bits() == old(self).spec_bits() | RuntimeHealthCheck::AccessibleRecovery.spec_bit(),
    {
        self.passed = self.passed | RuntimeHealthCheck::AccessibleRecovery.bit();
    }

    pub fn passed(self, check: RuntimeHealthCheck) -> (r: bool)
        ensures
            r == self.spec_passed(check),
    {
        self.passed & check.bit() != 0
    }
}

impl Default for RuntimeHealthReport {
    fn default() -> (r: Self)
        ensures
            r.spec_bits() == 0,
    {
        Self::new()
    }
}

#[derive(Clone, Copy, Debug, PartialEq, Eq, Structural)]
pub enum RuntimeHealthError {
    MissingRequiredCheck(RuntimeHealthCheck),
}

/// Proof that boot composition, anti-rollback and all mandatory runtime health checks passed.
///
/// Fields are private so callers cannot construct this token without passing the checks above.
#[derive(Clone, Copy, Debug, PartialEq, Eq, Structural)]
pub struct SuccessfulGeneration {
    generation: u64,
    rollback_index: u64,
}

impl SuccessfulGeneration {
    pub closed spec fn spec_generation(self) -> u64 {
        self.generation
    }

    pub closed spec fn spec_rollback_index(self) -> u64 {
        self.rollback_index
    }

    pub fn generation(self) -> (r: u64)
        ensures
            r == self.spec_generation(),
    {
        self.generation
    }

    pub fn rollback_index(self) -> (r: u64)
        ensures
            r == self.spec_rollback_index(),
    {
        self.rollback_index
    }
}

/// A success proof is only ever issued when speech, input, audio, the
/// accessibility broker and accessible recovery all passed.
pub proof fn lemma_success_requires_accessibility(health: RuntimeHealthReport)
    requires
        first_missing_check(health, spec_required_success_health_checks()) is None,
    ensures
        health.spec_passed(RuntimeHealthCheck::Speech),
        health.spec_passed(RuntimeHealthCheck::Input),
        health.spec_passed(RuntimeHealthCheck::Audio),
        health.spec_passed(RuntimeHealthCheck::AccessibilityBroker),
        health.spec_passed(RuntimeHealthCheck::AccessibleRecovery),
{
    reveal_with_fuel(first_missing_check, 10);
}

} // verus!
