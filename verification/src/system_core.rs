//! Intrinsic system state shared across the earliest privileged phases, and
//! the native semantic object model.

pub mod semantic_action;
pub mod semantic_state;

use vstd::prelude::*;
use crate::abi::{AccessibilityContract, BootInfo, BootPhase, HumanIoContract};

verus! {

/// Channels every foundational transition must provide: keyboard input and
/// semantic interaction.
pub const REQUIRED_ALL: u64 = 9;
/// At least one native non-visual output channel must be verified: speech or braille.
pub const REQUIRED_ANY_OUTPUT: u64 = 6;

/// Earliest unified system state.
///
/// Human interaction is carried here as ordinary system state rather than by a
/// separate accessibility service or framework.
#[derive(Clone, Copy, Debug, PartialEq, Eq, Structural)]
pub struct SystemState {
    phase: BootPhase,
    verified_human_io: u64,
}

impl SystemState {
    pub closed spec fn spec_phase(self) -> BootPhase {
        self.phase
    }

    pub closed spec fn spec_verified_human_io(self) -> u64 {
        self.verified_human_io
    }

    /// Starts with no hardware or interaction channel assumed to exist.
    pub fn new(phase: BootPhase) -> (r: Self)
        ensures
            r.spec_phase() == phase,
            r.spec_verified_human_io() == 0,
    {
        Self { phase, verified_human_io: 0 }
    }

    /// Returns the current privileged phase.
    pub fn phase(self) -> (r: BootPhase)
        ensures
            r == self.spec_phase(),
    {
        self.phase
    }

    /// Returns channels that native code positively verified.
    pub fn verified_human_io(self) -> (r: u64)
        ensures
            r == self.spec_verified_human_io(),
    {
        self.verified_human_io
    }

    /// Records channels after native runtime verification.
    pub fn verify_human_io(&mut self, channels: u64)
        ensures
            final(self).spec_verified_human_io() == old(self).spec_verified_human_io() | channels,
            final(self).spec_phase() == old(self).spec_phase(),
    {
        self.verified_human_io = self.verified_human_io | channels;
    }

    /// Advances the phase without inventing capabilities.
    pub fn advance_to(&mut self, phase: BootPhase)
        ensures
            final(self).spec_phase() == phase,
            final(self).spec_verified_human_io() == old(self).spec_verified_human_io(),
    {
        self.phase = phase;
    }

    /// Produces the foundational human-I/O contract.
    pub fn human_io_contract(self) -> (r: HumanIoContract)
        ensures
            r.required_all == REQUIRED_ALL,
            r.required_any == REQUIRED_ANY_OUTPUT,
            r.verified == self.spec_verified_human_io(),
    {
        HumanIoContract::new(REQUIRED_ALL, REQUIRED_ANY_OUTPUT, self.verified_human_io)
    }

    /// Produces a boot handoff from this system state: the mandatory channels
    /// are required and the verified channels are reported as available.
    pub fn boot_info(self) -> (r: BootInfo)
        ensures
            r.spec_is_valid_v1(),
            r.phase == self.spec_phase(),
            r.accessibility.required == REQUIRED_ALL,
            r.accessibility.available == self.spec_verified_human_io(),
    {
        BootInfo::new(self.phase, AccessibilityContract::new(REQUIRED_ALL, self.verified_human_io))
    }
}

/// A state that has verified nothing never satisfies the foundation.
pub proof fn lemma_nothing_verified_is_unsatisfied()
    ensures
        !(REQUIRED_ALL & !0u64 == 0),
{
    assert(!(9u64 & !0u64 == 0)) by (bit_vector);
}

/// Native runtime identity for a semantic object.
#[derive(Clone, Copy, Debug, PartialEq, Eq, Structural)]
pub struct SemanticObjectId(u64);

impl SemanticObjectId {
    /// The reserved invalid identity.
    pub fn zero() -> (r: Self)
        ensures
            r.spec_value() == 0,
    {
        Self(0)
    }

    pub closed spec fn spec_value(self) -> u64 {
        self.0
    }

    /// Creates an identity.
    pub fn new(value: u64) -> (r: Self)
        ensures
            r.spec_value() == value,
    {
        Self(value)
    }

    /// Returns the underlying value.
    pub fn value(self) -> (r: u64)
        ensures
            r == self.spec_value(),
    {
        self.0
    }

    /// Returns true for the reserved invalid identity.
    pub fn is_zero(self) -> (r: bool)
        ensures
            r == (self.spec_value() == 0),
    {
        self.0 == 0
    }
}

/// Intrinsic semantic role of a runtime object.
#[derive(Clone, Copy, Debug, PartialEq, Eq, Structural)]
pub enum SemanticRole {
    /// System semantic root.
    Root,
    /// Structural region or group.
    Region,
    /// Native textual meaning/content.
    Text,
    /// Invokable action.
    Action,
    /// Value input/editable object.
    Input,
    /// Binary or multi-state toggle.
    Toggle,
    /// Selectable choice.
    Choice,
    /// Collection of semantic objects.
    Collection,
    /// Item inside a collection.
    Item,
    /// Document-like semantic object.
    Document,
    /// Media object.
    Media,
    /// Spatial object/region.
    Spatial,
}

impl SemanticRole {
    pub open spec fn spec_is_interactive(self) -> bool {
        self == SemanticRole::Action || self == SemanticRole::Input || self == SemanticRole::Toggle
            || self == SemanticRole::Choice
    }

    /// Returns true when this role represents direct user interaction.
    pub fn is_interactive(self) -> (r: bool)
        ensures
            r == self.spec_is_interactive(),
    {
        match self {
            SemanticRole::Action | SemanticRole::Input | SemanticRole::Toggle | SemanticRole::Choice => true,
            _ => false,
        }
    }
}

/// Validation errors for the native semantic source of truth.
#[derive(Clone, Copy, Debug, PartialEq, Eq, Structural)]
pub enum SemanticObjectError {
    /// Every semantic object requires a nonzero identity.
    MissingId,
    /// Interactive objects require native meaning.
    MissingMeaning,
    /// Interactive objects require at least one action.
    MissingAction,
}

/// Native semantic object.
///
/// This object is the system meaning itself. It is not derived from a visual
/// widget and is not an accessibility mirror. Visual, speech, braille, haptic
/// and agent projections will consume this same state.
#[derive(Clone, Copy, Debug, PartialEq, Eq, Structural)]
pub struct SemanticObjectV1 {
    /// Stable runtime identity.
    pub id: SemanticObjectId,
    /// Intrinsic role.
    pub role: SemanticRole,
    /// Native state bits.
    pub states: u64,
    /// Native action bits.
    pub actions: u64,
    /// Object carrying the primary human-readable meaning/label. Interactive
    /// objects must reference one; non-interactive content may be self-describing.
    pub meaning: SemanticObjectId,
}

/// Why a semantic object is invalid, if it is.
pub open spec fn spec_object_error(o: SemanticObjectV1) -> Option<SemanticObjectError> {
    if o.id.spec_value() == 0 {
        Some(SemanticObjectError::MissingId)
    } else if o.role.spec_is_interactive() && o.meaning.spec_value() == 0 {
        Some(SemanticObjectError::MissingMeaning)
    } else if o.role.spec_is_interactive() && o.actions == 0 {
        Some(SemanticObjectError::MissingAction)
    } else {
        None
    }
}

impl SemanticObjectV1 {
    /// Creates a native semantic object.
    pub fn new(
        id: SemanticObjectId,
        role: SemanticRole,
        states: u64,
        actions: u64,
        meaning: SemanticObjectId,
    ) -> (r: Self)
        ensures
            r == (SemanticObjectV1 { id, role, states, actions, meaning }),
    {
        Self { id, role, states, actions, meaning }
    }

    /// Validates core semantic invariants.
    pub fn validate(&self) -> (r: Result<(), SemanticObjectError>)
        ensures
            match r {
                Ok(()) => spec_object_error(*self) is None,
                Err(e) => spec_object_error(*self) == Some(e),
            },
    {
        if self.id.is_zero() {
            return Err(SemanticObjectError::MissingId);
        }
        if self.role.is_interactive() && self.meaning.is_zero() {
            return Err(SemanticObjectError::MissingMeaning);
        }
        if self.role.is_interactive() && self.actions == 0 {
            return Err(SemanticObjectError::MissingAction);
        }
        Ok(())
    }

    /// Returns true when the object offers an action.
    pub fn supports(self, action: u64) -> (r: bool)
        ensures
            r == (action != 0 && self.actions & action == action),
    {
        action != 0 && (self.actions & action) == action
    }
}

/// Native semantic graph relation.
#[derive(Clone, Copy, Debug, PartialEq, Eq, Structural)]
pub enum SemanticEdgeKind {
    /// Structural containment.
    Contains,
    /// Source labels/names target.
    Labels,
    /// Source describes target.
    Describes,
    /// Source controls target.
    Controls,
    /// Source owns target.
    Owns,
    /// Interaction proceeds from source to target.
    FlowsTo,
}

/// Validation errors for a semantic graph edge.
#[derive(Clone, Copy, Debug, PartialEq, Eq, Structural)]
pub enum SemanticEdgeError {
    /// Source and target identities must exist.
    MissingEndpoint,
}

/// Native graph edge between semantic objects.
#[derive(Clone, Copy, Debug, PartialEq, Eq, Structural)]
pub struct SemanticEdgeV1 {
    /// Source object.
    pub source: SemanticObjectId,
    /// Target object.
    pub target: SemanticObjectId,
    /// Native relation meaning.
    pub kind: SemanticEdgeKind,
}

impl SemanticEdgeV1 {
    /// Creates a semantic edge.
    pub fn new(source: SemanticObjectId, target: SemanticObjectId, kind: SemanticEdgeKind) -> (r: Self)
        ensures
            r == (SemanticEdgeV1 { source, target, kind }),
    {
        Self { source, target, kind }
    }

    /// Validates edge endpoints.
    pub fn validate(&self) -> (r: Result<(), SemanticEdgeError>)
        ensures
            r is Ok <==> self.source.spec_value() != 0 && self.target.spec_value() != 0,
    {
        if self.source.is_zero() || self.target.is_zero() {
            return Err(SemanticEdgeError::MissingEndpoint);
        }
        Ok(())
    }
}

} // verus!
