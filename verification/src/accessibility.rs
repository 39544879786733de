//! Accessibility state machine used before user space exists.

use vstd::prelude::*;
use crate::abi::{AccessibilityContract, BootPhase};
use crate::abi::capability;

verus! {

/// Strict requirements chosen for the first x86-64 boot path.
pub const STRICT_BOOT_REQUIREMENTS: u64 = 3;

/// The strict requirements are keyboard input together with speech output.
pub proof fn lemma_strict_requirements()
    ensures
        STRICT_BOOT_REQUIREMENTS == capability::KEYBOARD_INPUT | capability::SPEECH_OUTPUT,
{
    assert(1u64 | 2u64 == 3u64) by (bit_vector);
}

/// Accessibility state carried across system phases.
#[derive(Clone, Copy, Debug, PartialEq, Eq, Structural)]
pub struct AccessibilityState {
    phase: BootPhase,
    available: u64,
}

impl AccessibilityState {
    /// The phase represented by this state.
    pub closed spec fn spec_phase(self) -> BootPhase {
        self.phase
    }

    /// The capability mask observed so far.
    pub closed spec fn spec_available(self) -> u64 {
        self.available
    }

    /// Starts with no capabilities assumed to exist.
    pub fn new(phase: BootPhase) -> (r: Self)
        ensures
            r.spec_phase() == phase,
            r.spec_available() == 0,
    {
        Self { phase, available: 0 }
    }

    /// Returns the phase represented by this state.
    pub fn phase(self) -> (r: BootPhase)
        ensures
            r == self.spec_phase(),
    {
        self.phase
    }

    /// Returns the observed capability mask.
    pub fn available(self) -> (r: u64)
        ensures
            r == self.spec_available(),
    {
        self.available
    }

    /// Records capabilities that were positively verified.
    pub fn observe(&mut self, capabilities: u64)
        ensures
            final(self).spec_available() == old(self).spec_available() | capabilities,
            final(self).spec_phase() == old(self).spec_phase(),
    {
        self.available = self.available | capabilities;
    }

    /// Advances the phase without inventing capabilities.
    pub fn advance_to(&mut self, phase: BootPhase)
        ensures
            final(self).spec_phase() == phase,
            final(self).spec_available() == old(self).spec_available(),
    {
        self.phase = phase;
    }

    /// Produces the strict boot accessibility contract.
    pub fn strict_contract(self) -> (r: AccessibilityContract)
        ensures
            r.required == STRICT_BOOT_REQUIREMENTS,
            r.available == self.spec_available(),
    {
        AccessibilityContract::new(STRICT_BOOT_REQUIREMENTS, self.available)
    }
}

/// Observing never removes a capability: every capability present before an
/// observation is still present after it, whatever was observed.
pub proof fn lemma_observation_is_monotone(before: u64, observed: u64, capability: u64)
    requires
        before & capability == capability,
    ensures
        (before | observed) & capability == capability,
{
    assert(before & capability == capability ==> (before | observed) & capability == capability)
        by (bit_vector);
}

} // verus!
