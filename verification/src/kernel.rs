//! Earliest kernel-side validation and bring-up policy.

use vstd::prelude::*;
use crate::abi::BootInfo;

verus! {

/// Reason the kernel refused an invalid boot transition.
#[derive(Clone, Copy, Debug, PartialEq, Eq, Structural)]
pub enum BringUpError {
    /// The boot handoff does not match ABI v1.
    InvalidBootInfo,
    /// Mandatory accessibility capabilities were not present.
    AccessibilityContractUnsatisfied {
        /// Bitmask of required capabilities that were missing.
        missing: u64,
    },
}

/// Minimal kernel foundation state.
#[derive(Clone, Copy, Debug, PartialEq, Eq, Structural)]
pub struct KernelFoundation {
    boot_contract_verified: bool,
}

impl KernelFoundation {
    pub closed spec fn spec_boot_contract_verified(self) -> bool {
        self.boot_contract_verified
    }

    /// Creates an uninitialized kernel foundation.
    pub fn new() -> (r: Self)
        ensures
            !r.spec_boot_contract_verified(),
    {
        Self { boot_contract_verified: false }
    }

    /// Validates the boot ABI and accessibility contract before later initialization.
    pub fn accept_boot_info(&mut self, boot_info: &BootInfo) -> (r: Result<(), BringUpError>)
        ensures
            !boot_info.spec_is_valid_v1() ==> r == Err::<(), _>(BringUpError::InvalidBootInfo),
            boot_info.spec_is_valid_v1() && boot_info.accessibility.required
                & !boot_info.accessibility.available != 0 ==> r == Err::<(), _>(
                BringUpError::AccessibilityContractUnsatisfied {
                    missing: boot_info.accessibility.required & !boot_info.accessibility.available,
                },
            ),
            r is Ok <==> boot_info.spec_is_valid_v1() && boot_info.accessibility.required
                & !boot_info.accessibility.available == 0,
            r is Ok ==> final(self).spec_boot_contract_verified(),
            r is Err ==> *final(self) == *old(self),
    {
        if !boot_info.is_valid_v1() {
            return Err(BringUpError::InvalidBootInfo);
        }
        let missing = boot_info.accessibility.missing();
        if missing != 0 {
            return Err(BringUpError::AccessibilityContractUnsatisfied { missing });
        }
        self.boot_contract_verified = true;
        Ok(())
    }

    /// Returns true after the transition contract has been verified.
    pub fn boot_contract_verified(self) -> (r: bool)
        ensures
            r == self.spec_boot_contract_verified(),
    {
        self.boot_contract_verified
    }
}

impl Default for KernelFoundation {
    fn default() -> (r: Self)
        ensures
            !r.spec_boot_contract_verified(),
    {
        Self::new()
    }
}

} // verus!
