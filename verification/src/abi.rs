//! Stable data contracts shared by the boot environment and the kernel.

pub mod capability;
pub mod human_io;

use vstd::prelude::*;

verus! {

/// Magic identifying a valid Accessible Windows boot handoff.
pub const BOOT_INFO_MAGIC: u64 = 0x4157_4F53_424F_4F54;
/// First version of the handoff ABI.
pub const BOOT_ABI_VERSION: u32 = 1;
/// Size in bytes of the C layout of `BootInfo`: magic, version, size,
/// phase, flags and the two 64-bit capability masks.
pub const BOOT_INFO_SIZE: u32 = 40;

/// Boot stage at which a record was produced.
#[derive(Clone, Copy, Debug, PartialEq, Eq, Structural)]
pub enum BootPhase {
    /// Firmware is still in control.
    Firmware,
    /// Accessible Windows boot code is executing.
    Bootloader,
    /// Earliest kernel bring-up.
    KernelEarly,
    /// Core kernel services are online.
    KernelServices,
    /// User-space services are online.
    UserSpace,
}

/// Accessibility requirements and observations for a boot transition.
#[derive(Clone, Copy, Debug, PartialEq, Eq, Structural)]
pub struct AccessibilityContract {
    /// Capabilities that must exist before the transition is considered accessible.
    pub required: u64,
    /// Capabilities positively observed at runtime.
    pub available: u64,
}

impl AccessibilityContract {
    /// Creates a new contract.
    pub fn new(required: u64, available: u64) -> (r: Self)
        ensures
            r.required == required,
            r.available == available,
    {
        Self { required, available }
    }

    /// Returns the required capabilities that are not currently available.
    pub fn missing(self) -> (r: u64)
        ensures
            r == self.required & !self.available,
    {
        self.required & !self.available
    }

    /// Returns true only when every required capability is available.
    pub fn is_satisfied(self) -> (r: bool)
        ensures
            r == (self.required & !self.available == 0),
            r == (self.required & self.available == self.required),
    {
        let m = self.required & !self.available;
        proof {
            lemma_missing_zero_iff_subset(self.required, self.available);
        }
        m == 0
    }
}

/// A mask is fully covered by another exactly when nothing of it is missing.
pub proof fn lemma_missing_zero_iff_subset(required: u64, available: u64)
    ensures
        (required & !available == 0) <==> (required & available == required),
{
    assert((required & !available == 0) <==> (required & available == required)) by (bit_vector);
}

/// Foundational human-I/O contract: every channel of `required_all` and at
/// least one channel of `required_any` must be verified.
#[derive(Clone, Copy, Debug, PartialEq, Eq, Structural)]
pub struct HumanIoContract {
    /// Channels that must all be verified.
    pub required_all: u64,
    /// Channels of which at least one must be verified.
    pub required_any: u64,
    /// Channels positively verified by native code.
    pub verified: u64,
}

impl HumanIoContract {
    /// Creates a new human-I/O contract.
    pub fn new(required_all: u64, required_any: u64, verified: u64) -> (r: Self)
        ensures
            r.required_all == required_all,
            r.required_any == required_any,
            r.verified == verified,
    {
        Self { required_all, required_any, verified }
    }

    /// Channels of `required_all` that were not verified.
    pub fn missing_all(self) -> (r: u64)
        ensures
            r == self.required_all & !self.verified,
    {
        self.required_all & !self.verified
    }

    /// True when all mandatory channels and at least one output channel are verified.
    pub fn is_satisfied(self) -> (r: bool)
        ensures
            r == (self.required_all & !self.verified == 0 && (self.required_any == 0
                || self.required_any & self.verified != 0)),
    {
        let all = self.required_all & !self.verified == 0;
        let any = self.required_any == 0 || self.required_any & self.verified != 0;
        all && any
    }
}

/// Minimal versioned handoff from boot code to the kernel.
#[derive(Clone, Copy, Debug, PartialEq, Eq, Structural)]
pub struct BootInfo {
    /// BOOT_INFO_MAGIC.
    pub magic: u64,
    /// ABI version understood by both sides.
    pub abi_version: u32,
    /// Size of this structure, enabling future compatible extension.
    pub struct_size: u32,
    /// Phase that produced this record.
    pub phase: BootPhase,
    /// Reserved for future flags; must be zero in ABI v1.
    pub flags: u32,
    /// Accessibility state that must survive the transition.
    pub accessibility: AccessibilityContract,
}

impl BootInfo {
    /// True when the immutable ABI fields describe a v1 record.
    pub open spec fn spec_is_valid_v1(self) -> bool {
        &&& self.magic == BOOT_INFO_MAGIC
        &&& self.abi_version == BOOT_ABI_VERSION
        &&& self.struct_size == BOOT_INFO_SIZE
        &&& self.flags == 0
    }

    /// Creates an ABI-v1 boot record.
    pub fn new(phase: BootPhase, accessibility: AccessibilityContract) -> (r: Self)
        ensures
            r.spec_is_valid_v1(),
            r.phase == phase,
            r.accessibility == accessibility,
    {
        Self {
            magic: BOOT_INFO_MAGIC,
            abi_version: BOOT_ABI_VERSION,
            struct_size: BOOT_INFO_SIZE,
            phase,
            flags: 0,
            accessibility,
        }
    }

    /// Validates the immutable ABI fields.
    pub fn is_valid_v1(&self) -> (r: bool)
        ensures
            r == self.spec_is_valid_v1(),
    {
        self.magic == BOOT_INFO_MAGIC && self.abi_version == BOOT_ABI_VERSION
            && self.struct_size == BOOT_INFO_SIZE && self.flags == 0
    }
}

} // verus!
