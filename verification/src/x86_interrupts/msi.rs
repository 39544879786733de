//! Pure encoding for x86 MSI/MSI-X message address and data words: the
//! vector travels in the data word, the destination CPU in the address.

use vstd::prelude::*;
use crate::x86_interrupts::FIRST_USABLE_INTERRUPT_VECTOR;
use crate::x86_interrupts::ioapic::{DeliveryMode, PinTrigger};

verus! {

/// Base of the architectural local-APIC message window.
pub const MSI_ADDRESS_BASE: u32 = 0xfee0_0000;

pub const MSI_REDIRECTION_HINT: u32 = 0x8;
pub const MSI_LOGICAL_DESTINATION: u32 = 0x4;
pub const MSI_LEVEL_ASSERT: u32 = 0x4000;
pub const MSI_LEVEL_TRIGGERED: u32 = 0x8000;

#[derive(Clone, Copy, Debug, PartialEq, Eq, Structural)]
pub enum MsiError {
    VectorOutOfRange,
    VectorNotAllowedForDeliveryMode,
}

/// The address/data pair written into a device's MSI capability.
#[derive(Clone, Copy, Debug, PartialEq, Eq, Structural)]
pub struct MsiMessage {
    pub address: u32,
    pub data: u32,
}

impl MsiMessage {
    /// Builds a message targeting one CPU by APIC ID, with no redirection
    /// hint.
    pub fn physical(destination_apic_id: u8, vector: u8, delivery_mode: DeliveryMode, trigger: PinTrigger) -> (r:
        Result<Self, MsiError>)
        ensures
            delivery_mode.spec_uses_vector() && (vector < FIRST_USABLE_INTERRUPT_VECTOR || vector == 0xff)
                ==> r == Err::<Self, MsiError>(MsiError::VectorOutOfRange),
            !delivery_mode.spec_uses_vector() && vector != 0 ==> r == Err::<Self, MsiError>(
                MsiError::VectorNotAllowedForDeliveryMode,
            ),
            (if delivery_mode.spec_uses_vector() {
                vector >= FIRST_USABLE_INTERRUPT_VECTOR && vector != 0xff
            } else {
                vector == 0
            }) ==> r == Ok::<Self, MsiError>(
                MsiMessage {
                    address: MSI_ADDRESS_BASE | ((destination_apic_id as u32) << 12u32),
                    data: (vector as u32) | ((delivery_mode.spec_bits() as u32) << 8u32) | (if trigger
                        == PinTrigger::Level {
                        MSI_LEVEL_TRIGGERED | MSI_LEVEL_ASSERT
                    } else {
                        0u32
                    }),
                },
            ),
    {
        if delivery_mode.uses_vector() {
            if vector < FIRST_USABLE_INTERRUPT_VECTOR || vector == 0xff {
                return Err(MsiError::VectorOutOfRange);
            }
        } else if vector != 0 {
            return Err(MsiError::VectorNotAllowedForDeliveryMode);
        }
        let trigger_bits: u32 = match trigger {
            PinTrigger::Edge => 0,
            PinTrigger::Level => MSI_LEVEL_TRIGGERED | MSI_LEVEL_ASSERT,
        };
        let mode = delivery_mode.bits();
        Ok(
            Self {
                address: MSI_ADDRESS_BASE | ((destination_apic_id as u32) << 12u32),
                data: vector as u32 | ((mode as u32) << 8u32) | trigger_bits,
            },
        )
    }

    /// Whether this message addresses a logical destination.
    pub fn is_logical_destination(self) -> (r: bool)
        ensures
            r == (self.address & MSI_LOGICAL_DESTINATION != 0),
    {
        self.address & MSI_LOGICAL_DESTINATION != 0
    }

    pub fn uses_redirection_hint(self) -> (r: bool)
        ensures
            r == (self.address & MSI_REDIRECTION_HINT != 0),
    {
        self.address & MSI_REDIRECTION_HINT != 0
    }

    pub fn destination_apic_id(self) -> (r: u8)
        ensures
            r == ((self.address >> 12u32) & 0xff) as u8,
    {
        ((self.address >> 12u32) & 0xff) as u8
    }

    pub fn vector(self) -> (r: u8)
        ensures
            r == self.data as u8,
    {
        self.data as u8
    }

    /// Upper 32 bits of the message address: the local APIC window is below
    /// 4 GiB, so always zero.
    pub fn address_high(self) -> (r: u32)
        ensures
            r == 0,
    {
        0
    }
}

/// A physical message carries its destination in the address and its
/// vector in the data, and is never logical nor hinted.
pub proof fn lemma_physical_message_fields(destination_apic_id: u8, vector: u8, mode: u32, trigger_bits: u32)
    requires
        mode <= 7,
        trigger_bits == 0 || trigger_bits == 0xc000,
    ensures
        (((MSI_ADDRESS_BASE | ((destination_apic_id as u32) << 12u32)) >> 12u32) & 0xff) as u8
            == destination_apic_id,
        ((vector as u32) | (mode << 8u32) | trigger_bits) as u8 == vector,
        (MSI_ADDRESS_BASE | ((destination_apic_id as u32) << 12u32)) & MSI_LOGICAL_DESTINATION == 0,
        (MSI_ADDRESS_BASE | ((destination_apic_id as u32) << 12u32)) & MSI_REDIRECTION_HINT == 0,
{
    assert(mode <= 7 && (trigger_bits == 0 || trigger_bits == 0xc000) ==> {
        &&& (((0xfee0_0000u32 | ((destination_apic_id as u32) << 12u32)) >> 12u32) & 0xff) as u8
            == destination_apic_id
        &&& ((vector as u32) | (mode << 8u32) | trigger_bits) as u8 == vector
        &&& (0xfee0_0000u32 | ((destination_apic_id as u32) << 12u32)) & 0x4u32 == 0
        &&& (0xfee0_0000u32 | ((destination_apic_id as u32) << 12u32)) & 0x8u32 == 0
    }) by (bit_vector);
}

} // verus!
