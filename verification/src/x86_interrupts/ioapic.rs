//! Pure encoding for I/O APIC redirection-table entries: the exact 64-bit
//! value an entry must hold and the two register indices it is written
//! through. Vectors are validated rather than trusted: a device interrupt
//! on an exception vector would arrive as, say, a page fault.

use vstd::prelude::*;
use crate::x86_interrupts::FIRST_USABLE_INTERRUPT_VECTOR;

verus! {

/// `IOAPICID`: the 4-bit I/O APIC identifier, bits 24..27.
pub const IOAPIC_REGISTER_ID: u8 = 0x00;
/// `IOAPICVER`: version in bits 0..7, maximum redirection entry in bits 16..23.
pub const IOAPIC_REGISTER_VERSION: u8 = 0x01;
/// First redirection-table register. Entry `n` occupies `0x10 + 2n` (low half)
/// and `0x11 + 2n` (high half).
pub const IOAPIC_REGISTER_REDIRECTION_BASE: u8 = 0x10;
/// Byte offset of `IOREGSEL` from the I/O APIC's base address.
pub const IOAPIC_REGSEL_OFFSET: u64 = 0x00;
/// Byte offset of the 32-bit data window `IOWIN`.
pub const IOAPIC_WINDOW_OFFSET: u64 = 0x10;
/// Highest redirection entry whose register pair still fits in the 8-bit
/// `IOREGSEL` index: `(255 - 0x10) / 2`.
pub const MAX_REDIRECTION_INDEX: u8 = 119;

/// How the local APIC is asked to deliver the interrupt.
#[derive(Clone, Copy, Debug, PartialEq, Eq, Structural)]
pub enum DeliveryMode {
    Fixed,
    LowestPriority,
    Smi,
    Nmi,
    Init,
    ExtInt,
}

impl DeliveryMode {
    pub open spec fn spec_bits(self) -> u64 {
        match self {
            DeliveryMode::Fixed => 0,
            DeliveryMode::LowestPriority => 1,
            DeliveryMode::Smi => 2,
            DeliveryMode::Nmi => 4,
            DeliveryMode::Init => 5,
            DeliveryMode::ExtInt => 7,
        }
    }

    pub open spec fn spec_uses_vector(self) -> bool {
        self == DeliveryMode::Fixed || self == DeliveryMode::LowestPriority || self == DeliveryMode::ExtInt
    }

    pub fn bits(self) -> (r: u64)
        ensures
            r == self.spec_bits(),
    {
        match self {
            DeliveryMode::Fixed => 0,
            DeliveryMode::LowestPriority => 1,
            DeliveryMode::Smi => 2,
            DeliveryMode::Nmi => 4,
            DeliveryMode::Init => 5,
            DeliveryMode::ExtInt => 7,
        }
    }

    /// Whether this mode delivers through the vector field at all; SMI, NMI
    /// and INIT ignore it and require it to be zero.
    pub fn uses_vector(self) -> (r: bool)
        ensures
            r == self.spec_uses_vector(),
    {
        match self {
            DeliveryMode::Fixed | DeliveryMode::LowestPriority | DeliveryMode::ExtInt => true,
            _ => false,
        }
    }
}

/// How the destination field is interpreted.
#[derive(Clone, Copy, Debug, PartialEq, Eq, Structural)]
pub enum DestinationMode {
    Physical,
    Logical,
}

/// Electrical polarity of the interrupt input pin.
#[derive(Clone, Copy, Debug, PartialEq, Eq, Structural)]
pub enum PinPolarity {
    ActiveHigh,
    ActiveLow,
}

/// Trigger mode of the interrupt input pin.
#[derive(Clone, Copy, Debug, PartialEq, Eq, Structural)]
pub enum PinTrigger {
    Edge,
    Level,
}

#[derive(Clone, Copy, Debug, PartialEq, Eq, Structural)]
pub enum RedirectionEntryError {
    VectorOutOfRange,
    VectorNotAllowedForDeliveryMode,
    IndexOutOfRange,
}

/// The vector error of a delivery mode and vector, if any: a mode that uses
/// the vector needs one outside the exception range and not 0xff; the others
/// need zero.
pub open spec fn spec_vector_error(vector: u8, delivery_mode: DeliveryMode) -> Option<RedirectionEntryError> {
    if delivery_mode.spec_uses_vector() {
        if vector < FIRST_USABLE_INTERRUPT_VECTOR || vector == 0xff {
            Some(RedirectionEntryError::VectorOutOfRange)
        } else {
            None
        }
    } else if vector != 0 {
        Some(RedirectionEntryError::VectorNotAllowedForDeliveryMode)
    } else {
        None
    }
}

pub const REDIRECTION_MASKED: u64 = 0x1_0000;

/// The raw value of a redirection entry with these fields.
pub open spec fn spec_entry_raw(
    vector: u8,
    delivery_mode: DeliveryMode,
    destination_mode: DestinationMode,
    polarity: PinPolarity,
    trigger: PinTrigger,
    masked: bool,
    destination: u8,
) -> u64 {
    (vector as u64) | (delivery_mode.spec_bits() << 8u64) | (if destination_mode
        == DestinationMode::Logical {
        0x800u64
    } else {
        0u64
    }) | (if polarity == PinPolarity::ActiveLow {
        0x2000u64
    } else {
        0u64
    }) | (if trigger == PinTrigger::Level {
        0x8000u64
    } else {
        0u64
    }) | (if masked {
        REDIRECTION_MASKED
    } else {
        0u64
    }) | ((destination as u64) << 56u64)
}

/// One 64-bit I/O APIC redirection-table entry.
#[derive(Clone, Copy, Debug, PartialEq, Eq, Structural)]
pub struct RedirectionEntry(u64);

impl RedirectionEntry {
    pub closed spec fn spec_raw(self) -> u64 {
        self.0
    }

    /// Builds an entry, refusing vectors the CPU has already reserved.
    pub fn new(
        vector: u8,
        delivery_mode: DeliveryMode,
        destination_mode: DestinationMode,
        polarity: PinPolarity,
        trigger: PinTrigger,
        masked: bool,
        destination: u8,
    ) -> (r: Result<Self, RedirectionEntryError>)
        ensures
            match spec_vector_error(vector, delivery_mode) {
                Some(e) => r == Err::<Self, RedirectionEntryError>(e),
                None => r matches Ok(entry) && entry.spec_raw() == spec_entry_raw(
                    vector,
                    delivery_mode,
                    destination_mode,
                    polarity,
                    trigger,
                    masked,
                    destination,
                ),
            },
    {
        if delivery_mode.uses_vector() {
            if vector < FIRST_USABLE_INTERRUPT_VECTOR || vector == 0xff {
                return Err(RedirectionEntryError::VectorOutOfRange);
            }
        } else if vector != 0 {
            return Err(RedirectionEntryError::VectorNotAllowedForDeliveryMode);
        }
        let destination_mode_bit: u64 = match destination_mode {
            DestinationMode::Physical => 0,
            DestinationMode::Logical => 0x800,
        };
        let polarity_bit: u64 = match polarity {
            PinPolarity::ActiveHigh => 0,
            PinPolarity::ActiveLow => 0x2000,
        };
        let trigger_bit: u64 = match trigger {
            PinTrigger::Edge => 0,
            PinTrigger::Level => 0x8000,
        };
        let mask_bit: u64 = if masked {
            REDIRECTION_MASKED
        } else {
            0
        };
        Ok(
            Self(
                vector as u64 | (delivery_mode.bits() << 8u64) | destination_mode_bit | polarity_bit
                    | trigger_bit | mask_bit | ((destination as u64) << 56u64),
            ),
        )
    }

    pub fn raw(self) -> (r: u64)
        ensures
            r == self.spec_raw(),
    {
        self.0
    }

    /// Low half, written to register `0x10 + 2n`.
    pub fn low(self) -> (r: u32)
        ensures
            r == self.spec_raw() as u32,
    {
        self.0 as u32
    }

    /// High half, written to register `0x11 + 2n`.
    pub fn high(self) -> (r: u32)
        ensures
            r == (self.spec_raw() >> 32u64) as u32,
    {
        (self.0 >> 32u64) as u32
    }

    pub fn is_masked(self) -> (r: bool)
        ensures
            r == (self.spec_raw() & REDIRECTION_MASKED != 0),
    {
        self.0 & REDIRECTION_MASKED != 0
    }

    /// The same entry with its mask bit set or cleared, every other bit
    /// untouched.
    pub fn with_mask(self, masked: bool) -> (r: Self)
        ensures
            r.spec_raw() == if masked {
                self.spec_raw() | REDIRECTION_MASKED
            } else {
                self.spec_raw() & !REDIRECTION_MASKED
            },
            (r.spec_raw() & REDIRECTION_MASKED != 0) == masked,
            r.spec_raw() & !REDIRECTION_MASKED == self.spec_raw() & !REDIRECTION_MASKED,
    {
        let raw = self.0;
        assert((raw | 0x1_0000u64) & 0x1_0000u64 != 0 && (raw & !0x1_0000u64) & 0x1_0000u64 == 0
            && (raw | 0x1_0000u64) & !0x1_0000u64 == raw & !0x1_0000u64 && (raw & !0x1_0000u64)
            & !0x1_0000u64 == raw & !0x1_0000u64) by (bit_vector);
        if masked {
            Self(self.0 | REDIRECTION_MASKED)
        } else {
            Self(self.0 & !REDIRECTION_MASKED)
        }
    }

    /// Reconstructs an entry from the two halves read back from the hardware.
    pub fn from_halves(low: u32, high: u32) -> (r: Self)
        ensures
            r.spec_raw() == (low as u64) | ((high as u64) << 32u64),
    {
        Self((low as u64) | ((high as u64) << 32u64))
    }

    pub fn vector(self) -> (r: u8)
        ensures
            r == self.spec_raw() as u8,
    {
        self.0 as u8
    }

    pub fn destination(self) -> (r: u8)
        ensures
            r == (self.spec_raw() >> 56u64) as u8,
    {
        (self.0 >> 56u64) as u8
    }
}

/// Register indices holding the low and high halves of redirection entry `n`.
pub fn redirection_registers(index: u8) -> (r: Result<(u8, u8), RedirectionEntryError>)
    ensures
        index > MAX_REDIRECTION_INDEX ==> r == Err::<(u8, u8), RedirectionEntryError>(
            RedirectionEntryError::IndexOutOfRange,
        ),
        index <= MAX_REDIRECTION_INDEX ==> r == Ok::<(u8, u8), RedirectionEntryError>(
            ((16 + 2 * index) as u8, (17 + 2 * index) as u8),
        ),
{
    if index > MAX_REDIRECTION_INDEX {
        return Err(RedirectionEntryError::IndexOutOfRange);
    }
    let low = IOAPIC_REGISTER_REDIRECTION_BASE + index * 2;
    Ok((low, low + 1))
}

/// Number of redirection entries an I/O APIC implements, from the
/// maximum-redirection-entry field of `IOAPICVER`.
pub fn redirection_entry_count(version_register: u32) -> (r: u32)
    ensures
        r == ((version_register >> 16u32) & 0xff) + 1,
{
    assert((version_register >> 16u32) & 0xff <= 0xff) by (bit_vector);
    ((version_register >> 16u32) & 0xff) + 1
}

/// An entry built from the fields gives back its vector and destination, and
/// masking then unmasking gives back the unmasked entry.
pub proof fn lemma_entry_fields_round_trip(
    vector: u8,
    delivery_mode: DeliveryMode,
    destination_mode: DestinationMode,
    polarity: PinPolarity,
    trigger: PinTrigger,
    masked: bool,
    destination: u8,
)
    ensures
        spec_entry_raw(vector, delivery_mode, destination_mode, polarity, trigger, masked, destination)
            as u8 == vector,
        (spec_entry_raw(vector, delivery_mode, destination_mode, polarity, trigger, masked, destination)
            >> 56u64) as u8 == destination,
        (spec_entry_raw(vector, delivery_mode, destination_mode, polarity, trigger, masked, destination)
            & REDIRECTION_MASKED != 0) == masked,
        spec_entry_raw(vector, delivery_mode, destination_mode, polarity, trigger, true, destination)
            & !REDIRECTION_MASKED == spec_entry_raw(
            vector,
            delivery_mode,
            destination_mode,
            polarity,
            trigger,
            false,
            destination,
        ),
{
    let mode = delivery_mode.spec_bits();
    let dm: u64 = if destination_mode == DestinationMode::Logical { 0x800 } else { 0 };
    let pol: u64 = if polarity == PinPolarity::ActiveLow { 0x2000 } else { 0 };
    let trig: u64 = if trigger == PinTrigger::Level { 0x8000 } else { 0 };
    let m: u64 = if masked { 0x1_0000 } else { 0 };
    assert(mode <= 7 && (dm == 0 || dm == 0x800) && (pol == 0 || pol == 0x2000) && (trig == 0
        || trig == 0x8000) && (m == 0 || m == 0x1_0000) ==> {
        let raw = (vector as u64) | (mode << 8u64) | dm | pol | trig | m | ((destination as u64)
            << 56u64);
        let on = (vector as u64) | (mode << 8u64) | dm | pol | trig | 0x1_0000u64 | ((destination as u64)
            << 56u64);
        let off = (vector as u64) | (mode << 8u64) | dm | pol | trig | 0u64 | ((destination as u64)
            << 56u64);
        &&& raw as u8 == vector
        &&& (raw >> 56u64) as u8 == destination
        &&& (raw & 0x1_0000u64 != 0) == (m == 0x1_0000)
        &&& on & !0x1_0000u64 == off
    }) by (bit_vector);
}

} // verus!
