//! PCI addressing and class-code classification.

use vstd::prelude::*;

verus! {

#[derive(Clone, Copy, Debug, PartialEq, Eq, Structural)]
pub struct PciAddress {
    pub segment: u16,
    pub bus: u8,
    pub device: u8,
    pub function: u8,
}

impl PciAddress {
    pub fn new(segment: u16, bus: u8, device: u8, function: u8) -> (r: Option<Self>)
        ensures
            r is Some <==> device <= 31 && function <= 7,
            r matches Some(a) ==> a == (PciAddress { segment, bus, device, function }),
    {
        if device > 31 || function > 7 {
            return None;
        }
        Some(Self { segment, bus, device, function })
    }

    /// Offset of a configuration register inside the segment's ECAM window.
    pub fn ecam_offset(self, register_offset: u16) -> (r: Option<u64>)
        ensures
            r is Some <==> register_offset <= 0x0fff,
            r matches Some(o) ==> o == ((self.bus as u64) << 20u64) | ((self.device as u64) << 15u64)
                | ((self.function as u64) << 12u64) | (register_offset as u64),
            r matches Some(o) ==> (self.device <= 31 && self.function <= 7 ==> o == self.bus * 0x10_0000
                + self.device * 0x8000 + self.function * 0x1000 + register_offset),
    {
        if register_offset > 0x0fff {
            return None;
        }
        let b = self.bus as u64;
        let d = self.device as u64;
        let f = self.function as u64;
        let o = register_offset as u64;
        assert(b < 256 && d < 32 && f < 8 && o < 4096 ==> ((b << 20u64) | (d << 15u64) | (f << 12u64)
            | o) == b * 0x10_0000 + d * 0x8000 + f * 0x1000 + o) by (bit_vector);
        assert(d <= 31 ==> d < 32);
        Some((b << 20u64) | (d << 15u64) | (f << 12u64) | o)
    }
}

#[derive(Clone, Copy, Debug, PartialEq, Eq, Structural)]
pub struct PciClassCode {
    pub base: u8,
    pub subclass: u8,
    pub programming_interface: u8,
}

impl PciClassCode {
    pub fn new(base: u8, subclass: u8, programming_interface: u8) -> (r: Self)
        ensures
            r == (PciClassCode { base, subclass, programming_interface }),
    {
        Self { base, subclass, programming_interface }
    }

    /// The base class named by the base class byte.
    pub open spec fn spec_base_class(self) -> PciBaseClass {
        if self.base == 0x01 {
            PciBaseClass::MassStorage
        } else if self.base == 0x02 {
            PciBaseClass::Network
        } else if self.base == 0x03 {
            PciBaseClass::Display
        } else if self.base == 0x04 {
            PciBaseClass::Multimedia
        } else if self.base == 0x06 {
            PciBaseClass::Bridge
        } else if self.base == 0x0c {
            PciBaseClass::SerialBus
        } else {
            PciBaseClass::Other(self.base)
        }
    }

    pub fn base_class(self) -> (r: PciBaseClass)
        ensures
            r == self.spec_base_class(),
    {
        match self.base {
            0x01 => PciBaseClass::MassStorage,
            0x02 => PciBaseClass::Network,
            0x03 => PciBaseClass::Display,
            0x04 => PciBaseClass::Multimedia,
            0x06 => PciBaseClass::Bridge,
            0x0c => PciBaseClass::SerialBus,
            value => PciBaseClass::Other(value),
        }
    }

    pub fn is_nvme(self) -> (r: bool)
        ensures
            r == (self.base == 0x01 && self.subclass == 0x08 && self.programming_interface == 0x02),
    {
        self.base == 0x01 && self.subclass == 0x08 && self.programming_interface == 0x02
    }

    pub fn is_ahci(self) -> (r: bool)
        ensures
            r == (self.base == 0x01 && self.subclass == 0x06 && self.programming_interface == 0x01),
    {
        self.base == 0x01 && self.subclass == 0x06 && self.programming_interface == 0x01
    }

    pub fn is_xhci(self) -> (r: bool)
        ensures
            r == (self.base == 0x0c && self.subclass == 0x03 && self.programming_interface == 0x30),
    {
        self.base == 0x0c && self.subclass == 0x03 && self.programming_interface == 0x30
    }

    pub fn is_hda(self) -> (r: bool)
        ensures
            r == (self.base == 0x04 && self.subclass == 0x03),
    {
        self.base == 0x04 && self.subclass == 0x03
    }
}

#[derive(Clone, Copy, Debug, PartialEq, Eq, Structural)]
pub enum PciBaseClass {
    MassStorage,
    Network,
    Display,
    Multimedia,
    Bridge,
    SerialBus,
    Other(u8),
}

#[derive(Clone, Copy, Debug, PartialEq, Eq, Structural)]
pub struct PciDeviceIdentity {
    pub vendor_id: u16,
    pub device_id: u16,
    pub subsystem_vendor_id: Option<u16>,
    pub subsystem_device_id: Option<u16>,
    pub class: PciClassCode,
}

impl PciDeviceIdentity {
    pub fn is_present(self) -> (r: bool)
        ensures
            r == (self.vendor_id != 0xffff),
    {
        self.vendor_id != 0xffff
    }
}

/// Distinct valid addresses on one segment never share an ECAM register.
pub proof fn lemma_ecam_offsets_are_injective(a: PciAddress, b: PciAddress, ra: u16, rb: u16)
    requires
        a.device <= 31 && a.function <= 7 && ra <= 0x0fff,
        b.device <= 31 && b.function <= 7 && rb <= 0x0fff,
        a.bus * 0x10_0000 + a.device * 0x8000 + a.function * 0x1000 + ra == b.bus * 0x10_0000
            + b.device * 0x8000 + b.function * 0x1000 + rb,
    ensures
        a.bus == b.bus && a.device == b.device && a.function == b.function && ra == rb,
{
}

} // verus!
