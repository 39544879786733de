//! Verified core of the Accessible Windows boot, kernel, storage and
//! accessibility contracts.

pub mod abi;
pub mod accessibility;
pub mod accessibility_core;
pub mod le_bytes;
pub mod acpi;
pub mod app_compat;
pub mod recovery_contract;
pub mod recovery_io;
pub mod generation;
pub mod bootstate;
pub mod braille;
pub mod runtime_sources;
pub mod screen_reader;
pub mod guest_vm;
pub mod system_core;
pub mod kernel;
pub mod kernel_contract;
pub mod kernel_core;
pub mod memory;
pub mod pci;
pub mod storage;
pub mod fs_core;
pub mod macho;
pub mod macho_fixups;
pub mod macho_bind;
pub mod macho_dyld;
pub mod macho_loader;
pub mod storefs;
pub mod text;
pub mod x86_interrupts;
pub mod firmware;
