# awos

The verified core of Accessible Windows: the boot-to-kernel handoff, the
firmware's accessible setup and boot screen, ACPI and PCI parsing, the
Mach-O loader, the storage formats and their trust checks, the screen reader
and braille output, and the recovery and accessibility contracts that every
boot stage must meet. Every function in `src/` carries a contract that Verus
proves.

- `src/` — the library, one module per subsystem; `src/firmware/` holds the
  decisions of the UEFI boot application.
- `tests/` — tests of the library on concrete values.
- `app/` — the UEFI boot application: console, keyboard, firmware variables,
  port and register access, and the jump into the kernel, all driven by the
  library's decisions.

## Scope

The kernel handoff (`kernel_core::KernelHandoff`) describes the ACPI RSDP,
the framebuffer and the memory map's entry count. It carries no PCIe ECAM
regions and the memory module has no physical-range type, so the library
holds no plan of the physical ranges to keep mapped across the kernel's first
page-table switch, and the loader reports the ECAM allocations of the MCFG
table it finds (validated by `acpi::validate_mcfg`) without handing them on.
