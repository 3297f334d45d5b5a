use super::pci_config_buffer::{not_enough_at_end, not_enough_at_start};
use super::{PciConfigBuffer, RegisterView};
use crate::PciInfoError;
use vstd::prelude::*;

verus! {

/// The header for PCI to PCI bus bridges.
///
/// All fields are the raw values of every non-reserved register part in
/// the configuration space.
///
/// The format of the header in PCI configuration space is the following.
///
///  ```text
/// +----------+---------+-------------+--------------+----------------+----------------+
/// | Register | Offset  |  Bits 31-24 | Bits 23-16   | Bits 15-8      | Bits 7-0       |
/// +----------+---------+-------------+--------------+----------------+----------------+
/// |   0x4    |   0x10  |                Base address #0 (BAR0)                        |
/// |   0x5    |   0x14  |                Base address #1 (BAR1)                        |
/// |   0x6    |   0x18  | S.Lat Timer | Subord. Bus  | Secondary Bus  | Primary Bus    |
/// |   0x7    |   0x1C  |     Secondondary Status    |    I/O Limit   |   I/O Base     |
/// |   0x8    |   0x20  |        Memory Limit        |            Memory Base          |
/// |   0x9    |   0x24  | Prefetchable Memory Limit  |    Prefetchable Memory Base     |
/// |   0xA    |   0x28  |            Prefetchable Base Upper 32 Bits                   |
/// |   0xB    |   0x2C  |            Prefetchable Limit Upper 32 Bits                  |
/// |   0xC    |   0x30  |   I/O Limit Upper 16 Bits  |     I/O Base Upper 16 Bits      |
/// |   0xD    |   0x34  |            Reserved        |      Capability Pointer         |
/// |   0xE    |   0x38  |               Expansion ROM base address                     |
/// |   0xF    |   0x3C  |       Bridge Control       | Interrupt PIN  | Interrupt Line |
/// +----------+---------+-------------+--------------+----------------+----------------+
/// ```
#[derive(Debug, PartialEq, Eq)]
pub struct PciToPciBridgeHeader {
    pub base_addr: [u32; 2],
    pub secondary_latency_timer: u8,
    pub subordinate_bus_number: u8,
    pub secondary_bus_number: u8,
    pub primary_bus_number: u8,
    pub secondary_status: u16,
    pub io_limit: u8,
    pub io_base: u8,
    pub memory_limit: u16,
    pub memory_base: u16,
    pub prefetchable_memory_limit: u16,
    pub prefetchable_memory_base: u16,
    pub prefetchable_base_upper_32_bits: u32,
    pub prefetchable_limit_upper_32_bits: u32,
    pub io_limit_upper_16_bits: u16,
    pub io_base_upper_16_bits: u16,
    pub capability_pointer: u16,
    pub expansion_rom_base_addr: u32,
    pub bridge_control: u16,
    pub interrupt_pin: u8,
    pub interrupt_line: u8,
}

impl Clone for PciToPciBridgeHeader {
    fn clone(&self) -> (r: Self)
        ensures
            r == *self,
    {
        Self {
            base_addr: self.base_addr,
            secondary_latency_timer: self.secondary_latency_timer,
            subordinate_bus_number: self.subordinate_bus_number,
            secondary_bus_number: self.secondary_bus_number,
            primary_bus_number: self.primary_bus_number,
            secondary_status: self.secondary_status,
            io_limit: self.io_limit,
            io_base: self.io_base,
            memory_limit: self.memory_limit,
            memory_base: self.memory_base,
            prefetchable_memory_limit: self.prefetchable_memory_limit,
            prefetchable_memory_base: self.prefetchable_memory_base,
            prefetchable_base_upper_32_bits: self.prefetchable_base_upper_32_bits,
            prefetchable_limit_upper_32_bits: self.prefetchable_limit_upper_32_bits,
            io_limit_upper_16_bits: self.io_limit_upper_16_bits,
            io_base_upper_16_bits: self.io_base_upper_16_bits,
            capability_pointer: self.capability_pointer,
            expansion_rom_base_addr: self.expansion_rom_base_addr,
            bridge_control: self.bridge_control,
            interrupt_pin: self.interrupt_pin,
            interrupt_line: self.interrupt_line,
        }
    }
}

impl PciToPciBridgeHeader {
    /// The length of the header in bytes, the common header included.
    pub const LENGTH: usize = 64;

    /// The header type that selects this header.
    pub const ID: u8 = 1;

    /// Whether the fields of this header are what registers 4 to 0xF of
    /// `regs` hold.
    pub open spec fn decodes(&self, regs: RegisterView) -> bool {
        &&& self.base_addr@.len() == 2
        &&& self.base_addr@[0] == regs.u32_at(0x4)
        &&& self.base_addr@[1] == regs.u32_at(0x5)
        &&& self.secondary_latency_timer == regs.u8_at(0x6, 3)
        &&& self.subordinate_bus_number == regs.u8_at(0x6, 2)
        &&& self.secondary_bus_number == regs.u8_at(0x6, 1)
        &&& self.primary_bus_number == regs.u8_at(0x6, 0)
        &&& self.secondary_status == regs.u16_hi(0x7)
        &&& self.io_limit == regs.u8_at(0x7, 1)
        &&& self.io_base == regs.u8_at(0x7, 0)
        &&& self.memory_limit == regs.u16_hi(0x8)
        &&& self.memory_base == regs.u16_lo(0x8)
        &&& self.prefetchable_memory_limit == regs.u16_hi(0x9)
        &&& self.prefetchable_memory_base == regs.u16_lo(0x9)
        &&& self.prefetchable_base_upper_32_bits == regs.u32_at(0xA)
        &&& self.prefetchable_limit_upper_32_bits == regs.u32_at(0xB)
        &&& self.io_limit_upper_16_bits == regs.u16_hi(0xC)
        &&& self.io_base_upper_16_bits == regs.u16_lo(0xC)
        &&& self.capability_pointer == regs.u16_lo(0xD)
        &&& self.expansion_rom_base_addr == regs.u32_at(0xE)
        &&& self.bridge_control == regs.u16_hi(0xF)
        &&& self.interrupt_pin == regs.u8_at(0xF, 1)
        &&& self.interrupt_line == regs.u8_at(0xF, 0)
    }

    /// Reads the header through a register buffer.
    ///
    /// Succeeds exactly when registers 4 to 0xF are available.
    pub fn with_pci_cfg(pci_cfg: &PciConfigBuffer<'_>) -> (r: Result<Self, PciInfoError>)
        ensures
            pci_cfg@.available(4, 0xF) ==> r is Ok && r->Ok_0.decodes(pci_cfg@),
            !pci_cfg@.available(4, 0xF) ==> r is Err && r->Err_0@ == (if pci_cfg@.first_register()
                > 4 {
                not_enough_at_start()
            } else {
                not_enough_at_end()
            }),
    {
        match pci_cfg.assert_registers_available(4, 0xF) {
            Err(e) => Err(e),
            Ok(()) => {
                Ok(
                    Self {
                        base_addr: [pci_cfg.read_u32(0x4), pci_cfg.read_u32(0x5)],
                        secondary_latency_timer: pci_cfg.read_u8(0x6, 3),
                        subordinate_bus_number: pci_cfg.read_u8(0x6, 2),
                        secondary_bus_number: pci_cfg.read_u8(0x6, 1),
                        primary_bus_number: pci_cfg.read_u8(0x6, 0),
                        secondary_status: pci_cfg.read_u16_hi(0x7),
                        io_limit: pci_cfg.read_u8(0x7, 1),
                        io_base: pci_cfg.read_u8(0x7, 0),
                        memory_limit: pci_cfg.read_u16_hi(0x8),
                        memory_base: pci_cfg.read_u16_lo(0x8),
                        prefetchable_memory_limit: pci_cfg.read_u16_hi(0x9),
                        prefetchable_memory_base: pci_cfg.read_u16_lo(0x9),
                        prefetchable_base_upper_32_bits: pci_cfg.read_u32(0xA),
                        prefetchable_limit_upper_32_bits: pci_cfg.read_u32(0xB),
                        io_limit_upper_16_bits: pci_cfg.read_u16_hi(0xC),
                        io_base_upper_16_bits: pci_cfg.read_u16_lo(0xC),
                        capability_pointer: pci_cfg.read_u16_lo(0xD),
                        expansion_rom_base_addr: pci_cfg.read_u32(0xE),
                        bridge_control: pci_cfg.read_u16_hi(0xF),
                        interrupt_pin: pci_cfg.read_u8(0xF, 1),
                        interrupt_line: pci_cfg.read_u8(0xF, 0),
                    },
                )
            },
        }
    }
}

} // verus!
