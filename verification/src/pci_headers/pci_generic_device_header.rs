use super::pci_config_buffer::{not_enough_at_end, not_enough_at_start};
use super::{PciConfigBuffer, RegisterView};
use crate::PciInfoError;
use vstd::prelude::*;

verus! {

/// The header for generic PCI devices.
///
/// All fields are the raw values of every non-reserved register part in
/// the configuration space.
///
/// The format of the header in PCI configuration space is the following.
///
///  ```text
/// +----------+---------+-------------+--------------+----------------+----------------+
/// | Register | Offset  | Bits 31-24  | Bits 23-16   | Bits 15-8      | Bits 7-0       |
/// +----------+---------+-------------+--------------+----------------+----------------+
/// |   0x4    |   0x10  |                 Base address #0 (BAR0)                       |
/// |   0x5    |   0x14  |                 Base address #1 (BAR1)                       |
/// |   0x6    |   0x18  |                 Base address #2 (BAR2)                       |
/// |   0x7    |   0x1C  |                 Base address #3 (BAR3)                       |
/// |   0x8    |   0x20  |                 Base address #4 (BAR4)                       |
/// |   0x9    |   0x24  |                 Base address #5 (BAR5)                       |
/// |   0xA    |   0x28  |                 Cardbus CIS Pointer                          |
/// |   0xB    |   0x2C  |    Subsystem ID            |     Subsystem Vendor ID         |
/// |   0xC    |   0x30  |             Expansion ROM base address                       |
/// |   0xD    |   0x34  |                  Reserved  | Capabilities Pointer            |
/// |   0xE    |   0x38  |                         Reserved                             |
/// |   0xF    |   0x3C  | Max latency |   Min Grant  | Interrupt PIN  | Interrupt Line |
/// +----------+---------+-------------+--------------+----------------+----------------+
/// ```
#[derive(Debug, PartialEq, Eq)]
pub struct PciGenericDeviceHeader {
    pub base_addr: [u32; 6],
    pub cardbus_cis_ptr: u32,
    pub subsystem_device_id: u16,
    pub subsystem_vendor_id: u16,
    pub expansion_rom_base_addr: u32,
    pub capabilities_ptr: u16,
    pub max_latency: u8,
    pub min_grant: u8,
    pub interrupt_pin: u8,
    pub interrupt_line: u8,
}

impl Clone for PciGenericDeviceHeader {
    fn clone(&self) -> (r: Self)
        ensures
            r == *self,
    {
        Self {
            base_addr: self.base_addr,
            cardbus_cis_ptr: self.cardbus_cis_ptr,
            subsystem_device_id: self.subsystem_device_id,
            subsystem_vendor_id: self.subsystem_vendor_id,
            expansion_rom_base_addr: self.expansion_rom_base_addr,
            capabilities_ptr: self.capabilities_ptr,
            max_latency: self.max_latency,
            min_grant: self.min_grant,
            interrupt_pin: self.interrupt_pin,
            interrupt_line: self.interrupt_line,
        }
    }
}

impl PciGenericDeviceHeader {
    /// The length of the header in bytes, the common header included.
    pub const LENGTH: usize = 64;

    /// The header type that selects this header.
    pub const ID: u8 = 0;

    /// Whether the fields of this header are what registers 4 to 0xF of
    /// `regs` hold.
    pub open spec fn decodes(&self, regs: RegisterView) -> bool {
        &&& self.base_addr@.len() == 6
        &&& forall|i: int| 0 <= i < 6 ==> self.base_addr@[i] == regs.u32_at(4 + i)
        &&& self.cardbus_cis_ptr == regs.u32_at(0xA)
        &&& self.subsystem_device_id == regs.u16_hi(0xB)
        &&& self.subsystem_vendor_id == regs.u16_lo(0xB)
        &&& self.expansion_rom_base_addr == regs.u32_at(0xC)
        &&& self.capabilities_ptr == regs.u16_lo(0xD)
        &&& self.max_latency == regs.u8_at(0xF, 3)
        &&& self.min_grant == regs.u8_at(0xF, 2)
        &&& self.interrupt_pin == regs.u8_at(0xF, 1)
        &&& self.interrupt_line == regs.u8_at(0xF, 0)
    }

    /// Reads the header through a register buffer.
    ///
    /// Succeeds exactly when registers 4 to 0xF are available.
    pub fn with_pci_cfg(pci_cfg: &PciConfigBuffer<'_>) -> (r: Result<Self, PciInfoError>)
        ensures
            pci_cfg@.available(4, 0xF) ==> r is Ok && r->Ok_0.decodes(pci_cfg@),
            !pci_cfg@.available(4, 0xF) ==> r is Err && r->Err_0@ == (if pci_cfg@.first_register()
                > 4 {
                not_enough_at_start()
            } else {
                not_enough_at_end()
            }),
    {
        match pci_cfg.assert_registers_available(4, 0xF) {
            Err(e) => Err(e),
            Ok(()) => {
                Ok(
                    Self {
                        base_addr: [
                            pci_cfg.read_u32(0x4),
                            pci_cfg.read_u32(0x5),
                            pci_cfg.read_u32(0x6),
                            pci_cfg.read_u32(0x7),
                            pci_cfg.read_u32(0x8),
                            pci_cfg.read_u32(0x9),
                        ],
                        cardbus_cis_ptr: pci_cfg.read_u32(0xA),
                        subsystem_device_id: pci_cfg.read_u16_hi(0xB),
                        subsystem_vendor_id: pci_cfg.read_u16_lo(0xB),
                        expansion_rom_base_addr: pci_cfg.read_u32(0xC),
                        capabilities_ptr: pci_cfg.read_u16_lo(0xD),
                        max_latency: pci_cfg.read_u8(0xF, 3),
                        min_grant: pci_cfg.read_u8(0xF, 2),
                        interrupt_pin: pci_cfg.read_u8(0xF, 1),
                        interrupt_line: pci_cfg.read_u8(0xF, 0),
                    },
                )
            },
        }
    }
}

} // verus!
