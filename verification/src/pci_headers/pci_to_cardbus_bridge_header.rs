use super::pci_config_buffer::{not_enough_at_end, not_enough_at_start};
use super::{PciConfigBuffer, RegisterView};
use crate::PciInfoError;
use vstd::prelude::*;

verus! {

/// The header for PCI to Cardbus bus bridges.
///
/// All fields are the raw values of every non-reserved register part in
/// the configuration space.
///
/// The format of the header in PCI configuration space is the following.
///
///  ```text
/// +----------+---------+-------------+--------------+----------------+----------------+
/// | Register | Offset  |  Bits 31-24 | Bits 23-16   | Bits 15-8      | Bits 7-0       |
/// +----------+---------+-------------+--------------+----------------+----------------+
/// |    0x4   |   0x10  |              CardBus Socket/ExCa base address                |
/// |    0x5   |   0x14  |     Secondary status       | Reserved       | Offset of caps |
/// |    0x6   |   0x18  | Cbus Lat tim| Subord. bus  | CardBus bus r  | PCI bus number |
/// |    0x7   |   0x1C  |                 Memory Base Address 0                        |
/// |    0x8   |   0x20  |                 Memory Limit 0                               |
/// |    0x9   |   0x24  |                 Memory Base Address 1                        |
/// |    0xA   |   0x28  |                 Memory Limit 1                               |
/// |    0xB   |   0x2C  |                 I/O Base Address 0                           |
/// |    0xC   |   0x30  |                 I/O Limit 0                                  |
/// |    0xD   |   0x34  |                 I/O Base Address 1                           |
/// |    0xE   |   0x38  |                 I/O Limit 1                                  |
/// |    0xF   |   0x3C  |       Bridge Control       | Interrupt PIN  | Interrupt Line |
/// |   0x10   |   0x40  |    Subsystem Vendor ID     |       Subsystem Device ID       |
/// |   0x11   |   0x44  |        16-bit PC Card legacy mode base address               |
/// +----------+---------+-------------+--------------+----------------+----------------+
/// ```
#[derive(Debug, PartialEq, Eq)]
pub struct PciToCardbusBridgeHeader {
    pub cardbus_socket_exca_base_addr: u32,
    pub secondary_status: u16,
    pub offset_of_capabilities_list: u8,
    pub cardbus_latency_timer: u8,
    pub subordinate_bus_number: u8,
    pub cardbus_bus_number: u8,
    pub pci_bus_number: u8,
    pub memory_base_addr_0: u32,
    pub memory_limit_0: u32,
    pub memory_base_addr_1: u32,
    pub memory_limit_1: u32,
    pub io_base_addr_0: u32,
    pub io_limit_0: u32,
    pub io_base_addr_1: u32,
    pub io_limit_1: u32,
    pub bridge_control: u16,
    pub interrupt_pin: u8,
    pub interrupt_line: u8,
    pub subsystem_vendor_id: u16,
    pub subsystem_device_id: u16,
    pub pc_card_16bit_legacy_mode_base_addr: u32,
}

impl Clone for PciToCardbusBridgeHeader {
    fn clone(&self) -> (r: Self)
        ensures
            r == *self,
    {
        Self {
            cardbus_socket_exca_base_addr: self.cardbus_socket_exca_base_addr,
            secondary_status: self.secondary_status,
            offset_of_capabilities_list: self.offset_of_capabilities_list,
            cardbus_latency_timer: self.cardbus_latency_timer,
            subordinate_bus_number: self.subordinate_bus_number,
            cardbus_bus_number: self.cardbus_bus_number,
            pci_bus_number: self.pci_bus_number,
            memory_base_addr_0: self.memory_base_addr_0,
            memory_limit_0: self.memory_limit_0,
            memory_base_addr_1: self.memory_base_addr_1,
            memory_limit_1: self.memory_limit_1,
            io_base_addr_0: self.io_base_addr_0,
            io_limit_0: self.io_limit_0,
            io_base_addr_1: self.io_base_addr_1,
            io_limit_1: self.io_limit_1,
            bridge_control: self.bridge_control,
            interrupt_pin: self.interrupt_pin,
            interrupt_line: self.interrupt_line,
            subsystem_vendor_id: self.subsystem_vendor_id,
            subsystem_device_id: self.subsystem_device_id,
            pc_card_16bit_legacy_mode_base_addr: self.pc_card_16bit_legacy_mode_base_addr,
        }
    }
}

impl PciToCardbusBridgeHeader {
    /// The length of the header in bytes, the common header included.
    pub const LENGTH: usize = 72;

    /// The header type that selects this header.
    pub const ID: u8 = 2;

    /// Whether the fields of this header are what registers 4 to 0x11 of
    /// `regs` hold.
    pub open spec fn decodes(&self, regs: RegisterView) -> bool {
        &&& self.cardbus_socket_exca_base_addr == regs.u32_at(0x4)
        &&& self.secondary_status == regs.u16_hi(0x5)
        &&& self.offset_of_capabilities_list == regs.u8_at(0x5, 0)
        &&& self.cardbus_latency_timer == regs.u8_at(0x6, 3)
        &&& self.subordinate_bus_number == regs.u8_at(0x6, 2)
        &&& self.cardbus_bus_number == regs.u8_at(0x6, 1)
        &&& self.pci_bus_number == regs.u8_at(0x6, 0)
        &&& self.memory_base_addr_0 == regs.u32_at(0x7)
        &&& self.memory_limit_0 == regs.u32_at(0x8)
        &&& self.memory_base_addr_1 == regs.u32_at(0x9)
        &&& self.memory_limit_1 == regs.u32_at(0xA)
        &&& self.io_base_addr_0 == regs.u32_at(0xB)
        &&& self.io_limit_0 == regs.u32_at(0xC)
        &&& self.io_base_addr_1 == regs.u32_at(0xD)
        &&& self.io_limit_1 == regs.u32_at(0xE)
        &&& self.bridge_control == regs.u16_hi(0xF)
        &&& self.interrupt_pin == regs.u8_at(0xF, 1)
        &&& self.interrupt_line == regs.u8_at(0xF, 0)
        &&& self.subsystem_vendor_id == regs.u16_hi(0x10)
        &&& self.subsystem_device_id == regs.u16_lo(0x10)
        &&& self.pc_card_16bit_legacy_mode_base_addr == regs.u32_at(0x11)
    }

    /// Two headers that decode the same registers are the same header.
    pub proof fn lemma_decodes_one(a: Self, b: Self, regs: RegisterView)
        requires
            a.decodes(regs),
            b.decodes(regs),
        ensures
            a == b,
    {
    }

    /// Reads the header through a register buffer.
    ///
    /// Succeeds exactly when registers 4 to 0x11 are available.
    pub fn with_pci_cfg(pci_cfg: &PciConfigBuffer<'_>) -> (r: Result<Self, PciInfoError>)
        ensures
            pci_cfg@.available(4, 0x11) ==> r is Ok && r->Ok_0.decodes(pci_cfg@),
            !pci_cfg@.available(4, 0x11) ==> r is Err && r->Err_0@ == (if pci_cfg@.first_register()
                > 4 {
                not_enough_at_start()
            } else {
                not_enough_at_end()
            }),
    {
        match pci_cfg.assert_registers_available(4, 0x11) {
            Err(e) => Err(e),
            Ok(()) => {
                Ok(
                    Self {
                        cardbus_socket_exca_base_addr: pci_cfg.read_u32(0x4),
                        secondary_status: pci_cfg.read_u16_hi(0x5),
                        offset_of_capabilities_list: pci_cfg.read_u8(0x5, 0),
                        cardbus_latency_timer: pci_cfg.read_u8(0x6, 3),
                        subordinate_bus_number: pci_cfg.read_u8(0x6, 2),
                        cardbus_bus_number: pci_cfg.read_u8(0x6, 1),
                        pci_bus_number: pci_cfg.read_u8(0x6, 0),
                        memory_base_addr_0: pci_cfg.read_u32(0x7),
                        memory_limit_0: pci_cfg.read_u32(0x8),
                        memory_base_addr_1: pci_cfg.read_u32(0x9),
                        memory_limit_1: pci_cfg.read_u32(0xA),
                        io_base_addr_0: pci_cfg.read_u32(0xB),
                        io_limit_0: pci_cfg.read_u32(0xC),
                        io_base_addr_1: pci_cfg.read_u32(0xD),
                        io_limit_1: pci_cfg.read_u32(0xE),
                        bridge_control: pci_cfg.read_u16_hi(0xF),
                        interrupt_pin: pci_cfg.read_u8(0xF, 1),
                        interrupt_line: pci_cfg.read_u8(0xF, 0),
                        subsystem_vendor_id: pci_cfg.read_u16_hi(0x10),
                        subsystem_device_id: pci_cfg.read_u16_lo(0x10),
                        pc_card_16bit_legacy_mode_base_addr: pci_cfg.read_u32(0x11),
                    },
                )
            },
        }
    }
}

} // verus!
