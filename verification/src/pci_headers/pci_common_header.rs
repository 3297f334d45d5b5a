use super::pci_config_buffer::{not_enough_at_end, not_enough_at_start};
use super::{PciConfigBuffer, RegisterView};
use crate::PciInfoError;
use vstd::prelude::*;

verus! {

/// The header that is common for all PCI devices.
///
/// All fields are the raw values of every non-reserved register part in
/// the configuration space.
///
/// The format of the header in PCI configuration space is the following.
///
///  ```text
/// +----------+---------+-------------+--------------+----------------+----------------+
/// | Register | Offset  | Bits 31-24  | Bits 23-16   | Bits 15-8      | Bits 7-0       |
/// +----------+---------+-------------+--------------+----------------+----------------+
/// |    0x0   |   0x0   | Device ID                  | Vendor ID                       |
/// |    0x1   |   0x4   | Status                     | Command                         |
/// |    0x2   |   0x8   | Class code  | Subclass     | Prog IF        | Revision ID    |
/// |    0x3   |   0xC   | BIST        | Header type  | Latency Timer  | Cache Line Size|
/// +----------+---------+-------------+--------------+----------------+----------------+
/// ```
#[derive(Debug, PartialEq, Eq)]
pub struct PciCommonHeader {
    pub device_id: u16,
    pub vendor_id: u16,
    pub status: u16,
    pub command: u16,
    pub class_code: u8,
    pub subclass_code: u8,
    pub prog_iface_code: u8,
    pub revision_id: u8,
    pub bist: u8,
    pub header_type: u8,
    pub latency_timer: u8,
    pub cache_line_size: u8,
}

impl Clone for PciCommonHeader {
    fn clone(&self) -> (r: Self)
        ensures
            r == *self,
    {
        Self {
            device_id: self.device_id,
            vendor_id: self.vendor_id,
            status: self.status,
            command: self.command,
            class_code: self.class_code,
            subclass_code: self.subclass_code,
            prog_iface_code: self.prog_iface_code,
            revision_id: self.revision_id,
            bist: self.bist,
            header_type: self.header_type,
            latency_timer: self.latency_timer,
            cache_line_size: self.cache_line_size,
        }
    }
}

impl PciCommonHeader {
    /// The maximum length of the data of PCI headers parsed by this
    /// crate.
    pub const MAX_HEADER_LEN: usize = 72;

    /// The length of the common header in PCI configuration space.
    pub const COMMON_HEADER_LEN: usize = 16;

    /// Whether the fields of this header are what registers 0 to 3 of
    /// `regs` hold.
    pub open spec fn decodes(&self, regs: RegisterView) -> bool {
        &&& self.vendor_id == regs.u16_lo(0)
        &&& self.device_id == regs.u16_hi(0)
        &&& self.command == regs.u16_lo(1)
        &&& self.status == regs.u16_hi(1)
        &&& self.revision_id == regs.u8_at(2, 0)
        &&& self.prog_iface_code == regs.u8_at(2, 1)
        &&& self.subclass_code == regs.u8_at(2, 2)
        &&& self.class_code == regs.u8_at(2, 3)
        &&& self.cache_line_size == regs.u8_at(3, 0)
        &&& self.latency_timer == regs.u8_at(3, 1)
        &&& self.header_type == regs.u8_at(3, 2)
        &&& self.bist == regs.u8_at(3, 3)
    }

    /// Two headers that decode the same registers are the same header.
    pub proof fn lemma_decodes_one(a: Self, b: Self, regs: RegisterView)
        requires
            a.decodes(regs),
            b.decodes(regs),
        ensures
            a == b,
    {
    }

    /// Reads the common header from a slice containing the bytes of
    /// the PCI configuration space for this device.
    ///
    /// Succeeds exactly when there are at least 16 bytes; with fewer it
    /// fails with the bounds error of [`not_enough_at_end`], whatever the
    /// bytes hold.
    pub fn with_bytes(bytes: &[u8]) -> (r: Result<Self, PciInfoError>)
        ensures
            bytes@.len() >= 16 ==> r is Ok && r->Ok_0.decodes(RegisterView::whole(bytes@)),
            bytes@.len() < 16 ==> r is Err && r->Err_0@ == not_enough_at_end(),
    {
        let pci_cfg = PciConfigBuffer::new(bytes, 0);
        Self::with_pci_cfg(&pci_cfg)
    }

    /// Reads the common header through a register buffer.
    ///
    /// Succeeds exactly when registers 0 to 3 are available.
    pub fn with_pci_cfg(pci_cfg: &PciConfigBuffer<'_>) -> (r: Result<Self, PciInfoError>)
        ensures
            pci_cfg@.available(0, 3) ==> r is Ok && r->Ok_0.decodes(pci_cfg@),
            !pci_cfg@.available(0, 3) ==> r is Err && r->Err_0@ == (if pci_cfg@.first_register()
                > 0 {
                not_enough_at_start()
            } else {
                not_enough_at_end()
            }),
    {
        match pci_cfg.assert_registers_available(0, 3) {
            Err(e) => Err(e),
            Ok(()) => {
                Ok(
                    Self {
                        vendor_id: pci_cfg.read_u16_lo(0),
                        device_id: pci_cfg.read_u16_hi(0),
                        command: pci_cfg.read_u16_lo(1),
                        status: pci_cfg.read_u16_hi(1),
                        revision_id: pci_cfg.read_u8(2, 0),
                        prog_iface_code: pci_cfg.read_u8(2, 1),
                        subclass_code: pci_cfg.read_u8(2, 2),
                        class_code: pci_cfg.read_u8(2, 3),
                        cache_line_size: pci_cfg.read_u8(3, 0),
                        latency_timer: pci_cfg.read_u8(3, 1),
                        header_type: pci_cfg.read_u8(3, 2),
                        bist: pci_cfg.read_u8(3, 3),
                    },
                )
            },
        }
    }
}

} // verus!
