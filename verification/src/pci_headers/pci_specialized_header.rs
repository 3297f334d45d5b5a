use super::pci_config_buffer::not_enough_at_end;
use super::{
    PciConfigBuffer, PciGenericDeviceHeader, PciToCardbusBridgeHeader, PciToPciBridgeHeader,
    RegisterView,
};
use crate::{PciInfoError, PciInfoErrorView};
use vstd::prelude::*;

verus! {

/// Enumeration of the supported specialized headers of PCI devices.
#[derive(Debug, PartialEq, Eq)]
pub enum PciSpecializedHeader {
    /// Sub-header for a generic PCI device
    GenericDevice(PciGenericDeviceHeader),
    /// Sub-header for PCI-to-PCI bus bridge
    PciToPciBridge(PciToPciBridgeHeader),
    /// Sub-header for PCI-to-Cardbus bus bridge
    PciToCardbusBridge(PciToCardbusBridgeHeader),
}

impl Clone for PciSpecializedHeader {
    fn clone(&self) -> (r: Self)
        ensures
            r == *self,
    {
        match self {
            PciSpecializedHeader::GenericDevice(h) => PciSpecializedHeader::GenericDevice(
                h.clone(),
            ),
            PciSpecializedHeader::PciToPciBridge(h) => PciSpecializedHeader::PciToPciBridge(
                h.clone(),
            ),
            PciSpecializedHeader::PciToCardbusBridge(h) => PciSpecializedHeader::PciToCardbusBridge(
                h.clone(),
            ),
        }
    }
}

impl PciSpecializedHeader {
    /// The kind of header that `header_type` selects: its low seven bits.
    /// The highest bit marks a device with several functions and selects
    /// nothing.
    pub open spec fn kind_of(header_type: u8) -> u8 {
        header_type & 0x7F
    }

    /// The length in bytes of the whole header of the given kind, the
    /// common header included, for the kinds that are known.
    pub open spec fn length_of_kind(kind: u8) -> Option<usize> {
        if kind == 0 {
            Some(64usize)
        } else if kind == 1 {
            Some(64usize)
        } else if kind == 2 {
            Some(72usize)
        } else {
            None
        }
    }

    /// Where the bytes handed to [`Self::read_subheader`] start in
    /// configuration space.
    pub open spec fn start_of(includes_common_header: bool) -> int {
        if includes_common_header {
            0
        } else {
            16
        }
    }

    /// Whether this header is of the given kind and its fields are what
    /// `regs` holds.
    pub open spec fn decodes(&self, kind: u8, regs: RegisterView) -> bool {
        match *self {
            PciSpecializedHeader::GenericDevice(h) => kind == 0 && h.decodes(regs),
            PciSpecializedHeader::PciToPciBridge(h) => kind == 1 && h.decodes(regs),
            PciSpecializedHeader::PciToCardbusBridge(h) => kind == 2 && h.decodes(regs),
        }
    }

    /// The kind of a header type is the type without its highest bit, so
    /// that the mark of a device with several functions changes nothing.
    pub proof fn lemma_kind_of(header_type: u8)
        ensures
            Self::kind_of(header_type) == header_type % 128,
            Self::kind_of(header_type) < 128,
            Self::kind_of(header_type | 0x80) == Self::kind_of(header_type),
    {
        assert(header_type & 0x7F == header_type % 128) by (bit_vector);
        assert((header_type | 0x80) & 0x7F == header_type & 0x7F) by (bit_vector);
    }

    /// The variant of a header that was read is decided by the kind alone:
    /// kind 0 is a generic device, kind 1 a PCI-to-PCI bridge and kind 2 a
    /// PCI-to-Cardbus bridge, whatever the bytes hold.
    pub proof fn lemma_variant_by_kind(self, kind: u8, regs: RegisterView)
        requires
            self.decodes(kind, regs),
        ensures
            kind == 0 <==> self is GenericDevice,
            kind == 1 <==> self is PciToPciBridge,
            kind == 2 <==> self is PciToCardbusBridge,
            Self::length_of_kind(kind) is Some,
    {
    }

    /// Returns the length of the header for the specified `header_type`,
    /// the common header included, or nothing where the type is unknown.
    pub fn length_of_subheader(header_type: u8) -> (r: Option<usize>)
        ensures
            r == Self::length_of_kind(Self::kind_of(header_type)),
    {
        let kind: u8 = header_type & 0x7F;
        if kind == PciGenericDeviceHeader::ID {
            Some(PciGenericDeviceHeader::LENGTH)
        } else if kind == PciToPciBridgeHeader::ID {
            Some(PciToPciBridgeHeader::LENGTH)
        } else if kind == PciToCardbusBridgeHeader::ID {
            Some(PciToCardbusBridgeHeader::LENGTH)
        } else {
            None
        }
    }

    /// Reads the data of the sub-header from a memory buffer.
    /// - `bytes` : specifies the slice containing the data to be read
    /// - `includes_common_header` : true if the slice starts at the beginning
    ///   of the common header, false if the slice contains only the sub-header data
    ///
    /// The kind of header is decided by the low seven bits of `header_type`
    /// and by nothing else. For a known kind the read succeeds exactly when
    /// the bytes reach to the end of that header, and fails with the error of
    /// [`not_enough_at_end`] when they do not. For any other kind it fails
    /// with `UnknownPciHeaderType`, which carries `header_type` as given.
    pub fn read_subheader(header_type: u8, bytes: &[u8], includes_common_header: bool) -> (r:
        Result<Self, PciInfoError>)
        ensures
            match Self::length_of_kind(Self::kind_of(header_type)) {
                Some(length) => if Self::start_of(includes_common_header) + bytes@.len()
                    >= length {
                    r is Ok && r->Ok_0.decodes(
                        Self::kind_of(header_type),
                        RegisterView {
                            bytes: bytes@,
                            offset: Self::start_of(includes_common_header),
                        },
                    )
                } else {
                    r is Err && r->Err_0@ == not_enough_at_end()
                },
                None => r is Err && r->Err_0@ == PciInfoErrorView::UnknownPciHeaderType(
                    header_type,
                ),
            },
    {
        let bytes_offset: usize = if includes_common_header {
            0
        } else {
            16
        };
        let pci_cfg = PciConfigBuffer::new(bytes, bytes_offset);
        let kind: u8 = header_type & 0x7F;
        proof {
            pci_cfg@.lemma_available_by_length(4, 0xF);
            pci_cfg@.lemma_available_by_length(4, 0x11);
        }
        if kind == PciGenericDeviceHeader::ID {
            match PciGenericDeviceHeader::with_pci_cfg(&pci_cfg) {
                Ok(h) => Ok(PciSpecializedHeader::GenericDevice(h)),
                Err(e) => Err(e),
            }
        } else if kind == PciToPciBridgeHeader::ID {
            match PciToPciBridgeHeader::with_pci_cfg(&pci_cfg) {
                Ok(h) => Ok(PciSpecializedHeader::PciToPciBridge(h)),
                Err(e) => Err(e),
            }
        } else if kind == PciToCardbusBridgeHeader::ID {
            match PciToCardbusBridgeHeader::with_pci_cfg(&pci_cfg) {
                Ok(h) => Ok(PciSpecializedHeader::PciToCardbusBridge(h)),
                Err(e) => Err(e),
            }
        } else {
            Err(PciInfoError::UnknownPciHeaderType(header_type))
        }
    }
}

} // verus!
