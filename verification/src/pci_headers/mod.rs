//! This module offers access to the raw values of the PCI
//! configuration space headers.
//!
//! Access starts from the [`PciCommonHeader`] type; for more property
//! information create a [`PciSpecializedHeader`] using the
//! `header_type` field of the common header.

mod pci_common_header;
mod pci_config_buffer;
mod pci_generic_device_header;
mod pci_specialized_header;
mod pci_to_cardbus_bridge_header;
mod pci_to_pci_bridge_header;

pub use pci_common_header::PciCommonHeader;
pub use pci_config_buffer::{
    is_bounds_error, le_u16, le_u32, not_enough_at_end, not_enough_at_start, PciConfigBuffer,
    RegisterView, REGISTER_SIZE,
};
pub use pci_generic_device_header::PciGenericDeviceHeader;
pub use pci_specialized_header::PciSpecializedHeader;
pub use pci_to_cardbus_bridge_header::PciToCardbusBridgeHeader;
pub use pci_to_pci_bridge_header::PciToPciBridgeHeader;
