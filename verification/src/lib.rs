//! Decoding of PCI configuration-space headers and reconciliation of
//! independently sourced device properties into per-field results.
//!
//! # Functionality
//! - Parsing of PCI headers starting from byte arrays of the PCI
//!   configuration space. See the [`pci_headers`] module.
//! - A record of a device, [`PciDevice`], in which every property is
//!   present, unsupported or failed on its own.
//! - Merging of the values that several sources contribute for one field of
//!   a device, with detection of conflicts. See
//!   [`enumerators::windows::common::ConflictOption`].
//! - Parsing of PCI device classes and subclasses from their codes. See the
//!   [`pci_enums`] module.
//! - The parts of the enumerators of Linux, Windows, macOS and FreeBSD that
//!   turn what the system hands out into devices. See the [`enumerators`]
//!   module. Reading from the system is left to the caller.
//!
//! The functions come with contracts that Verus proves of them: what they
//! return, on which inputs they fail, and with which error. The few items
//! whose contract is taken on trust, because they call into the standard
//! library where it has no specification, say so in their documentation.

mod error;
mod pci_bus_number;
mod pci_device;
mod pci_info;
mod pci_location;
mod pci_property_result;
pub mod text;

pub mod enumerators;
pub mod pci_enums;
pub mod pci_headers;

pub use error::{
    io_error_kind_text, result_view, PciDeviceEnumerationError, PciDeviceEnumerationErrorImpact,
    PciDeviceEnumerationErrorLocation, PciInfoError, PciInfoErrorString, PciInfoErrorView,
    PciInfoPropertyError, PciInfoPropertyErrorView,
};
pub use pci_bus_number::PciBusNumber;
pub use pci_device::{subsystem_device_of, subsystem_vendor_of, PciDevice, PciDeviceProperties};
pub use pci_info::{
    by_reference, first_device_at, is_device_at, lemma_first_device_at, PciInfo,
    PciInfoRefIterator,
};
pub use pci_location::PciLocation;
pub use pci_property_result::{
    cast_failure, cast_failure_text, is_cast_failure, property_state_text,
    FormattablePropertyResult, PropertyResult,
};
