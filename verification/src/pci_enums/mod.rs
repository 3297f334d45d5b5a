//! This module contains enumerations describing the possible value for
//! device class codes ([`PciDeviceClass`]) and device subclass codes
//! ([`PciDeviceSubclass`]).

mod device_class;
mod device_subclass;

pub use device_class::PciDeviceClass;
pub use device_subclass::PciDeviceSubclass;
