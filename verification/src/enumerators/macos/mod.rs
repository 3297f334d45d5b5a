//! What the enumerator for macOS decides and computes: how the properties
//! that IOKit keeps for a device become the device.

pub mod iokit;
